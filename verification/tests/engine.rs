use mysql_sniffer::{op_frame, Config, Opt};
use mysql_sniffer::packet::{Ip, MysqlProtocol, UnixTime, session_key};
use mysql_sniffer::session::AllSessionInfo;

const CLIENT: [u8; 4] = [10, 0, 0, 1];
const SERVER: [u8; 4] = [10, 0, 0, 2];
const CLIENT_PORT: u16 = 5000;
const SERVER_PORT: u16 = 3306;

fn server_conf() -> Config {
    Config::new(Opt {
        host: Some("10.0.0.2".to_string()),
        dtype: None,
        port: None,
        ethernet: None,
    })
}

fn client_key() -> u64 {
    let ip = Ip {
        ip_first: CLIENT[0],
        ip_two: CLIENT[1],
        ip_three: CLIENT[2],
        ip_four: CLIENT[3],
    };
    session_key(&ip, CLIENT_PORT)
}

fn frame(src: [u8; 4], dst: [u8; 4], sport: u16, dport: u16, flags: u8, payload: &[u8]) -> Vec<u8> {
    let mut data = vec![0u8; 54];
    data[26..30].copy_from_slice(&src);
    data[30..34].copy_from_slice(&dst);
    data[34..36].copy_from_slice(&sport.to_be_bytes());
    data[36..38].copy_from_slice(&dport.to_be_bytes());
    data[47] = flags;
    data.extend_from_slice(payload);
    data
}

/// A client-to-server frame carrying the given MySQL packet.
fn request_frame(seq: u8, body: &[u8]) -> Vec<u8> {
    let mut payload = vec![body.len() as u8, 0, 0, seq];
    payload.extend_from_slice(body);
    frame(CLIENT, SERVER, CLIENT_PORT, SERVER_PORT, 0x18, &payload)
}

/// A server-to-client frame carrying the given MySQL packet.
fn response_frame(seq: u8, body: &[u8]) -> Vec<u8> {
    let mut payload = vec![body.len() as u8, 0, 0, seq];
    payload.extend_from_slice(body);
    frame(SERVER, CLIENT, SERVER_PORT, CLIENT_PORT, 0x18, &payload)
}

fn run(conf: &Config, all: &mut AllSessionInfo, data: &[u8]) -> Option<mysql_sniffer::session::SessionInfo> {
    let v = data.to_vec();
    op_frame(conf, all, &v, UnixTime::new(1000, 0), 73).unwrap()
}

#[test]
fn syn_frame_discarded_table_unchanged() {
    let conf = server_conf();
    let mut all = AllSessionInfo::new();
    let data = frame(CLIENT, SERVER, CLIENT_PORT, SERVER_PORT, 0x02, &[0, 0, 0, 0, 0x03]);
    let r = op_frame(&conf, &mut all, &data, UnixTime::new(1000, 0), 80).unwrap();
    assert!(r.is_none());
    assert_eq!(all.aluino.len(), 0);
    // SYN+ACK likewise.
    let data = frame(SERVER, CLIENT, SERVER_PORT, CLIENT_PORT, 0x12, &[0, 0, 0, 0, 0x0a]);
    let r = op_frame(&conf, &mut all, &data, UnixTime::new(1000, 0), 80).unwrap();
    assert!(r.is_none());
    assert_eq!(all.aluino.len(), 0);
}

#[test]
fn short_capture_skipped() {
    let conf = server_conf();
    let mut all = AllSessionInfo::new();
    let data = frame(CLIENT, SERVER, CLIENT_PORT, SERVER_PORT, 0x18, &[0, 0, 0, 0, 0x03]);
    // Captured length below the filtering floor: the frame never reaches the engine.
    let r = op_frame(&conf, &mut all, &data, UnixTime::new(1000, 0), 60).unwrap();
    assert!(r.is_none());
    assert_eq!(all.aluino.len(), 0);
}

#[test]
fn handshake_creates_pre_entry() {
    let conf = server_conf();
    let mut all = AllSessionInfo::new();
    // Server greeting: protocol v10 marker, then version bytes.
    let mut hs = vec![0x0au8];
    hs.extend_from_slice(b"8.0.32\0");
    let r = run(&conf, &mut all, &response_frame(0, &hs));
    assert!(r.is_none());
    assert_eq!(all.aluino.len(), 1);
    let entry = all.aluino.get(&client_key()).unwrap();
    assert!(entry.connection_pre);
    assert!(!entry.create_conn_auth);
    assert_eq!(entry.server_response, MysqlProtocol::HandshakePacket);
    assert_eq!(entry.seq_id, 0);
}

#[test]
fn handshake_v9_marker_also_recognized() {
    let conf = server_conf();
    let mut all = AllSessionInfo::new();
    let r = run(&conf, &mut all, &response_frame(0, &[0x09, 1, 2, 3]));
    assert!(r.is_none());
    let entry = all.aluino.get(&client_key()).unwrap();
    assert!(entry.connection_pre);
}

/// The client credentials packet: 32 bytes of authentication data, then
/// the null-terminated user name.
fn auth_body(user: &[u8]) -> Vec<u8> {
    let mut body = vec![0x85u8; 32];
    body.extend_from_slice(user);
    body.push(0);
    body
}

#[test]
fn auth_packet_sets_user_name() {
    let conf = server_conf();
    let mut all = AllSessionInfo::new();
    run(&conf, &mut all, &response_frame(0, &[0x0a, 1, 2, 3]));
    let r = run(&conf, &mut all, &request_frame(1, &auth_body(b"root")));
    assert!(r.is_none());
    let entry = all.aluino.get(&client_key()).unwrap();
    assert_eq!(entry.user_name, "root");
    assert!(entry.create_conn_auth);
    assert!(entry.connection_pre);
}

#[test]
fn auth_packet_sequence_mismatch_ignored() {
    let conf = server_conf();
    let mut all = AllSessionInfo::new();
    run(&conf, &mut all, &response_frame(0, &[0x0a, 1, 2, 3]));
    let r = run(&conf, &mut all, &request_frame(5, &auth_body(b"root")));
    assert!(r.is_none());
    let entry = all.aluino.get(&client_key()).unwrap();
    assert_eq!(entry.user_name, "");
    assert!(!entry.create_conn_auth);
    assert!(entry.connection_pre);
}

#[test]
fn auth_packet_without_terminator_malformed() {
    let conf = server_conf();
    let mut all = AllSessionInfo::new();
    run(&conf, &mut all, &response_frame(0, &[0x0a, 1, 2, 3]));
    let mut body = vec![0x85u8; 32];
    body.extend_from_slice(b"root");
    let mut payload = vec![body.len() as u8, 0, 0, 1];
    payload.extend_from_slice(&body);
    let data = frame(CLIENT, SERVER, CLIENT_PORT, SERVER_PORT, 0x18, &payload);
    let r = op_frame(&conf, &mut all, &data, UnixTime::new(1000, 0), 73);
    assert!(r.is_err());
    let entry = all.aluino.get(&client_key()).unwrap();
    assert_eq!(entry.user_name, "");
    assert!(!entry.create_conn_auth);
}

#[test]
fn handshake_completes_on_ok() {
    let conf = server_conf();
    let mut all = AllSessionInfo::new();
    run(&conf, &mut all, &response_frame(0, &[0x0a, 1, 2, 3]));
    run(&conf, &mut all, &request_frame(1, &auth_body(b"root")));
    let r = run(&conf, &mut all, &response_frame(2, &[0x00, 0, 0]));
    let record = r.expect("completed record emitted");
    assert_eq!(record.server_response, MysqlProtocol::OKPacket);
    assert_eq!(record.user_name, "root");
    assert!(!record.connection_pre);
    assert_eq!(all.aluino.len(), 0);
}

#[test]
fn handshake_completes_on_err() {
    let conf = server_conf();
    let mut all = AllSessionInfo::new();
    run(&conf, &mut all, &response_frame(0, &[0x0a, 1, 2, 3]));
    run(&conf, &mut all, &request_frame(1, &auth_body(b"bob")));
    let mut err_body = vec![0xffu8, 0x15, 0x04];
    err_body.extend_from_slice(b"Access denied");
    let r = run(&conf, &mut all, &response_frame(2, &err_body));
    let record = r.expect("completed record emitted");
    assert_eq!(record.server_response, MysqlProtocol::ERRpacket);
    assert_eq!(record.execute_sql, "Access denied");
    assert_eq!(all.aluino.len(), 0);
}

#[test]
fn handshake_nonterminal_response_keeps_waiting() {
    let conf = server_conf();
    let mut all = AllSessionInfo::new();
    run(&conf, &mut all, &response_frame(0, &[0x0a, 1, 2, 3]));
    run(&conf, &mut all, &request_frame(1, &auth_body(b"root")));
    // Result-set style continuation is not terminal for a handshake.
    let r = run(&conf, &mut all, &response_frame(2, &[0x42, 1, 2]));
    assert!(r.is_none());
    let entry = all.aluino.get(&client_key()).unwrap();
    assert!(entry.connection_pre);
    assert!(entry.create_conn_auth);
}

#[test]
fn response_before_auth_ignored() {
    let conf = server_conf();
    let mut all = AllSessionInfo::new();
    run(&conf, &mut all, &response_frame(0, &[0x0a, 1, 2, 3]));
    let r = run(&conf, &mut all, &response_frame(1, &[0x00, 0, 0]));
    assert!(r.is_none());
    let entry = all.aluino.get(&client_key()).unwrap();
    assert!(entry.connection_pre);
    assert!(!entry.create_conn_auth);
}

#[test]
fn query_then_ok_emits_record() {
    let conf = server_conf();
    let mut all = AllSessionInfo::new();
    let mut q = vec![0x03u8];
    q.extend_from_slice(b"SELECT 1");
    let r = run(&conf, &mut all, &request_frame(5, &q));
    assert!(r.is_none());
    assert_eq!(all.aluino.len(), 1);
    assert_eq!(all.aluino.get(&client_key()).unwrap().execute_sql, "SELECT 1");
    let r = run(&conf, &mut all, &response_frame(6, &[0x00, 0, 0]));
    let record = r.expect("completed record emitted");
    assert_eq!(record.execute_sql, "SELECT 1");
    assert_eq!(record.client_request, MysqlProtocol::ComQuery);
    assert_eq!(record.server_response, MysqlProtocol::OKPacket);
    assert_eq!(all.aluino.len(), 0);
}

#[test]
fn stale_response_leaves_request_pending() {
    let conf = server_conf();
    let mut all = AllSessionInfo::new();
    let mut q = vec![0x03u8];
    q.extend_from_slice(b"SELECT 1");
    run(&conf, &mut all, &request_frame(5, &q));
    // Sequence id does not follow the stored one.
    let r = run(&conf, &mut all, &response_frame(9, &[0x00, 0, 0]));
    assert!(r.is_none());
    assert_eq!(all.aluino.len(), 1);
    let entry = all.aluino.get(&client_key()).unwrap();
    assert_eq!(entry.execute_sql, "SELECT 1");
    assert_eq!(entry.seq_id, 5);
    assert_eq!(entry.client_request, MysqlProtocol::ComQuery);
}

#[test]
fn sequence_id_wraps_at_255() {
    let conf = server_conf();
    let mut all = AllSessionInfo::new();
    let mut q = vec![0x03u8];
    q.extend_from_slice(b"SELECT 2");
    run(&conf, &mut all, &request_frame(255, &q));
    let r = run(&conf, &mut all, &response_frame(0, &[0x00, 0, 0]));
    assert!(r.is_some());
    assert_eq!(all.aluino.len(), 0);
}

#[test]
fn quit_and_unknown_commands_not_retained() {
    let conf = server_conf();
    let mut all = AllSessionInfo::new();
    let r = run(&conf, &mut all, &request_frame(0, &[0x01]));
    assert!(r.is_none());
    assert_eq!(all.aluino.len(), 0);
    let r = run(&conf, &mut all, &request_frame(0, &[0x99, 1, 2]));
    assert!(r.is_none());
    assert_eq!(all.aluino.len(), 0);
    // A kill command synthesizes text but is still not retained.
    let r = run(&conf, &mut all, &request_frame(0, &[0x0c, 1, 0, 0, 0]));
    assert!(r.is_none());
    assert_eq!(all.aluino.len(), 0);
}

#[test]
fn second_request_replaces_pending_one() {
    let conf = server_conf();
    let mut all = AllSessionInfo::new();
    let mut q1 = vec![0x03u8];
    q1.extend_from_slice(b"SELECT 1");
    run(&conf, &mut all, &request_frame(5, &q1));
    let mut q2 = vec![0x03u8];
    q2.extend_from_slice(b"SELECT 2");
    run(&conf, &mut all, &request_frame(9, &q2));
    assert_eq!(all.aluino.len(), 1);
    let entry = all.aluino.get(&client_key()).unwrap();
    assert_eq!(entry.execute_sql, "SELECT 2");
    assert_eq!(entry.seq_id, 9);
}

#[test]
fn quit_after_pending_request_discards_entry() {
    let conf = server_conf();
    let mut all = AllSessionInfo::new();
    let mut q = vec![0x03u8];
    q.extend_from_slice(b"SELECT 1");
    run(&conf, &mut all, &request_frame(5, &q));
    assert_eq!(all.aluino.len(), 1);
    // A second request replaces the pending one; quit is never retained,
    // so the key ends up absent and the first exchange stays unresolved.
    let r = run(&conf, &mut all, &request_frame(0, &[0x01]));
    assert!(r.is_none());
    assert_eq!(all.aluino.len(), 0);
}

#[test]
fn handshake_overwrites_pending_request() {
    let conf = server_conf();
    let mut all = AllSessionInfo::new();
    let mut q = vec![0x03u8];
    q.extend_from_slice(b"SELECT 1");
    run(&conf, &mut all, &request_frame(5, &q));
    // A fresh server greeting for the same key replaces whatever was
    // tracked, whatever its sequence id.
    let r = run(&conf, &mut all, &response_frame(0, &[0x0a, 1, 2, 3]));
    assert!(r.is_none());
    assert_eq!(all.aluino.len(), 1);
    let entry = all.aluino.get(&client_key()).unwrap();
    assert!(entry.connection_pre);
    assert_eq!(entry.execute_sql, "");
}

#[test]
fn replaying_completed_pair_is_idempotent() {
    let conf = server_conf();
    let mut all = AllSessionInfo::new();
    let mut q = vec![0x03u8];
    q.extend_from_slice(b"SELECT 1");
    let request = request_frame(5, &q);
    let response = response_frame(6, &[0x00, 0, 0]);
    let mut emitted = 0;
    for _ in 0..2 {
        assert!(run(&conf, &mut all, &request).is_none());
        if run(&conf, &mut all, &response).is_some() {
            emitted += 1;
        }
    }
    assert_eq!(emitted, 2);
    assert_eq!(all.aluino.len(), 0);
}

#[test]
fn same_port_different_addresses_never_collide() {
    let conf = server_conf();
    let mut all = AllSessionInfo::new();
    let other: [u8; 4] = [10, 0, 0, 7];
    let mut q = vec![0x03u8];
    q.extend_from_slice(b"SELECT 1");
    let mut payload = vec![q.len() as u8, 0, 0, 4];
    payload.extend_from_slice(&q);
    let f1 = frame(CLIENT, SERVER, CLIENT_PORT, SERVER_PORT, 0x18, &payload);
    let f2 = frame(other, SERVER, CLIENT_PORT, SERVER_PORT, 0x18, &payload);
    run(&conf, &mut all, &f1);
    run(&conf, &mut all, &f2);
    assert_eq!(all.aluino.len(), 2);
}

#[test]
fn port_filter_drops_other_traffic() {
    let conf = Config::new(Opt {
        host: Some("10.0.0.2".to_string()),
        dtype: None,
        port: Some("3306".to_string()),
        ethernet: None,
    });
    let mut all = AllSessionInfo::new();
    let mut q = vec![0x03u8];
    q.extend_from_slice(b"SELECT 1");
    let mut payload = vec![q.len() as u8, 0, 0, 4];
    payload.extend_from_slice(&q);
    // Neither port matches the filter.
    let f = frame(CLIENT, SERVER, CLIENT_PORT, 8080, 0x18, &payload);
    let r = op_frame(&conf, &mut all, &f, UnixTime::new(1000, 0), 73).unwrap();
    assert!(r.is_none());
    assert_eq!(all.aluino.len(), 0);
    // The server port matches.
    let f = frame(CLIENT, SERVER, CLIENT_PORT, 3306, 0x18, &payload);
    op_frame(&conf, &mut all, &f, UnixTime::new(1000, 0), 73).unwrap();
    assert_eq!(all.aluino.len(), 1);
}

#[test]
fn client_mode_keys_by_monitored_host_port() {
    // Monitored host is the TCP client ("src" mode).
    let conf = Config::new(Opt {
        host: Some("10.0.0.1".to_string()),
        dtype: Some("src".to_string()),
        port: None,
        ethernet: None,
    });
    let mut all = AllSessionInfo::new();
    let mut q = vec![0x03u8];
    q.extend_from_slice(b"SELECT 1");
    run(&conf, &mut all, &request_frame(5, &q));
    assert_eq!(all.aluino.len(), 1);
    // The response maps to the same key and completes the exchange.
    let r = run(&conf, &mut all, &response_frame(6, &[0x00, 0, 0]));
    assert!(r.is_some());
    assert_eq!(all.aluino.len(), 0);
}

#[test]
fn timestamps_recorded_on_completion() {
    let conf = server_conf();
    let mut all = AllSessionInfo::new();
    let mut q = vec![0x03u8];
    q.extend_from_slice(b"SELECT 1");
    let request = request_frame(5, &q);
    let response = response_frame(6, &[0x00, 0, 0]);
    op_frame(&conf, &mut all, &request, UnixTime::new(100, 7), 73).unwrap();
    let r = op_frame(&conf, &mut all, &response, UnixTime::new(200, 9), 73).unwrap();
    let record = r.unwrap();
    assert_eq!(record.start_time.tv_sec, 100);
    assert_eq!(record.start_time.tv_usec, 7);
    assert_eq!(record.end_time.tv_sec, 200);
    assert_eq!(record.end_time.tv_usec, 9);
}
