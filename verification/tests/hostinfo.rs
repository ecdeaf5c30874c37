use mysql_sniffer::{Config, Opt};
use mysql_sniffer::opacket::HostInfo;
use mysql_sniffer::packet::{Ip, MysqlProtocol, StreamPacket, UnixTime, session_key};
use mysql_sniffer::protocol::{ClientProtocol, ServerProtocl};
use mysql_sniffer::session::{AllSessionInfo, SessionInfo};

fn frame(src: [u8; 4], dst: [u8; 4], sport: u16, dport: u16, flags: u8, payload: &[u8]) -> Vec<u8> {
    let mut data = vec![0u8; 54];
    data[26..30].copy_from_slice(&src);
    data[30..34].copy_from_slice(&dst);
    data[34..36].copy_from_slice(&sport.to_be_bytes());
    data[36..38].copy_from_slice(&dport.to_be_bytes());
    data[47] = flags;
    data.extend_from_slice(payload);
    data
}

fn server_conf() -> Config {
    Config::new(Opt {
        host: Some("10.0.0.2".to_string()),
        dtype: None,
        port: None,
        ethernet: None,
    })
}

#[test]
fn host_info_parses_endpoints() {
    let data = frame([192, 168, 1, 9], [10, 0, 0, 2], 40000, 3306, 0x18, &[]);
    let h = HostInfo::new(&data, &UnixTime::new(5, 6));
    assert_eq!(h.source.format_ip(), "192.168.1.9");
    assert_eq!(h.destination.format_ip(), "10.0.0.2");
    assert_eq!(h.source_port, 40000);
    assert_eq!(h.destination_port, 3306);
    assert_eq!(h.ts.tv_sec, 5);
}

#[test]
fn source_destination_ordered_client_first() {
    let data = frame([192, 168, 1, 9], [10, 0, 0, 2], 40000, 3306, 0x18, &[]);
    let h = HostInfo::new(&data, &UnixTime::new(0, 0));
    let conf = server_conf();
    // Server mode, destination is the monitored host: the frame flows
    // client to server, so the source comes first.
    let (a, ap, b, bp) = h.get_source_destination_info(&conf);
    assert_eq!(a, "192.168.1.9");
    assert_eq!(ap, 40000);
    assert_eq!(b, "10.0.0.2");
    assert_eq!(bp, 3306);
}

#[test]
fn host_info_port_filter() {
    let data = frame([192, 168, 1, 9], [10, 0, 0, 2], 40000, 3306, 0x18, &[]);
    let h = HostInfo::new(&data, &UnixTime::new(0, 0));
    assert!(h.check_port(&0));
    assert!(h.check_port(&3306));
    assert!(h.check_port(&40000));
    assert!(!h.check_port(&8080));
}

#[test]
fn check_request_respons_runs_engine() {
    let conf = server_conf();
    let mut all = AllSessionInfo::new();
    let mut q = vec![8u8, 0, 0, 4, 0x03];
    q.extend_from_slice(b"SELECT 1");
    let req = frame([10, 0, 0, 1], [10, 0, 0, 2], 5000, 3306, 0x18, &q);
    let mut h = HostInfo::new(&req, &UnixTime::new(9, 0));
    let r = h.check_request_respons(&conf, &mut all, &req).unwrap();
    assert!(r.is_none());
    assert_eq!(all.aluino.len(), 1);
    let resp = frame([10, 0, 0, 2], [10, 0, 0, 1], 3306, 5000, 0x18, &[3, 0, 0, 5, 0x00, 0, 0]);
    let mut h2 = HostInfo::new(&resp, &UnixTime::new(10, 0));
    let r = h2.check_request_respons(&conf, &mut all, &resp).unwrap();
    let record = r.expect("completed record emitted");
    assert_eq!(record.execute_sql, "SELECT 1");
    assert_eq!(all.aluino.len(), 0);
}

#[test]
fn replace_builds_fresh_record_from_frame() {
    let conf = server_conf();
    let mut q = vec![8u8, 0, 0, 4, 0x03];
    q.extend_from_slice(b"SELECT 7");
    let req = frame([10, 0, 0, 1], [10, 0, 0, 2], 5000, 3306, 0x18, &q);
    let h = HostInfo::new(&req, &UnixTime::new(9, 0));
    let mut p = StreamPacket::new(&req, UnixTime::new(9, 0), req.len() as u32);
    p.set_stream_type(&conf);
    p.get_mysql_protocol_header().unwrap();
    let old = SessionInfo::new(&p);
    let si = old.replace(&h, &p).unwrap();
    assert_eq!(si.execute_sql, "SELECT 7");
    assert_eq!(si.client_request, MysqlProtocol::ComQuery);
    assert_eq!(si.seq_id, 4);
    assert!(si.is_ok);
}

#[test]
fn server_pro_unpacket_decodes_ok() {
    let conf = server_conf();
    let resp = frame([10, 0, 0, 2], [10, 0, 0, 1], 3306, 5000, 0x18, &[3, 0, 0, 5, 0x00, 0, 0]);
    let mut p = StreamPacket::new(&resp, UnixTime::new(44, 0), resp.len() as u32);
    p.set_stream_type(&conf);
    p.get_mysql_protocol_header().unwrap();
    let mut si = SessionInfo::new(&p);
    let kind = ServerProtocl::new(0x00);
    kind.server_pro_unpacket(&p, &mut si).unwrap();
    assert_eq!(si.server_response, MysqlProtocol::OKPacket);
    assert_eq!(si.end_time.tv_sec, 44);
}

#[test]
fn client_pro_unpacket_decodes_prepare() {
    let conf = server_conf();
    let mut q = vec![9u8, 0, 0, 0, 0x16];
    q.extend_from_slice(b"SELECT ?");
    let req = frame([10, 0, 0, 1], [10, 0, 0, 2], 5000, 3306, 0x18, &q);
    let mut p = StreamPacket::new(&req, UnixTime::new(0, 0), req.len() as u32);
    p.set_stream_type(&conf);
    p.get_mysql_protocol_header().unwrap();
    let mut si = SessionInfo::new(&p);
    let kind = ClientProtocol::new(0x16);
    kind.client_pro_unpacket(&p, &mut si).unwrap();
    assert_eq!(si.execute_sql, "SELECT ?");
    assert_eq!(si.client_request, MysqlProtocol::ComStmtPrepare);
    assert!(si.is_ok);
    // Untracked commands decode to nothing and are not retained.
    let mut si2 = SessionInfo::new(&p);
    ClientProtocol::new(0x0e).client_pro_unpacket(&p, &mut si2).unwrap();
    assert_eq!(si2.client_request, MysqlProtocol::Null);
    assert!(!si2.is_ok);
}

#[test]
fn session_key_packs_client_endpoint() {
    let ip = Ip { ip_first: 10, ip_two: 0, ip_three: 0, ip_four: 1 };
    let k = session_key(&ip, 5000);
    assert_eq!(
        k,
        (10u64 << 40) | (0u64 << 32) | (0u64 << 24) | (1u64 << 16) | 5000u64
    );
}
