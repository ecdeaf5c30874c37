use vstd::prelude::*;

verus! {

use crate::packet::{MysqlProtocol, StreamType, UnixTime, u32_le, response_matches};
use crate::session::{SessionInfo, Connection};
use crate::text::{utf8_lossy_of, dec_digits};

/// Ghost image of `SessionHostInfo`.
#[verifier::ext_equal]
pub ghost struct HostView {
    pub source: Seq<char>,
    pub destination: Seq<char>,
    pub source_port: u16,
    pub destination_port: u16,
}

impl HostView {
    pub open spec fn empty() -> HostView {
        HostView {
            source: Seq::empty(),
            destination: Seq::empty(),
            source_port: 0,
            destination_port: 0,
        }
    }
}

/// Ghost image of `SessionInfo`: one session record with its text fields
/// as character sequences.
#[verifier::ext_equal]
pub ghost struct SessionView {
    pub source: Seq<char>,
    pub destination: Seq<char>,
    pub source_port: u16,
    pub destination_port: u16,
    pub client_request: MysqlProtocol,
    pub server_response: MysqlProtocol,
    pub user_name: Seq<char>,
    pub create_conn_auth: bool,
    pub execute_sql: Seq<char>,
    pub response_value: Seq<char>,
    pub connection_pre: bool,
    pub seq_id: u8,
    pub start_time: UnixTime,
    pub end_time: UnixTime,
    pub is_ok: bool,
}

/// Ghost image of one classified frame as the correlation engine sees it.
#[verifier::ext_equal]
pub ghost struct FrameView {
    pub s_type: StreamType,
    pub ptype: MysqlProtocol,
    pub seq_id: u8,
    pub body: Seq<u8>,
    pub ts: UnixTime,
    pub host: HostView,
}

/// The record created for the first packet of an exchange.
pub open spec fn fresh_session(h: HostView, seq_id: u8, ts: UnixTime) -> SessionView {
    SessionView {
        source: h.source,
        destination: h.destination,
        source_port: h.source_port,
        destination_port: h.destination_port,
        client_request: MysqlProtocol::Null,
        server_response: MysqlProtocol::Null,
        user_name: Seq::empty(),
        create_conn_auth: false,
        execute_sql: Seq::empty(),
        response_value: Seq::empty(),
        connection_pre: false,
        seq_id: seq_id,
        start_time: ts,
        end_time: UnixTime { tv_sec: 0, tv_usec: 0 },
        is_ok: false,
    }
}

/// The sequence id expected of the next packet: one more, wrapping at 255.
pub open spec fn wrap_inc(seq_id: u8) -> u8 {
    if seq_id == 255 {
        0
    } else {
        (seq_id + 1) as u8
    }
}

/// Index of the first zero byte of `b` at or after `i`, or -1 if none.
pub open spec fn first_zero_from(b: Seq<u8>, i: int) -> int
    decreases b.len() - i,
{
    if i < 0 || i >= b.len() {
        -1
    } else if b[i] == 0 {
        i
    } else {
        first_zero_from(b, i + 1)
    }
}

/// Does decoding a body of this kind need bytes the frame does not have?
pub open spec fn malformed_body(p: MysqlProtocol, body: Seq<u8>) -> bool {
    match p {
        MysqlProtocol::ComQuery => body.len() < 5,
        MysqlProtocol::ComInitDb => body.len() < 5,
        MysqlProtocol::ComStmtPrepare => body.len() < 5,
        MysqlProtocol::ERRpacket => body.len() < 7,
        MysqlProtocol::ComProcessKill => body.len() < 9,
        _ => false,
    }
}

/// The effect of one body decoder on a session record. `body` holds the
/// whole MySQL packet, envelope included, so semantic fields start at
/// offset 5; `ts` is the frame's capture timestamp.
pub open spec fn apply_body(
    s: SessionView,
    p: MysqlProtocol,
    body: Seq<u8>,
    ts: UnixTime,
) -> SessionView {
    match p {
        MysqlProtocol::OKPacket => SessionView {
            server_response: MysqlProtocol::OKPacket,
            end_time: ts,
            connection_pre: false,
            ..s
        },
        MysqlProtocol::EOFPacket => SessionView {
            server_response: MysqlProtocol::EOFPacket,
            end_time: ts,
            connection_pre: false,
            ..s
        },
        MysqlProtocol::ERRpacket => SessionView {
            execute_sql: utf8_lossy_of(body.skip(7)),
            server_response: MysqlProtocol::ERRpacket,
            end_time: ts,
            connection_pre: false,
            ..s
        },
        MysqlProtocol::HandshakePacket => SessionView {
            server_response: MysqlProtocol::HandshakePacket,
            connection_pre: true,
            is_ok: true,
            start_time: ts,
            ..s
        },
        MysqlProtocol::TextResult => if s.connection_pre {
            s
        } else {
            SessionView { server_response: MysqlProtocol::TextResult, end_time: ts, ..s }
        },
        MysqlProtocol::ComQuery => SessionView {
            execute_sql: utf8_lossy_of(body.skip(5)),
            client_request: MysqlProtocol::ComQuery,
            is_ok: true,
            ..s
        },
        MysqlProtocol::ComInitDb => SessionView {
            execute_sql: "use database "@ + utf8_lossy_of(body.skip(5)),
            client_request: MysqlProtocol::ComInitDb,
            is_ok: true,
            ..s
        },
        MysqlProtocol::ComStmtPrepare => SessionView {
            execute_sql: utf8_lossy_of(body.skip(5)),
            client_request: MysqlProtocol::ComStmtPrepare,
            is_ok: true,
            ..s
        },
        MysqlProtocol::ComQuit => SessionView {
            execute_sql: "close connection"@,
            client_request: MysqlProtocol::ComQuit,
            ..s
        },
        MysqlProtocol::ComProcessKill => SessionView {
            execute_sql: "kill connection "@ + dec_digits(
                u32_le(body[5], body[6], body[7], body[8]) as nat,
            ),
            client_request: MysqlProtocol::ComProcessKill,
            ..s
        },
        MysqlProtocol::Null => s,
    }
}

/// The record the handshake-auth decoder leaves: user name read as a
/// null-terminated run after the fixed 32-byte authentication block that
/// follows the 4-byte envelope.
pub open spec fn apply_auth(s: SessionView, body: Seq<u8>) -> SessionView {
    SessionView {
        user_name: utf8_lossy_of(body.subrange(36, first_zero_from(body, 36))),
        create_conn_auth: true,
        ..s
    }
}

/// Would this frame, against this table, need bytes it does not have?
pub open spec fn step_malformed(t: Map<u64, SessionView>, k: u64, f: FrameView) -> bool {
    match f.s_type {
        StreamType::Request => if t.contains_key(k) && t[k].connection_pre {
            f.seq_id == wrap_inc(t[k].seq_id) && first_zero_from(f.body, 36) < 0
        } else {
            malformed_body(f.ptype, f.body)
        },
        StreamType::Response => if f.ptype == MysqlProtocol::HandshakePacket {
            false
        } else if t.contains_key(k) {
            if t[k].connection_pre {
                t[k].create_conn_auth && response_matches(t[k].server_response, f.ptype)
                    && malformed_body(f.ptype, f.body)
            } else {
                f.seq_id == wrap_inc(t[k].seq_id) && malformed_body(f.ptype, f.body)
            }
        } else {
            false
        },
    }
}

/// One step of the session-correlation engine: the table after the frame,
/// and the completed record it emits, if any. Meaningful only when
/// `step_malformed` does not hold of the same arguments.
pub open spec fn correlate_step(t: Map<u64, SessionView>, k: u64, f: FrameView) -> (
    Map<u64, SessionView>,
    Option<SessionView>,
) {
    match f.s_type {
        StreamType::Request => {
            if t.contains_key(k) && t[k].connection_pre {
                if f.seq_id == wrap_inc(t[k].seq_id) {
                    (t.insert(k, apply_auth(t[k], f.body)), None)
                } else {
                    (t, None)
                }
            } else {
                let s1 = apply_body(fresh_session(f.host, f.seq_id, f.ts), f.ptype, f.body, f.ts);
                if s1.is_ok {
                    (t.insert(k, s1), None)
                } else {
                    (t.remove(k), None)
                }
            }
        },
        StreamType::Response => {
            if f.ptype == MysqlProtocol::HandshakePacket {
                let s1 = apply_body(
                    fresh_session(f.host, f.seq_id, f.ts),
                    MysqlProtocol::HandshakePacket,
                    f.body,
                    f.ts,
                );
                (t.insert(k, s1), None)
            } else if t.contains_key(k) {
                if t[k].connection_pre {
                    if t[k].create_conn_auth && response_matches(t[k].server_response, f.ptype) {
                        (t.remove(k), Some(apply_body(t[k], f.ptype, f.body, f.ts)))
                    } else {
                        (t, None)
                    }
                } else if f.seq_id == wrap_inc(t[k].seq_id) {
                    (t.remove(k), Some(apply_body(t[k], f.ptype, f.body, f.ts)))
                } else {
                    (t, None)
                }
            } else {
                (t, None)
            }
        },
    }
}

/// The ghost table: each stored record by its view.
pub open spec fn tview(m: Map<u64, SessionInfo>) -> Map<u64, SessionView> {
    m.map_values(|s: SessionInfo| s@)
}

pub proof fn lemma_tview_insert(m: Map<u64, SessionInfo>, k: u64, v: SessionInfo)
    ensures
        tview(m.insert(k, v)) == tview(m).insert(k, v@),
{
    assert(tview(m.insert(k, v)) =~= tview(m).insert(k, v@));
}

pub proof fn lemma_tview_remove(m: Map<u64, SessionInfo>, k: u64)
    ensures
        tview(m.remove(k)) == tview(m).remove(k),
{
    assert(tview(m.remove(k)) =~= tview(m).remove(k));
}

pub proof fn lemma_tview_contains(m: Map<u64, SessionInfo>, k: u64)
    ensures
        tview(m).contains_key(k) == m.contains_key(k),
        m.contains_key(k) ==> tview(m)[k] == m[k]@,
{
}

} // verus!
