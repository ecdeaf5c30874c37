use vstd::prelude::*;

verus! {

use crate::packet::{Ip, MysqlProtocol, StreamType, session_key_of};
use crate::model::{
    FrameView,
    SessionView,
    apply_body,
    correlate_step,
    fresh_session,
    wrap_inc,
};

/// Kinds that classification can assign to a request frame.
pub open spec fn is_request_kind(p: MysqlProtocol) -> bool {
    match p {
        MysqlProtocol::ComQuery => true,
        MysqlProtocol::ComQuit => true,
        MysqlProtocol::ComInitDb => true,
        MysqlProtocol::ComProcessKill => true,
        MysqlProtocol::ComStmtPrepare => true,
        MysqlProtocol::Null => true,
        _ => false,
    }
}

/// For a key holding a stored request with sequence id N, a response
/// whose sequence id is not N+1 modulo 256 never mutates or removes that
/// key's record, and nothing is emitted. (A handshake greeting, which
/// overwrites any prior state, and a record still mid-handshake, whose
/// completion is not sequence-checked, are the stated exceptions.)
pub proof fn lemma_stale_response_preserves_record(
    t: Map<u64, SessionView>,
    k: u64,
    f: FrameView,
)
    requires
        f.s_type == StreamType::Response,
        f.ptype != MysqlProtocol::HandshakePacket,
        t.contains_key(k),
        !t[k].connection_pre,
        f.seq_id != wrap_inc(t[k].seq_id),
    ensures
        correlate_step(t, k, f).0 == t,
        correlate_step(t, k, f).1 is None,
{
}

/// A session is retained after decoding a request if and only if the
/// matching body decoder set its retention flag, which happens exactly
/// for the query, schema-change and statement-prepare commands; quit and
/// unrecognized commands are never retained.
pub proof fn lemma_request_retained_iff_ok(t: Map<u64, SessionView>, k: u64, f: FrameView)
    requires
        f.s_type == StreamType::Request,
        !(t.contains_key(k) && t[k].connection_pre),
        is_request_kind(f.ptype),
    ensures
        ({
            let decoded = apply_body(fresh_session(f.host, f.seq_id, f.ts), f.ptype, f.body, f.ts);
            &&& correlate_step(t, k, f).0.contains_key(k) == decoded.is_ok
            &&& decoded.is_ok ==> correlate_step(t, k, f).0[k] == decoded
            &&& decoded.is_ok == (f.ptype == MysqlProtocol::ComQuery || f.ptype
                == MysqlProtocol::ComInitDb || f.ptype == MysqlProtocol::ComStmtPrepare)
            &&& correlate_step(t, k, f).1 is None
        }),
{
}

/// Every record still mid-handshake was created by a handshake greeting
/// and so carries the handshake response kind; each engine step keeps it
/// that way.
pub open spec fn table_handshake_wf(t: Map<u64, SessionView>) -> bool {
    forall|k: u64|
        t.contains_key(k) && (#[trigger] t[k]).connection_pre ==> t[k].server_response
            == MysqlProtocol::HandshakePacket
}

pub proof fn lemma_step_preserves_handshake_wf(t: Map<u64, SessionView>, k: u64, f: FrameView)
    requires
        table_handshake_wf(t),
    ensures
        table_handshake_wf(correlate_step(t, k, f).0),
{
}

/// A handshake-initiated session reaches completion (an emitted record
/// and an evicted key) exactly when the client's credentials packet has
/// been accepted and a later response is terminal: OK, ERR or EOF.
pub proof fn lemma_handshake_completion(t: Map<u64, SessionView>, k: u64, f: FrameView)
    requires
        f.s_type == StreamType::Response,
        f.ptype != MysqlProtocol::HandshakePacket,
        t.contains_key(k),
        t[k].connection_pre,
        t[k].server_response == MysqlProtocol::HandshakePacket,
    ensures
        (correlate_step(t, k, f).1 is Some) == (t[k].create_conn_auth && (f.ptype
            == MysqlProtocol::OKPacket || f.ptype == MysqlProtocol::ERRpacket || f.ptype
            == MysqlProtocol::EOFPacket)),
        correlate_step(t, k, f).1 is Some ==> !correlate_step(t, k, f).0.contains_key(k),
        correlate_step(t, k, f).1 is None ==> correlate_step(t, k, f).0 == t,
{
}

/// Replaying one completed request-and-response pair against an empty
/// table emits exactly one record per replay and leaves the table empty
/// again, so a second replay finds the same state and emits the same
/// record: the final state is idempotent though each replay emits.
pub proof fn lemma_replay_pair_idempotent(k: u64, freq: FrameView, fresp: FrameView)
    requires
        freq.s_type == StreamType::Request,
        is_request_kind(freq.ptype),
        apply_body(fresh_session(freq.host, freq.seq_id, freq.ts), freq.ptype, freq.body, freq.ts).is_ok,
        fresp.s_type == StreamType::Response,
        fresp.ptype != MysqlProtocol::HandshakePacket,
        fresp.seq_id == wrap_inc(freq.seq_id),
    ensures
        ({
            let t0 = Map::<u64, SessionView>::empty();
            let step1 = correlate_step(t0, k, freq);
            let step2 = correlate_step(step1.0, k, fresp);
            let step3 = correlate_step(step2.0, k, freq);
            let step4 = correlate_step(step3.0, k, fresp);
            &&& step1.1 is None
            &&& step2.1 is Some
            &&& step2.0 == t0
            &&& step3 == step1
            &&& step4 == step2
        }),
{
    let t0 = Map::<u64, SessionView>::empty();
    let decoded = apply_body(
        fresh_session(freq.host, freq.seq_id, freq.ts),
        freq.ptype,
        freq.body,
        freq.ts,
    );
    let step1 = correlate_step(t0, k, freq);
    assert(step1.0 == t0.insert(k, decoded));
    assert(decoded.seq_id == freq.seq_id);
    assert(!decoded.connection_pre);
    let step2 = correlate_step(step1.0, k, fresp);
    assert(step2.0 =~= t0);
}

/// Two distinct TCP connections never share a session key: the packed
/// key determines the client address and port exactly.
pub proof fn lemma_session_key_injective(ip1: Ip, p1: u16, ip2: Ip, p2: u16)
    requires
        session_key_of(ip1, p1) == session_key_of(ip2, p2),
    ensures
        ip1 == ip2,
        p1 == p2,
{
    let a1 = ip1.ip_first;
    let b1 = ip1.ip_two;
    let c1 = ip1.ip_three;
    let d1 = ip1.ip_four;
    let a2 = ip2.ip_first;
    let b2 = ip2.ip_two;
    let c2 = ip2.ip_three;
    let d2 = ip2.ip_four;
    assert(session_key_of(ip1, p1) == (a1 as u64) * 0x100_0000_0000 + (b1 as u64) * 0x1_0000_0000
        + (c1 as u64) * 0x100_0000 + (d1 as u64) * 0x1_0000 + (p1 as u64));
    assert(session_key_of(ip2, p2) == (a2 as u64) * 0x100_0000_0000 + (b2 as u64) * 0x1_0000_0000
        + (c2 as u64) * 0x100_0000 + (d2 as u64) * 0x1_0000 + (p2 as u64));
    assert((a1 as u64) * 0x100_0000_0000 + (b1 as u64) * 0x1_0000_0000 + (c1 as u64) * 0x100_0000
        + (d1 as u64) * 0x1_0000 + (p1 as u64) == (a2 as u64) * 0x100_0000_0000 + (b2 as u64)
        * 0x1_0000_0000 + (c2 as u64) * 0x100_0000 + (d2 as u64) * 0x1_0000 + (p2 as u64)
        ==> a1 == a2 && b1 == b2 && c1 == c2 && d1 == d2 && p1 == p2) by (bit_vector);
}

} // verus!
