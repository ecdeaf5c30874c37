//! Passive reconstruction of MySQL client/server sessions from captured
//! network frames: frame parsing, direction classification, protocol
//! envelope decoding, and a session-correlation engine keyed by the
//! client-side endpoint.

use vstd::prelude::*;
use vstd::string::*;

pub mod laws;
pub mod model;
pub mod opacket;
pub mod packet;
pub mod protocol;
pub mod session;
pub mod text;

verus! {

use crate::text::{is_dec_string, dec_val, parse_u16};
use crate::packet::{
    StreamPacket,
    StreamType,
    UnixTime,
    ip_at,
    u16_be,
    protocol_of,
    stream_is_request,
    stream_host,
    stream_key,
};
use crate::model::{FrameView, correlate_step, step_malformed};
use crate::session::{AllSessionInfo, SessionInfo};

/// Why one frame's processing was abandoned. The table is left exactly as
/// it was whenever this is returned.
#[derive(Clone, Copy, Debug, PartialEq, Eq, Structural)]
pub enum DecodeError {
    MalformedFrame,
}

/// Raw command-line options, before defaults are applied.
pub struct Opt {
    pub host: Option<String>,
    pub dtype: Option<String>,
    pub port: Option<String>,
    pub ethernet: Option<String>,
}

/// Process-wide monitoring configuration.
pub struct Config {
    pub host: String,
    pub dtype: String,
    pub ethernet: String,
    pub port: u16,
}

impl Config {
    /// Apply defaults: host 127.0.0.1, mode "des" (monitored host is the
    /// destination of requests), interface eth0, port 0 (all ports).
    pub fn new(args: Opt) -> (conf: Config)
        requires
            args.port matches Some(p) ==> is_dec_string(p@) && dec_val(p@) <= 65535,
        ensures
            conf.host@ == (match args.host {
                Some(h) => h@,
                None => "127.0.0.1"@,
            }),
            conf.dtype@ == (match args.dtype {
                Some(t) => t@,
                None => "des"@,
            }),
            conf.ethernet@ == (match args.ethernet {
                Some(e) => e@,
                None => "eth0"@,
            }),
            conf.port as int == (match args.port {
                Some(p) => dec_val(p@),
                None => 0int,
            }),
    {
        let host = match args.host {
            Some(t) => t,
            None => String::from_str("127.0.0.1"),
        };
        let dtype = match args.dtype {
            Some(t) => t,
            None => String::from_str("des"),
        };
        let ethernet = match args.ethernet {
            Some(t) => t,
            None => String::from_str("eth0"),
        };
        let port: u16 = match args.port {
            Some(t) => parse_u16(t.as_str()).unwrap(),
            None => 0,
        };
        Config { host, dtype, ethernet, port }
    }
}

/// Only payload-carrying segments (the PSH+ACK flag pattern) proceed;
/// pure SYN and SYN+ACK connection-setup noise is discarded.
pub fn check_ack_syn(my_packet: &StreamPacket) -> (r: bool)
    ensures
        r == (my_packet.packet_flag == 0x18),
{
    match my_packet.packet_flag {
        0x12 => false,
        0x02 => false,
        0x18 => true,
        _ => false,
    }
}

/// Is this frame filtered out before it reaches the engine: too short to
/// carry protocol payload, not a payload-carrying segment, or outside the
/// configured port filter?
pub open spec fn frame_pre_skipped(data: Seq<u8>, len: u32, conf: Config) -> bool {
    ||| len < 73
    ||| (data.len() >= 54 && data[47] != 0x18)
    ||| (data.len() >= 54 && !(conf.port == 0 || u16_be(data[34], data[35]) == conf.port || u16_be(
        data[36],
        data[37],
    ) == conf.port))
}

/// The classified frame a raw capture yields under this configuration.
pub open spec fn frame_view_of(data: Seq<u8>, ts: UnixTime, conf: Config) -> FrameView {
    let source = ip_at(data, 26);
    let destination = ip_at(data, 30);
    let source_port = u16_be(data[34], data[35]);
    let destination_port = u16_be(data[36], data[37]);
    let s_type = if stream_is_request(conf, source, destination) {
        StreamType::Request
    } else {
        StreamType::Response
    };
    let body = data.skip(54);
    FrameView {
        s_type,
        ptype: protocol_of(body[4], s_type),
        seq_id: body[3],
        body,
        ts,
        host: stream_host(conf, source, destination, source_port, destination_port),
    }
}

/// The session key a raw capture resolves to under this configuration.
pub open spec fn frame_key_of(data: Seq<u8>, conf: Config) -> u64 {
    stream_key(
        conf,
        ip_at(data, 26),
        ip_at(data, 30),
        u16_be(data[34], data[35]),
        u16_be(data[36], data[37]),
    )
}

/// Process one captured frame end to end: filter, parse, classify, read
/// the envelope, and run the correlation engine, returning the completed
/// session record when the frame closes an exchange. On any malformed
/// frame the table is left exactly as it was.
pub fn op_frame(
    conf: &Config,
    all_session: &mut AllSessionInfo,
    data: &Vec<u8>,
    ts: UnixTime,
    len: u32,
) -> (r: Result<Option<SessionInfo>, DecodeError>)
    ensures
        final(all_session).connections@ == old(all_session).connections@,
        match r {
            Ok(emitted) => if frame_pre_skipped(data@, len, *conf) {
                final(all_session)@ == old(all_session)@ && emitted is None
            } else {
                ({
                    let step = correlate_step(
                        old(all_session)@,
                        frame_key_of(data@, *conf),
                        frame_view_of(data@, ts, *conf),
                    );
                    &&& data@.len() >= 59
                    &&& !step_malformed(
                        old(all_session)@,
                        frame_key_of(data@, *conf),
                        frame_view_of(data@, ts, *conf),
                    )
                    &&& final(all_session)@ == step.0
                    &&& (match step.1 {
                        Some(v) => emitted matches Some(si) && si@ == v,
                        None => emitted is None,
                    })
                })
            },
            Err(e) => {
                &&& len >= 73
                &&& !frame_pre_skipped(data@, len, *conf)
                &&& e == DecodeError::MalformedFrame
                &&& final(all_session)@ == old(all_session)@
                &&& (data@.len() < 59 || step_malformed(
                    old(all_session)@,
                    frame_key_of(data@, *conf),
                    frame_view_of(data@, ts, *conf),
                ))
            },
        },
{
    if len < 73 {
        return Ok(None);
    }
    if data.len() < 54 {
        return Err(DecodeError::MalformedFrame);
    }
    let mut my_packet = StreamPacket::new(data, ts, len);
    if !check_ack_syn(&my_packet) {
        return Ok(None);
    }
    if !my_packet.check_port(conf) {
        return Ok(None);
    }
    let session_key = my_packet.set_stream_type(conf);
    proof {
        assert(my_packet.data@ =~= data@.skip(54));
    }
    match my_packet.get_mysql_protocol_header() {
        Err(e) => Err(e),
        Ok(()) => {
            proof {
                assert(my_packet.frame_view() =~= frame_view_of(data@, ts, *conf));
            }
            my_packet.op_session_info(session_key, all_session)
        },
    }
}

} // verus!
