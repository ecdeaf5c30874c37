use vstd::prelude::*;

verus! {

use crate::packet::{Ip, UnixTime, StreamType, StreamPacket, ip_at, u16_be, ip_chars, is_src_mode,
    stream_is_request};
use crate::session::{AllSessionInfo, SessionInfo};
use crate::model::{HostView, correlate_step, step_malformed};

/// Source and destination of one captured frame, with its capture
/// timestamp and, once classified, its direction.
#[derive(Clone, Debug)]
pub struct HostInfo {
    pub source: Ip,
    pub destination: Ip,
    pub source_port: u16,
    pub destination_port: u16,
    pub ts: UnixTime,
    pub rtype: StreamType,
}

/// The endpoints of a record built straight from a frame, source first.
pub open spec fn host_view_of(h: HostInfo) -> HostView {
    HostView {
        source: ip_chars(h.source),
        destination: ip_chars(h.destination),
        source_port: h.source_port,
        destination_port: h.destination_port,
    }
}

impl HostInfo {
    /// Read the endpoints of one raw frame at their fixed offsets.
    pub fn new(data: &Vec<u8>, ts: &UnixTime) -> (h: HostInfo)
        requires
            data@.len() >= 38,
        ensures
            h.source == ip_at(data@, 26),
            h.destination == ip_at(data@, 30),
            h.source_port == u16_be(data@[34], data@[35]),
            h.destination_port == u16_be(data@[36], data@[37]),
            h.ts == *ts,
            h.rtype == StreamType::Request,
    {
        let source = Ip::new(data, 26);
        let destination = Ip::new(data, 30);
        let source_port = (data[34] as u16) * 0x100 + (data[35] as u16);
        let destination_port = (data[36] as u16) * 0x100 + (data[37] as u16);
        HostInfo {
            source,
            destination,
            source_port,
            destination_port,
            ts: *ts,
            rtype: StreamType::Request,
        }
    }

    /// The frame's endpoints ordered client first, as the monitoring mode
    /// resolves them: (client address, client port, server address,
    /// server port).
    pub fn get_source_destination_info(&self, conf: &crate::Config) -> (r: (String, u16, String, u16))
        ensures
            ({
                let src_ip = ip_chars(self.source);
                let des_ip = ip_chars(self.destination);
                if is_src_mode(*conf) == (conf.host@ == des_ip) {
                    r.0@ == des_ip && r.1 == self.destination_port && r.2@ == src_ip && r.3
                        == self.source_port
                } else {
                    r.0@ == src_ip && r.1 == self.source_port && r.2@ == des_ip && r.3
                        == self.destination_port
                }
            }),
    {
        let des_ip = self.destination.format_ip();
        let src_ip = self.source.format_ip();
        if conf.dtype == String::from_str("src") {
            if conf.host == des_ip {
                (des_ip, self.destination_port, src_ip, self.source_port)
            } else {
                (src_ip, self.source_port, des_ip, self.destination_port)
            }
        } else {
            if conf.host == des_ip {
                (src_ip, self.source_port, des_ip, self.destination_port)
            } else {
                (des_ip, self.destination_port, src_ip, self.source_port)
            }
        }
    }

    /// Does the frame touch the configured port filter (0 means all)?
    pub fn check_port(&self, port: &u16) -> (r: bool)
        ensures
            r == (*port == 0 || self.source_port == *port || self.destination_port == *port),
    {
        if *port == 0 {
            true
        } else if self.source_port == *port {
            true
        } else if self.destination_port == *port {
            true
        } else {
            false
        }
    }

    /// Classify the frame as request or response, record the direction,
    /// and run it through the correlation engine.
    pub fn check_request_respons(
        &mut self,
        conf: &crate::Config,
        all_session: &mut AllSessionInfo,
        data: &Vec<u8>,
    ) -> (r: Result<Option<SessionInfo>, crate::DecodeError>)
        requires
            data@.len() >= 54,
        ensures
            final(self).rtype == (if stream_is_request(*conf, ip_at(data@, 26), ip_at(data@, 30)) {
                StreamType::Request
            } else {
                StreamType::Response
            }),
            final(self).source == old(self).source,
            final(self).destination == old(self).destination,
            final(self).source_port == old(self).source_port,
            final(self).destination_port == old(self).destination_port,
            final(self).ts == old(self).ts,
            final(all_session).connections@ == old(all_session).connections@,
            match r {
                Ok(emitted) => ({
                    let step = correlate_step(
                        old(all_session)@,
                        crate::frame_key_of(data@, *conf),
                        crate::frame_view_of(data@, old(self).ts, *conf),
                    );
                    &&& data@.len() >= 59
                    &&& !step_malformed(
                        old(all_session)@,
                        crate::frame_key_of(data@, *conf),
                        crate::frame_view_of(data@, old(self).ts, *conf),
                    )
                    &&& final(all_session)@ == step.0
                    &&& (match step.1 {
                        Some(v) => emitted matches Some(si) && si@ == v,
                        None => emitted is None,
                    })
                }),
                Err(e) => {
                    &&& e == crate::DecodeError::MalformedFrame
                    &&& final(all_session)@ == old(all_session)@
                    &&& (data@.len() < 59 || step_malformed(
                        old(all_session)@,
                        crate::frame_key_of(data@, *conf),
                        crate::frame_view_of(data@, old(self).ts, *conf),
                    ))
                },
            },
    {
        let len32: u32 = if data.len() > 0xffff_ffff {
            0xffff_ffff
        } else {
            data.len() as u32
        };
        let mut my_packet = StreamPacket::new(data, self.ts, len32);
        let session_key = my_packet.set_stream_type(conf);
        self.rtype = my_packet.s_type;
        proof {
            assert(my_packet.data@ =~= data@.skip(54));
        }
        match my_packet.get_mysql_protocol_header() {
            Err(e) => Err(e),
            Ok(()) => {
                proof {
                    assert(my_packet.frame_view() =~= crate::frame_view_of(data@, self.ts, *conf));
                }
                my_packet.op_session_info(session_key, all_session)
            },
        }
    }
}

} // verus!
