use vstd::prelude::*;
use vstd::string::*;
use std::collections::HashMap;

verus! {

use crate::packet::{MysqlProtocol, StreamPacket, StreamType, UnixTime};
use crate::model::{HostView, SessionView, fresh_session, tview, wrap_inc, first_zero_from};

/// The two endpoints of one observed connection, request side first.
#[derive(Clone, Debug)]
pub struct SessionHostInfo {
    pub source: String,
    pub destination: String,
    pub source_port: u16,
    pub destination_port: u16,
}

impl View for SessionHostInfo {
    type V = HostView;

    open spec fn view(&self) -> HostView {
        HostView {
            source: self.source@,
            destination: self.destination@,
            source_port: self.source_port,
            destination_port: self.destination_port,
        }
    }
}

impl SessionHostInfo {
    pub fn new() -> (h: SessionHostInfo)
        ensures
            h@ == HostView::empty(),
    {
        let h = SessionHostInfo {
            source: String::new(),
            destination: String::new(),
            source_port: 0,
            destination_port: 0,
        };
        h
    }

    pub fn set(
        &mut self,
        source: String,
        destination: String,
        source_port: u16,
        destination_port: u16,
    )
        ensures
            final(self)@ == (HostView {
                source: source@,
                destination: destination@,
                source_port,
                destination_port,
            }),
    {
        self.source = source;
        self.destination = destination;
        self.source_port = source_port;
        self.destination_port = destination_port;
    }
}

/// One in-flight request/response exchange or handshake, mutated in place
/// by every packet that shares its session key.
#[derive(Debug)]
pub struct SessionInfo {
    pub source: String,
    pub destination: String,
    pub source_port: u16,
    pub destination_port: u16,
    pub client_request: MysqlProtocol,
    pub server_response: MysqlProtocol,
    pub user_name: String,
    pub create_conn_auth: bool,
    pub execute_sql: String,
    pub response_value: String,
    pub connection_pre: bool,
    pub seq_id: u8,
    pub start_time: UnixTime,
    pub end_time: UnixTime,
    pub is_ok: bool,
}

impl View for SessionInfo {
    type V = SessionView;

    open spec fn view(&self) -> SessionView {
        SessionView {
            source: self.source@,
            destination: self.destination@,
            source_port: self.source_port,
            destination_port: self.destination_port,
            client_request: self.client_request,
            server_response: self.server_response,
            user_name: self.user_name@,
            create_conn_auth: self.create_conn_auth,
            execute_sql: self.execute_sql@,
            response_value: self.response_value@,
            connection_pre: self.connection_pre,
            seq_id: self.seq_id,
            start_time: self.start_time,
            end_time: self.end_time,
            is_ok: self.is_ok,
        }
    }
}

impl Clone for SessionInfo {
    fn clone(&self) -> (r: Self)
        ensures
            r == *self,
    {
        SessionInfo {
            source: self.source.clone(),
            destination: self.destination.clone(),
            source_port: self.source_port,
            destination_port: self.destination_port,
            client_request: self.client_request,
            server_response: self.server_response,
            user_name: self.user_name.clone(),
            create_conn_auth: self.create_conn_auth,
            execute_sql: self.execute_sql.clone(),
            response_value: self.response_value.clone(),
            connection_pre: self.connection_pre,
            seq_id: self.seq_id,
            start_time: self.start_time,
            end_time: self.end_time,
            is_ok: self.is_ok,
        }
    }
}

impl SessionInfo {
    /// A fresh record for the packet's session: endpoints from the
    /// classifier, sequence id and start time from the packet itself.
    pub fn new(stream_packet: &StreamPacket) -> (si: SessionInfo)
        ensures
            si@ == fresh_session(
                stream_packet.session_host_info@,
                stream_packet.protocol_header.seq_id,
                stream_packet.ts,
            ),
    {
        SessionInfo {
            source: stream_packet.session_host_info.source.clone(),
            destination: stream_packet.session_host_info.destination.clone(),
            source_port: stream_packet.session_host_info.source_port,
            destination_port: stream_packet.session_host_info.destination_port,
            client_request: MysqlProtocol::Null,
            server_response: MysqlProtocol::Null,
            user_name: String::new(),
            create_conn_auth: false,
            execute_sql: String::new(),
            response_value: String::new(),
            connection_pre: false,
            seq_id: stream_packet.protocol_header.seq_id,
            start_time: stream_packet.ts,
            end_time: UnixTime { tv_sec: 0, tv_usec: 0 },
            is_ok: false,
        }
    }

    /// Build a fresh record for this frame's session from the parsed
    /// endpoints, replacing whatever was tracked before, and decode the
    /// packet body into it.
    pub fn replace(
        &self,
        host_info: &crate::opacket::HostInfo,
        stream_packet: &StreamPacket,
    ) -> (r: Result<SessionInfo, crate::DecodeError>)
        ensures
            ({
                let ptype = stream_packet.protocol_header.protocol_type;
                let base = fresh_session(
                    crate::opacket::host_view_of(*host_info),
                    stream_packet.protocol_header.seq_id,
                    host_info.ts,
                );
                match r {
                    Ok(si) => !crate::model::malformed_body(ptype, stream_packet.data@) && si@
                        == crate::model::apply_body(
                        base,
                        ptype,
                        stream_packet.data@,
                        stream_packet.ts,
                    ),
                    Err(e) => crate::model::malformed_body(ptype, stream_packet.data@) && e
                        == crate::DecodeError::MalformedFrame,
                }
            }),
    {
        let mut si = SessionInfo {
            source: host_info.source.format_ip(),
            destination: host_info.destination.format_ip(),
            source_port: host_info.source_port,
            destination_port: host_info.destination_port,
            client_request: MysqlProtocol::Null,
            server_response: MysqlProtocol::Null,
            user_name: String::new(),
            create_conn_auth: false,
            execute_sql: String::new(),
            response_value: String::new(),
            connection_pre: false,
            seq_id: stream_packet.protocol_header.seq_id,
            start_time: host_info.ts,
            end_time: UnixTime { tv_sec: 0, tv_usec: 0 },
            is_ok: false,
        };
        let ptype = stream_packet.protocol_header.protocol_type;
        match ptype.protocol_unpacket(stream_packet, &mut si) {
            Ok(()) => Ok(si),
            Err(e) => Err(e),
        }
    }

    /// Decode the packet body into this record, then either store it (a
    /// request awaiting its response) or emit it and evict its key (a
    /// response completing the exchange).
    pub fn session_unpacket(
        &mut self,
        stream_packet: &StreamPacket,
        session_key: u64,
        all_session: &mut AllSessionInfo,
    ) -> (r: Result<Option<SessionInfo>, crate::DecodeError>)
        ensures
            match r {
                Ok(emitted) => ({
                    let ptype = stream_packet.protocol_header.protocol_type;
                    let decoded = crate::model::apply_body(
                        old(self)@,
                        ptype,
                        stream_packet.data@,
                        stream_packet.ts,
                    );
                    &&& !crate::model::malformed_body(ptype, stream_packet.data@)
                    &&& final(self)@ == decoded
                    &&& final(all_session).connections@ == old(all_session).connections@
                    &&& match stream_packet.s_type {
                        StreamType::Request => {
                            &&& final(all_session)@ == (if decoded.is_ok {
                                old(all_session)@.insert(session_key, decoded)
                            } else {
                                old(all_session)@
                            })
                            &&& emitted is None
                        },
                        StreamType::Response => {
                            &&& final(all_session)@ == old(all_session)@.remove(session_key)
                            &&& emitted matches Some(si) && si@ == decoded
                        },
                    }
                }),
                Err(e) => {
                    &&& crate::model::malformed_body(
                        stream_packet.protocol_header.protocol_type,
                        stream_packet.data@,
                    )
                    &&& *final(self) == *old(self)
                    &&& *final(all_session) == *old(all_session)
                    &&& e == crate::DecodeError::MalformedFrame
                },
            },
    {
        let protocol_type = stream_packet.protocol_header.protocol_type;
        match protocol_type.protocol_unpacket(stream_packet, self) {
            Err(e) => Err(e),
            Ok(()) => {
                match stream_packet.s_type {
                    StreamType::Request => {
                        self.insert(all_session, session_key);
                        Ok(None)
                    },
                    StreamType::Response => {
                        let emitted = self.clone();
                        all_session.remove(session_key);
                        Ok(Some(emitted))
                    },
                }
            },
        }
    }

    /// The client's authentication packet, answering the server's
    /// handshake: accept it only when its sequence id follows the stored
    /// one, then read the user name that follows the fixed 32-byte
    /// authentication-data block. On a sequence mismatch the packet is
    /// ignored and the record kept waiting.
    pub fn unpacket_handshake_response(&mut self, stream_packet: &StreamPacket) -> (r: Result<
        (),
        crate::DecodeError,
    >)
        ensures
            match r {
                Ok(()) => if stream_packet.protocol_header.seq_id == wrap_inc(old(self).seq_id) {
                    first_zero_from(stream_packet.data@, 36) >= 0 && final(self)@
                        == crate::model::apply_auth(old(self)@, stream_packet.data@)
                } else {
                    *final(self) == *old(self)
                },
                Err(e) => {
                    &&& stream_packet.protocol_header.seq_id == wrap_inc(old(self).seq_id)
                    &&& first_zero_from(stream_packet.data@, 36) < 0
                    &&& *final(self) == *old(self)
                    &&& e == crate::DecodeError::MalformedFrame
                },
            },
    {
        let expected: u8 = if self.seq_id == 255 {
            0
        } else {
            self.seq_id + 1
        };
        if stream_packet.protocol_header.seq_id != expected {
            return Ok(());
        }
        let n = stream_packet.data.len();
        if n <= 36 {
            return Err(crate::DecodeError::MalformedFrame);
        }
        let mut i: usize = 36;
        #[verifier::loop_isolation(false)]
        while i < n
            invariant
                36 <= i <= n,
                *self == *old(self),
                first_zero_from(stream_packet.data@, 36) == first_zero_from(
                    stream_packet.data@,
                    i as int,
                ),
            decreases n - i,
        {
            if stream_packet.data[i] == 0 {
                proof {
                    assert(first_zero_from(stream_packet.data@, i as int) == i);
                }
                let user = crate::text::vec_range_text(&stream_packet.data, 36, i);
                self.user_name = user;
                self.create_conn_auth = true;
                proof {
                    assert(self@ =~= crate::model::apply_auth(old(self)@, stream_packet.data@));
                }
                return Ok(());
            }
            i = i + 1;
        }
        proof {
            assert(first_zero_from(stream_packet.data@, n as int) == -1);
        }
        Err(crate::DecodeError::MalformedFrame)
    }

    /// Store the record under its key, but only if the body decoder marked
    /// it worth retaining; unrecognized commands are never inserted.
    pub fn insert(&self, all_session_info: &mut AllSessionInfo, session_key: u64)
        ensures
            all_session_info_updated(*old(all_session_info), *final(all_session_info), *self, session_key),
    {
        if self.is_ok {
            let copy = self.clone();
            all_session_info.aluino.insert(session_key, copy);
            proof {
                crate::model::lemma_tview_insert(old(all_session_info).aluino@, session_key, *self);
            }
        }
    }
}

/// After `SessionInfo::insert`: stored under the key iff the record's
/// retention flag is set, and nothing else moved.
pub open spec fn all_session_info_updated(
    pre: AllSessionInfo,
    post: AllSessionInfo,
    si: SessionInfo,
    session_key: u64,
) -> bool {
    &&& post@ == (if si.is_ok {
        pre@.insert(session_key, si@)
    } else {
        pre@
    })
    &&& post.connections@ == pre.connections@
}

/// One observed connection with its user, kept aside from the live table.
#[derive(Debug)]
pub struct Connection {
    pub host: String,
    pub port: u16,
    pub user_name: String,
}

/// The live session table: at most one record per session key; insertion
/// always overwrites.
#[derive(Debug)]
pub struct AllSessionInfo {
    pub aluino: HashMap<u64, SessionInfo>,
    pub connections: HashMap<u64, Connection>,
}

impl View for AllSessionInfo {
    type V = Map<u64, SessionView>;

    open spec fn view(&self) -> Map<u64, SessionView> {
        tview(self.aluino@)
    }
}

impl AllSessionInfo {
    pub fn new() -> (all: AllSessionInfo)
        ensures
            all@ == Map::<u64, SessionView>::empty(),
            all.connections@ == Map::<u64, Connection>::empty(),
    {
        let all = AllSessionInfo { aluino: HashMap::new(), connections: HashMap::new() };
        proof {
            assert(all@ =~= Map::<u64, SessionView>::empty());
        }
        all
    }

    pub fn remove(&mut self, session_key: u64)
        ensures
            final(self)@ == old(self)@.remove(session_key),
            final(self).connections@ == old(self).connections@,
    {
        self.aluino.remove(&session_key);
        proof {
            crate::model::lemma_tview_remove(old(self).aluino@, session_key);
        }
    }
}

} // verus!
