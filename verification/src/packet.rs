use vstd::prelude::*;
use vstd::string::*;
use vstd::slice::{slice_subrange, slice_to_vec};

verus! {

use crate::text::{dec_digits, u64_dec};
use crate::session::{SessionHostInfo, SessionInfo, AllSessionInfo};
use crate::model::{
    HostView,
    SessionView,
    FrameView,
    apply_body,
    malformed_body,
    correlate_step,
    step_malformed,
};

/// Capture timestamp: seconds and microseconds since the epoch.
#[derive(Clone, Copy, Debug, PartialEq, Eq, Structural)]
pub struct UnixTime {
    pub tv_sec: u64,
    pub tv_usec: u64,
}

impl UnixTime {
    pub fn new(tv_sec: u64, tv_usec: u64) -> (t: UnixTime)
        ensures
            t == (UnixTime { tv_sec, tv_usec }),
    {
        UnixTime { tv_sec, tv_usec }
    }
}

/// IPv4 address as four octets.
#[derive(Clone, Copy, Debug, PartialEq, Eq, Structural)]
pub struct Ip {
    pub ip_first: u8,
    pub ip_two: u8,
    pub ip_three: u8,
    pub ip_four: u8,
}

/// The dotted-decimal characters of an IPv4 address.
pub open spec fn ip_chars(ip: Ip) -> Seq<char> {
    dec_digits(ip.ip_first as nat) + "."@ + dec_digits(ip.ip_two as nat) + "."@ + dec_digits(
        ip.ip_three as nat,
    ) + "."@ + dec_digits(ip.ip_four as nat)
}

/// The four octets of `data` starting at `at`.
pub open spec fn ip_at(data: Seq<u8>, at: int) -> Ip {
    Ip {
        ip_first: data[at],
        ip_two: data[at + 1],
        ip_three: data[at + 2],
        ip_four: data[at + 3],
    }
}

impl Ip {
    /// Read four octets of `data` starting at offset `at`.
    pub fn new(data: &Vec<u8>, at: usize) -> (ip: Ip)
        requires
            at + 4 <= data@.len(),
        ensures
            ip == ip_at(data@, at as int),
    {
        let n = data.len();
        assert(at + 4 <= n);
        Ip {
            ip_first: data[at],
            ip_two: data[at + 1],
            ip_three: data[at + 2],
            ip_four: data[at + 3],
        }
    }

    /// Dotted-decimal rendering, "a.b.c.d".
    pub fn format_ip(&self) -> (r: String)
        ensures
            r@ == ip_chars(*self),
    {
        let mut s = u64_dec(self.ip_first as u64);
        s.append(".");
        let t2 = u64_dec(self.ip_two as u64);
        s.append(t2.as_str());
        s.append(".");
        let t3 = u64_dec(self.ip_three as u64);
        s.append(t3.as_str());
        s.append(".");
        let t4 = u64_dec(self.ip_four as u64);
        s.append(t4.as_str());
        s
    }
}

/// The canonical session key: the client-side endpoint, packed as one
/// integer with each address octet and the port in its own field of bits.
pub open spec fn session_key_of(ip: Ip, port: u16) -> u64 {
    (ip.ip_first * 0x100_0000_0000 + ip.ip_two * 0x1_0000_0000 + ip.ip_three * 0x100_0000
        + ip.ip_four * 0x1_0000 + port) as u64
}

/// Pack an endpoint into its session key.
pub fn session_key(ip: &Ip, port: u16) -> (k: u64)
    ensures
        k == session_key_of(*ip, port),
{
    (ip.ip_first as u64) * 0x100_0000_0000 + (ip.ip_two as u64) * 0x1_0000_0000 + (ip.ip_three
        as u64) * 0x100_0000 + (ip.ip_four as u64) * 0x1_0000 + (port as u64)
}

/// Direction of one captured frame relative to the monitored host.
#[derive(Clone, Copy, Debug, PartialEq, Eq, Structural)]
pub enum StreamType {
    Request,
    Response,
}

/// The closed set of MySQL message kinds this engine classifies.
#[derive(Clone, Copy, Debug, PartialEq, Eq, Structural)]
pub enum MysqlProtocol {
    OKPacket,
    EOFPacket,
    ERRpacket,
    HandshakePacket,
    TextResult,
    ComQuery,
    ComQuit,
    ComInitDb,
    ComProcessKill,
    ComStmtPrepare,
    Null,
}

/// Direction-sensitive classification of the first payload byte: the same
/// byte can mean different things on a request and on a response.
pub open spec fn protocol_of(code: u8, s_type: StreamType) -> MysqlProtocol {
    match s_type {
        StreamType::Request => if code == 0x03 {
            MysqlProtocol::ComQuery
        } else if code == 0x01 {
            MysqlProtocol::ComQuit
        } else if code == 0x02 {
            MysqlProtocol::ComInitDb
        } else if code == 0x0c {
            MysqlProtocol::ComProcessKill
        } else if code == 0x16 {
            MysqlProtocol::ComStmtPrepare
        } else {
            MysqlProtocol::Null
        },
        StreamType::Response => if code == 0x00 {
            MysqlProtocol::OKPacket
        } else if code == 0xfe {
            MysqlProtocol::EOFPacket
        } else if code == 0xff {
            MysqlProtocol::ERRpacket
        } else if code == 0x09 || code == 0x0a {
            MysqlProtocol::HandshakePacket
        } else {
            MysqlProtocol::TextResult
        },
    }
}

/// Which response kinds complete an exchange opened by each request kind.
pub open spec fn response_matches(request: MysqlProtocol, response: MysqlProtocol) -> bool {
    match request {
        MysqlProtocol::ComQuery => response == MysqlProtocol::TextResult || response
            == MysqlProtocol::OKPacket || response == MysqlProtocol::ERRpacket || response
            == MysqlProtocol::EOFPacket,
        MysqlProtocol::ComInitDb => response == MysqlProtocol::OKPacket || response
            == MysqlProtocol::ERRpacket || response == MysqlProtocol::EOFPacket,
        MysqlProtocol::ComStmtPrepare => response == MysqlProtocol::OKPacket || response
            == MysqlProtocol::ERRpacket,
        MysqlProtocol::ComProcessKill => response == MysqlProtocol::OKPacket || response
            == MysqlProtocol::ERRpacket,
        MysqlProtocol::HandshakePacket => response == MysqlProtocol::OKPacket || response
            == MysqlProtocol::ERRpacket || response == MysqlProtocol::EOFPacket,
        _ => false,
    }
}

impl MysqlProtocol {
    /// Classify the first payload byte in the given direction.
    pub fn new(code: u8, s_type: &StreamType) -> (p: MysqlProtocol)
        ensures
            p == protocol_of(code, *s_type),
    {
        match s_type {
            StreamType::Request => match code {
                0x03 => MysqlProtocol::ComQuery,
                0x01 => MysqlProtocol::ComQuit,
                0x02 => MysqlProtocol::ComInitDb,
                0x0c => MysqlProtocol::ComProcessKill,
                0x16 => MysqlProtocol::ComStmtPrepare,
                _ => MysqlProtocol::Null,
            },
            StreamType::Response => match code {
                0x00 => MysqlProtocol::OKPacket,
                0xfe => MysqlProtocol::EOFPacket,
                0xff => MysqlProtocol::ERRpacket,
                0x09 => MysqlProtocol::HandshakePacket,
                0x0a => MysqlProtocol::HandshakePacket,
                _ => MysqlProtocol::TextResult,
            },
        }
    }

    /// Does `response` complete an exchange opened by request kind `self`?
    pub fn check_response_packet(&self, response: &MysqlProtocol) -> (r: bool)
        ensures
            r == response_matches(*self, *response),
    {
        match self {
            MysqlProtocol::ComQuery => self.check_com_query_response(response),
            MysqlProtocol::ComInitDb => self.check_ok_err_eof_response(response),
            MysqlProtocol::ComStmtPrepare => self.check_com_prepare_response(response),
            MysqlProtocol::ComProcessKill => self.check_com_killprocess_response(response),
            MysqlProtocol::HandshakePacket => self.check_ok_err_eof_response(response),
            _ => false,
        }
    }

    fn check_com_query_response(&self, response: &MysqlProtocol) -> (r: bool)
        ensures
            r == (*response == MysqlProtocol::TextResult || *response == MysqlProtocol::OKPacket
                || *response == MysqlProtocol::ERRpacket || *response == MysqlProtocol::EOFPacket),
    {
        match response {
            MysqlProtocol::TextResult => true,
            MysqlProtocol::OKPacket => true,
            MysqlProtocol::ERRpacket => true,
            MysqlProtocol::EOFPacket => true,
            _ => false,
        }
    }

    fn check_com_prepare_response(&self, response: &MysqlProtocol) -> (r: bool)
        ensures
            r == (*response == MysqlProtocol::OKPacket || *response == MysqlProtocol::ERRpacket),
    {
        match response {
            MysqlProtocol::OKPacket => true,
            MysqlProtocol::ERRpacket => true,
            _ => false,
        }
    }

    fn check_ok_err_eof_response(&self, response: &MysqlProtocol) -> (r: bool)
        ensures
            r == (*response == MysqlProtocol::OKPacket || *response == MysqlProtocol::ERRpacket
                || *response == MysqlProtocol::EOFPacket),
    {
        match response {
            MysqlProtocol::OKPacket => true,
            MysqlProtocol::ERRpacket => true,
            MysqlProtocol::EOFPacket => true,
            _ => false,
        }
    }

    fn check_com_killprocess_response(&self, response: &MysqlProtocol) -> (r: bool)
        ensures
            r == (*response == MysqlProtocol::OKPacket || *response == MysqlProtocol::ERRpacket),
    {
        match response {
            MysqlProtocol::OKPacket => true,
            MysqlProtocol::ERRpacket => true,
            _ => false,
        }
    }
}

impl MysqlProtocol {
    /// Decode the message body of kind `self` into the session record.
    /// On a malformed body the record is left untouched.
    pub fn protocol_unpacket(
        &self,
        stream_packet: &StreamPacket,
        session_info: &mut SessionInfo,
    ) -> (r: Result<(), crate::DecodeError>)
        ensures
            match r {
                Ok(()) => !malformed_body(*self, stream_packet.data@) && final(session_info)@
                    == apply_body(
                    old(session_info)@,
                    *self,
                    stream_packet.data@,
                    stream_packet.ts,
                ),
                Err(e) => malformed_body(*self, stream_packet.data@) && *final(session_info)
                    == *old(session_info) && e == crate::DecodeError::MalformedFrame,
            },
    {
        match self {
            MysqlProtocol::OKPacket => {
                self.unpacket_ok_packet(session_info, stream_packet);
                Ok(())
            },
            MysqlProtocol::ERRpacket => self.unpacket_err_packet(session_info, stream_packet),
            MysqlProtocol::HandshakePacket => {
                self.unpacket_handshake_packet(session_info, stream_packet);
                Ok(())
            },
            MysqlProtocol::EOFPacket => {
                self.unpacket_eof_packet(session_info, stream_packet);
                Ok(())
            },
            MysqlProtocol::TextResult => {
                self.unpacket_text_result(session_info, stream_packet);
                Ok(())
            },
            MysqlProtocol::ComQuery => self.unpacket_com_query(session_info, stream_packet),
            MysqlProtocol::ComInitDb => self.unpacket_com_initdb(session_info, stream_packet),
            MysqlProtocol::ComStmtPrepare => self.unpacket_com_stmt_prepare(
                session_info,
                stream_packet,
            ),
            MysqlProtocol::ComQuit => {
                self.unpacket_com_quit(session_info);
                Ok(())
            },
            MysqlProtocol::ComProcessKill => self.unpacket_com_process_kill(
                session_info,
                stream_packet,
            ),
            MysqlProtocol::Null => Ok(()),
        }
    }

    /// The server's greeting: the session is now mid-handshake, awaiting
    /// the client's credentials packet.
    fn unpacket_handshake_packet(&self, session_info: &mut SessionInfo, stream_packet: &StreamPacket)
        ensures
            final(session_info)@ == apply_body(
                old(session_info)@,
                MysqlProtocol::HandshakePacket,
                stream_packet.data@,
                stream_packet.ts,
            ),
    {
        session_info.server_response = MysqlProtocol::HandshakePacket;
        session_info.connection_pre = true;
        session_info.is_ok = true;
        session_info.start_time = stream_packet.ts;
    }

    /// Result-set data; skipped entirely while the handshake is pending so
    /// handshake continuation bytes are not misread as rows.
    fn unpacket_text_result(&self, session_info: &mut SessionInfo, stream_packet: &StreamPacket)
        ensures
            final(session_info)@ == apply_body(
                old(session_info)@,
                MysqlProtocol::TextResult,
                stream_packet.data@,
                stream_packet.ts,
            ),
    {
        if session_info.connection_pre {
            return ;
        }
        session_info.server_response = MysqlProtocol::TextResult;
        session_info.end_time = stream_packet.ts;
    }

    fn unpacket_eof_packet(&self, session_info: &mut SessionInfo, stream_packet: &StreamPacket)
        ensures
            final(session_info)@ == apply_body(
                old(session_info)@,
                MysqlProtocol::EOFPacket,
                stream_packet.data@,
                stream_packet.ts,
            ),
    {
        session_info.server_response = MysqlProtocol::EOFPacket;
        session_info.end_time = stream_packet.ts;
        session_info.connection_pre = false;
    }

    /// An error response: two bytes of error code, then the error text.
    fn unpacket_err_packet(&self, session_info: &mut SessionInfo, stream_packet: &StreamPacket) -> (r:
        Result<(), crate::DecodeError>)
        ensures
            match r {
                Ok(()) => stream_packet.data@.len() >= 7 && final(session_info)@ == apply_body(
                    old(session_info)@,
                    MysqlProtocol::ERRpacket,
                    stream_packet.data@,
                    stream_packet.ts,
                ),
                Err(e) => stream_packet.data@.len() < 7 && *final(session_info) == *old(
                    session_info,
                ) && e == crate::DecodeError::MalformedFrame,
            },
    {
        let n = stream_packet.data.len();
        if n < 7 {
            return Err(crate::DecodeError::MalformedFrame);
        }
        let text = crate::text::vec_range_text(&stream_packet.data, 7, n);
        session_info.execute_sql = text;
        session_info.server_response = MysqlProtocol::ERRpacket;
        session_info.end_time = stream_packet.ts;
        session_info.connection_pre = false;
        proof {
            assert(stream_packet.data@.skip(7) =~= stream_packet.data@.subrange(
                7,
                stream_packet.data@.len() as int,
            ));
        }
        Ok(())
    }

    fn unpacket_ok_packet(&self, session_info: &mut SessionInfo, stream_packet: &StreamPacket)
        ensures
            final(session_info)@ == apply_body(
                old(session_info)@,
                MysqlProtocol::OKPacket,
                stream_packet.data@,
                stream_packet.ts,
            ),
    {
        session_info.server_response = MysqlProtocol::OKPacket;
        session_info.end_time = stream_packet.ts;
        session_info.connection_pre = false;
    }

    /// The text of the SQL query to execute.
    pub fn unpacket_com_query(
        &self,
        session_info: &mut SessionInfo,
        stream_packet: &StreamPacket,
    ) -> (r: Result<(), crate::DecodeError>)
        ensures
            match r {
                Ok(()) => stream_packet.data@.len() >= 5 && final(session_info)@ == apply_body(
                    old(session_info)@,
                    MysqlProtocol::ComQuery,
                    stream_packet.data@,
                    stream_packet.ts,
                ),
                Err(e) => stream_packet.data@.len() < 5 && *final(session_info) == *old(
                    session_info,
                ) && e == crate::DecodeError::MalformedFrame,
            },
    {
        let n = stream_packet.data.len();
        if n < 5 {
            return Err(crate::DecodeError::MalformedFrame);
        }
        let text = crate::text::vec_range_text(&stream_packet.data, 5, n);
        session_info.execute_sql = text;
        session_info.client_request = MysqlProtocol::ComQuery;
        session_info.is_ok = true;
        proof {
            assert(stream_packet.data@.skip(5) =~= stream_packet.data@.subrange(
                5,
                stream_packet.data@.len() as int,
            ));
        }
        Ok(())
    }

    /// The schema to change to, synthesized as "use database <name>".
    pub fn unpacket_com_initdb(
        &self,
        session_info: &mut SessionInfo,
        stream_packet: &StreamPacket,
    ) -> (r: Result<(), crate::DecodeError>)
        ensures
            match r {
                Ok(()) => stream_packet.data@.len() >= 5 && final(session_info)@ == apply_body(
                    old(session_info)@,
                    MysqlProtocol::ComInitDb,
                    stream_packet.data@,
                    stream_packet.ts,
                ),
                Err(e) => stream_packet.data@.len() < 5 && *final(session_info) == *old(
                    session_info,
                ) && e == crate::DecodeError::MalformedFrame,
            },
    {
        let n = stream_packet.data.len();
        if n < 5 {
            return Err(crate::DecodeError::MalformedFrame);
        }
        let text = crate::text::vec_range_text(&stream_packet.data, 5, n);
        let mut sql = String::from_str("use database ");
        sql.append(text.as_str());
        session_info.execute_sql = sql;
        session_info.client_request = MysqlProtocol::ComInitDb;
        session_info.is_ok = true;
        proof {
            assert(stream_packet.data@.skip(5) =~= stream_packet.data@.subrange(
                5,
                stream_packet.data@.len() as int,
            ));
        }
        Ok(())
    }

    /// The text of the query to prepare.
    pub fn unpacket_com_stmt_prepare(
        &self,
        session_info: &mut SessionInfo,
        stream_packet: &StreamPacket,
    ) -> (r: Result<(), crate::DecodeError>)
        ensures
            match r {
                Ok(()) => stream_packet.data@.len() >= 5 && final(session_info)@ == apply_body(
                    old(session_info)@,
                    MysqlProtocol::ComStmtPrepare,
                    stream_packet.data@,
                    stream_packet.ts,
                ),
                Err(e) => stream_packet.data@.len() < 5 && *final(session_info) == *old(
                    session_info,
                ) && e == crate::DecodeError::MalformedFrame,
            },
    {
        let n = stream_packet.data.len();
        if n < 5 {
            return Err(crate::DecodeError::MalformedFrame);
        }
        let text = crate::text::vec_range_text(&stream_packet.data, 5, n);
        session_info.execute_sql = text;
        session_info.client_request = MysqlProtocol::ComStmtPrepare;
        session_info.is_ok = true;
        proof {
            assert(stream_packet.data@.skip(5) =~= stream_packet.data@.subrange(
                5,
                stream_packet.data@.len() as int,
            ));
        }
        Ok(())
    }

    /// The client is closing the connection; no response is expected and
    /// the record is not retained.
    pub fn unpacket_com_quit(&self, session_info: &mut SessionInfo)
        ensures
            final(session_info)@ == (SessionView {
                execute_sql: "close connection"@,
                client_request: MysqlProtocol::ComQuit,
                ..old(session_info)@
            }),
    {
        session_info.execute_sql = String::from_str("close connection");
        session_info.client_request = MysqlProtocol::ComQuit;
    }

    /// The connection id to kill, synthesized as "kill connection <id>".
    pub fn unpacket_com_process_kill(
        &self,
        session_info: &mut SessionInfo,
        stream_packet: &StreamPacket,
    ) -> (r: Result<(), crate::DecodeError>)
        ensures
            match r {
                Ok(()) => stream_packet.data@.len() >= 9 && final(session_info)@ == apply_body(
                    old(session_info)@,
                    MysqlProtocol::ComProcessKill,
                    stream_packet.data@,
                    stream_packet.ts,
                ),
                Err(e) => stream_packet.data@.len() < 9 && *final(session_info) == *old(
                    session_info,
                ) && e == crate::DecodeError::MalformedFrame,
            },
    {
        let n = stream_packet.data.len();
        if n < 9 {
            return Err(crate::DecodeError::MalformedFrame);
        }
        let d = &stream_packet.data;
        let connection_id: u32 = (d[5] as u32) + (d[6] as u32) * 0x100 + (d[7] as u32) * 0x1_0000 + (
        d[8] as u32) * 0x100_0000;
        let id_text = u64_dec(connection_id as u64);
        let mut sql = String::from_str("kill connection ");
        sql.append(id_text.as_str());
        session_info.execute_sql = sql;
        session_info.client_request = MysqlProtocol::ComProcessKill;
        Ok(())
    }
}

/// The MySQL packet envelope: payload length, sequence id, and the
/// classified kind of the payload that follows.
#[derive(Clone, Copy, Debug, PartialEq, Eq, Structural)]
pub struct MysqlProtocolHeader {
    pub payload: u32,
    pub seq_id: u8,
    pub protocol_type: MysqlProtocol,
}

/// Three bytes, little endian.
pub open spec fn u24_le(b0: u8, b1: u8, b2: u8) -> u32 {
    (b0 + b1 * 0x100 + b2 * 0x1_0000) as u32
}

/// Two bytes, big endian (network order).
pub open spec fn u16_be(hi: u8, lo: u8) -> u16 {
    (hi * 0x100 + lo) as u16
}

/// Four bytes, little endian.
pub open spec fn u32_le(b0: u8, b1: u8, b2: u8, b3: u8) -> u32 {
    (b0 + b1 * 0x100 + b2 * 0x1_0000 + b3 * 0x100_0000) as u32
}

impl MysqlProtocolHeader {
    /// Read the envelope at the head of `payload`: a 3-byte little-endian
    /// length, the sequence id, and the classifying first byte.
    pub fn new(payload: &Vec<u8>, s_type: &StreamType) -> (r: Result<
        MysqlProtocolHeader,
        crate::DecodeError,
    >)
        ensures
            match r {
                Ok(h) => payload@.len() >= 5 && h == (MysqlProtocolHeader {
                    payload: u24_le(payload@[0], payload@[1], payload@[2]),
                    seq_id: payload@[3],
                    protocol_type: protocol_of(payload@[4], *s_type),
                }),
                Err(e) => payload@.len() < 5 && e == crate::DecodeError::MalformedFrame,
            },
    {
        if payload.len() < 5 {
            return Err(crate::DecodeError::MalformedFrame);
        }
        let len = (payload[0] as u32) + (payload[1] as u32) * 0x100 + (payload[2] as u32)
            * 0x1_0000;
        let seq_id = payload[3];
        let protocol_type = MysqlProtocol::new(payload[4], s_type);
        Ok(MysqlProtocolHeader { payload: len, seq_id, protocol_type })
    }
}

/// Is the monitored host configured as the TCP client of every
/// connection of interest ("src"), rather than as the server ("des")?
pub open spec fn is_src_mode(conf: crate::Config) -> bool {
    conf.dtype@ == "src"@
}

/// Is a frame with these endpoints a request towards the server?
pub open spec fn stream_is_request(conf: crate::Config, source: Ip, destination: Ip) -> bool {
    if is_src_mode(conf) {
        ip_chars(source) == conf.host@
    } else {
        ip_chars(destination) == conf.host@
    }
}

/// The session key of such a frame: the client-side endpoint, which is
/// the frame's source on a request and its destination on a response.
pub open spec fn stream_key(
    conf: crate::Config,
    source: Ip,
    destination: Ip,
    source_port: u16,
    destination_port: u16,
) -> u64 {
    if stream_is_request(conf, source, destination) {
        session_key_of(source, source_port)
    } else {
        session_key_of(destination, destination_port)
    }
}

/// The endpoints of the session record, request side first.
pub open spec fn stream_host(
    conf: crate::Config,
    source: Ip,
    destination: Ip,
    source_port: u16,
    destination_port: u16,
) -> HostView {
    if stream_is_request(conf, source, destination) {
        HostView {
            source: ip_chars(source),
            destination: ip_chars(destination),
            source_port,
            destination_port,
        }
    } else {
        HostView {
            source: ip_chars(destination),
            destination: ip_chars(source),
            source_port: destination_port,
            destination_port: source_port,
        }
    }
}

/// After classification only the direction and the session endpoints have
/// been filled in; the parsed frame itself is untouched.
pub open spec fn classify_only_changed(pre: StreamPacket, post: StreamPacket) -> bool {
    &&& post.data == pre.data
    &&& post.packet_flag == pre.packet_flag
    &&& post.ts == pre.ts
    &&& post.len == pre.len
    &&& post.source == pre.source
    &&& post.destination == pre.destination
    &&& post.source_port == pre.source_port
    &&& post.destination_port == pre.destination_port
    &&& post.protocol_header == pre.protocol_header
}

/// After envelope decoding only the protocol header has changed.
pub open spec fn envelope_only_changed(pre: StreamPacket, post: StreamPacket) -> bool {
    &&& post.data == pre.data
    &&& post.packet_flag == pre.packet_flag
    &&& post.ts == pre.ts
    &&& post.len == pre.len
    &&& post.source == pre.source
    &&& post.destination == pre.destination
    &&& post.source_port == pre.source_port
    &&& post.destination_port == pre.destination_port
    &&& post.s_type == pre.s_type
    &&& post.session_host_info == pre.session_host_info
}

/// One captured frame after fixed-offset parsing: endpoints, TCP flags,
/// and the application payload that follows the 54-byte
/// Ethernet-II + IPv4 + TCP headers.
pub struct StreamPacket {
    pub data: Vec<u8>,
    pub packet_flag: u8,
    pub ts: UnixTime,
    pub len: u32,
    pub source: Ip,
    pub destination: Ip,
    pub source_port: u16,
    pub destination_port: u16,
    pub s_type: StreamType,
    pub session_host_info: SessionHostInfo,
    pub protocol_header: MysqlProtocolHeader,
}

impl StreamPacket {
    /// Parse one raw frame. Assumes Ethernet-II + IPv4 without options +
    /// TCP without options, all multi-byte fields in network byte order.
    pub fn new(data: &Vec<u8>, ts: UnixTime, len: u32) -> (p: StreamPacket)
        requires
            data@.len() >= 54,
        ensures
            p.source == ip_at(data@, 26),
            p.destination == ip_at(data@, 30),
            p.source_port == u16_be(data@[34], data@[35]),
            p.destination_port == u16_be(data@[36], data@[37]),
            p.packet_flag == data@[47],
            p.data@ == data@.subrange(54, data@.len() as int),
            p.ts == ts,
            p.len == len,
            p.s_type == StreamType::Request,
            p.session_host_info@ == HostView::empty(),
            p.protocol_header == (MysqlProtocolHeader {
                payload: 0,
                seq_id: 0,
                protocol_type: MysqlProtocol::Null,
            }),
    {
        let source = Ip::new(data, 26);
        let destination = Ip::new(data, 30);
        let source_port = (data[34] as u16) * 0x100 + (data[35] as u16);
        let destination_port = (data[36] as u16) * 0x100 + (data[37] as u16);
        let packet_flag = data[47];
        let payload = slice_to_vec(slice_subrange(data.as_slice(), 54, data.len()));
        StreamPacket {
            data: payload,
            packet_flag,
            ts,
            len,
            source,
            destination,
            source_port,
            destination_port,
            s_type: StreamType::Request,
            session_host_info: SessionHostInfo::new(),
            protocol_header: MysqlProtocolHeader {
                payload: 0,
                seq_id: 0,
                protocol_type: MysqlProtocol::Null,
            },
        }
    }

    /// The ghost frame that the correlation engine acts on.
    pub open spec fn frame_view(&self) -> FrameView {
        FrameView {
            s_type: self.s_type,
            ptype: self.protocol_header.protocol_type,
            seq_id: self.protocol_header.seq_id,
            body: self.data@,
            ts: self.ts,
            host: self.session_host_info@,
        }
    }

    /// Decide request against response and compute the session key: the
    /// key always identifies the TCP client's endpoint, whichever role the
    /// monitored host plays, so both directions of one connection share it.
    pub fn set_stream_type(&mut self, conf: &crate::Config) -> (key: u64)
        ensures
            final(self).s_type == (if stream_is_request(
                *conf,
                old(self).source,
                old(self).destination,
            ) {
                StreamType::Request
            } else {
                StreamType::Response
            }),
            final(self).session_host_info@ == stream_host(
                *conf,
                old(self).source,
                old(self).destination,
                old(self).source_port,
                old(self).destination_port,
            ),
            key == stream_key(
                *conf,
                old(self).source,
                old(self).destination,
                old(self).source_port,
                old(self).destination_port,
            ),
            classify_only_changed(*old(self), *final(self)),
    {
        if conf.dtype == String::from_str("src") {
            self.check_src(conf)
        } else {
            self.check_des(conf)
        }
    }

    /// Monitored host is the TCP client (mode "src"): frames it sends are
    /// requests, keyed by its own ephemeral port.
    fn check_src(&mut self, conf: &crate::Config) -> (key: u64)
        requires
            is_src_mode(*conf),
        ensures
            final(self).s_type == (if stream_is_request(
                *conf,
                old(self).source,
                old(self).destination,
            ) {
                StreamType::Request
            } else {
                StreamType::Response
            }),
            final(self).session_host_info@ == stream_host(
                *conf,
                old(self).source,
                old(self).destination,
                old(self).source_port,
                old(self).destination_port,
            ),
            key == stream_key(
                *conf,
                old(self).source,
                old(self).destination,
                old(self).source_port,
                old(self).destination_port,
            ),
            classify_only_changed(*old(self), *final(self)),
    {
        let sip = self.source.format_ip();
        if sip == conf.host {
            let key = session_key(&self.source, self.source_port);
            let dip = self.destination.format_ip();
            let sp = self.source_port;
            let dp = self.destination_port;
            self.session_host_info.set(conf.host.clone(), dip, sp, dp);
            self.s_type = StreamType::Request;
            key
        } else {
            let key = session_key(&self.destination, self.destination_port);
            let dip = self.destination.format_ip();
            let sp = self.source_port;
            let dp = self.destination_port;
            self.session_host_info.set(dip, sip, dp, sp);
            self.s_type = StreamType::Response;
            key
        }
    }

    /// Monitored host is the TCP server (mode "des"): frames towards it
    /// are requests, keyed by the remote client's endpoint.
    fn check_des(&mut self, conf: &crate::Config) -> (key: u64)
        requires
            !is_src_mode(*conf),
        ensures
            final(self).s_type == (if stream_is_request(
                *conf,
                old(self).source,
                old(self).destination,
            ) {
                StreamType::Request
            } else {
                StreamType::Response
            }),
            final(self).session_host_info@ == stream_host(
                *conf,
                old(self).source,
                old(self).destination,
                old(self).source_port,
                old(self).destination_port,
            ),
            key == stream_key(
                *conf,
                old(self).source,
                old(self).destination,
                old(self).source_port,
                old(self).destination_port,
            ),
            classify_only_changed(*old(self), *final(self)),
    {
        let dip = self.destination.format_ip();
        if dip == conf.host {
            let key = session_key(&self.source, self.source_port);
            let sip = self.source.format_ip();
            let sp = self.source_port;
            let dp = self.destination_port;
            self.session_host_info.set(sip, dip, sp, dp);
            self.s_type = StreamType::Request;
            key
        } else {
            let key = session_key(&self.destination, self.destination_port);
            let sip = self.source.format_ip();
            let sp = self.source_port;
            let dp = self.destination_port;
            self.session_host_info.set(dip, sip, dp, sp);
            self.s_type = StreamType::Response;
            key
        }
    }

    /// Read the MySQL envelope at the head of the payload into the packet.
    pub fn get_mysql_protocol_header(&mut self) -> (r: Result<(), crate::DecodeError>)
        ensures
            match r {
                Ok(()) => {
                    &&& old(self).data@.len() >= 5
                    &&& final(self).protocol_header == (MysqlProtocolHeader {
                        payload: u24_le(old(self).data@[0], old(self).data@[1], old(self).data@[2]),
                        seq_id: old(self).data@[3],
                        protocol_type: protocol_of(old(self).data@[4], old(self).s_type),
                    })
                    &&& envelope_only_changed(*old(self), *final(self))
                },
                Err(e) => old(self).data@.len() < 5 && *final(self) == *old(self) && e
                    == crate::DecodeError::MalformedFrame,
            },
    {
        match MysqlProtocolHeader::new(&self.data, &self.s_type) {
            Ok(h) => {
                self.protocol_header = h;
                Ok(())
            },
            Err(e) => Err(e),
        }
    }

    /// Run one classified frame through the correlation engine: look up,
    /// create, update or evict the record under `session_key`, returning
    /// the completed record when the frame closes an exchange. On a
    /// malformed frame the table is left exactly as it was.
    pub fn op_session_info(&self, session_key: u64, all_session: &mut AllSessionInfo) -> (r: Result<
        Option<SessionInfo>,
        crate::DecodeError,
    >)
        ensures
            match r {
                Ok(emitted) => ({
                    let step = correlate_step(old(all_session)@, session_key, self.frame_view());
                    &&& !step_malformed(old(all_session)@, session_key, self.frame_view())
                    &&& final(all_session)@ == step.0
                    &&& (match step.1 {
                        Some(v) => emitted matches Some(si) && si@ == v,
                        None => emitted is None,
                    })
                    &&& final(all_session).connections@ == old(all_session).connections@
                }),
                Err(e) => {
                    &&& step_malformed(old(all_session)@, session_key, self.frame_view())
                    &&& final(all_session)@ == old(all_session)@
                    &&& final(all_session).connections@ == old(all_session).connections@
                    &&& e == crate::DecodeError::MalformedFrame
                },
            },
    {
        let ghost t0 = all_session@;
        match self.s_type {
            StreamType::Request => {
                let existing = all_session.aluino.remove(&session_key);
                proof {
                    crate::model::lemma_tview_remove(old(all_session).aluino@, session_key);
                    crate::model::lemma_tview_contains(old(all_session).aluino@, session_key);
                }
                match existing {
                    Some(mut v) => {
                        if v.connection_pre {
                            let ghost v0 = v@;
                            match v.unpacket_handshake_response(self) {
                                Ok(()) => {
                                    all_session.aluino.insert(session_key, v);
                                    proof {
                                        crate::model::lemma_tview_insert(
                                            old(all_session).aluino@.remove(session_key),
                                            session_key,
                                            v,
                                        );
                                        assert(t0.remove(session_key).insert(session_key, v@)
                                            =~= t0.insert(session_key, v@));
                                        if !(self.protocol_header.seq_id == crate::model::wrap_inc(
                                            v0.seq_id,
                                        )) {
                                            assert(t0.insert(session_key, v0) =~= t0);
                                        }
                                    }
                                    Ok(None)
                                },
                                Err(e) => {
                                    all_session.aluino.insert(session_key, v);
                                    proof {
                                        crate::model::lemma_tview_insert(
                                            old(all_session).aluino@.remove(session_key),
                                            session_key,
                                            v,
                                        );
                                        assert(t0.remove(session_key).insert(session_key, v0)
                                            =~= t0);
                                    }
                                    Err(e)
                                },
                            }
                        } else {
                            let mut si = SessionInfo::new(self);
                            match si.session_unpacket(self, session_key, all_session) {
                                Ok(em) => {
                                    proof {
                                        let s1 = apply_body(
                                            crate::model::fresh_session(
                                                self.session_host_info@,
                                                self.protocol_header.seq_id,
                                                self.ts,
                                            ),
                                            self.protocol_header.protocol_type,
                                            self.data@,
                                            self.ts,
                                        );
                                        if s1.is_ok {
                                            assert(t0.remove(session_key).insert(session_key, s1)
                                                =~= t0.insert(session_key, s1));
                                        }
                                    }
                                    Ok(em)
                                },
                                Err(e) => {
                                    all_session.aluino.insert(session_key, v);
                                    proof {
                                        crate::model::lemma_tview_insert(
                                            old(all_session).aluino@.remove(session_key),
                                            session_key,
                                            v,
                                        );
                                        assert(t0.remove(session_key).insert(session_key, v@)
                                            =~= t0);
                                    }
                                    Err(e)
                                },
                            }
                        }
                    },
                    None => {
                        proof {
                            assert(t0.remove(session_key) =~= t0);
                        }
                        let mut si = SessionInfo::new(self);
                        match si.session_unpacket(self, session_key, all_session) {
                            Ok(em) => Ok(em),
                            Err(e) => Err(e),
                        }
                    },
                }
            },
            StreamType::Response => {
                if self.protocol_header.protocol_type == MysqlProtocol::HandshakePacket {
                    let mut si = SessionInfo::new(self);
                    let hp = MysqlProtocol::HandshakePacket;
                    match hp.protocol_unpacket(self, &mut si) {
                        Ok(()) => {
                            si.insert(all_session, session_key);
                            Ok(None)
                        },
                        Err(e) => Err(e),
                    }
                } else {
                    let existing = all_session.aluino.remove(&session_key);
                    proof {
                        crate::model::lemma_tview_remove(old(all_session).aluino@, session_key);
                        crate::model::lemma_tview_contains(old(all_session).aluino@, session_key);
                    }
                    match existing {
                        Some(mut v) => {
                            let ghost v0 = v@;
                            if v.connection_pre {
                                if v.create_conn_auth && v.server_response.check_response_packet(
                                    &self.protocol_header.protocol_type,
                                ) {
                                    match v.session_unpacket(self, session_key, all_session) {
                                        Ok(em) => {
                                            proof {
                                                assert(t0.remove(session_key).remove(session_key)
                                                    =~= t0.remove(session_key));
                                            }
                                            Ok(em)
                                        },
                                        Err(e) => {
                                            all_session.aluino.insert(session_key, v);
                                            proof {
                                                crate::model::lemma_tview_insert(
                                                    old(all_session).aluino@.remove(session_key),
                                                    session_key,
                                                    v,
                                                );
                                                assert(t0.remove(session_key).insert(
                                                    session_key,
                                                    v0,
                                                ) =~= t0);
                                            }
                                            Err(e)
                                        },
                                    }
                                } else {
                                    all_session.aluino.insert(session_key, v);
                                    proof {
                                        crate::model::lemma_tview_insert(
                                            old(all_session).aluino@.remove(session_key),
                                            session_key,
                                            v,
                                        );
                                        assert(t0.remove(session_key).insert(session_key, v0)
                                            =~= t0);
                                    }
                                    Ok(None)
                                }
                            } else {
                                let expected: u8 = if v.seq_id == 255 {
                                    0
                                } else {
                                    v.seq_id + 1
                                };
                                if self.protocol_header.seq_id == expected {
                                    match v.session_unpacket(self, session_key, all_session) {
                                        Ok(em) => {
                                            proof {
                                                assert(t0.remove(session_key).remove(session_key)
                                                    =~= t0.remove(session_key));
                                            }
                                            Ok(em)
                                        },
                                        Err(e) => {
                                            all_session.aluino.insert(session_key, v);
                                            proof {
                                                crate::model::lemma_tview_insert(
                                                    old(all_session).aluino@.remove(session_key),
                                                    session_key,
                                                    v,
                                                );
                                                assert(t0.remove(session_key).insert(
                                                    session_key,
                                                    v0,
                                                ) =~= t0);
                                            }
                                            Err(e)
                                        },
                                    }
                                } else {
                                    all_session.aluino.insert(session_key, v);
                                    proof {
                                        crate::model::lemma_tview_insert(
                                            old(all_session).aluino@.remove(session_key),
                                            session_key,
                                            v,
                                        );
                                        assert(t0.remove(session_key).insert(session_key, v0)
                                            =~= t0);
                                    }
                                    Ok(None)
                                }
                            }
                        },
                        None => {
                            proof {
                                assert(t0.remove(session_key) =~= t0);
                            }
                            Ok(None)
                        },
                    }
                }
            },
        }
    }

    /// Does the frame touch the configured port filter (0 means all)?
    pub fn check_port(&self, conf: &crate::Config) -> (r: bool)
        ensures
            r == (conf.port == 0 || self.source_port == conf.port || self.destination_port
                == conf.port),
    {
        if conf.port == 0 {
            true
        } else if self.source_port == conf.port {
            true
        } else if self.destination_port == conf.port {
            true
        } else {
            false
        }
    }
}

} // verus!
