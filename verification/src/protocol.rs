use vstd::prelude::*;

verus! {

use crate::packet::{MysqlProtocol, StreamPacket};
use crate::session::SessionInfo;
use crate::model::{apply_body, malformed_body};

/// Message kinds a server can send, classified from the first payload
/// byte of a response.
#[derive(Debug, Copy, Clone, PartialEq, Eq, Structural)]
pub enum ServerProtocl {
    OKPacket,
    EOFPacket,
    ERRpacket,
    HandshakePacket,
    TextResult,
}

/// Classification of a response's first payload byte. Both handshake
/// marker bytes are recognized: protocol v9 and v10 greetings.
pub open spec fn server_protocol_of(code: u8) -> ServerProtocl {
    if code == 0x00 {
        ServerProtocl::OKPacket
    } else if code == 0xfe {
        ServerProtocl::EOFPacket
    } else if code == 0xff {
        ServerProtocl::ERRpacket
    } else if code == 0x09 || code == 0x0a {
        ServerProtocl::HandshakePacket
    } else {
        ServerProtocl::TextResult
    }
}

/// The engine-level kind a server message stands for.
pub open spec fn server_kind(p: ServerProtocl) -> MysqlProtocol {
    match p {
        ServerProtocl::OKPacket => MysqlProtocol::OKPacket,
        ServerProtocl::EOFPacket => MysqlProtocol::EOFPacket,
        ServerProtocl::ERRpacket => MysqlProtocol::ERRpacket,
        ServerProtocl::HandshakePacket => MysqlProtocol::HandshakePacket,
        ServerProtocl::TextResult => MysqlProtocol::TextResult,
    }
}

impl ServerProtocl {
    /// Classify a response's first payload byte.
    pub fn new(code: u8) -> (p: ServerProtocl)
        ensures
            p == server_protocol_of(code),
    {
        match code {
            0x00 => ServerProtocl::OKPacket,
            0xfe => ServerProtocl::EOFPacket,
            0xff => ServerProtocl::ERRpacket,
            0x09 => ServerProtocl::HandshakePacket,
            0x0a => ServerProtocl::HandshakePacket,
            _ => ServerProtocl::TextResult,
        }
    }

    fn mysql_kind(&self) -> (k: MysqlProtocol)
        ensures
            k == server_kind(*self),
    {
        match self {
            ServerProtocl::OKPacket => MysqlProtocol::OKPacket,
            ServerProtocl::EOFPacket => MysqlProtocol::EOFPacket,
            ServerProtocl::ERRpacket => MysqlProtocol::ERRpacket,
            ServerProtocl::HandshakePacket => MysqlProtocol::HandshakePacket,
            ServerProtocl::TextResult => MysqlProtocol::TextResult,
        }
    }

    /// Decode a server message body of kind `self` into the session
    /// record; the record is untouched when the body is malformed.
    pub fn server_pro_unpacket(
        &self,
        stream_packet: &StreamPacket,
        session_info: &mut SessionInfo,
    ) -> (r: Result<(), crate::DecodeError>)
        ensures
            match r {
                Ok(()) => !malformed_body(server_kind(*self), stream_packet.data@)
                    && final(session_info)@ == apply_body(
                    old(session_info)@,
                    server_kind(*self),
                    stream_packet.data@,
                    stream_packet.ts,
                ),
                Err(e) => malformed_body(server_kind(*self), stream_packet.data@)
                    && *final(session_info) == *old(session_info) && e
                    == crate::DecodeError::MalformedFrame,
            },
    {
        let kind = self.mysql_kind();
        kind.protocol_unpacket(stream_packet, session_info)
    }
}

/// Message kinds a client can send, classified from the command byte of
/// a request.
#[derive(Debug, Copy, Clone, PartialEq, Eq, Structural)]
pub enum ClientProtocol {
    ComQuery,
    ComQuit,
    ComInitDb,
    ComFieldList,
    ComPrefresh,
    ComStatistics,
    ComProcessInfo,
    ComProcessKill,
    ComDebug,
    ComPing,
    ComChangeUser,
    ComResetConnection,
    ComSetOption,
    ComStmtPrepare,
    ComStmtExecute,
    ComStmtClose,
    ComStmtSendLongData,
    Null,
}

/// Classification of a request's command byte.
pub open spec fn client_protocol_of(code: u8) -> ClientProtocol {
    if code == 0x03 {
        ClientProtocol::ComQuery
    } else if code == 0x01 {
        ClientProtocol::ComQuit
    } else if code == 0x02 {
        ClientProtocol::ComInitDb
    } else if code == 0x04 {
        ClientProtocol::ComFieldList
    } else if code == 0x07 {
        ClientProtocol::ComPrefresh
    } else if code == 0x08 {
        ClientProtocol::ComStatistics
    } else if code == 0x0a {
        ClientProtocol::ComProcessInfo
    } else if code == 0x0c {
        ClientProtocol::ComProcessKill
    } else if code == 0x0d {
        ClientProtocol::ComDebug
    } else if code == 0x0e {
        ClientProtocol::ComPing
    } else if code == 0x11 {
        ClientProtocol::ComChangeUser
    } else if code == 0x1f {
        ClientProtocol::ComResetConnection
    } else if code == 0x1a {
        ClientProtocol::ComSetOption
    } else if code == 0x16 {
        ClientProtocol::ComStmtPrepare
    } else if code == 0x17 {
        ClientProtocol::ComStmtExecute
    } else if code == 0x19 {
        ClientProtocol::ComStmtClose
    } else if code == 0x18 {
        ClientProtocol::ComStmtSendLongData
    } else {
        ClientProtocol::Null
    }
}

/// The engine-level kind a client command stands for; commands the
/// engine does not track decode to the non-retained null kind.
pub open spec fn client_kind(p: ClientProtocol) -> MysqlProtocol {
    match p {
        ClientProtocol::ComQuery => MysqlProtocol::ComQuery,
        ClientProtocol::ComQuit => MysqlProtocol::ComQuit,
        ClientProtocol::ComInitDb => MysqlProtocol::ComInitDb,
        ClientProtocol::ComProcessKill => MysqlProtocol::ComProcessKill,
        ClientProtocol::ComStmtPrepare => MysqlProtocol::ComStmtPrepare,
        _ => MysqlProtocol::Null,
    }
}

impl ClientProtocol {
    /// Classify a request's command byte.
    pub fn new(code: u8) -> (p: ClientProtocol)
        ensures
            p == client_protocol_of(code),
    {
        match code {
            0x03 => ClientProtocol::ComQuery,
            0x01 => ClientProtocol::ComQuit,
            0x02 => ClientProtocol::ComInitDb,
            0x04 => ClientProtocol::ComFieldList,
            0x07 => ClientProtocol::ComPrefresh,
            0x08 => ClientProtocol::ComStatistics,
            0x0a => ClientProtocol::ComProcessInfo,
            0x0c => ClientProtocol::ComProcessKill,
            0x0d => ClientProtocol::ComDebug,
            0x0e => ClientProtocol::ComPing,
            0x11 => ClientProtocol::ComChangeUser,
            0x1f => ClientProtocol::ComResetConnection,
            0x1a => ClientProtocol::ComSetOption,
            0x16 => ClientProtocol::ComStmtPrepare,
            0x17 => ClientProtocol::ComStmtExecute,
            0x19 => ClientProtocol::ComStmtClose,
            0x18 => ClientProtocol::ComStmtSendLongData,
            _ => ClientProtocol::Null,
        }
    }

    fn mysql_kind(&self) -> (k: MysqlProtocol)
        ensures
            k == client_kind(*self),
    {
        match self {
            ClientProtocol::ComQuery => MysqlProtocol::ComQuery,
            ClientProtocol::ComQuit => MysqlProtocol::ComQuit,
            ClientProtocol::ComInitDb => MysqlProtocol::ComInitDb,
            ClientProtocol::ComProcessKill => MysqlProtocol::ComProcessKill,
            ClientProtocol::ComStmtPrepare => MysqlProtocol::ComStmtPrepare,
            _ => MysqlProtocol::Null,
        }
    }

    /// Decode a client command body of kind `self` into the session
    /// record; the record is untouched when the body is malformed.
    pub fn client_pro_unpacket(
        &self,
        stream_packet: &StreamPacket,
        session_info: &mut SessionInfo,
    ) -> (r: Result<(), crate::DecodeError>)
        ensures
            match r {
                Ok(()) => !malformed_body(client_kind(*self), stream_packet.data@)
                    && final(session_info)@ == apply_body(
                    old(session_info)@,
                    client_kind(*self),
                    stream_packet.data@,
                    stream_packet.ts,
                ),
                Err(e) => malformed_body(client_kind(*self), stream_packet.data@)
                    && *final(session_info) == *old(session_info) && e
                    == crate::DecodeError::MalformedFrame,
            },
    {
        let kind = self.mysql_kind();
        kind.protocol_unpacket(stream_packet, session_info)
    }

    /// The text of the SQL query to execute.
    pub fn unpacket_com_query(
        &self,
        session_info: &mut SessionInfo,
        stream_packet: &StreamPacket,
    ) -> (r: Result<(), crate::DecodeError>)
        ensures
            match r {
                Ok(()) => stream_packet.data@.len() >= 5 && final(session_info)@ == apply_body(
                    old(session_info)@,
                    MysqlProtocol::ComQuery,
                    stream_packet.data@,
                    stream_packet.ts,
                ),
                Err(e) => stream_packet.data@.len() < 5 && *final(session_info) == *old(
                    session_info,
                ) && e == crate::DecodeError::MalformedFrame,
            },
    {
        MysqlProtocol::ComQuery.unpacket_com_query(session_info, stream_packet)
    }

    /// The schema to change to, synthesized as "use database <name>".
    pub fn unpacket_com_initdb(
        &self,
        session_info: &mut SessionInfo,
        stream_packet: &StreamPacket,
    ) -> (r: Result<(), crate::DecodeError>)
        ensures
            match r {
                Ok(()) => stream_packet.data@.len() >= 5 && final(session_info)@ == apply_body(
                    old(session_info)@,
                    MysqlProtocol::ComInitDb,
                    stream_packet.data@,
                    stream_packet.ts,
                ),
                Err(e) => stream_packet.data@.len() < 5 && *final(session_info) == *old(
                    session_info,
                ) && e == crate::DecodeError::MalformedFrame,
            },
    {
        MysqlProtocol::ComInitDb.unpacket_com_initdb(session_info, stream_packet)
    }

    /// The text of the query to prepare.
    pub fn unpacket_com_stmt_prepare(
        &self,
        session_info: &mut SessionInfo,
        stream_packet: &StreamPacket,
    ) -> (r: Result<(), crate::DecodeError>)
        ensures
            match r {
                Ok(()) => stream_packet.data@.len() >= 5 && final(session_info)@ == apply_body(
                    old(session_info)@,
                    MysqlProtocol::ComStmtPrepare,
                    stream_packet.data@,
                    stream_packet.ts,
                ),
                Err(e) => stream_packet.data@.len() < 5 && *final(session_info) == *old(
                    session_info,
                ) && e == crate::DecodeError::MalformedFrame,
            },
    {
        MysqlProtocol::ComStmtPrepare.unpacket_com_stmt_prepare(session_info, stream_packet)
    }

    /// The client is closing the connection; the record is not retained.
    pub fn unpacket_com_quit(&self, session_info: &mut SessionInfo)
        ensures
            final(session_info)@ == (crate::model::SessionView {
                execute_sql: "close connection"@,
                client_request: MysqlProtocol::ComQuit,
                ..old(session_info)@
            }),
    {
        MysqlProtocol::ComQuit.unpacket_com_quit(session_info)
    }

    /// The connection id to kill, synthesized as "kill connection <id>".
    pub fn unpacket_com_process_kill(
        &self,
        session_info: &mut SessionInfo,
        stream_packet: &StreamPacket,
    ) -> (r: Result<(), crate::DecodeError>)
        ensures
            match r {
                Ok(()) => stream_packet.data@.len() >= 9 && final(session_info)@ == apply_body(
                    old(session_info)@,
                    MysqlProtocol::ComProcessKill,
                    stream_packet.data@,
                    stream_packet.ts,
                ),
                Err(e) => stream_packet.data@.len() < 9 && *final(session_info) == *old(
                    session_info,
                ) && e == crate::DecodeError::MalformedFrame,
            },
    {
        MysqlProtocol::ComProcessKill.unpacket_com_process_kill(session_info, stream_packet)
    }
}

} // verus!
