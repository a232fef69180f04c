//! The events and errors surfaced to the editor-side client and server
//! plugins, with their identifiers held as plain values, and the exact
//! key-value rows each error is presented as. Turning those rows into the
//! host editor's table type is the plugin layer's work.

use vstd::prelude::*;
use vstd::string::StrSliceExecFns;

use crate::numfmt::lemma_spec_hex_len;
use crate::numfmt::spec_hex;
use crate::numfmt::u128_to_hex;

verus! {

/// A connected client's 128-bit identifier.
#[derive(Clone, Copy, Debug, PartialEq, Eq, Structural)]
pub struct ClientId {
    pub value: u128,
}

/// The canonical hyphenated rendering of a 128-bit identifier: 32
/// lower-case hexadecimal digits in groups of 8, 4, 4, 4 and 12.
pub open spec fn spec_uuid_str(v: int) -> Seq<char> {
    let h = spec_hex(v, 32);
    h.subrange(0, 8) + "-"@ + h.subrange(8, 12) + "-"@ + h.subrange(12, 16) + "-"@ + h.subrange(
        16,
        20,
    ) + "-"@ + h.subrange(20, 32)
}

impl ClientId {
    /// The canonical hyphenated rendering of the identifier.
    pub fn text(&self) -> (r: String)
        ensures
            r@ == spec_uuid_str(self.value as int),
    {
        let full = u128_to_hex(self.value, 32);
        proof {
            lemma_spec_hex_len(self.value as int, 32);
        }
        let mut r = String::from_str(full.as_str().substring_char(0, 8));
        r.append("-");
        r.append(full.as_str().substring_char(8, 12));
        r.append("-");
        r.append(full.as_str().substring_char(12, 16));
        r.append("-");
        r.append(full.as_str().substring_char(16, 20));
        r.append("-");
        r.append(full.as_str().substring_char(20, 32));
        r
    }
}

/// An error surfaced to the editor-side client plugin.
#[derive(Clone, Debug, PartialEq)]
pub enum WebsocketClientError {
    Connection(String),
    ReceiveMessage(String),
    SendMessage(String),
}

/// An event surfaced to the editor-side client plugin.
#[derive(Clone, Debug, PartialEq)]
pub enum WebsocketClientInboundEvent {
    Connected,
    Disconnected,
    NewMessage(String),
    Error(WebsocketClientError),
}

impl WebsocketClientError {
    /// The error's message, as presented when only the text is wanted.
    pub fn message_text(&self) -> (r: String)
        ensures
            match *self {
                WebsocketClientError::Connection(m) => r == m,
                WebsocketClientError::ReceiveMessage(m) => r == m,
                WebsocketClientError::SendMessage(m) => r == m,
            },
    {
        match self {
            WebsocketClientError::Connection(m) => m.clone(),
            WebsocketClientError::ReceiveMessage(m) => m.clone(),
            WebsocketClientError::SendMessage(m) => m.clone(),
        }
    }

    /// The key-value rows the error is presented as: its kind under
    /// `type`, and its message.
    pub fn lua_fields(&self) -> (fields: Vec<(String, String)>)
        ensures
            fields@.len() == 2,
            fields@[0].0@ == "type"@,
            fields@[1].0@ == "message"@,
            match *self {
                WebsocketClientError::Connection(m) => fields@[0].1@ == "connection_error"@
                    && fields@[1].1 == m,
                WebsocketClientError::ReceiveMessage(m) => fields@[0].1@
                    == "receive_message_error"@ && fields@[1].1 == m,
                WebsocketClientError::SendMessage(m) => fields@[0].1@ == "send_message_error"@
                    && fields@[1].1 == m,
            },
    {
        let mut fields: Vec<(String, String)> = Vec::new();
        match self {
            WebsocketClientError::Connection(m) => {
                fields.push((String::from_str("type"), String::from_str("connection_error")));
                fields.push((String::from_str("message"), m.clone()));
            },
            WebsocketClientError::ReceiveMessage(m) => {
                fields.push(
                    (String::from_str("type"), String::from_str("receive_message_error")),
                );
                fields.push((String::from_str("message"), m.clone()));
            },
            WebsocketClientError::SendMessage(m) => {
                fields.push((String::from_str("type"), String::from_str("send_message_error")));
                fields.push((String::from_str("message"), m.clone()));
            },
        }
        fields
    }
}

/// An error surfaced to the editor-side server plugin.
#[derive(Clone, Debug, PartialEq)]
pub enum WebsocketServerError {
    ClientTermination(ClientId, String),
    ServerTermination(String),
    ReceiveMessage(ClientId, String),
    SendMessage(ClientId, String),
    BroadcastMessage(String),
}

/// An event surfaced to the editor-side server plugin.
#[derive(Clone, Debug, PartialEq)]
pub enum WebsocketServerInboundEvent {
    ClientConnected(ClientId),
    ClientDisconnected(ClientId),
    NewMessage(ClientId, String),
    Error(WebsocketServerError),
}

impl WebsocketServerError {
    /// The error's message, as presented when only the text is wanted.
    pub fn message_text(&self) -> (r: String)
        ensures
            match *self {
                WebsocketServerError::ClientTermination(_, m) => r == m,
                WebsocketServerError::ServerTermination(m) => r == m,
                WebsocketServerError::ReceiveMessage(_, m) => r == m,
                WebsocketServerError::SendMessage(_, m) => r == m,
                WebsocketServerError::BroadcastMessage(m) => r == m,
            },
    {
        match self {
            WebsocketServerError::ClientTermination(_, m) => m.clone(),
            WebsocketServerError::ServerTermination(m) => m.clone(),
            WebsocketServerError::ReceiveMessage(_, m) => m.clone(),
            WebsocketServerError::SendMessage(_, m) => m.clone(),
            WebsocketServerError::BroadcastMessage(m) => m.clone(),
        }
    }

    /// The key-value rows the error is presented as: its kind under
    /// `type`, the hyphenated client identifier where one is involved,
    /// and its message.
    pub fn lua_fields(&self) -> (fields: Vec<(String, String)>)
        ensures
            match *self {
                WebsocketServerError::ClientTermination(id, m) => fields@.len() == 3
                    && fields@[0].0@ == "type"@ && fields@[0].1@ == "client_termination_error"@
                    && fields@[1].0@ == "client_id"@ && fields@[1].1@ == spec_uuid_str(
                    id.value as int,
                ) && fields@[2].0@ == "message"@ && fields@[2].1 == m,
                WebsocketServerError::ReceiveMessage(id, m) => fields@.len() == 3 && fields@[0].0@
                    == "type"@ && fields@[0].1@ == "receive_message_error"@ && fields@[1].0@
                    == "client_id"@ && fields@[1].1@ == spec_uuid_str(id.value as int)
                    && fields@[2].0@ == "message"@ && fields@[2].1 == m,
                WebsocketServerError::SendMessage(id, m) => fields@.len() == 3 && fields@[0].0@
                    == "type"@ && fields@[0].1@ == "send_message_error"@ && fields@[1].0@
                    == "client_id"@ && fields@[1].1@ == spec_uuid_str(id.value as int)
                    && fields@[2].0@ == "message"@ && fields@[2].1 == m,
                WebsocketServerError::BroadcastMessage(m) => fields@.len() == 2 && fields@[0].0@
                    == "type"@ && fields@[0].1@ == "broadcast_message_error"@ && fields@[1].0@
                    == "message"@ && fields@[1].1 == m,
                WebsocketServerError::ServerTermination(m) => fields@.len() == 2 && fields@[0].0@
                    == "type"@ && fields@[0].1@ == "server_termination_error"@ && fields@[1].0@
                    == "message"@ && fields@[1].1 == m,
            },
    {
        let mut fields: Vec<(String, String)> = Vec::new();
        match self {
            WebsocketServerError::ClientTermination(id, m) => {
                fields.push(
                    (String::from_str("type"), String::from_str("client_termination_error")),
                );
                fields.push((String::from_str("client_id"), id.text()));
                fields.push((String::from_str("message"), m.clone()));
            },
            WebsocketServerError::ReceiveMessage(id, m) => {
                fields.push(
                    (String::from_str("type"), String::from_str("receive_message_error")),
                );
                fields.push((String::from_str("client_id"), id.text()));
                fields.push((String::from_str("message"), m.clone()));
            },
            WebsocketServerError::SendMessage(id, m) => {
                fields.push((String::from_str("type"), String::from_str("send_message_error")));
                fields.push((String::from_str("client_id"), id.text()));
                fields.push((String::from_str("message"), m.clone()));
            },
            WebsocketServerError::BroadcastMessage(m) => {
                fields.push(
                    (String::from_str("type"), String::from_str("broadcast_message_error")),
                );
                fields.push((String::from_str("message"), m.clone()));
            },
            WebsocketServerError::ServerTermination(m) => {
                fields.push(
                    (String::from_str("type"), String::from_str("server_termination_error")),
                );
                fields.push((String::from_str("message"), m.clone()));
            },
        }
        fields
    }
}

} // verus!
