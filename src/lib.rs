//! A client library for the i3 window manager's IPC protocol: message framing,
//! decoding of replies and events into typed values, and subscriptions.
#![allow(unused_imports)]

use vstd::prelude::*;

pub mod common;
pub mod event;
pub mod focus;
pub mod json;
pub mod node_json;
pub mod readhelp;
pub mod reply;
pub mod strings;
pub mod wire;

use crate::readhelp::{other_error, read_exact};
use crate::wire::{encode_message, header_of, parse_header, payload_text, text_of, HEADER_LEN};
use vstd::string::{StringExecFns, StringSliceAdditionalSpecFns};

verus! {

#[verifier::external_type_specification]
#[verifier::external_body]
pub struct ExIoError(std::io::Error);

/// An error setting up a connection: finding i3's socket, or connecting to it.
#[derive(Debug)]
pub enum EstablishError {
    /// An error while getting the socket path.
    GetSocketPathError(std::io::Error),
    /// An error while connecting to the socket.
    SocketError(std::io::Error),
}

impl EstablishError {
    /// A short description of what went wrong.
    pub fn description(&self) -> (r: &'static str)
        ensures
            r@ == match self {
                EstablishError::GetSocketPathError(_) => "Couldn't determine i3's socket path"@,
                EstablishError::SocketError(_) => "Found i3's socket path but failed to connect"@,
            },
    {
        match self {
            EstablishError::GetSocketPathError(_) => "Couldn't determine i3's socket path",
            EstablishError::SocketError(_) => "Found i3's socket path but failed to connect",
        }
    }
}

/// An error sending a message, receiving one, or making sense of one.
#[derive(Debug)]
pub enum MessageError {
    /// Network error sending the message.
    Send(std::io::Error),
    /// Network error receiving the response.
    Receive(std::io::Error),
    /// Got the response but couldn't parse the JSON.
    JsonCouldntParse(serde_json::Error),
    /// The JSON parsed, but a field the protocol requires is missing or of
    /// another kind.
    Schema,
    /// The reply is of another message type than the request it answers.
    ReplyTypeMismatch(u32),
}

impl MessageError {
    /// A short description of what went wrong.
    pub fn description(&self) -> (r: &'static str)
        ensures
            r@ == match self {
                MessageError::Send(_) => "Network error while sending message to i3"@,
                MessageError::Receive(_) => "Network error while receiving message from i3"@,
                MessageError::JsonCouldntParse(_) => "Got a response from i3 but couldn't parse the JSON"@,
                MessageError::Schema => "Got a response from i3 that lacks a field it should have"@,
                MessageError::ReplyTypeMismatch(_) => "Got a response from i3 to another request"@,
            },
    {
        match self {
            MessageError::Send(_) => "Network error while sending message to i3",
            MessageError::Receive(_) => "Network error while receiving message from i3",
            MessageError::JsonCouldntParse(_) => "Got a response from i3 but couldn't parse the JSON",
            MessageError::Schema => "Got a response from i3 that lacks a field it should have",
            MessageError::ReplyTypeMismatch(_) => "Got a response from i3 to another request",
        }
    }
}

/// Message type of a command to run.
pub const RUN_COMMAND: u32 = 0;
/// Message type of the request for the workspaces.
pub const GET_WORKSPACES: u32 = 1;
/// Message type of a subscription to events.
pub const SUBSCRIBE: u32 = 2;
/// Message type of the request for the outputs.
pub const GET_OUTPUTS: u32 = 3;
/// Message type of the request for the layout tree.
pub const GET_TREE: u32 = 4;
/// Message type of the request for the marks.
pub const GET_MARKS: u32 = 5;
/// Message type of the request for the bar ids (empty payload) or for one
/// bar's configuration (its id as payload).
pub const GET_BAR_CONFIG: u32 = 6;
/// Message type of the request for i3's version.
pub const GET_VERSION: u32 = 7;
/// Message type of the request for the binding modes.
pub const GET_BINDING_MODES: u32 = 8;
/// Message type of the request for the loaded config.
pub const GET_CONFIG: u32 = 9;

/// A kind of event that a connection can subscribe to.
#[derive(Debug, Clone, Copy, PartialEq, Eq, Structural)]
pub enum Subscription {
    Workspace,
    Output,
    Mode,
    Window,
    BarConfig,
    Binding,
    Shutdown,
}

/// The name of a kind of event as a JSON string.
pub open spec fn subscription_name(s: Subscription) -> Seq<char> {
    match s {
        Subscription::Workspace => "\"workspace\""@,
        Subscription::Output => "\"output\""@,
        Subscription::Mode => "\"mode\""@,
        Subscription::Window => "\"window\""@,
        Subscription::BarConfig => "\"barconfig_update\""@,
        Subscription::Binding => "\"binding\""@,
        Subscription::Shutdown => "\"shutdown\""@,
    }
}

/// The names of kinds of event, separated by `, `.
pub open spec fn joined_names(s: Seq<Subscription>) -> Seq<char>
    decreases s.len(),
{
    if s.len() == 0 {
        Seq::empty()
    } else if s.len() == 1 {
        subscription_name(s[0])
    } else {
        joined_names(s.drop_last()) + ", "@ + subscription_name(s.last())
    }
}

/// The payload of a subscription: a JSON array of the names of the events.
pub open spec fn subscription_payload_of(s: Seq<Subscription>) -> Seq<char> {
    "[ "@ + joined_names(s) + " ]"@
}

fn subscription_name_str(s: Subscription) -> (r: &'static str)
    ensures
        r@ == subscription_name(s),
{
    match s {
        Subscription::Workspace => "\"workspace\"",
        Subscription::Output => "\"output\"",
        Subscription::Mode => "\"mode\"",
        Subscription::Window => "\"window\"",
        Subscription::BarConfig => "\"barconfig_update\"",
        Subscription::Binding => "\"binding\"",
        Subscription::Shutdown => "\"shutdown\"",
    }
}

/// The payload that subscribes to `events`.
pub fn subscription_payload(events: &[Subscription]) -> (r: String)
    ensures
        r@ == subscription_payload_of(events@),
{
    let mut names = String::new();
    let mut i: usize = 0;
    while i < events.len()
        invariant
            i <= events@.len(),
            names@ == joined_names(events@.subrange(0, i as int)),
        decreases events@.len() - i,
    {
        let ghost before = events@.subrange(0, i as int);
        if i > 0 {
            names.append(", ");
        }
        names.append(subscription_name_str(events[i]));
        i = i + 1;
        assert(events@.subrange(0, i as int).drop_last() == before);
    }
    assert(events@.subrange(0, events@.len() as int) == events@);
    let mut payload = String::new();
    payload.append("[ ");
    payload.append(names.as_str());
    payload.append(" ]");
    payload
}

/// The category of an event: its message type with the event bit (the
/// highest) cleared.
pub fn event_category(msgint: u32) -> (r: u32)
    ensures
        r == msgint % 0x8000_0000,
{
    assert((msgint << 1u32) >> 1u32 == msgint % 0x8000_0000) by (bit_vector);
    (msgint << 1) >> 1
}

/// Sends a message of type `message_type` carrying `payload`. A payload whose
/// length does not fit the length field is refused.
pub fn send_i3_message<W: std::io::Write + ?Sized>(
    stream: &mut W,
    message_type: u32,
    payload: &str,
) -> (r: std::io::Result<()>)
    ensures
        payload.spec_bytes().len() > u32::MAX ==> r is Err,
{
    if payload.as_bytes().len() > u32::MAX as usize {
        return Err(other_error("payload too long for a message"));
    }
    let bytes = encode_message(message_type, payload);
    write_all(stream, bytes.as_slice())
}

/// Relies on std::io::Write::write_all: it writes all of `bytes` or fails.
#[verifier::external_body]
fn write_all<W: std::io::Write + ?Sized>(stream: &mut W, bytes: &[u8]) -> std::io::Result<()> {
    stream.write_all(bytes)
}

/// Whether `p` is the text of a message of type `kind` that a stream may
/// have delivered: some header with the magic tag that states `kind` and the
/// length of some payload bytes, which read as `p`.
pub open spec fn received(kind: u32, p: Seq<char>) -> bool {
    exists|h: Seq<u8>, b: Seq<u8>|
        h.len() == HEADER_LEN && b.len() <= u32::MAX && #[trigger] header_of(h) == Some((b.len() as u32, kind))
            && p == #[trigger] text_of(b)
}

/// Receives one message: its type and its payload as text.
pub fn receive_i3_message<R: std::io::Read + ?Sized>(stream: &mut R) -> (r: std::io::Result<(u32, String)>)
    ensures
        r matches Ok((kind, payload)) ==> received(kind, payload@),
{
    let header = match read_exact(stream, HEADER_LEN) {
        Ok(h) => h,
        Err(e) => return Err(e),
    };
    match parse_header(header.as_slice()) {
        None => Err(other_error("unexpected magic string: expected 'i3-ipc'")),
        Some((len, kind)) => {
            let body = match read_exact(stream, len as usize) {
                Ok(b) => b,
                Err(e) => return Err(e),
            };
            let text = payload_text(body.as_slice());
            assert(body@.len() as u32 == len);
            assert(header_of(header@) == Some((body@.len() as u32, kind)));
            Ok((kind, text))
        },
    }
}

/// Sends a request and receives the reply to it, as text.
pub fn send_receive_i3_message<S: std::io::Read + std::io::Write + ?Sized>(
    stream: &mut S,
    message_type: u32,
    payload: &str,
) -> (r: Result<String, MessageError>)
    ensures
        r matches Ok(p) ==> received(message_type, p@),
        r matches Err(MessageError::ReplyTypeMismatch(t)) ==> t != message_type,
        payload.spec_bytes().len() > u32::MAX ==> r matches Err(MessageError::Send(_)),
{
    match send_i3_message(stream, message_type, payload) {
        Ok(()) => {},
        Err(e) => return Err(MessageError::Send(e)),
    }
    match receive_i3_message(stream) {
        Ok((received_type, p)) => check_reply(message_type, received_type, p),
        Err(e) => Err(MessageError::Receive(e)),
    }
}

/// Accepts a reply only if it is of the type of the request it answers.
pub fn check_reply(message_type: u32, received_type: u32, payload: String) -> (r: Result<
    String,
    MessageError,
>)
    ensures
        received_type == message_type ==> (r matches Ok(p) && p@ == payload@),
        received_type != message_type ==> r == Err::<String, MessageError>(
            MessageError::ReplyTypeMismatch(received_type),
        ),
{
    if received_type == message_type {
        Ok(payload)
    } else {
        Err(MessageError::ReplyTypeMismatch(received_type))
    }
}

} // verus!
