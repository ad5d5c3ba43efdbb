//! Message envelopes and the commands and events of the message stream.

use vstd::prelude::*;
use vstd::utf8::*;

use crate::text::{bytes_before, bytes_before_is_total, cat4, is_bytes_before, same_bytes_same_text};

verus! {

/// What an envelope carries.
#[derive(Debug, Clone, Copy, PartialEq, Eq, Structural)]
pub enum ContentType {
    /// End-to-end encrypted message.
    E2eeSignal,
    /// Call signalling.
    CallSignal,
    /// Key exchange.
    KeyExchange,
    /// The peer must drop its session.
    SessionReset,
    /// The peer must drop its session and accept a new one.
    SessionResetInit,
}

impl ContentType {
    /// The number of the content type on the wire.
    pub open spec fn number(self) -> i32 {
        match self {
            ContentType::E2eeSignal => 1,
            ContentType::CallSignal => 12,
            ContentType::KeyExchange => 20,
            ContentType::SessionReset => 21,
            ContentType::SessionResetInit => 24,
        }
    }

    /// The number of the content type on the wire.
    pub fn code(self) -> (r: i32)
        ensures
            r == self.number(),
    {
        match self {
            ContentType::E2eeSignal => 1,
            ContentType::CallSignal => 12,
            ContentType::KeyExchange => 20,
            ContentType::SessionReset => 21,
            ContentType::SessionResetInit => 24,
        }
    }
}

/// The content type with wire number `v`; a number that stands for none is an encrypted message.
pub open spec fn content_type_of(v: u8) -> ContentType {
    if v == 12 {
        ContentType::CallSignal
    } else if v == 20 {
        ContentType::KeyExchange
    } else if v == 21 {
        ContentType::SessionReset
    } else if v == 24 {
        ContentType::SessionResetInit
    } else {
        ContentType::E2eeSignal
    }
}

/// The content type with wire number `v`.
pub fn content_type_from_u8(v: u8) -> (r: ContentType)
    ensures
        r == content_type_of(v),
{
    if v == 12 {
        ContentType::CallSignal
    } else if v == 20 {
        ContentType::KeyExchange
    } else if v == 21 {
        ContentType::SessionReset
    } else if v == 24 {
        ContentType::SessionResetInit
    } else {
        ContentType::E2eeSignal
    }
}

/// Every content type is read back from its own wire number.
pub proof fn content_type_reads_back(t: ContentType)
    ensures
        content_type_of(t.number() as u8) == t,
{
}

/// Whether a wire number stands for a session control message.
pub fn is_control_content(v: u8) -> (r: bool)
    ensures
        r == (v == ContentType::SessionReset.number() || v
            == ContentType::SessionResetInit.number()),
{
    v == 21 || v == 24
}

/// One message on its way through the server.
#[derive(Debug)]
pub struct Envelope {
    /// User ID of the sender.
    pub sender: Option<String>,
    /// Device ID of the sender.
    pub sender_device: Option<String>,
    /// User ID of the recipient.
    pub recipient: Option<String>,
    /// Wire number of the content type.
    pub content_type: i32,
    /// Message ID.
    pub message_id: Option<String>,
    /// Ciphertext.
    pub encrypted_payload: Vec<u8>,
    /// Conversation that the message belongs to.
    pub conversation_id: String,
}

/// Commands sent to the stream handler.
#[derive(Debug)]
pub enum StreamCmd {
    /// Send an envelope to a recipient.
    Send(Box<Envelope>),
    /// Subscribe to updates for conversations, from a cursor where one is known.
    Subscribe(Vec<String>, Option<String>),
    /// Close the message stream.
    Close,
    /// Shut the handler down cleanly.
    Shutdown,
}

/// Events sent from the stream handler.
#[derive(Debug)]
pub enum StreamEvent {
    /// An incoming message envelope.
    Message(Box<Envelope>),
    /// Delivery receipt from the server, with the message ID.
    Ack(String),
    /// The stream is up.
    Connected,
    /// The stream is down.
    Disconnected,
}

/// An envelope that names only its conversation, payload and message.
pub fn encode_envelope(
    conversation_id: String,
    encrypted_payload: Vec<u8>,
    message_id: String,
) -> (r: Envelope)
    ensures
        r == (Envelope {
            sender: None,
            sender_device: None,
            recipient: None,
            content_type: 0,
            message_id: Some(message_id),
            encrypted_payload,
            conversation_id,
        }),
{
    Envelope {
        sender: None,
        sender_device: None,
        recipient: None,
        content_type: 0,
        message_id: Some(message_id),
        encrypted_payload,
        conversation_id,
    }
}

/// The ID of the direct conversation of two users: their user IDs, the byte-wise smaller first.
pub open spec fn direct_conversation(from: Seq<char>, to: Seq<char>) -> Seq<char> {
    if bytes_before(encode_utf8(from), encode_utf8(to)) {
        "direct:"@ + from + ":"@ + to
    } else {
        "direct:"@ + to + ":"@ + from
    }
}

/// The ID of the direct conversation of two users.
pub fn direct_conversation_id(from: &str, to: &str) -> (r: String)
    ensures
        r@ == direct_conversation(from@, to@),
{
    if is_bytes_before(from.as_bytes(), to.as_bytes()) {
        cat4("direct:", from, ":", to)
    } else {
        cat4("direct:", to, ":", from)
    }
}

/// Both parties of a direct conversation derive the same conversation ID, whichever of them
/// is the sender.
pub proof fn direct_conversation_is_symmetric(a: Seq<char>, b: Seq<char>)
    ensures
        direct_conversation(a, b) == direct_conversation(b, a),
{
    bytes_before_is_total(encode_utf8(a), encode_utf8(b));
    if encode_utf8(a) == encode_utf8(b) {
        same_bytes_same_text(a, b);
    }
}

/// Whether `e` carries `payload` from one user's device to another user.
pub open spec fn addressed(
    e: Envelope,
    from_user: Seq<char>,
    from_device: Seq<char>,
    to_user: Seq<char>,
    payload: Seq<u8>,
    message_id: Seq<char>,
    content_type: ContentType,
) -> bool {
    &&& e.sender is Some && e.sender->0@ == from_user
    &&& e.sender_device is Some && e.sender_device->0@ == from_device
    &&& e.recipient is Some && e.recipient->0@ == to_user
    &&& e.content_type == content_type.number()
    &&& e.message_id is Some && e.message_id->0@ == message_id
    &&& e.encrypted_payload@ == payload
    &&& e.conversation_id@ == direct_conversation(from_user, to_user)
}

/// Wraps a payload for a direct conversation.
pub fn build_envelope(
    from_user: &str,
    from_device: &str,
    to_user: &str,
    payload: Vec<u8>,
    message_id: String,
    content_type: ContentType,
) -> (r: Envelope)
    ensures
        addressed(
            r,
            from_user@,
            from_device@,
            to_user@,
            payload@,
            message_id@,
            content_type,
        ),
{
    Envelope {
        sender: Some(from_user.to_string()),
        sender_device: Some(from_device.to_string()),
        recipient: Some(to_user.to_string()),
        content_type: content_type.code(),
        message_id: Some(message_id),
        encrypted_payload: payload,
        conversation_id: direct_conversation_id(from_user, to_user),
    }
}

/// Wraps a control message for a direct conversation.
pub fn build_control_envelope(
    from_user: &str,
    from_device: &str,
    to_user: &str,
    content_type: ContentType,
    payload: Vec<u8>,
    message_id: String,
) -> (r: Envelope)
    ensures
        addressed(
            r,
            from_user@,
            from_device@,
            to_user@,
            payload@,
            message_id@,
            content_type,
        ),
{
    build_envelope(from_user, from_device, to_user, payload, message_id, content_type)
}

} // verus!
