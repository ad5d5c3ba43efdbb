//! The bridge from the messaging core to the message database and the user interface, and the
//! token refresh schedule.

use vstd::prelude::*;

use crate::storage::{
    are_latest, delivered, ids_of, is_clean, last_record, number_read, stored_messages, Contents,
    MessageRow, Storage, StorageError, StoredMessage,
};
use crate::streaming::StreamCmd;

verus! {

/// Events from the bridge to the UI layer.
#[derive(Debug, Clone)]
pub enum BridgeEvent {
    /// A new message was decrypted and stored. UI should refresh.
    NewMessage { peer_id: String, message_id: String, text: String, timestamp_ms: i64 },
    /// A message we sent was acknowledged by the server.
    MessageDelivered { message_id: String },
    /// A platform-level error worth surfacing.
    Error(String),
}

/// The bridge to the message database. What it has for the user interface and for the stream it
/// gives back.
pub struct TuiBridge {
    pub storage: Storage,
}

/// What was read, where nothing is said of why something could not be.
pub fn read_or_absent<T>(r: Result<Option<T>, StorageError>) -> (v: Option<T>)
    ensures
        v == match r {
            Ok(o) => o,
            Err(_) => None,
        },
{
    match r {
        Ok(o) => o,
        Err(_) => None,
    }
}

/// What is stored of a message that came in and was decrypted.
pub open spec fn received_row(
    peer_id: Seq<char>,
    text: Seq<char>,
    timestamp_ms: i64,
) -> MessageRow {
    (peer_id, text, "received"@, timestamp_ms, "delivered"@)
}

/// What is stored of a message that was sent and not acknowledged yet.
pub open spec fn sent_row(peer_id: Seq<char>, text: Seq<char>, timestamp_ms: i64) -> MessageRow {
    (peer_id, text, "sent"@, timestamp_ms, ""@)
}

/// The contents with a message stored under an ID.
pub open spec fn with_message(c: Contents, id: Seq<char>, row: MessageRow) -> Contents {
    Contents { messages: c.messages.insert(id, row), ..c }
}

/// The contents with a message marked as delivered, if there is one with that ID.
pub open spec fn with_delivered(c: Contents, id: Seq<char>) -> Contents {
    if c.messages.contains_key(id) {
        with_message(c, id, delivered(c.messages[id]))
    } else {
        c
    }
}

impl TuiBridge {
    pub fn new(storage: Storage) -> (r: Self)
        ensures
            r.storage == storage,
    {
        TuiBridge { storage }
    }

    /// Stores a decrypted incoming message, and gives the event for the user interface.
    pub fn on_message_decrypted(
        &mut self,
        peer_id: &str,
        message_id: &str,
        text: &str,
        timestamp_ms: i64,
    ) -> (r: Result<BridgeEvent, StorageError>)
        ensures
            old(self).storage.is_own() ==> final(self).storage.is_own(),
            match r {
                Ok(e) => {
                    &&& e is NewMessage
                    &&& e->peer_id@ == peer_id@
                    &&& e->NewMessage_message_id@ == message_id@
                    &&& e->text@ == text@
                    &&& e->timestamp_ms == timestamp_ms
                    &&& old(self).storage.is_own() && is_clean(message_id@)
                        ==> final(self).storage.contents() == with_message(
                        old(self).storage.contents(),
                        message_id@,
                        received_row(peer_id@, text@, timestamp_ms),
                    )
                },
                Err(e) => {
                    &&& e is Sqlite
                    &&& old(self).storage.is_own() ==> final(self).storage.contents()
                        == old(self).storage.contents()
                },
            },
    {
        let msg = StoredMessage {
            id: message_id.to_string(),
            peer_id: peer_id.to_string(),
            text: text.to_string(),
            direction: "received".to_string(),
            timestamp_ms,
            delivery_status: "delivered".to_string(),
        };
        match self.storage.store_message(&msg) {
            Ok(()) => Ok(
                BridgeEvent::NewMessage {
                    peer_id: peer_id.to_string(),
                    message_id: message_id.to_string(),
                    text: text.to_string(),
                    timestamp_ms,
                },
            ),
            Err(e) => Err(e),
        }
    }

    /// Stores an outgoing message, before the server acknowledges it.
    pub fn on_message_sent(
        &mut self,
        peer_id: &str,
        message_id: &str,
        text: &str,
        timestamp_ms: i64,
    ) -> (r: Result<(), StorageError>)
        ensures
            old(self).storage.is_own() ==> final(self).storage.is_own(),
            match r {
                Ok(_) => old(self).storage.is_own() && is_clean(message_id@)
                    ==> final(self).storage.contents() == with_message(
                    old(self).storage.contents(),
                    message_id@,
                    sent_row(peer_id@, text@, timestamp_ms),
                ),
                Err(e) => {
                    &&& e is Sqlite
                    &&& old(self).storage.is_own() ==> final(self).storage.contents()
                        == old(self).storage.contents()
                },
            },
    {
        let msg = StoredMessage {
            id: message_id.to_string(),
            peer_id: peer_id.to_string(),
            text: text.to_string(),
            direction: "sent".to_string(),
            timestamp_ms,
            delivery_status: "".to_string(),
        };
        self.storage.store_message(&msg)
    }

    /// Marks a message as delivered, and gives the event for the user interface.
    pub fn on_ack(&mut self, message_id: &str) -> (r: Result<BridgeEvent, StorageError>)
        ensures
            old(self).storage.is_own() ==> final(self).storage.is_own(),
            match r {
                Ok(e) => {
                    &&& e is MessageDelivered
                    &&& e->MessageDelivered_message_id@ == message_id@
                    &&& old(self).storage.is_own() && is_clean(message_id@)
                        ==> final(self).storage.contents() == with_delivered(
                        old(self).storage.contents(),
                        message_id@,
                    )
                },
                Err(e) => {
                    &&& e is Sqlite
                    &&& old(self).storage.is_own() ==> final(self).storage.contents()
                        == old(self).storage.contents()
                },
            },
    {
        match self.storage.mark_delivered(message_id) {
            Ok(()) => Ok(BridgeEvent::MessageDelivered { message_id: message_id.to_string() }),
            Err(e) => Err(e),
        }
    }

    /// The latest messages of a conversation, at most `limit`, the oldest of them first.
    pub fn load_messages(&self, peer_id: &str, limit: usize) -> (r: Result<
        Vec<StoredMessage>,
        StorageError,
    >)
        ensures
            self.storage.is_own() && r is Ok && is_clean(peer_id@) ==> are_latest(
                self.storage.contents().messages,
                peer_id@,
                limit as i64,
                stored_messages((r->Ok_0)@).reverse(),
            ),
            r is Ok && limit <= i64::MAX ==> (r->Ok_0)@.len() <= limit,
            self.storage.is_own() && r is Ok && is_clean(peer_id@)
                && self.storage.contents().messages.dom().finite() ==> (r->Ok_0)@.len()
                == number_read(
                ids_of(self.storage.contents().messages, peer_id@).len(),
                limit as i64,
            ),
            self.storage.is_own() && r is Err && is_clean(peer_id@) ==> r->Err_0 is Sqlite,
    {
        self.storage.get_messages(peer_id, limit)
    }

    /// What the stream worker is told to receive a peer's updates.
    pub fn subscribe(&self, user_id: String) -> (r: StreamCmd)
        ensures
            r is Subscribe,
            r->Subscribe_0@ == seq![user_id],
            r->Subscribe_1 is None,
    {
        let mut users: Vec<String> = Vec::new();
        users.push(user_id);
        StreamCmd::Subscribe(users, None)
    }

    /// Stores a value of the messaging core under a key.
    pub fn save_to_secure_store(&mut self, key: String, data: Vec<u8>) -> (r: Result<
        (),
        StorageError,
    >)
        ensures
            old(self).storage.is_own() ==> final(self).storage.is_own(),
            match r {
                Ok(_) => old(self).storage.is_own() && is_clean(key@)
                    ==> final(self).storage.contents() == (Contents {
                    keys: old(self).storage.contents().keys.insert(key@, data@),
                    ..old(self).storage.contents()
                }),
                Err(e) => {
                    &&& e is Sqlite
                    &&& old(self).storage.is_own() ==> final(self).storage.contents()
                        == old(self).storage.contents()
                },
            },
    {
        self.storage.secure_save(key.as_str(), data.as_slice())
    }

    /// The value of the messaging core under a key, if there is one.
    pub fn load_from_secure_store(&self, key: String) -> (r: Result<Option<Vec<u8>>, StorageError>)
        ensures
            self.storage.is_own() && is_clean(key@) ==> match r {
                Ok(Some(v)) => self.storage.contents().keys.contains_key(key@)
                    && self.storage.contents().keys[key@] == v@,
                Ok(None) => !self.storage.contents().keys.contains_key(key@),
                Err(e) => e is Sqlite,
            },
    {
        self.storage.secure_load(key.as_str())
    }

    /// Adds a record of the messaging core to a table.
    pub fn persist_record(&mut self, table: String, json: String) -> (r: Result<(), StorageError>)
        ensures
            old(self).storage.is_own() ==> final(self).storage.is_own(),
            match r {
                Ok(_) => old(self).storage.is_own() ==> final(self).storage.contents()
                    == (Contents {
                    records: old(self).storage.contents().records.push((table@, json@)),
                    ..old(self).storage.contents()
                }),
                Err(e) => {
                    &&& e is Sqlite
                    &&& old(self).storage.is_own() ==> final(self).storage.contents()
                        == old(self).storage.contents()
                },
            },
    {
        self.storage.persist_record(table.as_str(), json.as_str())
    }

    /// The last record of the messaging core in a table, if there is one, whatever the query says.
    pub fn query_record(&self, table: String, _query_json: String) -> (r: Result<
        Option<String>,
        StorageError,
    >)
        ensures
            self.storage.is_own() && is_clean(table@) ==> match r {
                Ok(Some(json)) => last_record(self.storage.contents().records, table@) == Some(
                    json@,
                ),
                Ok(None) => last_record(self.storage.contents().records, table@) is None,
                Err(e) => e is Sqlite,
            },
    {
        self.storage.query_last_record(table.as_str())
    }
}

/// What was sent and then acknowledged is read as delivered; the rest of it stays.
pub proof fn acknowledged_message_is_delivered(
    c: Contents,
    id: Seq<char>,
    peer_id: Seq<char>,
    text: Seq<char>,
    timestamp_ms: i64,
)
    ensures
        with_delivered(with_message(c, id, sent_row(peer_id, text, timestamp_ms)), id)
            == with_message(c, id, (peer_id, text, "sent"@, timestamp_ms, "delivered"@)),
{
    let sent = with_message(c, id, sent_row(peer_id, text, timestamp_ms));
    let after = with_delivered(sent, id);
    assert(after.messages =~= with_message(
        c,
        id,
        (peer_id, text, "sent"@, timestamp_ms, "delivered"@),
    ).messages);
}

/// Messages from the token refresh background task to the app.
#[derive(Debug)]
pub enum TokenRefreshMsg {
    /// New tokens: the session must be saved again.
    Refreshed { access_token: String, refresh_token: String, expires_at: i64 },
    /// Refresh failed: the device must authenticate again.
    Failed(String),
}

/// How long before its expiry a token is refreshed.
pub const REFRESH_AHEAD_SECS: i64 = 300;

/// The number of seconds to wait at time `now` before refreshing a token that expires at
/// `expires_at`: until five minutes before the expiry, and not at all once that has passed.
pub open spec fn refresh_wait(expires_at: i64, now: i64) -> int {
    let wake_at = if expires_at - REFRESH_AHEAD_SECS < i64::MIN {
        i64::MIN as int
    } else {
        expires_at - REFRESH_AHEAD_SECS
    };
    if wake_at > now {
        wake_at - now
    } else {
        0
    }
}

/// The number of seconds to wait before the next token refresh.
pub fn refresh_delay(expires_at: i64, now: i64) -> (r: u64)
    requires
        now >= 0,
    ensures
        r == refresh_wait(expires_at, now),
{
    let wake_at: i64 = if expires_at < i64::MIN + REFRESH_AHEAD_SECS {
        i64::MIN
    } else {
        expires_at - REFRESH_AHEAD_SECS
    };
    if wake_at > now {
        (wake_at - now) as u64
    } else {
        0
    }
}

/// Whether a message is what the refresh task reports of a reply.
pub open spec fn is_outcome(
    reply: Result<(String, Option<String>, i64), String>,
    r: TokenRefreshMsg,
) -> bool {
    match reply {
        Ok(t) => {
            &&& r is Refreshed
            &&& r->access_token == t.0
            &&& r->expires_at == t.2
            &&& match t.1 {
                Some(s) => r->refresh_token == s,
                None => r->refresh_token@ == ""@,
            }
        },
        Err(e) => r == TokenRefreshMsg::Failed(e),
    }
}

/// The message that the refresh task reports: the server's new tokens, with an empty refresh
/// token where it sent none, or the reason for the failure.
pub fn refresh_outcome(
    reply: Result<(String, Option<String>, i64), String>,
) -> (r: TokenRefreshMsg)
    ensures
        is_outcome(reply, r),
{
    match reply {
        Ok(t) => {
            let refresh_token = match t.1 {
                Some(s) => s,
                None => "".to_string(),
            };
            TokenRefreshMsg::Refreshed { access_token: t.0, refresh_token, expires_at: t.2 }
        },
        Err(e) => TokenRefreshMsg::Failed(e),
    }
}

} // verus!
