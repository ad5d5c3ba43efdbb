//! The message database: messages, contacts, acknowledgements, keys and records in SQLite.
//!
//! What is said of the contents holds for a private database, which no other connection sees. A
//! database on disk may be changed by another connection at any time, and nothing is said of one
//! that is not private.

use vstd::prelude::*;
use vstd::utf8::*;

use rusqlite::types::{Value as SqlValue, ValueRef};
use rusqlite::{params_from_iter, Connection};

use crate::codec::to_hex;
use crate::text::{bytes_before, bytes_hex, cat3, occurs_in};

verus! {

// ── Rows ─────────────────────────────────────────────────────────────────────

/// One stored message.
#[derive(Debug)]
pub struct StoredMessage {
    pub id: String,
    /// User ID of the remote party (the "conversation bucket").
    pub peer_id: String,
    /// Decrypted plaintext (empty while ciphertext is pending).
    pub text: String,
    /// `"sent"` | `"received"` | `"pending"`
    pub direction: String,
    /// Unix milliseconds.
    pub timestamp_ms: i64,
    /// `"delivered"` | `"read"` | `"failed"` | `""`
    pub delivery_status: String,
}

/// One stored contact.
#[derive(Debug)]
pub struct StoredContact {
    pub user_id: String,
    pub display_name: String,
    /// Base-64 encoded identity public key (for safety number display).
    pub identity_key_b64: String,
}

/// What is stored of a message under its ID: peer, text, direction, time and delivery status.
pub type MessageRow = (Seq<char>, Seq<char>, Seq<char>, i64, Seq<char>);

impl StoredMessage {
    /// What is stored of the message under its ID.
    pub open spec fn row(self) -> MessageRow {
        (
            self.peer_id@,
            self.text@,
            self.direction@,
            self.timestamp_ms,
            self.delivery_status@,
        )
    }
}

impl StoredContact {
    /// What is stored of the contact under its ID: name and identity key.
    pub open spec fn row(self) -> (Seq<char>, Seq<char>) {
        (self.display_name@, self.identity_key_b64@)
    }
}

/// Why something could not be stored or read.
#[derive(Debug)]
pub enum StorageError {
    /// The database key does not have 32 bytes.
    KeyLength,
    /// The database refused.
    Sqlite(rusqlite::Error),
    /// A row does not have the expected form.
    Row,
}

/// What is said of a key that does not have 32 bytes.
pub const KEY_LENGTH_TEXT: &'static str = "db_key must be 32 bytes";

/// What is said of a row that does not have the expected form.
pub const ROW_TEXT: &'static str = "unexpected row in the database";

/// Calls `to_string` of `rusqlite::Error`. Nothing is stated of the text.
#[verifier::external_body]
fn sqlite_text(e: &rusqlite::Error) -> (r: String) {
    e.to_string()
}

impl StorageError {
    /// The message for an error. That of the database is its own.
    pub fn message(&self) -> (r: String)
        ensures
            *self is KeyLength ==> r@ == KEY_LENGTH_TEXT@,
            *self is Row ==> r@ == ROW_TEXT@,
    {
        match self {
            StorageError::KeyLength => KEY_LENGTH_TEXT.to_string(),
            StorageError::Sqlite(e) => sqlite_text(e),
            StorageError::Row => ROW_TEXT.to_string(),
        }
    }
}

// ── Statements ───────────────────────────────────────────────────────────────

/// Settings of a connection, easy on small devices.
pub const PRAGMAS: &'static str = "
            PRAGMA journal_mode = WAL;
            PRAGMA synchronous   = NORMAL;
            PRAGMA cache_size    = -2048;
            PRAGMA foreign_keys  = ON;
        ";

/// The tables.
pub const SCHEMA: &'static str = "
            CREATE TABLE IF NOT EXISTS messages (
                id               TEXT PRIMARY KEY NOT NULL,
                peer_id          TEXT NOT NULL,
                text             TEXT NOT NULL DEFAULT '',
                direction        TEXT NOT NULL CHECK(direction IN ('sent','received','pending')),
                timestamp_ms     INTEGER NOT NULL,
                delivery_status  TEXT NOT NULL DEFAULT ''
            );
            CREATE INDEX IF NOT EXISTS idx_messages_peer
                ON messages(peer_id, timestamp_ms DESC);

            CREATE TABLE IF NOT EXISTS contacts (
                user_id          TEXT PRIMARY KEY NOT NULL,
                display_name     TEXT NOT NULL DEFAULT '',
                identity_key_b64 TEXT NOT NULL DEFAULT ''
            );

            CREATE TABLE IF NOT EXISTS pending_acks (
                message_id       TEXT PRIMARY KEY NOT NULL,
                timestamp_ms     INTEGER NOT NULL
            );

            CREATE TABLE IF NOT EXISTS secure_store (
                key   TEXT PRIMARY KEY NOT NULL,
                value BLOB NOT NULL
            );

            CREATE TABLE IF NOT EXISTS records (
                id        INTEGER PRIMARY KEY AUTOINCREMENT,
                table_name TEXT NOT NULL,
                json      TEXT NOT NULL,
                created_at INTEGER NOT NULL DEFAULT (unixepoch())
            );
            CREATE INDEX IF NOT EXISTS idx_records_table ON records(table_name);
        ";

pub const INSERT_MESSAGE: &'static str = "INSERT OR REPLACE INTO messages
             (id, peer_id, text, direction, timestamp_ms, delivery_status)
             VALUES (?1, ?2, ?3, ?4, ?5, ?6)";

pub const SELECT_MESSAGES: &'static str =
    "SELECT id, peer_id, text, direction, timestamp_ms, delivery_status
             FROM messages
             WHERE peer_id = ?1
             ORDER BY timestamp_ms DESC
             LIMIT ?2";

pub const MARK_DELIVERED: &'static str =
    "UPDATE messages SET delivery_status = 'delivered' WHERE id = ?1";

pub const DELETE_MESSAGES: &'static str = "DELETE FROM messages WHERE peer_id = ?1";

pub const UPSERT_CONTACT: &'static str =
    "INSERT OR REPLACE INTO contacts (user_id, display_name, identity_key_b64)
             VALUES (?1, ?2, ?3)";

pub const SELECT_CONTACTS: &'static str =
    "SELECT user_id, display_name, identity_key_b64 FROM contacts ORDER BY display_name";

pub const SELECT_CONTACT: &'static str =
    "SELECT user_id, display_name, identity_key_b64 FROM contacts WHERE user_id = ?1";

pub const DELETE_CONTACT: &'static str = "DELETE FROM contacts WHERE user_id = ?1";

pub const INSERT_ACK: &'static str =
    "INSERT OR IGNORE INTO pending_acks (message_id, timestamp_ms) VALUES (?1, ?2)";

pub const SELECT_ACKS: &'static str = "SELECT message_id, timestamp_ms FROM pending_acks";

pub const DELETE_ACKS: &'static str = "DELETE FROM pending_acks";

pub const PRUNE_ACKS: &'static str = "DELETE FROM pending_acks WHERE timestamp_ms < ?1";

pub const COUNT_ACK: &'static str = "SELECT COUNT(*) FROM pending_acks WHERE message_id = ?1";

pub const SAVE_KEY: &'static str =
    "INSERT OR REPLACE INTO secure_store (key, value) VALUES (?1, ?2)";

pub const LOAD_KEY: &'static str = "SELECT value FROM secure_store WHERE key = ?1";

pub const DELETE_KEYS: &'static str = "DELETE FROM secure_store WHERE key LIKE '%' || ?1 || '%'";

pub const INSERT_RECORD: &'static str = "INSERT INTO records (table_name, json) VALUES (?1, ?2)";

pub const LAST_RECORD: &'static str =
    "SELECT json FROM records WHERE table_name = ?1 ORDER BY id DESC LIMIT 1";

/// A value in a statement or a row.
#[derive(Debug)]
pub enum Value {
    Text(String),
    Int(i64),
    Blob(Vec<u8>),
    /// Anything else.
    Other,
}

impl Value {
    /// The text of a value that is one.
    pub open spec fn text(self) -> Option<Seq<char>> {
        match self {
            Value::Text(s) => Some(s@),
            _ => None,
        }
    }

    /// The number of a value that is one.
    pub open spec fn number(self) -> Option<i64> {
        match self {
            Value::Int(n) => Some(n),
            _ => None,
        }
    }

    /// The bytes of a value that is some.
    pub open spec fn blob(self) -> Option<Seq<u8>> {
        match self {
            Value::Blob(b) => Some(b@),
            _ => None,
        }
    }
}

// ── Contents ─────────────────────────────────────────────────────────────────

/// `rusqlite::Connection`, a connection to a database.
#[verifier::external_type_specification]
#[verifier::external_body]
pub struct ExConnection(Connection);

/// `rusqlite::Error`, the reason why a statement failed.
#[verifier::external_type_specification]
#[verifier::external_body]
pub struct ExSqliteError(rusqlite::Error);

/// Whether the database and the connection are this module's alone: no other connection sees the
/// database, and nothing was made in it or set on the connection but by the statements of this
/// module.
pub uninterp spec fn is_private(c: Connection) -> bool;

/// Whether the tables of [`SCHEMA`] are there.
pub uninterp spec fn has_tables(c: Connection) -> bool;

/// The messages by their IDs.
pub uninterp spec fn db_messages(c: Connection) -> Map<
    Seq<char>,
    (Seq<char>, Seq<char>, Seq<char>, i64, Seq<char>),
>;

/// The contacts by their IDs: name and identity key.
pub uninterp spec fn db_contacts(c: Connection) -> Map<Seq<char>, (Seq<char>, Seq<char>)>;

/// The pending acknowledgements by their message IDs: the times.
pub uninterp spec fn db_acks(c: Connection) -> Map<Seq<char>, i64>;

/// The values of the secure store by their keys.
pub uninterp spec fn db_keys(c: Connection) -> Map<Seq<char>, Seq<u8>>;

/// The records in the order in which they were added: table and JSON text.
pub uninterp spec fn db_records(c: Connection) -> Seq<(Seq<char>, Seq<char>)>;

/// The key that the connection was last given for its database, if any.
pub uninterp spec fn given_key(c: Connection) -> Option<Seq<u8>>;

/// The statements that give a connection the key of its database.
pub open spec fn key_statements(key: Seq<u8>) -> Seq<char> {
    "PRAGMA key = \"x'"@ + bytes_hex(key) + "'\";\nPRAGMA cipher_page_size = 4096;\n"@
}

/// All that is in a database.
pub ghost struct Contents {
    pub messages: Map<Seq<char>, MessageRow>,
    pub contacts: Map<Seq<char>, (Seq<char>, Seq<char>)>,
    pub acks: Map<Seq<char>, i64>,
    pub keys: Map<Seq<char>, Seq<u8>>,
    pub records: Seq<(Seq<char>, Seq<char>)>,
}

/// All that is in a database.
pub open spec fn contents(c: Connection) -> Contents {
    Contents {
        messages: db_messages(c),
        contacts: db_contacts(c),
        acks: db_acks(c),
        keys: db_keys(c),
        records: db_records(c),
    }
}

/// Whether nothing is in a database.
pub open spec fn is_empty(c: Contents) -> bool {
    c == (Contents {
        messages: Map::empty(),
        contacts: Map::empty(),
        acks: Map::empty(),
        keys: Map::empty(),
        records: Seq::empty(),
    })
}

/// A text without NUL characters. SQLite's documentation leaves undefined what an expression gives for
/// one that holds them, so nothing is said of such IDs, keys and names of tables.
pub open spec fn is_clean(t: Seq<char>) -> bool {
    !t.contains('\0')
}

/// A text that SQLite searches character by character as it is: it ends at a NUL character, and the
/// last two characters of the first plane are taken for another one.
pub open spec fn is_searchable(t: Seq<char>) -> bool {
    is_clean(t) && !t.contains('\u{fffe}') && !t.contains('\u{ffff}')
}

/// A text that stands for itself in a pattern. The character U+0080 does not: SQLite looks for it as
/// for a single byte.
pub open spec fn is_literal(t: Seq<char>) -> bool {
    is_searchable(t) && !t.contains('%') && !t.contains('_') && !t.contains('\u{80}')
}

/// Whether every key can be searched.
pub open spec fn are_searchable(keys: Map<Seq<char>, Seq<u8>>) -> bool {
    forall|k: Seq<char>| #[trigger] keys.contains_key(k) ==> is_searchable(k)
}

/// A letter from `A` to `Z` in lower case, and everything else as it is.
pub open spec fn folded(t: Seq<char>) -> Seq<char> {
    t.map_values(
        |c: char|
            if 'A' <= c <= 'Z' {
                (c as int + 32) as char
            } else {
                c
            },
    )
}

/// The directions that a message can have.
pub open spec fn is_direction(t: Seq<char>) -> bool {
    t == "sent"@ || t == "received"@ || t == "pending"@
}

/// The IDs of the messages of a conversation.
pub open spec fn ids_of(messages: Map<Seq<char>, MessageRow>, peer_id: Seq<char>) -> Set<
    Seq<char>,
> {
    messages.dom().filter(|id: Seq<char>| messages[id].0 == peer_id)
}

/// A message that was marked as delivered.
pub open spec fn delivered(row: MessageRow) -> MessageRow {
    (row.0, row.1, row.2, row.3, "delivered"@)
}

/// The acknowledgements with one more, unless there is one for the message already.
pub open spec fn with_ack(acks: Map<Seq<char>, i64>, id: Seq<char>, timestamp_ms: i64) -> Map<
    Seq<char>,
    i64,
> {
    if acks.contains_key(id) {
        acks
    } else {
        acks.insert(id, timestamp_ms)
    }
}

/// The acknowledgements that are not older than a time.
pub open spec fn not_before(acks: Map<Seq<char>, i64>, cutoff: i64) -> Map<Seq<char>, i64> {
    acks.restrict(acks.dom().filter(|id: Seq<char>| acks[id] >= cutoff))
}

/// The values whose keys do not hold a text, in whatever case.
pub open spec fn without_keys_of(keys: Map<Seq<char>, Seq<u8>>, part: Seq<char>) -> Map<
    Seq<char>,
    Seq<u8>,
> {
    keys.restrict(keys.dom().filter(|k: Seq<char>| !occurs_in(folded(part), folded(k))))
}

/// What is left without a contact: the contact, its messages and the values under keys that hold its
/// ID are gone.
pub open spec fn forgotten(c: Contents, user_id: Seq<char>) -> Contents {
    Contents {
        contacts: c.contacts.remove(user_id),
        messages: c.messages.remove_keys(ids_of(c.messages, user_id)),
        keys: without_keys_of(c.keys, user_id),
        ..c
    }
}

/// What is left where a contact could not be deleted: everything, or everything without the contact,
/// or everything without the contact and its messages.
pub open spec fn partly_forgotten(c: Contents, user_id: Seq<char>, after: Contents) -> bool {
    ||| after == c
    ||| after == (Contents { contacts: c.contacts.remove(user_id), ..c })
    ||| after == (Contents { keys: c.keys, ..forgotten(c, user_id) })
}

/// The statements that write, each with values of the kinds that its columns are made for.
pub open spec fn is_writing(sql: Seq<char>, p: Seq<Value>) -> bool {
    ||| sql == INSERT_MESSAGE@ && p.len() == 6 && p[0] is Text && p[1] is Text && p[2] is Text
        && p[3] is Text && p[4] is Int && p[5] is Text
    ||| sql == MARK_DELIVERED@ && p.len() == 1 && p[0] is Text
    ||| sql == DELETE_MESSAGES@ && p.len() == 1 && p[0] is Text
    ||| sql == UPSERT_CONTACT@ && p.len() == 3 && p[0] is Text && p[1] is Text && p[2] is Text
    ||| sql == DELETE_CONTACT@ && p.len() == 1 && p[0] is Text
    ||| sql == INSERT_ACK@ && p.len() == 2 && p[0] is Text && p[1] is Int
    ||| sql == DELETE_ACKS@ && p.len() == 0
    ||| sql == PRUNE_ACKS@ && p.len() == 1 && p[0] is Int
    ||| sql == SAVE_KEY@ && p.len() == 2 && p[0] is Text && p[1] is Blob
    ||| sql == DELETE_KEYS@ && p.len() == 1 && p[0] is Text
    ||| sql == INSERT_RECORD@ && p.len() == 2 && p[0] is Text && p[1] is Text
}

/// What a writing statement does to the contents, and what number of rows it reports.
pub open spec fn wrote(
    before: Contents,
    sql: Seq<char>,
    p: Seq<Value>,
    after: Contents,
    n: usize,
) -> bool {
    &&& sql == INSERT_MESSAGE@ && is_clean(p[0].text()->0) ==> after == (Contents {
        messages: before.messages.insert(
            p[0].text()->0,
            (
                p[1].text()->0,
                p[2].text()->0,
                p[3].text()->0,
                p[4].number()->0,
                p[5].text()->0,
            ),
        ),
        ..before
    })
    &&& sql == MARK_DELIVERED@ && is_clean(p[0].text()->0) ==> after == (Contents {
        messages: if before.messages.contains_key(p[0].text()->0) {
            before.messages.insert(
                p[0].text()->0,
                delivered(before.messages[p[0].text()->0]),
            )
        } else {
            before.messages
        },
        ..before
    })
    &&& sql == DELETE_MESSAGES@ && is_clean(p[0].text()->0) ==> after == (Contents {
        messages: before.messages.remove_keys(ids_of(before.messages, p[0].text()->0)),
        ..before
    }) && n == ids_of(before.messages, p[0].text()->0).len()
    &&& sql == UPSERT_CONTACT@ && is_clean(p[0].text()->0) ==> after == (Contents {
        contacts: before.contacts.insert(
            p[0].text()->0,
            (p[1].text()->0, p[2].text()->0),
        ),
        ..before
    })
    &&& sql == DELETE_CONTACT@ && is_clean(p[0].text()->0) ==> after == (Contents {
        contacts: before.contacts.remove(p[0].text()->0),
        ..before
    })
    &&& sql == INSERT_ACK@ && is_clean(p[0].text()->0) ==> after == (Contents {
        acks: with_ack(before.acks, p[0].text()->0, p[1].number()->0),
        ..before
    })
    &&& sql == DELETE_ACKS@ ==> after == (Contents { acks: Map::empty(), ..before })
    &&& sql == PRUNE_ACKS@ ==> after == (Contents {
        acks: not_before(before.acks, p[0].number()->0),
        ..before
    })
    &&& sql == SAVE_KEY@ && is_clean(p[0].text()->0) ==> after == (Contents {
        keys: before.keys.insert(p[0].text()->0, p[1].blob()->0),
        ..before
    })
    &&& sql == DELETE_KEYS@ ==> after == (Contents { keys: after.keys, ..before }) && (is_literal(
        p[0].text()->0,
    ) && are_searchable(before.keys) ==> after.keys == without_keys_of(
        before.keys,
        p[0].text()->0,
    ))
    &&& sql == INSERT_RECORD@ ==> after == (Contents {
        records: before.records.push((p[0].text()->0, p[1].text()->0)),
        ..before
    })
}

/// The message in a row.
pub open spec fn message_in(row: Vec<Value>) -> Option<(Seq<char>, MessageRow)> {
    if row@.len() == 6 && row@[0].text() is Some && row@[1].text() is Some && row@[2].text() is Some
        && row@[3].text() is Some && row@[4].number() is Some && row@[5].text() is Some {
        Some(
            (
                row@[0].text()->0,
                (
                    row@[1].text()->0,
                    row@[2].text()->0,
                    row@[3].text()->0,
                    row@[4].number()->0,
                    row@[5].text()->0,
                ),
            ),
        )
    } else {
        None
    }
}

/// The contact in a row.
pub open spec fn contact_in(row: Vec<Value>) -> Option<(Seq<char>, (Seq<char>, Seq<char>))> {
    if row@.len() == 3 && row@[0].text() is Some && row@[1].text() is Some && row@[2].text()
        is Some {
        Some((row@[0].text()->0, (row@[1].text()->0, row@[2].text()->0)))
    } else {
        None
    }
}

/// The acknowledgement in a row.
pub open spec fn ack_in(row: Vec<Value>) -> Option<(Seq<char>, i64)> {
    if row@.len() == 2 && row@[0].text() is Some && row@[1].number() is Some {
        Some((row@[0].text()->0, row@[1].number()->0))
    } else {
        None
    }
}

/// Whether entries are different entries of a map, each with its value.
pub open spec fn are_entries<V>(map: Map<Seq<char>, V>, entries: Seq<(Seq<char>, V)>) -> bool {
    &&& forall|i: int|
        0 <= i < entries.len() ==> map.contains_key((#[trigger] entries[i]).0)
            && map[entries[i].0] == entries[i].1
    &&& forall|i: int, j: int|
        0 <= i < j < entries.len() ==> (#[trigger] entries[i]).0 != (#[trigger] entries[j]).0
}

/// Whether some entry has a key.
pub open spec fn has_entry<V>(entries: Seq<(Seq<char>, V)>, key: Seq<char>) -> bool {
    exists|i: int| 0 <= i < entries.len() && (#[trigger] entries[i]).0 == key
}

/// Whether entries are messages of a conversation, at most `limit` of them unless that is negative,
/// the latest first, and none is left out that is later than one of them, or at all where there are
/// fewer than `limit`.
pub open spec fn are_latest(
    messages: Map<Seq<char>, MessageRow>,
    peer_id: Seq<char>,
    limit: i64,
    entries: Seq<(Seq<char>, MessageRow)>,
) -> bool {
    &&& are_entries(messages, entries)
    &&& limit >= 0 ==> entries.len() <= limit
    &&& forall|i: int| 0 <= i < entries.len() ==> (#[trigger] entries[i]).1.0 == peer_id
    &&& forall|i: int, j: int|
        0 <= i < j < entries.len() ==> (#[trigger] entries[i]).1.3 >= (#[trigger] entries[j]).1.3
    &&& forall|id: Seq<char>|
        messages.contains_key(id) && messages[id].0 == peer_id && !#[trigger] has_entry(
            entries,
            id,
        ) ==> entries.len() == limit && forall|i: int|
            0 <= i < entries.len() ==> (#[trigger] entries[i]).1.3 >= messages[id].3
}

/// The number of messages that are read of a conversation of `n`: at most `limit`, unless that is
/// negative.
pub open spec fn number_read(n: nat, limit: i64) -> nat {
    if 0 <= limit < n {
        limit as nat
    } else {
        n
    }
}

/// Whether entries are all contacts, ordered by name.
pub open spec fn are_contacts(
    contacts: Map<Seq<char>, (Seq<char>, Seq<char>)>,
    entries: Seq<(Seq<char>, (Seq<char>, Seq<char>))>,
) -> bool {
    &&& are_entries(contacts, entries)
    &&& forall|id: Seq<char>| contacts.contains_key(id) ==> #[trigger] has_entry(entries, id)
    &&& (forall|id: Seq<char>| contacts.contains_key(id) ==> is_clean((#[trigger] contacts[id]).0))
        ==> forall|i: int, j: int|
        0 <= i < j < entries.len() ==> !bytes_before(
            encode_utf8((#[trigger] entries[j]).1.0),
            encode_utf8((#[trigger] entries[i]).1.0),
        )
}

/// The messages in rows.
pub open spec fn messages_in(rows: Seq<Vec<Value>>) -> Seq<(Seq<char>, MessageRow)> {
    rows.map_values(|r: Vec<Value>| message_in(r)->0)
}

/// The contacts in rows.
pub open spec fn contacts_in(rows: Seq<Vec<Value>>) -> Seq<(Seq<char>, (Seq<char>, Seq<char>))> {
    rows.map_values(|r: Vec<Value>| contact_in(r)->0)
}

/// The acknowledgements in rows.
pub open spec fn acks_in(rows: Seq<Vec<Value>>) -> Seq<(Seq<char>, i64)> {
    rows.map_values(|r: Vec<Value>| ack_in(r)->0)
}

/// The last record of a table.
pub open spec fn last_record(records: Seq<(Seq<char>, Seq<char>)>, table: Seq<char>) -> Option<
    Seq<char>,
>
    decreases records.len(),
{
    if records.len() == 0 {
        None
    } else if records.last().0 == table {
        Some(records.last().1)
    } else {
        last_record(records.drop_last(), table)
    }
}

/// The statements that read.
pub open spec fn is_reading(sql: Seq<char>) -> bool {
    ||| sql == SELECT_MESSAGES@
    ||| sql == SELECT_CONTACTS@
    ||| sql == SELECT_CONTACT@
    ||| sql == SELECT_ACKS@
    ||| sql == COUNT_ACK@
    ||| sql == LOAD_KEY@
    ||| sql == LAST_RECORD@
}

/// What a reading statement gives.
pub open spec fn read(c: Contents, sql: Seq<char>, p: Seq<Value>, rows: Seq<Vec<Value>>) -> bool {
    &&& sql == SELECT_MESSAGES@ && p.len() == 2 && p[0].text() is Some && p[1].number() is Some
        && is_clean(p[0].text()->0) ==> (forall|i: int|
        0 <= i < rows.len() ==> message_in(#[trigger] rows[i]) is Some) && are_latest(
        c.messages,
        p[0].text()->0,
        p[1].number()->0,
        messages_in(rows),
    )
    &&& sql == SELECT_CONTACTS@ && p.len() == 0 ==> (forall|i: int|
        0 <= i < rows.len() ==> contact_in(#[trigger] rows[i]) is Some) && are_contacts(
        c.contacts,
        contacts_in(rows),
    )
    &&& sql == SELECT_CONTACT@ && p.len() == 1 && p[0].text() is Some && is_clean(p[0].text()->0)
        ==> if c.contacts.contains_key(p[0].text()->0) {
        rows.len() == 1 && contact_in(rows[0]) == Some(
            (p[0].text()->0, c.contacts[p[0].text()->0]),
        )
    } else {
        rows.len() == 0
    }
    &&& sql == SELECT_ACKS@ && p.len() == 0 ==> (forall|i: int|
        0 <= i < rows.len() ==> ack_in(#[trigger] rows[i]) is Some) && are_entries(
        c.acks,
        acks_in(rows),
    ) && forall|id: Seq<char>|
        c.acks.contains_key(id) ==> #[trigger] has_entry(acks_in(rows), id)
    &&& sql == COUNT_ACK@ && p.len() == 1 && p[0].text() is Some && is_clean(p[0].text()->0)
        ==> rows.len() == 1 && rows[0]@.len() == 1 && rows[0]@[0].number() == Some(
        if c.acks.contains_key(p[0].text()->0) {
            1i64
        } else {
            0
        },
    )
    &&& sql == LOAD_KEY@ && p.len() == 1 && p[0].text() is Some && is_clean(p[0].text()->0)
        ==> if c.keys.contains_key(p[0].text()->0) {
        rows.len() == 1 && rows[0]@.len() == 1 && rows[0]@[0].blob() == Some(
            c.keys[p[0].text()->0],
        )
    } else {
        rows.len() == 0
    }
    &&& sql == LAST_RECORD@ && p.len() == 1 && p[0].text() is Some && is_clean(p[0].text()->0)
        ==> match last_record(c.records, p[0].text()->0) {
        Some(json) => rows.len() == 1 && rows[0]@.len() == 1 && rows[0]@[0].text() == Some(json),
        None => rows.len() == 0,
    }
}

// ── The database ─────────────────────────────────────────────────────────────

/// Calls `rusqlite::Connection::open_in_memory`: a new database of its own, without tables or contents,
/// on which nothing is set yet.
#[verifier::external_body]
fn connect_in_memory() -> (r: Result<Connection, rusqlite::Error>)
    ensures
        match r {
            Ok(c) => {
                &&& is_private(c)
                &&& !has_tables(c)
                &&& db_messages(c) == Map::<Seq<char>, MessageRow>::empty()
                &&& db_contacts(c) == Map::<Seq<char>, (Seq<char>, Seq<char>)>::empty()
                &&& db_acks(c) == Map::<Seq<char>, i64>::empty()
                &&& db_keys(c) == Map::<Seq<char>, Seq<u8>>::empty()
                &&& db_records(c) == Seq::<(Seq<char>, Seq<char>)>::empty()
            },
            Err(_) => true,
        },
{
    Connection::open_in_memory()
}

/// Calls `rusqlite::Connection::execute_batch`. Of [`PRAGMAS`] and [`SCHEMA`] it is stated that they
/// leave the contents of a private database and the key of any as they are, and that the tables are
/// there after the latter. The statements for a key of 32 bytes give it to the connection; a private
/// database stays one, and one that is empty stays so. Nothing is stated of the contents of another
/// that is given a key, nor of other statements.
#[verifier::external_body]
fn execute_batch(conn: &mut Connection, sql: &str) -> (r: Result<(), rusqlite::Error>)
    ensures
        is_private(*old(conn)) && (sql@ == PRAGMAS@ || sql@ == SCHEMA@) ==> is_private(
            *final(conn),
        ) && contents(*final(conn)) == contents(*old(conn)),
        is_private(*old(conn)) && sql@ == SCHEMA@ && r is Ok ==> has_tables(*final(conn)),
        sql@ == PRAGMAS@ || sql@ == SCHEMA@ ==> given_key(*final(conn)) == given_key(*old(conn)),
        r is Ok ==> (forall|key: Seq<u8>|
            key.len() == 32 && sql@ == #[trigger] key_statements(key) ==> given_key(*final(conn))
                == Some(key)),
        is_private(*old(conn)) ==> (forall|key: Seq<u8>|
            key.len() == 32 && sql@ == #[trigger] key_statements(key) ==> is_private(*final(conn))
                && (is_empty(contents(*old(conn))) && !has_tables(*old(conn)) ==> is_empty(
                contents(*final(conn)),
            ))),
{
    conn.execute_batch(sql)
}

/// Calls `rusqlite::Connection::execute`. On a private database a statement of this module, with
/// values of the kinds that its columns are made for, does to the contents what `wrote` says, or fails
/// and changes nothing; a message with an unknown direction is refused by the tables. Whether a
/// statement succeeds otherwise is not stated, nor anything of other values or of a database that
/// others see.
#[verifier::external_body]
fn execute(conn: &mut Connection, sql: &str, params: &Vec<Value>) -> (r: Result<
    usize,
    rusqlite::Error,
>)
    ensures
        is_private(*old(conn)) && is_writing(sql@, params@) ==> is_private(*final(conn))
            && has_tables(*final(conn)) == has_tables(*old(conn)),
        is_private(*old(conn)) && is_writing(sql@, params@) && r is Ok ==> wrote(
            contents(*old(conn)),
            sql@,
            params@,
            contents(*final(conn)),
            r->Ok_0,
        ),
        is_private(*old(conn)) && is_writing(sql@, params@) && r is Err ==> contents(*final(conn))
            == contents(*old(conn)),
        is_private(*old(conn)) && has_tables(*old(conn)) && is_writing(sql@, params@) && sql@
            == INSERT_MESSAGE@ && !is_direction(params@[3].text()->0) ==> r is Err,
{
    conn.execute(sql, params_from_iter(params.iter().map(|v| match v {
        Value::Text(s) => SqlValue::Text(s.clone()),
        Value::Int(n) => SqlValue::Integer(*n),
        Value::Blob(b) => SqlValue::Blob(b.clone()),
        Value::Other => SqlValue::Null,
    })))
}

/// Calls `prepare` of `rusqlite::Connection` and `query_map` of the statement. On a private database
/// a reading statement of this module gives the rows that `read` describes. On any database the
/// statement for messages gives no more rows than are wanted. Whether a statement succeeds is not
/// stated, nor anything else of a database that others see.
#[verifier::external_body]
fn query(conn: &Connection, sql: &str, params: &Vec<Value>) -> (r: Result<
    Vec<Vec<Value>>,
    rusqlite::Error,
>)
    requires
        is_reading(sql@),
    ensures
        is_private(*conn) && r is Ok ==> read(contents(*conn), sql@, params@, (r->Ok_0)@),
        r is Ok && sql@ == SELECT_MESSAGES@ && params@.len() == 2 && params@[1] is Int
            && params@[1].number()->0 >= 0 ==> (r->Ok_0)@.len() <= params@[1].number()->0,
{
    let mut stmt = conn.prepare(sql)?;
    let rows = stmt.query_map(params_from_iter(params.iter().map(|v| match v {
        Value::Text(s) => s.clone().into(),
        Value::Int(n) => SqlValue::Integer(*n),
        Value::Blob(b) => b.clone().into(),
        _ => SqlValue::Null,
    })), |row| (0..row.as_ref().column_count()).map(|i| Ok(match row.get_ref(i)? {
        ValueRef::Text(_) => Value::Text(row.get(i)?),
        ValueRef::Integer(n) => Value::Int(n),
        ValueRef::Blob(b) => Value::Blob(b.into()),
        _ => Value::Other,
    })).collect())?;
    rows.collect()
}

/// The message database.
pub struct Storage {
    pub conn: Connection,
}

/// A text as a value.
fn text_value(s: &str) -> (r: Value)
    ensures
        r.text() == Some(s@),
{
    Value::Text(s.to_string())
}

/// One value.
fn one(v: Value) -> (r: Vec<Value>)
    ensures
        r@ == seq![v],
{
    let mut values: Vec<Value> = Vec::new();
    values.push(v);
    values
}

/// The text at a place of a row.
fn text_at(row: &Vec<Value>, i: usize) -> (r: Option<String>)
    ensures
        match r {
            Some(s) => i < row@.len() && row@[i as int].text() == Some(s@),
            None => i >= row@.len() || row@[i as int].text() is None,
        },
{
    if i >= row.len() {
        return None;
    }
    match &row[i] {
        Value::Text(s) => Some(s.clone()),
        _ => None,
    }
}

/// The number at a place of a row.
fn int_at(row: &Vec<Value>, i: usize) -> (r: Option<i64>)
    ensures
        match r {
            Some(n) => i < row@.len() && row@[i as int].number() == Some(n),
            None => i >= row@.len() || row@[i as int].number() is None,
        },
{
    if i >= row.len() {
        return None;
    }
    match &row[i] {
        Value::Int(n) => Some(*n),
        _ => None,
    }
}

/// The message in a row.
fn to_message(row: &Vec<Value>) -> (r: Option<StoredMessage>)
    ensures
        match r {
            Some(m) => message_in(*row) == Some((m.id@, m.row())),
            None => message_in(*row) is None,
        },
{
    if row.len() != 6 {
        return None;
    }
    match (text_at(row, 0), text_at(row, 1), text_at(row, 2), text_at(row, 3), int_at(row, 4), text_at(
        row,
        5,
    )) {
        (
            Some(id),
            Some(peer_id),
            Some(text),
            Some(direction),
            Some(timestamp_ms),
            Some(delivery_status),
        ) => Some(
            StoredMessage { id, peer_id, text, direction, timestamp_ms, delivery_status },
        ),
        _ => None,
    }
}

/// The contact in a row.
fn to_contact(row: &Vec<Value>) -> (r: Option<StoredContact>)
    ensures
        match r {
            Some(c) => contact_in(*row) == Some((c.user_id@, c.row())),
            None => contact_in(*row) is None,
        },
{
    if row.len() != 3 {
        return None;
    }
    match (text_at(row, 0), text_at(row, 1), text_at(row, 2)) {
        (Some(user_id), Some(display_name), Some(identity_key_b64)) => Some(
            StoredContact { user_id, display_name, identity_key_b64 },
        ),
        _ => None,
    }
}

/// The messages as they are stored, in their order.
pub open spec fn stored_messages(v: Seq<StoredMessage>) -> Seq<(Seq<char>, MessageRow)> {
    v.map_values(|m: StoredMessage| (m.id@, m.row()))
}

/// The contacts as they are stored, in their order.
pub open spec fn stored_contacts(v: Seq<StoredContact>) -> Seq<
    (Seq<char>, (Seq<char>, Seq<char>)),
> {
    v.map_values(|c: StoredContact| (c.user_id@, c.row()))
}

/// The acknowledgements as they are stored, in their order.
pub open spec fn stored_acks(v: Seq<(String, i64)>) -> Seq<(Seq<char>, i64)> {
    v.map_values(|a: (String, i64)| (a.0@, a.1))
}

/// The messages in rows that come latest first, the oldest first, if every row holds one.
pub fn messages_from(rows: &Vec<Vec<Value>>) -> (r: Option<Vec<StoredMessage>>)
    ensures
        match r {
            Some(v) => {
                &&& forall|j: int|
                    0 <= j < rows@.len() ==> message_in(#[trigger] rows@[j]) is Some
                &&& stored_messages(v@).reverse() == messages_in(rows@)
            },
            None => exists|j: int| 0 <= j < rows@.len() && message_in(#[trigger] rows@[j]) is None,
        },
{
    let n: usize = rows.len();
    let mut messages: Vec<StoredMessage> = Vec::new();
    let mut i: usize = n;
    while i > 0
        invariant
            i <= n,
            n == rows@.len(),
            messages@.len() == n - i,
            forall|j: int|
                i <= j < n ==> message_in(#[trigger] rows@[j]) == Some(
                    (messages@[n - 1 - j].id@, messages@[n - 1 - j].row()),
                ),
        decreases i,
    {
        i = i - 1;
        match to_message(&rows[i]) {
            Some(m) => messages.push(m),
            None => return None,
        }
    }
    proof {
        let entries = stored_messages(messages@).reverse();
        assert forall|j: int| 0 <= j < n implies entries[j] == messages_in(rows@)[j] by {
            assert(message_in(rows@[j]) == Some(
                (messages@[n - 1 - j].id@, messages@[n - 1 - j].row()),
            ));
        }
        assert(entries =~= messages_in(rows@));
    }
    Some(messages)
}

/// The contacts in rows, if every row holds one.
pub fn contacts_from(rows: &Vec<Vec<Value>>) -> (r: Option<Vec<StoredContact>>)
    ensures
        match r {
            Some(v) => {
                &&& forall|j: int|
                    0 <= j < rows@.len() ==> contact_in(#[trigger] rows@[j]) is Some
                &&& stored_contacts(v@) == contacts_in(rows@)
            },
            None => exists|j: int| 0 <= j < rows@.len() && contact_in(#[trigger] rows@[j]) is None,
        },
{
    let mut contacts: Vec<StoredContact> = Vec::new();
    let mut i: usize = 0;
    while i < rows.len()
        invariant
            i <= rows@.len(),
            contacts@.len() == i,
            forall|j: int|
                0 <= j < i ==> contact_in(#[trigger] rows@[j]) == Some(
                    (contacts@[j].user_id@, contacts@[j].row()),
                ),
        decreases rows@.len() - i,
    {
        match to_contact(&rows[i]) {
            Some(c) => contacts.push(c),
            None => return None,
        }
        i = i + 1;
    }
    proof {
        let entries = stored_contacts(contacts@);
        assert forall|j: int| 0 <= j < entries.len() implies entries[j] == contacts_in(rows@)[j] by {
            assert(contact_in(rows@[j]) == Some((contacts@[j].user_id@, contacts@[j].row())));
        }
        assert(entries =~= contacts_in(rows@));
    }
    Some(contacts)
}

/// The acknowledgements in rows, if every row holds one.
pub fn acks_from(rows: &Vec<Vec<Value>>) -> (r: Option<Vec<(String, i64)>>)
    ensures
        match r {
            Some(v) => {
                &&& forall|j: int| 0 <= j < rows@.len() ==> ack_in(#[trigger] rows@[j]) is Some
                &&& stored_acks(v@) == acks_in(rows@)
            },
            None => exists|j: int| 0 <= j < rows@.len() && ack_in(#[trigger] rows@[j]) is None,
        },
{
    let mut acks: Vec<(String, i64)> = Vec::new();
    let mut i: usize = 0;
    while i < rows.len()
        invariant
            i <= rows@.len(),
            acks@.len() == i,
            forall|j: int|
                0 <= j < i ==> ack_in(#[trigger] rows@[j]) == Some((acks@[j].0@, acks@[j].1)),
        decreases rows@.len() - i,
    {
        if rows[i].len() != 2 {
            return None;
        }
        match (text_at(&rows[i], 0), int_at(&rows[i], 1)) {
            (Some(id), Some(n)) => acks.push((id, n)),
            _ => return None,
        }
        i = i + 1;
    }
    proof {
        let entries = stored_acks(acks@);
        assert forall|j: int| 0 <= j < entries.len() implies entries[j] == acks_in(rows@)[j] by {
            assert(ack_in(rows@[j]) == Some((acks@[j].0@, acks@[j].1)));
        }
        assert(entries =~= acks_in(rows@));
    }
    Some(acks)
}

/// The contact in the first of some rows: none where there is no row, and an error where the row
/// does not hold one.
pub fn contact_from(rows: &Vec<Vec<Value>>) -> (r: Result<Option<StoredContact>, StorageError>)
    ensures
        match r {
            Ok(Some(c)) => rows@.len() > 0 && contact_in(rows@[0]) == Some((c.user_id@, c.row())),
            Ok(None) => rows@.len() == 0,
            Err(e) => e is Row && rows@.len() > 0 && contact_in(rows@[0]) is None,
        },
{
    if rows.len() == 0 {
        return Ok(None);
    }
    match to_contact(&rows[0]) {
        Some(c) => Ok(Some(c)),
        None => Err(StorageError::Row),
    }
}

/// Whether the number in the first of some rows is positive: an error where there is none.
pub fn count_from(rows: &Vec<Vec<Value>>) -> (r: Result<bool, StorageError>)
    ensures
        match r {
            Ok(b) => rows@.len() > 0 && rows@[0]@.len() > 0 && rows@[0]@[0].number() is Some && b == (
            rows@[0]@[0].number()->0 > 0),
            Err(e) => e is Row && (rows@.len() == 0 || rows@[0]@.len() == 0
                || rows@[0]@[0].number() is None),
        },
{
    if rows.len() == 0 {
        return Err(StorageError::Row);
    }
    match int_at(&rows[0], 0) {
        Some(n) => Ok(n > 0),
        None => Err(StorageError::Row),
    }
}

/// The bytes in the first of some rows: none where there is no row, and an error where the row does
/// not begin with bytes.
pub fn blob_from(rows: Vec<Vec<Value>>) -> (r: Result<Option<Vec<u8>>, StorageError>)
    ensures
        match r {
            Ok(Some(b)) => rows@.len() > 0 && rows@[0]@.len() > 0 && rows@[0]@[0].blob() == Some(b@),
            Ok(None) => rows@.len() == 0,
            Err(e) => e is Row && rows@.len() > 0 && (rows@[0]@.len() == 0
                || rows@[0]@[0].blob() is None),
        },
{
    if rows.len() == 0 {
        return Ok(None);
    }
    let mut rows = rows;
    let mut row = rows.swap_remove(0);
    if row.len() == 0 {
        return Err(StorageError::Row);
    }
    match row.swap_remove(0) {
        Value::Blob(b) => Ok(Some(b)),
        _ => Err(StorageError::Row),
    }
}

/// The text in the first of some rows: none where there is no row, and an error where the row does
/// not begin with a text.
pub fn text_from(rows: &Vec<Vec<Value>>) -> (r: Result<Option<String>, StorageError>)
    ensures
        match r {
            Ok(Some(s)) => rows@.len() > 0 && rows@[0]@.len() > 0 && rows@[0]@[0].text() == Some(s@),
            Ok(None) => rows@.len() == 0,
            Err(e) => e is Row && rows@.len() > 0 && (rows@[0]@.len() == 0
                || rows@[0]@[0].text() is None),
        },
{
    if rows.len() == 0 {
        return Ok(None);
    }
    match text_at(&rows[0], 0) {
        Some(s) => Ok(Some(s)),
        None => Err(StorageError::Row),
    }
}

/// What is said of a statement that was run: that it was done, or why not.
pub fn done(r: Result<usize, rusqlite::Error>) -> (d: Result<(), StorageError>)
    ensures
        match r {
            Ok(_) => d == Ok::<(), StorageError>(()),
            Err(e) => d == Err::<(), StorageError>(StorageError::Sqlite(e)),
        },
{
    match r {
        Ok(_) => Ok(()),
        Err(e) => Err(StorageError::Sqlite(e)),
    }
}

impl Storage {
    /// All that is in the database.
    pub open spec fn contents(self) -> Contents {
        contents(self.conn)
    }

    /// Whether the database is private and its tables are there.
    pub open spec fn is_own(self) -> bool {
        is_private(self.conn) && has_tables(self.conn)
    }

    /// A new database in memory. It fails only where SQLite does.
    pub fn open_in_memory() -> (r: Result<Self, StorageError>)
        ensures
            match r {
                Ok(s) => s.is_own() && is_empty(s.contents()),
                Err(e) => e is Sqlite,
            },
    {
        match connect_in_memory() {
            Ok(conn) => {
                let mut storage = Storage { conn };
                match storage.init() {
                    Ok(()) => Ok(storage),
                    Err(e) => Err(e),
                }
            },
            Err(e) => Err(StorageError::Sqlite(e)),
        }
    }

    /// The statements that set the key of an encrypted database.
    pub fn key_pragma(db_key: &[u8]) -> (r: String)
        ensures
            r@ == key_statements(db_key@),
    {
        cat3(
            "PRAGMA key = \"x'",
            to_hex(db_key).as_str(),
            "'\";\nPRAGMA cipher_page_size = 4096;\n",
        )
    }

    /// The encrypted database of a connection. The key has 32 bytes and is set before anything else
    /// is done.
    pub fn open(conn: Connection, db_key: &[u8]) -> (r: Result<Self, StorageError>)
        ensures
            match r {
                Ok(s) => {
                    &&& db_key@.len() == 32
                    &&& given_key(s.conn) == Some(db_key@)
                    &&& is_private(conn) ==> s.is_own()
                    &&& is_private(conn) && !has_tables(conn) && is_empty(contents(conn))
                        ==> is_empty(s.contents())
                },
                Err(e) => if db_key@.len() == 32 {
                    e is Sqlite
                } else {
                    e is KeyLength
                },
            },
    {
        if db_key.len() != 32 {
            return Err(StorageError::KeyLength);
        }
        let mut conn = conn;
        match execute_batch(&mut conn, Storage::key_pragma(db_key).as_str()) {
            Ok(()) => {
                let mut storage = Storage { conn };
                match storage.init() {
                    Ok(()) => Ok(storage),
                    Err(e) => Err(e),
                }
            },
            Err(e) => Err(StorageError::Sqlite(e)),
        }
    }

    /// The database of a connection without encryption.
    pub fn open_unencrypted(conn: Connection) -> (r: Result<Self, StorageError>)
        ensures
            match r {
                Ok(s) => {
                    &&& is_private(conn) ==> s.is_own() && s.contents() == contents(conn)
                    &&& given_key(s.conn) == given_key(conn)
                },
                Err(e) => e is Sqlite,
            },
    {
        let mut storage = Storage { conn };
        match storage.init() {
            Ok(()) => Ok(storage),
            Err(e) => Err(e),
        }
    }

    /// Sets the connection up and makes the tables that are not there yet.
    fn init(&mut self) -> (r: Result<(), StorageError>)
        ensures
            is_private(old(self).conn) ==> is_private(final(self).conn) && final(self).contents()
                == old(self).contents(),
            is_private(old(self).conn) && r is Ok ==> has_tables(final(self).conn),
            given_key(final(self).conn) == given_key(old(self).conn),
            r is Err ==> r->Err_0 is Sqlite,
    {
        match execute_batch(&mut self.conn, PRAGMAS) {
            Ok(()) => {},
            Err(e) => return Err(StorageError::Sqlite(e)),
        }
        match execute_batch(&mut self.conn, SCHEMA) {
            Ok(()) => Ok(()),
            Err(e) => Err(StorageError::Sqlite(e)),
        }
    }

    // ── Messages ─────────────────────────────────────────────────────────────

    /// Stores a message under its ID, in place of another one with the same ID.
    pub fn store_message(&mut self, msg: &StoredMessage) -> (r: Result<(), StorageError>)
        ensures
            old(self).is_own() ==> final(self).is_own(),
            old(self).is_own() && r is Ok && is_clean(msg.id@) ==> final(self).contents()
                == (Contents {
                messages: old(self).contents().messages.insert(msg.id@, msg.row()),
                ..old(self).contents()
            }),
            old(self).is_own() && r is Err ==> final(self).contents() == old(self).contents(),
            old(self).is_own() && !is_direction(msg.direction@) ==> r is Err,
            r is Err ==> r->Err_0 is Sqlite,
    {
        let mut params: Vec<Value> = Vec::new();
        params.push(text_value(msg.id.as_str()));
        params.push(text_value(msg.peer_id.as_str()));
        params.push(text_value(msg.text.as_str()));
        params.push(text_value(msg.direction.as_str()));
        params.push(Value::Int(msg.timestamp_ms));
        params.push(text_value(msg.delivery_status.as_str()));
        done(execute(&mut self.conn, INSERT_MESSAGE, &params))
    }

    /// The latest messages of a conversation, at most `limit`, the oldest of them first. Of a database
    /// that others see only the number is stated: SQLite takes the order and the conversation from an
    /// index in the file, which others may have written or damaged.
    pub fn get_messages(&self, peer_id: &str, limit: usize) -> (r: Result<
        Vec<StoredMessage>,
        StorageError,
    >)
        ensures
            self.is_own() && r is Ok && is_clean(peer_id@) ==> are_latest(
                self.contents().messages,
                peer_id@,
                limit as i64,
                stored_messages((r->Ok_0)@).reverse(),
            ),
            r is Ok && limit <= i64::MAX ==> (r->Ok_0)@.len() <= limit,
            self.is_own() && r is Ok && is_clean(peer_id@)
                && self.contents().messages.dom().finite() ==> (r->Ok_0)@.len() == number_read(
                ids_of(self.contents().messages, peer_id@).len(),
                limit as i64,
            ),
            self.is_own() && r is Err && is_clean(peer_id@) ==> r->Err_0 is Sqlite,
    {
        let mut params: Vec<Value> = Vec::new();
        params.push(text_value(peer_id));
        params.push(
            Value::Int(
                #[verifier::truncate]
                (limit as i64),
            ),
        );
        let rows = match query(&self.conn, SELECT_MESSAGES, &params) {
            Ok(rows) => rows,
            Err(e) => return Err(StorageError::Sqlite(e)),
        };
        match messages_from(&rows) {
            Some(messages) => {
                proof {
                    let c = self.contents().messages;
                    if self.is_own() && is_clean(peer_id@) && c.dom().finite() {
                        latest_are_counted(c, peer_id@, limit as i64, messages_in(rows@));
                    }
                }
                Ok(messages)
            },
            None => Err(StorageError::Row),
        }
    }

    /// Marks a message as delivered, if there is one with that ID.
    pub fn mark_delivered(&mut self, message_id: &str) -> (r: Result<(), StorageError>)
        ensures
            old(self).is_own() ==> final(self).is_own(),
            old(self).is_own() && r is Ok && is_clean(message_id@) ==> final(self).contents()
                == (Contents {
                messages: if old(self).contents().messages.contains_key(message_id@) {
                    old(self).contents().messages.insert(
                        message_id@,
                        delivered(old(self).contents().messages[message_id@]),
                    )
                } else {
                    old(self).contents().messages
                },
                ..old(self).contents()
            }),
            old(self).is_own() && r is Err ==> final(self).contents() == old(self).contents(),
            r is Err ==> r->Err_0 is Sqlite,
    {
        done(execute(&mut self.conn, MARK_DELIVERED, &one(text_value(message_id))))
    }

    // ── Contacts ─────────────────────────────────────────────────────────────

    /// Stores a contact under its ID, in place of another one with the same ID.
    pub fn upsert_contact(&mut self, contact: &StoredContact) -> (r: Result<(), StorageError>)
        ensures
            old(self).is_own() ==> final(self).is_own(),
            old(self).is_own() && r is Ok && is_clean(contact.user_id@) ==> final(self).contents()
                == (Contents {
                contacts: old(self).contents().contacts.insert(
                    contact.user_id@,
                    contact.row(),
                ),
                ..old(self).contents()
            }),
            old(self).is_own() && r is Err ==> final(self).contents() == old(self).contents(),
            r is Err ==> r->Err_0 is Sqlite,
    {
        let mut params: Vec<Value> = Vec::new();
        params.push(text_value(contact.user_id.as_str()));
        params.push(text_value(contact.display_name.as_str()));
        params.push(text_value(contact.identity_key_b64.as_str()));
        done(execute(&mut self.conn, UPSERT_CONTACT, &params))
    }

    /// All contacts, ordered by name.
    pub fn get_contacts(&self) -> (r: Result<Vec<StoredContact>, StorageError>)
        ensures
            self.is_own() && r is Ok ==> are_contacts(
                self.contents().contacts,
                stored_contacts((r->Ok_0)@),
            ),
            self.is_own() && r is Err ==> r->Err_0 is Sqlite,
    {
        let params: Vec<Value> = Vec::new();
        let rows = match query(&self.conn, SELECT_CONTACTS, &params) {
            Ok(rows) => rows,
            Err(e) => return Err(StorageError::Sqlite(e)),
        };
        match contacts_from(&rows) {
            Some(contacts) => Ok(contacts),
            None => Err(StorageError::Row),
        }
    }

    /// The contact with an ID, if there is one.
    pub fn get_contact_by_id(&self, user_id: &str) -> (r: Result<
        Option<StoredContact>,
        StorageError,
    >)
        ensures
            self.is_own() && r is Ok && is_clean(user_id@) ==> match r->Ok_0 {
                Some(c) => c.user_id@ == user_id@ && self.contents().contacts.contains_key(
                    user_id@,
                ) && self.contents().contacts[user_id@] == c.row(),
                None => !self.contents().contacts.contains_key(user_id@),
            },
            self.is_own() && r is Err && is_clean(user_id@) ==> r->Err_0 is Sqlite,
    {
        let rows = match query(&self.conn, SELECT_CONTACT, &one(text_value(user_id))) {
            Ok(rows) => rows,
            Err(e) => return Err(StorageError::Sqlite(e)),
        };
        contact_from(&rows)
    }

    // ── Acknowledgements ─────────────────────────────────────────────────────

    /// Stores an acknowledgement, unless there is one for the message already.
    pub fn store_ack(&mut self, message_id: &str, timestamp_ms: i64) -> (r: Result<
        (),
        StorageError,
    >)
        ensures
            old(self).is_own() ==> final(self).is_own(),
            old(self).is_own() && r is Ok && is_clean(message_id@) ==> final(self).contents()
                == (Contents {
                acks: with_ack(old(self).contents().acks, message_id@, timestamp_ms),
                ..old(self).contents()
            }),
            old(self).is_own() && r is Err ==> final(self).contents() == old(self).contents(),
            r is Err ==> r->Err_0 is Sqlite,
    {
        let mut params: Vec<Value> = Vec::new();
        params.push(text_value(message_id));
        params.push(Value::Int(timestamp_ms));
        done(execute(&mut self.conn, INSERT_ACK, &params))
    }

    /// Takes all acknowledgements out.
    pub fn pop_all_acks(&mut self) -> (r: Result<Vec<(String, i64)>, StorageError>)
        ensures
            old(self).is_own() ==> final(self).is_own(),
            old(self).is_own() && r is Ok ==> {
                &&& are_entries(old(self).contents().acks, stored_acks((r->Ok_0)@))
                &&& forall|id: Seq<char>|
                    old(self).contents().acks.contains_key(id) ==> #[trigger] has_entry(
                        stored_acks((r->Ok_0)@),
                        id,
                    )
                &&& final(self).contents() == (Contents {
                    acks: Map::empty(),
                    ..old(self).contents()
                })
            },
            old(self).is_own() && r is Err ==> final(self).contents() == old(self).contents()
                && r->Err_0 is Sqlite,
    {
        let params: Vec<Value> = Vec::new();
        let rows = match query(&self.conn, SELECT_ACKS, &params) {
            Ok(rows) => rows,
            Err(e) => return Err(StorageError::Sqlite(e)),
        };
        let acks = match acks_from(&rows) {
            Some(acks) => acks,
            None => return Err(StorageError::Row),
        };
        if acks.len() > 0 {
            match done(execute(&mut self.conn, DELETE_ACKS, &params)) {
                Ok(()) => Ok(acks),
                Err(e) => Err(e),
            }
        } else {
            proof {
                if self.is_own() {
                    assert forall|id: Seq<char>| !self.contents().acks.contains_key(id) by {
                        if self.contents().acks.contains_key(id) {
                            assert(has_entry(acks_in(rows@), id));
                        }
                    }
                    assert(self.contents().acks =~= Map::<Seq<char>, i64>::empty());
                }
            }
            Ok(acks)
        }
    }

    /// Deletes the acknowledgements that are older than a time.
    pub fn prune_acks(&mut self, cutoff_ms: i64) -> (r: Result<(), StorageError>)
        ensures
            old(self).is_own() ==> final(self).is_own(),
            old(self).is_own() && r is Ok ==> final(self).contents() == (Contents {
                acks: not_before(old(self).contents().acks, cutoff_ms),
                ..old(self).contents()
            }),
            old(self).is_own() && r is Err ==> final(self).contents() == old(self).contents(),
            r is Err ==> r->Err_0 is Sqlite,
    {
        done(execute(&mut self.conn, PRUNE_ACKS, &one(Value::Int(cutoff_ms))))
    }

    /// Whether there is an acknowledgement for a message.
    pub fn has_ack(&self, message_id: &str) -> (r: Result<bool, StorageError>)
        ensures
            self.is_own() && r is Ok && is_clean(message_id@) ==> r->Ok_0
                == self.contents().acks.contains_key(message_id@),
            self.is_own() && r is Err && is_clean(message_id@) ==> r->Err_0 is Sqlite,
    {
        let rows = match query(&self.conn, COUNT_ACK, &one(text_value(message_id))) {
            Ok(rows) => rows,
            Err(e) => return Err(StorageError::Sqlite(e)),
        };
        count_from(&rows)
    }

    // ── Deletion ─────────────────────────────────────────────────────────────

    /// Deletes a contact with all its messages and the session keys that hold its ID, and says how
    /// many messages there were. Where a step fails, those before it stay done.
    pub fn delete_contact(&mut self, user_id: &str) -> (r: Result<usize, StorageError>)
        ensures
            old(self).is_own() ==> final(self).is_own(),
            old(self).is_own() && r is Ok && is_clean(user_id@) ==> {
                &&& final(self).contents() == (Contents {
                    keys: final(self).contents().keys,
                    ..forgotten(old(self).contents(), user_id@)
                })
                &&& r->Ok_0 == ids_of(old(self).contents().messages, user_id@).len()
            },
            old(self).is_own() && r is Ok && is_literal(user_id@) && are_searchable(
                old(self).contents().keys,
            ) ==> final(self).contents() == forgotten(old(self).contents(), user_id@),
            old(self).is_own() && r is Err && is_clean(user_id@) ==> partly_forgotten(
                old(self).contents(),
                user_id@,
                final(self).contents(),
            ),
            r is Err ==> r->Err_0 is Sqlite,
    {
        let params = one(text_value(user_id));
        match done(execute(&mut self.conn, DELETE_CONTACT, &params)) {
            Ok(()) => {},
            Err(e) => return Err(e),
        }
        let count: usize = match execute(&mut self.conn, DELETE_MESSAGES, &params) {
            Ok(n) => n,
            Err(e) => return Err(StorageError::Sqlite(e)),
        };
        match done(execute(&mut self.conn, DELETE_KEYS, &params)) {
            Ok(()) => Ok(count),
            Err(e) => Err(e),
        }
    }

    // ── Secure store ─────────────────────────────────────────────────────────

    /// Stores a value under a key, in place of another one under the same key.
    pub fn secure_save(&mut self, key: &str, value: &[u8]) -> (r: Result<(), StorageError>)
        ensures
            old(self).is_own() ==> final(self).is_own(),
            old(self).is_own() && r is Ok && is_clean(key@) ==> final(self).contents()
                == (Contents {
                keys: old(self).contents().keys.insert(key@, value@),
                ..old(self).contents()
            }),
            old(self).is_own() && r is Err ==> final(self).contents() == old(self).contents(),
            r is Err ==> r->Err_0 is Sqlite,
    {
        let mut bytes: Vec<u8> = Vec::new();
        bytes.extend_from_slice(value);
        assert(bytes@ == value@);
        let mut params: Vec<Value> = Vec::new();
        params.push(text_value(key));
        params.push(Value::Blob(bytes));
        done(execute(&mut self.conn, SAVE_KEY, &params))
    }

    /// The value under a key, if there is one.
    pub fn secure_load(&self, key: &str) -> (r: Result<Option<Vec<u8>>, StorageError>)
        ensures
            self.is_own() && r is Ok && is_clean(key@) ==> match r->Ok_0 {
                Some(v) => self.contents().keys.contains_key(key@) && self.contents().keys[key@]
                    == v@,
                None => !self.contents().keys.contains_key(key@),
            },
            self.is_own() && r is Err && is_clean(key@) ==> r->Err_0 is Sqlite,
    {
        let rows = match query(&self.conn, LOAD_KEY, &one(text_value(key))) {
            Ok(rows) => rows,
            Err(e) => return Err(StorageError::Sqlite(e)),
        };
        blob_from(rows)
    }

    // ── Records ──────────────────────────────────────────────────────────────

    /// Adds a record to a table.
    pub fn persist_record(&mut self, table_name: &str, json: &str) -> (r: Result<(), StorageError>)
        ensures
            old(self).is_own() ==> final(self).is_own(),
            old(self).is_own() && r is Ok ==> final(self).contents() == (Contents {
                records: old(self).contents().records.push((table_name@, json@)),
                ..old(self).contents()
            }),
            old(self).is_own() && r is Err ==> final(self).contents() == old(self).contents(),
            r is Err ==> r->Err_0 is Sqlite,
    {
        let mut params: Vec<Value> = Vec::new();
        params.push(text_value(table_name));
        params.push(text_value(json));
        done(execute(&mut self.conn, INSERT_RECORD, &params))
    }

    /// The record that was added to a table last, if there is one.
    pub fn query_last_record(&self, table_name: &str) -> (r: Result<Option<String>, StorageError>)
        ensures
            self.is_own() && r is Ok && is_clean(table_name@) ==> match r->Ok_0 {
                Some(json) => last_record(self.contents().records, table_name@) == Some(json@),
                None => last_record(self.contents().records, table_name@) is None,
            },
            self.is_own() && r is Err && is_clean(table_name@) ==> r->Err_0 is Sqlite,
    {
        let rows = match query(&self.conn, LAST_RECORD, &one(text_value(table_name))) {
            Ok(rows) => rows,
            Err(e) => return Err(StorageError::Sqlite(e)),
        };
        text_from(&rows)
    }
}

// ── Laws ─────────────────────────────────────────────────────────────────────

/// A message that was stored is among those that are read from its conversation, as it was stored,
/// if not so many are wanted that are not older.
pub proof fn stored_message_is_read(
    messages: Map<Seq<char>, MessageRow>,
    id: Seq<char>,
    row: MessageRow,
    limit: i64,
    entries: Seq<(Seq<char>, MessageRow)>,
)
    requires
        are_latest(messages.insert(id, row), row.0, limit, entries),
    ensures
        entries.contains((id, row)) || entries.len() == limit && forall|i: int|
            0 <= i < entries.len() ==> (#[trigger] entries[i]).1.3 >= row.3,
{
    let after = messages.insert(id, row);
    assert(after.contains_key(id) && after[id] == row);
    if has_entry(entries, id) {
        let i = choose|i: int| 0 <= i < entries.len() && (#[trigger] entries[i]).0 == id;
        assert(entries[i] == (id, row));
    }
}

/// The IDs of different messages of a conversation are as many as the entries, and all belong to it.
proof fn entries_are_ids(
    messages: Map<Seq<char>, MessageRow>,
    peer_id: Seq<char>,
    limit: i64,
    entries: Seq<(Seq<char>, MessageRow)>,
) -> (ids: Set<Seq<char>>)
    requires
        are_latest(messages, peer_id, limit, entries),
    ensures
        ids.finite(),
        ids.len() == entries.len(),
        ids.subset_of(ids_of(messages, peer_id)),
        forall|id: Seq<char>| ids.contains(id) <==> #[trigger] has_entry(entries, id),
{
    let ids = entries.map_values(|e: (Seq<char>, MessageRow)| e.0);
    assert forall|i: int, j: int| 0 <= i < j < ids.len() implies ids[i] != ids[j] by {
        assert(entries[i].0 != entries[j].0);
    }
    assert(ids.no_duplicates());
    ids.unique_seq_to_set();
    assert forall|id: Seq<char>| ids.to_set().contains(id) implies ids_of(
        messages,
        peer_id,
    ).contains(id) by {
        let i = choose|i: int| 0 <= i < ids.len() && ids[i] == id;
        assert(entries[i].1.0 == peer_id);
    }
    assert forall|id: Seq<char>| ids.to_set().contains(id) == #[trigger] has_entry(entries, id) by {
        if has_entry(entries, id) {
            let i = choose|i: int| 0 <= i < entries.len() && (#[trigger] entries[i]).0 == id;
            assert(ids[i] == id);
        }
        if ids.to_set().contains(id) {
            let i = choose|i: int| 0 <= i < ids.len() && ids[i] == id;
            assert(entries[i].0 == id);
        }
    }
    ids.to_set()
}

/// As many messages are read of a conversation as it has, or as are wanted where it has more.
pub proof fn latest_are_counted(
    messages: Map<Seq<char>, MessageRow>,
    peer_id: Seq<char>,
    limit: i64,
    entries: Seq<(Seq<char>, MessageRow)>,
)
    requires
        messages.dom().finite(),
        are_latest(messages, peer_id, limit, entries),
    ensures
        entries.len() == number_read(ids_of(messages, peer_id).len(), limit),
{
    let ids = entries_are_ids(messages, peer_id, limit, entries);
    let all = ids_of(messages, peer_id);
    vstd::set_lib::lemma_len_subset(ids, all);
    if entries.len() != limit {
        assert forall|id: Seq<char>| all.contains(id) implies ids.contains(id) by {
            assert(has_entry(entries, id));
        }
        assert(ids =~= all);
    }
}

/// A whole conversation is read where the limit is not below the number of its messages.
pub proof fn conversation_is_read(
    messages: Map<Seq<char>, MessageRow>,
    peer_id: Seq<char>,
    limit: i64,
    entries: Seq<(Seq<char>, MessageRow)>,
)
    requires
        messages.dom().finite(),
        are_latest(messages, peer_id, limit, entries),
        limit < 0 || ids_of(messages, peer_id).len() <= limit,
    ensures
        forall|id: Seq<char>|
            ids_of(messages, peer_id).contains(id) <==> #[trigger] has_entry(entries, id),
{
    let ids = entries_are_ids(messages, peer_id, limit, entries);
    latest_are_counted(messages, peer_id, limit, entries);
    vstd::set_lib::lemma_subset_equality(ids, ids_of(messages, peer_id));
}

/// Of two acknowledgements for a message the first one counts: it is there after those before a time
/// were deleted exactly where its time is not before that. Others are there exactly where theirs is
/// not. What the steps do to the contents is stated of a private database and of IDs without NUL
/// characters: in another database anything may be stored or deleted between two of the calls.
pub proof fn first_acknowledgement_counts(
    acks: Map<Seq<char>, i64>,
    id: Seq<char>,
    first: i64,
    second: i64,
    cutoff: i64,
)
    requires
        !acks.contains_key(id),
    ensures
        ({
            let after = not_before(with_ack(with_ack(acks, id, first), id, second), cutoff);
            &&& after.contains_key(id) <==> first >= cutoff
            &&& after.contains_key(id) ==> after[id] == first
            &&& forall|other: Seq<char>|
                other != id ==> (#[trigger] after.contains_key(other) <==> acks.contains_key(other)
                    && acks[other] >= cutoff)
        }),
{
}

/// No acknowledgement is left once all were taken out.
pub proof fn drained_acks_are_gone(entries: Seq<(Seq<char>, i64)>)
    requires
        are_entries(Map::<Seq<char>, i64>::empty(), entries),
    ensures
        entries.len() == 0,
{
    if entries.len() > 0 {
        assert(Map::<Seq<char>, i64>::empty().contains_key(entries[0].0));
    }
}

/// What was saved under a key is there, and what was saved under other keys stays.
pub proof fn saved_key_is_there(keys: Map<Seq<char>, Seq<u8>>, key: Seq<char>, value: Seq<u8>)
    ensures
        keys.insert(key, value).contains_key(key),
        keys.insert(key, value)[key] == value,
        forall|other: Seq<char>|
            other != key ==> keys.insert(key, value).contains_key(other) == keys.contains_key(other)
                && keys.insert(key, value)[other] == keys[other],
{
}

/// The last record of a table is the one that was added last to it, whatever was added to others.
pub proof fn added_record_is_last(
    records: Seq<(Seq<char>, Seq<char>)>,
    table: Seq<char>,
    json: Seq<char>,
)
    ensures
        last_record(records.push((table, json)), table) == Some(json),
        forall|other: Seq<char>|
            other != table ==> #[trigger] last_record(records.push((table, json)), other)
                == last_record(records, other),
{
    assert(records.push((table, json)).drop_last() == records);
}

/// Of a deleted contact nothing is left, and nothing of others is gone.
pub proof fn deletion_is_complete(c: Contents, user_id: Seq<char>)
    ensures
        ({
            let after = forgotten(c, user_id);
            &&& !after.contacts.contains_key(user_id)
            &&& ids_of(after.messages, user_id) == Set::<Seq<char>>::empty()
            &&& forall|k: Seq<char>| #[trigger]
                after.keys.contains_key(k) <==> c.keys.contains_key(k) && !occurs_in(
                    folded(user_id),
                    folded(k),
                )
            &&& forall|k: Seq<char>| #[trigger]
                after.keys.contains_key(k) ==> after.keys[k] == c.keys[k]
            &&& forall|other: Seq<char>|
                other != user_id ==> #[trigger] after.contacts.contains_key(other)
                    == c.contacts.contains_key(other) && after.contacts[other] == c.contacts[other]
            &&& forall|id: Seq<char>|
                c.messages.contains_key(id) && c.messages[id].0 != user_id
                    ==> #[trigger] after.messages.contains_key(id) && after.messages[id]
                    == c.messages[id]
            &&& after.acks == c.acks
            &&& after.records == c.records
        }),
{
    let after = forgotten(c, user_id);
    assert(ids_of(after.messages, user_id) =~= Set::<Seq<char>>::empty());
}

} // verus!
