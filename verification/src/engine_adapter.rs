//! What the user interface and the network engine tell each other.

use vstd::prelude::*;

use crate::text::{
    begins_with, chars_stand_at, decimal_text, digit, from_chars, is_decimal, to_chars,
};

verus! {

// ── Events ───────────────────────────────────────────────────────────────────

/// Events from the engine to the TUI event loop.
#[derive(Debug)]
pub enum EngineEvent {
    /// Authentication token set/updated.
    AuthTokenSet { user_id: String, access_token: String, refresh_token: String, expires_at: i64 },
    /// Registration completed successfully.
    RegistrationComplete { user_id: String, device_id: String },
    /// Clear all auth state (logout or unrecoverable error).
    ClearAuth,
    /// Connection state changed.
    ConnectionStateChanged { connected: bool },
    /// Network error occurred (reconnect in progress).
    NetworkError { message: String },
    /// Stream is ready for messaging.
    StreamReady { stream_cursor: Option<String> },
    /// Stream error occurred.
    StreamError { message: String },
    /// Pre-key bundle received from server.
    PreKeyBundleReady { user_id: String, bundle_bytes: Vec<u8> },
    /// OTPKs uploaded successfully.
    OtpksUploaded { uploaded: u32, server_count: u32 },
    /// Pre-key count updated (auto-replenish check).
    PreKeyCountUpdated { count: u32, recommended_minimum: u32 },
    /// Signed pre-key rotated.
    SpkRotated { key_id: u32 },
    /// Load a value from the platform keychain.
    LoadKeychain { key: String },
    /// Save a value to the platform keychain.
    SaveKeychain { key: String, data: Vec<u8> },
    /// Session initialization error.
    SessionError { contact_id: String, message: String },
    /// Update message delivery status.
    UpdateMessageStatus { local_id: String, status: u8 },
    /// Display a decrypted message.
    DisplayMessage {
        message_id: String,
        plaintext: Vec<u8>,
        sender_id: String,
        conversation_id: String,
        timestamp: i64,
    },
}

/// What the engine asks of the platform.
#[derive(Debug)]
pub enum PlatformAction {
    SetAuthToken { user_id: String, access_token: String, refresh_token: String, expires_at: i64 },
    RegistrationComplete { user_id: String, device_id: String },
    ClearAuth,
    ConnectionStateChanged { connected: bool },
    NetworkError { message: String },
    StreamReady { stream_cursor: Option<String> },
    StreamError { message: String },
    PreKeyBundleReady { user_id: String, bundle_bytes: Vec<u8> },
    OtpksUploaded { uploaded: u32, server_count: u32 },
    PreKeyCountUpdated { count: u32, recommended_minimum: u32 },
    SpkRotated { key_id: u32 },
    LoadKeychain { key: String },
    SaveKeychain { key: String, data: Vec<u8> },
    SessionError { contact_id: String, message: String },
    UpdateMessageStatus { local_id: String, status: u8 },
    DisplayMessage {
        message_id: String,
        plaintext: Vec<u8>,
        sender_id: String,
        conversation_id: String,
        timestamp: i64,
    },
    /// An action that a terminal has no use for.
    Unneeded,
}

/// The event of an action: every action that is needed has one.
pub open spec fn event_of(action: PlatformAction) -> Option<EngineEvent> {
    match action {
        PlatformAction::SetAuthToken { user_id, access_token, refresh_token, expires_at } => Some(
            EngineEvent::AuthTokenSet { user_id, access_token, refresh_token, expires_at },
        ),
        PlatformAction::RegistrationComplete { user_id, device_id } => Some(
            EngineEvent::RegistrationComplete { user_id, device_id },
        ),
        PlatformAction::ClearAuth => Some(EngineEvent::ClearAuth),
        PlatformAction::ConnectionStateChanged { connected } => Some(
            EngineEvent::ConnectionStateChanged { connected },
        ),
        PlatformAction::NetworkError { message } => Some(EngineEvent::NetworkError { message }),
        PlatformAction::StreamReady { stream_cursor } => Some(
            EngineEvent::StreamReady { stream_cursor },
        ),
        PlatformAction::StreamError { message } => Some(EngineEvent::StreamError { message }),
        PlatformAction::PreKeyBundleReady { user_id, bundle_bytes } => Some(
            EngineEvent::PreKeyBundleReady { user_id, bundle_bytes },
        ),
        PlatformAction::OtpksUploaded { uploaded, server_count } => Some(
            EngineEvent::OtpksUploaded { uploaded, server_count },
        ),
        PlatformAction::PreKeyCountUpdated { count, recommended_minimum } => Some(
            EngineEvent::PreKeyCountUpdated { count, recommended_minimum },
        ),
        PlatformAction::SpkRotated { key_id } => Some(EngineEvent::SpkRotated { key_id }),
        PlatformAction::LoadKeychain { key } => Some(EngineEvent::LoadKeychain { key }),
        PlatformAction::SaveKeychain { key, data } => Some(EngineEvent::SaveKeychain { key, data }),
        PlatformAction::SessionError { contact_id, message } => Some(
            EngineEvent::SessionError { contact_id, message },
        ),
        PlatformAction::UpdateMessageStatus { local_id, status } => Some(
            EngineEvent::UpdateMessageStatus { local_id, status },
        ),
        PlatformAction::DisplayMessage {
            message_id,
            plaintext,
            sender_id,
            conversation_id,
            timestamp,
        } => Some(
            EngineEvent::DisplayMessage {
                message_id,
                plaintext,
                sender_id,
                conversation_id,
                timestamp,
            },
        ),
        PlatformAction::Unneeded => None,
    }
}

/// The engine's callback: it keeps the latest event for the TUI event loop.
pub struct TuiEngineCallback {
    pub latest: Option<EngineEvent>,
}

impl TuiEngineCallback {
    pub fn new() -> (r: Self)
        ensures
            r.latest is None,
    {
        TuiEngineCallback { latest: None }
    }

    /// Takes an action of the engine over: its event becomes the latest, if it has one. The answer
    /// says whether it had.
    pub fn on_action(&mut self, action: PlatformAction) -> (r: bool)
        ensures
            r == (event_of(action) is Some),
            final(self).latest == if r {
                event_of(action)
            } else {
                old(self).latest
            },
    {
        let event = match action {
            PlatformAction::SetAuthToken { user_id, access_token, refresh_token, expires_at } => Some(
                EngineEvent::AuthTokenSet { user_id, access_token, refresh_token, expires_at },
            ),
            PlatformAction::RegistrationComplete { user_id, device_id } => Some(
                EngineEvent::RegistrationComplete { user_id, device_id },
            ),
            PlatformAction::ClearAuth => Some(EngineEvent::ClearAuth),
            PlatformAction::ConnectionStateChanged { connected } => Some(
                EngineEvent::ConnectionStateChanged { connected },
            ),
            PlatformAction::NetworkError { message } => Some(EngineEvent::NetworkError { message }),
            PlatformAction::StreamReady { stream_cursor } => Some(
                EngineEvent::StreamReady { stream_cursor },
            ),
            PlatformAction::StreamError { message } => Some(EngineEvent::StreamError { message }),
            PlatformAction::PreKeyBundleReady { user_id, bundle_bytes } => Some(
                EngineEvent::PreKeyBundleReady { user_id, bundle_bytes },
            ),
            PlatformAction::OtpksUploaded { uploaded, server_count } => Some(
                EngineEvent::OtpksUploaded { uploaded, server_count },
            ),
            PlatformAction::PreKeyCountUpdated { count, recommended_minimum } => Some(
                EngineEvent::PreKeyCountUpdated { count, recommended_minimum },
            ),
            PlatformAction::SpkRotated { key_id } => Some(EngineEvent::SpkRotated { key_id }),
            PlatformAction::LoadKeychain { key } => Some(EngineEvent::LoadKeychain { key }),
            PlatformAction::SaveKeychain { key, data } => Some(
                EngineEvent::SaveKeychain { key, data },
            ),
            PlatformAction::SessionError { contact_id, message } => Some(
                EngineEvent::SessionError { contact_id, message },
            ),
            PlatformAction::UpdateMessageStatus { local_id, status } => Some(
                EngineEvent::UpdateMessageStatus { local_id, status },
            ),
            PlatformAction::DisplayMessage {
                message_id,
                plaintext,
                sender_id,
                conversation_id,
                timestamp,
            } => Some(
                EngineEvent::DisplayMessage {
                    message_id,
                    plaintext,
                    sender_id,
                    conversation_id,
                    timestamp,
                },
            ),
            PlatformAction::Unneeded => None,
        };
        match event {
            Some(e) => {
                self.latest = Some(e);
                true
            },
            None => false,
        }
    }
}

// ── Server address ───────────────────────────────────────────────────────────

/// The port of a server whose address names none.
pub const DEFAULT_PORT: u16 = 443;

/// A text without a beginning, however often it stands there.
pub open spec fn without_beginning(s: Seq<char>, beginning: Seq<char>) -> Seq<char>
    decreases s.len(),
{
    if beginning.len() > 0 && begins_with(s, beginning) {
        without_beginning(s.skip(beginning.len() as int), beginning)
    } else {
        s
    }
}

/// The number that decimal digits stand for, if there are only such.
pub open spec fn digits_value(s: Seq<char>) -> Option<nat>
    decreases s.len(),
{
    if s.len() == 0 {
        Some(0)
    } else {
        match digits_value(s.drop_last()) {
            Some(n) => if is_decimal(s.last()) {
                Some((10 * n + (s.last() as int - '0' as int)) as nat)
            } else {
                None
            },
            None => None,
        }
    }
}

/// The port number that a text stands for: decimal digits, possibly behind a plus sign.
pub open spec fn port_of(s: Seq<char>) -> Option<u16> {
    let digits = if s.len() > 0 && s[0] == '+' {
        s.skip(1)
    } else {
        s
    };
    if digits.len() == 0 {
        None
    } else {
        match digits_value(digits) {
            Some(n) => if n <= 65535 {
                Some(n as u16)
            } else {
                None
            },
            None => None,
        }
    }
}

/// Where a character stands for the first time in a text; its length if it does not.
pub open spec fn first_place(s: Seq<char>, c: char) -> int
    decreases s.len(),
{
    if s.len() == 0 || s[0] == c {
        0
    } else {
        1 + first_place(s.skip(1), c)
    }
}

/// The host and port that a server URL names: without the protocol, up to the first colon, and the
/// number behind it. The port is 443 where there is none or what stands there is none.
pub open spec fn host_and_port(url: Seq<char>) -> (Seq<char>, u16) {
    let rest = without_beginning(without_beginning(url, "https://"@), "http://"@);
    let colon = first_place(rest, ':');
    (
        rest.take(colon),
        if colon < rest.len() {
            match port_of(rest.skip(colon + 1)) {
                Some(p) => p,
                None => DEFAULT_PORT,
            }
        } else {
            DEFAULT_PORT
        },
    )
}

/// More digits make no smaller number.
proof fn digits_value_grows(s: Seq<char>, i: int)
    requires
        0 <= i <= s.len(),
        digits_value(s) is Some,
    ensures
        digits_value(s.take(i)) is Some,
        digits_value(s.take(i))->0 <= digits_value(s)->0,
    decreases s.len(),
{
    if i < s.len() {
        digits_value_grows(s.drop_last(), i);
        assert(s.drop_last().take(i) =~= s.take(i));
    } else {
        assert(s.take(i) =~= s);
    }
}

/// Where a character stands first: it is there, and not before.
proof fn first_place_is_first(s: Seq<char>, c: char)
    ensures
        0 <= first_place(s, c) <= s.len(),
        first_place(s, c) < s.len() ==> s[first_place(s, c)] == c,
        forall|j: int| 0 <= j < first_place(s, c) ==> s[j] != c,
    decreases s.len(),
{
    if s.len() > 0 && s[0] != c {
        first_place_is_first(s.skip(1), c);
        assert forall|j: int| 0 <= j < first_place(s, c) implies s[j] != c by {
            if j > 0 {
                assert(s.skip(1)[j - 1] == s[j]);
            }
        }
    }
}

/// How many characters at the beginning of a text repeat a beginning, from some place on.
fn skip_beginning(s: &Vec<char>, from: usize, beginning: &str) -> (r: usize)
    requires
        from <= s@.len(),
        beginning@.len() > 0,
    ensures
        from <= r <= s@.len(),
        s@.skip(r as int) == without_beginning(s@.skip(from as int), beginning@),
{
    let part = to_chars(beginning);
    let mut at: usize = from;
    while at <= s.len() && chars_stand_at(s, &part, at)
        invariant
            part@ == beginning@,
            part@.len() > 0,
            from <= at <= s@.len(),
            without_beginning(s@.skip(at as int), beginning@) == without_beginning(
                s@.skip(from as int),
                beginning@,
            ),
        decreases s@.len() - at,
    {
        proof {
            let rest = s@.skip(at as int);
            assert(rest.subrange(0, part@.len() as int) =~= s@.subrange(
                at as int,
                at + part@.len(),
            ));
            assert(rest.skip(part@.len() as int) =~= s@.skip(at + part@.len()));
        }
        at = at + part.len();
    }
    proof {
        let rest = s@.skip(at as int);
        if begins_with(rest, beginning@) {
            assert(rest.subrange(0, part@.len() as int) =~= s@.subrange(
                at as int,
                at + part@.len(),
            ));
        }
    }
    at
}

/// The port number at the end of a text, from some place on.
fn parse_port(s: &Vec<char>, from: usize) -> (r: Option<u16>)
    requires
        from <= s@.len(),
    ensures
        r == port_of(s@.skip(from as int)),
{
    let start: usize = if from < s.len() && s[from] == '+' {
        from + 1
    } else {
        from
    };
    let ghost digits = s@.skip(start as int);
    assert(digits =~= if s@.skip(from as int).len() > 0 && s@.skip(from as int)[0] == '+' {
        s@.skip(from as int).skip(1)
    } else {
        s@.skip(from as int)
    });
    if start == s.len() {
        return None;
    }
    let mut i: usize = start;
    let mut n: u32 = 0;
    assert(digits.take(0) =~= Seq::<char>::empty());
    while i < s.len()
        invariant
            start <= i <= s@.len(),
            digits == s@.skip(start as int),
            digits_value(digits.take(i - start)) == Some(n as nat),
            n <= 65535,
            digits.len() > 0,
            port_of(s@.skip(from as int)) == match digits_value(digits) {
                Some(n) => if n <= 65535 {
                    Some(n as u16)
                } else {
                    None
                },
                None => None,
            },
        decreases s@.len() - i,
    {
        let c = s[i];
        proof {
            let upto = digits.take(i + 1 - start);
            assert(upto.drop_last() =~= digits.take(i - start));
            assert(upto.last() == c);
            if digits_value(digits) is Some {
                digits_value_grows(digits, i + 1 - start);
            }
        }
        if !('0' <= c && c <= '9') {
            return None;
        }
        n = 10 * n + (c as u32 - '0' as u32);
        if n > 65535 {
            return None;
        }
        i = i + 1;
    }
    assert(digits.take(i - start) =~= digits);
    Some(n as u16)
}

/// The host and port of a server URL.
pub fn parse_server_url(url: &str) -> (r: (String, u16))
    ensures
        (r.0@, r.1) == host_and_port(url@),
{
    let s = to_chars(url);
    proof {
        reveal_strlit("https://");
        reveal_strlit("http://");
    }
    let secure: usize = skip_beginning(&s, 0, "https://");
    let from: usize = skip_beginning(&s, secure, "http://");
    assert(s@.skip(0) =~= s@);
    let ghost rest = s@.skip(from as int);
    let mut colon: usize = from;
    while colon < s.len() && s[colon] != ':'
        invariant
            from <= colon <= s@.len(),
            rest == s@.skip(from as int),
            forall|j: int| 0 <= j < colon - from ==> rest[j] != ':',
        decreases s@.len() - colon,
    {
        colon = colon + 1;
    }
    proof {
        first_place_is_first(rest, ':');
        if colon < s@.len() {
            assert(rest[colon - from] == ':');
        }
        assert(first_place(rest, ':') == colon - from);
        assert(rest.take(colon - from) =~= s@.subrange(from as int, colon as int));
    }
    let host = from_chars(&s, from, colon);
    let port: u16 = if colon < s.len() {
        assert(rest.skip(colon - from + 1) =~= s@.skip(colon + 1));
        match parse_port(&s, colon + 1) {
            Some(p) => p,
            None => DEFAULT_PORT,
        }
    } else {
        DEFAULT_PORT
    };
    (host, port)
}

/// A server address without a protocol and a colon is its own host, on the default port.
pub proof fn bare_host_is_kept(host: Seq<char>)
    requires
        !begins_with(host, "https://"@),
        !begins_with(host, "http://"@),
        !host.contains(':'),
    ensures
        host_and_port(host) == (host, DEFAULT_PORT),
{
    first_place_is_first(host, ':');
    if first_place(host, ':') < host.len() {
        assert(host.contains(':'));
    }
    assert(host.take(host.len() as int) =~= host);
}

// ── Configuration ────────────────────────────────────────────────────────────

/// How many events the engine buffers.
pub const EVENT_BUFFER: usize = 1000;

/// What the engine is started with.
#[derive(Debug)]
pub struct EngineConfig {
    pub server_host: String,
    pub server_port: u16,
    /// Empty before registration.
    pub my_user_id: String,
    /// Empty before registration.
    pub my_device_id: String,
    pub auth_token: Option<String>,
    pub keys_cfe_data: Vec<u8>,
    pub verify_certs: bool,
    pub use_masque: bool,
    pub masque_host: Option<String>,
    pub masque_port: Option<u16>,
    pub event_buffer: usize,
}

/// A text that may be absent, which is then empty.
pub open spec fn text_or_empty(s: Option<&str>) -> Seq<char> {
    match s {
        Some(t) => t@,
        None => Seq::empty(),
    }
}

/// A text that may be absent, which is then empty.
fn or_empty(s: Option<&str>) -> (r: String)
    ensures
        r@ == text_or_empty(s),
{
    match s {
        Some(t) => t.to_string(),
        None => String::new(),
    }
}

/// The decimal notation of a number stands for that number.
pub proof fn decimal_reads_back(n: nat)
    ensures
        digits_value(decimal_text(n)) == Some(n),
        decimal_text(n).len() > 0,
        forall|i: int| 0 <= i < decimal_text(n).len() ==> is_decimal(#[trigger] decimal_text(n)[i]),
    decreases n,
{
    reveal_with_fuel(digits_value, 2);
    let t = decimal_text(n);
    if n < 10 {
        assert(t.drop_last() =~= Seq::<char>::empty());
        assert(t.last() == digit(n as int));
    } else {
        decimal_reads_back(n / 10);
        assert(t.drop_last() =~= decimal_text(n / 10));
        assert(t.last() == digit((n % 10) as int));
    }
}

/// The address of a server is read as it is written: from the protocol, a host and a port come that
/// host and that port.
pub proof fn server_address_is_read_back(host: Seq<char>, port: u16)
    requires
        forall|i: int| 0 <= i < host.len() ==> host[i] != ':',
    ensures
        host_and_port("https://"@ + host + ":"@ + decimal_text(port as nat)) == (host, port),
{
    reveal_strlit("https://");
    reveal_strlit("http://");
    reveal_strlit(":");
    let digits = decimal_text(port as nat);
    let rest = host + ":"@ + digits;
    let url = "https://"@ + host + ":"@ + digits;
    decimal_reads_back(port as nat);
    assert(rest[host.len() as int] == ':');
    assert forall|i: int| 0 <= i < rest.len() && i != host.len() implies rest[i] != ':' by {
        if i < host.len() {
            assert(rest[i] == host[i]);
        } else {
            assert(rest[i] == digits[i - host.len() - 1]);
            assert(is_decimal(digits[i - host.len() - 1]));
        }
    }
    assert(url.skip(8) =~= rest);
    assert(begins_with(url, "https://"@)) by {
        assert(url.subrange(0, 8) =~= "https://"@);
    }
    if begins_with(rest, "https://"@) {
        let head = rest.subrange(0, 8);
        assert(head[5] == ':' && head[6] == '/');
        assert(rest[5] == ':' && rest[6] == '/');
        assert(rest[6] == digits[0]);
        assert(is_decimal(digits[0]));
    }
    if begins_with(rest, "http://"@) {
        let head = rest.subrange(0, 7);
        assert(head[4] == ':' && head[5] == '/');
        assert(rest[4] == ':' && rest[5] == '/');
        assert(rest[5] == digits[0]);
        assert(is_decimal(digits[0]));
    }
    assert(without_beginning(rest, "https://"@) == rest);
    assert(without_beginning(url, "https://"@) == rest);
    assert(without_beginning(rest, "http://"@) == rest);
    first_place_is_first(rest, ':');
    let colon = first_place(rest, ':');
    if colon < host.len() {
        assert(rest[colon] != ':');
    }
    if colon > host.len() {
        assert(rest[host.len() as int] != ':');
    }
    assert(rest.take(colon) =~= host);
    assert(rest.skip(colon + 1) =~= digits);
    assert(is_decimal(digits[0]));
}

/// Whether a configuration is that for a server, an identity and its keys.
pub open spec fn configures(
    r: EngineConfig,
    server_url: Seq<char>,
    user_id: Option<&str>,
    device_id: Option<&str>,
    access_token: Option<&str>,
    keys_cfe_data: Seq<u8>,
) -> bool {
    &&& (r.server_host@, r.server_port) == host_and_port(server_url)
    &&& r.my_user_id@ == text_or_empty(user_id)
    &&& r.my_device_id@ == text_or_empty(device_id)
    &&& match access_token {
        Some(t) => r.auth_token is Some && (r.auth_token->0)@ == t@,
        None => r.auth_token is None,
    }
    &&& r.keys_cfe_data@ == keys_cfe_data
    &&& r.verify_certs
    &&& !r.use_masque
    &&& r.masque_host is None
    &&& r.masque_port is None
    &&& r.event_buffer == EVENT_BUFFER
}

/// The engine's configuration for a server, an identity and its keys. Certificates are verified, and
/// the connection is direct.
pub fn build_engine_config(
    server_url: &str,
    user_id: Option<&str>,
    device_id: Option<&str>,
    access_token: Option<&str>,
    keys_cfe_data: &[u8],
) -> (r: EngineConfig)
    ensures
        configures(r, server_url@, user_id, device_id, access_token, keys_cfe_data@),
{
    let (server_host, server_port) = parse_server_url(server_url);
    let mut keys: Vec<u8> = Vec::new();
    keys.extend_from_slice(keys_cfe_data);
    assert(keys@ =~= keys_cfe_data@);
    EngineConfig {
        server_host,
        server_port,
        my_user_id: or_empty(user_id),
        my_device_id: or_empty(device_id),
        auth_token: match access_token {
            Some(t) => Some(t.to_string()),
            None => None,
        },
        keys_cfe_data: keys,
        verify_certs: true,
        use_masque: false,
        masque_host: None,
        masque_port: None,
        event_buffer: EVENT_BUFFER,
    }
}

} // verus!
