//! Passphrase screen, used in two modes:
//!   `Unlock` asks for the passphrase that decrypts an existing session on startup,
//!   `SetNew` lets the user choose a passphrase to protect a newly created session.

use vstd::prelude::*;
use vstd::utf8::*;

use crate::draw::{
    bold, boxed, boxed_op, byte_width, bytes_wide, centred, centred_row, colored, drawn, field,
    field_row, frame, framed, gap, gap_before, moved, plus, put, row, row_op, Area, Color, Draw,
    DrawView,
};
use crate::secret::{wipe_text, SecretBytes};
use crate::text::{typed_within, without_last};

verus! {

/// What the passphrase is asked for.
#[derive(Debug, Clone, Copy, PartialEq, Eq, Structural)]
pub enum UnlockMode {
    /// Decrypt an existing session on startup.
    Unlock,
    /// Protect a newly registered or linked session with a passphrase.
    SetNew,
}

/// The longest passphrase, in bytes, after which no character is taken.
pub const PASSPHRASE_LIMIT: usize = 128;

/// The passphrase screen.
pub struct UnlockScreen {
    /// What has been typed so far.
    pub passphrase: String,
    pub error: Option<String>,
    pub mode: UnlockMode,
}

/// The rows that the screen takes: title, subtitle, field and hint, with the gaps between them.
pub const UNLOCK_HEIGHT: u16 = 10;

/// The title, the hint, the title of the field and the subtitle in a mode.
pub open spec fn unlock_texts(mode: UnlockMode) -> (Seq<char>, Seq<char>, Seq<char>, Seq<char>) {
    match mode {
        UnlockMode::Unlock => (
            " Unlock session "@,
            "Enter=unlock   Ctrl+C=quit"@,
            " Passphrase "@,
            "Enter your passphrase to decrypt your session keys."@,
        ),
        UnlockMode::SetNew => (
            " Protect your session "@,
            "Enter=confirm   Ctrl+C=quit"@,
            " Choose a passphrase "@,
            "Your keys will be encrypted at rest with this passphrase."@,
        ),
    }
}

/// `n` bullets.
pub open spec fn bullets(n: nat) -> Seq<char> {
    Seq::new(n, |i: int| '•')
}

/// What the passphrase screen shows: the title, the subtitle, the field with a bullet for each
/// byte of the passphrase and one for the cursor, the error where there is one, and the hint.
/// The passphrase itself is not shown.
pub open spec fn unlock_drawing(s: UnlockScreen, area: Area) -> Seq<DrawView> {
    let (title, hint, field_title, subtitle) = unlock_texts(s.mode);
    let y = plus(area.y, gap(area.height, UNLOCK_HEIGHT) as int);
    let y_sub = plus(y, 2);
    let y_field = plus(y_sub, 2);
    let y_end = plus(y_field, 4);
    let head = seq![
        row_op(centred_row(area, y, byte_width(title)), title, bold(Color::Cyan)),
        row_op(centred_row(area, y_sub, byte_width(subtitle)), subtitle, colored(Color::DarkGray)),
        boxed_op(
            field_row(area, y_field),
            framed(field_title, true, colored(Color::Cyan)),
            bullets(encode_utf8(s.passphrase@).len() + 1),
            colored(Color::White),
        ),
    ];
    match s.error {
        Some(e) => head + seq![
            row_op(centred_row(area, y_end, byte_width(e@)), e@, bold(Color::Red)),
            row_op(
                centred_row(area, plus(y_end, 2), byte_width(hint)),
                hint,
                colored(Color::DarkGray),
            ),
        ],
        None => head + seq![
            row_op(centred_row(area, y_end, byte_width(hint)), hint, colored(Color::DarkGray)),
        ],
    }
}

/// `n` bullets.
fn mask(n: usize) -> (r: String)
    ensures
        r@ == bullets(n as nat),
{
    let mut r = String::new();
    let mut i: usize = 0;
    while i < n
        invariant
            i <= n,
            r@ == bullets(i as nat),
        decreases n - i,
    {
        r.push('•');
        i = i + 1;
    }
    r
}

impl UnlockScreen {
    /// An empty screen.
    pub fn new(mode: UnlockMode) -> (r: Self)
        ensures
            r.passphrase@ == ""@,
            r.error is None,
            r.mode == mode,
    {
        UnlockScreen { passphrase: "".to_string(), error: None, mode }
    }

    /// Wipes what was typed and switches to a mode.
    pub fn reset_for_mode(&mut self, mode: UnlockMode)
        ensures
            final(self).passphrase@ == ""@,
            final(self).error is None,
            final(self).mode == mode,
    {
        wipe_text(&mut self.passphrase);
        self.error = None;
        self.mode = mode;
    }

    /// Adds a character, unless the passphrase has reached its limit.
    pub fn push_char(&mut self, c: char)
        ensures
            *final(self) == (UnlockScreen { passphrase: final(self).passphrase, ..*old(self) }),
            final(self).passphrase@ == typed_within(old(self).passphrase@, c, PASSPHRASE_LIMIT),
    {
        if self.passphrase.as_str().as_bytes().len() < PASSPHRASE_LIMIT {
            self.passphrase.push(c);
        }
    }

    /// Takes the last character away.
    pub fn pop_char(&mut self)
        ensures
            *final(self) == (UnlockScreen { passphrase: final(self).passphrase, ..*old(self) }),
            final(self).passphrase@ == without_last(old(self).passphrase@),
    {
        let _ = self.passphrase.pop();
    }

    /// Whether nothing has been typed.
    pub fn is_empty(&self) -> (r: bool)
        ensures
            r == (self.passphrase@.len() == 0),
    {
        self.passphrase.as_str().is_empty()
    }

    /// Hands the passphrase out as bytes and wipes what was typed.
    pub fn take_passphrase(&mut self) -> (r: SecretBytes)
        ensures
            r@ == encode_utf8(old(self).passphrase@),
            *final(self) == (UnlockScreen { passphrase: final(self).passphrase, ..*old(self) }),
            final(self).passphrase@ == ""@,
    {
        let bytes = SecretBytes::new(self.passphrase.as_str().as_bytes());
        wipe_text(&mut self.passphrase);
        bytes
    }

    /// Shows an error.
    pub fn set_error(&mut self, msg: String)
        ensures
            *final(self) == (UnlockScreen { error: Some(msg), ..*old(self) }),
    {
        self.error = Some(msg);
    }

    /// Shows no error.
    pub fn clear_error(&mut self)
        ensures
            *final(self) == (UnlockScreen { error: None, ..*old(self) }),
    {
        self.error = None;
    }

    /// Draws the screen.
    pub fn render(&self, area: Area) -> (r: Vec<Draw>)
        ensures
            drawn(r@) == unlock_drawing(*self, area),
    {
        let (title, hint, field_title, subtitle) = match self.mode {
            UnlockMode::Unlock => (
                " Unlock session ",
                "Enter=unlock   Ctrl+C=quit",
                " Passphrase ",
                "Enter your passphrase to decrypt your session keys.",
            ),
            UnlockMode::SetNew => (
                " Protect your session ",
                "Enter=confirm   Ctrl+C=quit",
                " Choose a passphrase ",
                "Your keys will be encrypted at rest with this passphrase.",
            ),
        };
        let mut ops: Vec<Draw> = Vec::new();
        let mut y: u16 = moved(area.y, gap_before(area.height, UNLOCK_HEIGHT));
        put(&mut ops, row(centred(area, y, bytes_wide(title)), title, bold(Color::Cyan)));
        y = moved(y, 2);
        put(
            &mut ops,
            row(centred(area, y, bytes_wide(subtitle)), subtitle, colored(Color::DarkGray)),
        );
        y = moved(y, 2);
        let masked = mask(self.passphrase.as_str().as_bytes().len());
        let mut masked = masked;
        masked.push('•');
        assert(masked@ == bullets(encode_utf8(self.passphrase@).len() + 1));
        put(
            &mut ops,
            boxed(
                field(area, y),
                frame(field_title, true, colored(Color::Cyan)),
                masked,
                colored(Color::White),
            ),
        );
        y = moved(y, 4);
        if let Some(err) = &self.error {
            let e: &str = err.as_str();
            put(&mut ops, row(centred(area, y, bytes_wide(e)), e, bold(Color::Red)));
            y = moved(y, 2);
        }
        put(&mut ops, row(centred(area, y, bytes_wide(hint)), hint, colored(Color::DarkGray)));
        assert(drawn(ops@) == unlock_drawing(*self, area));
        ops
    }
}

/// The drawing shows no more of a passphrase than how many bytes it has.
pub proof fn passphrase_is_hidden(a: UnlockScreen, b: UnlockScreen, area: Area)
    requires
        encode_utf8(a.passphrase@).len() == encode_utf8(b.passphrase@).len(),
        a.error == b.error,
        a.mode == b.mode,
    ensures
        unlock_drawing(a, area) == unlock_drawing(b, area),
{
}

} // verus!
