//! Safety numbers: a fingerprint of two identity keys that people can compare.
//!
//! A safety number has 12 groups of 5 decimal digits, shown in four rows of three.

use vstd::prelude::*;
use vstd::utf8::*;

use crate::crypto::{sha512, sha512_digest};
use crate::draw::{
    add_line, bold, colored, drawn, frame, framed, line, plain, put, shown, span, span_of, styled,
    text, text_op, Area, Color, Draw, DrawView, Line, SpanView,
};
use crate::layout::{inner_area, inside_border};
use crate::text::{
    bytes_before, bytes_before_is_total, cat2, cat3, is_bytes_before, is_decimal,
    leading_space_is_bounded, padded,
    padded_decimal, padded_decimal_digits, texts, white_space, without_leading_space, word_length, word_length_is_bounded,
    words, words_of,
};

verus! {

/// What the digest of two keys begins with.
pub const SAFETY_DOMAIN: &'static str = "construct-safety-number-v1\0";

/// The number of groups.
pub const GROUPS: usize = 12;

/// The number that five bytes stand for, the first being the highest.
pub open spec fn number_of(bytes: Seq<u8>, at: int) -> nat {
    ((((bytes[at] * 256 + bytes[at + 1]) * 256 + bytes[at + 2]) * 256 + bytes[at + 3]) * 256
        + bytes[at + 4]) as nat
}

/// The `i`th group: the last five digits of the number that bytes 5i to 5i + 4 stand for.
pub open spec fn group(digest: Seq<u8>, i: int) -> Seq<char> {
    padded_decimal(number_of(digest, 5 * i) % 100_000, 5)
}

/// The first `n` groups, with a blank between them.
pub open spec fn joined_groups(digest: Seq<u8>, n: nat) -> Seq<char>
    decreases n,
{
    if n == 0 {
        Seq::empty()
    } else if n == 1 {
        group(digest, 0)
    } else {
        joined_groups(digest, (n - 1) as nat) + " "@ + group(digest, n - 1)
    }
}

/// What is hashed for two keys: the domain and the keys, the smaller first.
pub open spec fn fingerprint_input(a: Seq<u8>, b: Seq<u8>) -> Seq<u8> {
    if bytes_before(b, a) {
        encode_utf8(SAFETY_DOMAIN@) + b + a
    } else {
        encode_utf8(SAFETY_DOMAIN@) + a + b
    }
}

/// The safety number of two identity keys.
pub open spec fn safety_number(a: Seq<u8>, b: Seq<u8>) -> Seq<char> {
    joined_groups(sha512_digest(fingerprint_input(a, b)), GROUPS as nat)
}

/// The groups of a digest, with a blank between them.
pub fn groups_text(digest: &Vec<u8>) -> (r: String)
    requires
        digest@.len() >= 60,
    ensures
        r@ == joined_groups(digest@, GROUPS as nat),
{
    let mut r = String::new();
    let mut i: usize = 0;
    while i < GROUPS
        invariant
            i <= GROUPS,
            digest@.len() >= 60,
            r@ == joined_groups(digest@, i as nat),
        decreases GROUPS - i,
    {
        let at: usize = 5 * i;
        let n: u64 = (((digest[at] as u64 * 256 + digest[at + 1] as u64) * 256 + digest[at
            + 2] as u64) * 256 + digest[at + 3] as u64) * 256 + digest[at + 4] as u64;
        assert(n == number_of(digest@, at as int));
        if i > 0 {
            r.append(" ");
        }
        let g = padded(n % 100_000, 5);
        let ghost before = r@;
        r.append(g.as_str());
        i = i + 1;
        assert(r@ == joined_groups(digest@, i as nat));
    }
    r
}

/// The safety number of two identity keys. Both parties get the same number, since the smaller key
/// goes first.
pub fn compute_safety_number(our_identity: &[u8; 32], their_identity: &[u8; 32]) -> (r: String)
    ensures
        r@ == safety_number(our_identity@, their_identity@),
{
    let mut input: Vec<u8> = Vec::new();
    input.extend_from_slice(SAFETY_DOMAIN.as_bytes());
    if is_bytes_before(their_identity.as_slice(), our_identity.as_slice()) {
        input.extend_from_slice(their_identity.as_slice());
        input.extend_from_slice(our_identity.as_slice());
    } else {
        input.extend_from_slice(our_identity.as_slice());
        input.extend_from_slice(their_identity.as_slice());
    }
    assert(input@ == fingerprint_input(our_identity@, their_identity@));
    let digest = sha512(input.as_slice());
    groups_text(&digest)
}

/// Both parties compute the same safety number.
pub proof fn safety_number_is_the_same_for_both(a: Seq<u8>, b: Seq<u8>)
    ensures
        safety_number(a, b) == safety_number(b, a),
{
    bytes_before_is_total(a, b);
}

/// A group is five decimal digits, none of which is whitespace.
pub proof fn group_is_five_digits(digest: Seq<u8>, i: int)
    ensures
        group(digest, i).len() == 5,
        forall|k: int| 0 <= k < 5 ==> is_decimal(#[trigger] group(digest, i)[k]),
{
    padded_decimal_digits(number_of(digest, 5 * i) % 100_000, 5);
}

/// Leading whitespace is the same whatever follows.
proof fn leading_space_before(a: Seq<char>, x: Seq<char>)
    ensures
        without_leading_space(a).len() > 0 ==> without_leading_space(a + x)
            == without_leading_space(a) + x,
        without_leading_space(a).len() == 0 ==> without_leading_space(a + x)
            == without_leading_space(x),
    decreases a.len(),
{
    if a.len() == 0 {
        assert(a + x == x);
    } else if white_space(a[0]) {
        assert((a + x).drop_first() == a.drop_first() + x);
        leading_space_before(a.drop_first(), x);
    }
}

/// A word put behind a text and a blank is added to its words.
proof fn word_is_added(a: Seq<char>, g: Seq<char>)
    requires
        g.len() > 0,
        forall|k: int| 0 <= k < g.len() ==> !white_space(#[trigger] g[k]),
    ensures
        words_of(a + (" "@ + g)) == words_of(a).push(g),
    decreases a.len(),
{
    reveal_strlit(" ");
    let x = " "@ + g;
    let t = without_leading_space(a);
    leading_space_is_bounded(a);
    leading_space_before(a, x);
    if t.len() == 0 {
        assert(x.drop_first() == g);
        assert(without_leading_space(x) == without_leading_space(g));
        assert(without_leading_space(g) == g) by {
            assert(!white_space(g[0]));
        }
        assert(g.take(g.len() as int) == g);
        word_length_of(g, g);
        assert(words_of(g.skip(g.len() as int)) == Seq::<Seq<char>>::empty());
        assert(words_of(a + x) == seq![g]);
    } else {
        let n = word_length(t);
        word_length_is_bounded(t);
        let w = t.take(n as int);
        assert((t + x).take(n as int) == w);
        assert(n > 0);
        word_length_of(w, t + x);
        let rest = t.skip(n as int);
        assert((t + x).skip(n as int) == rest + x);
        word_is_added(rest, g);
        assert(words_of(a + x) == seq![w] + words_of(rest + x));
        assert(seq![w] + words_of(rest).push(g) == (seq![w] + words_of(rest)).push(g));
    }
}

/// The words of a safety number are its groups.
pub proof fn words_are_groups(digest: Seq<u8>, n: nat)
    ensures
        words_of(joined_groups(digest, n)) == Seq::new(n, |i: int| group(digest, i)),
    decreases n,
{
    let groups = Seq::new(n, |i: int| group(digest, i));
    if n == 0 {
        assert(words_of(joined_groups(digest, n)) == groups);
    } else {
        let g = group(digest, n - 1);
        group_is_five_digits(digest, n - 1);
        assert forall|k: int| 0 <= k < g.len() implies !white_space(#[trigger] g[k]) by {
            assert(is_decimal(g[k]));
        }
        let before = joined_groups(digest, (n - 1) as nat);
        words_are_groups(digest, (n - 1) as nat);
        word_is_added(before, g);
        if n == 1 {
            assert(before + (" "@ + g) == " "@ + g);
            reveal_strlit(" ");
            assert((" "@ + g).drop_first() == g);
            assert(without_leading_space(" "@ + g) == without_leading_space(g));
            assert(words_of(" "@ + g) == words_of(g));
        } else {
            assert(before + (" "@ + g) == before + " "@ + g);
        }
        assert(Seq::new((n - 1) as nat, |i: int| group(digest, i)).push(g) == groups);
    }
}

/// A safety number is twelve groups of five decimal digits.
pub proof fn safety_number_is_twelve_groups(a: Seq<u8>, b: Seq<u8>)
    ensures
        words_of(safety_number(a, b)).len() == GROUPS,
        forall|i: int|
            0 <= i < GROUPS ==> (#[trigger] words_of(safety_number(a, b))[i]).len() == 5,
        forall|i: int, k: int|
            0 <= i < GROUPS && 0 <= k < 5 ==> is_decimal(
                #[trigger] words_of(safety_number(a, b))[i][k],
            ),
{
    let digest = sha512_digest(fingerprint_input(a, b));
    words_are_groups(digest, GROUPS as nat);
    let words = words_of(safety_number(a, b));
    assert forall|i: int| 0 <= i < GROUPS implies (#[trigger] words[i]).len() == 5 by {
        group_is_five_digits(digest, i);
    }
    assert forall|i: int, k: int| 0 <= i < GROUPS && 0 <= k < 5 implies is_decimal(
        #[trigger] words[i][k],
    ) by {
        group_is_five_digits(digest, i);
        assert(is_decimal(group(digest, i)[k]));
    }
}

/// A text that begins with `g` and goes on with whitespace or ends there has a first word of the
/// length of `g`.
proof fn word_length_of(g: Seq<char>, s: Seq<char>)
    requires
        s.len() >= g.len(),
        s.take(g.len() as int) == g,
        forall|k: int| 0 <= k < g.len() ==> !white_space(#[trigger] g[k]),
        s.len() > g.len() ==> white_space(s[g.len() as int]),
    ensures
        word_length(s) == g.len(),
    decreases g.len(),
{
    if g.len() > 0 {
        assert(s[0] == s.take(g.len() as int)[0]);
        assert(!white_space(g[0]));
        let h = g.drop_first();
        let u = s.drop_first();
        assert(u.take(h.len() as int) == h) by {
            assert forall|k: int| 0 <= k < h.len() implies u.take(h.len() as int)[k] == h[k] by {
                assert(s.take(g.len() as int)[k + 1] == g[k + 1]);
            }
        }
        assert forall|k: int| 0 <= k < h.len() implies !white_space(#[trigger] h[k]) by {
            assert(!white_space(g[k + 1]));
        }
        word_length_of(h, u);
    }
}

/// The `k`th row of the grid: up to three words with two blanks between them.
pub open spec fn grid_row(ws: Seq<Seq<char>>, k: int) -> Seq<char> {
    let first = ws[3 * k];
    if 3 * k + 2 < ws.len() {
        first + "  "@ + ws[3 * k + 1] + "  "@ + ws[3 * k + 2]
    } else if 3 * k + 1 < ws.len() {
        first + "  "@ + ws[3 * k + 1]
    } else {
        first
    }
}

/// The words in rows of three.
pub open spec fn grid_of(ws: Seq<Seq<char>>) -> Seq<Seq<char>> {
    Seq::new((ws.len() + 2) / 3, |k: int| grid_row(ws, k))
}

/// The safety number of a contact.
#[derive(Debug)]
pub struct SafetyNumberScreen {
    pub contact_name: String,
    pub number: String,
}

/// The rows inside the border: a note, the rows of the number and the hint, with blank rows
/// between them.
pub open spec fn safety_lines(s: SafetyNumberScreen) -> Seq<Seq<SpanView>> {
    let blank = seq![styled(""@, plain())];
    seq![
        seq![
            styled(
                "  Compare this number with your contact out-of-band."@,
                colored(Color::DarkGray),
            ),
        ],
        blank,
    ] + grid_of(words_of(s.number@)).map_values(
        |r: Seq<char>| seq![styled("    "@ + r, bold(Color::Yellow))],
    ) + seq![blank, seq![styled("  [Esc] Back"@, colored(Color::DarkGray))]]
}

/// What the safety number screen shows.
pub open spec fn safety_drawing(s: SafetyNumberScreen, area: Area) -> Seq<DrawView> {
    seq![
        DrawView::Border {
            area,
            frame: framed(
                " ◆ Safety Number — "@ + s.contact_name@ + " "@,
                true,
                colored(Color::Yellow),
            ),
        },
        text_op(inner_area(area), safety_lines(s), plain()),
    ]
}

impl SafetyNumberScreen {
    /// The safety number of a contact.
    pub fn new(
        contact_name: String,
        our_identity: &[u8; 32],
        their_identity: &[u8; 32],
    ) -> (r: Self)
        ensures
            r.contact_name == contact_name,
            r.number@ == safety_number(our_identity@, their_identity@),
    {
        SafetyNumberScreen {
            contact_name,
            number: compute_safety_number(our_identity, their_identity),
        }
    }

    /// The number in rows of three groups.
    pub fn formatted_grid(&self) -> (r: Vec<String>)
        ensures
            texts(r@) == grid_of(words_of(self.number@)),
    {
        let ws = words(self.number.as_str());
        let ghost ts = words_of(self.number@);
        let n: usize = ws.len();
        let mut rows: Vec<String> = Vec::new();
        let mut i: usize = 0;
        while i < n
            invariant
                n == ws@.len(),
                texts(ws@) == ts,
                ts == words_of(self.number@),
                i % 3 == 0,
                i <= n,
                texts(rows@) == grid_of(ts).take((i / 3) as int),
            decreases n - i,
        {
            assert(texts(ws@)[i as int] == ws@[i as int]@);
            let row = if n - i > 2 {
                let head = cat3(ws[i].as_str(), "  ", ws[i + 1].as_str());
                assert(texts(ws@)[i + 1] == ws@[i + 1]@);
                assert(texts(ws@)[i + 2] == ws@[i + 2]@);
                cat3(head.as_str(), "  ", ws[i + 2].as_str())
            } else if n - i > 1 {
                assert(texts(ws@)[i + 1] == ws@[i + 1]@);
                cat3(ws[i].as_str(), "  ", ws[i + 1].as_str())
            } else {
                ws[i].clone()
            };
            let ghost k = (i / 3) as int;
            assert(row@ == grid_row(ts, k));
            let ghost before = rows@;
            rows.push(row);
            assert(texts(rows@) == texts(before).push(row@));
            assert(grid_of(ts).take(k + 1) == grid_of(ts).take(k).push(grid_row(ts, k)));
            if n - i > 2 {
                i = i + 3;
            } else {
                assert(grid_of(ts).take(k + 1) == grid_of(ts));
                return rows;
            }
        }
        assert(grid_of(ts).take((i / 3) as int) == grid_of(ts));
        rows
    }

    /// Draws the screen.
    pub fn render(&self, area: Area) -> (r: Vec<Draw>)
        ensures
            drawn(r@) == safety_drawing(*self, area),
    {
        let mut ops: Vec<Draw> = Vec::new();
        let title = cat3(" ◆ Safety Number — ", self.contact_name.as_str(), " ");
        put(
            &mut ops,
            Draw::Border { area, frame: frame(title.as_str(), true, colored(Color::Yellow)) },
        );
        let mut lines: Vec<Line> = Vec::new();
        add_line(
            &mut lines,
            line(
                span(
                    "  Compare this number with your contact out-of-band.",
                    colored(Color::DarkGray),
                ),
            ),
        );
        add_line(&mut lines, line(span("", plain())));
        let ghost head = shown(lines@);
        let rows = self.formatted_grid();
        let ghost grid = grid_of(words_of(self.number@));
        let ghost f = |r: Seq<char>| seq![styled("    "@ + r, bold(Color::Yellow))];
        let mut i: usize = 0;
        while i < rows.len()
            invariant
                i <= rows@.len(),
                texts(rows@) == grid,
                f == (|r: Seq<char>| seq![styled("    "@ + r, bold(Color::Yellow))]),
                shown(lines@) == head + grid.take(i as int).map_values(f),
            decreases rows@.len() - i,
        {
            assert(texts(rows@)[i as int] == rows@[i as int]@);
            add_line(
                &mut lines,
                line(span_of(cat2("    ", rows[i].as_str()), bold(Color::Yellow))),
            );
            i = i + 1;
            assert(shown(lines@) == head + grid.take(i as int).map_values(f));
        }
        assert(rows@.len() == texts(rows@).len());
        assert(grid.take(i as int) == grid);
        add_line(&mut lines, line(span("", plain())));
        add_line(&mut lines, line(span("  [Esc] Back", colored(Color::DarkGray))));
        assert(shown(lines@) == safety_lines(*self));
        put(&mut ops, text(inside_border(area), lines, plain()));
        assert(drawn(ops@) == safety_drawing(*self, area));
        ops
    }
}

/// The grid of a safety number has four rows, each of three groups with two blanks between them.
pub proof fn safety_number_is_shown_four_by_three(a: Seq<u8>, b: Seq<u8>, k: int)
    requires
        0 <= k < 4,
    ensures
        ({
            let ws = words_of(safety_number(a, b));
            &&& grid_of(ws).len() == 4
            &&& grid_of(ws)[k] == ws[3 * k] + "  "@ + ws[3 * k + 1] + "  "@ + ws[3 * k + 2]
        }),
{
    safety_number_is_twelve_groups(a, b);
}

} // verus!
