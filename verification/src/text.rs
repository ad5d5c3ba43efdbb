//! Text helpers: whitespace, trimming, searching, digits and byte-wise ordering.

use vstd::prelude::*;
use vstd::utf8::*;

verus! {

/// `String::push` appends one character.
pub assume_specification[ String::push ](s: &mut String, c: char)
    ensures
        final(s)@ == old(s)@.push(c),
;

/// `String::pop` removes the last character and returns it; an empty string is left alone.
pub assume_specification[ String::pop ](s: &mut String) -> (r: Option<char>)
    ensures
        old(s)@.len() == 0 ==> r is None && final(s)@ == old(s)@,
        old(s)@.len() > 0 ==> r == Some(old(s)@.last()) && final(s)@ == old(s)@.drop_last(),
;

/// What `String::from_utf8_lossy` makes of a byte sequence.
pub uninterp spec fn lossy_text(bytes: Seq<u8>) -> Seq<char>;

/// Calls `String::from_utf8_lossy`: bytes that are valid UTF-8 are decoded as they stand, and
/// in other input each malformed part is replaced by U+FFFD; how many replacement characters
/// one malformed part yields is left to the name `lossy_text`.
#[verifier::external_body]
pub(crate) fn utf8_lossy(bytes: &[u8]) -> (r: String)
    ensures
        r@ == lossy_text(bytes@),
        valid_utf8(bytes@) ==> r@ == decode_utf8(bytes@),
{
    String::from_utf8_lossy(bytes).into_owned()
}

// ── Typing ───────────────────────────────────────────────────────────────────

/// `t` without its last character, if it has one.
pub open spec fn without_last(t: Seq<char>) -> Seq<char> {
    if t.len() > 0 {
        t.drop_last()
    } else {
        t
    }
}

/// `t` followed by `c`, unless it has `limit` bytes or more.
pub open spec fn typed_within(t: Seq<char>, c: char, limit: usize) -> Seq<char> {
    if encode_utf8(t).len() < limit {
        t.push(c)
    } else {
        t
    }
}

// ── Copies between strings and character vectors ─────────────────────────────

/// The characters of `s`, in order.
pub fn to_chars(s: &str) -> (r: Vec<char>)
    ensures
        r@ == s@,
{
    let mut r: Vec<char> = Vec::new();
    for c in it: s.chars()
        invariant
            r@ == it.seq().take(it.index()),
            it.seq() == s@,
    {
        r.push(c);
    }
    r
}

/// The characters `v[from..to]` as a string.
pub fn from_chars(v: &Vec<char>, from: usize, to: usize) -> (r: String)
    requires
        from <= to <= v@.len(),
    ensures
        r@ == v@.subrange(from as int, to as int),
{
    let mut r = String::new();
    let mut i: usize = from;
    while i < to
        invariant
            from <= i <= to <= v@.len(),
            r@ == v@.subrange(from as int, i as int),
        decreases to - i,
    {
        r.push(v[i]);
        i = i + 1;
        assert(v@.subrange(from as int, i as int) == v@.subrange(from as int, i - 1).push(
            v@[i - 1],
        ));
    }
    r
}

// ── Comparison ───────────────────────────────────────────────────────────────

/// Whether two strings hold the same characters.
pub fn same_text(a: &str, b: &str) -> (r: bool)
    ensures
        r == (a@ == b@),
{
    a.to_string() == b.to_string()
}

/// Byte-wise lexicographic order: a strict prefix comes first.
pub open spec fn bytes_before(a: Seq<u8>, b: Seq<u8>) -> bool
    decreases a.len(),
{
    if b.len() == 0 {
        false
    } else if a.len() == 0 {
        true
    } else if a[0] == b[0] {
        bytes_before(a.drop_first(), b.drop_first())
    } else {
        a[0] < b[0]
    }
}

/// Decides `bytes_before`.
pub fn is_bytes_before(a: &[u8], b: &[u8]) -> (r: bool)
    ensures
        r == bytes_before(a@, b@),
{
    let mut i: usize = 0;
    proof {
        assert(a@.skip(0) == a@);
        assert(b@.skip(0) == b@);
    }
    while i < a.len() && i < b.len()
        invariant
            i <= a@.len(),
            i <= b@.len(),
            bytes_before(a@, b@) == bytes_before(a@.skip(i as int), b@.skip(i as int)),
        decreases a@.len() - i,
    {
        if a[i] != b[i] {
            return a[i] < b[i];
        }
        proof {
            assert(a@.skip(i as int).drop_first() == a@.skip(i + 1));
            assert(b@.skip(i as int).drop_first() == b@.skip(i + 1));
        }
        i = i + 1;
    }
    i < b.len()
}

/// Two sequences of which neither comes before the other are equal, and never do both come
/// before each other.
pub proof fn bytes_before_is_total(a: Seq<u8>, b: Seq<u8>)
    ensures
        bytes_before(a, b) || bytes_before(b, a) || a == b,
        !(bytes_before(a, b) && bytes_before(b, a)),
        !bytes_before(a, a),
    decreases a.len(),
{
    if a.len() > 0 {
        if b.len() > 0 {
            bytes_before_is_total(a.drop_first(), b.drop_first());
            if a[0] == b[0] && a.drop_first() == b.drop_first() {
                assert(a == seq![a[0]] + a.drop_first());
                assert(b == seq![b[0]] + b.drop_first());
            }
        }
        bytes_before_is_total(a.drop_first(), a.drop_first());
    } else if b.len() == 0 {
        assert(a == b);
    }
}

/// Strings with the same UTF-8 bytes are the same.
pub proof fn same_bytes_same_text(a: Seq<char>, b: Seq<char>)
    requires
        encode_utf8(a) == encode_utf8(b),
    ensures
        a == b,
{
    encode_utf8_decode_utf8(a);
    encode_utf8_decode_utf8(b);
}

// ── Searching ────────────────────────────────────────────────────────────────

/// Whether `part` stands in `s` at position `i`.
pub open spec fn stands_at(s: Seq<char>, part: Seq<char>, i: int) -> bool {
    0 <= i && i + part.len() <= s.len() && s.subrange(i, i + part.len()) == part
}

/// Whether `part` occurs anywhere in `s`.
pub open spec fn occurs_in(part: Seq<char>, s: Seq<char>) -> bool {
    exists|i: int| #[trigger] stands_at(s, part, i)
}

/// Whether `part` stands in `s` at position `i`.
pub fn chars_stand_at(s: &Vec<char>, part: &Vec<char>, i: usize) -> (r: bool)
    ensures
        r == stands_at(s@, part@, i as int),
{
    if part.len() > s.len() || i > s.len() - part.len() {
        return false;
    }
    let n: usize = s.len();
    let mut k: usize = 0;
    while k < part.len()
        invariant
            n == s@.len(),
            k <= part@.len(),
            i + part@.len() <= n,
            forall|j: int| 0 <= j < k ==> s@[i + j] == part@[j],
        decreases part@.len() - k,
    {
        if s[i + k] != part[k] {
            assert(s@.subrange(i as int, i + part@.len())[k as int] != part@[k as int]);
            return false;
        }
        k = k + 1;
    }
    assert(s@.subrange(i as int, i + part@.len()) == part@);
    true
}

/// Decides `occurs_in`.
pub fn contains(s: &str, part: &str) -> (r: bool)
    ensures
        r == occurs_in(part@, s@),
{
    let cs = to_chars(s);
    let ps = to_chars(part);
    let mut i: usize = 0;
    while i < cs.len()
        invariant
            i <= cs@.len(),
            cs@ == s@,
            ps@ == part@,
            forall|j: int| 0 <= j < i ==> !stands_at(s@, part@, j),
        decreases cs@.len() - i,
    {
        if chars_stand_at(&cs, &ps, i) {
            return true;
        }
        i = i + 1;
    }
    chars_stand_at(&cs, &ps, i)
}

/// Whether `s` begins with `part`.
pub open spec fn begins_with(s: Seq<char>, part: Seq<char>) -> bool {
    stands_at(s, part, 0)
}

// ── Sets of names ────────────────────────────────────────────────────────────

/// The texts that a list of strings holds.
pub open spec fn names(v: Seq<String>) -> Set<Seq<char>> {
    v.map_values(|s: String| s@).to_set()
}

/// Where `name` stands in the list, if it does.
pub fn position_of(v: &Vec<String>, name: &str) -> (r: Option<usize>)
    ensures
        r is Some <==> names(v@).contains(name@),
        r is Some ==> r->0 < v@.len() && v@[r->0 as int]@ == name@,
{
    let ghost texts = v@.map_values(|s: String| s@);
    let mut i: usize = 0;
    while i < v.len()
        invariant
            i <= v@.len(),
            texts == v@.map_values(|s: String| s@),
            forall|j: int| 0 <= j < i ==> v@[j]@ != name@,
        decreases v@.len() - i,
    {
        if same_text(v[i].as_str(), name) {
            assert(texts[i as int] == name@);
            return Some(i);
        }
        i = i + 1;
    }
    assert(!texts.contains(name@));
    None
}

/// Adds `name` to the list unless it is there already.
pub fn add_name(v: &mut Vec<String>, name: String)
    ensures
        names(final(v)@) == names(old(v)@).insert(name@),
        old(v)@.map_values(|s: String| s@).no_duplicates() ==> final(v)@.map_values(
            |s: String| s@,
        ).no_duplicates(),
{
    if position_of(v, name.as_str()).is_none() {
        let ghost before = v@.map_values(|s: String| s@);
        let ghost text = name@;
        v.push(name);
        let ghost after = v@.map_values(|s: String| s@);
        assert(after == before.push(text));
        assert forall|n: Seq<char>| after.to_set().contains(n) == before.to_set().insert(
            text,
        ).contains(n) by {
            if before.contains(n) {
                let i = choose|i: int| 0 <= i < before.len() && before[i] == n;
                assert(after[i] == n);
            }
            assert(after[before.len() as int] == text);
        }
        assert(after.to_set() == before.to_set().insert(text));
    } else {
        assert(names(v@) == names(v@).insert(name@));
    }
}

/// Takes `name` out of a list in which nothing stands twice, and says whether it was there.
pub fn remove_name(v: &mut Vec<String>, name: &str) -> (r: bool)
    requires
        old(v)@.map_values(|s: String| s@).no_duplicates(),
    ensures
        r == names(old(v)@).contains(name@),
        names(final(v)@) == names(old(v)@).remove(name@),
        final(v)@.map_values(|s: String| s@).no_duplicates(),
{
    match position_of(v, name) {
        Some(i) => {
            let ghost before = v@.map_values(|s: String| s@);
            v.remove(i);
            let ghost after = v@.map_values(|s: String| s@);
            assert(after == before.remove(i as int));
            assert forall|n: Seq<char>| after.to_set().contains(n) == before.to_set().remove(
                name@,
            ).contains(n) by {
                if before.contains(n) && n != name@ {
                    let j = choose|j: int| 0 <= j < before.len() && before[j] == n;
                    assert(after[if j < i { j } else { j - 1 }] == n);
                }
                if after.contains(n) {
                    let j = choose|j: int| 0 <= j < after.len() && after[j] == n;
                    let k = if j < i { j } else { j + 1 };
                    assert(before[k] == n && k != i && before[i as int] == name@);
                }
            }
            assert(after.to_set() == before.to_set().remove(name@));
            true
        },
        None => {
            assert(names(v@) == names(v@).remove(name@));
            false
        },
    }
}

// ── Whitespace ───────────────────────────────────────────────────────────────

/// The characters with the Unicode property `White_Space`.
pub open spec fn white_space(c: char) -> bool {
    let n = c as u32;
    ||| 0x09 <= n <= 0x0d
    ||| n == 0x20
    ||| n == 0x85
    ||| n == 0xa0
    ||| n == 0x1680
    ||| 0x2000 <= n <= 0x200a
    ||| n == 0x2028
    ||| n == 0x2029
    ||| n == 0x202f
    ||| n == 0x205f
    ||| n == 0x3000
}

/// Decides `white_space`.
pub fn is_white_space(c: char) -> (r: bool)
    ensures
        r == white_space(c),
{
    let n: u32 = c as u32;
    (0x09 <= n && n <= 0x0d) || n == 0x20 || n == 0x85 || n == 0xa0 || n == 0x1680 || (0x2000 <= n
        && n <= 0x200a) || n == 0x2028 || n == 0x2029 || n == 0x202f || n == 0x205f || n == 0x3000
}

/// `s` without its leading whitespace.
pub open spec fn without_leading_space(s: Seq<char>) -> Seq<char>
    decreases s.len(),
{
    if s.len() > 0 && white_space(s[0]) {
        without_leading_space(s.drop_first())
    } else {
        s
    }
}

/// `s` without its trailing whitespace.
pub open spec fn without_trailing_space(s: Seq<char>) -> Seq<char>
    decreases s.len(),
{
    if s.len() > 0 && white_space(s.last()) {
        without_trailing_space(s.drop_last())
    } else {
        s
    }
}

/// `s` without the whitespace at both of its ends.
pub open spec fn trimmed(s: Seq<char>) -> Seq<char> {
    without_trailing_space(without_leading_space(s))
}

/// A copy of `s` without the whitespace at its ends.
pub fn trim(s: &str) -> (r: String)
    ensures
        r@ == trimmed(s@),
{
    let cs = to_chars(s);
    let n: usize = cs.len();
    let mut from: usize = 0;
    proof {
        assert(cs@.skip(0) == cs@);
    }
    while from < n && is_white_space(cs[from])
        invariant
            from <= n,
            n == cs@.len(),
            without_leading_space(cs@) == without_leading_space(cs@.skip(from as int)),
        decreases n - from,
    {
        proof {
            assert(cs@.skip(from as int).drop_first() == cs@.skip(from + 1));
        }
        from = from + 1;
    }
    let mut to: usize = n;
    proof {
        assert(cs@.skip(from as int) == cs@.subrange(from as int, to as int));
    }
    while to > from && is_white_space(cs[to - 1])
        invariant
            from <= to <= n,
            n == cs@.len(),
            without_trailing_space(without_leading_space(cs@)) == without_trailing_space(
                cs@.subrange(from as int, to as int),
            ),
        decreases to,
    {
        proof {
            assert(cs@.subrange(from as int, to as int).drop_last() == cs@.subrange(
                from as int,
                to - 1,
            ));
        }
        to = to - 1;
    }
    from_chars(&cs, from, to)
}

/// The number of characters before the first whitespace.
pub open spec fn word_length(s: Seq<char>) -> nat
    decreases s.len(),
{
    if s.len() == 0 || white_space(s[0]) {
        0
    } else {
        1 + word_length(s.drop_first())
    }
}

/// A word is not longer than what it begins, and there is no whitespace in it.
pub proof fn word_length_is_bounded(s: Seq<char>)
    ensures
        word_length(s) <= s.len(),
        forall|i: int| 0 <= i < word_length(s) ==> !white_space(#[trigger] s[i]),
        word_length(s) < s.len() ==> white_space(s[word_length(s) as int]),
    decreases s.len(),
{
    if s.len() > 0 && !white_space(s[0]) {
        word_length_is_bounded(s.drop_first());
        assert forall|i: int| 0 <= i < word_length(s) implies !white_space(#[trigger] s[i]) by {
            if i > 0 {
                assert(s[i] == s.drop_first()[i - 1]);
            }
        }
    }
}

/// Without its leading whitespace, a text is not longer and begins with something else.
pub proof fn leading_space_is_bounded(s: Seq<char>)
    ensures
        without_leading_space(s).len() <= s.len(),
        without_leading_space(s).len() > 0 ==> !white_space(without_leading_space(s)[0]),
    decreases s.len(),
{
    if s.len() > 0 && white_space(s[0]) {
        leading_space_is_bounded(s.drop_first());
    }
}

/// The words of a text: what stands between whitespace.
pub open spec fn words_of(s: Seq<char>) -> Seq<Seq<char>>
    decreases s.len(),
{
    let t = without_leading_space(s);
    if t.len() == 0 {
        Seq::empty()
    } else {
        proof {
            leading_space_is_bounded(s);
            word_length_is_bounded(t);
        }
        seq![t.take(word_length(t) as int)] + words_of(t.skip(word_length(t) as int))
    }
}

/// The texts of a list of strings.
pub open spec fn texts(v: Seq<String>) -> Seq<Seq<char>> {
    v.map_values(|s: String| s@)
}

/// The words of a text.
pub fn words(s: &str) -> (r: Vec<String>)
    ensures
        texts(r@) == words_of(s@),
{
    let cs = to_chars(s);
    let n: usize = cs.len();
    let mut r: Vec<String> = Vec::new();
    let mut i: usize = 0;
    proof {
        assert(cs@.skip(0) == cs@);
        assert(texts(r@) + words_of(cs@) == words_of(cs@));
    }
    while i < n
        invariant
            i <= n,
            n == cs@.len(),
            cs@ == s@,
            texts(r@) + words_of(cs@.skip(i as int)) == words_of(cs@),
        decreases n - i,
    {
        let ghost rest = cs@.skip(i as int);
        if is_white_space(cs[i]) {
            proof {
                assert(rest.drop_first() == cs@.skip(i + 1));
                assert(without_leading_space(rest) == without_leading_space(rest.drop_first()));
            }
            i = i + 1;
        } else {
            let from: usize = i;
            i = i + 1;
            assert(rest.drop_first() == cs@.skip(i as int));
            while i < n && !is_white_space(cs[i])
                invariant
                    from < i <= n,
                    n == cs@.len(),
                    !white_space(cs@[from as int]),
                    word_length(cs@.skip(from as int)) == i - from + word_length(
                        cs@.skip(i as int),
                    ),
                decreases n - i,
            {
                proof {
                    assert(cs@.skip(i as int).drop_first() == cs@.skip(i + 1));
                }
                i = i + 1;
            }
            let w = from_chars(&cs, from, i);
            proof {
                assert(word_length(rest) == i - from);
                assert(w@ == rest.take(i - from));
                assert(rest.skip(i - from) == cs@.skip(i as int));
                assert(words_of(rest) == seq![w@] + words_of(cs@.skip(i as int)));
            }
            let ghost before = r@;
            r.push(w);
            proof {
                assert(texts(r@) == texts(before).push(w@));
                assert(texts(before) + (seq![w@] + words_of(cs@.skip(i as int))) == texts(r@)
                    + words_of(cs@.skip(i as int)));
            }
        }
    }
    proof {
        assert(cs@.skip(i as int).len() == 0);
        assert(texts(r@) + words_of(cs@.skip(i as int)) == texts(r@));
    }
    r
}

// ── Joining ──────────────────────────────────────────────────────────────────

/// `a` followed by `b`.
pub fn cat2(a: &str, b: &str) -> (r: String)
    ensures
        r@ == a@ + b@,
{
    let mut r = a.to_string();
    r.append(b);
    r
}

/// `a`, `b` and `c` one after the other.
pub fn cat3(a: &str, b: &str, c: &str) -> (r: String)
    ensures
        r@ == a@ + b@ + c@,
{
    let mut r = a.to_string();
    r.append(b);
    r.append(c);
    r
}

/// Four pieces one after the other.
pub fn cat4(a: &str, b: &str, c: &str, d: &str) -> (r: String)
    ensures
        r@ == a@ + b@ + c@ + d@,
{
    let mut r = cat3(a, b, c);
    r.append(d);
    r
}

/// Five pieces one after the other.
pub fn cat5(a: &str, b: &str, c: &str, d: &str, e: &str) -> (r: String)
    ensures
        r@ == a@ + b@ + c@ + d@ + e@,
{
    let mut r = cat4(a, b, c, d);
    r.append(e);
    r
}

// ── Digits ───────────────────────────────────────────────────────────────────

/// The character of the hexadecimal digit `d`, in lower case.
pub open spec fn digit(d: int) -> char {
    if d == 0 { '0' }
    else if d == 1 { '1' }
    else if d == 2 { '2' }
    else if d == 3 { '3' }
    else if d == 4 { '4' }
    else if d == 5 { '5' }
    else if d == 6 { '6' }
    else if d == 7 { '7' }
    else if d == 8 { '8' }
    else if d == 9 { '9' }
    else if d == 10 { 'a' }
    else if d == 11 { 'b' }
    else if d == 12 { 'c' }
    else if d == 13 { 'd' }
    else if d == 14 { 'e' }
    else { 'f' }
}

/// The character of the hexadecimal digit `d`.
pub fn digit_char(d: u8) -> (r: char)
    requires
        d < 16,
    ensures
        r == digit(d as int),
{
    if d < 10 {
        (48u8 + d) as char
    } else {
        (87u8 + d) as char
    }
}

/// Whether `c` is one of `0` to `9`.
pub open spec fn is_decimal(c: char) -> bool {
    '0' <= c <= '9'
}

/// Whether `c` is a lower-case hexadecimal digit.
pub open spec fn is_lower_hex(c: char) -> bool {
    '0' <= c <= '9' || 'a' <= c <= 'f'
}

/// The decimal notation of `n`, without leading zeros.
pub open spec fn decimal_text(n: nat) -> Seq<char>
    decreases n,
{
    if n < 10 {
        seq![digit(n as int)]
    } else {
        decimal_text(n / 10).push(digit((n % 10) as int))
    }
}

/// The decimal notation of `n`.
pub fn decimal(n: u64) -> (r: String)
    ensures
        r@ == decimal_text(n as nat),
    decreases n,
{
    if n < 10 {
        let mut r = String::new();
        r.push(digit_char(n as u8));
        assert(r@ == seq![digit(n as int)]);
        r
    } else {
        let mut r = decimal(n / 10);
        r.push(digit_char((n % 10) as u8));
        r
    }
}

/// The decimal notation of a signed number.
pub open spec fn signed_text(n: int) -> Seq<char> {
    if n < 0 {
        seq!['-'] + decimal_text((-n) as nat)
    } else {
        decimal_text(n as nat)
    }
}

/// The decimal notation of a signed number.
pub fn signed_decimal(n: i64) -> (r: String)
    ensures
        r@ == signed_text(n as int),
{
    if n < 0 {
        let magnitude: u64 = if n == i64::MIN { 0x8000_0000_0000_0000u64 } else { (-n) as u64 };
        let mut r = String::new();
        r.push('-');
        r.append(decimal(magnitude).as_str());
        assert(r@ == seq!['-'] + decimal_text(magnitude as nat));
        r
    } else {
        decimal(n as u64)
    }
}

/// The last `width` decimal digits of `n`, with leading zeros.
pub open spec fn padded_decimal(n: nat, width: nat) -> Seq<char>
    decreases width,
{
    if width == 0 {
        Seq::empty()
    } else {
        padded_decimal(n / 10, (width - 1) as nat).push(digit((n % 10) as int))
    }
}

/// The last `width` decimal digits of `n`, with leading zeros.
pub fn padded(n: u64, width: usize) -> (r: String)
    ensures
        r@ == padded_decimal(n as nat, width as nat),
    decreases width,
{
    if width == 0 {
        String::new()
    } else {
        let mut r = padded(n / 10, width - 1);
        r.push(digit_char((n % 10) as u8));
        r
    }
}

/// `padded_decimal` has exactly `width` characters, all of them decimal digits.
pub proof fn padded_decimal_digits(n: nat, width: nat)
    ensures
        padded_decimal(n, width).len() == width,
        forall|i: int|
            0 <= i < width ==> is_decimal(#[trigger] padded_decimal(n, width)[i]),
    decreases width,
{
    if width > 0 {
        padded_decimal_digits(n / 10, (width - 1) as nat);
    }
}

/// The two hexadecimal digits of one byte.
pub open spec fn byte_hex(b: u8) -> Seq<char> {
    seq![digit(b as int / 16), digit(b as int % 16)]
}

/// The hexadecimal notation of a byte sequence, two digits a byte.
pub open spec fn bytes_hex(bytes: Seq<u8>) -> Seq<char>
    decreases bytes.len(),
{
    if bytes.len() == 0 {
        Seq::empty()
    } else {
        bytes_hex(bytes.drop_last()) + byte_hex(bytes.last())
    }
}

/// Appends the two hexadecimal digits of `b`.
pub fn push_byte_hex(s: &mut String, b: u8)
    ensures
        final(s)@ == old(s)@ + byte_hex(b),
{
    s.push(digit_char(b / 16));
    s.push(digit_char(b % 16));
    assert(s@ == old(s)@ + byte_hex(b));
}

/// Appends the hexadecimal notation of `bytes[from..to]`.
pub fn push_hex_range(s: &mut String, bytes: &[u8], from: usize, to: usize)
    requires
        from <= to <= bytes@.len(),
    ensures
        final(s)@ == old(s)@ + bytes_hex(bytes@.subrange(from as int, to as int)),
{
    let mut i: usize = from;
    let ghost start = s@;
    while i < to
        invariant
            from <= i <= to <= bytes@.len(),
            s@ == start + bytes_hex(bytes@.subrange(from as int, i as int)),
        decreases to - i,
    {
        let ghost before = bytes@.subrange(from as int, i as int);
        push_byte_hex(s, bytes[i]);
        i = i + 1;
        assert(bytes@.subrange(from as int, i as int).drop_last() == before);
    }
}

/// What is trimmed off a text is the space at its ends and nothing else: in between stands what is
/// left, which begins and ends with something that is no space.
pub proof fn only_space_is_trimmed(s: Seq<char>) -> (place: int)
    ensures
        0 <= place && place + trimmed(s).len() <= s.len(),
        s.subrange(place, place + trimmed(s).len()) == trimmed(s),
        forall|i: int| 0 <= i < place ==> white_space(#[trigger] s[i]),
        forall|i: int| place + trimmed(s).len() <= i < s.len() ==> white_space(#[trigger] s[i]),
        trimmed(s).len() > 0 ==> !white_space(trimmed(s)[0]) && !white_space(trimmed(s).last()),
{
    let t = without_leading_space(s);
    leading_space_is_all_gone(s);
    trailing_space_is_all_gone(t);
    let place = s.len() - t.len();
    let u = trimmed(s);
    assert(s.subrange(place as int, place + u.len()) =~= u) by {
        assert forall|i: int| 0 <= i < u.len() implies s[place + i] == u[i] by {
            assert(s.skip(place as int)[i] == t[i]);
            assert(t.take(u.len() as int)[i] == u[i]);
        }
    }
    assert forall|i: int| place + u.len() <= i < s.len() implies white_space(#[trigger] s[i]) by {
        assert(s.skip(place as int)[i - place] == t[i - place]);
        assert(white_space(t[i - place]));
    }
    if u.len() > 0 {
        assert(t.take(u.len() as int)[0] == u[0]);
    }
    place as int
}

/// What is left without the leading space is an end of the text, behind nothing but space.
proof fn leading_space_is_all_gone(s: Seq<char>)
    ensures
        ({
            let t = without_leading_space(s);
            &&& t.len() <= s.len()
            &&& s.skip(s.len() - t.len()) == t
            &&& forall|i: int| 0 <= i < s.len() - t.len() ==> white_space(#[trigger] s[i])
            &&& t.len() > 0 ==> !white_space(t[0])
        }),
    decreases s.len(),
{
    let t = without_leading_space(s);
    if s.len() > 0 && white_space(s[0]) {
        let r = s.drop_first();
        leading_space_is_all_gone(r);
        assert(s.skip(s.len() - t.len()) =~= r.skip(r.len() - t.len()));
        assert forall|i: int| 0 <= i < s.len() - t.len() implies white_space(#[trigger] s[i]) by {
            if i > 0 {
                assert(s[i] == r[i - 1]);
            }
        }
    } else {
        assert(s.skip(0) =~= s);
    }
}

/// What is left without the trailing space is a beginning of the text, before nothing but space.
proof fn trailing_space_is_all_gone(s: Seq<char>)
    ensures
        ({
            let t = without_trailing_space(s);
            &&& t.len() <= s.len()
            &&& s.take(t.len() as int) == t
            &&& forall|i: int| t.len() <= i < s.len() ==> white_space(#[trigger] s[i])
            &&& t.len() > 0 ==> !white_space(t.last())
        }),
    decreases s.len(),
{
    let t = without_trailing_space(s);
    if s.len() > 0 && white_space(s.last()) {
        let r = s.drop_last();
        trailing_space_is_all_gone(r);
        assert(s.take(t.len() as int) =~= r.take(t.len() as int));
        assert forall|i: int| t.len() <= i < s.len() implies white_space(#[trigger] s[i]) by {
            if i < s.len() - 1 {
                assert(s[i] == r[i]);
            }
        }
    } else {
        assert(s.take(s.len() as int) =~= s);
    }
}

} // verus!
