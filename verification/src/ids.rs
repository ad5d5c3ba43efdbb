//! Message IDs.

use vstd::prelude::*;

use crate::crypto::random_bytes;
use crate::text::{byte_hex, bytes_hex, digit, is_lower_hex, push_hex_range};

verus! {

/// Whether a text is a random UUID (version 4) in lower case: 8, 4, 4, 4 and 12 hexadecimal digits
/// with dashes between them, of which the version digit is `4` and the variant digit one of `8`,
/// `9`, `a` and `b`.
pub open spec fn is_uuid_v4(t: Seq<char>) -> bool {
    &&& t.len() == 36
    &&& forall|i: int|
        0 <= i < 36 ==> if i == 8 || i == 13 || i == 18 || i == 23 {
            #[trigger] t[i] == '-'
        } else {
            is_lower_hex(t[i])
        }
    &&& t[14] == '4'
    &&& t[19] == '8' || t[19] == '9' || t[19] == 'a' || t[19] == 'b'
}

/// The bytes with the version and the variant of a random UUID put in.
pub open spec fn marked(b: Seq<u8>) -> Seq<u8> {
    b.update(6, (0x40 + b[6] % 16) as u8).update(8, (0x80 + b[8] % 64) as u8)
}

/// The notation of a UUID.
pub open spec fn uuid_text(b: Seq<u8>) -> Seq<char> {
    bytes_hex(b.subrange(0, 4)) + "-"@ + bytes_hex(b.subrange(4, 6)) + "-"@ + bytes_hex(
        b.subrange(6, 8),
    ) + "-"@ + bytes_hex(b.subrange(8, 10)) + "-"@ + bytes_hex(b.subrange(10, 16))
}

/// The random UUID with the given 16 bytes of randomness.
pub fn uuid_from(bytes: &Vec<u8>) -> (r: String)
    requires
        bytes@.len() == 16,
    ensures
        r@ == uuid_text(marked(bytes@)),
{
    let mut b: Vec<u8> = Vec::new();
    b.extend_from_slice(bytes.as_slice());
    assert(b@ == bytes@);
    let version: u8 = 0x40 + b[6] % 16;
    let variant: u8 = 0x80 + b[8] % 64;
    b.set(6, version);
    b.set(8, variant);
    assert(b@ == marked(bytes@));
    let mut r = String::new();
    push_hex_range(&mut r, b.as_slice(), 0, 4);
    r.append("-");
    push_hex_range(&mut r, b.as_slice(), 4, 6);
    r.append("-");
    push_hex_range(&mut r, b.as_slice(), 6, 8);
    r.append("-");
    push_hex_range(&mut r, b.as_slice(), 8, 10);
    r.append("-");
    push_hex_range(&mut r, b.as_slice(), 10, 16);
    assert(r@ == uuid_text(marked(bytes@)));
    r
}

/// The digits of a byte sequence, one by one.
pub proof fn hex_digits(b: Seq<u8>)
    ensures
        bytes_hex(b).len() == 2 * b.len(),
        forall|i: int|
            0 <= i < b.len() ==> #[trigger] bytes_hex(b)[2 * i] == digit(b[i] as int / 16),
        forall|i: int|
            0 <= i < b.len() ==> #[trigger] bytes_hex(b)[2 * i + 1] == digit(b[i] as int % 16),
        forall|k: int| 0 <= k < 2 * b.len() ==> is_lower_hex(#[trigger] bytes_hex(b)[k]),
    decreases b.len(),
{
    if b.len() > 0 {
        hex_digits(b.drop_last());
        let h = bytes_hex(b.drop_last());
        assert(bytes_hex(b) == h + byte_hex(b.last()));
        assert forall|i: int| 0 <= i < b.len() implies #[trigger] bytes_hex(b)[2 * i] == digit(
            b[i] as int / 16,
        ) by {
            if i < b.len() - 1 {
                assert(h[2 * i] == digit(b.drop_last()[i] as int / 16));
            }
        }
        assert forall|i: int| 0 <= i < b.len() implies #[trigger] bytes_hex(b)[2 * i + 1]
            == digit(b[i] as int % 16) by {
            if i < b.len() - 1 {
                assert(h[2 * i + 1] == digit(b.drop_last()[i] as int % 16));
            }
        }
        assert forall|k: int| 0 <= k < 2 * b.len() implies is_lower_hex(
            #[trigger] bytes_hex(b)[k],
        ) by {
            if k < 2 * (b.len() - 1) {
                assert(bytes_hex(b)[k] == h[k]);
            }
        }
    }
}

/// Whatever the randomness, the result is a random UUID.
pub proof fn uuid_is_well_formed(bytes: Seq<u8>)
    requires
        bytes.len() == 16,
    ensures
        is_uuid_v4(uuid_text(marked(bytes))),
{
    reveal_strlit("-");
    let b = marked(bytes);
    let (p, q, r, s, t) = (
        b.subrange(0, 4),
        b.subrange(4, 6),
        b.subrange(6, 8),
        b.subrange(8, 10),
        b.subrange(10, 16),
    );
    hex_digits(p);
    hex_digits(q);
    hex_digits(r);
    hex_digits(s);
    hex_digits(t);
    let u = uuid_text(b);
    assert(u.len() == 36);
    assert(u[14] == bytes_hex(r)[2 * 0int]);
    assert(r[0] as int / 16 == 4);
    assert(u[19] == bytes_hex(s)[2 * 0int]);
    assert(8 <= s[0] as int / 16 <= 11);
    assert forall|i: int| 0 <= i < 36 implies if i == 8 || i == 13 || i == 18 || i == 23 {
        #[trigger] u[i] == '-'
    } else {
        is_lower_hex(u[i])
    } by {
        if i < 8 {
            assert(u[i] == bytes_hex(p)[i]);
        } else if 8 < i < 13 {
            assert(u[i] == bytes_hex(q)[i - 9]);
        } else if 13 < i < 18 {
            assert(u[i] == bytes_hex(r)[i - 14]);
        } else if 18 < i < 23 {
            assert(u[i] == bytes_hex(s)[i - 19]);
        } else if 23 < i {
            assert(u[i] == bytes_hex(t)[i - 24]);
        }
    }
}

/// A random UUID.
pub fn uuid_v4() -> (r: String)
    ensures
        is_uuid_v4(r@),
{
    let bytes = random_bytes(16);
    proof {
        uuid_is_well_formed(bytes@);
    }
    uuid_from(&bytes)
}

/// Calls `uuid::Uuid::new_v4` and writes the UUID out. Nothing is known of it but its form.
#[verifier::external_body]
fn new_uuid() -> (r: String)
    ensures
        is_uuid_v4(r@),
{
    uuid::Uuid::new_v4().to_string()
}

/// The ID of a new message of this client.
pub fn generate_message_id() -> (r: String)
    ensures
        is_uuid_v4(r@),
{
    new_uuid()
}

} // verus!
