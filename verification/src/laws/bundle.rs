//! The public keys of a contact on their way from the server to the messaging core.

use vstd::prelude::*;

use crate::grpc::{bundle_fields, JsonView, PreKeyBundle};

verus! {

/// Whether a JSON object has a field, and under that name nothing else.
pub open spec fn has_field(
    fields: Seq<(Seq<char>, JsonView)>,
    name: Seq<char>,
    value: JsonView,
) -> bool {
    &&& fields.contains((name, value))
    &&& forall|i: int| 0 <= i < fields.len() && (#[trigger] fields[i]).0 == name ==> fields[i].1 == value
}

/// The nine names of a bundle differ.
proof fn names_differ(b: PreKeyBundle)
    ensures
        bundle_fields(b).len() == 9,
        forall|i: int, j: int|
            0 <= i < j < 9 ==> (#[trigger] bundle_fields(b)[i]).0 != (#[trigger] bundle_fields(b)[j]).0,
{
    reveal_strlit("identity_public");
    reveal_strlit("signed_prekey_public");
    reveal_strlit("signature");
    reveal_strlit("verifying_key");
    reveal_strlit("suite_id");
    reveal_strlit("one_time_prekey_public");
    reveal_strlit("one_time_prekey_id");
    reveal_strlit("spk_uploaded_at");
    reveal_strlit("spk_rotation_epoch");
    let f = bundle_fields(b);
    assert(f[0].0[0] == 'i' && f[7].0[0] == 's' && f[6].0[0] == 'o' && f[8].0[0] == 's');
    assert(f[0].0.len() == 15 && f[1].0.len() == 20 && f[2].0.len() == 9 && f[3].0.len() == 13
        && f[4].0.len() == 8 && f[5].0.len() == 22 && f[6].0.len() == 18 && f[7].0.len() == 15
        && f[8].0.len() == 18);
}

/// Each key of a bundle stands under its own name, byte for byte. What may be missing is null exactly
/// where the server sent none.
pub proof fn bundle_keeps_every_key(b: PreKeyBundle)
    ensures
        has_field(bundle_fields(b), "identity_public"@, JsonView::Bytes(b.identity_key@)),
        has_field(bundle_fields(b), "signed_prekey_public"@, JsonView::Bytes(b.signed_pre_key@)),
        has_field(bundle_fields(b), "signature"@, JsonView::Bytes(b.signed_pre_key_signature@)),
        has_field(bundle_fields(b), "verifying_key"@, JsonView::Bytes(b.verifying_key@)),
        has_field(bundle_fields(b), "suite_id"@, JsonView::Number(1)),
        b.one_time_pre_key is None <==> has_field(
            bundle_fields(b),
            "one_time_prekey_public"@,
            JsonView::Null,
        ),
        b.one_time_pre_key matches Some(k) ==> has_field(
            bundle_fields(b),
            "one_time_prekey_public"@,
            JsonView::Bytes(k@),
        ),
        b.one_time_pre_key_id is None <==> has_field(
            bundle_fields(b),
            "one_time_prekey_id"@,
            JsonView::Null,
        ),
        b.one_time_pre_key_id matches Some(id) ==> has_field(
            bundle_fields(b),
            "one_time_prekey_id"@,
            JsonView::Number(id as u64),
        ),
        b.spk_uploaded_at >= 0 ==> has_field(
            bundle_fields(b),
            "spk_uploaded_at"@,
            JsonView::Number(b.spk_uploaded_at as u64),
        ),
        has_field(
            bundle_fields(b),
            "spk_rotation_epoch"@,
            JsonView::Number(b.spk_rotation_epoch as u64),
        ),
{
    names_differ(b);
    let f = bundle_fields(b);
    assert forall|i: int| 0 <= i < 9 implies has_field(f, (#[trigger] f[i]).0, f[i].1) by {
        assert(f[i] == (f[i].0, f[i].1));
    }
    assert(has_field(f, f[0].0, f[0].1));
    assert(has_field(f, f[1].0, f[1].1));
    assert(has_field(f, f[2].0, f[2].1));
    assert(has_field(f, f[3].0, f[3].1));
    assert(has_field(f, f[4].0, f[4].1));
    assert(has_field(f, f[5].0, f[5].1));
    assert(has_field(f, f[6].0, f[6].1));
    assert(has_field(f, f[7].0, f[7].1));
    assert(has_field(f, f[8].0, f[8].1));
}

/// Nothing of a bundle is lost: bundles whose fields are equal have equal contents.
pub proof fn bundles_with_equal_fields_are_equal(a: PreKeyBundle, b: PreKeyBundle)
    requires
        bundle_fields(a) == bundle_fields(b),
    ensures
        a.identity_key@ == b.identity_key@,
        a.signed_pre_key@ == b.signed_pre_key@,
        a.signed_pre_key_signature@ == b.signed_pre_key_signature@,
        a.verifying_key@ == b.verifying_key@,
        a.one_time_pre_key is Some <==> b.one_time_pre_key is Some,
        a.one_time_pre_key matches Some(k) ==> k@ == (b.one_time_pre_key->0)@,
        a.one_time_pre_key_id == b.one_time_pre_key_id,
        a.spk_uploaded_at == b.spk_uploaded_at,
        a.spk_rotation_epoch == b.spk_rotation_epoch,
{
    let f = bundle_fields(a);
    let g = bundle_fields(b);
    assert(f[0].1 == g[0].1);
    assert(f[1].1 == g[1].1);
    assert(f[2].1 == g[2].1);
    assert(f[3].1 == g[3].1);
    assert(f[5].1 == g[5].1);
    assert(f[6].1 == g[6].1);
    assert(f[7].1 == g[7].1);
    assert(f[8].1 == g[8].1);
    let (x, y) = (a.spk_uploaded_at, b.spk_uploaded_at);
    assert(x as u64 == y as u64 ==> x == y) by (bit_vector);
}

} // verus!
