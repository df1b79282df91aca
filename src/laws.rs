//! Laws that relate the operations of a collection to one another.

use crate::collection::{
    after_delete, after_update, has_id, lemma_position_is_index, lookup, position, unique_ids,
    Entry,
};
use crate::object_id::{hex_text, hex_value, id_bytes_of, is_hex_digit, is_id_text, lower_digit};
use crate::student::{PatchView, StudentFields};
use vstd::prelude::*;

verus! {

/// A record inserted under a fresh identifier is listed with its fields and
/// that identifier, after every record that was there before.
pub proof fn law_created_is_listed(v: Seq<Entry>, k: Seq<u8>, f: StudentFields)
    requires
        unique_ids(v),
        !has_id(v, k),
    ensures
        unique_ids(v.push((k, f))),
        v.push((k, f)).len() == v.len() + 1,
        v.push((k, f))[v.len() as int] == (k, f),
        forall|i: int| 0 <= i < v.len() ==> #[trigger] v.push((k, f))[i] == v[i],
{
    let w = v.push((k, f));
    assert forall|i: int, j: int|
        0 <= i < w.len() && 0 <= j < w.len() && i != j implies #[trigger] w[i].0 != #[trigger] w[j].0 by {
        if i == v.len() {
            assert(w[j] == v[j]);
        } else if j == v.len() {
            assert(w[i] == v[i]);
        } else {
            assert(w[i] == v[i] && w[j] == v[j]);
        }
    }
}

/// A record inserted under a fresh identifier is found under it, with the
/// fields that were stored.
pub proof fn law_get_after_create(v: Seq<Entry>, k: Seq<u8>, f: StudentFields)
    requires
        unique_ids(v),
        !has_id(v, k),
    ensures
        lookup(v.push((k, f)), k) == Some(f),
{
    law_created_is_listed(v, k, f);
    lemma_position_is_index(v.push((k, f)), v.len() as int);
}

/// The value of the lower-case digit for `d` is `d`.
proof fn lemma_digit_value(d: int)
    requires
        0 <= d < 16,
    ensures
        is_hex_digit(lower_digit(d)),
        hex_value(lower_digit(d)) == d,
{
    let ds = seq!['0', '1', '2', '3', '4', '5', '6', '7', '8', '9', 'a', 'b', 'c', 'd', 'e', 'f'];
    assert(lower_digit(d) == ds[d]);
    assert(ds[0] == '0' && ds[1] == '1' && ds[2] == '2' && ds[3] == '3');
    assert(ds[4] == '4' && ds[5] == '5' && ds[6] == '6' && ds[7] == '7');
    assert(ds[8] == '8' && ds[9] == '9' && ds[10] == 'a' && ds[11] == 'b');
    assert(ds[12] == 'c' && ds[13] == 'd' && ds[14] == 'e' && ds[15] == 'f');
}

/// The text of an identifier reads back as the same identifier.
pub proof fn law_id_text_round_trip(b: Seq<u8>)
    requires
        b.len() == 12,
    ensures
        is_id_text(hex_text(b)),
        id_bytes_of(hex_text(b)) == b,
{
    let t = hex_text(b);
    assert forall|i: int| 0 <= i < t.len() implies is_hex_digit(#[trigger] t[i]) by {
        if i % 2 == 0 {
            lemma_digit_value(b[i / 2] as int / 16);
        } else {
            lemma_digit_value(b[i / 2] as int % 16);
        }
    }
    assert forall|k: int| 0 <= k < 12 implies #[trigger] id_bytes_of(t)[k] == b[k] by {
        let x = b[k] as int;
        assert((2 * k) / 2 == k && (2 * k) % 2 == 0);
        assert((2 * k + 1) / 2 == k && (2 * k + 1) % 2 == 1);
        lemma_digit_value(x / 16);
        lemma_digit_value(x % 16);
        assert(hex_value(t[2 * k]) * 16 + hex_value(t[2 * k + 1]) == x);
    }
    assert(id_bytes_of(t) =~= b);
}

/// Setting the age alone keeps the name, the subject and every identifier.
pub proof fn law_age_only_update(v: Seq<Entry>, k: Seq<u8>, age: u8)
    requires
        unique_ids(v),
        has_id(v, k),
    ensures
        ({
            let w = after_update(v, k, PatchView { name: None, age: Some(age), subject: None });
            let old_f = lookup(v, k).unwrap();
            &&& lookup(w, k) == Some(StudentFields { name: old_f.name, age, subject: old_f.subject })
            &&& w.len() == v.len()
            &&& forall|i: int| 0 <= i < v.len() ==> #[trigger] w[i].0 == v[i].0
            &&& unique_ids(w)
        }),
{
    let p = position(v, k);
    let w = after_update(v, k, PatchView { name: None, age: Some(age), subject: None });
    assert(v[p].0 == k);
    assert forall|i: int, j: int|
        0 <= i < w.len() && 0 <= j < w.len() && i != j implies #[trigger] w[i].0 != #[trigger] w[j].0 by {
        assert(w[i].0 == v[i].0 && w[j].0 == v[j].0);
    }
    lemma_position_is_index(w, p);
}

/// After a delete, the identifier finds nothing.
pub proof fn law_get_after_delete(v: Seq<Entry>, k: Seq<u8>)
    requires
        unique_ids(v),
    ensures
        lookup(after_delete(v, k), k) is None,
{
    if has_id(v, k) {
        let p = position(v, k);
        let w = after_delete(v, k);
        assert(v[p].0 == k);
        assert forall|j: int| 0 <= j < w.len() implies #[trigger] w[j].0 != k by {
            if j < p {
                assert(w[j] == v[j]);
            } else {
                assert(w[j] == v[j + 1]);
            }
        }
    }
}

/// A record inserted under a fresh identifier is found again through the
/// text of that identifier.
pub proof fn law_get_by_text_after_create(v: Seq<Entry>, k: Seq<u8>, f: StudentFields)
    requires
        unique_ids(v),
        !has_id(v, k),
        k.len() == 12,
    ensures
        is_id_text(hex_text(k)),
        lookup(v.push((k, f)), id_bytes_of(hex_text(k))) == Some(f),
{
    law_id_text_round_trip(k);
    law_get_after_create(v, k, f);
}

} // verus!
