//! Converters for sentinel-terminated native buffers.
//!
//! The native interface hands back three buffer shapes whose length is not
//! given explicitly: a null-terminated byte string, a pointer array
//! terminated by a null entry, and an integer array terminated by the
//! sentinel value -1.  The binding layer snapshots such a buffer into owned
//! host values (a null pointer becomes `None`); the functions here turn a
//! snapshot into the owned result, stopping exactly at the first sentinel,
//! and their contracts pin that result down completely.

use vstd::prelude::*;

use crate::error::TesseractError;

verus! {

/// What `str::from_utf8` decodes a byte sequence to: the character sequence
/// when the bytes are valid UTF-8, `None` otherwise.
pub uninterp spec fn utf8_decoded(bytes: Seq<u8>) -> Option<Seq<char>>;

/// Relies on `str::from_utf8`: it succeeds exactly on valid UTF-8, and its
/// result depends on the bytes alone.
#[verifier::external_body]
fn decode_utf8(bytes: &Vec<u8>) -> (r: Option<String>)
    ensures
        r is Some <==> utf8_decoded(bytes@) is Some,
        r matches Some(s) ==> Some(s@) == utf8_decoded(bytes@),
{
    match std::str::from_utf8(bytes.as_slice()) {
        Ok(s) => Some(s.to_owned()),
        Err(_) => None,
    }
}

/// `r` is the contents of the sentinel-terminated integer array `s`: the
/// longest prefix of `s` that contains no -1.
pub open spec fn is_sentinel_prefix(s: Seq<i32>, r: Seq<i32>) -> bool {
    &&& r.len() <= s.len()
    &&& forall|i: int| 0 <= i < r.len() ==> r[i] == s[i] && s[i] != -1i32
    &&& r.len() < s.len() ==> s[r.len() as int] == -1i32
}

/// Copies the entries of a sentinel-terminated integer array out of a
/// snapshot: every entry before the first -1, and never the -1 itself.
/// A snapshot whose first entry is already the sentinel yields an empty
/// sequence.
pub fn extract_int_array(values: &Vec<i32>) -> (r: Vec<i32>)
    ensures
        is_sentinel_prefix(values@, r@),
{
    let mut out: Vec<i32> = Vec::new();
    let mut i: usize = 0;
    while i < values.len()
        invariant
            i <= values@.len(),
            out@.len() == i,
            forall|j: int| 0 <= j < i ==> out@[j] == values@[j] && values@[j] != -1i32,
        decreases values@.len() - i,
    {
        let v = values[i];
        if v == -1i32 {
            return out;
        }
        out.push(v);
        i = i + 1;
    }
    out
}

/// The contents of a sentinel-terminated integer array are uniquely
/// determined by the snapshot: any two sequences that both satisfy
/// `is_sentinel_prefix` for the same snapshot are equal.  In particular,
/// converting the same snapshot twice gives the same result.
pub proof fn lemma_sentinel_prefix_unique(s: Seq<i32>, r1: Seq<i32>, r2: Seq<i32>)
    requires
        is_sentinel_prefix(s, r1),
        is_sentinel_prefix(s, r2),
    ensures
        r1 == r2,
{
    if r1.len() < r2.len() {
        assert(s[r1.len() as int] == -1i32);
        assert(r2[r1.len() as int] == s[r1.len() as int] && s[r1.len() as int] != -1i32);
    }
    if r2.len() < r1.len() {
        assert(s[r2.len() as int] == -1i32);
        assert(r1[r2.len() as int] == s[r2.len() as int] && s[r2.len() as int] != -1i32);
    }
    assert(r1 =~= r2);
}

/// Somewhere before the first null entry of the pointer-array snapshot
/// stands an entry whose bytes are not valid UTF-8.
pub open spec fn has_invalid_entry(entries: Seq<Option<Vec<u8>>>) -> bool {
    exists|k: int|
        0 <= k < entries.len() && (forall|j: int| 0 <= j < k ==> entries[j] is Some) && ((
        #[trigger] entries[k]) matches Some(b) && utf8_decoded(b@) is None)
}

/// `r` is the decoded contents of the null-terminated pointer array
/// `entries`: one string per entry before the first null entry, in order.
pub open spec fn is_string_prefix(entries: Seq<Option<Vec<u8>>>, r: Seq<String>) -> bool {
    &&& r.len() <= entries.len()
    &&& forall|i: int|
        0 <= i < r.len() ==> ((#[trigger] entries[i]) matches Some(b) && utf8_decoded(b@)
            == Some(r[i]@))
    &&& r.len() < entries.len() ==> entries[r.len() as int] is None
}

/// Copies the entries of a null-terminated pointer array out of a snapshot:
/// every entry before the first null entry is decoded, in order, and the
/// null entry itself is never part of the result.  A snapshot whose first
/// entry is already null yields an empty sequence of strings.  An entry
/// that is not valid UTF-8 fails the whole conversion.
pub fn extract_string_array(entries: &Vec<Option<Vec<u8>>>) -> (r: Result<
    Vec<String>,
    TesseractError,
>)
    ensures
        r is Err <==> has_invalid_entry(entries@),
        r matches Err(e) ==> e == TesseractError::Utf8Error,
        r matches Ok(v) ==> is_string_prefix(entries@, v@),
{
    let mut out: Vec<String> = Vec::new();
    let mut i: usize = 0;
    while i < entries.len()
        invariant
            i <= entries@.len(),
            out@.len() == i,
            forall|j: int|
                0 <= j < i ==> ((#[trigger] entries@[j]) matches Some(b) && utf8_decoded(b@)
                    == Some(out@[j]@)),
        decreases entries@.len() - i,
    {
        match &entries[i] {
            Option::None => {
                proof {
                    let ghost pos = i as int;
                    if has_invalid_entry(entries@) {
                        let k = choose|k: int|
                            0 <= k < entries@.len() && (forall|j: int|
                                0 <= j < k ==> entries@[j] is Some) && ((#[trigger] entries@[k])
                                matches Some(b) && utf8_decoded(b@) is None);
                        if k < pos {
                            assert(entries@[k] matches Some(b) && utf8_decoded(b@) == Some(
                                out@[k]@,
                            ));
                        } else if k == pos {
                            assert(entries@[pos] is None);
                        } else {
                            assert(entries@[pos] is Some);
                        }
                    }
                }
                return Ok(out);
            },
            Option::Some(bytes) => {
                match decode_utf8(bytes) {
                    Option::None => {
                        return Err(TesseractError::Utf8Error);
                    },
                    Option::Some(s) => {
                        out.push(s);
                    },
                }
            },
        }
        i = i + 1;
    }
    Ok(out)
}

/// The decoded contents of a null-terminated pointer array are uniquely
/// determined by the snapshot: any two results that both satisfy
/// `is_string_prefix` for the same snapshot agree in length and, entry by
/// entry, in their characters.
pub proof fn lemma_string_prefix_unique(
    entries: Seq<Option<Vec<u8>>>,
    r1: Seq<String>,
    r2: Seq<String>,
)
    requires
        is_string_prefix(entries, r1),
        is_string_prefix(entries, r2),
    ensures
        r1.len() == r2.len(),
        forall|i: int| 0 <= i < r1.len() ==> r1[i]@ == r2[i]@,
{
    if r1.len() < r2.len() {
        assert(entries[r1.len() as int] is None);
        assert(entries[r1.len() as int] is Some);
    }
    if r2.len() < r1.len() {
        assert(entries[r2.len() as int] is None);
        assert(entries[r2.len() as int] is Some);
    }
    assert forall|i: int| 0 <= i < r1.len() implies r1[i]@ == r2[i]@ by {
        assert(entries[i] matches Some(b) && utf8_decoded(b@) == Some(r1[i]@));
        assert(entries[i] matches Some(b) && utf8_decoded(b@) == Some(r2[i]@));
    }
}

/// Copies a single null-terminated byte string out of a snapshot: a null
/// pointer (`None`) fails with `on_null`, bytes that are not valid UTF-8
/// fail with the invalid-encoding error, and valid bytes become the owned
/// decoded string.
pub fn extract_string(buffer: &Option<Vec<u8>>, on_null: TesseractError) -> (r: Result<
    String,
    TesseractError,
>)
    ensures
        buffer is None ==> r == Err::<String, TesseractError>(on_null),
        buffer matches Some(b) ==> {
            &&& utf8_decoded(b@) is None ==> r == Err::<String, TesseractError>(
                TesseractError::Utf8Error,
            )
            &&& utf8_decoded(b@) matches Some(cs) ==> (r matches Ok(s) && s@ == cs)
        },
{
    match buffer {
        Option::None => Err(on_null),
        Option::Some(bytes) => {
            match decode_utf8(bytes) {
                Option::None => Err(TesseractError::Utf8Error),
                Option::Some(s) => Ok(s),
            }
        },
    }
}

} // verus!
