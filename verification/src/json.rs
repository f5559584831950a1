//! The JSON that the stores hold: reading an unsigned integer member out of a
//! stored JSON document, and writing a record of two unsigned integers.
use vstd::prelude::*;
use crate::text::decimal;

verus! {

/// What `serde_json` reads at member `field` of the JSON document `bytes`:
/// `None` where `bytes` is not a JSON document; `Some(None)` where the
/// document is not an object, lacks the member, or the member is not an
/// unsigned integer that fits in 64 bits; `Some(Some(n))` otherwise.
pub uninterp spec fn json_u64_member(bytes: Seq<u8>, field: Seq<char>) -> Option<Option<u64>>;

/// Whether `c` may stand in a plain member name: a lowercase ASCII letter or `_`.
pub open spec fn plain_char(c: char) -> bool {
    (97 <= (c as u32) && (c as u32) <= 122) || c == '_'
}

/// Whether every character of `name` is plain.
pub open spec fn plain_chars(name: Seq<char>) -> bool
    decreases name.len(),
{
    name.len() == 0 || (plain_char(name[0]) && plain_chars(name.drop_first()))
}

/// A plain member name: non-empty, lowercase ASCII letters and `_`; JSON
/// writes it without escapes.
pub open spec fn plain_name(name: Seq<char>) -> bool {
    name.len() > 0 && plain_chars(name)
}

/// Whether `a` comes strictly before `b` in character (for ASCII: byte) order.
pub open spec fn name_before(a: Seq<char>, b: Seq<char>) -> bool
    decreases a.len(),
{
    if a.len() == 0 {
        b.len() > 0
    } else if b.len() == 0 {
        false
    } else if a[0] != b[0] {
        (a[0] as u32) < (b[0] as u32)
    } else {
        name_before(a.drop_first(), b.drop_first())
    }
}

/// Two plain member names in strictly increasing order.
pub open spec fn ordered_names(a: Seq<char>, b: Seq<char>) -> bool {
    plain_name(a) && plain_name(b) && name_before(a, b)
}

/// One member of a compact JSON object: `"name":value`.
pub open spec fn member_text(name: Seq<char>, value: u64) -> Seq<char> {
    "\""@ + name + "\":"@ + decimal(value as nat)
}

/// The compact JSON text of the object with members `a`, `b` (in that order)
/// holding `x`, `y`.
pub open spec fn record_text(a: Seq<char>, x: u64, b: Seq<char>, y: u64) -> Seq<char> {
    "{"@ + member_text(a, x) + ","@ + member_text(b, y) + "}"@
}

/// The bytes of an ASCII text.
pub open spec fn ascii_bytes(text: Seq<char>) -> Seq<u8> {
    text.map_values(|c: char| c as u8)
}

/// The bytes of the compact JSON object with members `a`, `b`.
pub open spec fn record_bytes(a: Seq<char>, x: u64, b: Seq<char>, y: u64) -> Seq<u8> {
    ascii_bytes(record_text(a, x, b, y))
}

/// Parses `bytes` with `serde_json::from_slice` into a `serde_json::Value` and
/// reads `value[field].as_u64()`. The contract ties the result to
/// `json_u64_member`, and states that an object that `u64_record_json`
/// writes reads back with the integers it was written with. The text of the
/// parse error is not stated.
#[verifier::external_body]
pub(crate) fn json_u64_field(bytes: &[u8], field: &str) -> (res: Result<Option<u64>, String>)
    ensures
        res is Ok <==> json_u64_member(bytes@, field@) is Some,
        res matches Ok(v) ==> json_u64_member(bytes@, field@) == Some(v),
        forall|a: Seq<char>, x: u64, b: Seq<char>, y: u64|
            #![trigger record_bytes(a, x, b, y)]
            bytes@ == record_bytes(a, x, b, y) && ordered_names(a, b) ==> {
                &&& field@ == a ==> res == Ok::<Option<u64>, String>(Some(x))
                &&& field@ == b ==> res == Ok::<Option<u64>, String>(Some(y))
            },
{
    match serde_json::from_slice::<serde_json::Value>(bytes) {
        Ok(value) => Ok(value[field].as_u64()),
        Err(e) => Err(e.to_string()),
    }
}

/// Calls `serde_json::to_vec` on the JSON object `{a: x, b: y}`. Without
/// `serde_json`'s `preserve_order` feature (off in this build: no `indexmap`
/// in the lock file) its maps are sorted, so with the names in increasing
/// order and its compact writer the bytes are `{"a":x,"b":y}` with the
/// integers in decimal; plain names need no escapes. The call succeeds: the
/// writer is a `Vec`, whose writes do not fail, and an object with string
/// keys and integer members serialises without error. The clause on the
/// bytes would not hold in a build that turned `preserve_order` on.
#[verifier::external_body]
pub(crate) fn u64_record_json(a: &str, x: u64, b: &str, y: u64) -> (res: Result<Vec<u8>, String>)
    requires
        ordered_names(a@, b@),
    ensures
        res is Ok,
        res matches Ok(bytes) ==> bytes@ == record_bytes(a@, x, b@, y),
{
    let mut record = serde_json::Map::new();
    record.insert(a.to_string(), serde_json::Value::from(x));
    record.insert(b.to_string(), serde_json::Value::from(y));
    serde_json::to_vec(&serde_json::Value::Object(record)).map_err(|e| e.to_string())
}

} // verus!
