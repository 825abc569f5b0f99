//! Identifiers for traces and segments.
use vstd::prelude::*;

verus! {

/// A lower-case hexadecimal digit.
pub open spec fn is_lower_hex(c: char) -> bool {
    ('0' <= c && c <= '9') || ('a' <= c && c <= 'f')
}

/// A fresh random identifier: `uuid::Uuid::new_v4()` in its simple form
/// (`Uuid::as_simple`, written with `ToString`). Its contract: the text has
/// `uuid::fmt::Simple::LENGTH` (32) characters, each a lower-case hexadecimal
/// digit (`Display` of `Simple` goes through `LowerHex`, `encode_lower`). The
/// value is random and nothing else is stated of it; `new_v4` panics where the system gives no random
/// bytes, which no precondition can rule out.
#[verifier::external_body]
pub(crate) fn generate_id() -> (r: String)
    ensures
        r@.len() == 32,
        forall|i: int| 0 <= i < r@.len() ==> is_lower_hex(#[trigger] r@[i]),
{
    uuid::Uuid::new_v4().as_simple().to_string()
}

/// `id` is an identifier that a call of the random generator gave.
pub closed spec fn fresh_id(id: Seq<char>) -> bool {
    exists|s: String| #[trigger] call_ensures(generate_id, (), s) && s@ == id
}

/// A fresh random identifier: 32 lower-case hexadecimal digits.
pub(crate) fn new_id() -> (r: String)
    ensures
        fresh_id(r@),
        r@.len() == 32,
        forall|i: int| 0 <= i < r@.len() ==> is_lower_hex(#[trigger] r@[i]),
{
    let generate = generate_id;
    let r = generate();
    assert(call_ensures(generate_id, (), r));
    r
}

} // verus!
