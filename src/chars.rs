use vstd::prelude::*;

verus! {

/// Relies on std's `FromIterator<char> for String`: collecting chars keeps them in order.
#[verifier::external_body]
pub(crate) fn string_from_chars(v: &Vec<char>) -> (r: String)
    ensures
        r@ == v@,
{
    v.iter().collect()
}

} // verus!
