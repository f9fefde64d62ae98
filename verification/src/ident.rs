use vstd::prelude::*;

verus! {

/// `uuid::Uuid::new_v4()` written out with `to_string`: a random identifier in the
/// hyphenated form, which always has 36 characters. Which identifier comes back is left
/// open: two calls may give different results.
#[verifier::external_body]
pub(crate) fn fresh_id() -> (r: String)
    ensures
        r@.len() == 36,
{
    uuid::Uuid::new_v4().to_string()
}

} // verus!
