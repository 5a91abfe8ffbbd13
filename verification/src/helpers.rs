//! Helpers on serialized values.
use vstd::prelude::*;
use crate::json::{strip_nulls, JsonValue};

verus! {

/// A serialized value with every `null` object member removed, at every
/// depth, as it is sent to the server.
pub fn to_value_skip_nulls(value: JsonValue) -> (r: JsonValue)
    ensures
        r@ == value@.without_nulls(),
        r@.has_no_null_members(),
{
    proof {
        crate::json::lemma_without_nulls_has_no_null_members(value@);
    }
    strip_nulls(value)
}

} // verus!
