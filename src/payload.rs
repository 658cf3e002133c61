//! Reading the value that a remote call returned.

use vstd::prelude::*;

verus! {

#[verifier::external_type_specification]
#[verifier::external_body]
pub struct ExJsonError(near_sdk::serde_json::Error);

/// The amount that a JSON payload encodes as a decimal string, if it encodes one.
pub uninterp spec fn decoded_amount(payload: Seq<u8>) -> Option<u128>;

/// Relies on `serde_json::from_slice` into `near_sdk::json_types::U128`, the
/// encoding in which fungible-token calls return amounts; whether and to what
/// it decodes depends on the bytes alone.
#[verifier::external_body]
pub(crate) fn decode_amount(payload: &Vec<u8>) -> (r: Result<u128, near_sdk::serde_json::Error>)
    ensures
        match r {
            Ok(v) => decoded_amount(payload@) == Some(v),
            Err(_) => decoded_amount(payload@) is None,
        },
{
    near_sdk::serde_json::from_slice::<near_sdk::json_types::U128>(payload).map(|v| v.0)
}

} // verus!
