//! Provisioning: an instance lives in a sub-account of the factory.

use vstd::prelude::*;
use vstd::string::StringExecFns;

use crate::saga::{ButterCore, Fault};

verus! {

/// Gas that the factory keeps for its own call and the account creation; the
/// rest of the prepaid gas goes to the instance's initialisation.
pub const CREATE_CALL_GAS: u64 = 200_000_000_000_000;

/// A character that separates the parts of an account id.
pub open spec fn is_id_separator(c: char) -> bool {
    c == '-' || c == '_' || c == '.'
}

/// A character that may stand in an account id.
pub open spec fn is_id_char(c: char) -> bool {
    ('a' <= c && c <= 'z') || ('0' <= c && c <= '9') || is_id_separator(c)
}

/// The account-id rules: 2 to 64 lower-case letters, digits and separators,
/// neither starting nor ending with a separator, with no two separators in a row.
pub open spec fn valid_account_id(s: Seq<char>) -> bool {
    &&& 2 <= s.len() <= 64
    &&& forall|i: int| 0 <= i < s.len() ==> is_id_char(#[trigger] s[i])
    &&& !is_id_separator(s[0])
    &&& !is_id_separator(s.last())
    &&& forall|i: int|
        0 <= i < s.len() - 1 ==> !(is_id_separator(#[trigger] s[i]) && is_id_separator(s[i + 1]))
}

/// Relies on `near_sdk::env::is_valid_account_id`, which checks the bytes of
/// an id against the rules above (a byte outside ASCII is refused, so bytes and
/// characters agree wherever the id is valid).
#[verifier::external_body]
fn is_valid_account_id(id: &String) -> (r: bool)
    ensures
        r == valid_account_id(id@),
{
    near_sdk::env::is_valid_account_id(id.as_bytes())
}

/// The factory of instances.
#[derive(Clone, Copy, Debug, Default, PartialEq, Eq)]
pub struct Factory {}

/// What the factory does to provision an instance: create `account_id`,
/// deploy the code to it, move `deposit` there, and initialise it with
/// `init` and `gas`.
#[derive(Clone, Debug, PartialEq, Eq)]
pub struct Deployment {
    pub account_id: String,
    pub deposit: u128,
    pub init: ButterCore,
    pub gas: u64,
}

impl Factory {
    /// Provision an instance named `name` under the factory's account
    /// `current`, with the attached `deposit` and what is left of
    /// `prepaid_gas` once the factory's own share is kept.
    pub fn create_butter_core(
        &self,
        current: &String,
        deposit: u128,
        prepaid_gas: u64,
        name: String,
        controller: String,
        ref_exchange: String,
        wrapped_token: String,
        owner: String,
    ) -> (r: Result<Deployment, Fault>)
        ensures
            !valid_account_id(name@ + "."@ + current@) ==> r == Err::<Deployment, Fault>(
                Fault::InvalidAccountId,
            ),
            valid_account_id(name@ + "."@ + current@) && prepaid_gas < CREATE_CALL_GAS ==> r
                == Err::<Deployment, Fault>(Fault::InsufficientGas),
            valid_account_id(name@ + "."@ + current@) && prepaid_gas >= CREATE_CALL_GAS ==> (r
                matches Ok(d) && d.account_id@ == name@ + "."@ + current@ && d.deposit == deposit
                && d.gas == prepaid_gas - CREATE_CALL_GAS && d.init == (ButterCore {
                controller,
                ref_exchange,
                wrapped_token,
                owner,
            })),
    {
        let mut account_id = name;
        account_id.append(".");
        account_id.append(current.as_str());
        if !is_valid_account_id(&account_id) {
            return Err(Fault::InvalidAccountId);
        }
        if prepaid_gas < CREATE_CALL_GAS {
            return Err(Fault::InsufficientGas);
        }
        let init = ButterCore::new(controller, ref_exchange, wrapped_token, owner);
        Ok(Deployment { account_id, deposit, init, gas: prepaid_gas - CREATE_CALL_GAS })
    }
}

} // verus!
