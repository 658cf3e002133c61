//! The messages that describe a swap: the route handed to the exchange and
//! the request that names where its output goes.

use vstd::prelude::*;

verus! {

/// An address on another chain.
pub type Address = [u8; 20];

/// One hop of a route, as the exchange reads it.
#[derive(Clone, Debug, PartialEq, Eq)]
pub struct SwapAction {
    /// Pool which should be used for swapping.
    pub pool_id: u64,
    /// Token to swap from.
    pub token_in: String,
    /// Amount to exchange. Where it is absent, the hop takes what the previous
    /// hop produced.
    pub amount_in: Option<u128>,
    /// Token to swap into.
    pub token_out: String,
    /// Required minimum amount of `token_out`.
    pub min_amount_out: u128,
}

/// An instruction for the exchange. Only swaps exist so far; the tag leaves
/// room for other kinds.
#[derive(Clone, Debug, PartialEq, Eq)]
pub enum Action {
    Swap(SwapAction),
}

/// The message attached to the transfer that hands the input to the exchange.
#[derive(Clone, Debug, PartialEq, Eq)]
pub enum TokenReceiverMessage {
    /// Execute the listed actions in order on the transferred funds.
    Execute {
        referral_id: Option<String>,
        /// List of sequential actions.
        actions: Vec<Action>,
    },
}

/// A swap request: the route, and where and how its output is delivered.
#[derive(Clone, Debug, PartialEq, Eq)]
pub struct CoreSwapMessage {
    /// List of sequential actions; a valid request has at least one.
    pub actions: Vec<Action>,
    /// The account that receives the output.
    pub target_account: String,
    /// Present for swap-in (deliver the output token itself, unwrapped where
    /// it is the wrapped-native token); absent for swap-out (forward the
    /// output with a transfer call for further routing).
    pub target_token: Option<String>,
}

/// A note that goes with funds handed to the controller.
#[derive(Clone, Debug, PartialEq, Eq)]
pub struct LostFoundMessage {
    pub account: String,
    pub is_native: bool,
}

/// One swap on another chain, as its router reads it.
#[derive(Clone, Debug, PartialEq, Eq)]
pub struct SwapParam {
    pub amount_in: u128,
    pub min_amount_out: u128,
    pub path: Vec<u8>,
    pub router_index: u64,
}

/// A route on another chain, with its output token and receiver.
#[derive(Clone, Debug, PartialEq, Eq)]
pub struct SwapData {
    pub swap_param: Vec<SwapParam>,
    pub target_token: Vec<u8>,
    pub to_address: Vec<u8>,
}

/// A cross-chain swap: the routes before and after the bridge.
#[derive(Clone, Debug, PartialEq, Eq)]
pub struct SwapMsg {
    pub map_target_token: Address,
    pub to_chain: u128,
    pub swap_data_0: SwapData,
    pub swap_data_1: SwapData,
}

/// The token that the first hop of a route takes in.
pub open spec fn route_token_in(actions: Seq<Action>) -> String
    recommends
        actions.len() > 0,
{
    match actions[0] {
        Action::Swap(a) => a.token_in,
    }
}

/// The token that the last hop of a route puts out.
pub open spec fn route_token_out(actions: Seq<Action>) -> String
    recommends
        actions.len() > 0,
{
    match actions.last() {
        Action::Swap(a) => a.token_out,
    }
}

} // verus!
