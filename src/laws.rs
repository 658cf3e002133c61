//! Properties of the saga that span more than one stage.

use vstd::prelude::*;

use crate::saga::{
    reroute_memo, ButterCore, Effect, Reaction, RemoteCall, SagaContext,
};

verus! {

/// Where the delivery stage hands a positive balance `amount_out` to the
/// target account in swap-in mode and the check of that delivery observes a
/// failure, the whole of `amount_out` goes to the controller: as the native
/// currency where it was unwrapped, else as the output token with a memo that
/// names the account that should have received it. The saga still ends with
/// the starting amount for a direct call and with zero for a transfer.
pub proof fn lemma_failed_delivery_goes_to_controller(
    core: ButterCore,
    ctx: SagaContext,
    amount_out: u128,
    r: Reaction,
)
    requires
        amount_out > 0,
        ctx.target_token is Some,
        core.is_delivery_reaction(
            core.balance_reaction(ctx, amount_out).effect->then->CheckTransfer_0,
            false,
            r,
        ),
    ensures
        core.balance_reaction(ctx, amount_out).effect->then is CheckTransfer,
        r.effect matches Effect::Detached { call, value } && value == (if ctx.direct_call {
            ctx.amount
        } else {
            0
        }) && ({
            ||| call matches RemoteCall::NativeTransfer { receiver, amount } && receiver
                == core.controller && amount == amount_out && ctx.token_out@
                == core.wrapped_token@
            ||| call matches RemoteCall::Transfer { token, receiver, amount, memo, .. } && token
                == ctx.token_out && receiver == core.controller && amount == amount_out
                && ctx.token_out@ != core.wrapped_token@ && memo is Some && memo->Some_0@
                == reroute_memo(ctx.target_account@)
        }),
{
}

} // verus!
