//! The swap saga as an explicit state machine.
//!
//! The entry points validate a request and issue the transfer to the exchange.
//! Each later stage is handed the outcomes of the call that it continues and
//! returns a `Reaction`. A stage receives exactly one outcome, and only from a
//! continuation that this contract scheduled itself.

use vstd::prelude::*;
use vstd::string::StringExecFns;

use crate::gas::{
    get_amount_out_gas, spec_get_amount_out_gas, spec_transfer_to_target_gas,
    transfer_to_target_gas, CALLBACK_CHECK_TRANSFER_GAS, CALLBACK_RETURN_VALUE_GAS,
    FT_BALANCE_OF_GAS, FT_TRANSFER_CALL_MOS_GAS, FT_TRANSFER_CALL_REF_GAS, FT_TRANSFER_GAS,
    NEAR_WITHDRAW_GAS,
};
use crate::payload::{decode_amount, decoded_amount};
use crate::types::{route_token_in, route_token_out, Action, CoreSwapMessage, TokenReceiverMessage};

verus! {

/// The deposit, in the smallest native unit, attached to token transfers and
/// to unwrapping, as the token standard asks.
pub const ONE_YOCTO: u128 = 1;

/// The outcome of a remote call, as the host hands it to a continuation.
#[derive(Clone, Debug, PartialEq, Eq)]
pub enum CallResult {
    NotReady,
    Successful(Vec<u8>),
    Failed,
}

/// Why a call is refused; the whole call is then aborted and nothing moves.
#[derive(Clone, Copy, Debug, PartialEq, Eq, Structural)]
pub enum Fault {
    /// The caller, or the declared sender of a transfer, is not the controller.
    UnexpectedCaller,
    /// The message attached to a transfer could not be decoded.
    MalformedMessage,
    /// The route has no hop.
    EmptyRoute,
    /// A continuation was called by another account than this contract.
    ForeignCallback,
    /// A continuation was handed another number of outcomes than one.
    ResultCount,
    /// The continued call has not resolved.
    NotReady,
    /// The transfer to the exchange failed.
    ExchangeFailed,
    /// The balance query of the output token failed.
    BalanceQueryFailed,
    /// The continued call returned something else than an amount.
    MalformedResult,
    /// The exchange reports that it used more than it was offered.
    UsedExceedsOffered,
    /// An account id breaks the account-id rules.
    InvalidAccountId,
    /// The prepaid gas does not cover the factory's own share.
    InsufficientGas,
}

impl Fault {
    /// A short description of the fault.
    pub fn message(&self) -> &'static str {
        match self {
            Fault::UnexpectedCaller => "unexpected caller",
            Fault::MalformedMessage => "unexpected core swap msg format",
            Fault::EmptyRoute => "swap route has no action",
            Fault::ForeignCallback => "callback may only be called by this contract",
            Fault::ResultCount => "promise has too many results",
            Fault::NotReady => "promise result is not ready",
            Fault::ExchangeFailed => "call ref exchange failed",
            Fault::BalanceQueryFailed => "get token_out balance of core failed",
            Fault::MalformedResult => "promise result is not an amount",
            Fault::UsedExceedsOffered => "used amount exceeds the offered amount",
            Fault::InvalidAccountId => "the account ID is invalid",
            Fault::InsufficientGas => "not enough gas for the factory call",
        }
    }
}

/// What travels from the entry point to the stages that check the exchange's
/// answer and deliver the output.
#[derive(Clone, Debug, PartialEq, Eq)]
pub struct SagaContext {
    /// The token handed to the exchange.
    pub token_in: String,
    /// How much of it was handed over.
    pub amount: u128,
    /// The token that the route puts out.
    pub token_out: String,
    /// Who receives the output.
    pub target_account: String,
    /// Present in swap-in mode, absent in swap-out mode.
    pub target_token: Option<String>,
    /// Whether the controller called directly, rather than by a transfer.
    pub direct_call: bool,
}

/// What travels from the delivery to the stage that checks it.
#[derive(Clone, Debug, PartialEq, Eq)]
pub struct DeliveryContext {
    /// The token delivered (the wrapped-native token for a native delivery).
    pub token: String,
    /// Who should have received it.
    pub account: String,
    /// The amount that the saga started with.
    pub amount_in: u128,
    /// The amount delivered.
    pub amount: u128,
    /// Whether the output was unwrapped and sent as the native currency.
    pub is_native: bool,
    /// Whether the controller called directly, rather than by a transfer.
    pub direct_call: bool,
}

impl DeliveryContext {
    /// The value that ends the saga: the starting amount for a direct call;
    /// zero for a transfer, whose whole amount was used.
    pub open spec fn settled(self) -> u128 {
        if self.direct_call {
            self.amount_in
        } else {
            0
        }
    }
}

/// What a transfer call attaches for its receiver.
#[derive(Clone, Debug, PartialEq, Eq)]
pub enum CallMsg {
    /// The route for the exchange.
    Route(TokenReceiverMessage),
    /// Nothing: the receiver routes no further.
    Empty,
}

/// A call to another contract, or a transfer of the native currency.
#[derive(Clone, Debug, PartialEq, Eq)]
pub enum RemoteCall {
    /// `ft_transfer_call` on `token`: moves `amount` to `receiver`, which is
    /// notified with `msg` and reports how much it kept.
    TransferCall { token: String, receiver: String, amount: u128, msg: CallMsg, gas: u64 },
    /// `ft_transfer` on `token`: moves `amount` to `receiver`.
    Transfer { token: String, receiver: String, amount: u128, memo: Option<String>, gas: u64 },
    /// `ft_balance_of` on `token`: what `account` holds.
    BalanceOf { token: String, account: String, gas: u64 },
    /// `near_withdraw` of `amount` on the wrapped-native token, then a transfer
    /// of `amount` in the native currency to `receiver`.
    UnwrapTo { wrapped_token: String, receiver: String, amount: u128, gas: u64 },
    /// A transfer of `amount` in the native currency to `receiver`.
    NativeTransfer { receiver: String, amount: u128 },
}

/// The stage that a remote call's outcome is handed to.
#[derive(Clone, Debug, PartialEq, Eq)]
pub enum Continuation {
    /// Check how much the exchange used.
    GetAmountOut(SagaContext),
    /// Deliver the balance of the output token.
    TransferToTarget(SagaContext),
    /// Check the delivery; reroute to the controller where it failed.
    CheckTransfer(DeliveryContext),
    /// Return the value.
    ReturnValue(u128),
}

/// What a stage does.
#[derive(Clone, Debug, PartialEq, Eq)]
pub enum Effect {
    /// Return the value at once; nothing is called.
    Value(u128),
    /// Issue `call`, and run `then` with `gas` on its outcome; what `then`
    /// returns is returned.
    Chain { call: RemoteCall, then: Continuation, gas: u64 },
    /// Issue `call` without waiting for it, and return `value`.
    Detached { call: RemoteCall, value: u128 },
}

/// Something worth recording in the log.
#[derive(Clone, Debug, PartialEq, Eq)]
pub enum Notice {
    /// The exchange used another amount than it was offered.
    UnexpectedUsedAmount { expected: u128, actual: u128 },
    /// The swap left no output to deliver.
    ZeroAmountOut,
    /// The native currency could not be delivered to `account`.
    NativeDeliveryFailed { account: String },
}

/// The answer of a stage: its effect and what it records.
#[derive(Clone, Debug, PartialEq, Eq)]
pub struct Reaction {
    pub effect: Effect,
    pub notice: Option<Notice>,
}

/// The memo of a transfer that hands undeliverable funds to the controller.
pub open spec fn reroute_memo(account: Seq<char>) -> Seq<char> {
    "transfer to user "@ + account + " failed, rerouted to controller"@
}

/// The settings of an instance.
#[derive(Clone, Debug, PartialEq, Eq)]
pub struct ButterCore {
    /// The only account that may start a swap; it receives what cannot be
    /// delivered.
    pub controller: String,
    /// The exchange.
    pub ref_exchange: String,
    /// The token that stands for the native currency.
    pub wrapped_token: String,
    /// The account that may change the settings.
    pub owner: String,
}

/// The one outcome that a continuation acts on: only this contract may call a
/// continuation, and it must be handed exactly one outcome.
pub open spec fn sole_outcome(predecessor: String, current: String, results: Seq<CallResult>) -> Result<
    CallResult,
    Fault,
> {
    if predecessor@ != current@ {
        Err(Fault::ForeignCallback)
    } else if results.len() != 1 {
        Err(Fault::ResultCount)
    } else {
        Ok(results[0])
    }
}

/// Checks who called a continuation and how many outcomes it was handed.
fn sole_result<'a>(predecessor: &String, current: &String, results: &'a Vec<CallResult>) -> (r:
    Result<&'a CallResult, Fault>)
    ensures
        match sole_outcome(*predecessor, *current, results@) {
            Ok(c) => r is Ok && *r->Ok_0 == c,
            Err(f) => r == Err::<&CallResult, Fault>(f),
        },
{
    if !(*predecessor == *current) {
        return Err(Fault::ForeignCallback);
    }
    if results.len() != 1 {
        return Err(Fault::ResultCount);
    }
    Ok(&results[0])
}

impl ButterCore {
    /// The reaction that starts a saga: hand `amount` of `token_in` to the
    /// exchange with the route attached, and check its answer afterwards.
    pub open spec fn launch(
        self,
        token_in: String,
        amount: u128,
        token_out: String,
        msg: TokenReceiverMessage,
        target_account: String,
        target_token: Option<String>,
        direct_call: bool,
    ) -> Reaction {
        Reaction {
            effect: Effect::Chain {
                call: RemoteCall::TransferCall {
                    token: token_in,
                    receiver: self.ref_exchange,
                    amount,
                    msg: CallMsg::Route(msg),
                    gas: FT_TRANSFER_CALL_REF_GAS,
                },
                then: Continuation::GetAmountOut(
                    SagaContext {
                        token_in,
                        amount,
                        token_out,
                        target_account,
                        target_token,
                        direct_call,
                    },
                ),
                gas: spec_get_amount_out_gas(target_token is Some) as u64,
            },
            notice: None,
        }
    }

    /// The reaction to the exchange having used `used` of `ctx.amount`.
    pub open spec fn used_reaction(self, current: String, ctx: SagaContext, used: u128) -> Result<
        Reaction,
        Fault,
    > {
        if used > ctx.amount {
            Err(Fault::UsedExceedsOffered)
        } else if used < ctx.amount {
            let notice = Some(Notice::UnexpectedUsedAmount { expected: ctx.amount, actual: used });
            if ctx.direct_call {
                Ok(
                    Reaction {
                        effect: Effect::Chain {
                            call: RemoteCall::Transfer {
                                token: ctx.token_in,
                                receiver: self.controller,
                                amount: (ctx.amount - used) as u128,
                                memo: None,
                                gas: FT_TRANSFER_GAS,
                            },
                            then: Continuation::ReturnValue(used),
                            gas: CALLBACK_RETURN_VALUE_GAS,
                        },
                        notice,
                    },
                )
            } else {
                Ok(Reaction { effect: Effect::Value((ctx.amount - used) as u128), notice })
            }
        } else {
            Ok(
                Reaction {
                    effect: Effect::Chain {
                        call: RemoteCall::BalanceOf {
                            token: ctx.token_out,
                            account: current,
                            gas: FT_BALANCE_OF_GAS,
                        },
                        then: Continuation::TransferToTarget(ctx),
                        gas: spec_transfer_to_target_gas(ctx.target_token is Some),
                    },
                    notice: None,
                },
            )
        }
    }

    /// The reaction to a balance of `amount_out` of the output token.
    pub open spec fn balance_reaction(self, ctx: SagaContext, amount_out: u128) -> Reaction {
        let settled = if ctx.direct_call {
            ctx.amount
        } else {
            0
        };
        if amount_out == 0 {
            Reaction { effect: Effect::Value(settled), notice: Some(Notice::ZeroAmountOut) }
        } else if ctx.target_token is Some {
            let native = ctx.token_out@ == self.wrapped_token@;
            Reaction {
                effect: Effect::Chain {
                    call: if native {
                        RemoteCall::UnwrapTo {
                            wrapped_token: self.wrapped_token,
                            receiver: ctx.target_account,
                            amount: amount_out,
                            gas: NEAR_WITHDRAW_GAS,
                        }
                    } else {
                        RemoteCall::Transfer {
                            token: ctx.token_out,
                            receiver: ctx.target_account,
                            amount: amount_out,
                            memo: None,
                            gas: FT_TRANSFER_GAS,
                        }
                    },
                    then: Continuation::CheckTransfer(
                        DeliveryContext {
                            token: ctx.token_out,
                            account: ctx.target_account,
                            amount_in: ctx.amount,
                            amount: amount_out,
                            is_native: native,
                            direct_call: ctx.direct_call,
                        },
                    ),
                    gas: CALLBACK_CHECK_TRANSFER_GAS,
                },
                notice: None,
            }
        } else {
            Reaction {
                effect: Effect::Chain {
                    call: RemoteCall::TransferCall {
                        token: ctx.token_out,
                        receiver: ctx.target_account,
                        amount: amount_out,
                        msg: CallMsg::Empty,
                        gas: FT_TRANSFER_CALL_MOS_GAS,
                    },
                    then: Continuation::ReturnValue(settled),
                    gas: CALLBACK_RETURN_VALUE_GAS,
                },
                notice: None,
            }
        }
    }

    /// Whether `r` is the reaction to the check of delivery `d`: nothing on
    /// success; on failure, the delivered amount goes to the controller, with
    /// a memo that names the account that should have received it where the
    /// output is a token. Either way the saga ends with `d.settled()`: the
    /// starting amount for a direct call, zero for a transfer.
    pub open spec fn is_delivery_reaction(
        self,
        d: DeliveryContext,
        delivered: bool,
        r: Reaction,
    ) -> bool {
        if delivered {
            r == Reaction { effect: Effect::Value(d.settled()), notice: None }
        } else if d.is_native {
            r == Reaction {
                effect: Effect::Detached {
                    call: RemoteCall::NativeTransfer { receiver: self.controller, amount: d.amount },
                    value: d.settled(),
                },
                notice: Some(Notice::NativeDeliveryFailed { account: d.account }),
            }
        } else {
            &&& r.notice is None
            &&& r.effect matches Effect::Detached { call, value }
            &&& value == d.settled()
            &&& call matches RemoteCall::Transfer { token, receiver, amount, memo, gas }
            &&& token == d.token
            &&& receiver == self.controller
            &&& amount == d.amount
            &&& gas == FT_TRANSFER_GAS
            &&& memo matches Some(m)
            &&& m@ == reroute_memo(d.account@)
        }
    }

    /// Entry point for the controller: swap `amount` along the route of
    /// `core_swap_msg`, starting from the token that its first hop takes in.
    pub fn swap(&self, predecessor: &String, amount: u128, core_swap_msg: CoreSwapMessage) -> (r:
        Result<Reaction, Fault>)
        ensures
            predecessor@ != self.controller@ ==> r == Err::<Reaction, Fault>(
                Fault::UnexpectedCaller,
            ),
            predecessor@ == self.controller@ && core_swap_msg.actions@.len() == 0 ==> r == Err::<
                Reaction,
                Fault,
            >(Fault::EmptyRoute),
            predecessor@ == self.controller@ && core_swap_msg.actions@.len() > 0 ==> r == Ok::<
                Reaction,
                Fault,
            >(
                self.launch(
                    route_token_in(core_swap_msg.actions@),
                    amount,
                    route_token_out(core_swap_msg.actions@),
                    TokenReceiverMessage::Execute {
                        referral_id: None,
                        actions: core_swap_msg.actions,
                    },
                    core_swap_msg.target_account,
                    core_swap_msg.target_token,
                    true,
                ),
            ),
    {
        if !(*predecessor == self.controller) {
            return Err(Fault::UnexpectedCaller);
        }
        let n = core_swap_msg.actions.len();
        if n == 0 {
            return Err(Fault::EmptyRoute);
        }
        let token_in = match &core_swap_msg.actions[0] {
            Action::Swap(a) => a.token_in.clone(),
        };
        let token_out = match &core_swap_msg.actions[n - 1] {
            Action::Swap(a) => a.token_out.clone(),
        };
        let msg = TokenReceiverMessage::Execute { referral_id: None, actions: core_swap_msg.actions };
        Ok(
            self.do_swap(
                token_in,
                amount,
                token_out,
                msg,
                core_swap_msg.target_account,
                core_swap_msg.target_token,
                true,
            ),
        )
    }

    /// Entry point for a transfer of `amount` of `token` from `sender_id`
    /// with a swap request attached; `msg` is the decoded request, `None`
    /// where the attached text did not decode. The value that the saga
    /// returns is the part of `amount` to hand back to the sender.
    pub fn ft_on_transfer(
        &self,
        sender_id: &String,
        token: String,
        amount: u128,
        msg: Option<CoreSwapMessage>,
    ) -> (r: Result<Reaction, Fault>)
        ensures
            sender_id@ != self.controller@ ==> r == Err::<Reaction, Fault>(
                Fault::UnexpectedCaller,
            ),
            sender_id@ == self.controller@ && msg is None ==> r == Err::<Reaction, Fault>(
                Fault::MalformedMessage,
            ),
            sender_id@ == self.controller@ && msg is Some ==> r == if msg->Some_0.actions@.len()
                == 0 {
                Err::<Reaction, Fault>(Fault::EmptyRoute)
            } else {
                Ok(
                    self.launch(
                        token,
                        amount,
                        route_token_out(msg->Some_0.actions@),
                        TokenReceiverMessage::Execute {
                            referral_id: None,
                            actions: msg->Some_0.actions,
                        },
                        msg->Some_0.target_account,
                        msg->Some_0.target_token,
                        false,
                    ),
                )
            },
    {
        if !(*sender_id == self.controller) {
            return Err(Fault::UnexpectedCaller);
        }
        let core_swap_msg = match msg {
            Some(m) => m,
            None => {
                return Err(Fault::MalformedMessage);
            },
        };
        let n = core_swap_msg.actions.len();
        if n == 0 {
            return Err(Fault::EmptyRoute);
        }
        let token_out = match &core_swap_msg.actions[n - 1] {
            Action::Swap(a) => a.token_out.clone(),
        };
        let msg = TokenReceiverMessage::Execute { referral_id: None, actions: core_swap_msg.actions };
        Ok(
            self.do_swap(
                token,
                amount,
                token_out,
                msg,
                core_swap_msg.target_account,
                core_swap_msg.target_token,
                false,
            ),
        )
    }

    /// Reaction to the exchange having used `used` of the offered amount:
    /// where it used less, the rest goes back to the controller (by a
    /// transfer for a direct call, as the value handed back to the sender for
    /// a transfer); where it used all, the balance of the output is queried.
    pub fn on_amount_used(&self, current: &String, ctx: SagaContext, used: u128) -> (r: Result<
        Reaction,
        Fault,
    >)
        ensures
            r == self.used_reaction(*current, ctx, used),
            used > ctx.amount ==> r == Err::<Reaction, Fault>(Fault::UsedExceedsOffered),
            used < ctx.amount && ctx.direct_call ==> (r matches Ok(Reaction {
                effect: Effect::Chain { call: RemoteCall::Transfer { receiver, amount, .. }, .. },
                ..
            }) && receiver == self.controller && amount == ctx.amount - used),
            used < ctx.amount && !ctx.direct_call ==> (r matches Ok(Reaction {
                effect: Effect::Value(v),
                ..
            }) && v == ctx.amount - used),
    {
        if used > ctx.amount {
            return Err(Fault::UsedExceedsOffered);
        }
        if used < ctx.amount {
            let refund = ctx.amount - used;
            let notice = Some(Notice::UnexpectedUsedAmount { expected: ctx.amount, actual: used });
            if ctx.direct_call {
                let call = RemoteCall::Transfer {
                    token: ctx.token_in,
                    receiver: self.controller.clone(),
                    amount: refund,
                    memo: None,
                    gas: FT_TRANSFER_GAS,
                };
                Ok(
                    Reaction {
                        effect: Effect::Chain {
                            call,
                            then: Continuation::ReturnValue(used),
                            gas: CALLBACK_RETURN_VALUE_GAS,
                        },
                        notice,
                    },
                )
            } else {
                Ok(Reaction { effect: Effect::Value(refund), notice })
            }
        } else {
            let call = RemoteCall::BalanceOf {
                token: ctx.token_out.clone(),
                account: current.clone(),
                gas: FT_BALANCE_OF_GAS,
            };
            let gas = transfer_to_target_gas(ctx.target_token.is_some());
            Ok(
                Reaction {
                    effect: Effect::Chain { call, then: Continuation::TransferToTarget(ctx), gas },
                    notice: None,
                },
            )
        }
    }

    /// Stage that checks the answer of the exchange: `results` are the
    /// outcomes of the transfer to it, whose payload is the amount it used.
    pub fn callback_get_amount_out(
        &self,
        predecessor: &String,
        current: &String,
        ctx: SagaContext,
        results: Vec<CallResult>,
    ) -> (r: Result<Reaction, Fault>)
        ensures
            r == match sole_outcome(*predecessor, *current, results@) {
                Err(f) => Err(f),
                Ok(CallResult::NotReady) => Err(Fault::NotReady),
                Ok(CallResult::Failed) => Err(Fault::ExchangeFailed),
                Ok(CallResult::Successful(p)) => match decoded_amount(p@) {
                    None => Err(Fault::MalformedResult),
                    Some(used) => self.used_reaction(*current, ctx, used),
                },
            },
            predecessor@ != current@ ==> r == Err::<Reaction, Fault>(Fault::ForeignCallback),
            predecessor@ == current@ && results@.len() != 1 ==> r == Err::<Reaction, Fault>(
                Fault::ResultCount,
            ),
    {
        match sole_result(predecessor, current, &results) {
            Err(f) => Err(f),
            Ok(CallResult::NotReady) => Err(Fault::NotReady),
            Ok(CallResult::Failed) => Err(Fault::ExchangeFailed),
            Ok(CallResult::Successful(p)) => match decode_amount(p) {
                Ok(used) => self.on_amount_used(current, ctx, used),
                Err(_) => Err(Fault::MalformedResult),
            },
        }
    }

    /// Reaction to a balance of `amount_out` of the output token: nothing to
    /// deliver where it is zero; else delivery to the target account, as the
    /// native currency where a swap-in puts out the wrapped-native token.
    pub fn on_balance(&self, ctx: SagaContext, amount_out: u128) -> (r: Reaction)
        ensures
            r == self.balance_reaction(ctx, amount_out),
            amount_out == 0 ==> r.effect is Value,
    {
        let settled: u128 = if ctx.direct_call {
            ctx.amount
        } else {
            0
        };
        if amount_out == 0 {
            return Reaction { effect: Effect::Value(settled), notice: Some(Notice::ZeroAmountOut) };
        }
        if ctx.target_token.is_some() {
            let native = ctx.token_out == self.wrapped_token;
            let call = if native {
                RemoteCall::UnwrapTo {
                    wrapped_token: self.wrapped_token.clone(),
                    receiver: ctx.target_account.clone(),
                    amount: amount_out,
                    gas: NEAR_WITHDRAW_GAS,
                }
            } else {
                RemoteCall::Transfer {
                    token: ctx.token_out.clone(),
                    receiver: ctx.target_account.clone(),
                    amount: amount_out,
                    memo: None,
                    gas: FT_TRANSFER_GAS,
                }
            };
            let delivery = DeliveryContext {
                token: ctx.token_out,
                account: ctx.target_account,
                amount_in: ctx.amount,
                amount: amount_out,
                is_native: native,
                direct_call: ctx.direct_call,
            };
            Reaction {
                effect: Effect::Chain {
                    call,
                    then: Continuation::CheckTransfer(delivery),
                    gas: CALLBACK_CHECK_TRANSFER_GAS,
                },
                notice: None,
            }
        } else {
            let call = RemoteCall::TransferCall {
                token: ctx.token_out,
                receiver: ctx.target_account,
                amount: amount_out,
                msg: CallMsg::Empty,
                gas: FT_TRANSFER_CALL_MOS_GAS,
            };
            Reaction {
                effect: Effect::Chain {
                    call,
                    then: Continuation::ReturnValue(settled),
                    gas: CALLBACK_RETURN_VALUE_GAS,
                },
                notice: None,
            }
        }
    }

    /// Stage that delivers the output: `results` are the outcomes of the
    /// balance query, whose payload is the balance.
    pub fn callback_transfer_to_target_account(
        &self,
        predecessor: &String,
        current: &String,
        ctx: SagaContext,
        results: Vec<CallResult>,
    ) -> (r: Result<Reaction, Fault>)
        ensures
            r == match sole_outcome(*predecessor, *current, results@) {
                Err(f) => Err(f),
                Ok(CallResult::NotReady) => Err(Fault::NotReady),
                Ok(CallResult::Failed) => Err(Fault::BalanceQueryFailed),
                Ok(CallResult::Successful(p)) => match decoded_amount(p@) {
                    None => Err(Fault::MalformedResult),
                    Some(amount_out) => Ok(self.balance_reaction(ctx, amount_out)),
                },
            },
            predecessor@ != current@ ==> r == Err::<Reaction, Fault>(Fault::ForeignCallback),
            predecessor@ == current@ && results@.len() != 1 ==> r == Err::<Reaction, Fault>(
                Fault::ResultCount,
            ),
    {
        match sole_result(predecessor, current, &results) {
            Err(f) => Err(f),
            Ok(CallResult::NotReady) => Err(Fault::NotReady),
            Ok(CallResult::Failed) => Err(Fault::BalanceQueryFailed),
            Ok(CallResult::Successful(p)) => match decode_amount(p) {
                Ok(amount_out) => Ok(self.on_balance(ctx, amount_out)),
                Err(_) => Err(Fault::MalformedResult),
            },
        }
    }

    /// Reaction to the outcome of a delivery: on failure the delivered amount
    /// is handed to the controller instead, so that nothing stays behind.
    pub fn on_delivery(&self, d: DeliveryContext, delivered: bool) -> (r: Reaction)
        ensures
            self.is_delivery_reaction(d, delivered, r),
    {
        let settled: u128 = if d.direct_call {
            d.amount_in
        } else {
            0
        };
        if delivered {
            return Reaction { effect: Effect::Value(settled), notice: None };
        }
        if d.is_native {
            let call = RemoteCall::NativeTransfer {
                receiver: self.controller.clone(),
                amount: d.amount,
            };
            Reaction {
                effect: Effect::Detached { call, value: settled },
                notice: Some(Notice::NativeDeliveryFailed { account: d.account }),
            }
        } else {
            let mut memo = String::from_str("transfer to user ");
            memo.append(d.account.as_str());
            memo.append(" failed, rerouted to controller");
            let call = RemoteCall::Transfer {
                token: d.token,
                receiver: self.controller.clone(),
                amount: d.amount,
                memo: Some(memo),
                gas: FT_TRANSFER_GAS,
            };
            Reaction { effect: Effect::Detached { call, value: settled }, notice: None }
        }
    }

    /// Stage that checks the delivery: `results` are the outcomes of the
    /// transfer to the target account.
    pub fn callback_check_transfer(
        &self,
        predecessor: &String,
        current: &String,
        d: DeliveryContext,
        results: Vec<CallResult>,
    ) -> (r: Result<Reaction, Fault>)
        ensures
            match sole_outcome(*predecessor, *current, results@) {
                Err(f) => r == Err::<Reaction, Fault>(f),
                Ok(CallResult::NotReady) => r == Err::<Reaction, Fault>(Fault::NotReady),
                Ok(CallResult::Successful(_)) => r is Ok && self.is_delivery_reaction(
                    d,
                    true,
                    r->Ok_0,
                ),
                Ok(CallResult::Failed) => r is Ok && self.is_delivery_reaction(d, false, r->Ok_0),
            },
            predecessor@ != current@ ==> r == Err::<Reaction, Fault>(Fault::ForeignCallback),
            predecessor@ == current@ && results@.len() != 1 ==> r == Err::<Reaction, Fault>(
                Fault::ResultCount,
            ),
    {
        match sole_result(predecessor, current, &results) {
            Err(f) => Err(f),
            Ok(CallResult::NotReady) => Err(Fault::NotReady),
            Ok(CallResult::Successful(_)) => Ok(self.on_delivery(d, true)),
            Ok(CallResult::Failed) => Ok(self.on_delivery(d, false)),
        }
    }

    /// Stage that ends a chain with `amount` as its value.
    pub fn callback_return_value(&self, predecessor: &String, current: &String, amount: u128) -> (r:
        Result<u128, Fault>)
        ensures
            predecessor@ != current@ ==> r == Err::<u128, Fault>(Fault::ForeignCallback),
            predecessor@ == current@ ==> r == Ok::<u128, Fault>(amount),
    {
        if !(*predecessor == *current) {
            return Err(Fault::ForeignCallback);
        }
        Ok(amount)
    }

    /// Issue the transfer of `amount` of `token` to the exchange, with the
    /// route attached, and schedule the check of the amount used.
    fn do_swap(
        &self,
        token: String,
        amount: u128,
        token_out: String,
        token_receiver_msg: TokenReceiverMessage,
        target_account: String,
        target_token: Option<String>,
        direct_call: bool,
    ) -> (r: Reaction)
        ensures
            r == self.launch(
                token,
                amount,
                token_out,
                token_receiver_msg,
                target_account,
                target_token,
                direct_call,
            ),
    {
        let gas = get_amount_out_gas(target_token.is_some());
        let call = RemoteCall::TransferCall {
            token: token.clone(),
            receiver: self.ref_exchange.clone(),
            amount,
            msg: CallMsg::Route(token_receiver_msg),
            gas: FT_TRANSFER_CALL_REF_GAS,
        };
        let ctx = SagaContext { token_in: token, amount, token_out, target_account, target_token, direct_call };
        Reaction {
            effect: Effect::Chain { call, then: Continuation::GetAmountOut(ctx), gas },
            notice: None,
        }
    }
}

impl ButterCore {
    /// A new instance with the given settings.
    pub fn new(controller: String, ref_exchange: String, wrapped_token: String, owner: String) -> (r:
        Self)
        ensures
            r == (ButterCore { controller, ref_exchange, wrapped_token, owner }),
    {
        ButterCore { controller, ref_exchange, wrapped_token, owner }
    }

    pub fn get_controller(&self) -> (r: String)
        ensures
            r == self.controller,
    {
        self.controller.clone()
    }

    /// Sets the controller where `predecessor` is the owner.
    pub fn set_controller(&mut self, predecessor: &String, controller: String) -> (r: Result<
        (),
        Fault,
    >)
        ensures
            predecessor@ == old(self).owner@ ==> r is Ok && *final(self) == (ButterCore {
                controller,
                ..*old(self)
            }),
            predecessor@ != old(self).owner@ ==> r == Err::<(), Fault>(Fault::UnexpectedCaller)
                && *final(self) == *old(self),
    {
        if !(*predecessor == self.owner) {
            return Err(Fault::UnexpectedCaller);
        }
        self.controller = controller;
        Ok(())
    }

    pub fn get_ref_exchange(&self) -> (r: String)
        ensures
            r == self.ref_exchange,
    {
        self.ref_exchange.clone()
    }

    /// Sets the exchange where `predecessor` is the owner.
    pub fn set_ref_exchange(&mut self, predecessor: &String, ref_exchange: String) -> (r: Result<
        (),
        Fault,
    >)
        ensures
            predecessor@ == old(self).owner@ ==> r is Ok && *final(self) == (ButterCore {
                ref_exchange,
                ..*old(self)
            }),
            predecessor@ != old(self).owner@ ==> r == Err::<(), Fault>(Fault::UnexpectedCaller)
                && *final(self) == *old(self),
    {
        if !(*predecessor == self.owner) {
            return Err(Fault::UnexpectedCaller);
        }
        self.ref_exchange = ref_exchange;
        Ok(())
    }

    pub fn get_wrapped_token(&self) -> (r: String)
        ensures
            r == self.wrapped_token,
    {
        self.wrapped_token.clone()
    }

    /// Sets the wrapped-native token where `predecessor` is the owner.
    pub fn set_wrapped_token(&mut self, predecessor: &String, wrapped_token: String) -> (r: Result<
        (),
        Fault,
    >)
        ensures
            predecessor@ == old(self).owner@ ==> r is Ok && *final(self) == (ButterCore {
                wrapped_token,
                ..*old(self)
            }),
            predecessor@ != old(self).owner@ ==> r == Err::<(), Fault>(Fault::UnexpectedCaller)
                && *final(self) == *old(self),
    {
        if !(*predecessor == self.owner) {
            return Err(Fault::UnexpectedCaller);
        }
        self.wrapped_token = wrapped_token;
        Ok(())
    }

    pub fn get_owner(&self) -> (r: String)
        ensures
            r == self.owner,
    {
        self.owner.clone()
    }

    /// Hands the settings over to `owner` where `predecessor` is the owner.
    pub fn set_owner(&mut self, predecessor: &String, owner: String) -> (r: Result<(), Fault>)
        ensures
            predecessor@ == old(self).owner@ ==> r is Ok && *final(self) == (ButterCore {
                owner,
                ..*old(self)
            }),
            predecessor@ != old(self).owner@ ==> r == Err::<(), Fault>(Fault::UnexpectedCaller)
                && *final(self) == *old(self),
    {
        if !(*predecessor == self.owner) {
            return Err(Fault::UnexpectedCaller);
        }
        self.owner = owner;
        Ok(())
    }
}

} // verus!
