use butter_core::gas::{
    get_amount_out_gas, transfer_to_target_gas, CALLBACK_CHECK_TRANSFER_GAS,
    CALLBACK_RETURN_VALUE_GAS, FT_BALANCE_OF_GAS, FT_TRANSFER_CALL_MOS_GAS,
    FT_TRANSFER_CALL_REF_GAS, FT_TRANSFER_GAS, NEAR_WITHDRAW_GAS,
};
use butter_core::{
    Action, ButterCore, CallMsg, CallResult, Continuation, CoreSwapMessage, DeliveryContext,
    Effect, Fault, Notice, Reaction, RemoteCall, SagaContext, SwapAction, TokenReceiverMessage,
};

const CURRENT: &str = "core.near";

fn s(v: &str) -> String {
    v.to_string()
}

fn instance() -> ButterCore {
    ButterCore::new(s("mos.near"), s("ref.near"), s("wrap.near"), s("owner.near"))
}

fn hop(token_in: &str, token_out: &str) -> Action {
    Action::Swap(SwapAction {
        pool_id: 7,
        token_in: s(token_in),
        amount_in: Some(100),
        token_out: s(token_out),
        min_amount_out: 1,
    })
}

fn request(target_token: Option<&str>) -> CoreSwapMessage {
    CoreSwapMessage {
        actions: vec![hop("usdc.near", "usdt.near")],
        target_account: s("bob.near"),
        target_token: target_token.map(s),
    }
}

fn ctx(token_out: &str, target_token: Option<&str>, direct_call: bool) -> SagaContext {
    SagaContext {
        token_in: s("usdc.near"),
        amount: 100,
        token_out: s(token_out),
        target_account: s("bob.near"),
        target_token: target_token.map(s),
        direct_call,
    }
}

fn amount_payload(v: &str) -> Vec<CallResult> {
    vec![CallResult::Successful(format!("\"{}\"", v).into_bytes())]
}

fn current() -> String {
    s(CURRENT)
}

fn scheduled(r: Result<Reaction, Fault>) -> (RemoteCall, Continuation, u64) {
    match r.unwrap().effect {
        Effect::Chain { call, then, gas } => (call, then, gas),
        other => panic!("expected a chained call, got {:?}", other),
    }
}

#[test]
fn swap_from_other_caller_is_rejected() {
    let r = instance().swap(&s("eve.near"), 100, request(Some("usdt.near")));
    assert_eq!(r, Err(Fault::UnexpectedCaller));
}

#[test]
fn transfer_from_other_sender_is_rejected() {
    let r = instance().ft_on_transfer(&s("eve.near"), s("usdc.near"), 100, Some(request(None)));
    assert_eq!(r, Err(Fault::UnexpectedCaller));
    let r = instance().ft_on_transfer(&s("eve.near"), s("usdc.near"), 100, None);
    assert_eq!(r, Err(Fault::UnexpectedCaller));
}

#[test]
fn malformed_or_empty_requests_are_rejected() {
    let r = instance().ft_on_transfer(&s("mos.near"), s("usdc.near"), 100, None);
    assert_eq!(r, Err(Fault::MalformedMessage));
    let mut empty = request(None);
    empty.actions.clear();
    assert_eq!(instance().swap(&s("mos.near"), 100, empty), Err(Fault::EmptyRoute));
}

#[test]
fn swap_hands_the_input_to_the_exchange() {
    let mut req = request(Some("usdt.near"));
    req.actions.push(hop("usdt.near", "dai.near"));
    let expected_actions = req.actions.clone();
    let (call, then, gas) = scheduled(instance().swap(&s("mos.near"), 100, req));
    assert_eq!(
        call,
        RemoteCall::TransferCall {
            token: s("usdc.near"),
            receiver: s("ref.near"),
            amount: 100,
            msg: CallMsg::Route(TokenReceiverMessage::Execute {
                referral_id: None,
                actions: expected_actions,
            }),
            gas: FT_TRANSFER_CALL_REF_GAS,
        }
    );
    assert_eq!(
        then,
        Continuation::GetAmountOut(SagaContext {
            token_in: s("usdc.near"),
            amount: 100,
            token_out: s("dai.near"),
            target_account: s("bob.near"),
            target_token: Some(s("usdt.near")),
            direct_call: true,
        })
    );
    assert_eq!(gas, 40_000_000_000_000);
}

#[test]
fn transfer_notification_swaps_the_transferred_token() {
    let r = instance().ft_on_transfer(&s("mos.near"), s("wbtc.near"), 5, Some(request(None)));
    let (call, then, gas) = scheduled(r);
    match call {
        RemoteCall::TransferCall { token, receiver, amount, .. } => {
            assert_eq!((token, receiver, amount), (s("wbtc.near"), s("ref.near"), 5));
        }
        other => panic!("unexpected call {:?}", other),
    }
    match then {
        Continuation::GetAmountOut(c) => {
            assert_eq!(c.token_in, s("wbtc.near"));
            assert_eq!(c.token_out, s("usdt.near"));
            assert!(!c.direct_call);
        }
        other => panic!("unexpected continuation {:?}", other),
    }
    assert_eq!(gas, 62_000_000_000_000);
}

#[test]
fn full_fill_happy_path() {
    let inst = instance();
    let (_, then, _) = scheduled(inst.swap(&s("mos.near"), 100, request(Some("usdt.near"))));
    let c = match then {
        Continuation::GetAmountOut(c) => c,
        other => panic!("unexpected continuation {:?}", other),
    };
    let (call, then, gas) =
        scheduled(inst.callback_get_amount_out(&current(), &current(), c, amount_payload("100")));
    assert_eq!(
        call,
        RemoteCall::BalanceOf { token: s("usdt.near"), account: current(), gas: FT_BALANCE_OF_GAS }
    );
    assert_eq!(gas, transfer_to_target_gas(true));
    let c = match then {
        Continuation::TransferToTarget(c) => c,
        other => panic!("unexpected continuation {:?}", other),
    };
    let (call, then, gas) = scheduled(inst.callback_transfer_to_target_account(
        &current(),
        &current(),
        c,
        amount_payload("42"),
    ));
    assert_eq!(
        call,
        RemoteCall::Transfer {
            token: s("usdt.near"),
            receiver: s("bob.near"),
            amount: 42,
            memo: None,
            gas: FT_TRANSFER_GAS,
        }
    );
    assert_eq!(gas, CALLBACK_CHECK_TRANSFER_GAS);
    let d = match then {
        Continuation::CheckTransfer(d) => d,
        other => panic!("unexpected continuation {:?}", other),
    };
    let r = inst.callback_check_transfer(
        &current(),
        &current(),
        d,
        vec![CallResult::Successful(vec![])],
    );
    assert_eq!(r, Ok(Reaction { effect: Effect::Value(100), notice: None }));
}

#[test]
fn partial_fill_refunds_the_rest_to_the_controller() {
    let r = instance().callback_get_amount_out(
        &current(),
        &current(),
        ctx("usdt.near", Some("usdt.near"), true),
        amount_payload("60"),
    );
    assert_eq!(
        r,
        Ok(Reaction {
            effect: Effect::Chain {
                call: RemoteCall::Transfer {
                    token: s("usdc.near"),
                    receiver: s("mos.near"),
                    amount: 40,
                    memo: None,
                    gas: FT_TRANSFER_GAS,
                },
                then: Continuation::ReturnValue(60),
                gas: CALLBACK_RETURN_VALUE_GAS,
            },
            notice: Some(Notice::UnexpectedUsedAmount { expected: 100, actual: 60 }),
        })
    );
}

#[test]
fn partial_fill_of_a_transfer_hands_back_the_rest() {
    let r = instance().on_amount_used(&current(), ctx("usdt.near", None, false), 60);
    assert_eq!(
        r,
        Ok(Reaction {
            effect: Effect::Value(40),
            notice: Some(Notice::UnexpectedUsedAmount { expected: 100, actual: 60 }),
        })
    );
}

#[test]
fn zero_output_is_not_delivered() {
    let r = instance().on_balance(ctx("usdt.near", Some("usdt.near"), true), 0);
    assert_eq!(r, Reaction { effect: Effect::Value(100), notice: Some(Notice::ZeroAmountOut) });
    let r = instance().callback_transfer_to_target_account(
        &current(),
        &current(),
        ctx("usdt.near", None, false),
        amount_payload("0"),
    );
    assert_eq!(
        r,
        Ok(Reaction { effect: Effect::Value(0), notice: Some(Notice::ZeroAmountOut) })
    );
}

#[test]
fn wrapped_native_output_is_unwrapped_for_swap_in() {
    let (call, then, gas) = scheduled(Ok(instance().on_balance(ctx("wrap.near", Some("near"), true), 42)));
    assert_eq!(
        call,
        RemoteCall::UnwrapTo {
            wrapped_token: s("wrap.near"),
            receiver: s("bob.near"),
            amount: 42,
            gas: NEAR_WITHDRAW_GAS,
        }
    );
    assert_eq!(
        then,
        Continuation::CheckTransfer(DeliveryContext {
            token: s("wrap.near"),
            account: s("bob.near"),
            amount_in: 100,
            amount: 42,
            is_native: true,
            direct_call: true,
        })
    );
    assert_eq!(gas, CALLBACK_CHECK_TRANSFER_GAS);
}

#[test]
fn swap_out_forwards_with_an_empty_message() {
    for (direct, value) in [(true, 100u128), (false, 0u128)] {
        let (call, then, gas) = scheduled(Ok(instance().on_balance(ctx("usdt.near", None, direct), 42)));
        assert_eq!(
            call,
            RemoteCall::TransferCall {
                token: s("usdt.near"),
                receiver: s("bob.near"),
                amount: 42,
                msg: CallMsg::Empty,
                gas: FT_TRANSFER_CALL_MOS_GAS,
            }
        );
        assert_eq!(then, Continuation::ReturnValue(value));
        assert_eq!(gas, CALLBACK_RETURN_VALUE_GAS);
    }
}

fn delivery(is_native: bool) -> DeliveryContext {
    DeliveryContext {
        token: s("usdt.near"),
        account: s("bob.near"),
        amount_in: 100,
        amount: 42,
        is_native,
        direct_call: true,
    }
}

#[test]
fn failed_delivery_is_rerouted_to_the_controller() {
    let r = instance().callback_check_transfer(&current(), &current(), delivery(false), vec![CallResult::Failed]);
    assert_eq!(
        r,
        Ok(Reaction {
            effect: Effect::Detached {
                call: RemoteCall::Transfer {
                    token: s("usdt.near"),
                    receiver: s("mos.near"),
                    amount: 42,
                    memo: Some(s("transfer to user bob.near failed, rerouted to controller")),
                    gas: FT_TRANSFER_GAS,
                },
                value: 100,
            },
            notice: None,
        })
    );
}

#[test]
fn failed_native_delivery_is_rerouted_to_the_controller() {
    let r = instance().on_delivery(delivery(true), false);
    assert_eq!(
        r,
        Reaction {
            effect: Effect::Detached {
                call: RemoteCall::NativeTransfer { receiver: s("mos.near"), amount: 42 },
                value: 100,
            },
            notice: Some(Notice::NativeDeliveryFailed { account: s("bob.near") }),
        }
    );
}

#[test]
fn a_stage_with_two_results_aborts() {
    let two = vec![CallResult::Failed, CallResult::Successful(b"\"100\"".to_vec())];
    let c = ctx("usdt.near", None, true);
    assert_eq!(
        instance().callback_get_amount_out(&current(), &current(), c.clone(), two.clone()),
        Err(Fault::ResultCount)
    );
    assert_eq!(
        instance().callback_transfer_to_target_account(&current(), &current(), c, two.clone()),
        Err(Fault::ResultCount)
    );
    assert_eq!(
        instance().callback_check_transfer(&current(), &current(), delivery(false), two),
        Err(Fault::ResultCount)
    );
    assert_eq!(
        instance().callback_check_transfer(&current(), &current(), delivery(false), vec![]),
        Err(Fault::ResultCount)
    );
}

#[test]
fn used_above_offered_aborts() {
    let r = instance().callback_get_amount_out(
        &current(),
        &current(),
        ctx("usdt.near", None, true),
        amount_payload("120"),
    );
    assert_eq!(r, Err(Fault::UsedExceedsOffered));
}

#[test]
fn stages_called_from_outside_are_rejected() {
    let eve = s("eve.near");
    let c = ctx("usdt.near", None, true);
    assert_eq!(
        instance().callback_get_amount_out(&eve, &current(), c.clone(), amount_payload("100")),
        Err(Fault::ForeignCallback)
    );
    assert_eq!(
        instance().callback_transfer_to_target_account(&eve, &current(), c, amount_payload("1")),
        Err(Fault::ForeignCallback)
    );
    assert_eq!(
        instance().callback_check_transfer(&eve, &current(), delivery(true), vec![CallResult::Failed]),
        Err(Fault::ForeignCallback)
    );
    assert_eq!(instance().callback_return_value(&eve, &current(), 5), Err(Fault::ForeignCallback));
    assert_eq!(instance().callback_return_value(&current(), &current(), 5), Ok(5));
}

#[test]
fn failed_or_unready_calls_abort() {
    let c = ctx("usdt.near", None, true);
    assert_eq!(
        instance().callback_get_amount_out(&current(), &current(), c.clone(), vec![CallResult::Failed]),
        Err(Fault::ExchangeFailed)
    );
    assert_eq!(
        instance().callback_transfer_to_target_account(
            &current(),
            &current(),
            c.clone(),
            vec![CallResult::Failed]
        ),
        Err(Fault::BalanceQueryFailed)
    );
    assert_eq!(
        instance().callback_get_amount_out(&current(), &current(), c, vec![CallResult::NotReady]),
        Err(Fault::NotReady)
    );
}

#[test]
fn payload_that_is_no_amount_aborts() {
    let c = ctx("usdt.near", None, true);
    for bad in [&b"100x"[..], b"\"-1\"", b"", b"\"1.5\""] {
        let r = instance().callback_get_amount_out(
            &current(),
            &current(),
            c.clone(),
            vec![CallResult::Successful(bad.to_vec())],
        );
        assert_eq!(r, Err(Fault::MalformedResult));
    }
}

#[test]
fn payload_amount_is_decoded() {
    let r = instance().callback_transfer_to_target_account(
        &current(),
        &current(),
        ctx("usdt.near", Some("usdt.near"), true),
        amount_payload("340282366920938463463374607431768211455"),
    );
    let (call, _, _) = scheduled(r);
    match call {
        RemoteCall::Transfer { amount, .. } => assert_eq!(amount, u128::MAX),
        other => panic!("unexpected call {:?}", other),
    }
}

#[test]
fn gas_budgets_add_up() {
    assert_eq!(transfer_to_target_gas(true), 26_000_000_000_000);
    assert_eq!(transfer_to_target_gas(false), 48_000_000_000_000);
    assert_eq!(get_amount_out_gas(true), 40_000_000_000_000);
    assert_eq!(get_amount_out_gas(false), 62_000_000_000_000);
}

#[test]
fn fault_messages() {
    assert_eq!(Fault::ResultCount.message(), "promise has too many results");
    assert_eq!(Fault::ExchangeFailed.message(), "call ref exchange failed");
}

#[test]
fn transfer_started_swap_settles_to_zero_after_delivery() {
    let inst = instance();
    let r = inst.ft_on_transfer(&s("mos.near"), s("usdc.near"), 100, Some(request(Some("usdt.near"))));
    let (_, then, _) = scheduled(r);
    let c = match then {
        Continuation::GetAmountOut(c) => c,
        other => panic!("unexpected continuation {:?}", other),
    };
    let (_, then, _) =
        scheduled(inst.callback_get_amount_out(&current(), &current(), c, amount_payload("100")));
    let c = match then {
        Continuation::TransferToTarget(c) => c,
        other => panic!("unexpected continuation {:?}", other),
    };
    let (_, then, _) = scheduled(inst.callback_transfer_to_target_account(
        &current(),
        &current(),
        c,
        amount_payload("42"),
    ));
    let d = match then {
        Continuation::CheckTransfer(d) => d,
        other => panic!("unexpected continuation {:?}", other),
    };
    assert!(!d.direct_call);
    let ok = inst.callback_check_transfer(
        &current(),
        &current(),
        d.clone(),
        vec![CallResult::Successful(vec![])],
    );
    assert_eq!(ok, Ok(Reaction { effect: Effect::Value(0), notice: None }));
    let failed = inst.callback_check_transfer(&current(), &current(), d, vec![CallResult::Failed]);
    match failed.unwrap().effect {
        Effect::Detached { call: RemoteCall::Transfer { receiver, amount, .. }, value } => {
            assert_eq!((receiver, amount, value), (s("mos.near"), 42, 0));
        }
        other => panic!("unexpected effect {:?}", other),
    }
}
