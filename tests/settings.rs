use butter_core::factory::CREATE_CALL_GAS;
use butter_core::{ButterCore, Factory, Fault};

fn s(v: &str) -> String {
    v.to_string()
}

fn instance() -> ButterCore {
    ButterCore::new(s("mos.near"), s("ref.near"), s("wrap.near"), s("owner.near"))
}

#[test]
fn getters_return_the_settings() {
    let c = instance();
    assert_eq!(c.get_controller(), "mos.near");
    assert_eq!(c.get_ref_exchange(), "ref.near");
    assert_eq!(c.get_wrapped_token(), "wrap.near");
    assert_eq!(c.get_owner(), "owner.near");
}

#[test]
fn owner_changes_settings() {
    let mut c = instance();
    let owner = s("owner.near");
    assert_eq!(c.set_controller(&owner, s("mos2.near")), Ok(()));
    assert_eq!(c.set_ref_exchange(&owner, s("ref2.near")), Ok(()));
    assert_eq!(c.set_wrapped_token(&owner, s("wrap2.near")), Ok(()));
    assert_eq!(c.set_owner(&owner, s("owner2.near")), Ok(()));
    assert_eq!(c, ButterCore::new(s("mos2.near"), s("ref2.near"), s("wrap2.near"), s("owner2.near")));
}

#[test]
fn others_cannot_change_settings() {
    let mut c = instance();
    let eve = s("eve.near");
    assert_eq!(c.set_controller(&eve, s("x.near")), Err(Fault::UnexpectedCaller));
    assert_eq!(c.set_ref_exchange(&eve, s("x.near")), Err(Fault::UnexpectedCaller));
    assert_eq!(c.set_wrapped_token(&eve, s("x.near")), Err(Fault::UnexpectedCaller));
    assert_eq!(c.set_owner(&eve, s("x.near")), Err(Fault::UnexpectedCaller));
    assert_eq!(c, instance());
}

#[test]
fn factory_provisions_a_sub_account() {
    let d = Factory {}
        .create_butter_core(
            &s("factory.near"),
            5,
            CREATE_CALL_GAS + 7,
            s("core1"),
            s("mos.near"),
            s("ref.near"),
            s("wrap.near"),
            s("owner.near"),
        )
        .unwrap();
    assert_eq!(d.account_id, "core1.factory.near");
    assert_eq!(d.deposit, 5);
    assert_eq!(d.gas, 7);
    assert_eq!(d.init, instance());
}

#[test]
fn factory_refuses_bad_names_and_short_gas() {
    let make = |name: &str, gas: u64| {
        Factory {}.create_butter_core(
            &s("factory.near"),
            0,
            gas,
            s(name),
            s("mos.near"),
            s("ref.near"),
            s("wrap.near"),
            s("owner.near"),
        )
    };
    assert_eq!(make("Core", CREATE_CALL_GAS), Err(Fault::InvalidAccountId));
    assert_eq!(make("a..b", CREATE_CALL_GAS), Err(Fault::InvalidAccountId));
    assert_eq!(make("", CREATE_CALL_GAS), Err(Fault::InvalidAccountId));
    assert_eq!(make("core", CREATE_CALL_GAS - 1), Err(Fault::InsufficientGas));
    assert!(make("core", CREATE_CALL_GAS).is_ok());
}
