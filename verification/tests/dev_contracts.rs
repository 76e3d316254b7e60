use tla_registry::account::AccountId;
use tla_registry::common::PromiseError;
use tla_registry::host::Env;
use tla_registry::test_dapp::{DappError, TestDapp};
use tla_registry::test_ft::{FtError, TestFt};
use tla_registry::test_staking_pool::{PoolError, TestStakingPool};

fn acc(s: &str) -> AccountId {
    AccountId::parse(s).unwrap()
}

fn ctx(predecessor: &str, deposit: u128) -> Env {
    Env {
        predecessor: acc(predecessor),
        current: acc("dev.testnet"),
        deposit,
        now: 0,
        height: 0,
        balance: 0,
        storage_usage: 0,
        storage_byte_cost: 0,
    }
}

fn held(ft: &TestFt, names: &[&str]) -> u128 {
    names.iter().map(|n| ft.ft_balance_of(acc(n))).sum()
}

#[test]
fn a_token_transfer_moves_and_never_makes_tokens() {
    let mut ft = TestFt::new(acc("owner.x"), 1_000);
    let owner = ctx("owner.x", 1);
    assert!(matches!(
        ft.ft_transfer(&owner, acc("bob.x"), 10, None),
        Err(FtError::ReceiverNotRegistered)
    ));
    ft.storage_deposit(&owner, Some(acc("bob.x")), None).unwrap();
    assert!(matches!(
        ft.ft_transfer(&ctx("owner.x", 0), acc("bob.x"), 10, None),
        Err(FtError::RequiresOneYocto)
    ));
    assert!(matches!(
        ft.ft_transfer(&owner, acc("bob.x"), 1_001, None),
        Err(FtError::NotEnoughBalance)
    ));
    ft.ft_transfer(&owner, acc("bob.x"), 300, None).unwrap();
    assert_eq!(ft.ft_balance_of(acc("bob.x")), 300);
    assert_eq!(held(&ft, &["owner.x", "bob.x"]), ft.ft_total_supply());
    ft.ft_transfer(&owner, acc("owner.x"), 700, None).unwrap();
    assert_eq!(ft.ft_balance_of(acc("owner.x")), 700);
}

#[test]
fn a_receiver_gives_back_what_it_left_unused() {
    let mut ft = TestFt::new(acc("owner.x"), 1_000);
    ft.mint(acc("dapp.x"), 5);
    assert_eq!(ft.ft_total_supply(), 1_005);
    let call = ft
        .ft_transfer_call(&ctx("owner.x", 1), acc("dapp.x"), 100, None, "m".to_string())
        .unwrap();
    assert_eq!(call.receiver_id, acc("dapp.x"));
    assert_eq!(call.sender_id, acc("owner.x"));
    assert_eq!(call.amount, 100);
    assert_eq!(call.msg, "m");

    let used = ft.ft_resolve_transfer(acc("owner.x"), acc("dapp.x"), 100, Ok(40));
    assert_eq!(used, 60);
    assert_eq!(ft.ft_balance_of(acc("dapp.x")), 65);
    assert_eq!(ft.ft_balance_of(acc("owner.x")), 940);

    let used = ft.ft_resolve_transfer(acc("owner.x"), acc("dapp.x"), 100, Err(PromiseError::Failed));
    assert_eq!(used, 35, "it can give back no more than it still holds");
    assert_eq!(held(&ft, &["owner.x", "dapp.x"]), ft.ft_total_supply());
    assert_eq!(ft.ft_resolve_transfer(acc("owner.x"), acc("dapp.x"), 9, Ok(0)), 9);
}

#[test]
fn registration_can_be_refused() {
    let mut ft = TestFt::new(acc("owner.x"), 1);
    ft.set_refuse_storage_deposit(true);
    assert!(matches!(
        ft.storage_deposit(&ctx("bob.x", 1), None, None),
        Err(FtError::StorageDepositRefused)
    ));
    assert!(ft.storage_balance_of(acc("bob.x")).is_none());
    ft.set_refuse_storage_deposit(false);
    ft.storage_deposit(&ctx("bob.x", 1), None, Some(true)).unwrap();
    assert!(ft.is_registered(acc("bob.x")));
    assert_eq!(
        ft.storage_balance_of(acc("bob.x")),
        Some(1_250_000_000_000_000_000_000)
    );
}

#[test]
fn the_application_books_what_its_token_brings() {
    let mut dapp = TestDapp::new(acc("token.x"));
    assert!(matches!(
        dapp.ft_on_transfer(&ctx("other.x", 0), acc("alice.x"), 5, String::new()),
        Err(DappError::UnknownToken)
    ));
    let token = ctx("token.x", 0);
    assert_eq!(dapp.ft_on_transfer(&token, acc("alice.x"), 5, String::new()).unwrap(), 0);
    assert_eq!(dapp.ft_on_transfer(&token, acc("alice.x"), 7, String::new()).unwrap(), 0);
    assert_eq!(dapp.get_position(acc("alice.x")), 12);
}

#[test]
fn the_message_decides_what_becomes_of_a_token() {
    let mut dapp = TestDapp::new(acc("token.x"));
    let mut send = |msg: &str| {
        dapp.nft_on_transfer(acc("s.x"), acc("alice.x"), "t".to_string(), msg.to_string())
    };
    assert!(matches!(send("panic"), Err(DappError::ReceiverRejected)));
    assert!(matches!(send("return"), Ok(true)));
    assert!(matches!(send("keep"), Ok(false)));
    assert_eq!(dapp.get_session_actions(acc("alice.x")), 1);
    dapp.record_session_action(&ctx("alice.x", 0));
    assert_eq!(dapp.get_session_actions(acc("alice.x")), 2);
}

#[test]
fn stake_moves_from_staked_to_unstaked_to_its_owner() {
    let mut pool = TestStakingPool::new();
    assert!(matches!(pool.deposit_and_stake(&ctx("alice.x", 0)), Err(PoolError::NoDeposit)));
    pool.deposit_and_stake(&ctx("alice.x", 100)).unwrap();
    pool.deposit_and_stake(&ctx("bob.x", 7)).unwrap();
    let alice = ctx("alice.x", 0);
    assert!(matches!(pool.unstake(&alice, 101), Err(PoolError::NotEnoughStaked)));
    pool.unstake(&alice, 40).unwrap();
    assert_eq!(pool.get_account_staked_balance(acc("alice.x")), 60);
    assert_eq!(pool.get_account_unstaked_balance(acc("alice.x")), 40);
    assert_eq!(pool.get_account_total_balance(acc("alice.x")), 100);
    assert!(matches!(pool.withdraw(&alice, 41), Err(PoolError::NotEnoughUnstaked)));
    assert_eq!(pool.withdraw(&alice, 15).unwrap(), (acc("alice.x"), 15));
    assert_eq!(pool.get_account_total_balance(acc("alice.x")), 85);
    assert_eq!(pool.get_account_total_balance(acc("bob.x")), 7);
}
