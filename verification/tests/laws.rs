use cosmwasm_std::{MemoryStorage, ReadonlyStorage, Storage};
use token_ledger::contract::{
    burned, debited, handle, init, process_allowance, query, query_balance, transferred,
    try_burn_inner, try_transfer_inner,
};
use token_ledger::error::{ContractError, DebitSite, OverflowSite};
use token_ledger::host::{same_address, Api, Env, Extern, MessageInfo};
use token_ledger::msg::{BalanceResponse, HandleMsg, InitMsg, QueryMsg};
use token_ledger::state::{
    Allowance, Allowances, Balances, ReadOnlyAllowances, ReadOnlyBalances, State,
};

const ACCOUNTS: [&str; 4] = ["minter", "alice", "bob", "carol"];

fn canonical(human: &str) -> Vec<u8> {
    let mut bytes = human.as_bytes().to_vec();
    bytes.resize(8, 0);
    bytes
}

fn deps() -> Extern {
    let mut api = Api::new();
    for name in ACCOUNTS {
        api.insert(name.to_string(), canonical(name));
    }
    Extern { storage: MemoryStorage::new(), api }
}

fn env(sender: &str) -> Env {
    Env { message: MessageInfo { sender: sender.to_string() } }
}

fn balance(deps: &Extern, human: &str) -> u128 {
    ReadOnlyBalances::new(&deps.storage).get(&canonical(human)).unwrap()
}

fn sum_of_balances(deps: &Extern) -> u128 {
    ACCOUNTS.iter().map(|name| balance(deps, name)).sum()
}

fn total_supply(deps: &Extern) -> u128 {
    State::read(&deps.storage).load().unwrap().total_supply
}

fn snapshot(deps: &Extern) -> Vec<Option<Vec<u8>>> {
    let mut keys: Vec<Vec<u8>> = vec![b"\x00\x05statestate".to_vec()];
    for a in ACCOUNTS {
        let mut key = b"\x00\x08balances".to_vec();
        key.extend_from_slice(&canonical(a));
        keys.push(key);
        for b in ACCOUNTS {
            let mut key = b"\x00\x0aallowances\x00\x08".to_vec();
            key.extend_from_slice(&canonical(a));
            key.extend_from_slice(&canonical(b));
            keys.push(key);
        }
    }
    keys.iter().map(|key| deps.storage.get(key)).collect()
}

fn fresh(total: u128) -> Extern {
    let mut deps = deps();
    init(&mut deps, env("minter"), InitMsg { minter: "minter".to_string(), total_supply: total })
        .unwrap();
    deps
}

#[test]
fn supply_is_the_sum_of_the_balances_after_every_call() {
    let mut deps = fresh(0);
    assert_eq!(total_supply(&deps), sum_of_balances(&deps));
    let calls: Vec<(&str, HandleMsg)> = vec![
        ("minter", HandleMsg::Mint { recipient: "alice".to_string(), amount: 500 }),
        ("minter", HandleMsg::Mint { recipient: "bob".to_string(), amount: 70 }),
        ("alice", HandleMsg::Transfer { to: "bob".to_string(), amount: 120 }),
        ("alice", HandleMsg::Transfer { to: "carol".to_string(), amount: 1000 }),
        ("bob", HandleMsg::Burn { amount: 90 }),
        ("bob", HandleMsg::Burn { amount: 1000 }),
        ("alice", HandleMsg::Mint { recipient: "alice".to_string(), amount: 9 }),
        (
            "alice",
            HandleMsg::SetAllowance { spender: "carol".to_string(), amount: 50, is_allowed: true },
        ),
        (
            "carol",
            HandleMsg::TransferFrom {
                from: "alice".to_string(),
                to: "carol".to_string(),
                amount: 20,
            },
        ),
        ("carol", HandleMsg::BurnFrom { from: "alice".to_string(), amount: 30 }),
        ("carol", HandleMsg::BurnFrom { from: "alice".to_string(), amount: 1 }),
        ("alice", HandleMsg::Transfer { to: "alice".to_string(), amount: 10 }),
        ("minter", HandleMsg::Mint { recipient: "minter".to_string(), amount: 1 }),
    ];
    let expected: [u128; 13] = [500, 570, 570, 570, 480, 480, 480, 480, 480, 450, 450, 450, 451];
    for ((sender, msg), total) in calls.into_iter().zip(expected) {
        let _ = handle(&mut deps, env(sender), msg);
        assert_eq!(total_supply(&deps), total);
        assert_eq!(sum_of_balances(&deps), total);
    }
    assert_eq!(balance(&deps, "alice"), 330);
    assert_eq!(balance(&deps, "bob"), 100);
    assert_eq!(balance(&deps, "carol"), 20);
    assert_eq!(balance(&deps, "minter"), 1);
}

#[test]
fn declared_supply_stays_unbacked() {
    let mut deps = fresh(1000);
    handle(&mut deps, env("minter"), HandleMsg::Mint { recipient: "alice".to_string(), amount: 5 })
        .unwrap();
    handle(&mut deps, env("alice"), HandleMsg::Burn { amount: 2 }).unwrap();
    assert_eq!(total_supply(&deps), 1003);
    assert_eq!(sum_of_balances(&deps), 3);
}

#[test]
fn failed_call_changes_nothing() {
    let mut deps = fresh(0);
    handle(&mut deps, env("minter"), HandleMsg::Mint { recipient: "alice".to_string(), amount: 5 })
        .unwrap();
    handle(
        &mut deps,
        env("alice"),
        HandleMsg::SetAllowance { spender: "carol".to_string(), amount: 100, is_allowed: true },
    )
    .unwrap();
    let before = snapshot(&deps);
    let failing: Vec<(&str, HandleMsg, ContractError)> = vec![
        (
            "bob",
            HandleMsg::Mint { recipient: "bob".to_string(), amount: 1 },
            ContractError::Unauthorized,
        ),
        (
            "minter",
            HandleMsg::Mint { recipient: "alice".to_string(), amount: u128::MAX },
            ContractError::ArithmeticOverflow(OverflowSite::MintUser),
        ),
        (
            "minter",
            HandleMsg::Mint { recipient: "bob".to_string(), amount: u128::MAX },
            ContractError::ArithmeticOverflow(OverflowSite::MintTotal),
        ),
        (
            "alice",
            HandleMsg::Transfer { to: "bob".to_string(), amount: 6 },
            ContractError::AmountExceedsBalance(DebitSite::Transfer),
        ),
        (
            "alice",
            HandleMsg::Burn { amount: 6 },
            ContractError::AmountExceedsBalance(DebitSite::Burn),
        ),
        (
            "carol",
            HandleMsg::TransferFrom { from: "alice".to_string(), to: "bob".to_string(), amount: 6 },
            ContractError::AmountExceedsBalance(DebitSite::Transfer),
        ),
        (
            "carol",
            HandleMsg::BurnFrom { from: "alice".to_string(), amount: 6 },
            ContractError::AmountExceedsBalance(DebitSite::Burn),
        ),
        (
            "carol",
            HandleMsg::TransferFrom {
                from: "alice".to_string(),
                to: "bob".to_string(),
                amount: 101,
            },
            ContractError::AmountExceedsAllowance,
        ),
        (
            "bob",
            HandleMsg::BurnFrom { from: "alice".to_string(), amount: 1 },
            ContractError::Unauthorized,
        ),
        (
            "alice",
            HandleMsg::Transfer { to: "nobody".to_string(), amount: 1 },
            ContractError::InvalidAddress,
        ),
    ];
    for (sender, msg, error) in failing {
        assert_eq!(handle(&mut deps, env(sender), msg), Err(error));
        assert_eq!(snapshot(&deps), before);
    }
}

#[test]
fn burn_that_empties_the_supply_first_changes_nothing() {
    let mut deps = fresh(0);
    Balances::new(&mut deps.storage).set(&canonical("alice"), 10).unwrap();
    let before = snapshot(&deps);
    assert_eq!(
        handle(&mut deps, env("alice"), HandleMsg::Burn { amount: 4 }),
        Err(ContractError::ArithmeticOverflow(OverflowSite::BurnTotal))
    );
    assert_eq!(snapshot(&deps), before);
    assert_eq!(
        try_burn_inner(&mut deps, canonical("alice"), 4),
        Err(ContractError::ArithmeticOverflow(OverflowSite::BurnTotal))
    );
    assert_eq!(snapshot(&deps), before);
    assert_eq!(balance(&deps, "alice"), 10);
}

#[test]
fn malformed_entry_is_a_codec_error_and_stays() {
    let mut deps = fresh(0);
    deps.storage.set(b"\x00\x08balancesalice\0\0\0", b"oops");
    let before = snapshot(&deps);
    assert_eq!(
        handle(&mut deps, env("alice"), HandleMsg::Transfer { to: "bob".to_string(), amount: 0 }),
        Err(ContractError::CodecError)
    );
    assert_eq!(
        handle(&mut deps, env("minter"), HandleMsg::Mint { recipient: "alice".to_string(), amount: 1 }),
        Err(ContractError::CodecError)
    );
    assert_eq!(
        query(&deps, QueryMsg::GetBalance { user: "alice".to_string() }),
        Err(ContractError::CodecError)
    );
    assert_eq!(snapshot(&deps), before);
}

#[test]
fn never_credited_account_reads_zero() {
    let deps = fresh(123);
    for name in ACCOUNTS {
        assert_eq!(query_balance(&deps, name.to_string()), Ok(BalanceResponse { amount: 0 }));
        assert_eq!(
            query(&deps, QueryMsg::GetBalance { user: name.to_string() }),
            Ok(br#"{"amount":"0"}"#.to_vec())
        );
    }
    let mut deps = deps;
    handle(&mut deps, env("minter"), HandleMsg::Mint { recipient: "alice".to_string(), amount: 5 })
        .unwrap();
    assert_eq!(query_balance(&deps, "alice".to_string()), Ok(BalanceResponse { amount: 5 }));
    assert_eq!(query_balance(&deps, "bob".to_string()), Ok(BalanceResponse { amount: 0 }));
}

#[test]
fn query_writes_nothing() {
    let mut deps = fresh(0);
    handle(&mut deps, env("minter"), HandleMsg::Mint { recipient: "alice".to_string(), amount: 5 })
        .unwrap();
    let before = snapshot(&deps);
    query(&deps, QueryMsg::GetBalance { user: "alice".to_string() }).unwrap();
    query(&deps, QueryMsg::GetBalance { user: "bob".to_string() }).unwrap();
    assert_eq!(snapshot(&deps), before);
}

#[test]
fn denied_allowance_blocks_the_spender() {
    for amount in [0u128, 1, 1000, u128::MAX] {
        let mut deps = fresh(0);
        handle(
            &mut deps,
            env("minter"),
            HandleMsg::Mint { recipient: "alice".to_string(), amount: 500 },
        )
        .unwrap();
        handle(
            &mut deps,
            env("alice"),
            HandleMsg::SetAllowance { spender: "carol".to_string(), amount, is_allowed: false },
        )
        .unwrap();
        let before = snapshot(&deps);
        for asked in [0u128, 1, 500] {
            assert_eq!(
                handle(
                    &mut deps,
                    env("carol"),
                    HandleMsg::TransferFrom {
                        from: "alice".to_string(),
                        to: "bob".to_string(),
                        amount: asked,
                    },
                ),
                Err(ContractError::Unauthorized)
            );
            assert_eq!(
                handle(
                    &mut deps,
                    env("carol"),
                    HandleMsg::BurnFrom { from: "alice".to_string(), amount: asked },
                ),
                Err(ContractError::Unauthorized)
            );
        }
        assert_eq!(snapshot(&deps), before);
    }
}

#[test]
fn set_allowance_replaces_what_was_granted() {
    let mut deps = fresh(0);
    handle(&mut deps, env("minter"), HandleMsg::Mint { recipient: "alice".to_string(), amount: 500 })
        .unwrap();
    handle(
        &mut deps,
        env("alice"),
        HandleMsg::SetAllowance { spender: "carol".to_string(), amount: 100, is_allowed: true },
    )
    .unwrap();
    handle(
        &mut deps,
        env("alice"),
        HandleMsg::SetAllowance { spender: "carol".to_string(), amount: 7, is_allowed: true },
    )
    .unwrap();
    assert_eq!(
        ReadOnlyAllowances::new(&canonical("alice"), &deps.storage).get(&canonical("carol")),
        Ok(Some(Allowance { is_allowed: true, amount: 7 }))
    );
    assert_eq!(
        handle(
            &mut deps,
            env("carol"),
            HandleMsg::TransferFrom { from: "alice".to_string(), to: "bob".to_string(), amount: 8 },
        ),
        Err(ContractError::AmountExceedsAllowance)
    );
}

#[test]
fn transfer_from_leaves_the_rest_of_the_allowance() {
    for (granted, asked) in [(10_000u128, 1000u128), (5, 5), (7, 0), (u128::MAX, 300)] {
        let mut deps = fresh(0);
        handle(
            &mut deps,
            env("minter"),
            HandleMsg::Mint { recipient: "alice".to_string(), amount: 1000 },
        )
        .unwrap();
        handle(
            &mut deps,
            env("alice"),
            HandleMsg::SetAllowance {
                spender: "carol".to_string(),
                amount: granted,
                is_allowed: true,
            },
        )
        .unwrap();
        handle(
            &mut deps,
            env("carol"),
            HandleMsg::TransferFrom {
                from: "alice".to_string(),
                to: "bob".to_string(),
                amount: asked,
            },
        )
        .unwrap();
        assert_eq!(
            ReadOnlyAllowances::new(&canonical("alice"), &deps.storage).get(&canonical("carol")),
            Ok(Some(Allowance { is_allowed: true, amount: granted - asked }))
        );
        assert_eq!(balance(&deps, "bob"), asked);
        assert_eq!(balance(&deps, "alice"), 1000 - asked);
    }
}

#[test]
fn self_transfer_keeps_the_balance() {
    let mut deps = fresh(0);
    handle(&mut deps, env("minter"), HandleMsg::Mint { recipient: "alice".to_string(), amount: 500 })
        .unwrap();
    for amount in [0u128, 1, 499, 500] {
        handle(&mut deps, env("alice"), HandleMsg::Transfer { to: "alice".to_string(), amount })
            .unwrap();
        assert_eq!(balance(&deps, "alice"), 500);
        assert_eq!(total_supply(&deps), 500);
    }
    let before = snapshot(&deps);
    assert_eq!(
        handle(
            &mut deps,
            env("alice"),
            HandleMsg::Transfer { to: "alice".to_string(), amount: 501 },
        ),
        Err(ContractError::AmountExceedsBalance(DebitSite::Transfer))
    );
    assert_eq!(snapshot(&deps), before);
    assert_eq!(transferred(&deps.storage, &canonical("alice"), &canonical("alice"), 200), Ok((300, 500)));
    assert_eq!(try_transfer_inner(&mut deps, canonical("alice"), canonical("alice"), 200), Ok(()));
    assert_eq!(balance(&deps, "alice"), 500);
}

#[test]
fn self_transfer_of_a_full_balance_does_not_overflow() {
    let mut deps = fresh(0);
    handle(
        &mut deps,
        env("minter"),
        HandleMsg::Mint { recipient: "alice".to_string(), amount: u128::MAX },
    )
    .unwrap();
    handle(&mut deps, env("alice"), HandleMsg::Transfer { to: "alice".to_string(), amount: 1 })
        .unwrap();
    assert_eq!(balance(&deps, "alice"), u128::MAX);
}

#[test]
fn checks_write_nothing() {
    let mut deps = fresh(10);
    Balances::new(&mut deps.storage).set(&canonical("alice"), 9).unwrap();
    Allowances::new(&canonical("alice"), &mut deps.storage)
        .set(&canonical("carol"), Allowance { is_allowed: true, amount: 4 })
        .unwrap();
    let before = snapshot(&deps);
    assert_eq!(transferred(&deps.storage, &canonical("alice"), &canonical("bob"), 3), Ok((6, 3)));
    assert_eq!(
        burned(&deps.storage, &canonical("alice"), 3),
        Ok((6, State { minter: "minter".to_string(), total_supply: 7 }))
    );
    assert_eq!(
        debited(&deps.storage, &canonical("alice"), &canonical("carol"), 3),
        Ok(Allowance { is_allowed: true, amount: 1 })
    );
    assert_eq!(
        debited(&deps.storage, &canonical("alice"), &canonical("carol"), 5),
        Err(ContractError::AmountExceedsAllowance)
    );
    assert_eq!(
        debited(&deps.storage, &canonical("alice"), &canonical("bob"), 0),
        Err(ContractError::Unauthorized)
    );
    assert_eq!(snapshot(&deps), before);

    assert_eq!(
        process_allowance(&mut deps.storage, &canonical("alice"), &canonical("carol"), 3),
        Ok(())
    );
    assert_eq!(
        ReadOnlyAllowances::new(&canonical("alice"), &deps.storage).get(&canonical("carol")),
        Ok(Some(Allowance { is_allowed: true, amount: 1 }))
    );
    let before = snapshot(&deps);
    assert_eq!(
        process_allowance(&mut deps.storage, &canonical("alice"), &canonical("carol"), 2),
        Err(ContractError::AmountExceedsAllowance)
    );
    assert_eq!(snapshot(&deps), before);
}

#[test]
fn minter_is_compared_by_canonical_form() {
    let mut api = Api::new();
    api.insert("minter".to_string(), b"MINT".to_vec());
    api.insert("the minter".to_string(), b"MINT".to_vec());
    api.insert("alice".to_string(), b"ALIC".to_vec());
    let mut deps = Extern { storage: MemoryStorage::new(), api };
    init(&mut deps, env("alice"), InitMsg { minter: "minter".to_string(), total_supply: 0 })
        .unwrap();
    handle(
        &mut deps,
        env("the minter"),
        HandleMsg::Mint { recipient: "alice".to_string(), amount: 3 },
    )
    .unwrap();
    assert_eq!(ReadOnlyBalances::new(&deps.storage).get(&b"ALIC".to_vec()), Ok(3));
}

#[test]
fn api_gives_the_last_answer() {
    let mut api = Api::new();
    assert_eq!(api.canonical_address(&"alice".to_string()), Err(ContractError::InvalidAddress));
    api.insert("alice".to_string(), vec![1, 2, 3]);
    api.insert("bob".to_string(), vec![4]);
    assert_eq!(api.canonical_address(&"alice".to_string()), Ok(vec![1, 2, 3]));
    api.insert("alice".to_string(), vec![9]);
    assert_eq!(api.canonical_address(&"alice".to_string()), Ok(vec![9]));
    assert_eq!(api.canonical_address(&"bob".to_string()), Ok(vec![4]));
    assert_eq!(api.canonical_address(&"carol".to_string()), Err(ContractError::InvalidAddress));
    api.insert("dave".to_string(), vec![0; 0x10000]);
    assert_eq!(api.canonical_address(&"dave".to_string()), Err(ContractError::InvalidAddress));
    api.insert("erin".to_string(), vec![0; 0xFFFF]);
    assert_eq!(api.canonical_address(&"erin".to_string()), Ok(vec![0; 0xFFFF]));
}

#[test]
fn same_address_compares_bytes() {
    assert!(same_address(&vec![1, 2, 3], &vec![1, 2, 3]));
    assert!(same_address(&vec![], &vec![]));
    assert!(!same_address(&vec![1, 2, 3], &vec![1, 2]));
    assert!(!same_address(&vec![1, 2, 3], &vec![1, 2, 4]));
}
