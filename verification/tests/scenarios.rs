use cosmwasm_std::testing::MockApi;
use cosmwasm_std::{Api as HostApi, HumanAddr as HostAddr, MemoryStorage, ReadonlyStorage};
use token_ledger::contract::{handle, init, query};
use token_ledger::error::{ContractError, OverflowSite};
use token_ledger::host::{Api, Env, Extern, MessageInfo};
use token_ledger::msg::{HandleMsg, InitMsg, QueryMsg};
use token_ledger::state::{Allowance, ReadOnlyAllowances, ReadOnlyBalances, State};

fn canonical(human: &str) -> Vec<u8> {
    MockApi::new(20).canonical_address(&HostAddr::from(human)).unwrap().as_slice().to_vec()
}

fn deps() -> Extern {
    let mut api = Api::new();
    for name in ["minter", "alice", "bob", "carol"] {
        api.insert(name.to_string(), canonical(name));
    }
    Extern { storage: MemoryStorage::new(), api }
}

fn env(sender: &str) -> Env {
    Env { message: MessageInfo { sender: sender.to_string() } }
}

fn balance(deps: &Extern, human: &str) -> u128 {
    ReadOnlyBalances::new(&deps.storage).get(&canonical(human)).unwrap()
}

fn queried(deps: &Extern, human: &str) -> Vec<u8> {
    query(deps, QueryMsg::GetBalance { user: human.to_string() }).unwrap()
}

fn total_supply(deps: &Extern) -> u128 {
    State::read(&deps.storage).load().unwrap().total_supply
}

fn allowance(deps: &Extern, owner: &str, spender: &str) -> Option<Allowance> {
    ReadOnlyAllowances::new(&canonical(owner), &deps.storage).get(&canonical(spender)).unwrap()
}

/// Every entry of the store that the tests can name, as raw bytes.
fn snapshot(deps: &Extern) -> Vec<Option<Vec<u8>>> {
    let mut keys: Vec<Vec<u8>> = vec![b"\x00\x05statestate".to_vec()];
    for a in ["minter", "alice", "bob", "carol"] {
        let mut key = b"\x00\x08balances".to_vec();
        key.extend_from_slice(&canonical(a));
        keys.push(key);
        for b in ["minter", "alice", "bob", "carol"] {
            let mut key = b"\x00\x0aallowances\x00\x14".to_vec();
            key.extend_from_slice(&canonical(a));
            key.extend_from_slice(&canonical(b));
            keys.push(key);
        }
    }
    keys.iter().map(|key| deps.storage.get(key)).collect()
}

fn initialised() -> Extern {
    let mut deps = deps();
    let msg = InitMsg { minter: "minter".to_string(), total_supply: 100_000_000 };
    init(&mut deps, env("minter"), msg).unwrap();
    deps
}

fn minted() -> Extern {
    let mut deps = initialised();
    let msg = HandleMsg::Mint { recipient: "alice".to_string(), amount: 1_000_000 };
    handle(&mut deps, env("minter"), msg).unwrap();
    deps
}

fn allowed() -> Extern {
    let mut deps = minted();
    let msg = HandleMsg::SetAllowance {
        spender: "carol".to_string(),
        amount: 10_000,
        is_allowed: true,
    };
    handle(&mut deps, env("alice"), msg).unwrap();
    let msg = HandleMsg::TransferFrom {
        from: "alice".to_string(),
        to: "bob".to_string(),
        amount: 1000,
    };
    handle(&mut deps, env("carol"), msg).unwrap();
    deps
}

#[test]
fn init_credits_nobody() {
    let deps = initialised();
    assert_eq!(queried(&deps, "minter"), br#"{"amount":"0"}"#.to_vec());
    assert_eq!(balance(&deps, "minter"), 0);
    assert_eq!(total_supply(&deps), 100_000_000);
    let entries = snapshot(&deps);
    assert!(entries[0].is_some());
    assert!(entries[1..].iter().all(|entry| entry.is_none()));
}

#[test]
fn mint_credits_the_recipient_and_the_supply() {
    let deps = minted();
    assert_eq!(queried(&deps, "alice"), br#"{"amount":"1000000"}"#.to_vec());
    assert_eq!(balance(&deps, "alice"), 1_000_000);
    assert_eq!(total_supply(&deps), 101_000_000);
    assert_eq!(State::read(&deps.storage).load().unwrap().minter, "minter");
}

#[test]
fn mint_by_another_is_unauthorized() {
    let mut deps = minted();
    let before = snapshot(&deps);
    let msg = HandleMsg::Mint { recipient: "bob".to_string(), amount: 5 };
    assert_eq!(handle(&mut deps, env("bob"), msg), Err(ContractError::Unauthorized));
    assert_eq!(snapshot(&deps), before);
}

#[test]
fn transfer_moves_the_amount() {
    let mut deps = minted();
    let msg = HandleMsg::Transfer { to: "bob".to_string(), amount: 1000 };
    handle(&mut deps, env("alice"), msg).unwrap();
    assert_eq!(balance(&deps, "alice"), 999_000);
    assert_eq!(balance(&deps, "bob"), 1000);
    assert_eq!(queried(&deps, "alice"), br#"{"amount":"999000"}"#.to_vec());
    assert_eq!(queried(&deps, "bob"), br#"{"amount":"1000"}"#.to_vec());
    assert_eq!(total_supply(&deps), 101_000_000);
}

#[test]
fn transfer_from_debits_the_allowance() {
    let deps = allowed();
    assert_eq!(balance(&deps, "bob"), 1000);
    assert_eq!(balance(&deps, "alice"), 999_000);
    assert_eq!(
        allowance(&deps, "alice", "carol"),
        Some(Allowance { is_allowed: true, amount: 9000 })
    );
}

#[test]
fn transfer_from_above_the_allowance_is_refused() {
    let mut deps = allowed();
    let before = snapshot(&deps);
    let msg = HandleMsg::TransferFrom {
        from: "alice".to_string(),
        to: "bob".to_string(),
        amount: 20_000,
    };
    assert_eq!(handle(&mut deps, env("carol"), msg), Err(ContractError::AmountExceedsAllowance));
    assert_eq!(snapshot(&deps), before);
    assert_eq!(balance(&deps, "alice"), 999_000);
    assert_eq!(balance(&deps, "bob"), 1000);
    assert_eq!(
        allowance(&deps, "alice", "carol"),
        Some(Allowance { is_allowed: true, amount: 9000 })
    );
}

#[test]
fn mint_of_the_largest_amount_overflows() {
    let mut deps = minted();
    let before = snapshot(&deps);
    let msg = HandleMsg::Mint { recipient: "alice".to_string(), amount: u128::MAX };
    assert_eq!(
        handle(&mut deps, env("minter"), msg),
        Err(ContractError::ArithmeticOverflow(OverflowSite::MintUser))
    );
    assert_eq!(snapshot(&deps), before);
    assert_eq!(total_supply(&deps), 101_000_000);
    assert_eq!(balance(&deps, "alice"), 1_000_000);
}

#[test]
fn burn_from_without_allowance_is_unauthorized() {
    let mut deps = minted();
    let before = snapshot(&deps);
    let msg = HandleMsg::BurnFrom { from: "alice".to_string(), amount: 1000 };
    assert_eq!(handle(&mut deps, env("carol"), msg), Err(ContractError::Unauthorized));
    assert_eq!(snapshot(&deps), before);
}

#[test]
fn transfer_to_a_full_balance_overflows() {
    let mut deps = initialised();
    State::write(&mut deps.storage)
        .update(|mut state| {
            state.total_supply = 0;
            Ok(state)
        })
        .unwrap();
    let msg = HandleMsg::Mint { recipient: "bob".to_string(), amount: u128::MAX - 5 };
    handle(&mut deps, env("minter"), msg).unwrap();
    let msg = HandleMsg::Burn { amount: 10 };
    handle(&mut deps, env("bob"), msg).unwrap();
    let msg = HandleMsg::Mint { recipient: "alice".to_string(), amount: 10 };
    handle(&mut deps, env("minter"), msg).unwrap();
    let msg = HandleMsg::Mint { recipient: "bob".to_string(), amount: 5 };
    handle(&mut deps, env("minter"), msg).unwrap();
    assert_eq!(balance(&deps, "bob"), u128::MAX - 10);
    assert_eq!(balance(&deps, "alice"), 10);
    assert_eq!(total_supply(&deps), u128::MAX);

    let before = snapshot(&deps);
    let msg = HandleMsg::Mint { recipient: "carol".to_string(), amount: 1 };
    assert_eq!(
        handle(&mut deps, env("minter"), msg),
        Err(ContractError::ArithmeticOverflow(OverflowSite::MintTotal))
    );
    assert_eq!(snapshot(&deps), before);

    State::write(&mut deps.storage)
        .update(|mut state| {
            state.total_supply = 7;
            Ok(state)
        })
        .unwrap();
    let msg = HandleMsg::Mint { recipient: "bob".to_string(), amount: 5 };
    handle(&mut deps, env("minter"), msg).unwrap();
    assert_eq!(balance(&deps, "bob"), u128::MAX - 5);
    let before = snapshot(&deps);
    let msg = HandleMsg::Transfer { to: "bob".to_string(), amount: 6 };
    assert_eq!(
        handle(&mut deps, env("alice"), msg),
        Err(ContractError::ArithmeticOverflow(OverflowSite::TransferReceive))
    );
    assert_eq!(snapshot(&deps), before);
    let msg = HandleMsg::Transfer { to: "bob".to_string(), amount: 5 };
    handle(&mut deps, env("alice"), msg).unwrap();
    assert_eq!(balance(&deps, "bob"), u128::MAX);
    assert_eq!(balance(&deps, "alice"), 5);
}
