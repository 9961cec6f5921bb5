use cosmwasm_std::{MemoryStorage, ReadonlyStorage, Storage};
use token_ledger::contract::{
    footprint, footprint_of_query, handle, init, query, recorded_minter,
};
use token_ledger::error::ContractError;
use token_ledger::host::{Api, Env, Extern, MessageInfo};
use token_ledger::keys::{allowance_entry_key, balance_entry_key, state_entry_key};
use token_ledger::msg::{HandleMsg, InitMsg, QueryMsg};

const ACCOUNTS: [&str; 4] = ["minter", "alice", "bob", "carol"];

fn canonical(human: &str) -> Vec<u8> {
    let mut bytes = human.as_bytes().to_vec();
    bytes.resize(8, 0);
    bytes
}

fn api() -> Api {
    let mut api = Api::new();
    for name in ACCOUNTS {
        api.insert(name.to_string(), canonical(name));
    }
    api
}

fn env(sender: &str) -> Env {
    Env { message: MessageInfo { sender: sender.to_string() } }
}

fn key(parts: &[&[u8]]) -> Vec<u8> {
    parts.concat()
}

fn messages() -> Vec<(&'static str, HandleMsg)> {
    vec![
        ("minter", HandleMsg::Mint { recipient: "alice".to_string(), amount: 500 }),
        ("alice", HandleMsg::Transfer { to: "bob".to_string(), amount: 120 }),
        ("alice", HandleMsg::Transfer { to: "bob".to_string(), amount: 1000 }),
        ("bob", HandleMsg::Burn { amount: 20 }),
        (
            "alice",
            HandleMsg::SetAllowance { spender: "carol".to_string(), amount: 50, is_allowed: true },
        ),
        (
            "carol",
            HandleMsg::TransferFrom {
                from: "alice".to_string(),
                to: "minter".to_string(),
                amount: 20,
            },
        ),
        ("carol", HandleMsg::BurnFrom { from: "alice".to_string(), amount: 30 }),
        ("carol", HandleMsg::BurnFrom { from: "alice".to_string(), amount: 1 }),
        ("bob", HandleMsg::Mint { recipient: "bob".to_string(), amount: 1 }),
        ("alice", HandleMsg::Transfer { to: "nobody".to_string(), amount: 1 }),
    ]
}

#[test]
fn key_builders_write_the_layout() {
    assert_eq!(state_entry_key(), b"\x00\x05statestate".to_vec());
    assert_eq!(balance_entry_key(b"abc"), b"\x00\x08balancesabc".to_vec());
    assert_eq!(balance_entry_key(b""), b"\x00\x08balances".to_vec());
    assert_eq!(
        allowance_entry_key(b"owner", b"spender"),
        b"\x00\x0aallowances\x00\x05ownerspender".to_vec()
    );
    assert_eq!(allowance_entry_key(b"", b""), b"\x00\x0aallowances\x00\x00".to_vec());
    let long = vec![1u8; 0xFFFF];
    let built = allowance_entry_key(&long, b"s");
    assert_eq!(&built[..14], b"\x00\x0aallowances\xff\xff");
    assert_eq!(built.len(), 12 + 2 + 0xFFFF + 1);
}

#[test]
fn footprint_names_the_entries_of_each_message() {
    let api = api();
    let state = state_entry_key();
    let balance = |name: &str| balance_entry_key(&canonical(name));
    let allowance = |owner: &str, spender: &str| {
        allowance_entry_key(&canonical(owner), &canonical(spender))
    };
    assert_eq!(
        footprint(
            &api,
            &"alice".to_string(),
            &HandleMsg::Transfer { to: "bob".to_string(), amount: 1 }
        ),
        vec![balance("alice"), balance("bob")]
    );
    assert_eq!(
        footprint(&api, &"alice".to_string(), &HandleMsg::Burn { amount: 1 }),
        vec![balance("alice"), state.clone()]
    );
    assert_eq!(
        footprint(
            &api,
            &"alice".to_string(),
            &HandleMsg::SetAllowance { spender: "carol".to_string(), amount: 1, is_allowed: true }
        ),
        vec![allowance("alice", "carol")]
    );
    assert_eq!(
        footprint(
            &api,
            &"carol".to_string(),
            &HandleMsg::TransferFrom {
                from: "alice".to_string(),
                to: "bob".to_string(),
                amount: 1
            }
        ),
        vec![allowance("alice", "carol"), balance("alice"), balance("bob")]
    );
    assert_eq!(
        footprint(
            &api,
            &"carol".to_string(),
            &HandleMsg::BurnFrom { from: "alice".to_string(), amount: 1 }
        ),
        vec![allowance("alice", "carol"), balance("alice"), state.clone()]
    );
    assert_eq!(
        footprint(
            &api,
            &"minter".to_string(),
            &HandleMsg::Mint { recipient: "alice".to_string(), amount: 1 }
        ),
        vec![state, balance("alice")]
    );
    assert_eq!(
        footprint(
            &api,
            &"nobody".to_string(),
            &HandleMsg::Mint { recipient: "alice".to_string(), amount: 1 }
        ),
        Vec::<Vec<u8>>::new()
    );
    assert_eq!(
        footprint(
            &api,
            &"alice".to_string(),
            &HandleMsg::Transfer { to: "nobody".to_string(), amount: 1 }
        ),
        Vec::<Vec<u8>>::new()
    );
    assert_eq!(
        footprint_of_query(&api, &QueryMsg::GetBalance { user: "bob".to_string() }),
        vec![balance("bob")]
    );
    assert_eq!(
        footprint_of_query(&api, &QueryMsg::GetBalance { user: "nobody".to_string() }),
        Vec::<Vec<u8>>::new()
    );
}

#[test]
fn addresses_are_those_of_the_message() {
    let none: Vec<String> = Vec::new();
    assert_eq!(HandleMsg::Burn { amount: 1 }.addresses(), none);
    assert_eq!(
        HandleMsg::Transfer { to: "bob".to_string(), amount: 1 }.addresses(),
        vec!["bob".to_string()]
    );
    assert_eq!(
        HandleMsg::SetAllowance { spender: "carol".to_string(), amount: 1, is_allowed: false }
            .addresses(),
        vec!["carol".to_string()]
    );
    assert_eq!(
        HandleMsg::TransferFrom { from: "alice".to_string(), to: "bob".to_string(), amount: 1 }
            .addresses(),
        vec!["alice".to_string(), "bob".to_string()]
    );
    assert_eq!(
        HandleMsg::BurnFrom { from: "alice".to_string(), amount: 1 }.addresses(),
        vec!["alice".to_string()]
    );
    assert_eq!(
        HandleMsg::Mint { recipient: "alice".to_string(), amount: 1 }.addresses(),
        vec!["alice".to_string()]
    );
}

#[test]
fn recorded_minter_is_given_for_a_mint_only() {
    let mut deps = Extern { storage: MemoryStorage::new(), api: api() };
    let mint = HandleMsg::Mint { recipient: "alice".to_string(), amount: 1 };
    assert_eq!(recorded_minter(&deps.storage, &mint), None);
    init(&mut deps, env("alice"), InitMsg { minter: "minter".to_string(), total_supply: 0 })
        .unwrap();
    assert_eq!(recorded_minter(&deps.storage, &mint), Some("minter".to_string()));
    assert_eq!(recorded_minter(&deps.storage, &HandleMsg::Burn { amount: 1 }), None);
    assert_eq!(
        recorded_minter(
            &deps.storage,
            &HandleMsg::Transfer { to: "minter".to_string(), amount: 1 }
        ),
        None
    );
}

/// Handles `msg` on a copy of the entries of its footprint and writes them
/// back; gives what the ledger answered.
fn handle_on_a_copy(
    host: &mut MemoryStorage,
    sender: &str,
    msg: HandleMsg,
) -> Result<(), ContractError> {
    let keys = footprint(&api(), &sender.to_string(), &msg);
    let mut copy = MemoryStorage::new();
    for key in &keys {
        if let Some(value) = host.get(key) {
            copy.set(key, &value);
        }
    }
    let mut work = Extern { storage: copy, api: api() };
    handle(&mut work, env(sender), msg)?;
    for key in &keys {
        if let Some(value) = work.storage.get(key) {
            host.set(key, &value);
        }
    }
    Ok(())
}

fn all_entries(storage: &MemoryStorage) -> Vec<Option<Vec<u8>>> {
    let mut keys = vec![state_entry_key(), b"other".to_vec()];
    for a in ACCOUNTS {
        keys.push(balance_entry_key(&canonical(a)));
        for b in ACCOUNTS {
            keys.push(allowance_entry_key(&canonical(a), &canonical(b)));
        }
    }
    keys.iter().map(|key| storage.get(key)).collect()
}

#[test]
fn handling_on_a_copy_is_handling_on_the_store() {
    let mut direct = Extern { storage: MemoryStorage::new(), api: api() };
    init(&mut direct, env("alice"), InitMsg { minter: "minter".to_string(), total_supply: 7 })
        .unwrap();
    direct.storage.set(b"other", b"untouched");
    let mut host = MemoryStorage::new();
    host.set(&state_entry_key(), &direct.storage.get(&state_entry_key()).unwrap());
    host.set(b"other", b"untouched");

    for (sender, msg) in messages() {
        let expected = handle(&mut direct, env(sender), msg.clone()).map(|_| ());
        let got = handle_on_a_copy(&mut host, sender, msg);
        assert_eq!(got, expected);
        assert_eq!(all_entries(&host), all_entries(&direct.storage));
    }
    assert_eq!(host.get(b"other"), Some(b"untouched".to_vec()));
    assert_eq!(
        host.get(&balance_entry_key(&canonical("alice"))),
        Some(b"\"330\"".to_vec())
    );
}

#[test]
fn querying_a_copy_is_querying_the_store() {
    let mut direct = Extern { storage: MemoryStorage::new(), api: api() };
    init(&mut direct, env("alice"), InitMsg { minter: "minter".to_string(), total_supply: 0 })
        .unwrap();
    handle(&mut direct, env("minter"), HandleMsg::Mint { recipient: "bob".to_string(), amount: 9 })
        .unwrap();
    for user in ["bob", "alice", "nobody"] {
        let msg = QueryMsg::GetBalance { user: user.to_string() };
        let keys = footprint_of_query(&direct.api, &msg);
        let mut copy = MemoryStorage::new();
        for key in &keys {
            if let Some(value) = direct.storage.get(key) {
                copy.set(key, &value);
            }
        }
        let work = Extern { storage: copy, api: api() };
        assert_eq!(query(&work, msg.clone()), query(&direct, msg));
    }
}
