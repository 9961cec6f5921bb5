//! The layout of the keys under which the ledger stores its entries.
//!
//! A namespace is written as its length, two bytes with the high byte first,
//! followed by its bytes. A key is one or two such namespaces followed by the
//! key inside the innermost one, written as it is.

use vstd::prelude::*;

verus! {

/// The namespace, and the key inside it, of the ledger's state: `state`.
pub const STATE_KEY: [u8; 5] = [0x73, 0x74, 0x61, 0x74, 0x65];

/// The namespace of the balances: `balances`.
pub const BALANCES_KEY: [u8; 8] = [0x62, 0x61, 0x6c, 0x61, 0x6e, 0x63, 0x65, 0x73];

/// The namespace of the spending permissions: `allowances`.
pub const ALLOWANCES_KEY: [u8; 10] = [0x61, 0x6c, 0x6c, 0x6f, 0x77, 0x61, 0x6e, 0x63, 0x65, 0x73];

/// The longest namespace that has a length prefix.
pub const MAX_NAMESPACE_LEN: usize = 0xFFFF;

/// A namespace behind its two-byte length.
pub open spec fn length_prefixed(namespace: Seq<u8>) -> Seq<u8> {
    seq![(namespace.len() / 256) as u8, (namespace.len() % 256) as u8] + namespace
}

/// The key of the ledger's state.
pub open spec fn state_key() -> Seq<u8> {
    length_prefixed(STATE_KEY@) + STATE_KEY@
}

/// What every balance key starts with.
pub open spec fn balances_prefix() -> Seq<u8> {
    length_prefixed(BALANCES_KEY@)
}

/// The key of the balance of `addr`.
pub open spec fn balance_key(addr: Seq<u8>) -> Seq<u8> {
    balances_prefix() + addr
}

/// What the key of every permission that `owner` granted starts with.
pub open spec fn allowances_prefix(owner: Seq<u8>) -> Seq<u8> {
    length_prefixed(ALLOWANCES_KEY@) + length_prefixed(owner)
}

/// The key of the permission that `owner` granted to `spender`.
pub open spec fn allowance_key(owner: Seq<u8>, spender: Seq<u8>) -> Seq<u8> {
    allowances_prefix(owner) + spender
}

/// `cosmwasm_storage::to_length_prefixed`: the namespace behind its length as
/// two bytes, high byte first. The outside function panics on a namespace of
/// more than 0xFFFF bytes, which `requires` leaves out.
#[verifier::external_body]
pub(crate) fn to_length_prefixed(namespace: &[u8]) -> (prefix: Vec<u8>)
    requires
        namespace@.len() <= MAX_NAMESPACE_LEN,
    ensures
        prefix@ == length_prefixed(namespace@),
{
    cosmwasm_storage::to_length_prefixed(namespace)
}

/// `cosmwasm_storage::to_length_prefixed_nested` on two namespaces: the outer
/// one behind its length, then the inner one behind its length. The outside
/// function panics where either has more than 0xFFFF bytes.
#[verifier::external_body]
pub(crate) fn to_length_prefixed_nested(outer: &[u8], inner: &[u8]) -> (prefix: Vec<u8>)
    requires
        outer@.len() <= MAX_NAMESPACE_LEN,
        inner@.len() <= MAX_NAMESPACE_LEN,
    ensures
        prefix@ == length_prefixed(outer@) + length_prefixed(inner@),
{
    cosmwasm_storage::to_length_prefixed_nested(&[outer, inner])
}

/// The bytes of `prefix` followed by those of `key`.
pub fn prefixed_key(prefix: &[u8], key: &[u8]) -> (full: Vec<u8>)
    ensures
        full@ == prefix@ + key@,
{
    let mut full: Vec<u8> = Vec::new();
    full.extend_from_slice(prefix);
    full.extend_from_slice(key);
    full
}

/// The key of the ledger's state, as bytes.
pub fn state_entry_key() -> (key: Vec<u8>)
    ensures
        key@ == state_key(),
{
    let prefix = to_length_prefixed(&STATE_KEY);
    prefixed_key(prefix.as_slice(), &STATE_KEY)
}

/// The key of the balance of `addr`, as bytes.
pub fn balance_entry_key(addr: &[u8]) -> (key: Vec<u8>)
    ensures
        key@ == balance_key(addr@),
{
    let prefix = to_length_prefixed(&BALANCES_KEY);
    prefixed_key(prefix.as_slice(), addr)
}

/// The key of the permission that `owner` granted to `spender`, as bytes.
pub fn allowance_entry_key(owner: &[u8], spender: &[u8]) -> (key: Vec<u8>)
    requires
        owner@.len() <= MAX_NAMESPACE_LEN,
    ensures
        key@ == allowance_key(owner@, spender@),
{
    let prefix = to_length_prefixed_nested(&ALLOWANCES_KEY, owner);
    prefixed_key(prefix.as_slice(), spender)
}

/// A length prefix tells how long the namespace behind it is, so two
/// namespaces with equal prefixed forms, each followed by anything, are equal,
/// and so is what follows them.
pub proof fn length_prefixed_is_injective(a: Seq<u8>, rest_a: Seq<u8>, b: Seq<u8>, rest_b: Seq<u8>)
    requires
        a.len() <= MAX_NAMESPACE_LEN,
        b.len() <= MAX_NAMESPACE_LEN,
        length_prefixed(a) + rest_a == length_prefixed(b) + rest_b,
    ensures
        a == b,
        rest_a == rest_b,
{
    let x = length_prefixed(a) + rest_a;
    let y = length_prefixed(b) + rest_b;
    assert(x[0] == (a.len() / 256) as u8);
    assert(x[1] == (a.len() % 256) as u8);
    assert(y[0] == (b.len() / 256) as u8);
    assert(y[1] == (b.len() % 256) as u8);
    assert(a.len() == b.len());
    assert(a =~= x.subrange(2, 2 + a.len() as int));
    assert(b =~= y.subrange(2, 2 + b.len() as int));
    assert(rest_a =~= x.subrange(2 + a.len() as int, x.len() as int));
    assert(rest_b =~= y.subrange(2 + b.len() as int, y.len() as int));
}

/// Each account has a balance key of its own.
pub proof fn balance_key_is_injective(a: Seq<u8>, b: Seq<u8>)
    requires
        balance_key(a) == balance_key(b),
    ensures
        a == b,
{
    length_prefixed_is_injective(BALANCES_KEY@, a, BALANCES_KEY@, b);
}

/// Each pair of an owner and a spender has a permission key of its own.
pub proof fn allowance_key_is_injective(
    owner_a: Seq<u8>,
    spender_a: Seq<u8>,
    owner_b: Seq<u8>,
    spender_b: Seq<u8>,
)
    requires
        owner_a.len() <= MAX_NAMESPACE_LEN,
        owner_b.len() <= MAX_NAMESPACE_LEN,
        allowance_key(owner_a, spender_a) == allowance_key(owner_b, spender_b),
    ensures
        owner_a == owner_b,
        spender_a == spender_b,
{
    let tail_a = length_prefixed(owner_a) + spender_a;
    let tail_b = length_prefixed(owner_b) + spender_b;
    assert(allowance_key(owner_a, spender_a) =~= length_prefixed(ALLOWANCES_KEY@) + tail_a);
    assert(allowance_key(owner_b, spender_b) =~= length_prefixed(ALLOWANCES_KEY@) + tail_b);
    length_prefixed_is_injective(ALLOWANCES_KEY@, tail_a, ALLOWANCES_KEY@, tail_b);
    length_prefixed_is_injective(owner_a, spender_a, owner_b, spender_b);
}

/// The state, the balances and the permissions never share a key.
pub proof fn namespaces_are_disjoint(addr: Seq<u8>, owner: Seq<u8>, spender: Seq<u8>)
    ensures
        state_key() != balance_key(addr),
        state_key() != allowance_key(owner, spender),
        balance_key(addr) != allowance_key(owner, spender),
{
    assert(state_key()[1] == 5);
    assert(balance_key(addr)[1] == 8);
    assert(allowance_key(owner, spender)[1] == 10);
}

} // verus!
