//! The bytes that stand for the stored values.
//!
//! An amount is written as its decimal digits between two double quotes. A
//! permission and the ledger's state are written as objects with their fields
//! in a fixed order, the amounts in them written as above.

use vstd::prelude::*;
use cosmwasm_std::StdError;
use crate::error::ContractError;
use crate::state::{Allowance, State, StateView};

verus! {

/// `cosmwasm_std::StdError`, taken as it is: the error of the serialiser,
/// of which nothing is read.
#[verifier::external_type_specification]
#[verifier::external_body]
pub struct ExStdError(StdError);

/// The double quote that opens and closes a string.
pub const QUOTE: u8 = 0x22;

/// The digit `0`.
pub const ZERO: u8 = 0x30;

/// Whether `byte` is one of the digits `0` to `9`.
pub open spec fn is_digit(byte: u8) -> bool {
    ZERO <= byte <= ZERO + 9
}

/// Whether `digits` holds nothing but digits.
pub open spec fn all_digits(digits: Seq<u8>) -> bool {
    forall|i: int| 0 <= i < digits.len() ==> is_digit(#[trigger] digits[i])
}

/// The decimal digits of `n`, the most significant first, without leading zeros.
pub open spec fn decimal(n: nat) -> Seq<u8>
    decreases n,
{
    if n < 10 {
        seq![(ZERO + n) as u8]
    } else {
        decimal(n / 10).push((ZERO + n % 10) as u8)
    }
}

/// The number that `digits` write in base ten; leading zeros do not count.
pub open spec fn digits_value(digits: Seq<u8>) -> nat
    decreases digits.len(),
{
    if digits.len() == 0 {
        0
    } else {
        digits_value(digits.drop_last()) * 10 + (digits.last() - ZERO) as nat
    }
}

/// The bytes that stand for `amount`.
pub open spec fn amount_json(amount: u128) -> Seq<u8> {
    seq![QUOTE] + decimal(amount as nat) + seq![QUOTE]
}

/// The amount that `bytes` stand for: they are one or more digits between two
/// quotes, and the digits write a number that fits in 128 bits.
pub open spec fn amount_from_json(bytes: Seq<u8>) -> Option<u128> {
    let digits = bytes.subrange(1, bytes.len() - 1);
    if bytes.len() >= 3 && bytes[0] == QUOTE && bytes.last() == QUOTE && all_digits(digits)
        && digits_value(digits) <= u128::MAX {
        Some(digits_value(digits) as u128)
    } else {
        None
    }
}

/// `cosmwasm_std::to_vec` on a `Uint128`: it serialises as a string that holds
/// the decimal digits of the number, and this serialiser never fails on a
/// string.
#[verifier::external_body]
pub(crate) fn amount_to_json(amount: u128) -> (json: Result<Vec<u8>, StdError>)
    ensures
        json is Ok,
        json->Ok_0@ == amount_json(amount),
{
    cosmwasm_std::to_vec(&cosmwasm_std::Uint128(amount))
}

/// The decimal digits of a number are digits, at least one, and write it.
pub proof fn decimal_is_read_back(n: nat)
    ensures
        decimal(n).len() >= 1,
        all_digits(decimal(n)),
        digits_value(decimal(n)) == n,
    decreases n,
{
    if n < 10 {
        let d = decimal(n);
        assert(d.drop_last() =~= Seq::<u8>::empty());
        assert(digits_value(d.drop_last()) == 0);
    } else {
        decimal_is_read_back(n / 10);
        let d = decimal(n);
        assert(d.drop_last() =~= decimal(n / 10));
        assert(d.last() == (ZERO + n % 10) as u8);
    }
}

/// An amount is read back from its bytes.
pub proof fn amount_round_trip(amount: u128)
    ensures
        amount_from_json(amount_json(amount)) == Some(amount),
{
    decimal_is_read_back(amount as nat);
    let bytes = amount_json(amount);
    assert(bytes.subrange(1, bytes.len() - 1) =~= decimal(amount as nat));
}

/// Digits that write a number above the largest amount stand for no amount.
pub proof fn amount_out_of_range_is_rejected(digits: Seq<u8>)
    requires
        digits_value(digits) > u128::MAX,
    ensures
        amount_from_json(seq![QUOTE] + digits + seq![QUOTE]) is None,
{
    let bytes = seq![QUOTE] + digits + seq![QUOTE];
    assert(bytes.subrange(1, bytes.len() - 1) =~= digits);
}

/// More digits never write a smaller number.
pub proof fn digits_value_grows(digits: Seq<u8>, k: int)
    requires
        0 <= k <= digits.len(),
        all_digits(digits),
    ensures
        digits_value(digits.subrange(0, k)) <= digits_value(digits),
    decreases digits.len() - k,
{
    if k == digits.len() {
        assert(digits.subrange(0, k) =~= digits);
    } else {
        digits_value_grows(digits, k + 1);
        let longer = digits.subrange(0, k + 1);
        assert(longer.drop_last() =~= digits.subrange(0, k));
        assert(is_digit(digits[k]));
    }
}

/// The bytes that stand for `amount`.
pub fn encode_amount(amount: u128) -> (json: Result<Vec<u8>, ContractError>)
    ensures
        json is Ok,
        json->Ok_0@ == amount_json(amount),
{
    match amount_to_json(amount) {
        Ok(bytes) => Ok(bytes),
        Err(_) => Err(ContractError::CodecError),
    }
}

/// The amount that `bytes` stand for, if they stand for one.
pub fn decode_amount(bytes: &[u8]) -> (amount: Result<u128, ContractError>)
    ensures
        amount == match amount_from_json(bytes@) {
            Some(value) => Ok::<u128, ContractError>(value),
            None => Err(ContractError::CodecError),
        },
{
    let n = bytes.len();
    if n < 3 || bytes[0] != QUOTE || bytes[n - 1] != QUOTE {
        return Err(ContractError::CodecError);
    }
    let ghost digits = bytes@.subrange(1, n - 1);
    let mut value: u128 = 0;
    let mut i: usize = 1;
    while i < n - 1
        invariant
            n == bytes@.len(),
            n >= 3,
            1 <= i <= n - 1,
            digits == bytes@.subrange(1, n - 1),
            all_digits(digits.subrange(0, i - 1)),
            value == digits_value(digits.subrange(0, i - 1)),
        decreases n - i,
    {
        let byte = bytes[i];
        if byte < ZERO || byte > ZERO + 9 {
            assert(!is_digit(digits[i - 1]));
            return Err(ContractError::CodecError);
        }
        let digit: u128 = (byte - ZERO) as u128;
        proof {
            let longer = digits.subrange(0, i as int);
            assert(longer.drop_last() =~= digits.subrange(0, i - 1));
            assert(longer.last() == byte);
            assert(digits_value(longer) == value * 10 + digit);
            assert forall|j: int| 0 <= j < longer.len() implies is_digit(#[trigger] longer[j]) by {
                if j < i - 1 {
                    assert(longer[j] == digits.subrange(0, i - 1)[j]);
                }
            }
        }
        if value > (u128::MAX - digit) / 10 {
            proof {
                if all_digits(digits) {
                    digits_value_grows(digits, i as int);
                }
            }
            return Err(ContractError::CodecError);
        }
        value = value * 10 + digit;
        i = i + 1;
    }
    proof {
        assert(digits.subrange(0, i - 1) =~= digits);
    }
    Ok(value)
}

/// The brace that closes an object.
pub const CLOSE: u8 = 0x7d;

/// What opens a permission that is switched on: `{"is_allowed":true,"amount":`.
pub const ALLOWED_LABEL: [u8; 28] = [
    0x7b, 0x22, 0x69, 0x73, 0x5f, 0x61, 0x6c, 0x6c, 0x6f, 0x77, 0x65, 0x64, 0x22, 0x3a,
    0x74, 0x72, 0x75, 0x65, 0x2c, 0x22, 0x61, 0x6d, 0x6f, 0x75, 0x6e, 0x74, 0x22, 0x3a,
];

/// What opens a permission that is switched off: `{"is_allowed":false,"amount":`.
pub const DENIED_LABEL: [u8; 29] = [
    0x7b, 0x22, 0x69, 0x73, 0x5f, 0x61, 0x6c, 0x6c, 0x6f, 0x77, 0x65, 0x64, 0x22, 0x3a,
    0x66, 0x61, 0x6c, 0x73, 0x65, 0x2c, 0x22, 0x61, 0x6d, 0x6f, 0x75, 0x6e, 0x74, 0x22, 0x3a,
];

/// Whether `bytes` open with `label`, hold something more, and end with the
/// closing brace.
pub open spec fn is_object_with(bytes: Seq<u8>, label: Seq<u8>) -> bool {
    &&& bytes.len() > label.len()
    &&& bytes.subrange(0, label.len() as int) == label
    &&& bytes.last() == CLOSE
}

/// What stands between `label` and the closing brace.
pub open spec fn object_body(bytes: Seq<u8>, label: Seq<u8>) -> Seq<u8> {
    bytes.subrange(label.len() as int, bytes.len() - 1)
}

/// The bytes that stand for `allowance`.
pub open spec fn allowance_json(allowance: Allowance) -> Seq<u8> {
    (if allowance.is_allowed {
        ALLOWED_LABEL@
    } else {
        DENIED_LABEL@
    }) + amount_json(allowance.amount) + seq![CLOSE]
}

/// The permission that `bytes` stand for: they are an object of the two fields
/// `is_allowed` and `amount`, in this order, with nothing else in it.
pub open spec fn allowance_from_json(bytes: Seq<u8>) -> Option<Allowance> {
    if is_object_with(bytes, ALLOWED_LABEL@) {
        match amount_from_json(object_body(bytes, ALLOWED_LABEL@)) {
            Some(amount) => Some(Allowance { is_allowed: true, amount }),
            None => None,
        }
    } else if is_object_with(bytes, DENIED_LABEL@) {
        match amount_from_json(object_body(bytes, DENIED_LABEL@)) {
            Some(amount) => Some(Allowance { is_allowed: false, amount }),
            None => None,
        }
    } else {
        None
    }
}

/// A permission is read back from its bytes.
pub proof fn allowance_round_trip(allowance: Allowance)
    ensures
        allowance_from_json(allowance_json(allowance)) == Some(allowance),
{
    amount_round_trip(allowance.amount);
    let bytes = allowance_json(allowance);
    let amount = amount_json(allowance.amount);
    if allowance.is_allowed {
        assert(bytes.subrange(0, ALLOWED_LABEL@.len() as int) =~= ALLOWED_LABEL@);
        assert(object_body(bytes, ALLOWED_LABEL@) =~= amount);
    } else {
        assert(bytes[14] == 0x66);
        assert(bytes.subrange(0, ALLOWED_LABEL@.len() as int)[14] == 0x66);
        assert(ALLOWED_LABEL@[14] == 0x74);
        assert(bytes.subrange(0, DENIED_LABEL@.len() as int) =~= DENIED_LABEL@);
        assert(object_body(bytes, DENIED_LABEL@) =~= amount);
    }
}

/// Whether `bytes` open with `label`.
pub fn opens_with(bytes: &[u8], label: &[u8]) -> (yes: bool)
    ensures
        yes == (bytes@.len() >= label@.len() && bytes@.subrange(0, label@.len() as int)
            == label@),
{
    if bytes.len() < label.len() {
        return false;
    }
    let mut i: usize = 0;
    while i < label.len()
        invariant
            i <= label@.len() <= bytes@.len(),
            bytes@.subrange(0, i as int) == label@.subrange(0, i as int),
        decreases label@.len() - i,
    {
        if bytes[i] != label[i] {
            assert(bytes@.subrange(0, label@.len() as int)[i as int] != label@[i as int]);
            return false;
        }
        assert(bytes@.subrange(0, i + 1) =~= bytes@.subrange(0, i as int).push(bytes@[i as int]));
        assert(label@.subrange(0, i + 1) =~= label@.subrange(0, i as int).push(label@[i as int]));
        i = i + 1;
    }
    assert(label@.subrange(0, i as int) =~= label@);
    true
}

/// The bytes that stand for `allowance`.
pub fn encode_allowance(allowance: &Allowance) -> (json: Result<Vec<u8>, ContractError>)
    ensures
        json is Ok,
        json->Ok_0@ == allowance_json(*allowance),
{
    let amount = encode_amount(allowance.amount)?;
    let mut bytes: Vec<u8> = Vec::new();
    if allowance.is_allowed {
        bytes.extend_from_slice(&ALLOWED_LABEL);
    } else {
        bytes.extend_from_slice(&DENIED_LABEL);
    }
    bytes.extend_from_slice(amount.as_slice());
    bytes.push(CLOSE);
    assert(bytes@ =~= allowance_json(*allowance));
    Ok(bytes)
}

/// The permission that `bytes` stand for, if they stand for one.
pub fn decode_allowance(bytes: &[u8]) -> (allowance: Result<Allowance, ContractError>)
    ensures
        allowance == match allowance_from_json(bytes@) {
            Some(value) => Ok::<Allowance, ContractError>(value),
            None => Err(ContractError::CodecError),
        },
{
    let n = bytes.len();
    if n > ALLOWED_LABEL.len() && bytes[n - 1] == CLOSE && opens_with(bytes, &ALLOWED_LABEL) {
        let body = vstd::slice::slice_subrange(bytes, ALLOWED_LABEL.len(), n - 1);
        let amount = decode_amount(body)?;
        Ok(Allowance { is_allowed: true, amount })
    } else if n > DENIED_LABEL.len() && bytes[n - 1] == CLOSE && opens_with(
        bytes,
        &DENIED_LABEL,
    ) {
        let body = vstd::slice::slice_subrange(bytes, DENIED_LABEL.len(), n - 1);
        let amount = decode_amount(body)?;
        Ok(Allowance { is_allowed: false, amount })
    } else {
        Err(ContractError::CodecError)
    }
}

/// What opens the answer on a balance: `{"amount":`.
pub const AMOUNT_LABEL: [u8; 10] = [0x7b, 0x22, 0x61, 0x6d, 0x6f, 0x75, 0x6e, 0x74, 0x22, 0x3a];

/// What opens the ledger's state: `{"minter":`.
pub const MINTER_LABEL: [u8; 10] = [0x7b, 0x22, 0x6d, 0x69, 0x6e, 0x74, 0x65, 0x72, 0x22, 0x3a];

/// What stands between the minter and the supply: `,"total_supply":`.
pub const SUPPLY_LABEL: [u8; 16] = [
    0x2c, 0x22, 0x74, 0x6f, 0x74, 0x61, 0x6c, 0x5f, 0x73, 0x75, 0x70, 0x70, 0x6c, 0x79, 0x22, 0x3a,
];

/// The bytes of `text` as a JSON string: what `cosmwasm_std::to_vec` gives
/// for it.
pub uninterp spec fn string_json(text: Seq<char>) -> Seq<u8>;

/// The text that `bytes` stand for as a JSON string, where they stand for one:
/// what `cosmwasm_std::from_slice` reads from them as a `String`.
pub uninterp spec fn string_from_json(bytes: Seq<u8>) -> Option<Seq<char>>;

/// `cosmwasm_std::to_vec` on a `String`: the serialiser never fails on a
/// string, and what it writes is read back as the same string by
/// `cosmwasm_std::from_slice`, which undoes each escape that the serialiser
/// makes.
#[verifier::external_body]
pub(crate) fn string_to_json(text: &String) -> (json: Result<Vec<u8>, StdError>)
    ensures
        json is Ok,
        json->Ok_0@ == string_json(text@),
        string_from_json(json->Ok_0@) == Some(text@),
{
    cosmwasm_std::to_vec(text)
}

/// `cosmwasm_std::from_slice` to a `String`: the text that the bytes stand
/// for as a JSON string, or an error where they stand for none.
#[verifier::external_body]
pub(crate) fn json_to_string(bytes: &[u8]) -> (text: Result<String, StdError>)
    ensures
        match text {
            Ok(text) => string_from_json(bytes@) == Some(text@),
            Err(_) => string_from_json(bytes@) is None,
        },
{
    cosmwasm_std::from_slice(bytes)
}

/// The object of a minter and a supply, each given by its bytes.
pub open spec fn state_frame(minter_json: Seq<u8>, supply_json: Seq<u8>) -> Seq<u8> {
    MINTER_LABEL@ + minter_json + SUPPLY_LABEL@ + supply_json + seq![CLOSE]
}

/// The bytes that stand for `state`.
pub open spec fn state_json(state: StateView) -> Seq<u8> {
    state_frame(string_json(state.minter), amount_json(state.total_supply))
}

/// Whether `bytes` are the object of the two fields `minter` and
/// `total_supply`, in this order, with `minter_json` and `supply_json` as their
/// values, the second of them an amount.
pub open spec fn is_state_frame(bytes: Seq<u8>, minter_json: Seq<u8>, supply_json: Seq<u8>) -> bool {
    bytes == state_frame(minter_json, supply_json) && amount_from_json(supply_json) is Some
}

/// Whether `bytes` are such an object at all.
pub open spec fn has_state_frame(bytes: Seq<u8>) -> bool {
    exists|minter_json: Seq<u8>, supply_json: Seq<u8>|
        is_state_frame(bytes, minter_json, supply_json)
}

/// The bytes of the minter in such an object.
pub open spec fn minter_part(bytes: Seq<u8>) -> Seq<u8> {
    (choose|minter_json: Seq<u8>, supply_json: Seq<u8>|
        is_state_frame(bytes, minter_json, supply_json)).0
}

/// The bytes of the supply in such an object.
pub open spec fn supply_part(bytes: Seq<u8>) -> Seq<u8> {
    (choose|minter_json: Seq<u8>, supply_json: Seq<u8>|
        is_state_frame(bytes, minter_json, supply_json)).1
}

/// The total supply that `bytes` record, where they are a state object.
pub open spec fn supply_from_json(bytes: Seq<u8>) -> Option<u128> {
    if has_state_frame(bytes) {
        amount_from_json(supply_part(bytes))
    } else {
        None
    }
}

/// The state that `bytes` stand for: they are a state object, and the bytes
/// of its minter are a JSON string.
pub open spec fn state_from_json(bytes: Seq<u8>) -> Option<StateView> {
    if has_state_frame(bytes) {
        match string_from_json(minter_part(bytes)) {
            Some(minter) => Some(
                StateView { minter, total_supply: amount_from_json(supply_part(bytes))->0 },
            ),
            None => None,
        }
    } else {
        None
    }
}

/// How long a state object is, and what it holds at its end.
pub proof fn state_frame_shape(bytes: Seq<u8>, minter_json: Seq<u8>, supply_json: Seq<u8>)
    requires
        is_state_frame(bytes, minter_json, supply_json),
    ensures
        supply_json.len() >= 3,
        bytes.len() == MINTER_LABEL@.len() + minter_json.len() + SUPPLY_LABEL@.len()
            + supply_json.len() + 1,
        bytes[bytes.len() - 1] == CLOSE,
        bytes[bytes.len() - 2] == QUOTE,
        bytes[bytes.len() - 1 - supply_json.len()] == QUOTE,
        forall|k: int|
            bytes.len() - 1 - supply_json.len() < k < bytes.len() - 2 ==> is_digit(
                #[trigger] bytes[k],
            ),
        supply_json == bytes.subrange(bytes.len() - 1 - supply_json.len(), bytes.len() - 1),
        minter_json == bytes.subrange(
            MINTER_LABEL@.len() as int,
            bytes.len() - 1 - supply_json.len() - SUPPLY_LABEL@.len(),
        ),
        SUPPLY_LABEL@ == bytes.subrange(
            bytes.len() - 1 - supply_json.len() - SUPPLY_LABEL@.len(),
            bytes.len() - 1 - supply_json.len(),
        ),
        MINTER_LABEL@ == bytes.subrange(0, MINTER_LABEL@.len() as int),
{
    let n = bytes.len() as int;
    let start = n - 1 - supply_json.len();
    let digits = supply_json.subrange(1, supply_json.len() - 1);
    assert(bytes[n - 2] == supply_json[supply_json.len() - 1]);
    assert(bytes[start] == supply_json[0]);
    assert forall|k: int| start < k < n - 2 implies is_digit(#[trigger] bytes[k]) by {
        assert(bytes[k] == supply_json[k - start]);
        assert(supply_json[k - start] == digits[k - start - 1]);
    }
    assert(supply_json =~= bytes.subrange(start, n - 1));
    assert(minter_json =~= bytes.subrange(
        MINTER_LABEL@.len() as int,
        start - SUPPLY_LABEL@.len(),
    ));
    assert(SUPPLY_LABEL@ =~= bytes.subrange(start - SUPPLY_LABEL@.len(), start));
    assert(MINTER_LABEL@ =~= bytes.subrange(0, MINTER_LABEL@.len() as int));
}

/// In a state object the supply begins at the last byte before the closing
/// quote that is no digit.
pub proof fn supply_starts_at(bytes: Seq<u8>, minter_json: Seq<u8>, supply_json: Seq<u8>, at: int)
    requires
        is_state_frame(bytes, minter_json, supply_json),
        0 <= at < bytes.len() - 2,
        !is_digit(bytes[at]),
        forall|k: int| at < k < bytes.len() - 2 ==> is_digit(#[trigger] bytes[k]),
    ensures
        at == bytes.len() - 1 - supply_json.len(),
{
    state_frame_shape(bytes, minter_json, supply_json);
    let start = bytes.len() - 1 - supply_json.len();
    if at < start {
        assert(is_digit(bytes[start]));
    } else if at > start {
        assert(is_digit(bytes[at]));
    }
}

/// A state object is one in one way only.
pub proof fn state_frame_is_unique(
    bytes: Seq<u8>,
    minter_a: Seq<u8>,
    supply_a: Seq<u8>,
    minter_b: Seq<u8>,
    supply_b: Seq<u8>,
)
    requires
        is_state_frame(bytes, minter_a, supply_a),
        is_state_frame(bytes, minter_b, supply_b),
    ensures
        minter_a == minter_b,
        supply_a == supply_b,
{
    state_frame_shape(bytes, minter_a, supply_a);
    state_frame_shape(bytes, minter_b, supply_b);
    supply_starts_at(bytes, minter_b, supply_b, bytes.len() - 1 - supply_a.len());
}

/// The parts of a state object are the ones it was made of.
pub proof fn state_frame_parts(minter_json: Seq<u8>, supply_json: Seq<u8>)
    requires
        amount_from_json(supply_json) is Some,
    ensures
        has_state_frame(state_frame(minter_json, supply_json)),
        minter_part(state_frame(minter_json, supply_json)) == minter_json,
        supply_part(state_frame(minter_json, supply_json)) == supply_json,
{
    let bytes = state_frame(minter_json, supply_json);
    assert(is_state_frame(bytes, minter_json, supply_json));
    state_frame_is_unique(bytes, minter_json, supply_json, minter_part(bytes), supply_part(bytes));
}

/// The supply is read back from the bytes of a state, whoever the minter is.
pub proof fn supply_round_trip(state: StateView)
    ensures
        supply_from_json(state_json(state)) == Some(state.total_supply),
{
    amount_round_trip(state.total_supply);
    state_frame_parts(string_json(state.minter), amount_json(state.total_supply));
}

/// Bytes that stand for a state record its total supply.
pub proof fn supply_of_state(bytes: Seq<u8>)
    requires
        state_from_json(bytes) is Some,
    ensures
        supply_from_json(bytes) == Some(state_from_json(bytes)->0.total_supply),
{
    assert(is_state_frame(bytes, minter_part(bytes), supply_part(bytes)));
}

/// The bytes that stand for `state`, which are read back as the same state.
pub fn encode_state(state: &State) -> (json: Result<Vec<u8>, ContractError>)
    ensures
        json is Ok,
        json->Ok_0@ == state_json(state@),
        state_from_json(state_json(state@)) == Some(state@),
{
    let minter = match string_to_json(&state.minter) {
        Ok(bytes) => bytes,
        Err(_) => { return Err(ContractError::CodecError); },
    };
    let supply = encode_amount(state.total_supply)?;
    let mut bytes: Vec<u8> = Vec::new();
    bytes.extend_from_slice(&MINTER_LABEL);
    bytes.extend_from_slice(minter.as_slice());
    bytes.extend_from_slice(&SUPPLY_LABEL);
    bytes.extend_from_slice(supply.as_slice());
    bytes.push(CLOSE);
    proof {
        assert(bytes@ =~= state_json(state@));
        amount_round_trip(state.total_supply);
        state_frame_parts(minter@, supply@);
    }
    Ok(bytes)
}

/// Whether `bytes` hold `label` at the index `at`.
fn holds_at(bytes: &[u8], at: usize, label: &[u8]) -> (yes: bool)
    requires
        at + label@.len() <= bytes@.len(),
    ensures
        yes == (bytes@.subrange(at as int, at + label@.len()) == label@),
{
    let rest = vstd::slice::slice_subrange(bytes, at, bytes.len());
    let yes = opens_with(rest, label);
    proof {
        assert(rest@.subrange(0, label@.len() as int) =~= bytes@.subrange(
            at as int,
            at + label@.len(),
        ));
    }
    yes
}

/// Where the supply begins in `bytes`, if they are a state object.
fn find_supply(bytes: &[u8]) -> (found: Option<usize>)
    ensures
        match found {
            Some(at) => {
                &&& has_state_frame(bytes@)
                &&& MINTER_LABEL@.len() + SUPPLY_LABEL@.len() <= at < bytes@.len() - 3
                &&& supply_part(bytes@) == bytes@.subrange(at as int, bytes@.len() - 1)
                &&& minter_part(bytes@) == bytes@.subrange(
                    MINTER_LABEL@.len() as int,
                    at - SUPPLY_LABEL@.len(),
                )
            },
            None => !has_state_frame(bytes@),
        },
{
    let n = bytes.len();
    let labels = MINTER_LABEL.len() + SUPPLY_LABEL.len();
    let ghost minter = minter_part(bytes@);
    let ghost supply = supply_part(bytes@);
    proof {
        if has_state_frame(bytes@) {
            assert(is_state_frame(bytes@, minter, supply));
            state_frame_shape(bytes@, minter, supply);
        }
    }
    if n < labels + 4 || bytes[n - 1] != CLOSE || bytes[n - 2] != QUOTE {
        return None;
    }
    let mut at: usize = n - 3;
    while at >= labels && ZERO <= bytes[at] && bytes[at] <= ZERO + 9
        invariant
            n == bytes@.len(),
            labels == MINTER_LABEL@.len() + SUPPLY_LABEL@.len(),
            labels - 1 <= at <= n - 3,
            forall|k: int| at < k < n - 2 ==> is_digit(#[trigger] bytes@[k]),
        decreases at,
    {
        at = at - 1;
    }
    if at < labels {
        assert(!has_state_frame(bytes@)) by {
            if has_state_frame(bytes@) {
                assert(is_digit(bytes@[n - 1 - supply.len()]));
            }
        }
        return None;
    }
    proof {
        if has_state_frame(bytes@) {
            supply_starts_at(bytes@, minter, supply, at as int);
        }
    }
    if bytes[at] != QUOTE || !holds_at(bytes, at - SUPPLY_LABEL.len(), &SUPPLY_LABEL)
        || !opens_with(bytes, &MINTER_LABEL) {
        return None;
    }
    let supply_json = vstd::slice::slice_subrange(bytes, at, n - 1);
    if decode_amount(supply_json).is_err() {
        return None;
    }
    proof {
        let minter_json = bytes@.subrange(MINTER_LABEL@.len() as int, at - SUPPLY_LABEL@.len());
        assert(bytes@ =~= state_frame(minter_json, supply_json@));
        state_frame_parts(minter_json, supply_json@);
    }
    Some(at)
}

/// The state that `bytes` stand for, if they stand for one.
pub fn decode_state(bytes: &[u8]) -> (state: Result<State, ContractError>)
    ensures
        match state_from_json(bytes@) {
            Some(value) => state is Ok && state->Ok_0@ == value,
            None => state == Err::<State, ContractError>(ContractError::CodecError),
        },
{
    let at = match find_supply(bytes) {
        Some(at) => at,
        None => { return Err(ContractError::CodecError); },
    };
    let supply_json = vstd::slice::slice_subrange(bytes, at, bytes.len() - 1);
    let minter_json = vstd::slice::slice_subrange(
        bytes,
        MINTER_LABEL.len(),
        at - SUPPLY_LABEL.len(),
    );
    let total_supply = decode_amount(supply_json)?;
    match json_to_string(minter_json) {
        Ok(minter) => Ok(State { minter, total_supply }),
        Err(_) => Err(ContractError::CodecError),
    }
}

} // verus!
