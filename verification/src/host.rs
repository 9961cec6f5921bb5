//! What the host hands to each call: the store, the canonical forms of the
//! addresses that the call names, and who is calling.

use vstd::prelude::*;
use cosmwasm_std::MemoryStorage;
use crate::error::ContractError;
use crate::keys::MAX_NAMESPACE_LEN;
use crate::state::{CanonicalAddr, HumanAddr};

verus! {

/// The host's answers on canonical addresses: each human-readable address that
/// the host resolved, with its canonical form. An address that the table does
/// not hold has none.
pub struct Api {
    known: Vec<(HumanAddr, CanonicalAddr)>,
}

/// The map that a list of answers makes: a later answer replaces an earlier
/// one for the same address.
pub open spec fn answers(known: Seq<(HumanAddr, CanonicalAddr)>) -> Map<Seq<char>, Seq<u8>>
    decreases known.len(),
{
    if known.len() == 0 {
        Map::empty()
    } else {
        answers(known.drop_last()).insert(known.last().0@, known.last().1@)
    }
}

/// The canonical form that `api` gives for `human`. An address without an
/// answer is invalid, and so is one whose canonical form is too long to stand
/// as a namespace in a key.
pub open spec fn canonical_form(api: Map<Seq<char>, Seq<u8>>, human: Seq<char>) -> Result<
    Seq<u8>,
    ContractError,
> {
    if api.contains_key(human) && api[human].len() <= MAX_NAMESPACE_LEN {
        Ok(api[human])
    } else {
        Err(ContractError::InvalidAddress)
    }
}

impl View for Api {
    type V = Map<Seq<char>, Seq<u8>>;

    closed spec fn view(&self) -> Map<Seq<char>, Seq<u8>> {
        answers(self.known@)
    }
}

impl Api {
    /// A table without answers.
    pub fn new() -> (api: Self)
        ensures
            api@ == Map::<Seq<char>, Seq<u8>>::empty(),
    {
        Api { known: Vec::new() }
    }

    /// Records `canonical` as the canonical form of `human`, in place of any
    /// earlier answer for it.
    pub fn insert(&mut self, human: HumanAddr, canonical: CanonicalAddr)
        ensures
            final(self)@ == old(self)@.insert(human@, canonical@),
    {
        self.known.push((human, canonical));
        proof {
            assert(self.known@.drop_last() =~= old(self).known@);
        }
    }

    /// The canonical form of `human`.
    pub fn canonical_address(&self, human: &HumanAddr) -> (canonical: Result<
        CanonicalAddr,
        ContractError,
    >)
        ensures
            match canonical_form(self@, human@) {
                Ok(bytes) => canonical is Ok && canonical->Ok_0@ == bytes,
                Err(e) => canonical == Err::<CanonicalAddr, ContractError>(e),
            },
    {
        let mut i: usize = self.known.len();
        proof {
            assert(self.known@.subrange(0, i as int) =~= self.known@);
        }
        while i > 0
            invariant
                i <= self.known@.len(),
                self@ == answers(self.known@),
                answers(self.known@).contains_key(human@) == answers(
                    self.known@.subrange(0, i as int),
                ).contains_key(human@),
                answers(self.known@).contains_key(human@) ==> answers(self.known@)[human@]
                    == answers(self.known@.subrange(0, i as int))[human@],
            decreases i,
        {
            proof {
                let upto = self.known@.subrange(0, i as int);
                assert(upto.drop_last() =~= self.known@.subrange(0, i - 1));
                assert(upto.last() == self.known@[i - 1]);
            }
            i = i - 1;
            if self.known[i].0 == *human {
                if self.known[i].1.len() <= MAX_NAMESPACE_LEN {
                    return Ok(vstd::slice::slice_to_vec(self.known[i].1.as_slice()));
                } else {
                    return Err(ContractError::InvalidAddress);
                }
            }
        }
        Err(ContractError::InvalidAddress)
    }
}

/// Who sent the message of a call.
pub struct MessageInfo {
    pub sender: HumanAddr,
}

/// The circumstances of a call.
pub struct Env {
    pub message: MessageInfo,
}

/// What a call works on: the store, and the host's answers on addresses.
pub struct Extern {
    pub storage: MemoryStorage,
    pub api: Api,
}

/// Whether two canonical addresses are the same account.
pub fn same_address(a: &CanonicalAddr, b: &CanonicalAddr) -> (same: bool)
    ensures
        same == (a@ == b@),
{
    if a.len() != b.len() {
        return false;
    }
    let mut i: usize = 0;
    while i < a.len()
        invariant
            i <= a@.len() == b@.len(),
            a@.subrange(0, i as int) == b@.subrange(0, i as int),
        decreases a@.len() - i,
    {
        if a[i] != b[i] {
            return false;
        }
        assert(a@.subrange(0, i + 1) =~= a@.subrange(0, i as int).push(a@[i as int]));
        assert(b@.subrange(0, i + 1) =~= b@.subrange(0, i as int).push(b@[i as int]));
        i = i + 1;
    }
    assert(a@ =~= a@.subrange(0, i as int));
    assert(b@ =~= b@.subrange(0, i as int));
    true
}

} // verus!
