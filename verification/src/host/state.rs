//! What the wallet keeps between calls.

use crate::trusted::{generic_err, generic_error, not_found, not_found_error};
use crate::types::Addr;
use cosmwasm_std::StdError;
use vstd::prelude::*;

verus! {

/// How a pending change of owner was begun.
#[derive(Debug, Clone, Copy, PartialEq, Eq, Structural)]
pub enum RecoveryMethod {
    /// A member of the recovery pool asked for it.
    Recovery,
    /// The owner asked for it.
    TransferOwnership,
}

/// The wallet's settings and the change of owner that is pending, if any.
#[derive(Debug, Clone, PartialEq, Eq)]
pub struct State {
    pub owner: Addr,
    pub master: Addr,
    /// The proposed owner, while a change is pending.
    pub potential_owner: Option<Addr>,
    /// How the pending change was begun.
    pub recovery_method: Option<RecoveryMethod>,
    pub recovery_pool: Vec<Addr>,
    pub approval_pool: Vec<Addr>,
    /// Votes that a recovery needs.
    pub recovery_approvals_needed: u32,
    /// Votes that a transfer needs beside the owner's own.
    pub transfer_ownership_approvals_needed: u32,
    pub chain: String,
}

/// What a [`State`] stands for.
#[verifier::ext_equal]
pub struct StateView {
    pub owner: Seq<char>,
    pub master: Seq<char>,
    pub potential_owner: Option<Seq<char>>,
    pub recovery_method: Option<RecoveryMethod>,
    pub recovery_pool: Seq<Seq<char>>,
    pub approval_pool: Seq<Seq<char>>,
    pub recovery_approvals_needed: u32,
    pub transfer_ownership_approvals_needed: u32,
    pub chain: Seq<char>,
}

impl View for State {
    type V = StateView;

    open spec fn view(&self) -> StateView {
        StateView {
            owner: self.owner@,
            master: self.master@,
            potential_owner: self.potential_owner.deep_view(),
            recovery_method: self.recovery_method,
            recovery_pool: self.recovery_pool.deep_view(),
            approval_pool: self.approval_pool.deep_view(),
            recovery_approvals_needed: self.recovery_approvals_needed,
            transfer_ownership_approvals_needed: self.transfer_ownership_approvals_needed,
            chain: self.chain@,
        }
    }
}

/// Everything the wallet keeps: its state, the executor registered for each
/// chain, the votes on the pending change of owner in the order they came,
/// and the highest nonce used so far.
#[derive(Debug, Clone, PartialEq, Eq)]
pub struct Store {
    pub state: State,
    pub slaves: Vec<(String, Addr)>,
    pub active_recovery: Vec<Addr>,
    pub last_nonce: u64,
}

/// What a [`Store`] stands for.
#[verifier::ext_equal]
pub struct StoreView {
    pub state: StateView,
    pub slaves: Seq<(Seq<char>, Seq<char>)>,
    pub active_recovery: Seq<Seq<char>>,
    pub last_nonce: u64,
}

impl View for Store {
    type V = StoreView;

    open spec fn view(&self) -> StoreView {
        StoreView {
            state: self.state@,
            slaves: self.slaves.deep_view(),
            active_recovery: self.active_recovery.deep_view(),
            last_nonce: self.last_nonce,
        }
    }
}

/// The value of the first entry of `entries` whose key is `key`.
pub open spec fn lookup(entries: Seq<(Seq<char>, Seq<char>)>, key: Seq<char>) -> Option<Seq<char>>
    decreases entries.len(),
{
    if entries.len() == 0 {
        None
    } else if entries[0].0 == key {
        Some(entries[0].1)
    } else {
        lookup(entries.skip(1), key)
    }
}

/// The first match is an entry with that key, and a key that no entry has
/// finds nothing.
pub proof fn lemma_lookup(entries: Seq<(Seq<char>, Seq<char>)>, key: Seq<char>)
    ensures
        lookup(entries, key) is Some <==> exists|i: int|
            0 <= i < entries.len() && (#[trigger] entries[i]).0 == key,
        lookup(entries, key) matches Some(value) ==> exists|i: int|
            0 <= i < entries.len() && (#[trigger] entries[i]) == (key, value),
    decreases entries.len(),
{
    if entries.len() > 0 {
        let rest = entries.skip(1);
        lemma_lookup(rest, key);
        if entries[0].0 != key {
            if exists|i: int| 0 <= i < entries.len() && (#[trigger] entries[i]).0 == key {
                let i = choose|i: int| 0 <= i < entries.len() && (#[trigger] entries[i]).0 == key;
                assert(rest[i - 1].0 == key);
            }
        }
    }
}

/// A key that no entry has is found once an entry with it is appended; a
/// key that an entry has keeps the value it had.
pub proof fn lemma_lookup_push(
    entries: Seq<(Seq<char>, Seq<char>)>,
    key: Seq<char>,
    value: Seq<char>,
    other: Seq<char>,
)
    ensures
        lookup(entries.push((key, value)), other) == if lookup(entries, other) is Some {
            lookup(entries, other)
        } else if other == key {
            Some(value)
        } else {
            None
        },
    decreases entries.len(),
{
    let pushed = entries.push((key, value));
    if entries.len() == 0 {
        assert(lookup(pushed.skip(1), other) is None);
    } else {
        assert(pushed.skip(1) =~= entries.skip(1).push((key, value)));
        lemma_lookup_push(entries.skip(1), key, value, other);
    }
}

/// The value stored under `key`: that of the first entry with this key. Where
/// no entry has it, the error is `NotFound` of "Key not found".
pub fn get_key(deque: &Vec<(String, Addr)>, key: &String) -> (r: Result<Addr, StdError>)
    ensures
        match lookup(deque.deep_view(), key@) {
            Some(value) => r matches Ok(found) && found@ == value,
            None => r == Err::<Addr, StdError>(not_found_error("Key not found"@)),
        },
{
    let mut i: usize = 0;
    assert(deque.deep_view().skip(0) =~= deque.deep_view());
    while i < deque.len()
        invariant
            i <= deque.len(),
            lookup(deque.deep_view(), key@) == lookup(deque.deep_view().skip(i as int), key@),
        decreases deque.len() - i,
    {
        let ghost rest = deque.deep_view().skip(i as int);
        if deque[i].0 == *key {
            return Ok(deque[i].1.clone());
        }
        assert(rest.skip(1) =~= deque.deep_view().skip(i + 1));
        i += 1;
    }
    Err(not_found("Key not found"))
}

/// Appends the entry of `value` under `key`. With `validate_unique`, a key
/// that an entry has already is refused with the generic error
/// "Key already set.", and nothing changes.
pub fn set_key(
    deque: &mut Vec<(String, Addr)>,
    key: String,
    value: Addr,
    validate_unique: bool,
) -> (r: Result<(), StdError>)
    ensures
        validate_unique && lookup(old(deque).deep_view(), key@) is Some ==> {
            &&& r == Err::<(), StdError>(generic_error("Key already set."@))
            &&& final(deque).deep_view() == old(deque).deep_view()
        },
        !(validate_unique && lookup(old(deque).deep_view(), key@) is Some) ==> {
            &&& r is Ok
            &&& final(deque).deep_view() == old(deque).deep_view().push((key@, value@))
        },
{
    if validate_unique {
        if let Ok(_) = get_key(deque, &key) {
            return Err(generic_err("Key already set."));
        }
    }
    deque.push((key, value));
    Ok(())
}

} // verus!
