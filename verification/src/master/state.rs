//! What the factory keeps between calls.

use crate::types::Addr;
use vstd::prelude::*;

verus! {

/// The number under which the chain knows a piece of contract code.
pub type CodeId = u64;

/// The code of the wallets, and the chain on which they live.
#[derive(Debug, Clone, PartialEq, Eq)]
pub struct State {
    pub host_code_id: CodeId,
    pub host_chain: String,
}

/// What a [`State`] stands for.
pub struct StateView {
    pub host_code_id: CodeId,
    pub host_chain: Seq<char>,
}

impl View for State {
    type V = StateView;

    open spec fn view(&self) -> StateView {
        StateView { host_code_id: self.host_code_id, host_chain: self.host_chain@ }
    }
}

/// Everything the factory keeps: its state, the code of the executors for
/// each chain, and the wallet of each owner. The two tables are lists of
/// entries in which the last entry with a key is the one that counts.
#[derive(Debug, Clone, PartialEq, Eq)]
pub struct Store {
    pub state: State,
    pub slaves: Vec<(String, CodeId)>,
    pub wallets: Vec<(Addr, Addr)>,
}

/// What a [`Store`] stands for: the tables are maps.
#[verifier::ext_equal]
pub struct StoreView {
    pub state: StateView,
    pub slaves: Map<Seq<char>, CodeId>,
    pub wallets: Map<Seq<char>, Seq<char>>,
}

impl View for Store {
    type V = StoreView;

    open spec fn view(&self) -> StoreView {
        StoreView {
            state: self.state@,
            slaves: table(self.slaves.deep_view()),
            wallets: table(self.wallets.deep_view()),
        }
    }
}

/// The map that a list of entries stands for: each key with the value of
/// the last entry that has it.
pub open spec fn table<V>(entries: Seq<(Seq<char>, V)>) -> Map<Seq<char>, V>
    decreases entries.len(),
{
    if entries.len() == 0 {
        Map::empty()
    } else {
        table(entries.drop_last()).insert(entries.last().0, entries.last().1)
    }
}

/// The value of `key` in `map`, if it has one.
pub open spec fn value_of<V>(map: Map<Seq<char>, V>, key: Seq<char>) -> Option<V> {
    if map.dom().contains(key) {
        Some(map[key])
    } else {
        None
    }
}

/// The entries whose key is not `key`.
pub open spec fn other_key<V>(key: Seq<char>) -> spec_fn((Seq<char>, V)) -> bool {
    |e: (Seq<char>, V)| e.0 != key
}

/// An entry appended to a list overrides the key in the table.
pub proof fn lemma_table_push<V>(entries: Seq<(Seq<char>, V)>, key: Seq<char>, value: V)
    ensures
        table(entries.push((key, value))) == table(entries).insert(key, value),
{
    assert(entries.push((key, value)).drop_last() =~= entries);
}

/// A list without the entries of a key stands for the table without that
/// key.
pub proof fn lemma_table_without<V>(entries: Seq<(Seq<char>, V)>, key: Seq<char>)
    ensures
        table(entries.filter(other_key(key))) == table(entries).remove(key),
    decreases entries.len(),
{
    let keep = other_key::<V>(key);
    reveal(Seq::filter);
    if entries.len() > 0 {
        let rest = entries.drop_last();
        let last = entries.last();
        lemma_table_without(rest, key);
        if keep(last) {
            lemma_table_push(rest.filter(keep), last.0, last.1);
        }
    }
}

/// The code registered for `chain`, if any.
pub fn load_code_id(slaves: &Vec<(String, CodeId)>, chain: &String) -> (r: Option<CodeId>)
    ensures
        r == value_of(table(slaves.deep_view()), chain@),
{
    let mut found: Option<CodeId> = None;
    let mut i: usize = 0;
    while i < slaves.len()
        invariant
            i <= slaves.len(),
            found == value_of(table(slaves.deep_view().take(i as int)), chain@),
        decreases slaves.len() - i,
    {
        proof {
            let entry = slaves.deep_view()[i as int];
            assert(slaves.deep_view().take(i + 1) =~= slaves.deep_view().take(i as int).push(
                entry,
            ));
            lemma_table_push(slaves.deep_view().take(i as int), entry.0, entry.1);
        }
        if slaves[i].0 == *chain {
            found = Some(slaves[i].1);
        }
        i += 1;
    }
    assert(slaves.deep_view().take(i as int) =~= slaves.deep_view());
    found
}

/// Registers `code_id` as the code for `chain`, in place of any other.
pub fn save_code_id(slaves: &mut Vec<(String, CodeId)>, chain: String, code_id: CodeId)
    ensures
        table(final(slaves).deep_view()) == table(old(slaves).deep_view()).insert(chain@, code_id),
{
    let ghost before = slaves.deep_view();
    let ghost keep = other_key::<CodeId>(chain@);
    let mut kept: Vec<(String, CodeId)> = Vec::new();
    let mut i: usize = 0;
    while i < slaves.len()
        invariant
            i <= slaves.len(),
            keep == other_key::<CodeId>(chain@),
            kept.deep_view() == slaves.deep_view().take(i as int).filter(keep),
        decreases slaves.len() - i,
    {
        let ghost done = slaves.deep_view().take(i as int);
        let ghost entry = slaves.deep_view()[i as int];
        proof {
            assert(slaves.deep_view().take(i + 1) =~= done.push(entry));
            assert(done.push(entry).drop_last() =~= done);
            reveal(Seq::filter);
        }
        if !(slaves[i].0 == chain) {
            kept.push((slaves[i].0.clone(), slaves[i].1));
        }
        i += 1;
    }
    assert(slaves.deep_view().take(i as int) =~= slaves.deep_view());
    let ghost without = kept.deep_view();
    let ghost key = chain@;
    kept.push((chain, code_id));
    proof {
        assert(kept.deep_view() =~= without.push((key, code_id)));
        lemma_table_push(without, key, code_id);
        lemma_table_without(before, key);
    }
    *slaves = kept;
}

/// The wallet indexed under `owner`, if any.
pub fn load_wallet(wallets: &Vec<(Addr, Addr)>, owner: &Addr) -> (r: Option<Addr>)
    ensures
        r.deep_view() == value_of(table(wallets.deep_view()), owner@),
{
    let mut found: Option<Addr> = None;
    let mut i: usize = 0;
    while i < wallets.len()
        invariant
            i <= wallets.len(),
            found.deep_view() == value_of(table(wallets.deep_view().take(i as int)), owner@),
        decreases wallets.len() - i,
    {
        proof {
            let entry = wallets.deep_view()[i as int];
            assert(wallets.deep_view().take(i + 1) =~= wallets.deep_view().take(i as int).push(
                entry,
            ));
            lemma_table_push(wallets.deep_view().take(i as int), entry.0, entry.1);
        }
        if wallets[i].0 == *owner {
            found = Some(wallets[i].1.clone());
        }
        i += 1;
    }
    assert(wallets.deep_view().take(i as int) =~= wallets.deep_view());
    found
}

/// Takes the entry of `owner` out of the index.
pub fn remove_wallet(wallets: &mut Vec<(Addr, Addr)>, owner: &Addr)
    ensures
        table(final(wallets).deep_view()) == table(old(wallets).deep_view()).remove(owner@),
{
    let ghost keep = other_key::<Seq<char>>(owner@);
    let mut kept: Vec<(Addr, Addr)> = Vec::new();
    let mut i: usize = 0;
    while i < wallets.len()
        invariant
            i <= wallets.len(),
            keep == other_key::<Seq<char>>(owner@),
            kept.deep_view() == wallets.deep_view().take(i as int).filter(keep),
        decreases wallets.len() - i,
    {
        let ghost done = wallets.deep_view().take(i as int);
        let ghost entry = wallets.deep_view()[i as int];
        proof {
            assert(wallets.deep_view().take(i + 1) =~= done.push(entry));
            assert(done.push(entry).drop_last() =~= done);
            reveal(Seq::filter);
        }
        if !(wallets[i].0 == *owner) {
            kept.push((wallets[i].0.clone(), wallets[i].1.clone()));
        }
        i += 1;
    }
    assert(wallets.deep_view().take(i as int) =~= wallets.deep_view());
    proof {
        lemma_table_without(wallets.deep_view(), owner@);
    }
    *wallets = kept;
}

/// Indexes `wallet` under `owner`, in place of any other.
pub fn save_wallet(wallets: &mut Vec<(Addr, Addr)>, owner: Addr, wallet: Addr)
    ensures
        table(final(wallets).deep_view()) == table(old(wallets).deep_view()).insert(
            owner@,
            wallet@,
        ),
{
    remove_wallet(wallets, &owner);
    let ghost without = wallets.deep_view();
    let ghost entry = (owner@, wallet@);
    wallets.push((owner, wallet));
    proof {
        assert(wallets.deep_view() =~= without.push(entry));
        lemma_table_push(without, entry.0, entry.1);
    }
}

} // verus!
