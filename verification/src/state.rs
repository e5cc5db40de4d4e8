//! What the relay keeps between invocations: the administrator and one
//! account record for each connected channel.

use vstd::prelude::*;
use crate::coin::{clone_coins, coins_model, Coin, CoinModel};
use crate::lexical::{id_less, lemma_id_less_irreflexive, lemma_id_less_total, lemma_id_less_transitive, precedes};

verus! {

/// The single administrator of the relay.
#[derive(Debug)]
pub struct Config {
    pub admin: String,
}

/// What is known of the account on the other ledger, for one channel.
#[derive(Debug)]
pub struct AccountData {
    /// Time of the last balance report; zero before the first one.
    pub last_update_time: u64,
    /// Address of the remote account, once it is known.
    pub remote_addr: Option<String>,
    /// Balances of the remote account as last reported.
    pub remote_balance: Vec<Coin>,
}

/// The mathematical value of an [`AccountData`].
pub struct AccountModel {
    pub last_update_time: nat,
    pub remote_addr: Option<Seq<char>>,
    pub remote_balance: Seq<CoinModel>,
}

impl AccountModel {
    /// The record of a channel that has just been connected.
    pub open spec fn fresh() -> AccountModel {
        AccountModel { last_update_time: 0, remote_addr: None, remote_balance: Seq::empty() }
    }
}

/// The value of an optional address.
pub open spec fn addr_model(addr: Option<String>) -> Option<Seq<char>> {
    match addr {
        Some(a) => Some(a@),
        None => None,
    }
}

impl View for AccountData {
    type V = AccountModel;

    open spec fn view(&self) -> AccountModel {
        AccountModel {
            last_update_time: self.last_update_time as nat,
            remote_addr: addr_model(self.remote_addr),
            remote_balance: coins_model(self.remote_balance@),
        }
    }
}

impl Default for AccountData {
    fn default() -> (out: Self)
        ensures
            out@ == AccountModel::fresh(),
    {
        let out = AccountData { last_update_time: 0, remote_addr: None, remote_balance: Vec::new() };
        assert(out@.remote_balance =~= Seq::empty());
        out
    }
}

/// Copies an optional address.
pub fn clone_addr(addr: &Option<String>) -> (out: Option<String>)
    ensures
        addr_model(out) == addr_model(*addr),
{
    match addr {
        Some(a) => Some(a.clone()),
        None => None,
    }
}

impl Clone for AccountData {
    fn clone(&self) -> (out: Self)
        ensures
            out@ == self@,
    {
        AccountData {
            last_update_time: self.last_update_time,
            remote_addr: clone_addr(&self.remote_addr),
            remote_balance: clone_coins(&self.remote_balance),
        }
    }
}

/// One record of the registry together with the channel it belongs to.
#[derive(Debug)]
pub struct AccountEntry {
    pub channel_id: String,
    pub data: AccountData,
}

/// The channels of `entries` come in strictly ascending order.
pub open spec fn ascending(entries: Seq<AccountEntry>) -> bool {
    forall|i: int, j: int|
        0 <= i < j < entries.len() ==> id_less(
            #[trigger] entries[i].channel_id@,
            #[trigger] entries[j].channel_id@,
        )
}

/// Some entry of `entries` belongs to channel `id`.
pub open spec fn holds(entries: Seq<AccountEntry>, id: Seq<char>) -> bool {
    exists|i: int| 0 <= i < entries.len() && #[trigger] entries[i].channel_id@ == id
}

/// The place of channel `id` in `entries`, where it has one.
pub open spec fn slot(entries: Seq<AccountEntry>, id: Seq<char>) -> int {
    choose|i: int| 0 <= i < entries.len() && #[trigger] entries[i].channel_id@ == id
}

/// The mapping from channel to record that `entries` stands for.
pub open spec fn as_map(entries: Seq<AccountEntry>) -> Map<Seq<char>, AccountModel> {
    Map::new(|id: Seq<char>| holds(entries, id), |id: Seq<char>| entries[slot(entries, id)].data@)
}

/// `entries` lists exactly the records of `accounts`, each once, by
/// ascending channel identifier.
pub open spec fn is_listing(
    entries: Seq<AccountEntry>,
    accounts: Map<Seq<char>, AccountModel>,
) -> bool {
    &&& ascending(entries)
    &&& forall|i: int|
        0 <= i < entries.len() ==> accounts.contains_key(#[trigger] entries[i].channel_id@)
            && accounts[entries[i].channel_id@] == entries[i].data@
    &&& forall|id: Seq<char>| #[trigger] accounts.contains_key(id) ==> holds(entries, id)
}

/// In an ascending list every channel has one place only.
pub proof fn lemma_slot(entries: Seq<AccountEntry>, i: int)
    requires
        ascending(entries),
        0 <= i < entries.len(),
    ensures
        holds(entries, entries[i].channel_id@),
        slot(entries, entries[i].channel_id@) == i,
{
    let id = entries[i].channel_id@;
    let j = slot(entries, id);
    lemma_id_less_irreflexive(id);
    if j < i {
        assert(id_less(entries[j].channel_id@, entries[i].channel_id@));
    } else if i < j {
        assert(id_less(entries[i].channel_id@, entries[j].channel_id@));
    }
}

/// An ascending list is a listing of the mapping it stands for.
pub proof fn lemma_listing(entries: Seq<AccountEntry>)
    requires
        ascending(entries),
    ensures
        is_listing(entries, as_map(entries)),
{
    assert forall|i: int| 0 <= i < entries.len() implies as_map(entries).contains_key(
        #[trigger] entries[i].channel_id@,
    ) && as_map(entries)[entries[i].channel_id@] == entries[i].data@ by {
        lemma_slot(entries, i);
    }
}

/// Finds where channel `id` stands in an ascending list, or where it would
/// have to be put.
fn locate(entries: &Vec<AccountEntry>, id: &str) -> (out: (usize, bool))
    requires
        ascending(entries@),
    ensures
        out.0 <= entries@.len(),
        forall|j: int| 0 <= j < out.0 ==> id_less(#[trigger] entries@[j].channel_id@, id@),
        out.1 ==> out.0 < entries@.len() && entries@[out.0 as int].channel_id@ == id@,
        !out.1 ==> !holds(entries@, id@),
        !out.1 ==> forall|j: int|
            out.0 <= j < entries@.len() ==> id_less(id@, #[trigger] entries@[j].channel_id@),
{
    let mut i: usize = 0;
    while i < entries.len()
        invariant
            i <= entries@.len(),
            ascending(entries@),
            forall|j: int| 0 <= j < i ==> id_less(#[trigger] entries@[j].channel_id@, id@),
        decreases entries@.len() - i,
    {
        if !precedes(entries[i].channel_id.as_str(), id) {
            let found = !precedes(id, entries[i].channel_id.as_str());
            proof {
                let here = entries@[i as int].channel_id@;
                lemma_id_less_total(here, id@);
                if !found {
                    assert forall|j: int| i <= j < entries@.len() implies id_less(
                        id@,
                        #[trigger] entries@[j].channel_id@,
                    ) by {
                        if i < j {
                            assert(id_less(entries@[i as int].channel_id@, entries@[j].channel_id@));
                            lemma_id_less_transitive(id@, here, entries@[j].channel_id@);
                        }
                    }
                    assert forall|j: int| 0 <= j < entries@.len() implies #[trigger] entries@[j].channel_id@
                        != id@ by {
                        lemma_id_less_irreflexive(id@);
                    }
                }
            }
            return (i, found);
        }
        i += 1;
    }
    proof {
        assert forall|j: int| 0 <= j < entries@.len() implies #[trigger] entries@[j].channel_id@
            != id@ by {
            lemma_id_less_irreflexive(id@);
        }
    }
    (i, false)
}

/// The account registry: one record for each connected channel, kept by
/// ascending channel identifier.
#[derive(Debug)]
pub struct Registry {
    entries: Vec<AccountEntry>,
}

impl View for Registry {
    type V = Map<Seq<char>, AccountModel>;

    closed spec fn view(&self) -> Map<Seq<char>, AccountModel> {
        as_map(self.entries@)
    }
}

impl Registry {
    #[verifier::type_invariant]
    spec fn well_formed(&self) -> bool {
        ascending(self.entries@)
    }

    /// A registry without any record.
    pub fn new() -> (out: Self)
        ensures
            out@ == Map::<Seq<char>, AccountModel>::empty(),
    {
        let out = Registry { entries: Vec::new() };
        assert(out@ =~= Map::<Seq<char>, AccountModel>::empty());
        out
    }

    /// The record of channel `channel_id`, if it has one.
    pub fn load(&self, channel_id: &str) -> (out: Option<&AccountData>)
        ensures
            match out {
                Some(data) => self@.contains_key(channel_id@) && self@[channel_id@] == data@,
                None => !self@.contains_key(channel_id@),
            },
    {
        proof {
            use_type_invariant(&*self);
        }
        let (pos, found) = locate(&self.entries, channel_id);
        if found {
            proof {
                lemma_slot(self.entries@, pos as int);
            }
            Some(&self.entries[pos].data)
        } else {
            None
        }
    }

    /// Whether channel `channel_id` has a record.
    pub fn contains(&self, channel_id: &str) -> (out: bool)
        ensures
            out == self@.contains_key(channel_id@),
    {
        self.load(channel_id).is_some()
    }

    /// Stores `data` as the record of `channel_id`, in place of the record
    /// that the channel had, if it had one.
    pub fn save(&mut self, channel_id: String, data: AccountData)
        ensures
            final(self)@ == old(self)@.insert(channel_id@, data@),
    {
        proof {
            use_type_invariant(&*self);
        }
        let mut entries: Vec<AccountEntry> = Vec::new();
        std::mem::swap(&mut entries, &mut self.entries);
        let ghost before = entries@;
        let ghost id = channel_id@;
        let ghost value = data@;
        let (pos, found) = locate(&entries, channel_id.as_str());
        let entry = AccountEntry { channel_id, data };
        if found {
            entries.set(pos, entry);
        } else {
            entries.insert(pos, entry);
        }
        proof {
            let after = entries@;
            let shift: int = if found { 0 } else { 1 };
            assert(ascending(after)) by {
                assert forall|i: int, j: int| 0 <= i < j < after.len() implies id_less(
                    #[trigger] after[i].channel_id@,
                    #[trigger] after[j].channel_id@,
                ) by {
                    let bi = if i < pos { i } else if i == pos { pos as int } else { i - shift };
                    let bj = if j < pos { j } else if j == pos { pos as int } else { j - shift };
                    if i != pos && j != pos {
                        assert(after[i] == before[bi]);
                        assert(after[j] == before[bj]);
                        assert(id_less(before[bi].channel_id@, before[bj].channel_id@));
                    } else if i == pos {
                        assert(after[j] == before[bj]);
                        if found {
                            assert(id_less(before[pos as int].channel_id@, before[bj].channel_id@));
                        }
                    } else {
                        assert(after[i] == before[bi]);
                    }
                }
            }
            assert forall|k: Seq<char>| holds(after, k) <==> (k == id || holds(before, k)) by {
                if holds(after, k) && k != id {
                    let i = slot(after, k);
                    let bi = if i < pos { i } else { i - shift };
                    assert(after[i] == before[bi]);
                }
                if holds(before, k) && k != id {
                    let bi = slot(before, k);
                    let i = if bi < pos { bi } else { bi + shift };
                    assert(after[i] == before[bi]);
                }
                if k == id {
                    assert(after[pos as int].channel_id@ == id);
                }
            }
            assert forall|k: Seq<char>| holds(after, k) implies as_map(after)[k] == as_map(
                before,
            ).insert(id, value)[k] by {
                let i = slot(after, k);
                lemma_slot(after, i);
                if k == id {
                    lemma_slot(after, pos as int);
                } else {
                    let bi = if i < pos { i } else { i - shift };
                    assert(after[i] == before[bi]);
                    lemma_slot(before, bi);
                }
            }
            assert(as_map(after) =~= as_map(before).insert(id, value));
        }
        self.entries = entries;
    }

    /// Deletes the record of `channel_id`, if it has one.
    pub fn remove(&mut self, channel_id: &str)
        ensures
            final(self)@ == old(self)@.remove(channel_id@),
    {
        proof {
            use_type_invariant(&*self);
        }
        let mut entries: Vec<AccountEntry> = Vec::new();
        std::mem::swap(&mut entries, &mut self.entries);
        let ghost before = entries@;
        let ghost id = channel_id@;
        let (pos, found) = locate(&entries, channel_id);
        if found {
            entries.remove(pos);
            proof {
                let after = entries@;
                assert forall|i: int, j: int| 0 <= i < j < after.len() implies id_less(
                    #[trigger] after[i].channel_id@,
                    #[trigger] after[j].channel_id@,
                ) by {
                    let bi = if i < pos { i } else { i + 1 };
                    let bj = if j < pos { j } else { j + 1 };
                    assert(after[i] == before[bi]);
                    assert(after[j] == before[bj]);
                    assert(id_less(before[bi].channel_id@, before[bj].channel_id@));
                }
                assert forall|k: Seq<char>| holds(after, k) <==> (k != id && holds(before, k)) by {
                    if holds(after, k) {
                        let i = slot(after, k);
                        let bi = if i < pos { i } else { i + 1 };
                        assert(after[i] == before[bi]);
                        lemma_slot(before, bi);
                        lemma_slot(before, pos as int);
                    }
                    if holds(before, k) && k != id {
                        let bi = slot(before, k);
                        let i = if bi < pos { bi } else { bi - 1 };
                        assert(after[i] == before[bi]);
                    }
                }
                assert forall|k: Seq<char>| holds(after, k) implies as_map(after)[k] == as_map(
                    before,
                )[k] by {
                    let i = slot(after, k);
                    lemma_slot(after, i);
                    let bi = if i < pos { i } else { i + 1 };
                    assert(after[i] == before[bi]);
                    lemma_slot(before, bi);
                }
                assert(as_map(after) =~= as_map(before).remove(id));
            }
        } else {
            proof {
                assert(as_map(before) =~= as_map(before).remove(id));
            }
        }
        self.entries = entries;
    }

    /// All records, each with its channel, by ascending channel identifier.
    pub fn range(&self) -> (out: &Vec<AccountEntry>)
        ensures
            is_listing(out@, self@),
    {
        proof {
            use_type_invariant(&*self);
            lemma_listing(self.entries@);
        }
        &self.entries
    }
}

/// Everything the relay keeps: the explicit handle that each operation
/// works on.
#[derive(Debug)]
pub struct Store {
    pub config: Config,
    pub accounts: Registry,
}

/// The mathematical value of a [`Store`].
pub struct StoreModel {
    pub admin: Seq<char>,
    pub accounts: Map<Seq<char>, AccountModel>,
}

impl View for Store {
    type V = StoreModel;

    open spec fn view(&self) -> StoreModel {
        StoreModel { admin: self.config.admin@, accounts: self.accounts@ }
    }
}

impl Store {
    /// The store of a relay administered by `admin`, without any channel.
    pub fn new(admin: String) -> (out: Self)
        ensures
            out@.admin == admin@,
            out@.accounts == Map::<Seq<char>, AccountModel>::empty(),
    {
        Store { config: Config { admin }, accounts: Registry::new() }
    }
}

} // verus!
