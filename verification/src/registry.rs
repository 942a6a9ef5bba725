//! The registry: the owner, the allow-list of code hashes, and one record for
//! each registered agent.

use crate::errors::AccessError;
use crate::text::same_text;
use vstd::prelude::*;

verus! {

/// The record of a registered agent.
#[derive(Debug)]
pub struct Worker {
    checksum: String,
    codehash: String,
}

/// What a [`Worker`] holds.
pub ghost struct WorkerView {
    /// The identifier that the agent supplied at registration; not verified.
    pub checksum: Seq<char>,
    /// The code hash of the application image, taken from the attestation.
    pub codehash: Seq<char>,
}

impl View for Worker {
    type V = WorkerView;

    closed spec fn view(&self) -> WorkerView {
        WorkerView { checksum: self.checksum@, codehash: self.codehash@ }
    }
}

impl Clone for Worker {
    fn clone(&self) -> (r: Self)
        ensures
            r@ == self@,
    {
        Worker { checksum: self.checksum.clone(), codehash: self.codehash.clone() }
    }
}

impl Worker {
    pub fn new(checksum: String, codehash: String) -> (r: Worker)
        ensures
            r@ == (WorkerView { checksum: checksum@, codehash: codehash@ }),
    {
        Worker { checksum, codehash }
    }

    pub fn checksum(&self) -> (r: &str)
        ensures
            r@ == self@.checksum,
    {
        self.checksum.as_str()
    }

    pub fn codehash(&self) -> (r: &str)
        ensures
            r@ == self@.codehash,
    {
        self.codehash.as_str()
    }
}

/// The state of the registry.
pub struct Contract {
    owner_id: String,
    approved_codehashes: Vec<String>,
    worker_by_account_id: Vec<(String, Worker)>,
}

/// What a [`Contract`] holds.
pub ghost struct ContractView {
    /// The one identity that may change the allow-list.
    pub owner: Seq<char>,
    /// The allow-list.
    pub approved: Set<Seq<char>>,
    /// The record of each registered identity.
    pub agents: Map<Seq<char>, WorkerView>,
}

/// The texts of a list of strings.
pub open spec fn texts(list: Seq<String>) -> Seq<Seq<char>> {
    list.map_values(|s: String| s@)
}

/// The identities of a list of records.
pub open spec fn identities(entries: Seq<(String, Worker)>) -> Seq<Seq<char>> {
    entries.map_values(|e: (String, Worker)| e.0@)
}

/// The map that a list of records with distinct identities stands for.
pub open spec fn records(entries: Seq<(String, Worker)>) -> Map<Seq<char>, WorkerView> {
    Map::new(
        |k: Seq<char>| identities(entries).contains(k),
        |k: Seq<char>| entries[identities(entries).index_of(k)].1@,
    )
}

/// A list with one more item at its end holds what it held, and that item;
/// it has no duplicates where it had none and the item is new.
pub proof fn lemma_push_to_set<A>(s: Seq<A>, x: A)
    ensures
        s.push(x).to_set() == s.to_set().insert(x),
        s.no_duplicates() && !s.contains(x) ==> s.push(x).no_duplicates(),
{
    let t = s.push(x);
    assert forall|a: A| t.to_set().contains(a) <==> s.to_set().insert(x).contains(a) by {
        if s.contains(a) {
            let j = choose|j: int| 0 <= j < s.len() && s[j] == a;
            assert(t[j] == a);
        }
        assert(t[s.len() as int] == x);
    }
    assert(t.to_set() =~= s.to_set().insert(x));
}

/// In a list without duplicates each item is found where it stands.
pub proof fn lemma_index_of<A>(s: Seq<A>, i: int)
    requires
        s.no_duplicates(),
        0 <= i < s.len(),
    ensures
        s.contains(s[i]),
        s.index_of(s[i]) == i,
{
}

/// Where `item` stands in `list`, if it does.
fn position_of(list: &Vec<String>, item: &str) -> (r: Option<usize>)
    ensures
        match r {
            Some(i) => i < list.len() && texts(list@)[i as int] == item@,
            None => !texts(list@).contains(item@),
        },
{
    let mut i: usize = 0;
    while i < list.len()
        invariant
            i <= list.len(),
            forall|j: int| 0 <= j < i ==> texts(list@)[j] != item@,
        decreases list.len() - i,
    {
        if same_text(list[i].as_str(), item) {
            return Some(i);
        }
        i += 1;
    }
    None
}

/// Where the record of `account` stands in `entries`, if there is one.
fn record_of(entries: &Vec<(String, Worker)>, account: &str) -> (r: Option<usize>)
    ensures
        match r {
            Some(i) => i < entries.len() && identities(entries@)[i as int] == account@,
            None => !identities(entries@).contains(account@),
        },
{
    let mut i: usize = 0;
    while i < entries.len()
        invariant
            i <= entries.len(),
            forall|j: int| 0 <= j < i ==> identities(entries@)[j] != account@,
        decreases entries.len() - i,
    {
        if same_text(entries[i].0.as_str(), account) {
            return Some(i);
        }
        i += 1;
    }
    None
}

/// Puts `codehash` on `list` unless it stands there.
fn put_codehash(list: &mut Vec<String>, codehash: String)
    requires
        texts(old(list)@).no_duplicates(),
    ensures
        texts(final(list)@).no_duplicates(),
        texts(final(list)@).to_set() == texts(old(list)@).to_set().insert(codehash@),
{
    if position_of(list, codehash.as_str()).is_none() {
        let ghost before = texts(list@);
        list.push(codehash);
        proof {
            assert(texts(list@) =~= before.push(codehash@));
            lemma_push_to_set(before, codehash@);
        }
    } else {
        assert(texts(list@).to_set().insert(codehash@) =~= texts(list@).to_set());
    }
}

/// Makes `worker` the record of `account`, in place of the one it had if it
/// had one.
fn put_record(entries: &mut Vec<(String, Worker)>, account: String, worker: Worker)
    requires
        identities(old(entries)@).no_duplicates(),
    ensures
        identities(final(entries)@).no_duplicates(),
        records(final(entries)@) == records(old(entries)@).insert(account@, worker@),
{
    let ghost before = entries@;
    let ghost key = account@;
    let ghost record = worker@;
    match record_of(entries, account.as_str()) {
        Some(i) => {
            entries.set(i, (account, worker));
            proof {
                let after = entries@;
                assert(identities(after) =~= identities(before));
                lemma_index_of(identities(before), i as int);
                assert forall|k: Seq<char>| #[trigger]
                    identities(before).contains(k) && k != key implies after[identities(
                    before,
                ).index_of(k)] == before[identities(before).index_of(k)] by {}
                assert(records(after) =~= records(before).insert(key, record));
            }
        },
        None => {
            entries.push((account, worker));
            proof {
                let after = entries@;
                assert(identities(after) =~= identities(before).push(key));
                lemma_push_to_set(identities(before), key);
                lemma_index_of(identities(after), before.len() as int);
                assert forall|k: Seq<char>| #[trigger]
                    identities(before).contains(k) implies identities(after).index_of(k)
                    == identities(before).index_of(k) by {
                    let j = identities(before).index_of(k);
                    lemma_index_of(identities(after), j);
                }
                assert forall|k: Seq<char>| #[trigger]
                    identities(after).contains(k) implies identities(before).contains(k) || k
                    == key by {
                    assert(identities(after).to_set().contains(k));
                }
                assert(records(after) =~= records(before).insert(key, record));
            }
        },
    }
}

/// The map that a list of records stands for where an identity may have
/// several: the last one counts. Only the first `count` records are read.
pub open spec fn collected(entries: Seq<(String, Worker)>, count: int) -> Map<
    Seq<char>,
    WorkerView,
>
    decreases count,
{
    if count <= 0 {
        Map::empty()
    } else {
        collected(entries, count - 1).insert(entries[count - 1].0@, entries[count - 1].1@)
    }
}

impl Contract {
    /// No code hash stands twice on the allow-list, and no identity has two
    /// records. Every registry that this library hands out is well formed.
    pub closed spec fn well_formed(&self) -> bool {
        &&& texts(self.approved_codehashes@).no_duplicates()
        &&& identities(self.worker_by_account_id@).no_duplicates()
    }

    /// The owner, the allow-list as a set, and the records as a map.
    pub closed spec fn view(&self) -> ContractView {
        ContractView {
            owner: self.owner_id@,
            approved: texts(self.approved_codehashes@).to_set(),
            agents: records(self.worker_by_account_id@),
        }
    }

    /// The allow-list is finite.
    pub proof fn lemma_allow_list_is_finite(&self)
        ensures
            self@.approved.finite(),
    {
        vstd::seq_lib::seq_to_set_is_finite(texts(self.approved_codehashes@));
    }

    /// A registry of `owner_id` with an empty allow-list and no agent.
    pub fn init(owner_id: String) -> (r: Contract)
        ensures
            r.well_formed(),
            r@ == initial(owner_id@),
    {
        let r = Contract {
            owner_id,
            approved_codehashes: Vec::new(),
            worker_by_account_id: Vec::new(),
        };
        assert(r@.approved =~= Set::<Seq<char>>::empty());
        assert(r@.agents =~= Map::<Seq<char>, WorkerView>::empty());
        r
    }

    /// The registry that holds these parts. A code hash may stand several
    /// times in `approved_codehashes`; of several records of one identity the
    /// last one counts.
    pub fn from_parts(
        owner_id: String,
        approved_codehashes: Vec<String>,
        workers: Vec<(String, Worker)>,
    ) -> (r: Contract)
        ensures
            r.well_formed(),
            r@.owner == owner_id@,
            r@.approved == texts(approved_codehashes@).to_set(),
            r@.agents == collected(workers@, workers@.len() as int),
    {
        let mut list: Vec<String> = Vec::new();
        let mut i: usize = 0;
        assert(texts(list@).to_set() =~= texts(approved_codehashes@.subrange(0, 0)).to_set());
        while i < approved_codehashes.len()
            invariant
                i <= approved_codehashes.len(),
                texts(list@).no_duplicates(),
                texts(list@).to_set() == texts(approved_codehashes@.subrange(0, i as int)).to_set(),
            decreases approved_codehashes.len() - i,
        {
            put_codehash(&mut list, approved_codehashes[i].clone());
            proof {
                let before = approved_codehashes@.subrange(0, i as int);
                let after = approved_codehashes@.subrange(0, i + 1);
                assert(texts(after) =~= texts(before).push(approved_codehashes[i as int]@));
                lemma_push_to_set(texts(before), approved_codehashes[i as int]@);
            }
            i += 1;
        }
        assert(approved_codehashes@.subrange(0, i as int) =~= approved_codehashes@);
        let mut entries: Vec<(String, Worker)> = Vec::new();
        let mut j: usize = 0;
        assert(records(entries@) =~= collected(workers@, 0));
        while j < workers.len()
            invariant
                j <= workers.len(),
                identities(entries@).no_duplicates(),
                records(entries@) == collected(workers@, j as int),
            decreases workers.len() - j,
        {
            put_record(&mut entries, workers[j].0.clone(), workers[j].1.clone());
            j += 1;
        }
        Contract { owner_id, approved_codehashes: list, worker_by_account_id: entries }
    }

    /// The owner.
    pub fn owner_id(&self) -> (r: &str)
        ensures
            r@ == self@.owner,
    {
        self.owner_id.as_str()
    }

    /// The allow-list, each code hash once.
    pub fn approved_codehashes(&self) -> (r: Vec<String>)
        requires
            self.well_formed(),
        ensures
            texts(r@).no_duplicates(),
            texts(r@).to_set() == self@.approved,
            r@.len() == self@.approved.len(),
    {
        let mut r: Vec<String> = Vec::new();
        let mut i: usize = 0;
        while i < self.approved_codehashes.len()
            invariant
                i <= self.approved_codehashes.len(),
                r@.len() == i,
                forall|j: int| 0 <= j < i ==> (#[trigger] r@[j])@ == self.approved_codehashes@[j]@,
            decreases self.approved_codehashes.len() - i,
        {
            r.push(self.approved_codehashes[i].clone());
            i += 1;
        }
        proof {
            assert(texts(r@) =~= texts(self.approved_codehashes@));
            texts(r@).unique_seq_to_set();
        }
        r
    }

    /// The records, each identity once.
    pub fn workers(&self) -> (r: Vec<(String, Worker)>)
        requires
            self.well_formed(),
        ensures
            identities(r@).no_duplicates(),
            records(r@) == self@.agents,
    {
        let mut r: Vec<(String, Worker)> = Vec::new();
        let mut i: usize = 0;
        while i < self.worker_by_account_id.len()
            invariant
                i <= self.worker_by_account_id.len(),
                r@.len() == i,
                forall|j: int|
                    0 <= j < i ==> (#[trigger] r@[j]).0@ == self.worker_by_account_id@[j].0@
                        && r@[j].1@ == self.worker_by_account_id@[j].1@,
            decreases self.worker_by_account_id.len() - i,
        {
            let entry = &self.worker_by_account_id[i];
            r.push((entry.0.clone(), entry.1.clone()));
            i += 1;
        }
        proof {
            assert(identities(r@) =~= identities(self.worker_by_account_id@));
            assert(records(r@) =~= records(self.worker_by_account_id@));
        }
        r
    }

    /// How many code hashes are on the allow-list.
    pub fn approved_count(&self) -> (r: usize)
        requires
            self.well_formed(),
        ensures
            r == self@.approved.len(),
    {
        proof {
            texts(self.approved_codehashes@).unique_seq_to_set();
        }
        self.approved_codehashes.len()
    }

    /// Succeeds for the owner and for nobody else.
    pub fn require_owner(&self, caller: &str) -> (r: Result<(), AccessError>)
        ensures
            r == owner_access(self@, caller@),
    {
        if same_text(self.owner_id.as_str(), caller) {
            Ok(())
        } else {
            Err(AccessError::NotOwner)
        }
    }

    /// Whether `codehash` is on the allow-list.
    pub fn is_approved(&self, codehash: &str) -> (r: bool)
        ensures
            r == self@.approved.contains(codehash@),
    {
        position_of(&self.approved_codehashes, codehash).is_some()
    }

    /// Puts `codehash` on the allow-list, for the owner; for any other caller
    /// nothing changes.
    pub fn approve_codehash(&mut self, caller: &str, codehash: String) -> (r: Result<
        (),
        AccessError,
    >)
        requires
            old(self).well_formed(),
        ensures
            final(self).well_formed(),
            r == owner_access(old(self)@, caller@),
            final(self)@ == if r.is_ok() {
                approved_with(old(self)@, codehash@)
            } else {
                old(self)@
            },
    {
        if !same_text(self.owner_id.as_str(), caller) {
            return Err(AccessError::NotOwner);
        }
        put_codehash(&mut self.approved_codehashes, codehash);
        Ok(())
    }

    /// The record of `account_id`.
    pub fn get_agent(&self, account_id: &str) -> (r: Result<Worker, AccessError>)
        requires
            self.well_formed(),
        ensures
            match r {
                Ok(worker) => self@.agents.contains_key(account_id@) && worker@
                    == self@.agents[account_id@],
                Err(e) => !self@.agents.contains_key(account_id@) && e
                    == AccessError::NotRegistered,
            },
    {
        match record_of(&self.worker_by_account_id, account_id) {
            Some(i) => {
                proof {
                    lemma_index_of(identities(self.worker_by_account_id@), i as int);
                }
                Ok(self.worker_by_account_id[i].1.clone())
            },
            None => Err(AccessError::NotRegistered),
        }
    }

    /// Succeeds for a registered caller whose recorded code hash is on the
    /// allow-list now.
    pub fn require_approved_codehash(&self, caller: &str) -> (r: Result<(), AccessError>)
        requires
            self.well_formed(),
        ensures
            r == access_of(self@, caller@),
    {
        match self.get_agent(caller) {
            Err(_) => Err(AccessError::NotRegistered),
            Ok(worker) => {
                if self.is_approved(worker.codehash()) {
                    Ok(())
                } else {
                    Err(AccessError::RevokedOrUnapproved)
                }
            },
        }
    }

    /// Registers `caller` with the two images of its attestation: where both
    /// are on the allow-list, the caller's record becomes `checksum` and the
    /// application image; where one is not, nothing changes.
    pub fn admit_agent(
        &mut self,
        caller: &str,
        api_image: &str,
        app_image: String,
        checksum: String,
    ) -> (r: bool)
        requires
            old(self).well_formed(),
        ensures
            final(self).well_formed(),
            r == both_approved(old(self)@, api_image@, app_image@),
            final(self)@ == if r {
                registered(old(self)@, caller@, checksum@, app_image@)
            } else {
                old(self)@
            },
    {
        if !self.is_approved(api_image) || !self.is_approved(app_image.as_str()) {
            return false;
        }
        put_record(
            &mut self.worker_by_account_id,
            String::from_str(caller),
            Worker { checksum, codehash: app_image },
        );
        true
    }
}

/// The registry that `init` gives.
pub open spec fn initial(owner: Seq<char>) -> ContractView {
    ContractView { owner, approved: Set::empty(), agents: Map::empty() }
}

/// What the owner check answers for `caller`.
pub open spec fn owner_access(state: ContractView, caller: Seq<char>) -> Result<(), AccessError> {
    if caller == state.owner {
        Ok(())
    } else {
        Err(AccessError::NotOwner)
    }
}

/// The registry with `codehash` on its allow-list.
pub open spec fn approved_with(state: ContractView, codehash: Seq<char>) -> ContractView {
    ContractView { approved: state.approved.insert(codehash), ..state }
}

/// What the access gate answers for `caller`.
pub open spec fn access_of(state: ContractView, caller: Seq<char>) -> Result<(), AccessError> {
    if !state.agents.contains_key(caller) {
        Err(AccessError::NotRegistered)
    } else if !state.approved.contains(state.agents[caller].codehash) {
        Err(AccessError::RevokedOrUnapproved)
    } else {
        Ok(())
    }
}

/// Whether both images are on the allow-list.
pub open spec fn both_approved(
    state: ContractView,
    api_image: Seq<char>,
    app_image: Seq<char>,
) -> bool {
    state.approved.contains(api_image) && state.approved.contains(app_image)
}

/// The registry with `checksum` and `codehash` as the record of `caller`.
pub open spec fn registered(
    state: ContractView,
    caller: Seq<char>,
    checksum: Seq<char>,
    codehash: Seq<char>,
) -> ContractView {
    ContractView { agents: state.agents.insert(caller, WorkerView { checksum, codehash }), ..state }
}

} // verus!
