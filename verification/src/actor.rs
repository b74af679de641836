//! Actor identities, their persisted records and the spawn lifecycle.

use vstd::prelude::*;
use vstd::std_specs::cmp::PartialEqSpecImpl;
use vstd::pervasive::VecAdditionalExecFns;
use crate::error::SystemActorError;

verus! {

/// The stable address of an actor: the tag of its implementation kind and a
/// hierarchical path.
#[derive(Debug)]
pub struct ActorId {
    kind: String,
    path: String,
}

/// An address as plain values: `(kind, path)`.
pub type Address = (Seq<char>, Seq<char>);

impl View for ActorId {
    type V = Address;

    closed spec fn view(&self) -> Address {
        (self.kind@, self.path@)
    }
}

impl PartialEq for ActorId {
    fn eq(&self, other: &Self) -> (r: bool) {
        self.kind == other.kind && self.path == other.path
    }
}

impl PartialEqSpecImpl for ActorId {
    open spec fn obeys_eq_spec() -> bool {
        true
    }

    open spec fn eq_spec(&self, other: &Self) -> bool {
        self@ == other@
    }
}

impl Clone for ActorId {
    fn clone(&self) -> (r: Self)
        ensures
            r@ == self@,
    {
        ActorId { kind: self.kind.clone(), path: self.path.clone() }
    }
}

impl ActorId {
    /// The address of the actor of kind `kind` at `path`.
    pub fn of(kind: &str, path: &str) -> (r: ActorId)
        ensures
            r@ == address(kind@, path@),
    {
        ActorId { kind: String::from_str(kind), path: String::from_str(path) }
    }

    /// The tag of the implementation kind.
    pub fn kind(&self) -> (r: &str)
        ensures
            r@ == self@.0,
    {
        self.kind.as_str()
    }

    /// The hierarchical path.
    pub fn path(&self) -> (r: &str)
        ensures
            r@ == self@.1,
    {
        self.path.as_str()
    }
}

/// The address of the actor of kind `kind` at `path`.
pub open spec fn address(kind: Seq<char>, path: Seq<char>) -> Address {
    (kind, path)
}

/// Addresses are the same exactly if both kind and path agree: actors of
/// different kinds that share a path have different addresses.
pub proof fn lemma_kind_disambiguates(
    kind_a: Seq<char>,
    path_a: Seq<char>,
    kind_b: Seq<char>,
    path_b: Seq<char>,
)
    ensures
        address(kind_a, path_a) == address(kind_b, path_b) <==> (kind_a == kind_b && path_a
            == path_b),
        kind_a != kind_b ==> address(kind_a, path_a) != address(kind_b, path_a),
{
}

/// Whether a record's actor is running.
#[derive(Clone, Copy, Debug, PartialEq, Eq, Structural)]
pub enum ActorStatus {
    Active,
    Stopped,
}

/// What a spawn does about a record that may already hold the identity.
#[derive(Clone, Copy, Debug, PartialEq, Eq, Structural)]
pub enum SpawnExistsOptions {
    /// Write a new record; refuse where an active one exists.
    Create,
    /// Take over the stored record; refuse where none exists.
    Restore,
    /// Forget record and mailbox, then write a new record.
    Reset,
}

/// Options of a spawn.
#[derive(Clone, Copy, Debug)]
pub struct SpawnOptions {
    pub exists: SpawnExistsOptions,
}

impl Default for SpawnOptions {
    fn default() -> (r: Self)
        ensures
            r.exists == SpawnExistsOptions::Create,
    {
        SpawnOptions { exists: SpawnExistsOptions::Create }
    }
}

/// The persisted entry of one actor.
#[derive(Debug)]
pub struct ActorRecord {
    /// Whose entry this is.
    pub id: ActorId,
    /// Serialized snapshot of the actor's persistable fields.
    pub state: Vec<u8>,
    /// Whether the actor is running.
    pub status: ActorStatus,
    /// When the entry was last touched.
    pub last_activity: u64,
}

/// A record as plain values.
pub ghost struct RecordView {
    pub id: Address,
    pub state: Seq<u8>,
    pub status: ActorStatus,
    pub last_activity: u64,
}

impl View for ActorRecord {
    type V = RecordView;

    open spec fn view(&self) -> RecordView {
        RecordView {
            id: self.id@,
            state: self.state@,
            status: self.status,
            last_activity: self.last_activity,
        }
    }
}

/// The handle a spawned instance works through. It is made by a spawn for
/// one identity and offers no way to change it.
#[derive(Debug)]
pub struct ActorContext {
    id: ActorId,
}

impl ActorContext {
    /// The identity this context is bound to.
    pub closed spec fn bound(&self) -> Address {
        self.id@
    }

    /// The identity this context is bound to.
    pub fn id(&self) -> (r: &ActorId)
        ensures
            r@ == self.bound(),
    {
        &self.id
    }
}

/// What a successful spawn hands back.
#[derive(Debug)]
pub struct Spawned {
    /// The context bound to the new instance.
    pub context: ActorContext,
    /// The persistable fields the instance starts from.
    pub snapshot: Vec<u8>,
    /// Whether the identity's mailbox is to be emptied.
    pub purge_mailbox: bool,
}

/// What an address resolves to. Resolving never needs the actor to run.
#[derive(Clone, Copy, Debug, PartialEq, Eq, Structural)]
pub enum Resolution {
    /// An instance is running in this process.
    Running,
    /// A record is kept, and no instance runs.
    Persisted,
    /// Nothing is known of the address.
    Unknown,
}

/// What an address whose record is `slot` resolves to.
pub open spec fn resolution(slot: Option<RecordView>) -> Resolution {
    match slot {
        Some(r) => if r.status == ActorStatus::Active {
            Resolution::Running
        } else {
            Resolution::Persisted
        },
        None => Resolution::Unknown,
    }
}

/// The record a first-time spawn writes.
pub open spec fn fresh(id: Address, state: Seq<u8>, now: u64) -> RecordView {
    RecordView { id, state, status: ActorStatus::Active, last_activity: now }
}

/// The record that a spawn leaves for an identity whose record was `slot`,
/// or the reason it is refused.
pub open spec fn spawn_slot(
    slot: Option<RecordView>,
    id: Address,
    initial: Seq<u8>,
    exists: SpawnExistsOptions,
    now: u64,
) -> Result<RecordView, SystemActorError> {
    match exists {
        SpawnExistsOptions::Create => match slot {
            Some(r) if r.status == ActorStatus::Active => Err(SystemActorError::AlreadyExists),
            _ => Ok(fresh(id, initial, now)),
        },
        SpawnExistsOptions::Restore => match slot {
            Some(r) => Ok(RecordView { status: ActorStatus::Active, last_activity: now, ..r }),
            None => Err(SystemActorError::NotFound),
        },
        SpawnExistsOptions::Reset => Ok(fresh(id, initial, now)),
    }
}

/// The record after its actor's state was saved.
pub open spec fn save_slot(slot: Option<RecordView>, state: Seq<u8>, now: u64) -> Option<
    RecordView,
> {
    match slot {
        Some(r) => Some(RecordView { state, last_activity: now, ..r }),
        None => None,
    }
}

/// The record after its actor was stopped: the snapshot stays.
pub open spec fn stop_slot(slot: Option<RecordView>, now: u64) -> Option<RecordView> {
    match slot {
        Some(r) => Some(RecordView { status: ActorStatus::Stopped, last_activity: now, ..r }),
        None => None,
    }
}

/// A spawn in `Create` mode that follows a successful one on the same
/// identity is refused with `AlreadyExists`, whether or not the actor's
/// state was saved in between.
pub proof fn lemma_second_create_is_refused(
    slot: Option<RecordView>,
    id: Address,
    first: Seq<u8>,
    saved: Seq<u8>,
    second: Seq<u8>,
    t: u64,
)
    requires
        spawn_slot(slot, id, first, SpawnExistsOptions::Create, t) is Ok,
    ensures
        ({
            let created = spawn_slot(slot, id, first, SpawnExistsOptions::Create, t)->Ok_0;
            let refused = Err::<RecordView, SystemActorError>(SystemActorError::AlreadyExists);
            &&& spawn_slot(Some(created), id, second, SpawnExistsOptions::Create, t) == refused
            &&& spawn_slot(
                save_slot(Some(created), saved, t),
                id,
                second,
                SpawnExistsOptions::Create,
                t,
            ) == refused
        }),
{
}

/// Create, then any number of saves of which `last` is the final one, then
/// stop, then Restore: the restored record holds exactly `last`, whatever
/// was saved before it.
pub proof fn lemma_restore_yields_last_snapshot(
    slot: Option<RecordView>,
    id: Address,
    initial: Seq<u8>,
    earlier: Seq<u8>,
    last: Seq<u8>,
    offered: Seq<u8>,
    t: u64,
)
    requires
        spawn_slot(slot, id, initial, SpawnExistsOptions::Create, t) is Ok,
    ensures
        ({
            let created = spawn_slot(slot, id, initial, SpawnExistsOptions::Create, t)->Ok_0;
            let saved = save_slot(save_slot(Some(created), earlier, t), last, t);
            let stopped = stop_slot(saved, t);
            let restored = spawn_slot(stopped, id, offered, SpawnExistsOptions::Restore, t);
            &&& stopped is Some
            &&& stopped->Some_0.status == ActorStatus::Stopped
            &&& stopped->Some_0.state == last
            &&& restored is Ok
            &&& restored->Ok_0.state == last
            &&& restored->Ok_0.id == id
            &&& restored->Ok_0.status == ActorStatus::Active
        }),
{
}

/// Restore on an identity that holds no record is refused with `NotFound`.
pub proof fn lemma_restore_needs_a_record(id: Address, offered: Seq<u8>, now: u64)
    ensures
        spawn_slot(None, id, offered, SpawnExistsOptions::Restore, now) == Err::<
            RecordView,
            SystemActorError,
        >(SystemActorError::NotFound),
{
}

/// A spawn in `Reset` mode leaves, whatever record the identity held, what
/// a first `Create` on a never-used identity leaves.
pub proof fn lemma_reset_is_first_create(
    slot: Option<RecordView>,
    id: Address,
    initial: Seq<u8>,
    now: u64,
)
    ensures
        spawn_slot(slot, id, initial, SpawnExistsOptions::Reset, now) == spawn_slot(
            None,
            id,
            initial,
            SpawnExistsOptions::Create,
            now,
        ),
{
}

/// The record that `s` holds for `id`, if any.
spec fn find(s: Seq<ActorRecord>, id: Address) -> Option<RecordView>
    decreases s.len(),
{
    if s.len() == 0 {
        None
    } else if s.last().id@ == id {
        Some(s.last()@)
    } else {
        find(s.drop_last(), id)
    }
}

/// No identity has two records in `s`.
spec fn unique(s: Seq<ActorRecord>) -> bool {
    forall|i: int, j: int| 0 <= i < j < s.len() ==> (#[trigger] s[i]).id@ != (#[trigger] s[j]).id@
}

proof fn lemma_find_at(s: Seq<ActorRecord>, k: int)
    requires
        unique(s),
        0 <= k < s.len(),
    ensures
        find(s, s[k].id@) == Some(s[k]@),
    decreases s.len(),
{
    if k < s.len() - 1 {
        assert(s[k].id@ != s.last().id@);
        let t = s.drop_last();
        assert(t[k] == s[k]);
        assert(unique(t)) by {
            assert forall|i: int, j: int| 0 <= i < j < t.len() implies (#[trigger] t[i]).id@ != (
            #[trigger] t[j]).id@ by {
                assert(t[i] == s[i] && t[j] == s[j]);
            }
        }
        lemma_find_at(t, k);
    }
}

proof fn lemma_find_absent(s: Seq<ActorRecord>, id: Address)
    requires
        forall|i: int| 0 <= i < s.len() ==> (#[trigger] s[i]).id@ != id,
    ensures
        find(s, id) is None,
    decreases s.len(),
{
    if s.len() > 0 {
        assert(s.last() == s[s.len() - 1]);
        let t = s.drop_last();
        assert forall|i: int| 0 <= i < t.len() implies (#[trigger] t[i]).id@ != id by {
            assert(t[i] == s[i]);
        }
        lemma_find_absent(t, id);
    }
}

proof fn lemma_find_elsewhere(s: Seq<ActorRecord>, k: int, r: ActorRecord, other: Address)
    requires
        0 <= k < s.len(),
        r.id@ == s[k].id@,
        other != r.id@,
    ensures
        find(s.update(k, r), other) == find(s, other),
    decreases s.len(),
{
    let u = s.update(k, r);
    if k == s.len() - 1 {
        assert(u.drop_last() =~= s.drop_last());
    } else {
        assert(u.last() == s.last());
        assert(u.drop_last() =~= s.drop_last().update(k, r));
        lemma_find_elsewhere(s.drop_last(), k, r, other);
    }
}

proof fn lemma_unique_update(s: Seq<ActorRecord>, k: int, r: ActorRecord)
    requires
        unique(s),
        0 <= k < s.len(),
        r.id@ == s[k].id@,
    ensures
        unique(s.update(k, r)),
{
    let u = s.update(k, r);
    assert forall|i: int, j: int| 0 <= i < j < u.len() implies (#[trigger] u[i]).id@ != (
    #[trigger] u[j]).id@ by {
        assert(s[i].id@ != s[j].id@);
    }
}

proof fn lemma_unique_push(s: Seq<ActorRecord>, r: ActorRecord)
    requires
        unique(s),
        forall|i: int| 0 <= i < s.len() ==> (#[trigger] s[i]).id@ != r.id@,
    ensures
        unique(s.push(r)),
{
    let u = s.push(r);
    assert forall|i: int, j: int| 0 <= i < j < u.len() implies (#[trigger] u[i]).id@ != (
    #[trigger] u[j]).id@ by {
        if j < s.len() {
            assert(s[i].id@ != s[j].id@);
        } else {
            assert(u[i] == s[i]);
        }
    }
}

/// A copy of `bytes`.
pub(crate) fn copy_bytes(bytes: &Vec<u8>) -> (r: Vec<u8>)
    ensures
        r@ == bytes@,
{
    let mut r: Vec<u8> = Vec::new();
    let mut i: usize = 0;
    while i < bytes.len()
        invariant
            i <= bytes.len(),
            r@ == bytes@.subrange(0, i as int),
        decreases bytes.len() - i,
    {
        r.push(bytes[i]);
        assert(r@ =~= bytes@.subrange(0, i + 1));
        i += 1;
    }
    assert(bytes@.subrange(0, i as int) =~= bytes@);
    r
}

/// The directory of persisted actors: at most one record per identity.
#[derive(Debug)]
pub struct Directory {
    records: Vec<ActorRecord>,
}

impl Directory {
    /// No identity has two records.
    pub closed spec fn wf(&self) -> bool {
        unique(self.records@)
    }

    /// The record held for `id`, if any.
    pub closed spec fn slot(&self, id: Address) -> Option<RecordView> {
        find(self.records@, id)
    }

    /// A directory without records.
    pub fn new() -> (r: Directory)
        ensures
            r.wf(),
            forall|id: Address| r.slot(id) is None,
    {
        Directory { records: Vec::new() }
    }

    fn position(&self, id: &ActorId) -> (r: Option<usize>)
        requires
            self.wf(),
        ensures
            match r {
                Some(k) => k < self.records@.len() && self.records@[k as int].id@ == id@
                    && self.slot(id@) == Some(self.records@[k as int]@),
                None => self.slot(id@) is None && forall|i: int|
                    0 <= i < self.records@.len() ==> (#[trigger] self.records@[i]).id@ != id@,
            },
    {
        let mut i: usize = 0;
        while i < self.records.len()
            invariant
                self.wf(),
                i <= self.records.len(),
                forall|j: int| 0 <= j < i ==> (#[trigger] self.records@[j]).id@ != id@,
            decreases self.records.len() - i,
        {
            if self.records[i].id == *id {
                proof {
                    lemma_find_at(self.records@, i as int);
                }
                return Some(i);
            }
            i += 1;
        }
        proof {
            lemma_find_absent(self.records@, id@);
        }
        None
    }

    /// The record held for `id`, if any.
    pub fn lookup(&self, id: &ActorId) -> (r: Option<&ActorRecord>)
        requires
            self.wf(),
        ensures
            match r {
                Some(record) => self.slot(id@) == Some(record@),
                None => self.slot(id@) is None,
            },
    {
        match self.position(id) {
            Some(k) => Some(&self.records[k]),
            None => None,
        }
    }

    /// What `id` resolves to.
    pub fn resolve(&self, id: &ActorId) -> (r: Resolution)
        requires
            self.wf(),
        ensures
            r == resolution(self.slot(id@)),
    {
        match self.position(id) {
            Some(k) => {
                if self.records[k].status == ActorStatus::Active {
                    Resolution::Running
                } else {
                    Resolution::Persisted
                }
            },
            None => Resolution::Unknown,
        }
    }

    /// Puts `record` where the directory holds its identity (at `at`), or
    /// adds it where it holds none.
    fn put(&mut self, at: Option<usize>, record: ActorRecord)
        requires
            old(self).wf(),
            match at {
                Some(k) => k < old(self).records@.len() && old(self).records@[k as int].id@
                    == record.id@,
                None => forall|i: int|
                    0 <= i < old(self).records@.len() ==> (#[trigger] old(self).records@[i]).id@
                        != record.id@,
            },
        ensures
            final(self).wf(),
            final(self).slot(record.id@) == Some(record@),
            forall|other: Address|
                other != record.id@ ==> final(self).slot(other) == old(self).slot(other),
    {
        match at {
            Some(k) => {
                proof {
                    lemma_unique_update(self.records@, k as int, record);
                    lemma_find_at(self.records@.update(k as int, record), k as int);
                    assert forall|other: Address| other != record.id@ implies find(
                        self.records@.update(k as int, record),
                        other,
                    ) == find(self.records@, other) by {
                        lemma_find_elsewhere(self.records@, k as int, record, other);
                    }
                }
                self.records.set(k, record);
            },
            None => {
                proof {
                    lemma_unique_push(self.records@, record);
                    assert(self.records@.push(record).drop_last() =~= self.records@);
                }
                self.records.push(record);
            },
        }
    }

    /// Binds an instance to `id`. `initial` holds the persistable fields of
    /// the instance offered. The outcome, and the record left for `id`, are
    /// those of `spawn_slot`; no other identity's record changes.
    pub fn spawn(
        &mut self,
        id: &ActorId,
        initial: Vec<u8>,
        options: &SpawnOptions,
        now: u64,
    ) -> (r: Result<Spawned, SystemActorError>)
        requires
            old(self).wf(),
        ensures
            final(self).wf(),
            match spawn_slot(old(self).slot(id@), id@, initial@, options.exists, now) {
                Ok(record) => {
                    &&& r is Ok
                    &&& r->Ok_0.context.bound() == id@
                    &&& r->Ok_0.snapshot@ == record.state
                    &&& r->Ok_0.purge_mailbox == (options.exists == SpawnExistsOptions::Reset)
                    &&& final(self).slot(id@) == Some(record)
                },
                Err(e) => r is Err && r->Err_0 == e && final(self).slot(id@) == old(self).slot(id@),
            },
            forall|other: Address| other != id@ ==> final(self).slot(other) == old(self).slot(other),
    {
        let at = self.position(id);
        let state = match options.exists {
            SpawnExistsOptions::Create => {
                match at {
                    Some(k) => {
                        if self.records[k].status == ActorStatus::Active {
                            return Err(SystemActorError::AlreadyExists);
                        }
                    },
                    None => {},
                }
                initial
            },
            SpawnExistsOptions::Restore => {
                match at {
                    Some(k) => copy_bytes(&self.records[k].state),
                    None => {
                        return Err(SystemActorError::NotFound);
                    },
                }
            },
            SpawnExistsOptions::Reset => initial,
        };
        let snapshot = copy_bytes(&state);
        let record = ActorRecord {
            id: id.clone(),
            state,
            status: ActorStatus::Active,
            last_activity: now,
        };
        self.put(at, record);
        Ok(
            Spawned {
                context: ActorContext { id: id.clone() },
                snapshot,
                purge_mailbox: options.exists == SpawnExistsOptions::Reset,
            },
        )
    }

    /// Saves the persistable fields of the actor at `id`. `NotFound` where
    /// the directory holds no record for it, and then nothing changes.
    pub fn save(&mut self, id: &ActorId, state: Vec<u8>, now: u64) -> (r: Result<
        (),
        SystemActorError,
    >)
        requires
            old(self).wf(),
        ensures
            final(self).wf(),
            final(self).slot(id@) == save_slot(old(self).slot(id@), state@, now),
            r is Ok <==> old(self).slot(id@) is Some,
            r is Err ==> r->Err_0 == SystemActorError::NotFound,
            forall|other: Address| other != id@ ==> final(self).slot(other) == old(self).slot(other),
    {
        match self.position(id) {
            Some(k) => {
                let record = ActorRecord {
                    id: id.clone(),
                    state,
                    status: self.records[k].status,
                    last_activity: now,
                };
                self.put(Some(k), record);
                Ok(())
            },
            None => Err(SystemActorError::NotFound),
        }
    }

    /// Marks the actor at `id` stopped; its snapshot stays for a later
    /// restore. `NotFound` where the directory holds no record for it, and
    /// then nothing changes.
    pub fn stop(&mut self, id: &ActorId, now: u64) -> (r: Result<(), SystemActorError>)
        requires
            old(self).wf(),
        ensures
            final(self).wf(),
            final(self).slot(id@) == stop_slot(old(self).slot(id@), now),
            r is Ok <==> old(self).slot(id@) is Some,
            r is Err ==> r->Err_0 == SystemActorError::NotFound,
            forall|other: Address| other != id@ ==> final(self).slot(other) == old(self).slot(other),
    {
        match self.position(id) {
            Some(k) => {
                let record = ActorRecord {
                    id: id.clone(),
                    state: copy_bytes(&self.records[k].state),
                    status: ActorStatus::Stopped,
                    last_activity: now,
                };
                self.put(Some(k), record);
                Ok(())
            },
            None => Err(SystemActorError::NotFound),
        }
    }
}

} // verus!
