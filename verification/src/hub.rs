//! The hub of one process: the directory of actors together with the
//! mailbox of every identity. A mailbox needs no running actor, and an
//! identity that was never written to has an empty one.

use vstd::prelude::*;
use crate::actor::{
    resolution, save_slot, spawn_slot, stop_slot, ActorContext, ActorId, ActorRecord, ActorStatus,
    Address, Directory, RecordView, Resolution, SpawnExistsOptions, SpawnOptions, Spawned,
};
use crate::error::SystemActorError;
use crate::mailbox::{accepts, delivered, reply_frame, request_frame, Frame, Mailbox, MailboxView};
use crate::send::{recipient_gone, waiting_on, PendingSend, SendOptions};

verus! {

/// The mailbox of an identity that no frame was ever delivered to.
pub open spec fn empty_box(owner: Address) -> MailboxView {
    MailboxView { owner, pending: Seq::empty(), latest: None }
}

/// The status that `slot` records, if it holds a record.
pub open spec fn status_of(slot: Option<RecordView>) -> Option<ActorStatus> {
    match slot {
        Some(r) => Some(r.status),
        None => None,
    }
}

/// The mailbox that `s` holds for `id`, if any.
spec fn find_box(s: Seq<Mailbox>, id: Address) -> Option<MailboxView>
    decreases s.len(),
{
    if s.len() == 0 {
        None
    } else if s.last()@.owner == id {
        Some(s.last()@)
    } else {
        find_box(s.drop_last(), id)
    }
}

/// Every mailbox in `s` is in order, and no identity has two.
spec fn boxes_wf(s: Seq<Mailbox>) -> bool {
    &&& forall|i: int| 0 <= i < s.len() ==> (#[trigger] s[i]).wf()
    &&& forall|i: int, j: int|
        0 <= i < j < s.len() ==> (#[trigger] s[i])@.owner != (#[trigger] s[j])@.owner
}

proof fn lemma_box_at(s: Seq<Mailbox>, k: int)
    requires
        boxes_wf(s),
        0 <= k < s.len(),
    ensures
        find_box(s, s[k]@.owner) == Some(s[k]@),
    decreases s.len(),
{
    if k < s.len() - 1 {
        assert(s[k]@.owner != s.last()@.owner);
        let t = s.drop_last();
        assert(t[k] == s[k]);
        assert(boxes_wf(t)) by {
            assert forall|i: int| 0 <= i < t.len() implies (#[trigger] t[i]).wf() by {
                assert(t[i] == s[i]);
            }
            assert forall|i: int, j: int| 0 <= i < j < t.len() implies (#[trigger] t[i])@.owner
                != (#[trigger] t[j])@.owner by {
                assert(t[i] == s[i] && t[j] == s[j]);
            }
        }
        lemma_box_at(t, k);
    }
}

proof fn lemma_box_absent(s: Seq<Mailbox>, id: Address)
    requires
        forall|i: int| 0 <= i < s.len() ==> (#[trigger] s[i])@.owner != id,
    ensures
        find_box(s, id) is None,
    decreases s.len(),
{
    if s.len() > 0 {
        assert(s.last() == s[s.len() - 1]);
        let t = s.drop_last();
        assert forall|i: int| 0 <= i < t.len() implies (#[trigger] t[i])@.owner != id by {
            assert(t[i] == s[i]);
        }
        lemma_box_absent(t, id);
    }
}

proof fn lemma_box_elsewhere(s: Seq<Mailbox>, k: int, m: Mailbox, other: Address)
    requires
        0 <= k < s.len(),
        m@.owner == s[k]@.owner,
        other != m@.owner,
    ensures
        find_box(s.update(k, m), other) == find_box(s, other),
    decreases s.len(),
{
    let u = s.update(k, m);
    if k == s.len() - 1 {
        assert(u.drop_last() =~= s.drop_last());
    } else {
        assert(u.last() == s.last());
        assert(u.drop_last() =~= s.drop_last().update(k, m));
        lemma_box_elsewhere(s.drop_last(), k, m, other);
    }
}

proof fn lemma_boxes_update(s: Seq<Mailbox>, k: int, m: Mailbox)
    requires
        boxes_wf(s),
        0 <= k < s.len(),
        m.wf(),
        m@.owner == s[k]@.owner,
    ensures
        boxes_wf(s.update(k, m)),
{
    let u = s.update(k, m);
    assert forall|i: int| 0 <= i < u.len() implies (#[trigger] u[i]).wf() by {
        if i != k {
            assert(u[i] == s[i]);
        }
    }
    assert forall|i: int, j: int| 0 <= i < j < u.len() implies (#[trigger] u[i])@.owner != (
    #[trigger] u[j])@.owner by {
        assert(s[i]@.owner != s[j]@.owner);
    }
}

proof fn lemma_boxes_push(s: Seq<Mailbox>, m: Mailbox)
    requires
        boxes_wf(s),
        m.wf(),
        forall|i: int| 0 <= i < s.len() ==> (#[trigger] s[i])@.owner != m@.owner,
    ensures
        boxes_wf(s.push(m)),
{
    let u = s.push(m);
    assert forall|i: int| 0 <= i < u.len() implies (#[trigger] u[i]).wf() by {
        if i < s.len() {
            assert(u[i] == s[i]);
        }
    }
    assert forall|i: int, j: int| 0 <= i < j < u.len() implies (#[trigger] u[i])@.owner != (
    #[trigger] u[j])@.owner by {
        if j < s.len() {
            assert(s[i]@.owner != s[j]@.owner);
        } else {
            assert(u[i] == s[i]);
        }
    }
}

/// What changes when the mailbox at `k` is replaced by `m`, of the same
/// owner.
proof fn lemma_box_replaced(s: Seq<Mailbox>, k: int, m: Mailbox)
    requires
        boxes_wf(s),
        0 <= k < s.len(),
        m.wf(),
        m@.owner == s[k]@.owner,
    ensures
        s.remove(k).insert(k, m) == s.update(k, m),
        boxes_wf(s.update(k, m)),
        find_box(s.update(k, m), m@.owner) == Some(m@),
        forall|other: Address|
            other != m@.owner ==> find_box(s.update(k, m), other) == find_box(s, other),
{
    assert(s.remove(k).insert(k, m) =~= s.update(k, m));
    lemma_boxes_update(s, k, m);
    lemma_box_at(s.update(k, m), k);
    assert forall|other: Address| other != m@.owner implies find_box(s.update(k, m), other)
        == find_box(s, other) by {
        lemma_box_elsewhere(s, k, m, other);
    }
}

/// The directory of actors and the mailboxes of all identities.
#[derive(Debug)]
pub struct Hub {
    directory: Directory,
    inboxes: Vec<Mailbox>,
}

impl Hub {
    /// The directory and every mailbox are in order, and no identity has
    /// two mailboxes.
    pub closed spec fn wf(&self) -> bool {
        self.directory.wf() && boxes_wf(self.inboxes@)
    }

    /// The record held for `id`, if any.
    pub closed spec fn slot(&self, id: Address) -> Option<RecordView> {
        self.directory.slot(id)
    }

    /// The mailbox of `id`.
    pub closed spec fn inbox(&self, id: Address) -> MailboxView {
        match find_box(self.inboxes@, id) {
            Some(m) => m,
            None => empty_box(id),
        }
    }

    /// A hub without records, where every mailbox is empty.
    pub fn new() -> (r: Hub)
        ensures
            r.wf(),
            forall|id: Address| r.slot(id) is None,
            forall|id: Address| r.inbox(id) == empty_box(id),
    {
        Hub { directory: Directory::new(), inboxes: Vec::new() }
    }

    fn box_position(&self, id: &ActorId) -> (r: Option<usize>)
        requires
            self.wf(),
        ensures
            match r {
                Some(k) => k < self.inboxes@.len() && self.inboxes@[k as int]@.owner == id@
                    && find_box(self.inboxes@, id@) == Some(self.inboxes@[k as int]@),
                None => find_box(self.inboxes@, id@) is None && forall|i: int|
                    0 <= i < self.inboxes@.len() ==> (#[trigger] self.inboxes@[i])@.owner != id@,
            },
    {
        let mut i: usize = 0;
        while i < self.inboxes.len()
            invariant
                self.wf(),
                i <= self.inboxes.len(),
                forall|j: int| 0 <= j < i ==> (#[trigger] self.inboxes@[j])@.owner != id@,
            decreases self.inboxes.len() - i,
        {
            if *self.inboxes[i].owner() == *id {
                proof {
                    lemma_box_at(self.inboxes@, i as int);
                }
                return Some(i);
            }
            i += 1;
        }
        proof {
            lemma_box_absent(self.inboxes@, id@);
        }
        None
    }

    /// The record held for `id`, if any.
    pub fn lookup(&self, id: &ActorId) -> (r: Option<&ActorRecord>)
        requires
            self.wf(),
        ensures
            match r {
                Some(record) => self.slot(id@) == Some(record@),
                None => self.slot(id@) is None,
            },
    {
        self.directory.lookup(id)
    }

    /// What `id` resolves to.
    pub fn resolve(&self, id: &ActorId) -> (r: Resolution)
        requires
            self.wf(),
        ensures
            r == resolution(self.slot(id@)),
    {
        self.directory.resolve(id)
    }

    /// The number of frames that wait for `id`.
    pub fn pending(&self, id: &ActorId) -> (r: usize)
        requires
            self.wf(),
        ensures
            r == self.inbox(id@).pending.len(),
    {
        match self.box_position(id) {
            Some(k) => self.inboxes[k].len(),
            None => 0,
        }
    }

    /// Binds an instance to `id`, as the directory does; a spawn in `Reset`
    /// mode also empties the identity's mailbox. Nothing else changes.
    pub fn spawn(
        &mut self,
        id: &ActorId,
        initial: Vec<u8>,
        options: &SpawnOptions,
        now: u64,
    ) -> (r: Result<Spawned, SystemActorError>)
        requires
            old(self).wf(),
        ensures
            final(self).wf(),
            match spawn_slot(old(self).slot(id@), id@, initial@, options.exists, now) {
                Ok(record) => {
                    &&& r is Ok
                    &&& r->Ok_0.context.bound() == id@
                    &&& r->Ok_0.snapshot@ == record.state
                    &&& r->Ok_0.purge_mailbox == (options.exists == SpawnExistsOptions::Reset)
                    &&& final(self).slot(id@) == Some(record)
                },
                Err(e) => r is Err && r->Err_0 == e && final(self).slot(id@) == old(self).slot(id@),
            },
            final(self).inbox(id@) == if r is Ok && options.exists == SpawnExistsOptions::Reset {
                empty_box(id@)
            } else {
                old(self).inbox(id@)
            },
            forall|other: Address|
                other != id@ ==> {
                    &&& final(self).slot(other) == old(self).slot(other)
                    &&& final(self).inbox(other) == old(self).inbox(other)
                },
    {
        let r = self.directory.spawn(id, initial, options, now);
        let purge = match &r {
            Ok(spawned) => spawned.purge_mailbox,
            Err(_) => false,
        };
        if purge {
            match self.box_position(id) {
                Some(k) => {
                    let ghost before = self.inboxes@;
                    let mut m = self.inboxes.remove(k);
                    m.purge();
                    proof {
                        lemma_box_replaced(before, k as int, m);
                    }
                    self.inboxes.insert(k, m);
                },
                None => {},
            }
        }
        r
    }

    /// Saves the persistable fields of the actor at `id`. `NotFound` where
    /// no record is held for it, and then nothing changes.
    pub fn save(&mut self, id: &ActorId, state: Vec<u8>, now: u64) -> (r: Result<
        (),
        SystemActorError,
    >)
        requires
            old(self).wf(),
        ensures
            final(self).wf(),
            final(self).slot(id@) == save_slot(old(self).slot(id@), state@, now),
            r is Ok <==> old(self).slot(id@) is Some,
            r is Err ==> r->Err_0 == SystemActorError::NotFound,
            forall|other: Address| other != id@ ==> final(self).slot(other) == old(self).slot(other),
            forall|any: Address| final(self).inbox(any) == old(self).inbox(any),
    {
        self.directory.save(id, state, now)
    }

    /// Marks the actor at `id` stopped; its snapshot and its mailbox stay.
    /// `NotFound` where no record is held for it, and then nothing changes.
    pub fn stop(&mut self, id: &ActorId, now: u64) -> (r: Result<(), SystemActorError>)
        requires
            old(self).wf(),
        ensures
            final(self).wf(),
            final(self).slot(id@) == stop_slot(old(self).slot(id@), now),
            r is Ok <==> old(self).slot(id@) is Some,
            r is Err ==> r->Err_0 == SystemActorError::NotFound,
            forall|other: Address| other != id@ ==> final(self).slot(other) == old(self).slot(other),
            forall|any: Address| final(self).inbox(any) == old(self).inbox(any),
    {
        self.directory.stop(id, now)
    }

    /// Delivers `frame` to the mailbox of its recipient, whether or not an
    /// actor runs there. No other mailbox and no record changes.
    pub fn post(&mut self, frame: Frame) -> (taken: bool)
        requires
            old(self).wf(),
        ensures
            final(self).wf(),
            taken == accepts(old(self).inbox(frame@.recipient), frame@),
            final(self).inbox(frame@.recipient) == delivered(
                old(self).inbox(frame@.recipient),
                frame@,
            ),
            forall|other: Address|
                other != frame@.recipient ==> final(self).inbox(other) == old(self).inbox(other),
            forall|any: Address| final(self).slot(any) == old(self).slot(any),
    {
        let ghost before = self.inboxes@;
        match self.box_position(&frame.recipient) {
            Some(k) => {
                let mut m = self.inboxes.remove(k);
                let taken = m.deliver(frame);
                proof {
                    lemma_box_replaced(before, k as int, m);
                }
                self.inboxes.insert(k, m);
                taken
            },
            None => {
                let mut m = Mailbox::new(frame.recipient.clone());
                let taken = m.deliver(frame);
                proof {
                    lemma_boxes_push(before, m);
                    assert(before.push(m).drop_last() =~= before);
                }
                self.inboxes.push(m);
                taken
            },
        }
    }

    /// Sends a message of kind `tag` from the actor of `context` to
    /// `target` and starts the wait for a reply of kind `expect`. The frame
    /// is delivered to the target's mailbox unless the recipient is gone.
    pub fn send(
        &mut self,
        context: &ActorContext,
        target: &ActorId,
        id: u64,
        tag: &str,
        expect: &str,
        payload: Vec<u8>,
        options: &SendOptions,
        now: u64,
    ) -> (r: Result<PendingSend, SystemActorError>)
        requires
            old(self).wf(),
        ensures
            final(self).wf(),
            r is Err <==> recipient_gone(status_of(old(self).slot(target@)), *options),
            r is Err ==> r->Err_0 == SystemActorError::RecipientGone,
            r is Ok ==> r->Ok_0@ == waiting_on(
                request_frame(context.bound(), target@, id, tag@, payload@, now),
                expect@,
                *options,
            ),
            final(self).inbox(target@) == if r is Ok {
                delivered(
                    old(self).inbox(target@),
                    request_frame(context.bound(), target@, id, tag@, payload@, now),
                )
            } else {
                old(self).inbox(target@)
            },
            forall|other: Address|
                other != target@ ==> final(self).inbox(other) == old(self).inbox(other),
            forall|any: Address| final(self).slot(any) == old(self).slot(any),
    {
        let status = match self.directory.lookup(target) {
            Some(record) => Some(record.status),
            None => None,
        };
        match context.send(target, status, id, tag, expect, payload, options, now) {
            Ok((frame, wait)) => {
                self.post(frame);
                Ok(wait)
            },
            Err(e) => Err(e),
        }
    }

    /// Answers `request` on behalf of the actor of `context`: the reply is
    /// delivered to the mailbox of the request's sender.
    pub fn reply(
        &mut self,
        context: &ActorContext,
        request: &Frame,
        id: u64,
        tag: &str,
        payload: Vec<u8>,
        now: u64,
    ) -> (taken: bool)
        requires
            old(self).wf(),
        ensures
            final(self).wf(),
            taken == accepts(
                old(self).inbox(request@.sender),
                reply_frame(context.bound(), request@, id, tag@, payload@, now),
            ),
            final(self).inbox(request@.sender) == delivered(
                old(self).inbox(request@.sender),
                reply_frame(context.bound(), request@, id, tag@, payload@, now),
            ),
            forall|other: Address|
                other != request@.sender ==> final(self).inbox(other) == old(self).inbox(other),
            forall|any: Address| final(self).slot(any) == old(self).slot(any),
    {
        self.post(context.reply(request, id, tag, payload, now))
    }

    /// Receives the oldest frame that waits for the actor of `context`, or
    /// `None` where none waits.
    pub fn recv(&mut self, context: &ActorContext) -> (r: Option<Frame>)
        requires
            old(self).wf(),
        ensures
            final(self).wf(),
            match r {
                Some(frame) => {
                    &&& old(self).inbox(context.bound()).pending.len() > 0
                    &&& frame@ == old(self).inbox(context.bound()).pending.first()
                    &&& final(self).inbox(context.bound()) == (MailboxView {
                        pending: old(self).inbox(context.bound()).pending.drop_first(),
                        ..old(self).inbox(context.bound())
                    })
                },
                None => {
                    &&& old(self).inbox(context.bound()).pending.len() == 0
                    &&& final(self).inbox(context.bound()) == old(self).inbox(context.bound())
                },
            },
            forall|other: Address|
                other != context.bound() ==> final(self).inbox(other) == old(self).inbox(other),
            forall|any: Address| final(self).slot(any) == old(self).slot(any),
    {
        match self.box_position(context.id()) {
            Some(k) => {
                let ghost before = self.inboxes@;
                let mut m = self.inboxes.remove(k);
                let r = m.recv();
                proof {
                    lemma_box_replaced(before, k as int, m);
                }
                self.inboxes.insert(k, m);
                r
            },
            None => None,
        }
    }
}

} // verus!
