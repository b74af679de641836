//! Frames, the per-recipient mailbox and the request/reply protocol.

use vstd::prelude::*;
use crate::actor::{ActorContext, ActorId, Address};

verus! {

/// The envelope of one message between two actors.
#[derive(Debug)]
pub struct Frame {
    /// Identifies the frame; a consumer dedupes by it.
    pub id: u64,
    /// Who wrote the frame.
    pub sender: ActorId,
    /// Whose mailbox the frame belongs to.
    pub recipient: ActorId,
    /// Names the kind of message the payload holds.
    pub tag: String,
    /// The serialized message.
    pub payload: Vec<u8>,
    /// Links a reply to the request it answers.
    pub correlation: u64,
    /// When the frame entered the mailbox.
    pub enqueued_at: u64,
}

/// A frame as plain values.
pub ghost struct FrameView {
    pub id: u64,
    pub sender: Address,
    pub recipient: Address,
    pub tag: Seq<char>,
    pub payload: Seq<u8>,
    pub correlation: u64,
    pub enqueued_at: u64,
}

impl View for Frame {
    type V = FrameView;

    open spec fn view(&self) -> FrameView {
        FrameView {
            id: self.id,
            sender: self.sender@,
            recipient: self.recipient@,
            tag: self.tag@,
            payload: self.payload@,
            correlation: self.correlation,
            enqueued_at: self.enqueued_at,
        }
    }
}

/// The request frame that `sender` writes to `recipient`: it opens a
/// correlation of its own, named by its id.
pub open spec fn request_frame(
    sender: Address,
    recipient: Address,
    id: u64,
    tag: Seq<char>,
    payload: Seq<u8>,
    now: u64,
) -> FrameView {
    FrameView { id, sender, recipient, tag, payload, correlation: id, enqueued_at: now }
}

/// The frame with which `replier` answers `request`: addressed back to the
/// request's sender, under the request's correlation.
pub open spec fn reply_frame(
    replier: Address,
    request: FrameView,
    id: u64,
    tag: Seq<char>,
    payload: Seq<u8>,
    now: u64,
) -> FrameView {
    FrameView {
        id,
        sender: replier,
        recipient: request.sender,
        tag,
        payload,
        correlation: request.correlation,
        enqueued_at: now,
    }
}

/// Whether `reply` answers `request`: same correlation, addressed to the
/// request's sender.
pub open spec fn answers(reply: FrameView, request: FrameView) -> bool {
    reply.correlation == request.correlation && reply.recipient == request.sender
}

impl Frame {
    /// The payload, where the frame holds a message of kind `tag`; a frame
    /// of any other kind gives `None` and is to be skipped.
    pub fn is(&self, tag: &str) -> (r: Option<&Vec<u8>>)
        ensures
            r is Some <==> self@.tag == tag@,
            r is Some ==> r->Some_0@ == self@.payload,
    {
        if self.tag == String::from_str(tag) {
            Some(&self.payload)
        } else {
            None
        }
    }

    /// Finds the handler of this frame in a table of the kinds an actor
    /// handles: the position of the first entry equal to the frame's tag.
    /// A frame of a kind that is not in the table gives `None` and is to be
    /// skipped, without any answer to its sender.
    pub fn dispatch(&self, handled: &Vec<String>) -> (r: Option<usize>)
        ensures
            match r {
                Some(k) => {
                    &&& k < handled@.len()
                    &&& handled@[k as int]@ == self@.tag
                    &&& forall|j: int| 0 <= j < k ==> (#[trigger] handled@[j])@ != self@.tag
                },
                None => forall|j: int|
                    0 <= j < handled@.len() ==> (#[trigger] handled@[j])@ != self@.tag,
            },
    {
        let mut i: usize = 0;
        while i < handled.len()
            invariant
                i <= handled.len(),
                forall|j: int| 0 <= j < i ==> (#[trigger] handled@[j])@ != self@.tag,
            decreases handled.len() - i,
        {
            if handled[i] == self.tag {
                return Some(i);
            }
            i += 1;
        }
        None
    }

    /// Whether this frame answers `request`.
    pub fn answers(&self, request: &Frame) -> (r: bool)
        ensures
            r == answers(self@, request@),
    {
        self.correlation == request.correlation && self.recipient == request.sender
    }
}

impl ActorContext {
    /// The frame that carries a message of kind `tag` from this context's
    /// actor to `target`.
    pub fn request(&self, target: &ActorId, id: u64, tag: &str, payload: Vec<u8>, now: u64) -> (r:
        Frame)
        ensures
            r@ == request_frame(self.bound(), target@, id, tag@, payload@, now),
    {
        Frame {
            id,
            sender: self.id().clone(),
            recipient: target.clone(),
            tag: String::from_str(tag),
            payload,
            correlation: id,
            enqueued_at: now,
        }
    }

    /// The frame with which this context's actor answers `request`.
    pub fn reply(&self, request: &Frame, id: u64, tag: &str, payload: Vec<u8>, now: u64) -> (r:
        Frame)
        ensures
            r@ == reply_frame(self.bound(), request@, id, tag@, payload@, now),
            answers(r@, request@),
    {
        Frame {
            id,
            sender: self.id().clone(),
            recipient: request.sender.clone(),
            tag: String::from_str(tag),
            payload,
            correlation: request.correlation,
            enqueued_at: now,
        }
    }
}

/// A mailbox as plain values.
pub ghost struct MailboxView {
    /// Whose mailbox it is.
    pub owner: Address,
    /// The frames not yet received, oldest first.
    pub pending: Seq<FrameView>,
    /// Enqueue time of the newest frame ever taken in.
    pub latest: Option<u64>,
}

/// Every pending frame is the owner's, the frames stand in strictly
/// increasing enqueue time, and none is newer than `latest`.
pub open spec fn mailbox_wf(m: MailboxView) -> bool {
    &&& forall|i: int| 0 <= i < m.pending.len() ==> (#[trigger] m.pending[i]).recipient == m.owner
    &&& forall|i: int, j: int|
        0 <= i < j < m.pending.len() ==> (#[trigger] m.pending[i]).enqueued_at < (
        #[trigger] m.pending[j]).enqueued_at
    &&& m.pending.len() > 0 ==> m.latest is Some
    &&& forall|i: int|
        0 <= i < m.pending.len() ==> (#[trigger] m.pending[i]).enqueued_at <= m.latest->Some_0
}

/// Whether the mailbox takes `f` in: it must be the owner's and newer than
/// every frame taken in before, so that a frame delivered again is dropped.
pub open spec fn accepts(m: MailboxView, f: FrameView) -> bool {
    f.recipient == m.owner && (m.latest is None || m.latest->Some_0 < f.enqueued_at)
}

/// The mailbox after `f` was delivered to it.
pub open spec fn delivered(m: MailboxView, f: FrameView) -> MailboxView {
    if accepts(m, f) {
        MailboxView { owner: m.owner, pending: m.pending.push(f), latest: Some(f.enqueued_at) }
    } else {
        m
    }
}

/// The mailbox after the frames of `traffic` were delivered to it in turn.
pub open spec fn delivered_all(m: MailboxView, traffic: Seq<FrameView>) -> MailboxView
    decreases traffic.len(),
{
    if traffic.len() == 0 {
        m
    } else {
        delivered_all(delivered(m, traffic.first()), traffic.drop_first())
    }
}

/// The frame that the receive after `k` earlier ones returns.
pub open spec fn nth_received(pending: Seq<FrameView>, k: nat) -> FrameView
    recommends
        k < pending.len(),
    decreases k,
{
    if k == 0 {
        pending.first()
    } else {
        nth_received(pending.drop_first(), (k - 1) as nat)
    }
}

/// The mailbox of one recipient.
#[derive(Debug)]
pub struct Mailbox {
    owner: ActorId,
    frames: Vec<Frame>,
    latest: Option<u64>,
}

impl View for Mailbox {
    type V = MailboxView;

    closed spec fn view(&self) -> MailboxView {
        MailboxView {
            owner: self.owner@,
            pending: self.frames@.map_values(|f: Frame| f@),
            latest: self.latest,
        }
    }
}

impl Mailbox {
    /// The mailbox keeps its frames in order.
    pub open spec fn wf(&self) -> bool {
        mailbox_wf(self@)
    }

    /// An empty mailbox for `owner`.
    pub fn new(owner: ActorId) -> (r: Mailbox)
        ensures
            r.wf(),
            r@ == (MailboxView { owner: owner@, pending: Seq::empty(), latest: None }),
    {
        let r = Mailbox { owner, frames: Vec::new(), latest: None };
        assert(r@.pending =~= Seq::empty());
        r
    }

    /// Whose mailbox this is.
    pub fn owner(&self) -> (r: &ActorId)
        ensures
            r@ == self@.owner,
    {
        &self.owner
    }

    /// The number of frames not yet received.
    pub fn len(&self) -> (r: usize)
        ensures
            r == self@.pending.len(),
    {
        self.frames.len()
    }

    /// Delivers `frame`. It is taken in, behind all pending frames, where
    /// the mailbox accepts it, and dropped otherwise.
    pub fn deliver(&mut self, frame: Frame) -> (taken: bool)
        requires
            old(self).wf(),
        ensures
            final(self).wf(),
            taken == accepts(old(self)@, frame@),
            final(self)@ == delivered(old(self)@, frame@),
    {
        let newer = match self.latest {
            Some(t) => t < frame.enqueued_at,
            None => true,
        };
        if newer && frame.recipient == self.owner {
            proof {
                assert(self.frames@.push(frame).map_values(|f: Frame| f@) =~= self@.pending.push(
                    frame@,
                ));
            }
            self.latest = Some(frame.enqueued_at);
            self.frames.push(frame);
            true
        } else {
            false
        }
    }

    /// Receives the oldest pending frame, or `None` where nothing is
    /// pending.
    pub fn recv(&mut self) -> (r: Option<Frame>)
        requires
            old(self).wf(),
        ensures
            final(self).wf(),
            final(self)@.owner == old(self)@.owner,
            final(self)@.latest == old(self)@.latest,
            match r {
                Some(frame) => old(self)@.pending.len() > 0 && frame@ == old(self)@.pending.first()
                    && final(self)@.pending == old(self)@.pending.drop_first(),
                None => old(self)@.pending.len() == 0 && final(self)@.pending == old(self)@.pending,
            },
    {
        if self.frames.len() == 0 {
            None
        } else {
            let ghost before = self@;
            let frame = self.frames.remove(0);
            proof {
                let after = self@;
                assert(after.pending =~= before.pending.drop_first());
                assert forall|i: int| 0 <= i < after.pending.len() implies (
                #[trigger] after.pending[i]).recipient == after.owner
                    && after.pending[i].enqueued_at <= after.latest->Some_0 by {
                    assert(after.pending[i] == before.pending[i + 1]);
                }
                assert forall|i: int, j: int| 0 <= i < j < after.pending.len() implies (
                #[trigger] after.pending[i]).enqueued_at < (
                #[trigger] after.pending[j]).enqueued_at by {
                    assert(after.pending[i] == before.pending[i + 1]);
                    assert(after.pending[j] == before.pending[j + 1]);
                }
            }
            Some(frame)
        }
    }

    /// Forgets every frame, pending or seen: the mailbox is as new.
    pub fn purge(&mut self)
        ensures
            final(self).wf(),
            final(self)@ == (MailboxView {
                owner: old(self)@.owner,
                pending: Seq::empty(),
                latest: None,
            }),
    {
        self.frames.clear();
        self.latest = None;
        assert(self@.pending =~= Seq::empty());
    }
}

/// Delivering further frames never moves or removes a pending frame.
pub proof fn lemma_traffic_keeps_pending(m: MailboxView, traffic: Seq<FrameView>)
    ensures
        delivered_all(m, traffic).owner == m.owner,
        m.pending.len() <= delivered_all(m, traffic).pending.len(),
        forall|i: int|
            0 <= i < m.pending.len() ==> delivered_all(m, traffic).pending[i] == m.pending[i],
    decreases traffic.len(),
{
    if traffic.len() > 0 {
        let next = delivered(m, traffic.first());
        lemma_traffic_keeps_pending(next, traffic.drop_first());
        assert forall|i: int| 0 <= i < m.pending.len() implies delivered_all(
            m,
            traffic,
        ).pending[i] == m.pending[i] by {
            assert(next.pending[i] == m.pending[i]);
        }
    }
}

/// The receive after `k` earlier ones returns the frame at position `k`.
pub proof fn lemma_received_in_position(pending: Seq<FrameView>, k: nat)
    requires
        k < pending.len(),
    ensures
        nth_received(pending, k) == pending[k as int],
    decreases k,
{
    if k > 0 {
        lemma_received_in_position(pending.drop_first(), (k - 1) as nat);
    }
}

/// Per-recipient order: where a mailbox takes in `a` and later, after any
/// other traffic, takes in `b`, the receiver gets `a` strictly before `b`.
pub proof fn lemma_fifo(m: MailboxView, a: FrameView, traffic: Seq<FrameView>, b: FrameView)
    requires
        accepts(m, a),
        accepts(delivered_all(delivered(m, a), traffic), b),
    ensures
        ({
            let before = delivered_all(delivered(m, a), traffic);
            let after = delivered(before, b);
            let i = m.pending.len();
            let j = before.pending.len();
            &&& i < j < after.pending.len()
            &&& nth_received(after.pending, i) == a
            &&& nth_received(after.pending, j) == b
        }),
{
    let first = delivered(m, a);
    let before = delivered_all(first, traffic);
    let after = delivered(before, b);
    lemma_traffic_keeps_pending(first, traffic);
    assert(first.pending[m.pending.len() as int] == a);
    lemma_received_in_position(after.pending, m.pending.len());
    lemma_received_in_position(after.pending, before.pending.len());
}

/// Delivery keeps a mailbox in order.
pub proof fn lemma_delivery_keeps_order(m: MailboxView, f: FrameView)
    requires
        mailbox_wf(m),
    ensures
        mailbox_wf(delivered(m, f)),
{
}

} // verus!
