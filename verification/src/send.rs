//! The sender's side of a request: whether it may go out, and how the wait
//! for its reply ends.

use vstd::prelude::*;
use crate::actor::{copy_bytes, ActorContext, ActorId, ActorStatus, Address};
use crate::error::SystemActorError;
use crate::mailbox::{answers, reply_frame, request_frame, Frame, FrameView};

verus! {

/// How a send is delivered and awaited.
#[derive(Clone, Copy, Debug)]
pub struct SendOptions {
    /// Longest wait for the reply; `None` waits as long as it takes.
    pub timeout: Option<u64>,
    /// Whether the recipient must not be stopped.
    pub require_active: bool,
}

impl Default for SendOptions {
    fn default() -> (r: Self)
        ensures
            r.timeout is None,
            !r.require_active,
    {
        SendOptions { timeout: None, require_active: false }
    }
}

/// Whether a send to a recipient in `status` (`None`: it has no record) is
/// refused: only a stopped recipient is, and only where an active one is
/// asked for.
pub open spec fn recipient_gone(status: Option<ActorStatus>, options: SendOptions) -> bool {
    options.require_active && status == Some(ActorStatus::Stopped)
}

/// Decides whether a send may be queued. A recipient that is not running,
/// or has no record yet, is no obstacle unless the options ask for an
/// active one.
pub fn check_recipient(status: Option<ActorStatus>, options: &SendOptions) -> (r: Result<
    (),
    SystemActorError,
>)
    ensures
        r is Err <==> recipient_gone(status, *options),
        r is Err ==> r->Err_0 == SystemActorError::RecipientGone,
{
    match status {
        Some(ActorStatus::Stopped) => {
            if options.require_active {
                Err(SystemActorError::RecipientGone)
            } else {
                Ok(())
            }
        },
        _ => Ok(()),
    }
}

/// A wait as plain values.
pub ghost struct PendingView {
    /// Who waits.
    pub sender: Address,
    /// The correlation the reply must carry.
    pub correlation: u64,
    /// When the request was enqueued.
    pub started_at: u64,
    /// The kind of message the reply must hold.
    pub expect: Seq<char>,
    /// Longest wait, counted from `started_at`.
    pub timeout: Option<u64>,
    /// Whether the wait has ended.
    pub settled: bool,
}

/// The wait that starts when `request` is sent.
pub open spec fn waiting_on(request: FrameView, expect: Seq<char>, options: SendOptions)
    -> PendingView {
    PendingView {
        sender: request.sender,
        correlation: request.correlation,
        started_at: request.enqueued_at,
        expect,
        timeout: options.timeout,
        settled: false,
    }
}

/// Whether `frame` ends the wait `p`: the wait is still on, and the frame
/// carries its correlation back to the one who waits.
pub open spec fn resolves(p: PendingView, frame: FrameView) -> bool {
    !p.settled && frame.correlation == p.correlation && frame.recipient == p.sender
}

/// Whether the wait `p` has run out at `now`.
pub open spec fn expired(p: PendingView, now: u64) -> bool {
    !p.settled && p.timeout is Some && now >= p.started_at && now - p.started_at
        >= p.timeout->Some_0
}

/// The wait of a sender for the reply to one request.
#[derive(Debug)]
pub struct PendingSend {
    sender: ActorId,
    correlation: u64,
    started_at: u64,
    expect: String,
    timeout: Option<u64>,
    settled: bool,
}

impl View for PendingSend {
    type V = PendingView;

    closed spec fn view(&self) -> PendingView {
        PendingView {
            sender: self.sender@,
            correlation: self.correlation,
            started_at: self.started_at,
            expect: self.expect@,
            timeout: self.timeout,
            settled: self.settled,
        }
    }
}

impl PendingSend {
    /// Starts the wait for a reply of kind `expect` to `request`.
    pub fn open(request: &Frame, expect: &str, options: &SendOptions) -> (r: PendingSend)
        ensures
            r@ == waiting_on(request@, expect@, *options),
    {
        PendingSend {
            sender: request.sender.clone(),
            correlation: request.correlation,
            started_at: request.enqueued_at,
            expect: String::from_str(expect),
            timeout: options.timeout,
            settled: false,
        }
    }

    /// Whether the wait has ended.
    pub fn is_settled(&self) -> (r: bool)
        ensures
            r == self@.settled,
    {
        self.settled
    }

    /// Looks at a frame from the sender's mailbox. A frame that does not
    /// answer the request, or comes after the wait has ended, is passed
    /// over. The first that answers ends the wait: with its payload where
    /// it holds the expected kind, with `SerializationFailure` otherwise.
    pub fn on_frame(&mut self, frame: &Frame) -> (r: Option<Result<Vec<u8>, SystemActorError>>)
        ensures
            r is Some <==> resolves(old(self)@, frame@),
            r is Some ==> final(self)@ == (PendingView { settled: true, ..old(self)@ }),
            r is None ==> final(self)@ == old(self)@,
            r is Some ==> (r->Some_0 is Ok <==> frame@.tag == old(self)@.expect),
            r is Some && r->Some_0 is Ok ==> r->Some_0->Ok_0@ == frame@.payload,
            r is Some && r->Some_0 is Err ==> r->Some_0->Err_0
                == SystemActorError::SerializationFailure,
    {
        if self.settled || frame.correlation != self.correlation || !(frame.recipient
            == self.sender) {
            return None;
        }
        self.settled = true;
        if frame.tag == self.expect {
            Some(Ok(copy_bytes(&frame.payload)))
        } else {
            Some(Err(SystemActorError::SerializationFailure))
        }
    }

    /// Looks at the clock. The wait ends with `Timeout` once the bound has
    /// passed since the request was enqueued; until then, and after the
    /// wait has ended, nothing happens.
    pub fn on_clock(&mut self, now: u64) -> (r: Result<(), SystemActorError>)
        ensures
            r is Err <==> expired(old(self)@, now),
            r is Err ==> r->Err_0 == SystemActorError::Timeout && final(self)@ == (PendingView {
                settled: true,
                ..old(self)@
            }),
            r is Ok ==> final(self)@ == old(self)@,
    {
        if self.settled {
            return Ok(());
        }
        match self.timeout {
            Some(bound) => {
                if now >= self.started_at && now - self.started_at >= bound {
                    self.settled = true;
                    Err(SystemActorError::Timeout)
                } else {
                    Ok(())
                }
            },
            None => Ok(()),
        }
    }
}

impl ActorContext {
    /// Sends a message of kind `tag` to `target`, whose record says
    /// `status`, and expects a reply of kind `expect`. Where the recipient
    /// is not gone, hands back the frame to enqueue in the target's mailbox
    /// and the wait for its reply.
    pub fn send(
        &self,
        target: &ActorId,
        status: Option<ActorStatus>,
        id: u64,
        tag: &str,
        expect: &str,
        payload: Vec<u8>,
        options: &SendOptions,
        now: u64,
    ) -> (r: Result<(Frame, PendingSend), SystemActorError>)
        ensures
            r is Err <==> recipient_gone(status, *options),
            r is Err ==> r->Err_0 == SystemActorError::RecipientGone,
            r is Ok ==> {
                &&& r->Ok_0.0@ == request_frame(self.bound(), target@, id, tag@, payload@, now)
                &&& r->Ok_0.1@ == waiting_on(r->Ok_0.0@, expect@, *options)
            },
    {
        match check_recipient(status, options) {
            Ok(_) => {
                let frame = self.request(target, id, tag, payload, now);
                let wait = PendingSend::open(&frame, expect, options);
                Ok((frame, wait))
            },
            Err(e) => Err(e),
        }
    }
}

/// A wait ends at most once: once a frame or the clock has ended it, no
/// frame resolves it and it does not expire.
pub proof fn lemma_settles_once(p: PendingView, frame: FrameView, now: u64)
    requires
        p.settled,
    ensures
        !resolves(p, frame),
        !expired(p, now),
{
}

/// A reply made for a request resolves the wait on that request, whoever
/// replies and whatever it holds; and a frame resolves the wait only if it
/// answers the request.
pub proof fn lemma_reply_resolves(
    request: FrameView,
    expect: Seq<char>,
    options: SendOptions,
    replier: Address,
    id: u64,
    tag: Seq<char>,
    payload: Seq<u8>,
    now: u64,
)
    ensures
        resolves(
            waiting_on(request, expect, options),
            reply_frame(replier, request, id, tag, payload, now),
        ),
        forall|frame: FrameView|
            resolves(waiting_on(request, expect, options), frame) <==> answers(frame, request),
{
}

/// An actor without state that passes messages on. A driver that sends
/// through a relay's context stays out of the exchange: the recipient sees
/// the relay as the sender.
#[derive(Clone, Copy, Debug)]
pub struct Relay;

impl Relay {
    /// The frame that takes a driver's message to `target`, sent by the
    /// relay that `context` is bound to.
    pub fn forward(
        &self,
        context: &ActorContext,
        target: &ActorId,
        id: u64,
        tag: &str,
        payload: Vec<u8>,
        now: u64,
    ) -> (r: Frame)
        ensures
            r@ == request_frame(context.bound(), target@, id, tag@, payload@, now),
            r@.sender == context.bound(),
    {
        context.request(target, id, tag, payload, now)
    }
}

} // verus!
