//! The dispatch loop's side of the command channel: the inbox that hands
//! commands out one at a time in the order of their arrival, and the folding
//! of a remote reply into the player state.

use std::collections::VecDeque;
use vstd::prelude::*;
use crate::model::{Device, Playback, Queue};
use crate::player::PlayerState;
use crate::request::ClientRequest;
use crate::span::TimeSpan;

verus! {

/// A request together with the producer that sent it.
#[derive(Clone, Debug, PartialEq, Eq)]
pub struct Command {
    pub producer: u64,
    pub request: ClientRequest,
}

/// The commands that have arrived and wait for dispatch, and whether one is
/// being executed.
pub struct Inbox {
    pub pending: VecDeque<Command>,
    pub busy: bool,
}

/// The inbox as a value: the waiting commands, oldest first, and whether one
/// is in execution.
pub struct InboxModel {
    pub pending: Seq<Command>,
    pub busy: bool,
}

/// What happens at the inbox: a command arrives, the loop asks for the next
/// one, or the command in execution has run to completion.
pub enum InboxEvent {
    Arrive(Command),
    Take,
    Complete,
}

/// The command that an event hands out for execution: a take hands out the
/// oldest waiting command unless another is in execution; nothing else hands
/// out anything.
pub open spec fn handed_out(m: InboxModel, event: InboxEvent) -> Option<Command> {
    match event {
        InboxEvent::Take => if !m.busy && m.pending.len() > 0 {
            Some(m.pending[0])
        } else {
            None
        },
        _ => None,
    }
}

/// The inbox after an event. An arrival waits behind all that came before.
/// A take that hands out a command removes it and marks the inbox busy; one
/// that hands out none changes nothing. A completion ends the execution.
pub open spec fn step(m: InboxModel, event: InboxEvent) -> InboxModel {
    match event {
        InboxEvent::Arrive(c) => InboxModel { pending: m.pending.push(c), busy: m.busy },
        InboxEvent::Take => if !m.busy && m.pending.len() > 0 {
            InboxModel { pending: m.pending.skip(1), busy: true }
        } else {
            m
        },
        InboxEvent::Complete => InboxModel { pending: m.pending, busy: false },
    }
}

impl View for Inbox {
    type V = InboxModel;

    open spec fn view(&self) -> InboxModel {
        InboxModel { pending: self.pending@, busy: self.busy }
    }
}

impl Inbox {
    /// An empty inbox with nothing in execution.
    pub fn new() -> (r: Inbox)
        ensures
            r@ == empty_inbox(),
    {
        Inbox { pending: VecDeque::new(), busy: false }
    }

    /// A command arrives: it waits behind those that came before it.
    pub fn enqueue(&mut self, command: Command)
        ensures
            final(self)@ == step(old(self)@, InboxEvent::Arrive(command)),
    {
        self.pending.push_back(command);
    }

    /// Hands out the command to execute next: the oldest one that waits. It
    /// hands out none while another is in execution, or when none waits; the
    /// inbox is then unchanged.
    pub fn take_next(&mut self) -> (r: Option<Command>)
        ensures
            r == handed_out(old(self)@, InboxEvent::Take),
            final(self)@ == step(old(self)@, InboxEvent::Take),
    {
        if self.busy {
            None
        } else {
            let r = self.pending.pop_front();
            if r.is_some() {
                self.busy = true;
            }
            assert(final(self)@.pending =~= step(old(self)@, InboxEvent::Take).pending);
            r
        }
    }

    /// The command in execution has run to completion, with or without
    /// success: the next one may start.
    pub fn complete(&mut self)
        ensures
            final(self)@ == step(old(self)@, InboxEvent::Complete),
    {
        self.busy = false;
    }

    /// The number of commands that wait.
    pub fn len(&self) -> (r: usize)
        ensures
            r == self@.pending.len(),
    {
        self.pending.len()
    }
}

/// The inbox at the start: nothing waits, nothing is in execution.
pub open spec fn empty_inbox() -> InboxModel {
    InboxModel { pending: Seq::empty(), busy: false }
}

/// What a remote call handed back.
#[derive(Debug, PartialEq, Eq)]
pub enum Reply {
    /// The call failed: transport, authentication or remote error alike.
    Failed,
    /// The call succeeded and carries no data.
    Done,
    Playback(Option<Playback>),
    Queue(Queue),
    Devices(Vec<Device>),
}

/// The player state after the reply to a request. A failure changes nothing.
/// A fetched snapshot is folded in, a fetched queue replaces the queue, a
/// list of devices replaces the devices (an empty list too), and a playback
/// command that succeeded shows in the buffered playback. Any other pair
/// leaves the state as it was.
pub open spec fn merged(
    state: PlayerState,
    request: ClientRequest,
    reply: Reply,
    now: TimeSpan,
) -> PlayerState {
    match (request, reply) {
        (ClientRequest::GetCurrentPlayback, Reply::Playback(p)) => state.after_fetch(p, now),
        (ClientRequest::GetCurrentUserQueue, Reply::Queue(q)) => PlayerState {
            queue: Some(q),
            ..state
        },
        (ClientRequest::GetDevices, Reply::Devices(d)) => PlayerState { devices: d, ..state },
        (ClientRequest::ConnectDevice(_), Reply::Devices(d)) => PlayerState { devices: d, ..state },
        (ClientRequest::Player(r), Reply::Done) => state.after_local_command(r),
        _ => state,
    }
}

/// Folds the reply to `request` into the player state.
pub fn merge_reply(state: &mut PlayerState, request: &ClientRequest, reply: Reply, now: TimeSpan)
    requires
        old(state).wf(),
        now.wf(),
        reply matches Reply::Playback(Some(p)) ==> p.wf(),
    ensures
        final(state).wf(),
        *final(state) == merged(*old(state), *request, reply, now),
        reply is Failed ==> *final(state) == *old(state),
{
    match reply {
        Reply::Failed => {},
        Reply::Done => match request {
            ClientRequest::Player(r) => state.buffer_local_command(r),
            _ => {},
        },
        Reply::Playback(p) => match request {
            ClientRequest::GetCurrentPlayback => state.apply_playback_fetch(p, now),
            _ => {},
        },
        Reply::Queue(q) => match request {
            ClientRequest::GetCurrentUserQueue => state.apply_queue_fetch(q),
            _ => {},
        },
        Reply::Devices(d) => match request {
            ClientRequest::GetDevices => state.apply_devices_fetch(d),
            ClientRequest::ConnectDevice(_) => state.apply_devices_fetch(d),
            _ => {},
        },
    }
}

/// All the commands that arrive in `events`, in the order of their arrival.
pub open spec fn arrivals(events: Seq<InboxEvent>) -> Seq<Command>
    decreases events.len(),
{
    if events.len() == 0 {
        Seq::empty()
    } else {
        let before = arrivals(events.drop_last());
        match events.last() {
            InboxEvent::Arrive(c) => before.push(c),
            _ => before,
        }
    }
}

/// The inbox after all of `events`, from an empty one.
pub open spec fn inbox_after(events: Seq<InboxEvent>) -> InboxModel
    decreases events.len(),
{
    if events.len() == 0 {
        empty_inbox()
    } else {
        step(inbox_after(events.drop_last()), events.last())
    }
}

/// The commands that were handed out for execution during `events`, in the
/// order in which they were handed out.
pub open spec fn dispatched_after(events: Seq<InboxEvent>) -> Seq<Command>
    decreases events.len(),
{
    if events.len() == 0 {
        Seq::empty()
    } else {
        let before = dispatched_after(events.drop_last());
        match handed_out(inbox_after(events.drop_last()), events.last()) {
            Some(c) => before.push(c),
            None => before,
        }
    }
}

/// The number of completions in `events`.
pub open spec fn completions(events: Seq<InboxEvent>) -> nat
    decreases events.len(),
{
    if events.len() == 0 {
        0
    } else {
        completions(events.drop_last()) + if events.last() is Complete {
            1nat
        } else {
            0nat
        }
    }
}

/// The commands of one producer among `commands`, in their order.
pub open spec fn produced_by(commands: Seq<Command>, producer: u64) -> Seq<Command> {
    commands.filter(|c: Command| c.producer == producer)
}

/// Commands are dispatched in the order of their arrival, none dropped and
/// none merged: whatever the interleaving of arrivals, takes and
/// completions, the commands handed out followed by those that still wait
/// are the arrivals.
pub proof fn lemma_dispatch_in_arrival_order(events: Seq<InboxEvent>)
    ensures
        dispatched_after(events) + inbox_after(events).pending == arrivals(events),
    decreases events.len(),
{
    if events.len() > 0 {
        let prev = events.drop_last();
        lemma_dispatch_in_arrival_order(prev);
        let d = dispatched_after(prev);
        let q = inbox_after(prev).pending;
        match events.last() {
            InboxEvent::Arrive(c) => {
                assert(d + q.push(c) =~= (d + q).push(c));
            },
            InboxEvent::Take => {
                if !inbox_after(prev).busy && q.len() > 0 {
                    assert(d.push(q[0]) + q.skip(1) =~= d + q);
                }
            },
            InboxEvent::Complete => {},
        }
    }
}

/// No producer sees its commands reordered: the commands of one producer are
/// dispatched in the order in which that producer sent them, and those not
/// yet dispatched wait in that order.
pub proof fn lemma_producer_order_kept(events: Seq<InboxEvent>, producer: u64)
    ensures
        produced_by(dispatched_after(events), producer) + produced_by(
            inbox_after(events).pending,
            producer,
        ) == produced_by(arrivals(events), producer),
{
    lemma_dispatch_in_arrival_order(events);
    Seq::filter_distributes_over_add(
        dispatched_after(events),
        inbox_after(events).pending,
        |c: Command| c.producer == producer,
    );
}

/// One command at a time: every command but the one in execution has run to
/// completion before the next was handed out, so at most one more command
/// was handed out than completions were seen.
pub proof fn lemma_one_at_a_time(events: Seq<InboxEvent>)
    ensures
        dispatched_after(events).len() <= completions(events) + 1,
        !inbox_after(events).busy ==> dispatched_after(events).len() <= completions(events),
    decreases events.len(),
{
    if events.len() > 0 {
        lemma_one_at_a_time(events.drop_last());
    }
}

} // verus!
