//! The session-to-loop command channel's semantics: a typed output command,
//! and a bounded first-in-first-out queue with the "drop the newest command
//! when full" delivery policy. The polling loop drains at most one command
//! per cycle from the front, so the queue order is the application order.

use vstd::prelude::*;

use crate::wire::{decode_command_pin, spec_decode_command};

verus! {

/// A command a client sends back to the polling loop. Closed set of
/// variants; extension is by adding a case.
#[derive(Clone, Copy, Debug, PartialEq, Eq, Structural)]
pub enum OutputCommand {
    /// Request to flip the level of the managed output pin with this id.
    LedToggle(i32),
}

/// Bound of the command channel, as the process creates it at startup.
pub const COMMAND_QUEUE_CAPACITY: usize = 32;

/// What submitting one command leaves pending: appended at the back when
/// there is room, dropped entirely when the queue is full.
pub open spec fn submit_spec(
    pending: Seq<OutputCommand>,
    cap: int,
    c: OutputCommand,
) -> Seq<OutputCommand> {
    if pending.len() < cap {
        pending.push(c)
    } else {
        pending
    }
}

/// The pending output commands, oldest first, with a fixed capacity.
pub struct CommandQueue {
    items: Vec<OutputCommand>,
    capacity: usize,
}

impl CommandQueue {
    /// The commands waiting to be applied, in submission order.
    pub closed spec fn pending(self) -> Seq<OutputCommand> {
        self.items@
    }

    pub closed spec fn cap(self) -> int {
        self.capacity as int
    }

    /// The queue never holds more than its capacity.
    pub closed spec fn wf(self) -> bool {
        self.items@.len() <= self.capacity
    }

    /// An empty queue with the given bound.
    pub fn new(capacity: usize) -> (q: CommandQueue)
        ensures
            q.pending() == Seq::<OutputCommand>::empty(),
            q.cap() == capacity,
            q.wf(),
    {
        let q = CommandQueue { items: Vec::new(), capacity };
        proof {
            assert(q.pending() =~= Seq::<OutputCommand>::empty());
        }
        q
    }

    /// Submit one command, best effort: it joins the back of the queue when
    /// there is room and is dropped when the queue is full. Returns whether
    /// the command was accepted; a full queue never blocks the submitter.
    pub fn submit(&mut self, c: OutputCommand) -> (accepted: bool)
        requires
            old(self).wf(),
        ensures
            final(self).wf(),
            final(self).cap() == old(self).cap(),
            final(self).pending() == submit_spec(old(self).pending(), old(self).cap(), c),
            accepted == (old(self).pending().len() < old(self).cap()),
    {
        if self.items.len() < self.capacity {
            self.items.push(c);
            true
        } else {
            false
        }
    }

    /// Drain the oldest pending command, if any, without blocking.
    pub fn take_next(&mut self) -> (r: Option<OutputCommand>)
        requires
            old(self).wf(),
        ensures
            final(self).wf(),
            final(self).cap() == old(self).cap(),
            old(self).pending().len() == 0 ==> r is None
                && final(self).pending() == old(self).pending(),
            old(self).pending().len() > 0 ==> r == Some(old(self).pending()[0])
                && final(self).pending() == old(self).pending().drop_first(),
    {
        if self.items.len() == 0 {
            None
        } else {
            let c = self.items.remove(0);
            proof {
                assert(self.items@ =~= old(self).pending().drop_first());
            }
            Some(c)
        }
    }
}

/// What one inbound client message leaves pending: a message the wire
/// grammar accepts submits its toggle command, best effort; any other
/// message is dropped and the queue stands unchanged.
pub open spec fn intake_spec(
    pending: Seq<OutputCommand>,
    cap: int,
    msg: Seq<u8>,
) -> Seq<OutputCommand> {
    match spec_decode_command(msg) {
        Some(pin) => submit_spec(pending, cap, OutputCommand::LedToggle(pin)),
        None => pending,
    }
}

/// The command intake's handling of one inbound message: decode it and
/// forward the typed command into the queue. A decode failure only drops
/// this message — the caller's receive loop goes on waiting, and ends only
/// when the channel reports no further messages. Returns whether a command
/// was delivered into the queue.
pub fn handle_client_message(queue: &mut CommandQueue, msg: &[u8]) -> (delivered: bool)
    requires
        old(queue).wf(),
    ensures
        final(queue).wf(),
        final(queue).cap() == old(queue).cap(),
        final(queue).pending() == intake_spec(old(queue).pending(), old(queue).cap(), msg@),
        delivered == (spec_decode_command(msg@) is Some
            && old(queue).pending().len() < old(queue).cap()),
{
    match decode_command_pin(msg) {
        Some(pin) => queue.submit(OutputCommand::LedToggle(pin)),
        None => false,
    }
}

/// A malformed message between two well-formed ones is dropped in
/// isolation: it neither ends the intake nor disturbs the queue, so both
/// well-formed commands still arrive, adjacent and in their order.
pub proof fn lemma_decode_failure_isolated(
    pending: Seq<OutputCommand>,
    cap: int,
    m1: Seq<u8>,
    m2: Seq<u8>,
    m3: Seq<u8>,
    first_pin: i32,
    third_pin: i32,
)
    requires
        spec_decode_command(m1) == Some(first_pin),
        spec_decode_command(m2) is None,
        spec_decode_command(m3) == Some(third_pin),
        pending.len() + 2 <= cap,
    ensures
        intake_spec(intake_spec(intake_spec(pending, cap, m1), cap, m2), cap, m3) == pending.push(
            OutputCommand::LedToggle(first_pin),
        ).push(OutputCommand::LedToggle(third_pin)),
{
    assert(intake_spec(intake_spec(intake_spec(pending, cap, m1), cap, m2), cap, m3)
        =~= pending.push(OutputCommand::LedToggle(first_pin)).push(OutputCommand::LedToggle(third_pin)));
}

/// Commands of one submitter keep their submission order: submitting `c1`
/// and then `c2` into a queue with room leaves them adjacent, `c1` first,
/// and `take_next` drains from the front, so `c1` is applied before `c2`.
pub proof fn lemma_submission_order(
    pending: Seq<OutputCommand>,
    cap: int,
    c1: OutputCommand,
    c2: OutputCommand,
)
    requires
        pending.len() + 2 <= cap,
    ensures
        submit_spec(submit_spec(pending, cap, c1), cap, c2) == pending.push(c1).push(c2),
        submit_spec(submit_spec(pending, cap, c1), cap, c2)[pending.len() as int] == c1,
        submit_spec(submit_spec(pending, cap, c1), cap, c2)[pending.len() as int + 1] == c2,
{
    assert(submit_spec(submit_spec(pending, cap, c1), cap, c2) =~= pending.push(c1).push(c2));
}

} // verus!
