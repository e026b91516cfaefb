//! Polling the channels that feed the console, without ever waiting.

use vstd::prelude::*;
use crossbeam_channel::Receiver;

verus! {

/// The receiving end of a channel. Nothing of what it holds is visible here:
/// other threads fill it while this one reads.
#[verifier::external_type_specification]
#[verifier::external_body]
#[verifier::reject_recursive_types(T)]
pub struct ExReceiver<T>(Receiver<T>);

/// What one poll of a channel gave.
pub enum Polled<T> {
    /// A message was waiting.
    Message(T),
    /// Nothing is waiting now; more may come.
    Empty,
    /// Nothing is waiting and every sender is gone.
    Disconnected,
}

/// Calls `Receiver::try_recv`, which returns at once. Nothing is claimed of
/// which of the three outcomes comes back: that depends on the senders.
#[verifier::external_body]
pub(crate) fn poll<T>(receiver: &Receiver<T>) -> (r: Polled<T>) {
    match receiver.try_recv() {
        Ok(message) => Polled::Message(message),
        Err(crossbeam_channel::TryRecvError::Empty) => Polled::Empty,
        Err(crossbeam_channel::TryRecvError::Disconnected) => Polled::Disconnected,
    }
}

/// The buffer after one poll: a message is appended, anything else leaves
/// the buffer as it was.
pub open spec fn buffer_after<T>(buffer: Seq<T>, polled: Polled<T>) -> Seq<T> {
    match polled {
        Polled::Message(message) => buffer.push(message),
        _ => buffer,
    }
}

/// Whether draining goes on after this outcome: only after a message.
pub open spec fn keeps_draining<T>(polled: Polled<T>) -> bool {
    polled is Message
}

/// The buffer after a run of polls, which ends at the first outcome that is
/// no message.
pub open spec fn drained<T>(buffer: Seq<T>, outcomes: Seq<Polled<T>>) -> Seq<T>
    decreases outcomes.len(),
{
    if outcomes.len() == 0 {
        buffer
    } else if keeps_draining(outcomes[0]) {
        drained(buffer_after(buffer, outcomes[0]), outcomes.drop_first())
    } else {
        buffer
    }
}

/// The outcomes of polling a channel in which `messages` wait: each of them
/// in turn, then `last`.
pub open spec fn outcomes_of<T>(messages: Seq<T>, last: Polled<T>) -> Seq<Polled<T>> {
    Seq::new(
        messages.len() + 1,
        |i: int|
            if i < messages.len() {
                Polled::Message(messages[i])
            } else {
                last
            },
    )
}

/// Draining a channel in which nothing waits leaves the buffer as it is;
/// draining one in which messages wait appends every one of them, in the
/// order of arrival, whether the channel is then empty or disconnected.
pub proof fn lemma_draining_takes_every_message<T>(
    buffer: Seq<T>,
    messages: Seq<T>,
    last: Polled<T>,
)
    requires
        !(last is Message),
    ensures
        drained(buffer, outcomes_of(Seq::empty(), last)) == buffer,
        drained(buffer, outcomes_of(messages, last)) == buffer + messages,
    decreases messages.len(),
{
    let outcomes = outcomes_of(messages, last);
    if messages.len() == 0 {
        assert(buffer + messages =~= buffer);
    } else {
        let rest = messages.drop_first();
        assert(outcomes.drop_first() =~= outcomes_of(rest, last));
        lemma_draining_takes_every_message(buffer.push(messages[0]), rest, last);
        assert(buffer.push(messages[0]) + rest =~= buffer + messages);
    }
    assert(outcomes_of(Seq::<T>::empty(), last)[0] == last);
}

/// Takes one outcome of a poll into the buffer, and says whether to poll again.
pub fn accept<T>(buffer: &mut Vec<T>, polled: Polled<T>) -> (more: bool)
    ensures
        final(buffer)@ == buffer_after(old(buffer)@, polled),
        more == keeps_draining(polled),
{
    match polled {
        Polled::Message(message) => {
            buffer.push(message);
            true
        },
        Polled::Empty => false,
        Polled::Disconnected => false,
    }
}

/// One more outcome after a run of messages is taken as [`buffer_after`]
/// says.
proof fn lemma_drained_push<T>(buffer: Seq<T>, outcomes: Seq<Polled<T>>, next: Polled<T>)
    requires
        forall|i: int| 0 <= i < outcomes.len() ==> outcomes[i] is Message,
    ensures
        drained(buffer, outcomes.push(next)) == buffer_after(drained(buffer, outcomes), next),
    decreases outcomes.len(),
{
    let longer = outcomes.push(next);
    if outcomes.len() == 0 {
        assert(longer[0] == next);
        assert(longer.drop_first() =~= Seq::<Polled<T>>::empty());
        assert(drained(buffer_after(buffer, next), longer.drop_first()) == buffer_after(
            buffer,
            next,
        ));
    } else {
        let rest = outcomes.drop_first();
        assert(longer[0] == outcomes[0]);
        assert(longer.drop_first() =~= rest.push(next));
        assert forall|i: int| 0 <= i < rest.len() implies rest[i] is Message by {
            assert(rest[i] == outcomes[i + 1]);
        }
        lemma_drained_push(buffer_after(buffer, outcomes[0]), rest, next);
    }
}

/// Polls the channel until it is empty or disconnected and appends every
/// message, in the order of arrival. Returns how many were appended.
///
/// The buffer ends as [`drained`] says of the outcomes that the polls gave:
/// what was in it stays in front, untouched. The one other way out is a
/// buffer that has reached the largest length a `Vec` can have.
pub fn drain<T>(receiver: &Receiver<T>, buffer: &mut Vec<T>) -> (taken: usize)
    ensures
        final(buffer)@.len() == old(buffer)@.len() + taken,
        final(buffer)@.subrange(0, old(buffer)@.len() as int) == old(buffer)@,
        exists|outcomes: Seq<Polled<T>>| final(buffer)@ == drained(old(buffer)@, outcomes),
{
    let mut taken: usize = 0;
    let ghost before = buffer@;
    let ghost mut outcomes: Seq<Polled<T>> = Seq::empty();
    while buffer.len() < usize::MAX
        invariant_except_break
            forall|i: int| 0 <= i < outcomes.len() ==> outcomes[i] is Message,
        invariant
            buffer@.len() == before.len() + taken,
            buffer@.subrange(0, before.len() as int) == before,
            buffer@ == drained(before, outcomes),
        decreases usize::MAX - buffer.len(),
    {
        let ghost previous = buffer@;
        let polled = poll(receiver);
        proof {
            lemma_drained_push(before, outcomes, polled);
            outcomes = outcomes.push(polled);
        }
        let more = accept(buffer, polled);
        if !more {
            break;
        }
        taken = taken + 1;
        assert(buffer@.subrange(0, before.len() as int) =~= previous.subrange(
            0,
            before.len() as int,
        ));
    }
    taken
}

} // verus!
