//! The service driver: the one place from which the service is run.
//!
//! The driver asks the signal channel for the next notification and runs one
//! processing pass of the service for each that it takes out. It suspends
//! only when nothing is pending.

use vstd::prelude::*;
use crate::signal::{ChannelState, SignalChannel};

verus! {

/// What the driver does next.
#[derive(Clone, Copy, Debug, PartialEq, Eq, Structural)]
pub enum DriverAction {
    /// Nothing is pending: wait until a producer notifies.
    Suspend,
    /// A notification was taken out: run one processing pass, then step
    /// again.
    Process,
}

/// Something that happens on the channel.
pub enum Event {
    /// A client handle notifies.
    Signal,
    /// The driver steps.
    Step,
}

/// The channel after one event.
pub open spec fn after(state: ChannelState, event: Event) -> ChannelState {
    match event {
        Event::Signal => state.notified(),
        Event::Step => state.waited(),
    }
}

/// The channel after a schedule of events, first to last.
pub open spec fn run(state: ChannelState, events: Seq<Event>) -> ChannelState
    decreases events.len(),
{
    if events.len() == 0 {
        state
    } else {
        run(after(state, events.first()), events.drop_first())
    }
}

/// How many notifications a schedule sends.
pub open spec fn signals(events: Seq<Event>) -> nat
    decreases events.len(),
{
    if events.len() == 0 {
        0
    } else {
        let sent: nat = if events.first() is Signal { 1 } else { 0 };
        sent + signals(events.drop_first())
    }
}

/// How many processing passes the driver runs in a schedule: one for each
/// step that finds a notification pending.
pub open spec fn passes(state: ChannelState, events: Seq<Event>) -> nat
    decreases events.len(),
{
    if events.len() == 0 {
        0
    } else {
        let pass: nat = if events.first() is Step && state.pending() > 0 { 1 } else { 0 };
        pass + passes(after(state, events.first()), events.drop_first())
    }
}

/// A schedule of `count` driver steps and nothing else.
pub open spec fn steps(count: nat) -> Seq<Event> {
    Seq::new(count, |i: int| Event::Step)
}

/// One step of the driver loop: takes the next notification out of the
/// channel and asks for one processing pass, or finds none and suspends.
pub fn driver_step(channel: &mut SignalChannel) -> (action: DriverAction)
    ensures
        action == if old(channel)@.pending() > 0 {
            DriverAction::Process
        } else {
            DriverAction::Suspend
        },
        final(channel)@ == after(old(channel)@, Event::Step),
{
    if channel.wait_for_next() {
        DriverAction::Process
    } else {
        DriverAction::Suspend
    }
}

/// A schedule in two parts runs as its parts do, one after the other.
pub proof fn lemma_run_split(state: ChannelState, first: Seq<Event>, second: Seq<Event>)
    ensures
        run(state, first + second) == run(run(state, first), second),
        signals(first + second) == signals(first) + signals(second),
        passes(state, first + second) == passes(state, first) + passes(run(state, first), second),
    decreases first.len(),
{
    if first.len() == 0 {
        assert(first + second =~= second);
    } else {
        let whole = first + second;
        assert(whole.first() == first.first());
        assert(whole.drop_first() =~= first.drop_first() + second);
        lemma_run_split(after(state, first.first()), first.drop_first(), second);
    }
}

/// No notification is lost and none is counted twice. Whatever the schedule,
/// the channel has been sent what it had plus the schedule's signals, the
/// driver has run one pass for each notification taken out, and what is
/// neither taken out nor pending does not exist. Neither count ever falls.
pub proof fn lemma_run_accounts(state: ChannelState, events: Seq<Event>)
    requires
        state.drained <= state.sent,
    ensures
        run(state, events).sent == state.sent + signals(events),
        run(state, events).drained == state.drained + passes(state, events),
        run(state, events).drained + run(state, events).pending() == run(state, events).sent,
        run(state, events).sent >= state.sent,
        run(state, events).drained >= state.drained,
    decreases events.len(),
{
    if events.len() > 0 {
        lemma_run_accounts(after(state, events.first()), events.drop_first());
    }
}

/// A pending notification is observed: as many steps as notifications are
/// pending take all of them out, each step running one pass, and only the
/// step after them suspends.
pub proof fn lemma_drain(state: ChannelState)
    requires
        state.drained <= state.sent,
    ensures
        run(state, steps(state.pending())).pending() == 0,
        run(state, steps(state.pending())).sent == state.sent,
        passes(state, steps(state.pending())) == state.pending(),
        after(run(state, steps(state.pending())), Event::Step) == run(
            state,
            steps(state.pending()),
        ),
    decreases state.pending(),
{
    let count = state.pending();
    if count > 0 {
        let all = steps(count);
        assert(all.first() == Event::Step);
        assert(all.drop_first() =~= steps((count - 1) as nat));
        lemma_drain(after(state, Event::Step));
    }
}

/// Every signal gets its processing pass. Start with an empty channel and
/// take any schedule that sends `n` notifications. Once the driver has
/// stepped until it suspends, it has run exactly `n` passes: at least one
/// if anything was sent at all.
pub proof fn lemma_every_signal_is_processed(events: Seq<Event>)
    ensures
        ({
            let pending = run(ChannelState::empty(), events).pending();
            let whole = events + steps(pending);
            &&& passes(ChannelState::empty(), whole) == signals(events)
            &&& run(ChannelState::empty(), whole).pending() == 0
            &&& signals(events) >= 1 ==> passes(ChannelState::empty(), whole) >= 1
        }),
{
    let start = ChannelState::empty();
    let reached = run(start, events);
    lemma_run_accounts(start, events);
    lemma_drain(reached);
    lemma_run_split(start, events, steps(reached.pending()));
}

} // verus!
