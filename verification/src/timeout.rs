//! The keepalive timeout tracker.
//!
//! A transport that is busy with a long operation must send a keepalive frame
//! from time to time, or the host gives up on the connection. The tracker
//! holds the deadline of the next such frame. Times are nanoseconds since a
//! fixed epoch.

use vstd::prelude::*;

verus! {

/// What a tracker holds: no deadline, or the time by which the next
/// keepalive frame has to go out.
pub enum TimeoutState {
    Idle,
    Armed(nat),
}

/// One evaluation of a tracker, with what the transport and the emit
/// callback would answer.
pub struct Tick {
    /// The time of the evaluation.
    pub now: nat,
    /// The follow-up interval the transport asks for, if the reception of a
    /// message has begun since the last evaluation.
    pub reception: Option<nat>,
    /// The follow-up interval the emit callback returns if it is invoked.
    pub reply: Option<nat>,
}

/// An interval as a natural number.
pub open spec fn span(interval: Option<u64>) -> Option<nat> {
    match interval {
        Some(d) => Some(d as nat),
        None => None,
    }
}

/// The state after arming at `now` for `interval`: idle where there is none.
pub open spec fn armed_by(now: nat, interval: Option<nat>) -> TimeoutState {
    match interval {
        Some(d) => TimeoutState::Armed(now + d),
        None => TimeoutState::Idle,
    }
}

/// Whether a keepalive frame is to be emitted at `now`.
pub open spec fn due(state: TimeoutState, now: nat) -> bool {
    match state {
        TimeoutState::Armed(deadline) => now >= deadline,
        TimeoutState::Idle => false,
    }
}

/// The state after one evaluation. An idle tracker is armed by a reception;
/// an armed one ignores receptions, and on its deadline takes the interval
/// the emit callback returned.
pub open spec fn step(state: TimeoutState, tick: Tick) -> TimeoutState {
    match state {
        TimeoutState::Idle => armed_by(tick.now, tick.reception),
        TimeoutState::Armed(deadline) => if tick.now >= deadline {
            armed_by(tick.now, tick.reply)
        } else {
            state
        },
    }
}

/// The state after a sequence of evaluations, first to last.
pub open spec fn run(state: TimeoutState, ticks: Seq<Tick>) -> TimeoutState
    decreases ticks.len(),
{
    if ticks.len() == 0 {
        state
    } else {
        run(step(state, ticks.first()), ticks.drop_first())
    }
}

/// How many keepalive frames a sequence of evaluations emits.
pub open spec fn emissions(state: TimeoutState, ticks: Seq<Tick>) -> nat
    decreases ticks.len(),
{
    if ticks.len() == 0 {
        0
    } else {
        let fired: nat = if due(state, ticks.first().now) { 1 } else { 0 };
        fired + emissions(step(state, ticks.first()), ticks.drop_first())
    }
}

/// Whether an evaluation leaves the tracker alone: an idle tracker sees no
/// reception, or an armed one has not reached its deadline.
pub open spec fn is_noop(state: TimeoutState, tick: Tick) -> bool {
    match state {
        TimeoutState::Idle => tick.reception is None,
        TimeoutState::Armed(deadline) => tick.now < deadline,
    }
}

/// Evaluations that each leave the tracker alone do so together: however
/// often they are repeated, the state stays what it was and no keepalive
/// frame is emitted.
pub proof fn lemma_noop_ticks_change_nothing(state: TimeoutState, ticks: Seq<Tick>)
    requires
        forall|i: int| 0 <= i < ticks.len() ==> is_noop(state, #[trigger] ticks[i]),
    ensures
        run(state, ticks) == state,
        emissions(state, ticks) == 0,
    decreases ticks.len(),
{
    if ticks.len() > 0 {
        assert(is_noop(state, ticks[0]));
        let rest = ticks.drop_first();
        assert forall|i: int| 0 <= i < rest.len() implies is_noop(state, #[trigger] rest[i]) by {
            assert(rest[i] == ticks[i + 1]);
        }
        lemma_noop_ticks_change_nothing(state, rest);
    }
}

/// An idle tracker that sees no reception stays idle, whatever the times of
/// its evaluations and however many there are, and never has the emit
/// callback invoked.
pub proof fn lemma_idle_ticks_are_noops(ticks: Seq<Tick>)
    requires
        forall|i: int| 0 <= i < ticks.len() ==> (#[trigger] ticks[i]).reception is None,
    ensures
        run(TimeoutState::Idle, ticks) == TimeoutState::Idle,
        emissions(TimeoutState::Idle, ticks) == 0,
{
    lemma_noop_ticks_change_nothing(TimeoutState::Idle, ticks);
}

/// A deadline fires once. The evaluation that reaches it emits one frame and
/// replaces it: the tracker is due again only if the callback asked for a
/// further frame, and then not before the interval it returned has passed.
pub proof fn lemma_deadline_fires_once(deadline: nat, tick: Tick, later: nat)
    requires
        tick.now >= deadline,
    ensures
        emissions(TimeoutState::Armed(deadline), seq![tick]) == 1,
        step(TimeoutState::Armed(deadline), tick) == armed_by(tick.now, tick.reply),
        due(step(TimeoutState::Armed(deadline), tick), later) <==> (tick.reply matches Some(d)
            && later >= tick.now + d),
{
    let state = TimeoutState::Armed(deadline);
    let ticks = seq![tick];
    assert(ticks.first() == tick);
    assert(ticks.drop_first().len() == 0);
    assert(emissions(step(state, tick), ticks.drop_first()) == 0);
}

/// Time that passes between two evaluations is not lost: the interval the
/// callback returns is counted from the evaluation that invoked it.
pub proof fn lemma_rearm_counts_from_now(deadline: nat, now: nat, interval: nat)
    requires
        now >= deadline,
    ensures
        step(
            TimeoutState::Armed(deadline),
            (Tick { now, reception: None, reply: Some(interval) }),
        ) == TimeoutState::Armed(now + interval),
{
}

/// A deadline is met within one polling period. If the tracker is evaluated
/// before its deadline and again no more than `period` later, and the
/// deadline lies between the two, the second evaluation emits the frame,
/// less than `period` after it was due.
pub proof fn lemma_deadline_is_met_within_a_period(
    deadline: nat,
    earlier: Tick,
    later: Tick,
    period: nat,
)
    requires
        earlier.now < deadline <= later.now,
        later.now <= earlier.now + period,
    ensures
        step(TimeoutState::Armed(deadline), earlier) == TimeoutState::Armed(deadline),
        due(TimeoutState::Armed(deadline), later.now),
        later.now < deadline + period,
{
}

/// The tracker of one transport's keepalive deadline.
pub struct Timeout {
    deadline: Option<u128>,
}

impl View for Timeout {
    type V = TimeoutState;

    closed spec fn view(&self) -> TimeoutState {
        match self.deadline {
            Some(deadline) => TimeoutState::Armed(deadline as nat),
            None => TimeoutState::Idle,
        }
    }
}

impl Timeout {
    /// An idle tracker.
    pub fn new() -> (timeout: Self)
        ensures
            timeout@ == TimeoutState::Idle,
    {
        Timeout { deadline: None }
    }

    /// The armed deadline, if there is one.
    pub fn deadline(&self) -> (deadline: Option<u128>)
        ensures
            self@ == match deadline {
                Some(at) => TimeoutState::Armed(at as nat),
                None => TimeoutState::Idle,
            },
    {
        self.deadline
    }

    /// Whether a keepalive frame is to be emitted at `now`.
    pub fn is_due(&self, now: u64) -> (fire: bool)
        ensures
            fire == due(self@, now as nat),
    {
        match self.deadline {
            Some(deadline) => now as u128 >= deadline,
            None => false,
        }
    }

    /// Evaluates the tracker at `now`. `keepalive` is the interval the
    /// transport asks for if a reception has begun; `f` emits a keepalive
    /// frame and returns the interval to the next one, if another is needed.
    ///
    /// `f` is invoked only on a deadline: on any other evaluation its
    /// precondition need not hold.
    pub fn update<F: FnOnce() -> Option<u64>>(&mut self, now: u64, keepalive: Option<u64>, f: F)
        requires
            due(old(self)@, now as nat) ==> f.requires(()),
        ensures
            !due(old(self)@, now as nat) ==> final(self)@ == step(
                old(self)@,
                (Tick { now: now as nat, reception: span(keepalive), reply: None }),
            ),
            due(old(self)@, now as nat) ==> exists|reply: Option<u64>|
                f.ensures((), reply) && final(self)@ == #[trigger] step(
                    old(self)@,
                    (Tick { now: now as nat, reception: span(keepalive), reply: span(reply) }),
                ),
    {
        if self.is_due(now) {
            let reply = f();
            self.deadline = Self::arm(now, reply);
            assert(self@ == step(
                old(self)@,
                (Tick { now: now as nat, reception: span(keepalive), reply: span(reply) }),
            ));
        } else if self.deadline.is_none() {
            self.deadline = Self::arm(now, keepalive);
        }
    }

    fn arm(now: u64, interval: Option<u64>) -> (deadline: Option<u128>)
        ensures
            (Timeout { deadline })@ == armed_by(now as nat, span(interval)),
    {
        match interval {
            Some(d) => Some(now as u128 + d as u128),
            None => None,
        }
    }
}

impl Default for Timeout {
    fn default() -> (timeout: Self)
        ensures
            timeout@ == TimeoutState::Idle,
    {
        Timeout::new()
    }
}

} // verus!
