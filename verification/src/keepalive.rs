//! Keepalive handling of one transport, once per tick of the poll loop.
//!
//! The transport reports whether the reception of a message has begun, and
//! its keepalive frames are emitted through a callback; the timeout tracker
//! decides when.

use vstd::prelude::*;
use crate::timeout::{Timeout, Tick, due, span, step};

verus! {

/// Nanoseconds in a millisecond.
pub const NANOS_PER_MILLI: u64 = 1_000_000;

/// The period of the poll loops, in milliseconds: short against keepalive
/// intervals, which are tens of milliseconds and more.
pub const POLL_PERIOD_MILLIS: u64 = 5;

/// What a transport answers when asked whether a keepalive is needed.
#[derive(Clone, Copy, Debug)]
pub enum Status {
    /// Nothing is in progress.
    Idle,
    /// A message is being processed: check back after this many
    /// milliseconds.
    ReceivedData(u32),
}

/// The follow-up interval a status asks for, in nanoseconds.
pub open spec fn status_interval(status: Status) -> Option<nat> {
    match status {
        Status::ReceivedData(millis) => Some((millis * NANOS_PER_MILLI) as nat),
        Status::Idle => None,
    }
}

/// The follow-up interval a status asks for, in nanoseconds.
pub fn map_status(status: Status) -> (interval: Option<u64>)
    ensures
        span(interval) == status_interval(status),
{
    match status {
        Status::ReceivedData(millis) => Some(millis as u64 * NANOS_PER_MILLI),
        Status::Idle => None,
    }
}

/// Whether a caller is waiting for the user to confirm their presence. The
/// keepalive frames of a transport may say so to the host.
pub struct UserPresence {
    waiting: bool,
}

impl View for UserPresence {
    type V = bool;

    closed spec fn view(&self) -> bool {
        self.waiting
    }
}

impl UserPresence {
    /// Nobody is waiting.
    pub fn new() -> (presence: Self)
        ensures
            !presence@,
    {
        UserPresence { waiting: false }
    }

    /// Whether a caller is waiting.
    pub fn is_waiting(&self) -> (waiting: bool)
        ensures
            waiting == self@,
    {
        self.waiting
    }
}

/// Records whether a caller is waiting for user presence.
pub fn set_waiting(presence: &mut UserPresence, waiting: bool)
    ensures
        final(presence)@ == waiting,
{
    presence.waiting = waiting;
}

/// One tick of a transport's keepalive handling. `started` is the
/// transport's answer to whether a reception has begun; `emit` sends a
/// keepalive frame, is told whether a caller waits for user presence, and
/// returns the transport's answer to whether another frame is needed.
///
/// `emit` is invoked only when the tracker's deadline has come.
pub fn keepalive<E: FnOnce(bool) -> Status>(
    timeout: &mut Timeout,
    now: u64,
    started: Status,
    presence: &UserPresence,
    emit: E,
)
    requires
        due(old(timeout)@, now as nat) ==> emit.requires((presence@,)),
    ensures
        !due(old(timeout)@, now as nat) ==> final(timeout)@ == step(
            old(timeout)@,
            (Tick { now: now as nat, reception: status_interval(started), reply: None }),
        ),
        due(old(timeout)@, now as nat) ==> exists|answer: Status|
            emit.ensures((presence@,), answer) && final(timeout)@ == #[trigger] step(
                old(timeout)@,
                (Tick {
                    now: now as nat,
                    reception: status_interval(started),
                    reply: status_interval(answer),
                }),
            ),
{
    let waiting = presence.is_waiting();
    let interval = map_status(started);
    let relay = move || -> (reply: Option<u64>)
        requires
            emit.requires((waiting,)),
        ensures
            exists|answer: Status|
                emit.ensures((waiting,), answer) && span(reply) == #[trigger] status_interval(answer),
        {
            let answer = emit(waiting);
            map_status(answer)
        };
    timeout.update(now, interval, relay);
}

} // verus!
