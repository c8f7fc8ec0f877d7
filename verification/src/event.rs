use vstd::prelude::*;

use std::time::Duration;

verus! {

/// The duration of the given number of nanoseconds, as `Duration::from_nanos` builds it.
pub uninterp spec fn duration_of_nanos(nanos: u64) -> Duration;

/// Calls `std::time::Duration::from_nanos`. The contract claims only that the result is
/// determined by the number of nanoseconds; what that duration holds is not stated here,
/// as `Duration` is opaque to the verifier.
#[verifier::external_body]
fn duration_from_nanos(nanos: u64) -> (d: Duration)
    ensures
        d == duration_of_nanos(nanos),
{
    Duration::from_nanos(nanos)
}

/// An error related to an event or a waitlist.
#[derive(Debug, PartialEq, Eq, Clone)]
pub enum EventError {
    /// The event was already consumed; the message names the event.
    EventAlreadyConsumed(String),
}

/// The profiling times of an event, in nanoseconds, each one present only when OpenCL
/// reported it.
pub struct Profiling {
    pub queue_time: Option<u64>,
    pub submit_time: Option<u64>,
    pub start_time: Option<u64>,
    pub end_time: Option<u64>,
}

/// The duration from `from` to `to` when both times are known.
pub open spec fn elapsed(from: Option<u64>, to: Option<u64>) -> Option<Duration> {
    match (from, to) {
        (Some(f), Some(t)) => Some(duration_of_nanos((t - f) as u64)),
        _ => None,
    }
}

/// Whether `to` is not earlier than `from` whenever both times are known.
pub open spec fn ordered(from: Option<u64>, to: Option<u64>) -> bool {
    match (from, to) {
        (Some(f), Some(t)) => f <= t,
        _ => true,
    }
}

/// The duration from `from` to `to`, or `None` when one of the times is unknown.
fn elapsed_between(from: Option<u64>, to: Option<u64>) -> (d: Option<Duration>)
    requires
        ordered(from, to),
    ensures
        d == elapsed(from, to),
{
    match (from, to) {
        (Some(f), Some(t)) => Some(duration_from_nanos(t - f)),
        _ => None,
    }
}

impl Profiling {
    /// The time from queueing to the end of the command.
    pub fn total_duration(&self) -> (d: Option<Duration>)
        requires
            ordered(self.queue_time, self.end_time),
        ensures
            d == elapsed(self.queue_time, self.end_time),
    {
        elapsed_between(self.queue_time, self.end_time)
    }

    /// The time from queueing to submission of the command.
    pub fn duration_waiting_in_queue(&self) -> (d: Option<Duration>)
        requires
            ordered(self.queue_time, self.submit_time),
        ensures
            d == elapsed(self.queue_time, self.submit_time),
    {
        elapsed_between(self.queue_time, self.submit_time)
    }

    /// The time from queueing to submission of the command, the same interval that
    /// `duration_waiting_in_queue` measures.
    pub fn duration_between_submit_and_start(&self) -> (d: Option<Duration>)
        requires
            ordered(self.queue_time, self.submit_time),
        ensures
            d == elapsed(self.queue_time, self.submit_time),
    {
        elapsed_between(self.queue_time, self.submit_time)
    }

    /// The time from queueing to submission of the command, the same interval that
    /// `duration_waiting_in_queue` measures.
    pub fn duration_of_execution(&self) -> (d: Option<Duration>)
        requires
            ordered(self.queue_time, self.submit_time),
        ensures
            d == elapsed(self.queue_time, self.submit_time),
    {
        elapsed_between(self.queue_time, self.submit_time)
    }
}


/// What waiting on a buffer read event must do next.
#[derive(Debug, PartialEq, Eq, Clone, Copy, Structural)]
pub enum WaitAction {
    /// The host buffer was already handed out: report `EventAlreadyConsumed`.
    ReportAlreadyConsumed,
    /// Block until the event completes, then take the host buffer.
    WaitForEvent,
}

/// The state of a buffer read event: the event, the host buffer still held, and whether
/// the buffer was handed out.
pub type BufferReadState<E, T> = (E, Option<Seq<T>>, bool);

/// What a wait must do in the given state.
pub open spec fn wait_action_spec<E, T>(s: BufferReadState<E, T>) -> WaitAction {
    if s.2 {
        WaitAction::ReportAlreadyConsumed
    } else {
        WaitAction::WaitForEvent
    }
}

/// The state after the host buffer is taken: a held buffer is replaced by an empty one and
/// the event counts as consumed; with no buffer nothing changes.
pub open spec fn after_take<E, T>(s: BufferReadState<E, T>) -> BufferReadState<E, T> {
    match s.1 {
        Some(_) => (s.0, Some(Seq::<T>::empty()), true),
        None => s,
    }
}

/// The event of a buffer read together with the host buffer that the read fills, which is
/// handed out once the event has completed, and only once.
pub struct BufferReadEvent<E, T> {
    event: E,
    host_buffer: Option<Vec<T>>,
    is_consumed: bool,
}

impl<E, T> View for BufferReadEvent<E, T> {
    type V = BufferReadState<E, T>;

    closed spec fn view(&self) -> BufferReadState<E, T> {
        (
            self.event,
            match self.host_buffer {
                Some(v) => Some(v@),
                None => None,
            },
            self.is_consumed,
        )
    }
}

impl<E, T> BufferReadEvent<E, T> {
    pub fn new(event: E, host_buffer: Option<Vec<T>>) -> (r: BufferReadEvent<E, T>)
        ensures
            r@ == (
                event,
                match host_buffer {
                    Some(v) => Some(v@),
                    None => None,
                },
                false,
            ),
    {
        BufferReadEvent { event, host_buffer, is_consumed: false }
    }

    /// The event of the read.
    pub fn event(&self) -> (e: &E)
        ensures
            *e == self@.0,
    {
        &self.event
    }

    /// Whether the host buffer was already handed out.
    pub fn is_consumed(&self) -> (c: bool)
        ensures
            c == self@.2,
    {
        self.is_consumed
    }

    /// What a wait must do: report the event as consumed when the buffer was handed out,
    /// wait for the event otherwise.
    pub fn wait_action(&self) -> (a: WaitAction)
        ensures
            a == wait_action_spec(self@),
    {
        if self.is_consumed {
            WaitAction::ReportAlreadyConsumed
        } else {
            WaitAction::WaitForEvent
        }
    }

    /// Hands out the host buffer once the event has completed. A held buffer is returned and
    /// replaced by an empty one, and the event counts as consumed from then on; with no
    /// buffer, nothing changes and `None` is returned.
    pub fn take_host_buffer(&mut self) -> (r: Option<Vec<T>>)
        requires
            wait_action_spec(old(self)@) == WaitAction::WaitForEvent,
        ensures
            final(self)@ == after_take(old(self)@),
            match old(self)@.1 {
                Some(b) => r matches Some(v) && v@ == b,
                None => r is None,
            },
    {
        match self.host_buffer {
            Some(_) => {
                let mut output = Some(Vec::new());
                std::mem::swap(&mut self.host_buffer, &mut output);
                self.is_consumed = true;
                output
            },
            None => None,
        }
    }
}

/// Once a host buffer has been handed out, every later wait reports the event as consumed,
/// so a buffer is handed out at most once; while no buffer is held, waiting keeps waiting
/// for the event and hands out nothing.
pub proof fn lemma_host_buffer_handed_out_once<E, T>(s: BufferReadState<E, T>)
    requires
        wait_action_spec(s) == WaitAction::WaitForEvent,
    ensures
        s.1 is Some ==> wait_action_spec(after_take(s)) == WaitAction::ReportAlreadyConsumed,
        s.1 is None ==> after_take(s) == s,
{
}

} // verus!
