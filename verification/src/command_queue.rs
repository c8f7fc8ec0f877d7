use vstd::prelude::*;
use vstd::std_specs::convert::FromSpecImpl;

use crate::cl_object::{cl_event, ClObject};

verus! {

/// A value that refers to an OpenCL event.
pub trait EventPtr {
    /// The event that the value refers to.
    spec fn event_ptr_spec(&self) -> cl_event;

    fn event_ptr(&self) -> (e: cl_event)
        ensures
            e == self.event_ptr_spec(),
    ;
}

impl EventPtr for cl_event {
    open spec fn event_ptr_spec(&self) -> cl_event {
        *self
    }

    fn event_ptr(&self) -> (e: cl_event) {
        *self
    }
}

/// The handle that a queued command fills in with its event: the null handle until OpenCL
/// writes the event into it.
pub fn new_tracking_event() -> (e: cl_event)
    ensures
        e@ == 0,
{
    cl_event::null_ptr()
}

/// The events that a command waits for before it runs, in the form that OpenCL takes them.
pub trait Waitlist {
    /// The events of the waitlist, in order.
    spec fn waitlist_spec(&self) -> Seq<cl_event>;

    /// The number of events in the waitlist.
    fn waitlist_len(&self) -> (n: u32)
        requires
            self.waitlist_spec().len() <= u32::MAX,
        ensures
            n == self.waitlist_spec().len(),
    ;

    /// Appends the events of the waitlist to `wl`.
    fn fill_waitlist(&self, wl: &mut Vec<cl_event>)
        ensures
            final(wl)@ == old(wl)@ + self.waitlist_spec(),
    ;

    /// The events of the waitlist.
    fn new_waitlist(&self) -> (events: Vec<cl_event>)
        ensures
            events@ == self.waitlist_spec(),
    ;
}

/// The events that a sequence of event references refers to.
pub open spec fn events_of<E: EventPtr>(s: Seq<E>) -> Seq<cl_event> {
    s.map_values(|e: E| e.event_ptr_spec())
}

/// Appends the events that the references refer to, in order.
fn extend_with_events<E: EventPtr>(events: &[E], wl: &mut Vec<cl_event>)
    ensures
        final(wl)@ == old(wl)@ + events_of(events@),
{
    let n = events.len();
    let mut i: usize = 0;
    while i < n
        invariant
            n == events@.len(),
            i <= n,
            wl@ == old(wl)@ + events_of(events@.subrange(0, i as int)),
        decreases n - i,
    {
        let e = events[i].event_ptr();
        proof {
            assert(events_of(events@.subrange(0, i + 1)) =~= events_of(events@.subrange(0, i as int)).push(e));
        }
        wl.push(e);
        i = i + 1;
    }
    proof {
        assert(events@.subrange(0, n as int) =~= events@);
    }
}

impl<'a, E: EventPtr> Waitlist for &'a [E] {
    open spec fn waitlist_spec(&self) -> Seq<cl_event> {
        events_of(self@)
    }

    fn waitlist_len(&self) -> (n: u32) {
        self.len() as u32
    }

    fn fill_waitlist(&self, wl: &mut Vec<cl_event>) {
        extend_with_events(*self, wl);
    }

    fn new_waitlist(&self) -> (events: Vec<cl_event>) {
        let mut events = Vec::new();
        extend_with_events(*self, &mut events);
        proof {
            assert(events@ =~= events_of(self@));
        }
        events
    }
}

/// A single event is a waitlist of one.
impl<'a, E: EventPtr> Waitlist for &'a E {
    open spec fn waitlist_spec(&self) -> Seq<cl_event> {
        seq![(**self).event_ptr_spec()]
    }

    fn waitlist_len(&self) -> (n: u32) {
        1
    }

    fn fill_waitlist(&self, wl: &mut Vec<cl_event>) {
        let e = (**self).event_ptr();
        wl.push(e);
        proof {
            assert(wl@ =~= old(wl)@ + seq![e]);
        }
    }

    fn new_waitlist(&self) -> (events: Vec<cl_event>) {
        let mut events = Vec::new();
        events.push((**self).event_ptr());
        proof {
            assert(events@ =~= seq![(**self).event_ptr_spec()]);
        }
        events
    }
}

impl<W: Waitlist> Waitlist for Option<W> {
    open spec fn waitlist_spec(&self) -> Seq<cl_event> {
        match self {
            Some(w) => w.waitlist_spec(),
            None => Seq::empty(),
        }
    }

    fn waitlist_len(&self) -> (n: u32) {
        match self {
            Some(wl) => wl.waitlist_len(),
            None => 0,
        }
    }

    fn fill_waitlist(&self, wl: &mut Vec<cl_event>) {
        match self {
            Some(w) => w.fill_waitlist(wl),
            None => {
                proof {
                    assert(wl@ =~= wl@ + Seq::<cl_event>::empty());
                }
            },
        }
    }

    fn new_waitlist(&self) -> (events: Vec<cl_event>) {
        match self {
            Some(w) => w.new_waitlist(),
            None => Vec::new(),
        }
    }
}

/// How a command is queued: whether the call blocks until it is done, the offset into the
/// buffer, and the events it waits for.
pub struct CommandQueueOptions<E> {
    pub is_blocking: bool,
    pub offset: usize,
    pub waitlist: Vec<E>,
}

impl<E> CommandQueueOptions<E> {
    /// The options used when none are given: blocking, at offset 0, waiting for nothing.
    pub open spec fn is_default(self) -> bool {
        &&& self.is_blocking
        &&& self.offset == 0
        &&& self.waitlist@.len() == 0
    }
}

impl<E> Default for CommandQueueOptions<E> {
    fn default() -> (opts: CommandQueueOptions<E>)
        ensures
            opts.is_default(),
    {
        CommandQueueOptions { is_blocking: true, offset: 0, waitlist: Vec::new() }
    }
}

impl<E: Clone> Clone for CommandQueueOptions<E> {
    fn clone(&self) -> (opts: CommandQueueOptions<E>)
        ensures
            opts.is_blocking == self.is_blocking,
            opts.offset == self.offset,
            opts.waitlist@.len() == self.waitlist@.len(),
            forall|i: int|
                0 <= i < self.waitlist@.len() ==> cloned::<E>(
                    #[trigger] self.waitlist@[i],
                    opts.waitlist@[i],
                ),
    {
        CommandQueueOptions {
            is_blocking: self.is_blocking,
            offset: self.offset,
            waitlist: self.waitlist.clone(),
        }
    }
}

impl<E> From<Option<CommandQueueOptions<E>>> for CommandQueueOptions<E> {
    /// The given options, or the default options when none are given.
    fn from(maybe_cq_opts: Option<CommandQueueOptions<E>>) -> (opts: CommandQueueOptions<E>)
        ensures
            match maybe_cq_opts {
                Some(o) => opts == o,
                None => opts.is_default(),
            },
    {
        match maybe_cq_opts {
            Some(opts) => opts,
            None => CommandQueueOptions::default(),
        }
    }
}

/// The contract of the conversion is the `ensures` of `from` above; the default options
/// hold a freshly made empty vector, which no spec value names, so no `from_spec` is claimed.
impl<E> FromSpecImpl<Option<CommandQueueOptions<E>>> for CommandQueueOptions<E> {
    open spec fn obeys_from_spec() -> bool {
        false
    }

    open spec fn from_spec(v: Option<CommandQueueOptions<E>>) -> CommandQueueOptions<E> {
        match v {
            Some(o) => o,
            None => arbitrary(),
        }
    }
}

impl<E: EventPtr> Waitlist for CommandQueueOptions<E> {
    open spec fn waitlist_spec(&self) -> Seq<cl_event> {
        events_of(self.waitlist@)
    }

    fn waitlist_len(&self) -> (n: u32) {
        self.waitlist.as_slice().waitlist_len()
    }

    fn fill_waitlist(&self, wl: &mut Vec<cl_event>) {
        extend_with_events(self.waitlist.as_slice(), wl);
    }

    fn new_waitlist(&self) -> (events: Vec<cl_event>) {
        self.waitlist.as_slice().new_waitlist()
    }
}

} // verus!
