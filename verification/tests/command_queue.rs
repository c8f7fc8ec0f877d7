use open_cl::cl_object::{cl_event, ClObject};
use open_cl::command_queue::{CommandQueueOptions, EventPtr, Waitlist};

fn events() -> Vec<cl_event> {
    vec![cl_event::new(16).unwrap(), cl_event::new(32).unwrap()]
}

#[test]
fn slice_waitlist_lists_its_events() {
    let evs = events();
    let wl: &[cl_event] = &evs[..];
    assert_eq!(wl.waitlist_len(), 2);
    assert_eq!(wl.new_waitlist(), evs);
    let mut out = vec![cl_event::new(8).unwrap()];
    wl.fill_waitlist(&mut out);
    assert_eq!(out.len(), 3);
    assert_eq!(out[2].event_ptr().address(), 32);
}

#[test]
fn optional_waitlist_is_empty_when_absent() {
    let none: Option<&[cl_event]> = None;
    assert_eq!(none.waitlist_len(), 0);
    assert!(none.new_waitlist().is_empty());
    let evs = events();
    let some: Option<&[cl_event]> = Some(&evs[..]);
    assert_eq!(some.waitlist_len(), 2);
}

#[test]
fn command_queue_options_default_and_from_none() {
    let d: CommandQueueOptions<cl_event> = CommandQueueOptions::default();
    assert!(d.is_blocking);
    assert_eq!(d.offset, 0);
    assert!(d.waitlist.is_empty());
    let f = CommandQueueOptions::<cl_event>::from(None);
    assert!(f.is_blocking);
    let given = CommandQueueOptions { is_blocking: false, offset: 4, waitlist: events() };
    let g = CommandQueueOptions::from(Some(given));
    assert!(!g.is_blocking);
    assert_eq!(g.offset, 4);
}

#[test]
fn command_queue_options_waitlist_and_clone() {
    let opts = CommandQueueOptions { is_blocking: true, offset: 0, waitlist: events() };
    assert_eq!(opts.waitlist_len(), 2);
    assert_eq!(opts.new_waitlist(), events());
    let c = opts.clone();
    assert_eq!(c.waitlist, opts.waitlist);
}

#[test]
fn single_event_is_a_waitlist_of_one() {
    let ev = cl_event::new(48).unwrap();
    let one: &cl_event = &ev;
    assert_eq!(one.waitlist_len(), 1);
    assert_eq!(one.new_waitlist(), vec![ev]);
    let mut out = events();
    one.fill_waitlist(&mut out);
    assert_eq!(out.len(), 3);
    assert_eq!(out[2].address(), 48);
}

#[test]
fn tracking_event_starts_as_the_null_handle() {
    let e = open_cl::command_queue::new_tracking_event();
    assert_eq!(e.address(), 0);
    assert_eq!(e, cl_event::null_ptr());
}
