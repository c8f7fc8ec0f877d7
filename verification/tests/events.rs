use std::time::Duration;

use open_cl::event::{BufferReadEvent, EventError, Profiling, WaitAction};

fn profiling() -> Profiling {
    Profiling {
        queue_time: Some(100),
        submit_time: Some(130),
        start_time: Some(150),
        end_time: Some(400),
    }
}

#[test]
fn profiling_total_duration() {
    assert_eq!(profiling().total_duration(), Some(Duration::from_nanos(300)));
}

#[test]
fn profiling_queue_durations() {
    let p = profiling();
    assert_eq!(p.duration_waiting_in_queue(), Some(Duration::from_nanos(30)));
    assert_eq!(p.duration_between_submit_and_start(), Some(Duration::from_nanos(30)));
    assert_eq!(p.duration_of_execution(), Some(Duration::from_nanos(30)));
}

#[test]
fn profiling_without_times_has_no_durations() {
    let p = Profiling {
        queue_time: None,
        submit_time: Some(1),
        start_time: None,
        end_time: Some(2),
    };
    assert_eq!(p.total_duration(), None);
    assert_eq!(p.duration_waiting_in_queue(), None);
}

#[test]
fn buffer_read_event_hands_out_buffer_once() {
    let mut ev = BufferReadEvent::new(7u32, Some(vec![1u8, 2, 3]));
    assert_eq!(*ev.event(), 7);
    assert!(!ev.is_consumed());
    assert_eq!(ev.wait_action(), WaitAction::WaitForEvent);
    assert_eq!(ev.take_host_buffer(), Some(vec![1, 2, 3]));
    assert!(ev.is_consumed());
    assert_eq!(ev.wait_action(), WaitAction::ReportAlreadyConsumed);
}

#[test]
fn buffer_read_event_without_buffer_stays_unconsumed() {
    let mut ev: BufferReadEvent<u32, u8> = BufferReadEvent::new(1u32, None);
    assert_eq!(ev.take_host_buffer(), None);
    assert!(!ev.is_consumed());
    assert_eq!(ev.wait_action(), WaitAction::WaitForEvent);
}

#[test]
fn event_error_names_the_event() {
    let e = EventError::EventAlreadyConsumed("0x1234".to_string());
    assert_eq!(e, EventError::EventAlreadyConsumed("0x1234".to_string()));
}
