use netmetrics::capture::{run_capture, handle_frame, CaptureEvent, ETHERNET_HEADER_BYTES};
use netmetrics::metrics::NetworkMetrics;

#[test]
fn three_frames_then_fatal() {
    // A device channel that yields 3 valid frames and then fails fatally:
    // the loop must make exactly 3 updates and stop.
    let mut metrics = NetworkMetrics::new();
    let events = vec![
        CaptureEvent::Frame(vec![0u8; 64]),
        CaptureEvent::Frame(vec![0u8; 1500]),
        CaptureEvent::Frame(vec![0u8; 40]),
        CaptureEvent::Fatal,
    ];
    let outcome = run_capture(&mut metrics, &events);
    assert_eq!(outcome.frames, 3);
    assert!(outcome.fatal);
    let snapshot = metrics.snapshot();
    assert_eq!(snapshot.packet_count, 3);
    assert_eq!(snapshot.byte_count, 1604);
}

#[test]
fn frames_after_fatal_are_not_read() {
    let mut metrics = NetworkMetrics::new();
    let events = vec![
        CaptureEvent::Frame(vec![0u8; 100]),
        CaptureEvent::Fatal,
        CaptureEvent::Frame(vec![0u8; 999]),
    ];
    let outcome = run_capture(&mut metrics, &events);
    assert_eq!(outcome.frames, 1);
    assert!(outcome.fatal);
    assert_eq!(metrics.packet_count(), 1);
    assert_eq!(metrics.byte_count(), 100);
}

#[test]
fn exhausted_channel_is_not_fatal() {
    let mut metrics = NetworkMetrics::new();
    let events = vec![
        CaptureEvent::Frame(vec![0u8; 14]),
        CaptureEvent::Frame(vec![0u8; 15]),
    ];
    let outcome = run_capture(&mut metrics, &events);
    assert_eq!(outcome.frames, 2);
    assert!(!outcome.fatal);
    assert_eq!(metrics.packet_count(), 2);
    assert_eq!(metrics.byte_count(), 29);
}

#[test]
fn handle_frame_reports_ethernet_decode() {
    // A buffer of at least the 14-byte Ethernet header decodes; a shorter one
    // does not, yet still feeds its raw length into the aggregator.
    let mut metrics = NetworkMetrics::new();
    let valid = vec![0u8; ETHERNET_HEADER_BYTES];
    let runt = vec![0u8; ETHERNET_HEADER_BYTES - 1];
    assert!(handle_frame(&mut metrics, &valid));
    assert!(!handle_frame(&mut metrics, &runt));
    assert_eq!(metrics.packet_count(), 2);
    assert_eq!(metrics.byte_count(), 27);
}

#[test]
fn empty_event_sequence() {
    let mut metrics = NetworkMetrics::new();
    let events: Vec<CaptureEvent> = Vec::new();
    let outcome = run_capture(&mut metrics, &events);
    assert_eq!(outcome.frames, 0);
    assert!(!outcome.fatal);
    assert_eq!(metrics.packet_count(), 0);
}
