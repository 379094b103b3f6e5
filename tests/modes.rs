use trafficgen::payload::random_string;
use trafficgen::responder::respond;
use trafficgen::sink::{sink_next, ReadOutcome, SinkAction, READ_BUF_LEN};
use trafficgen::source::{source_next, SourceAction, SourceEvent, PAYLOAD_LEN, TICK_MILLIS};

fn alphanumeric(s: &str) -> bool {
    s.chars().all(|c| c.is_ascii_alphanumeric())
}

#[test]
fn random_string_has_requested_length() {
    assert_eq!(random_string(0).len(), 0);
    assert_eq!(random_string(1).chars().count(), 1);
    assert_eq!(random_string(100).chars().count(), 100);
    assert_eq!(random_string(5000).chars().count(), 5000);
}

#[test]
fn random_string_is_alphanumeric_on_every_call() {
    for _ in 0..200 {
        let s = random_string(100);
        assert!(alphanumeric(&s), "{}", s);
        assert_eq!(s.len(), 100);
    }
}

#[test]
fn random_strings_differ_between_calls() {
    let a = random_string(100);
    let b = random_string(100);
    assert_ne!(a, b);
}

#[test]
fn random_string_spans_digits_and_both_cases() {
    let s = random_string(5000);
    assert!(s.chars().any(|c| c.is_ascii_digit()));
    assert!(s.chars().any(|c| c.is_ascii_uppercase()));
    assert!(s.chars().any(|c| c.is_ascii_lowercase()));
}

#[test]
fn sink_reads_hello_then_closes() {
    assert_eq!(READ_BUF_LEN, 1024);
    assert_eq!(sink_next(ReadOutcome::Bytes(5)), SinkAction::ReadAgain);
    assert_eq!(sink_next(ReadOutcome::Bytes(0)), SinkAction::Close);
}

#[test]
fn sink_keeps_reading_any_chunk_size() {
    for n in [1usize, 2, 17, 1023, 1024, usize::MAX] {
        assert_eq!(sink_next(ReadOutcome::Bytes(n)), SinkAction::ReadAgain);
    }
}

#[test]
fn sink_closes_on_read_error() {
    assert_eq!(sink_next(ReadOutcome::Failed), SinkAction::Close);
}

#[test]
fn source_sends_payload_on_each_tick() {
    assert_eq!(PAYLOAD_LEN, 100);
    for _ in 0..20 {
        match source_next(SourceEvent::Tick) {
            SourceAction::Send(p) => {
                assert_eq!(p.len(), 100);
                assert_eq!(p.as_bytes().len(), 100);
                assert!(alphanumeric(&p));
            }
            other => panic!("expected a payload, got {:?}", other),
        }
    }
}

#[test]
fn source_ticks_ten_times_a_second() {
    assert_eq!(TICK_MILLIS, 100);
    // In 1.05 s the timer fires at 0, 100, ..., 1000 ms: at least 9 writes.
    let ticks = 1050 / TICK_MILLIS + 1;
    assert!(ticks >= 9);
}

#[test]
fn source_waits_after_connect_and_after_write() {
    assert!(matches!(source_next(SourceEvent::Connected), SourceAction::WaitTick));
    assert!(matches!(source_next(SourceEvent::Written), SourceAction::WaitTick));
}

#[test]
fn source_exits_when_connect_fails() {
    assert!(matches!(source_next(SourceEvent::ConnectFailed), SourceAction::Exit));
}

#[test]
fn source_exits_when_write_fails() {
    assert!(matches!(source_next(SourceEvent::WriteFailed), SourceAction::Exit));
}

#[test]
fn responder_answers_get_with_empty_ok() {
    let r = respond("GET", "/anything");
    assert_eq!(r.status, 200);
    assert!(r.body.is_empty());
}

#[test]
fn responder_ignores_method_and_path() {
    for (m, p) in [("POST", "/"), ("DELETE", "/x/y?z=1"), ("PUT", ""), ("OPTIONS", "*")] {
        let r = respond(m, p);
        assert_eq!(r.status, 200);
        assert_eq!(r.body.len(), 0);
    }
}
