use reqwest_eventsource::event_source::Pending;
use reqwest_eventsource::response::{check_response, is_event_stream};
use reqwest_eventsource::retry::{Constant, Duration, ExponentialBackoff, Never};
use reqwest_eventsource::{CannotCloneRequestError, Error, Event, EventSource, MessageEvent, ReadyState};

const EVENT_STREAM: &[u8] = b"text/event-stream";

fn message(id: &str, data: &str) -> MessageEvent {
    MessageEvent {
        event: "message".to_string(),
        data: data.to_string(),
        id: id.to_string(),
        retry: None,
    }
}

fn transport() -> Error {
    Error::Transport("connection reset".to_string())
}

fn ms(millis: u64) -> Duration {
    Duration::from_millis(millis)
}

fn opened<P: reqwest_eventsource::retry::RetryPolicy>(es: &mut EventSource<P>) {
    let ct = EVENT_STREAM.to_vec();
    assert_eq!(es.handle_response(200, Some(&ct)), Ok(Event::Open));
}

#[test]
fn construction_requires_cloneable_request() {
    assert_eq!(EventSource::new(false).err(), Some(CannotCloneRequestError));
    assert_eq!(CannotCloneRequestError.message(), "expected a cloneable request");
    let es = EventSource::new(true).unwrap();
    assert_eq!(es.ready_state(), ReadyState::Connecting);
    assert_eq!(es.pending(), Pending::Request);
    assert_eq!(es.last_event_id(), "");
    assert_eq!(es.last_retry(), None);
}

#[test]
fn not_found_yields_one_error_then_end() {
    let mut es = EventSource::new(true).unwrap();
    assert_eq!(es.handle_response(404, None), Err(Error::InvalidStatusCode(404)));
    assert!(es.is_closed());
    assert_eq!(es.ready_state(), ReadyState::Closed);
    assert_eq!(es.pending(), Pending::Idle);
}

#[test]
fn two_frames_then_clean_close_with_never_policy() {
    let mut es = EventSource::new(true).unwrap().with_retry_policy(Never);
    let mut out = Vec::new();
    let ct = b"text/event-stream".to_vec();
    out.push(es.handle_response(200, Some(&ct)));
    assert_eq!(es.ready_state(), ReadyState::Open);
    out.push(es.handle_event(message("1", "first")));
    out.push(es.handle_event(message("2", "second")));
    out.push(es.handle_stream_end());
    assert_eq!(
        out,
        vec![
            Ok(Event::Open),
            Ok(Event::Message(message("1", "first"))),
            Ok(Event::Message(message("2", "second"))),
            Err(Error::StreamEnded),
        ]
    );
    assert!(es.is_closed());
}

#[test]
fn two_transport_failures_exhaust_constant_policy() {
    let mut es = EventSource::new(true)
        .unwrap()
        .with_retry_policy(Constant::new(Duration::from_secs(1), Some(1)));
    assert_eq!(es.handle_error(transport()), Err(transport()));
    assert!(!es.is_closed());
    assert_eq!(es.pending(), Pending::Delay(ms(1000)));
    assert_eq!(es.ready_state(), ReadyState::Connecting);
    assert_eq!(es.retry_fetch(), Ok(None));
    assert_eq!(es.pending(), Pending::Request);
    assert_eq!(es.handle_error(transport()), Err(transport()));
    assert!(es.is_closed());
    assert_eq!(es.ready_state(), ReadyState::Closed);
}

#[test]
fn payload_errors_close_whatever_the_policy() {
    for err in [
        Error::Utf8("invalid utf-8".to_string()),
        Error::Parser("bad frame".to_string()),
    ] {
        let mut es = EventSource::new(true)
            .unwrap()
            .with_retry_policy(Constant::new(ms(10), None));
        opened(&mut es);
        assert_eq!(es.handle_error(err.clone()), Err(err));
        assert!(es.is_closed());
    }
    let mut es = EventSource::new(true).unwrap();
    let ct = b"text/html".to_vec();
    assert_eq!(
        es.handle_response(200, Some(&ct)),
        Err(Error::InvalidContentType(b"text/html".to_vec()))
    );
    assert!(es.is_closed());
}

#[test]
fn reconnection_resets_backoff() {
    let mut es = EventSource::new(true).unwrap();
    assert_eq!(es.handle_error(transport()), Err(transport()));
    assert_eq!(es.pending(), Pending::Delay(ms(300)));
    assert_eq!(es.retry_fetch(), Ok(None));
    assert_eq!(es.handle_error(transport()), Err(transport()));
    assert_eq!(es.pending(), Pending::Delay(ms(600)));
    assert_eq!(es.last_retry(), Some((2, ms(600))));
    assert_eq!(es.retry_fetch(), Ok(None));
    opened(&mut es);
    assert_eq!(es.last_retry(), None);
    assert_eq!(es.handle_stream_end(), Err(Error::StreamEnded));
    assert_eq!(es.pending(), Pending::Delay(ms(300)));
    assert_eq!(es.last_retry(), Some((1, ms(300))));
}

#[test]
fn last_event_id_survives_retries_and_empty_ids() {
    let mut es = EventSource::new(true).unwrap();
    opened(&mut es);
    es.handle_event(message("42", "x")).unwrap();
    assert_eq!(es.last_event_id(), "42");
    assert_eq!(es.handle_error(transport()), Err(transport()));
    assert_eq!(es.retry_fetch(), Ok(Some("42".to_string())));
    opened(&mut es);
    es.handle_event(message("", "y")).unwrap();
    assert_eq!(es.last_event_id(), "42");
    assert_eq!(es.handle_stream_end(), Err(Error::StreamEnded));
    assert_eq!(es.retry_fetch(), Ok(Some("42".to_string())));
}

#[test]
fn unencodable_last_event_id_closes() {
    let mut es = EventSource::new(true).unwrap();
    opened(&mut es);
    es.handle_event(message("a\nb", "x")).unwrap();
    es.handle_stream_end().unwrap_err();
    assert_eq!(es.retry_fetch(), Err(Error::InvalidLastEventId("a\nb".to_string())));
    assert!(es.is_closed());
}

#[test]
fn non_ascii_last_event_id_is_sent() {
    let mut es = EventSource::new(true).unwrap();
    opened(&mut es);
    es.handle_event(message("é\t7", "x")).unwrap();
    es.handle_stream_end().unwrap_err();
    assert_eq!(es.retry_fetch(), Ok(Some("é\t7".to_string())));
}

#[test]
fn advertised_retry_time_reaches_policy() {
    let mut es = EventSource::new(true)
        .unwrap()
        .with_retry_policy(ExponentialBackoff::new(ms(100), 2000, ms(1000), None));
    opened(&mut es);
    let mut e = message("1", "x");
    e.retry = Some(ms(2500));
    assert_eq!(es.handle_event(e.clone()), Ok(Event::Message(e)));
    assert_eq!(es.handle_stream_end(), Err(Error::StreamEnded));
    assert_eq!(es.pending(), Pending::Delay(ms(2500)));
}

#[test]
fn close_stops_the_stream() {
    let mut es = EventSource::new(true).unwrap();
    es.close();
    assert!(es.is_closed());
    assert_eq!(es.ready_state(), ReadyState::Closed);
}

#[test]
fn set_retry_policy_replaces_policy() {
    let mut es = EventSource::new(true).unwrap();
    es.set_retry_policy(ExponentialBackoff::new(ms(5), 1000, ms(5), Some(1)));
    assert_eq!(es.handle_error(transport()), Err(transport()));
    assert_eq!(es.pending(), Pending::Delay(ms(5)));
}

#[test]
fn content_type_checks() {
    assert_eq!(check_response(200, Some(&b"text/event-stream".to_vec())), Ok(()));
    assert_eq!(
        check_response(200, Some(&b"text/event-stream; charset=utf-8".to_vec())),
        Ok(())
    );
    assert_eq!(check_response(200, Some(&b"Text/Event-Stream".to_vec())), Ok(()));
    assert_eq!(
        check_response(200, Some(&b"text/plain".to_vec())),
        Err(Error::InvalidContentType(b"text/plain".to_vec()))
    );
    assert_eq!(
        check_response(200, Some(&b"not a mime".to_vec())),
        Err(Error::InvalidContentType(b"not a mime".to_vec()))
    );
    assert_eq!(
        check_response(200, Some(&b"text/event-stream\x7f".to_vec())),
        Err(Error::InvalidContentType(b"text/event-stream\x7f".to_vec()))
    );
    assert_eq!(check_response(200, None), Err(Error::InvalidContentType(Vec::new())));
    assert_eq!(
        check_response(500, Some(&b"text/event-stream".to_vec())),
        Err(Error::InvalidStatusCode(500))
    );
}

#[test]
fn event_stream_media_type() {
    assert!(is_event_stream("text", "event-stream"));
    assert!(!is_event_stream("text", "plain"));
    assert!(!is_event_stream("application", "event-stream"));
}

#[test]
fn message_event_becomes_event() {
    assert_eq!(Event::from_message(message("1", "d")), Event::Message(message("1", "d")));
}

#[test]
fn bounded_policy_retries_exactly_n_failures_through_the_stream() {
    let mut es = EventSource::new(true)
        .unwrap()
        .with_retry_policy(ExponentialBackoff::new(ms(100), 2000, ms(10_000), Some(3)));
    for expected in [100, 200, 400] {
        assert_eq!(es.handle_error(transport()), Err(transport()));
        assert!(!es.is_closed());
        assert_eq!(es.pending(), Pending::Delay(ms(expected)));
        assert_eq!(es.ready_state(), ReadyState::Connecting);
        assert_eq!(es.retry_fetch(), Ok(None));
    }
    assert_eq!(es.handle_error(transport()), Err(transport()));
    assert!(es.is_closed());
    assert_eq!(es.ready_state(), ReadyState::Closed);
}

#[test]
fn ready_state_follows_outstanding_operation() {
    let mut es = EventSource::new(true).unwrap();
    assert_eq!(es.ready_state(), ReadyState::Connecting);
    opened(&mut es);
    assert_eq!(es.pending(), Pending::Stream);
    assert_eq!(es.ready_state(), ReadyState::Open);
    es.handle_stream_end().unwrap_err();
    assert_eq!(es.ready_state(), ReadyState::Connecting);
    es.retry_fetch().unwrap();
    assert_eq!(es.ready_state(), ReadyState::Connecting);
    assert_eq!(es.pending(), Pending::Request);
}
