//! End-to-end stream tests: raw bytes through the external framer (sseer)
//! into the adapter's pull state machine.

use std::convert::Infallible;

use bytes::Bytes;
use futures::executor::block_on;
use futures::StreamExt;

use slop_streamer::adapter::{
    DecodeError, FramerOutcome, PullResult, StreamAdapter, StreamError,
};
use slop_streamer::event::StreamEvent;
use slop_streamer::text::Text;

type Framer = sseer::EventStream<futures::stream::Iter<std::vec::IntoIter<Result<Bytes, Infallible>>>>;

fn framer_of(content: &str) -> Framer {
    let chunks: Vec<Result<Bytes, Infallible>> = vec![Ok(Bytes::from(content.as_bytes().to_vec()))];
    sseer::EventStream::new(futures::stream::iter(chunks))
}

/// Runs the pull loop the way the surrounding event loop does: poll the
/// framer while the adapter is active, hand each outcome to `pull`.
fn run_stream(content: &str) -> (Vec<StreamEvent>, Vec<StreamError<Infallible, std::str::Utf8Error>>) {
    let mut framer = framer_of(content);
    let mut adapter = StreamAdapter::new();
    let mut events = Vec::new();
    let mut errors = Vec::new();
    while !adapter.is_terminated() {
        let outcome = match block_on(framer.next()) {
            None => FramerOutcome::EndOfInput,
            Some(Ok(ev)) => FramerOutcome::Record(Text::from_handle(ev.data)),
            Some(Err(sseer::errors::EventStreamError::Transport(t))) => {
                FramerOutcome::TransportError(t)
            }
            Some(Err(sseer::errors::EventStreamError::Utf8Error(u))) => {
                FramerOutcome::EncodingError(u)
            }
        };
        match adapter.pull(outcome) {
            PullResult::Event(ev) => events.push(ev),
            PullResult::Error(e) => errors.push(e),
            PullResult::Finished => break,
        }
    }
    (events, errors)
}

#[test]
fn test_stream_ends_with_done() {
    let content = "data: {\"type\":\"response.created\",\"response\":{\"id\":\"test\",\"status\":\"in_progress\"},\"sequence_number\":0}\n\ndata: [DONE]\n";
    let (events, errors) = run_stream(content);
    assert!(errors.is_empty(), "Should not error");
    assert_eq!(events.len(), 1, "Should receive exactly one event before [DONE]");
}

#[test]
fn test_stream_handles_empty() {
    let content = "data: [DONE]\n";
    let (events, errors) = run_stream(content);
    assert!(errors.is_empty());
    assert_eq!(events.len(), 0, "Should immediately terminate on [DONE]");
}

#[test]
fn test_stream_skips_processing_lines() {
    let content = ": OPENROUTER PROCESSING\n\ndata: {\"type\":\"response.created\",\"response\":{\"id\":\"test\",\"status\":\"in_progress\"},\"sequence_number\":0}\n\n: OPENROUTER PROCESSING\n\ndata: [DONE]\n";
    let (events, errors) = run_stream(content);
    assert!(errors.is_empty(), "Should not error on processing lines");
    assert_eq!(
        events.len(),
        1,
        "Should receive exactly one event, skipping processing lines"
    );
}

#[test]
fn clean_end_of_input_finishes_without_error() {
    let content = "data: {\"type\":\"response.in_progress\",\"sequence_number\":1}\n\n";
    let (events, errors) = run_stream(content);
    assert!(errors.is_empty());
    assert_eq!(events.len(), 1);
}

#[test]
fn bad_payload_yields_decode_error_and_stream_goes_on() {
    let content = "data: not json at all\n\ndata: {\"type\":\"response.in_progress\",\"sequence_number\":2}\n\ndata: [DONE]\n";
    let (events, errors) = run_stream(content);
    assert_eq!(errors.len(), 1);
    assert!(matches!(
        errors[0],
        StreamError::Decode(DecodeError::Syntax { .. })
    ));
    assert_eq!(events.len(), 1, "the stream must not terminate on a decode error");
}

#[test]
fn schema_error_is_distinct_from_syntax_error() {
    let content = "data: {\"type\":\"response.unknown\"}\n\ndata: [DONE]\n";
    let (events, errors) = run_stream(content);
    assert_eq!(events.len(), 0);
    assert_eq!(errors.len(), 1);
    assert!(matches!(errors[0], StreamError::Decode(DecodeError::Schema)));
}

#[test]
fn pulls_after_termination_keep_yielding_finished() {
    let mut adapter = StreamAdapter::new();
    let done = Text::from_handle(bytes_utils::Str::from_static("[DONE]"));
    let r: PullResult<(), ()> = adapter.pull(FramerOutcome::Record(done));
    assert!(matches!(r, PullResult::Finished));
    assert!(adapter.is_terminated());
    for _ in 0..3 {
        let again: PullResult<(), ()> = adapter.pull(FramerOutcome::Record(Text::from_handle(
            bytes_utils::Str::from_static("{\"type\":\"response.in_progress\",\"sequence_number\":9}"),
        )));
        assert!(matches!(again, PullResult::Finished));
        assert!(adapter.is_terminated());
    }
}

#[test]
fn transport_error_is_surfaced_and_does_not_terminate() {
    let mut adapter = StreamAdapter::new();
    let r: PullResult<&str, ()> = adapter.pull(FramerOutcome::TransportError("boom"));
    match r {
        PullResult::Error(StreamError::Transport(t)) => assert_eq!(t, "boom"),
        _ => panic!("expected a transport error"),
    }
    assert!(!adapter.is_terminated());
}

#[test]
fn end_of_input_terminates() {
    let mut adapter = StreamAdapter::new();
    let r: PullResult<(), ()> = adapter.pull(FramerOutcome::EndOfInput);
    assert!(matches!(r, PullResult::Finished));
    assert!(adapter.is_terminated());
}
