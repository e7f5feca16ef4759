//! The stream adapter: a pull-based state machine over the records an
//! external framer yields.  It is Active until it sees clean end-of-input or
//! the `[DONE]` sentinel, after which every pull yields "no more items";
//! transport, encoding and decode failures are surfaced as distinct error
//! kinds and never terminate the stream by themselves.

use vstd::prelude::*;

use crate::decode::{bytes_eq, decode_event, dv_stream_event_of};
use crate::event::{StreamEvent, StreamEventView};
use crate::json::spec_json;
use crate::parse::parse_json;
use crate::text::Text;

verus! {

/// What one framer pull handed the adapter.
pub enum FramerOutcome<T, U> {
    /// A complete record's payload.
    Record(Text),
    /// The byte source failed; the payload is the transport's own error.
    TransportError(T),
    /// The received bytes were not valid text where text was required.
    EncodingError(U),
    /// Clean end of input.
    EndOfInput,
}

/// Why one record's payload did not become an event.
#[derive(Debug)]
pub enum DecodeError {
    /// The payload is not JSON; `at` is the byte offset the parser stopped at.
    Syntax { at: usize },
    /// The payload is JSON, but not an event of the wire schema.
    Schema,
}

/// The error kinds one pull can surface.
#[derive(Debug)]
pub enum StreamError<T, U> {
    /// The byte source failed.
    Transport(T),
    /// The received bytes were not valid text.
    Encoding(U),
    /// The record's payload did not decode; the stream is not terminated.
    Decode(DecodeError),
}

/// What one pull yields to the consumer.
pub enum PullResult<T, U> {
    /// One decoded, owned event.
    Event(StreamEvent),
    /// One typed error; the consumer decides whether to keep pulling.
    Error(StreamError<T, U>),
    /// No more items: end of input or the sentinel was seen.
    Finished,
}

/// The stream-termination sentinel: the literal payload `[DONE]`.
pub open spec fn sentinel() -> Seq<u8> {
    seq![0x5Bu8, 0x44u8, 0x4Fu8, 0x4Eu8, 0x45u8, 0x5Du8]
}

fn is_sentinel(data: &[u8]) -> (r: bool)
    ensures
        r <==> data@ == sentinel(),
{
    let s = [0x5Bu8, 0x44u8, 0x4Fu8, 0x4Eu8, 0x45u8, 0x5Du8];
    proof {
        assert(s@ =~= sentinel());
    }
    bytes_eq(data, s.as_slice())
}

/// The event a record payload denotes, if any: parse the payload as JSON,
/// then read the tree under the wire schema.
pub open spec fn event_of_payload(s: Seq<u8>) -> Option<StreamEventView> {
    match spec_json(s) {
        Some(j) => dv_stream_event_of(j),
        None => None,
    }
}

/// How a decode attempt's outcome must relate to the payload: an event comes
/// exactly on the payloads that denote one, and it is exactly that event; a
/// syntax error comes exactly on the payloads that are not JSON; a schema
/// error exactly on JSON payloads that denote no event.
pub open spec fn decoded(payload: Seq<u8>, dec: Result<StreamEvent, DecodeError>) -> bool {
    &&& (dec is Ok <==> event_of_payload(payload) is Some)
    &&& (dec matches Ok(ev) ==> event_of_payload(payload) == Some(ev@))
    &&& ((dec matches Err(e) && e is Syntax) <==> spec_json(payload) is None)
    &&& ((dec matches Err(e) && e is Schema) <==> (spec_json(payload) is Some
        && event_of_payload(payload) is None))
}

/// Decodes one (non-sentinel) record payload into an owned event: JSON
/// parse, wire-schema dispatch, then the borrowed-to-owned conversion
/// against the record's own buffer.
pub fn decode_record(data: &Text) -> (r: Result<StreamEvent, DecodeError>)
    ensures
        decoded(data@, r),
{
    let bytes = data.as_bytes();
    let jv = match parse_json(bytes) {
        Ok(v) => v,
        Err(f) => {
            return Err(DecodeError::Syntax { at: f.at });
        },
    };
    let raw = match decode_event(&jv, bytes) {
        Ok(e) => e,
        Err(_) => {
            return Err(DecodeError::Schema);
        },
    };
    // The payload bytes are valid UTF-8 (the framer hands text over), so the
    // parser guarantees every decoded leaf is convertible: the conversion
    // cannot fail here.
    match raw.convert_to_owned(data) {
        Ok(ev) => Ok(ev),
        Err(_) => {
            proof {
                assert(false);
            }
            Err(DecodeError::Schema)
        },
    }
}

/// The adapter's two states; no transition leaves Terminated.
#[derive(Debug, Clone, Copy, PartialEq, Eq, Structural)]
pub enum StreamState {
    Active,
    Terminated,
}

/// The state after the adapter handles one framer outcome: end of input and
/// the sentinel payload terminate, nothing else changes the state.
pub open spec fn next_state<T, U>(state: StreamState, item: FramerOutcome<T, U>) -> StreamState {
    match state {
        StreamState::Terminated => StreamState::Terminated,
        StreamState::Active => match item {
            FramerOutcome::Record(p) => if p@ == sentinel() {
                StreamState::Terminated
            } else {
                StreamState::Active
            },
            FramerOutcome::TransportError(_) => StreamState::Active,
            FramerOutcome::EncodingError(_) => StreamState::Active,
            FramerOutcome::EndOfInput => StreamState::Terminated,
        },
    }
}

/// The pull-based stream adapter.  The surrounding event loop owns the
/// framer, polls it only while the adapter is active, and hands each
/// outcome to `pull`.
#[derive(Debug)]
pub struct StreamAdapter {
    pub state: StreamState,
}

impl StreamAdapter {
    /// A fresh adapter, active until end of input or the sentinel.
    pub fn new() -> (a: StreamAdapter)
        ensures
            a.state == StreamState::Active,
    {
        StreamAdapter { state: StreamState::Active }
    }

    /// Whether the stream has ended; after this answers true, `pull` yields
    /// `Finished` forever and the framer need not be polled again.
    pub fn is_terminated(&self) -> (r: bool)
        ensures
            r <==> self.state is Terminated,
    {
        match self.state {
            StreamState::Terminated => true,
            StreamState::Active => false,
        }
    }

    /// Handles one framer outcome.  Once terminated the adapter yields
    /// `Finished` whatever arrives; while active, a transport or encoding
    /// error is surfaced unchanged (state kept), end of input and the
    /// sentinel payload terminate, and any other record is decoded, yielding
    /// the payload's event or a decode error (state kept either way).
    pub fn pull<T, U>(&mut self, item: FramerOutcome<T, U>) -> (r: PullResult<T, U>)
        ensures
            final(self).state == next_state(old(self).state, item),
            old(self).state is Terminated ==> r is Finished,
            old(self).state is Active ==> match item {
                FramerOutcome::Record(payload) => {
                    if payload@ == sentinel() {
                        r is Finished
                    } else {
                        match r {
                            PullResult::Event(ev) => decoded(payload@, Ok(ev)),
                            PullResult::Error(e) => e matches StreamError::Decode(d) && decoded(
                                payload@,
                                Err(d),
                            ),
                            PullResult::Finished => false,
                        }
                    }
                },
                FramerOutcome::TransportError(t) => r == PullResult::Error(
                    StreamError::<T, U>::Transport(t),
                ),
                FramerOutcome::EncodingError(u) => r == PullResult::Error(
                    StreamError::<T, U>::Encoding(u),
                ),
                FramerOutcome::EndOfInput => r is Finished,
            },
    {
        match self.state {
            StreamState::Terminated => PullResult::Finished,
            StreamState::Active => match item {
                FramerOutcome::Record(payload) => {
                    if is_sentinel(payload.as_bytes()) {
                        self.state = StreamState::Terminated;
                        PullResult::Finished
                    } else {
                        match decode_record(&payload) {
                            Ok(ev) => PullResult::Event(ev),
                            Err(e) => PullResult::Error(StreamError::Decode(e)),
                        }
                    }
                },
                FramerOutcome::TransportError(t) => PullResult::Error(StreamError::Transport(t)),
                FramerOutcome::EncodingError(u) => PullResult::Error(StreamError::Encoding(u)),
                FramerOutcome::EndOfInput => {
                    self.state = StreamState::Terminated;
                    PullResult::Finished
                },
            },
        }
    }
}

/// The state after a whole run of framer outcomes, first to last.
pub open spec fn run_state<T, U>(init: StreamState, items: Seq<FramerOutcome<T, U>>) -> StreamState
    decreases items.len(),
{
    if items.len() == 0 {
        init
    } else {
        run_state(next_state(init, items[0]), items.skip(1))
    }
}

/// Termination is absorbing: once the adapter is terminated, it stays
/// terminated over any further run of framer outcomes, so (with `pull`'s
/// contract) every later pull yields "no more items" — never an error,
/// never another event.
pub proof fn lemma_terminated_is_absorbing<T, U>(items: Seq<FramerOutcome<T, U>>)
    ensures
        run_state(StreamState::Terminated, items) is Terminated,
    decreases items.len(),
{
    if items.len() > 0 {
        lemma_terminated_is_absorbing::<T, U>(items.skip(1));
    }
}

/// While neither the sentinel nor clean end of input arrives, the adapter
/// stays active: transport errors, encoding errors and ordinary records never
/// terminate the stream, however many of them a run holds.
pub proof fn lemma_errors_do_not_terminate<T, U>(items: Seq<FramerOutcome<T, U>>)
    requires
        forall|i: int|
            0 <= i < items.len() ==> !((#[trigger] items[i]) is EndOfInput) && !(items[i]
                matches FramerOutcome::Record(p) && p@ == sentinel()),
    ensures
        run_state(StreamState::Active, items) is Active,
    decreases items.len(),
{
    if items.len() > 0 {
        assert(forall|i: int|
            0 <= i < items.skip(1).len() ==> items.skip(1)[i] == items[i + 1]);
        lemma_errors_do_not_terminate::<T, U>(items.skip(1));
    }
}

/// A record whose whole payload is the sentinel, and clean end of input, are
/// the only framer outcomes that terminate an active adapter; errors and
/// ordinary records leave it active.
pub proof fn lemma_active_transitions<T, U>(item: FramerOutcome<T, U>)
    ensures
        next_state(StreamState::Active, item) is Terminated <==> (item is EndOfInput || (
        item matches FramerOutcome::Record(p) && p@ == sentinel())),
{
}

} // verus!
