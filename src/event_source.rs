use crate::error::{is_retryable, CannotCloneRequestError, Error};
use crate::response::{check_response, header_bytes, rejection, response_accepted};
use crate::retry::{
    default_should_retry, delay_at, history_after, lemma_backoff_retry_bound,
    lemma_constant_retry_bound, next_retry, Constant, Duration, ExponentialBackoff, RetryPolicy,
};
use vstd::prelude::*;

verus! {

/// The coarse connection phase of an [`EventSource`].
#[derive(Debug, Clone, Copy, PartialEq, Eq, PartialOrd, Ord, Structural)]
pub enum ReadyState {
    /// A request or a retry delay is outstanding.
    Connecting,
    /// A validated response's body is being read as events.
    Open,
    /// No further activity: the stream has ended.
    Closed,
}

/// An event read from the response body.
#[derive(Debug, Clone, PartialEq, Eq)]
pub struct MessageEvent {
    pub event: String,
    pub data: String,
    pub id: String,
    /// The reconnection time that the server advertised with this event.
    pub retry: Option<Duration>,
}

/// What the stream yields to its consumer.
#[derive(Debug, Clone, PartialEq, Eq)]
pub enum Event {
    /// The connection has been established.
    Open,
    /// An event was received.
    Message(MessageEvent),
}

impl Event {
    pub fn from_message(event: MessageEvent) -> (r: Event)
        ensures
            r == Event::Message(event),
    {
        Event::Message(event)
    }
}

/// The one sub-operation that the stream is waiting on.
#[derive(Debug, Clone, Copy, PartialEq, Eq, Structural)]
pub enum Pending {
    /// Nothing: the stream is closed.
    Idle,
    /// A request has been sent and its response is awaited.
    Request,
    /// The body of an accepted response is being read.
    Stream,
    /// A retry is scheduled after this delay.
    Delay(Duration),
}

/// The reconnecting event stream: which sub-operation is outstanding, whether
/// the stream is closed, the retry policy, the last event id received and the
/// history of retries since the last accepted response.
pub struct EventSource<P> {
    pending: Pending,
    is_closed: bool,
    retry_policy: P,
    last_event_id: String,
    last_retry: Option<(usize, Duration)>,
}

/// The abstract state of an [`EventSource`].
pub struct EventSourceView<P> {
    pub pending: Pending,
    pub closed: bool,
    pub policy: P,
    pub last_event_id: Seq<char>,
    pub last_retry: Option<(usize, Duration)>,
}

impl<P> View for EventSource<P> {
    type V = EventSourceView<P>;

    closed spec fn view(&self) -> EventSourceView<P> {
        EventSourceView {
            pending: self.pending,
            closed: self.is_closed,
            policy: self.retry_policy,
            last_event_id: self.last_event_id@,
            last_retry: self.last_retry,
        }
    }
}

/// A stream that has just sent its first request.
pub open spec fn initial<P>(policy: P) -> EventSourceView<P> {
    EventSourceView {
        pending: Pending::Request,
        closed: false,
        policy,
        last_event_id: Seq::empty(),
        last_retry: None,
    }
}

/// The invariant of every reachable state: nothing is outstanding only once
/// the stream is closed.
pub open spec fn well_formed<P>(s: EventSourceView<P>) -> bool {
    s.pending is Idle ==> s.closed
}

/// The phase that a state shows to observers.
pub open spec fn ready_state_of<P>(s: EventSourceView<P>) -> ReadyState {
    if s.closed {
        ReadyState::Closed
    } else if s.pending is Delay || s.pending is Request {
        ReadyState::Connecting
    } else {
        ReadyState::Open
    }
}

/// The delay before reconnecting after `error`, or `None` to close: a
/// failure that may not be retried closes the stream whatever the policy.
pub open spec fn failure_decision<P: RetryPolicy>(s: EventSourceView<P>, error: Error) -> Option<
    Duration,
> {
    if is_retryable(error) {
        s.policy.retry_spec(error, s.last_retry)
    } else {
        None
    }
}

/// The state after a failed request or a failed or ended body.
pub open spec fn after_failure<P: RetryPolicy>(s: EventSourceView<P>, error: Error) -> EventSourceView<P> {
    match failure_decision(s, error) {
        Some(d) => EventSourceView {
            pending: Pending::Delay(d),
            last_retry: next_retry(s.last_retry, d),
            ..s
        },
        None => EventSourceView { pending: Pending::Idle, closed: true, ..s },
    }
}

/// The state after a response was accepted: the body is read and the retry
/// history is cleared.
pub open spec fn after_open<P>(s: EventSourceView<P>) -> EventSourceView<P> {
    EventSourceView { pending: Pending::Stream, last_retry: None, ..s }
}

/// The state after a response was refused.
pub open spec fn after_rejection<P>(s: EventSourceView<P>) -> EventSourceView<P> {
    EventSourceView { pending: Pending::Idle, closed: true, ..s }
}

/// The state after an event was received: a non-empty id replaces the last
/// event id, and an advertised reconnection time is handed to the policy.
pub open spec fn after_event<P: RetryPolicy>(s: EventSourceView<P>, event: MessageEvent) -> EventSourceView<P> {
    EventSourceView {
        last_event_id: if event.id@.len() > 0 {
            event.id@
        } else {
            s.last_event_id
        },
        policy: match event.retry {
            Some(t) => s.policy.reconnection_time_spec(t),
            None => s.policy,
        },
        ..s
    }
}

/// The resumption header that a reconnection carries: the last event id,
/// once one has been received.
pub open spec fn resume_header(last_event_id: Seq<char>) -> Option<Seq<char>> {
    if last_event_id.len() == 0 {
        None
    } else {
        Some(last_event_id)
    }
}

/// Whether a string may be sent as a header value: each character is a tab,
/// or is at least a space and not DEL.
pub open spec fn is_header_text(text: Seq<char>) -> bool {
    forall|i: int|
        0 <= i < text.len() ==> (#[trigger] text[i] == '\t' || (text[i] as u32 >= 32 && text[i] as u32
            != 127))
}

/// Relies on `reqwest::header::HeaderValue::from_str`, which accepts a string
/// exactly when each of its UTF-8 bytes is a tab, or at least 32 and not 127.
#[verifier::external_body]
fn is_header_value(text: &str) -> (r: bool)
    ensures
        r == is_header_text(text@),
{
    reqwest::header::HeaderValue::from_str(text).is_ok()
}

/// The text of an optional string.
pub open spec fn opt_text(s: Option<String>) -> Option<Seq<char>> {
    match s {
        Some(t) => Some(t@),
        None => None,
    }
}

/// A failure that may not be retried closes the stream at once, whatever the
/// policy and the retry history, and so does a refused response; once closed,
/// a stream stays closed.
pub proof fn lemma_fatal_errors_close<P: RetryPolicy>(
    s: EventSourceView<P>,
    error: Error,
    event: MessageEvent,
)
    requires
        !is_retryable(error),
    ensures
        failure_decision(s, error) is None,
        after_failure(s, error).closed,
        ready_state_of(after_failure(s, error)) == ReadyState::Closed,
        after_rejection(s).closed,
        s.closed ==> after_failure(s, Error::StreamEnded).closed && after_open(s).closed
            && after_event(s, event).closed && after_rejection(s).closed,
{
}

/// An accepted response clears the retry history: the next failure is
/// decided as the policy decides a first failure, and is recorded as the
/// first retry.
pub proof fn lemma_reconnect_resets_backoff<P: RetryPolicy>(
    s: EventSourceView<P>,
    error: Error,
    event: MessageEvent,
)
    ensures
        after_event(after_open(s), event).last_retry is None,
        failure_decision(after_event(after_open(s), event), error) == (if is_retryable(error) {
            after_event(after_open(s), event).policy.retry_spec(error, None)
        } else {
            None
        }),
        failure_decision(after_open(s), error) == (if is_retryable(error) {
            s.policy.retry_spec(error, None)
        } else {
            None
        }),
        failure_decision(after_open(s), error) matches Some(d) ==> after_failure(
            after_open(s),
            error,
        ).last_retry == Some((1usize, d)),
{
}

/// An event with a non-empty id sets the resumption header of every later
/// reconnection, through failures and retries, and a later event with an
/// empty id leaves it in place.
pub proof fn lemma_last_event_id_persists<P: RetryPolicy>(
    s: EventSourceView<P>,
    event: MessageEvent,
    error: Error,
    later: MessageEvent,
)
    requires
        event.id@.len() > 0,
        later.id@.len() == 0,
    ensures
        after_failure(after_event(s, event), error).last_event_id == event.id@,
        resume_header(after_failure(after_event(s, event), error).last_event_id) == Some(
            event.id@,
        ),
        after_event(after_event(s, event), later).last_event_id == event.id@,
{
}

/// The state after `k` consecutive failures with `error` and nothing between
/// them.
pub open spec fn after_failures<P: RetryPolicy>(s: EventSourceView<P>, error: Error, k: nat) -> EventSourceView<P>
    decreases k,
{
    if k == 0 {
        s
    } else {
        after_failure(after_failures(s, error, (k - 1) as nat), error)
    }
}

proof fn lemma_failures_follow_policy<P: RetryPolicy>(s: EventSourceView<P>, error: Error, k: nat)
    requires
        is_retryable(error),
        !s.closed,
        s.last_retry is None,
        forall|j: nat| j < k ==> (#[trigger] delay_at(s.policy, error, j)) is Some,
    ensures
        after_failures(s, error, k).last_retry == history_after(s.policy, error, k),
        after_failures(s, error, k).policy == s.policy,
        !after_failures(s, error, k).closed,
        k > 0 ==> after_failures(s, error, k).pending == Pending::Delay(
            delay_at(s.policy, error, (k - 1) as nat)->0,
        ),
    decreases k,
{
    if k > 0 {
        let j = (k - 1) as nat;
        lemma_failures_follow_policy(s, error, j);
        assert(delay_at(s.policy, error, j) is Some);
    }
}

proof fn lemma_stream_retry_bound<P: RetryPolicy>(s: EventSourceView<P>, error: Error, n: nat)
    requires
        is_retryable(error),
        !s.closed,
        s.last_retry is None,
        forall|j: nat| j < n ==> (#[trigger] delay_at(s.policy, error, j)) is Some,
        delay_at(s.policy, error, n) is None,
    ensures
        forall|k: nat|
            1 <= k <= n ==> !(#[trigger] after_failures(s, error, k)).closed && after_failures(
                s,
                error,
                k,
            ).pending is Delay,
        after_failures(s, error, (n + 1) as nat).closed,
{
    assert forall|k: nat| 1 <= k <= n implies !(#[trigger] after_failures(s, error, k)).closed
        && after_failures(s, error, k).pending is Delay by {
        lemma_failures_follow_policy(s, error, k);
    }
    lemma_failures_follow_policy(s, error, n);
    assert(after_failures(s, error, n + 1) == after_failure(after_failures(s, error, n), error));
}

/// With a constant policy bounded by `max_retries = Some(n)`, the stream
/// retries each of the first `n` consecutive failures after a connection (it
/// stays open to a reconnection, with a delay scheduled) and closes on the
/// failure after them.
pub proof fn lemma_constant_stream_retry_bound(
    s: EventSourceView<Constant>,
    error: Error,
    n: usize,
)
    requires
        is_retryable(error),
        !s.closed,
        s.last_retry is None,
        s.policy.max_retries == Some(n),
    ensures
        forall|k: nat|
            1 <= k <= n ==> !(#[trigger] after_failures(s, error, k)).closed && after_failures(
                s,
                error,
                k,
            ).pending is Delay,
        after_failures(s, error, (n + 1) as nat).closed,
{
    assert forall|j: nat| j < n implies (#[trigger] delay_at(s.policy, error, j)) is Some by {
        lemma_constant_retry_bound(s.policy, error, n, j);
    }
    lemma_constant_retry_bound(s.policy, error, n, n as nat);
    lemma_stream_retry_bound(s, error, n as nat);
}

/// With exponential backoff bounded by `max_retries = Some(n)`, the stream
/// retries each of the first `n` consecutive failures after a connection and
/// closes on the failure after them.
pub proof fn lemma_backoff_stream_retry_bound(
    s: EventSourceView<ExponentialBackoff>,
    error: Error,
    n: usize,
)
    requires
        is_retryable(error),
        !s.closed,
        s.last_retry is None,
        s.policy.max_retries == Some(n),
    ensures
        forall|k: nat|
            1 <= k <= n ==> !(#[trigger] after_failures(s, error, k)).closed && after_failures(
                s,
                error,
                k,
            ).pending is Delay,
        after_failures(s, error, (n + 1) as nat).closed,
{
    assert forall|j: nat| j < n implies (#[trigger] delay_at(s.policy, error, j)) is Some by {
        lemma_backoff_retry_bound(s.policy, error, n, j);
    }
    lemma_backoff_retry_bound(s.policy, error, n, n as nat);
    lemma_stream_retry_bound(s, error, n as nat);
}

/// In every reachable state the phase is exact: Closed exactly when closed,
/// else Connecting exactly while a delay or a request is outstanding, and Open
/// exactly while a body is read.
pub proof fn lemma_ready_state_exact<P>(s: EventSourceView<P>)
    requires
        well_formed(s),
    ensures
        ready_state_of(s) == ReadyState::Closed <==> s.closed,
        ready_state_of(s) == ReadyState::Connecting <==> !s.closed && (s.pending is Delay
            || s.pending is Request),
        ready_state_of(s) == ReadyState::Open <==> !s.closed && s.pending is Stream,
{
}

impl EventSource<ExponentialBackoff> {
    /// A stream whose first request has been sent, with the default
    /// exponential backoff; fails when the request cannot be duplicated for
    /// later reconnections.
    pub fn new(request_cloneable: bool) -> (r: Result<Self, CannotCloneRequestError>)
        ensures
            match r {
                Ok(es) => request_cloneable && es@ == initial(ExponentialBackoff::default_spec())
                    && well_formed(es@),
                Err(_) => !request_cloneable,
            },
    {
        if !request_cloneable {
            return Err(CannotCloneRequestError);
        }
        Ok(EventSource {
            pending: Pending::Request,
            is_closed: false,
            retry_policy: ExponentialBackoff::default(),
            last_event_id: String::new(),
            last_retry: None,
        })
    }
}

impl<P: RetryPolicy> EventSource<P> {
    /// The same stream, governed by another retry policy.
    pub fn with_retry_policy<Q: RetryPolicy>(self, policy: Q) -> (r: EventSource<Q>)
        ensures
            r@ == (EventSourceView {
                pending: self@.pending,
                closed: self@.closed,
                policy,
                last_event_id: self@.last_event_id,
                last_retry: self@.last_retry,
            }),
            well_formed(self@) ==> well_formed(r@),
    {
        EventSource {
            pending: self.pending,
            is_closed: self.is_closed,
            retry_policy: policy,
            last_event_id: self.last_event_id,
            last_retry: self.last_retry,
        }
    }

    /// Closes the stream and stops reconnecting.
    pub fn close(&mut self)
        ensures
            final(self)@ == (EventSourceView { closed: true, ..old(self)@ }),
            well_formed(final(self)@),
    {
        self.is_closed = true;
    }

    pub fn set_retry_policy(&mut self, policy: P)
        ensures
            final(self)@ == (EventSourceView { policy, ..old(self)@ }),
            well_formed(old(self)@) ==> well_formed(final(self)@),
    {
        self.retry_policy = policy;
    }

    pub fn last_event_id(&self) -> (r: &str)
        ensures
            r@ == self@.last_event_id,
    {
        self.last_event_id.as_str()
    }

    pub fn ready_state(&self) -> (r: ReadyState)
        ensures
            r == ready_state_of(self@),
            well_formed(self@) ==> (r == ReadyState::Open <==> !self@.closed && self@.pending is Stream),
    {
        if self.is_closed {
            ReadyState::Closed
        } else if matches!(self.pending, Pending::Delay(_)) || matches!(self.pending, Pending::Request) {
            ReadyState::Connecting
        } else {
            ReadyState::Open
        }
    }

    pub fn is_closed(&self) -> (r: bool)
        ensures
            r == self@.closed,
    {
        self.is_closed
    }

    /// The sub-operation that the stream waits on.
    pub fn pending(&self) -> (r: Pending)
        ensures
            r == self@.pending,
    {
        self.pending
    }

    /// The history of retries since the last accepted response.
    pub fn last_retry(&self) -> (r: Option<(usize, Duration)>)
        ensures
            r == self@.last_retry,
    {
        self.last_retry
    }

    /// Abandons an outstanding request or response body; a scheduled delay
    /// is kept.
    fn clear_fetch(&mut self)
        ensures
            final(self)@ == (if old(self)@.pending is Delay {
                old(self)@
            } else {
                EventSourceView { pending: Pending::Idle, ..old(self)@ }
            }),
    {
        if !matches!(self.pending, Pending::Delay(_)) {
            self.pending = Pending::Idle;
        }
    }

    /// The retry delay has elapsed: the request is sent again, with the
    /// resumption header that this returns; if the last event id cannot be a
    /// header value, the stream closes with that error instead.
    pub fn retry_fetch(&mut self) -> (r: Result<Option<String>, Error>)
        requires
            !old(self)@.closed,
            old(self)@.pending is Delay,
        ensures
            match r {
                Ok(header) => {
                    &&& is_header_text(old(self)@.last_event_id)
                    &&& opt_text(header) == resume_header(old(self)@.last_event_id)
                    &&& final(self)@ == (EventSourceView { pending: Pending::Request, ..old(self)@ })
                },
                Err(e) => {
                    &&& !is_header_text(old(self)@.last_event_id)
                    &&& e matches Error::InvalidLastEventId(id) && id@ == old(self)@.last_event_id
                    &&& final(self)@ == after_rejection(old(self)@)
                },
            },
            well_formed(final(self)@),
    {
        if !is_header_value(self.last_event_id.as_str()) {
            self.pending = Pending::Idle;
            self.is_closed = true;
            return Err(Error::InvalidLastEventId(self.last_event_id.clone()));
        }
        self.pending = Pending::Request;
        if self.last_event_id.as_str().is_empty() {
            Ok(None)
        } else {
            Ok(Some(self.last_event_id.clone()))
        }
    }

    /// A response has arrived with this status and content-type header: it
    /// opens the event stream if it is acceptable, else the stream closes
    /// with the reason.
    pub fn handle_response(&mut self, status: u16, content_type: Option<&Vec<u8>>) -> (r: Result<
        Event,
        Error,
    >)
        requires
            !old(self)@.closed,
            old(self)@.pending is Request,
        ensures
            match r {
                Ok(event) => {
                    &&& response_accepted(status, header_bytes(content_type))
                    &&& event == Event::Open
                    &&& final(self)@ == after_open(old(self)@)
                },
                Err(e) => {
                    &&& !response_accepted(status, header_bytes(content_type))
                    &&& rejection(status, header_bytes(content_type), e)
                    &&& final(self)@ == after_rejection(old(self)@)
                },
            },
            well_formed(final(self)@),
    {
        match check_response(status, content_type) {
            Ok(()) => {
                self.last_retry = None;
                self.pending = Pending::Stream;
                Ok(Event::Open)
            },
            Err(e) => {
                self.clear_fetch();
                self.is_closed = true;
                Err(e)
            },
        }
    }

    /// An event was read from the body: it is passed on, after its id and
    /// advertised reconnection time are recorded.
    pub fn handle_event(&mut self, event: MessageEvent) -> (r: Result<Event, Error>)
        requires
            !old(self)@.closed,
            old(self)@.pending is Stream,
        ensures
            r == Ok::<Event, Error>(Event::Message(event)),
            final(self)@ == after_event(old(self)@, event),
            well_formed(final(self)@),
    {
        if !event.id.as_str().is_empty() {
            self.last_event_id = event.id.clone();
        }
        if let Some(t) = event.retry {
            self.retry_policy.set_reconnection_time(t);
        }
        Ok(Event::from_message(event))
    }

    /// The request or the body failed with `error`: a retry is scheduled if
    /// the error and the policy allow one, else the stream closes. The error
    /// is passed on either way.
    pub fn handle_error(&mut self, error: Error) -> (r: Result<Event, Error>)
        requires
            !old(self)@.closed,
            old(self)@.pending is Request || old(self)@.pending is Stream,
        ensures
            r == Err::<Event, Error>(error),
            final(self)@ == after_failure(old(self)@, error),
            well_formed(final(self)@),
    {
        self.clear_fetch();
        let decision = if default_should_retry(&error) {
            self.retry_policy.retry(&error, self.last_retry)
        } else {
            None
        };
        match decision {
            Some(d) => {
                let n: usize = match self.last_retry {
                    Some((n, _)) => n,
                    None => 0,
                };
                let count: usize = if n < usize::MAX {
                    n + 1
                } else {
                    n
                };
                self.last_retry = Some((count, d));
                self.pending = Pending::Delay(d);
            },
            None => {
                self.is_closed = true;
            },
        }
        Err(error)
    }

    /// The server ended the body: handled as a failure that may be retried.
    pub fn handle_stream_end(&mut self) -> (r: Result<Event, Error>)
        requires
            !old(self)@.closed,
            old(self)@.pending is Stream,
        ensures
            r == Err::<Event, Error>(Error::StreamEnded),
            final(self)@ == after_failure(old(self)@, Error::StreamEnded),
            well_formed(final(self)@),
    {
        self.handle_error(Error::StreamEnded)
    }
}

} // verus!
