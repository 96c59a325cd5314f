use vstd::prelude::*;

use crate::backoff::{delay_of, Backoff};
use crate::decoder::{decode, decode_spec, lemma_decoded_ticks_valid, valid_tick, Decoded, DecodedView, Tick, TickView};
use crate::error::{ClientError, DecodeFailure};
use crate::frames::{
    is_valid_url, ping_frame, ping_frame_of, stream_url, stream_url_of, subscribe_frame,
    subscribe_frame_of, url_valid,
};
use crate::json::json_of;

verus! {

/// Where a session stands.
#[derive(PartialEq, Eq, Structural, Clone, Copy, Debug)]
pub enum Phase {
    Disconnected,
    /// Acquiring a credential or opening the transport.
    Connecting,
    /// Connected; the welcome frame is expected next.
    HandshakePending,
    /// Subscription sent; its acknowledgment is expected next.
    Subscribing,
    Subscribed,
    /// Reconnection exhausted, or the auth endpoint broke its contract.
    Terminated,
    /// Shut down by the host.
    Closed,
}

/// What happened outside the session.
#[derive(Debug)]
pub enum Event {
    /// The host starts the session.
    Start,
    TokenAcquired(String),
    AuthFailed(ClientError),
    Connected,
    /// Opening the transport failed; `auth_rejected` when the credential was refused.
    ConnectFailed { auth_rejected: bool },
    /// A text frame arrived.
    Frame(String),
    /// Reading from or writing to the transport failed, or it was closed.
    ReadFailed,
    HandshakeTimedOut,
    /// A keepalive interval has elapsed.
    KeepaliveDue,
    /// The last requested wait is over.
    BackoffElapsed,
    Shutdown,
}

pub enum EventView {
    Start,
    TokenAcquired(Seq<char>),
    AuthFailed(ClientError),
    Connected,
    ConnectFailed { auth_rejected: bool },
    Frame(Seq<char>),
    ReadFailed,
    HandshakeTimedOut,
    KeepaliveDue,
    BackoffElapsed,
    Shutdown,
}

impl View for Event {
    type V = EventView;

    open spec fn view(&self) -> EventView {
        match self {
            Event::Start => EventView::Start,
            Event::TokenAcquired(t) => EventView::TokenAcquired(t@),
            Event::AuthFailed(e) => EventView::AuthFailed(*e),
            Event::Connected => EventView::Connected,
            Event::ConnectFailed { auth_rejected } => EventView::ConnectFailed { auth_rejected: *auth_rejected },
            Event::Frame(f) => EventView::Frame(f@),
            Event::ReadFailed => EventView::ReadFailed,
            Event::HandshakeTimedOut => EventView::HandshakeTimedOut,
            Event::KeepaliveDue => EventView::KeepaliveDue,
            Event::BackoffElapsed => EventView::BackoffElapsed,
            Event::Shutdown => EventView::Shutdown,
        }
    }
}

/// What the session asks its driver to do.
#[derive(Debug)]
pub enum Action {
    Nothing,
    /// Request a credential from the auth endpoint.
    AcquireToken,
    /// Open the transport to this URL.
    Connect(String),
    /// Write this text frame.
    Send(String),
    /// Hand this tick to the consumer.
    Emit(Tick),
    /// Log this undecodable frame and go on.
    Skip(DecodeFailure),
    /// Release the transport, wait this many milliseconds, then report `BackoffElapsed`.
    Wait(u64),
    /// Send a close frame and release the transport; the session is over.
    Close,
    /// Release the transport and surface this fatal error.
    Fail(ClientError),
}

pub enum ActionView {
    Nothing,
    AcquireToken,
    Connect(Seq<char>),
    Send(Seq<char>),
    Emit(TickView),
    Skip(DecodeFailure),
    Wait(u64),
    Close,
    Fail(ClientError),
}

impl View for Action {
    type V = ActionView;

    open spec fn view(&self) -> ActionView {
        match self {
            Action::Nothing => ActionView::Nothing,
            Action::AcquireToken => ActionView::AcquireToken,
            Action::Connect(u) => ActionView::Connect(u@),
            Action::Send(f) => ActionView::Send(f@),
            Action::Emit(t) => ActionView::Emit(t@),
            Action::Skip(f) => ActionView::Skip(*f),
            Action::Wait(d) => ActionView::Wait(*d),
            Action::Close => ActionView::Close,
            Action::Fail(e) => ActionView::Fail(*e),
        }
    }
}

/// The streaming session for one market: its phase, its subscription, its
/// credential and its reconnection count.
pub struct Session {
    phase: Phase,
    market: String,
    host: String,
    req: u64,
    backoff: Backoff,
    token: Option<String>,
    failures: u32,
    next_id: u64,
    subscribe_sent: bool,
    unanswered_pings: u32,
}

pub struct SessionView {
    pub phase: Phase,
    /// The market whose topic the session subscribes to.
    pub market: Seq<char>,
    pub host: Seq<char>,
    pub req: u64,
    pub backoff: Backoff,
    pub token: Option<Seq<char>>,
    /// Failed attempts since the session was last subscribed.
    pub failures: u32,
    /// Correlation id of the next request.
    pub next_id: u64,
    /// Whether a subscription was sent on the current transport.
    pub subscribe_sent: bool,
    /// Keepalive requests sent and not yet answered.
    pub unanswered_pings: u32,
}

impl View for Session {
    type V = SessionView;

    closed spec fn view(&self) -> SessionView {
        SessionView {
            phase: self.phase,
            market: self.market@,
            host: self.host@,
            req: self.req,
            backoff: self.backoff,
            token: match self.token {
                Some(t) => Some(t@),
                None => None,
            },
            failures: self.failures,
            next_id: self.next_id,
            subscribe_sent: self.subscribe_sent,
            unanswered_pings: self.unanswered_pings,
        }
    }
}

/// Keepalive requests that may go unanswered before the transport counts as failed.
pub const MAX_UNANSWERED_PINGS: u32 = 2;

/// The invariant of a session.
pub open spec fn wf(v: SessionView) -> bool {
    &&& v.failures <= v.backoff.max_attempts
    &&& (v.phase == Phase::Subscribing || v.phase == Phase::Subscribed) ==> v.subscribe_sent
    &&& v.unanswered_pings <= MAX_UNANSWERED_PINGS
}

pub open spec fn next_id_after(id: u64) -> u64 {
    if id < u64::MAX { (id + 1) as u64 } else { id }
}

/// A transport failure: give up once the attempts are spent, else wait the
/// backoff delay of this attempt and try again.
pub open spec fn failure_spec(v: SessionView) -> (SessionView, ActionView) {
    let reset = SessionView { subscribe_sent: false, unanswered_pings: 0, ..v };
    if v.failures >= v.backoff.max_attempts {
        (SessionView { phase: Phase::Terminated, ..reset }, ActionView::Fail(ClientError::Terminated))
    } else {
        (
            SessionView { phase: Phase::Disconnected, failures: (v.failures + 1) as u32, ..reset },
            ActionView::Wait(
                delay_of(v.backoff.base_delay_ms as nat, v.backoff.max_delay_ms as nat, v.failures as nat) as u64,
            ),
        )
    }
}

/// Connecting with the credential `t`. A credential that makes the streaming
/// URL malformed counts as a failed attempt, and is discarded so that the
/// next attempt acquires a new one.
pub open spec fn connect_with_spec(v: SessionView, t: Seq<char>) -> (SessionView, ActionView) {
    let url = stream_url_of(v.host, t);
    if url_valid(url) {
        (SessionView { phase: Phase::Connecting, token: Some(t), ..v }, ActionView::Connect(url))
    } else {
        failure_spec(SessionView { token: None, ..v })
    }
}

/// Leaving `Disconnected`: connect with the credential at hand, or get one first.
pub open spec fn connect_spec(v: SessionView) -> (SessionView, ActionView) {
    match v.token {
        Some(t) => connect_with_spec(v, t),
        None => (SessionView { phase: Phase::Connecting, ..v }, ActionView::AcquireToken),
    }
}

/// A frame in the phase `v.phase`: the welcome, the subscription's
/// acknowledgment, or a frame of the live stream.
pub open spec fn frame_spec(v: SessionView, text: Seq<char>) -> (SessionView, ActionView) {
    match v.phase {
        Phase::HandshakePending => (
            SessionView { phase: Phase::Subscribing, subscribe_sent: true, next_id: next_id_after(v.next_id), ..v },
            ActionView::Send(subscribe_frame_of(v.next_id as nat, v.market, v.req as nat)),
        ),
        Phase::Subscribing => (
            SessionView { phase: Phase::Subscribed, failures: 0, unanswered_pings: 0, ..v },
            ActionView::Nothing,
        ),
        Phase::Subscribed => match decode_spec(json_of(text)) {
            DecodedView::Tick(t) => (v, ActionView::Emit(t)),
            DecodedView::Ack => (SessionView { unanswered_pings: 0, ..v }, ActionView::Nothing),
            DecodedView::Dropped => (v, ActionView::Nothing),
            DecodedView::Failed(f) => (v, ActionView::Skip(f)),
        },
        _ => (v, ActionView::Nothing),
    }
}

/// Whether the session holds an open transport in phase `p`.
pub open spec fn transport_open(p: Phase) -> bool {
    p == Phase::HandshakePending || p == Phase::Subscribing || p == Phase::Subscribed
}

/// The transition of the session on an event, and the action it asks for.
pub open spec fn step_spec(v: SessionView, e: EventView) -> (SessionView, ActionView) {
    if v.phase == Phase::Terminated || v.phase == Phase::Closed {
        (v, ActionView::Nothing)
    } else {
        match e {
            EventView::Shutdown => (
                SessionView { phase: Phase::Closed, subscribe_sent: false, unanswered_pings: 0, ..v },
                ActionView::Close,
            ),
            EventView::Start | EventView::BackoffElapsed => if v.phase == Phase::Disconnected {
                connect_spec(v)
            } else {
                (v, ActionView::Nothing)
            },
            EventView::TokenAcquired(t) => if v.phase == Phase::Connecting {
                connect_with_spec(v, t)
            } else {
                (v, ActionView::Nothing)
            },
            EventView::AuthFailed(err) => if v.phase != Phase::Connecting {
                (v, ActionView::Nothing)
            } else if err == ClientError::AuthPayloadInvalid {
                (SessionView { phase: Phase::Terminated, ..v }, ActionView::Fail(err))
            } else {
                failure_spec(v)
            },
            EventView::Connected => if v.phase == Phase::Connecting {
                (SessionView { phase: Phase::HandshakePending, ..v }, ActionView::Nothing)
            } else {
                (v, ActionView::Nothing)
            },
            EventView::ConnectFailed { auth_rejected } => if v.phase == Phase::Connecting {
                failure_spec(SessionView { token: if auth_rejected { None } else { v.token }, ..v })
            } else {
                (v, ActionView::Nothing)
            },
            EventView::Frame(text) => frame_spec(v, text),
            EventView::ReadFailed => if transport_open(v.phase) {
                failure_spec(v)
            } else {
                (v, ActionView::Nothing)
            },
            EventView::HandshakeTimedOut => if v.phase == Phase::HandshakePending || v.phase
                == Phase::Subscribing {
                failure_spec(v)
            } else {
                (v, ActionView::Nothing)
            },
            EventView::KeepaliveDue => if v.phase != Phase::Subscribed {
                (v, ActionView::Nothing)
            } else if v.unanswered_pings >= MAX_UNANSWERED_PINGS {
                failure_spec(v)
            } else {
                (
                    SessionView {
                        unanswered_pings: (v.unanswered_pings + 1) as u32,
                        next_id: next_id_after(v.next_id),
                        ..v
                    },
                    ActionView::Send(ping_frame_of(v.next_id as nat)),
                )
            },
        }
    }
}

/// The state after a sequence of events.
pub open spec fn run_spec(v: SessionView, events: Seq<EventView>) -> SessionView
    decreases events.len(),
{
    if events.len() == 0 {
        v
    } else {
        run_spec(step_spec(v, events[0]).0, events.drop_first())
    }
}

/// Every tick that a session hands to its consumer has a price and a volume
/// above zero, the exchange `kucoin` and a non-empty market.
pub proof fn lemma_emitted_ticks_valid(v: SessionView, e: EventView)
    ensures
        step_spec(v, e).1 matches ActionView::Emit(t) ==> valid_tick(t),
{
    if let EventView::Frame(text) = e {
        lemma_decoded_ticks_valid(json_of(text));
    }
}

/// Steps keep the invariant. A tick is emitted only on a transport on which a
/// subscription was sent, and the only step that marks a subscription as sent
/// is the one that sends the subscribe frame for the session's market.
pub proof fn lemma_subscribe_before_emit(v: SessionView, e: EventView)
    requires
        wf(v),
    ensures
        wf(step_spec(v, e).0),
        step_spec(v, e).1 is Emit ==> v.phase == Phase::Subscribed && v.subscribe_sent,
        !v.subscribe_sent && step_spec(v, e).0.subscribe_sent ==> step_spec(v, e).1
            == ActionView::Send(subscribe_frame_of(v.next_id as nat, v.market, v.req as nat)),
{
}

/// The actions a session asks for over a sequence of events, in order.
pub open spec fn trace_spec(v: SessionView, events: Seq<EventView>) -> Seq<ActionView>
    decreases events.len(),
{
    if events.len() == 0 {
        Seq::empty()
    } else {
        seq![step_spec(v, events[0]).1] + trace_spec(step_spec(v, events[0]).0, events.drop_first())
    }
}

/// A request to subscribe to the topic of `market`.
pub open spec fn is_subscribe(a: ActionView, market: Seq<char>, req: u64) -> bool {
    exists|id: nat| a == ActionView::Send(#[trigger] subscribe_frame_of(id, market, req as nat))
}

/// A keepalive request.
pub open spec fn is_ping(a: ActionView) -> bool {
    exists|id: nat| a == ActionView::Send(#[trigger] ping_frame_of(id))
}

proof fn lemma_trace_index(v: SessionView, events: Seq<EventView>, j: int)
    requires
        events.len() > 0,
        0 < j < trace_spec(v, events).len(),
    ensures
        trace_spec(v, events).len() == events.len(),
        trace_spec(v, events)[j] == trace_spec(step_spec(v, events[0]).0, events.drop_first())[j - 1],
        trace_spec(v, events)[0] == step_spec(v, events[0]).1,
{
    lemma_trace_len(v, events);
}

proof fn lemma_trace_len(v: SessionView, events: Seq<EventView>)
    ensures
        trace_spec(v, events).len() == events.len(),
    decreases events.len(),
{
    if events.len() > 0 {
        lemma_trace_len(step_spec(v, events[0]).0, events.drop_first());
    }
}

proof fn lemma_emit_has_subscription(v: SessionView, events: Seq<EventView>, j: int)
    requires
        wf(v),
        0 <= j < trace_spec(v, events).len(),
        trace_spec(v, events)[j] is Emit,
    ensures
        v.subscribe_sent || exists|i: int|
            0 <= i < j && is_subscribe(#[trigger] trace_spec(v, events)[i], v.market, v.req),
    decreases events.len(),
{
    lemma_trace_len(v, events);
    let w = step_spec(v, events[0]).0;
    let rest = events.drop_first();
    lemma_subscribe_before_emit(v, events[0]);
    if j == 0 {
        assert(trace_spec(v, events)[0] == step_spec(v, events[0]).1);
    } else {
        lemma_trace_index(v, events, j);
        lemma_emit_has_subscription(w, rest, j - 1);
        lemma_subscription_kept(v, seq![events[0]]);
        assert(seq![events[0]].drop_first() =~= Seq::<EventView>::empty());
        if exists|i: int| 0 <= i < j - 1 && is_subscribe(#[trigger] trace_spec(w, rest)[i], w.market, w.req) {
            let i = choose|i: int| 0 <= i < j - 1 && is_subscribe(#[trigger] trace_spec(w, rest)[i], w.market, w.req);
            lemma_trace_index(v, events, i + 1);
            assert(is_subscribe(trace_spec(v, events)[i + 1], v.market, v.req));
        } else if !v.subscribe_sent {
            assert(trace_spec(v, events)[0] == step_spec(v, events[0]).1);
            assert(is_subscribe(trace_spec(v, events)[0], v.market, v.req));
        }
    }
}

/// A session that has not yet subscribed emits a tick only after it has sent
/// a subscription for its market.
pub proof fn lemma_subscription_precedes_ticks(v: SessionView, events: Seq<EventView>, j: int)
    requires
        wf(v),
        !v.subscribe_sent,
        0 <= j < trace_spec(v, events).len(),
        trace_spec(v, events)[j] is Emit,
    ensures
        exists|i: int| 0 <= i < j && is_subscribe(#[trigger] trace_spec(v, events)[i], v.market, v.req),
{
    lemma_emit_has_subscription(v, events, j);
}

/// No event changes what a session subscribes to: after any run of events,
/// transport failures and reconnects included, the market, and with it the
/// subscription topic, is the one the session began with.
pub proof fn lemma_subscription_kept(v: SessionView, events: Seq<EventView>)
    ensures
        run_spec(v, events).market == v.market,
        run_spec(v, events).req == v.req,
        run_spec(v, events).host == v.host,
    decreases events.len(),
{
    if events.len() > 0 {
        lemma_subscription_kept(step_spec(v, events[0]).0, events.drop_first());
    }
}

/// Every frame a session sends, across any failures and reconnects, is a
/// keepalive request or a subscription to the topic of the market it began
/// with.
pub proof fn lemma_every_subscription_same(v: SessionView, events: Seq<EventView>, j: int)
    requires
        0 <= j < trace_spec(v, events).len(),
        trace_spec(v, events)[j] is Send,
    ensures
        is_subscribe(trace_spec(v, events)[j], v.market, v.req) || is_ping(trace_spec(v, events)[j]),
    decreases events.len(),
{
    lemma_trace_len(v, events);
    let w = step_spec(v, events[0]).0;
    if j == 0 {
        let a = step_spec(v, events[0]).1;
        assert(trace_spec(v, events)[0] == a);
        if let EventView::Frame(_) = events[0] {
            if v.phase == Phase::HandshakePending {
                assert(a == ActionView::Send(subscribe_frame_of(v.next_id as nat, v.market, v.req as nat)));
            }
        }
        if let EventView::KeepaliveDue = events[0] {
            assert(a is Send ==> a == ActionView::Send(ping_frame_of(v.next_id as nat)));
        }
    } else {
        lemma_trace_index(v, events, j);
        lemma_every_subscription_same(w, events.drop_first(), j - 1);
        lemma_subscription_kept(v, seq![events[0]]);
        assert(seq![events[0]].drop_first() =~= Seq::<EventView>::empty());
    }
}

/// After a failure the session waits `min(base · 2^k, max)` before attempt
/// `k`, counted from zero, and it gives up once `max_attempts` attempts have
/// failed.
pub proof fn lemma_backoff_schedule(v: SessionView, e: EventView)
    requires
        wf(v),
    ensures
        step_spec(v, e).1 matches ActionView::Wait(d) ==> {
            &&& d as nat == delay_of(
                v.backoff.base_delay_ms as nat,
                v.backoff.max_delay_ms as nat,
                v.failures as nat,
            )
            &&& step_spec(v, e).0.failures == v.failures + 1
            &&& step_spec(v, e).0.failures <= v.backoff.max_attempts
        },
        step_spec(v, e).1 == ActionView::Fail(ClientError::Terminated) ==> v.failures
            == v.backoff.max_attempts,
{
}

impl Session {
    /// A disconnected session for `market`, streaming from `host`, that sends
    /// `req` in its subscription and reconnects as `backoff` says.
    pub fn new(market: String, host: String, req: u64, backoff: Backoff) -> (r: Session)
        ensures
            r@.phase == Phase::Disconnected,
            r@.market == market@,
            r@.host == host@,
            r@.req == req,
            r@.backoff == backoff,
            r@.token is None,
            r@.failures == 0,
            r@.next_id == 1,
            !r@.subscribe_sent,
            r@.unanswered_pings == 0,
            wf(r@),
    {
        Session {
            phase: Phase::Disconnected,
            market,
            host,
            req,
            backoff,
            token: None,
            failures: 0,
            next_id: 1,
            subscribe_sent: false,
            unanswered_pings: 0,
        }
    }

    pub fn phase(&self) -> (r: Phase)
        ensures
            r == self@.phase,
    {
        self.phase
    }

    /// Whether the session has ended, by exhaustion or by shutdown.
    pub fn is_finished(&self) -> (r: bool)
        ensures
            r == (self@.phase == Phase::Terminated || self@.phase == Phase::Closed),
    {
        self.phase == Phase::Terminated || self.phase == Phase::Closed
    }

    fn fail(&mut self) -> (r: Action)
        ensures
            (final(self)@, r@) == failure_spec(old(self)@),
    {
        self.subscribe_sent = false;
        self.unanswered_pings = 0;
        if self.failures >= self.backoff.max_attempts {
            self.phase = Phase::Terminated;
            Action::Fail(ClientError::Terminated)
        } else {
            let d = self.backoff.delay_ms(self.failures);
            self.failures = self.failures + 1;
            self.phase = Phase::Disconnected;
            Action::Wait(d)
        }
    }

    fn connect_with(&mut self, t: String) -> (r: Action)
        ensures
            (final(self)@, r@) == connect_with_spec(old(self)@, t@),
    {
        let url = stream_url(self.host.as_str(), t.as_str());
        if is_valid_url(url.as_str()) {
            self.phase = Phase::Connecting;
            self.token = Some(t);
            Action::Connect(url)
        } else {
            self.token = None;
            self.fail()
        }
    }

    fn take_id(&mut self) -> (r: u64)
        ensures
            r == old(self).next_id,
            final(self)@ == (SessionView { next_id: next_id_after(old(self)@.next_id), ..old(self)@ }),
    {
        let id = self.next_id;
        if self.next_id < u64::MAX {
            self.next_id = self.next_id + 1;
        }
        id
    }

    fn on_frame(&mut self, text: &str) -> (r: Action)
        ensures
            (final(self)@, r@) == frame_spec(old(self)@, text@),
    {
        match self.phase {
            Phase::HandshakePending => {
                let id = self.take_id();
                self.phase = Phase::Subscribing;
                self.subscribe_sent = true;
                Action::Send(subscribe_frame(id, self.market.as_str(), self.req))
            },
            Phase::Subscribing => {
                self.phase = Phase::Subscribed;
                self.failures = 0;
                self.unanswered_pings = 0;
                Action::Nothing
            },
            Phase::Subscribed => match decode(text) {
                Decoded::Tick(t) => Action::Emit(t),
                Decoded::Ack => {
                    self.unanswered_pings = 0;
                    Action::Nothing
                },
                Decoded::Dropped => Action::Nothing,
                Decoded::Failed(f) => Action::Skip(f),
            },
            _ => Action::Nothing,
        }
    }

    /// Advances the session by one event and returns what its driver must do.
    pub fn step(&mut self, event: Event) -> (r: Action)
        ensures
            (final(self)@, r@) == step_spec(old(self)@, event@),
    {
        if self.phase == Phase::Terminated || self.phase == Phase::Closed {
            return Action::Nothing;
        }
        match event {
            Event::Shutdown => {
                self.phase = Phase::Closed;
                self.subscribe_sent = false;
                self.unanswered_pings = 0;
                Action::Close
            },
            Event::Start | Event::BackoffElapsed => {
                if self.phase != Phase::Disconnected {
                    return Action::Nothing;
                }
                match &self.token {
                    Some(t) => {
                        let t = t.clone();
                        self.connect_with(t)
                    },
                    None => {
                        self.phase = Phase::Connecting;
                        Action::AcquireToken
                    },
                }
            },
            Event::TokenAcquired(t) => {
                if self.phase != Phase::Connecting {
                    return Action::Nothing;
                }
                self.connect_with(t)
            },
            Event::AuthFailed(err) => {
                if self.phase != Phase::Connecting {
                    Action::Nothing
                } else if err == ClientError::AuthPayloadInvalid {
                    self.phase = Phase::Terminated;
                    Action::Fail(err)
                } else {
                    self.fail()
                }
            },
            Event::Connected => {
                if self.phase == Phase::Connecting {
                    self.phase = Phase::HandshakePending;
                }
                Action::Nothing
            },
            Event::ConnectFailed { auth_rejected } => {
                if self.phase != Phase::Connecting {
                    return Action::Nothing;
                }
                if auth_rejected {
                    self.token = None;
                }
                self.fail()
            },
            Event::Frame(text) => self.on_frame(text.as_str()),
            Event::ReadFailed => {
                if self.phase == Phase::HandshakePending || self.phase == Phase::Subscribing
                    || self.phase == Phase::Subscribed {
                    self.fail()
                } else {
                    Action::Nothing
                }
            },
            Event::HandshakeTimedOut => {
                if self.phase == Phase::HandshakePending || self.phase == Phase::Subscribing {
                    self.fail()
                } else {
                    Action::Nothing
                }
            },
            Event::KeepaliveDue => {
                if self.phase != Phase::Subscribed {
                    Action::Nothing
                } else if self.unanswered_pings >= MAX_UNANSWERED_PINGS {
                    self.fail()
                } else {
                    let id = self.take_id();
                    self.unanswered_pings = self.unanswered_pings + 1;
                    Action::Send(ping_frame(id))
                }
            },
        }
    }
}

} // verus!
