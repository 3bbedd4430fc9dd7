//! Bringing a session up: a connection, then a handshake within its own budget.

use vstd::prelude::*;

use crate::clock::{self, Duration, Instant};
use crate::psk_link::session::TlsFault;
use crate::streamer::link::PollInterest;
use crate::streamer::netpoll::Readiness;
use crate::text::{self, push_decimal, push_text};

verus! {

/// Milliseconds a connection may take. It fails fast where the host cannot be
/// reached.
pub const DEFAULT_CONNECT_TIMEOUT_MS: u64 = 300;

/// Milliseconds a handshake may take, counted from the connected socket.
pub const DEFAULT_HANDSHAKE_TIMEOUT_MS: u64 = 1000;

/// Why no session came up. `K` is the kind of an error of the system.
#[derive(Debug, PartialEq, Eq)]
pub enum ConnectError<K> {
    /// The connection failed.
    Tcp {
        /// The error's kind.
        kind: K,
        /// Milliseconds that had passed.
        after_ms: u64,
        /// What the system said.
        detail: String,
    },
    /// The socket could not be made non-blocking.
    NonBlocking {
        /// The error's kind.
        kind: K,
        /// What the system said.
        detail: String,
    },
    /// There is no TLS context.
    Context {
        /// What the TLS library said.
        detail: String,
    },
    /// There is no TLS session.
    Session {
        /// What the TLS library said.
        detail: String,
    },
    /// The session does not take the socket.
    Stream {
        /// What the TLS library said.
        detail: String,
    },
    /// The handshake failed.
    Handshake {
        /// The kind of the system's error beneath it, if there is one.
        kind: Option<K>,
        /// What was said of it.
        detail: String,
    },
    /// The handshake ran out of time.
    HandshakeTimeout {
        /// Milliseconds it was given.
        within_ms: u128,
    },
    /// The socket died during the handshake.
    SocketFault {
        /// What the wait said, in the debug form of an error.
        detail: String,
    },
}

/// The kind that a caller sorts an error by.
#[derive(Debug, Clone, Copy, PartialEq, Eq)]
pub enum FaultKind<K> {
    /// The system's own kind.
    System(K),
    /// Out of time.
    TimedOut,
    /// None of the system's.
    Unsorted,
}

/// The kind of an error: the system's own wherever the system said one.
pub open spec fn kind_of<K>(e: ConnectError<K>) -> FaultKind<K> {
    match e {
        ConnectError::Tcp { kind, .. } => FaultKind::System(kind),
        ConnectError::NonBlocking { kind, .. } => FaultKind::System(kind),
        ConnectError::Handshake { kind: Some(kind), .. } => FaultKind::System(kind),
        ConnectError::HandshakeTimeout { .. } => FaultKind::TimedOut,
        _ => FaultKind::Unsorted,
    }
}

/// The error as operators read it. It names the stage that failed.
pub open spec fn connect_error_text<K>(e: ConnectError<K>, peer: Seq<char>) -> Seq<char> {
    match e {
        ConnectError::Tcp { after_ms, detail, .. } => "tcp connect to "@ + peer + " after "@
            + text::decimal(after_ms as nat) + " ms: "@ + detail@,
        ConnectError::NonBlocking { detail, .. } => "set non-blocking: "@ + detail@,
        ConnectError::Context { detail } => "tls client context: "@ + detail@,
        ConnectError::Session { detail } => "ssl session: "@ + detail@,
        ConnectError::Stream { detail } => "ssl stream: "@ + detail@,
        ConnectError::Handshake { detail, .. } => "tls handshake: "@ + detail@,
        ConnectError::HandshakeTimeout { within_ms } => "TLS handshake to "@ + peer
            + " did not complete within "@ + text::decimal(within_ms as nat) + " ms"@,
        ConnectError::SocketFault { detail } => "socket fault during TLS handshake to "@ + peer
            + ": "@ + detail@,
    }
}

impl<K: Copy> ConnectError<K> {
    /// The kind of the error.
    pub fn kind(&self) -> (r: FaultKind<K>)
        ensures
            r == kind_of(*self),
    {
        match self {
            ConnectError::Tcp { kind, .. } => FaultKind::System(*kind),
            ConnectError::NonBlocking { kind, .. } => FaultKind::System(*kind),
            ConnectError::Handshake { kind: Some(kind), .. } => FaultKind::System(*kind),
            ConnectError::HandshakeTimeout { .. } => FaultKind::TimedOut,
            _ => FaultKind::Unsorted,
        }
    }

    /// The error as operators read it.
    pub fn text(&self, peer: &str) -> (r: String)
        ensures
            r@ == connect_error_text(*self, peer@),
    {
        let mut out = String::new();
        match self {
            ConnectError::Tcp { after_ms, detail, .. } => {
                push_text(&mut out, "tcp connect to ");
                push_text(&mut out, peer);
                push_text(&mut out, " after ");
                push_decimal(&mut out, *after_ms);
                push_text(&mut out, " ms: ");
                push_text(&mut out, detail.as_str());
            },
            ConnectError::NonBlocking { detail, .. } => {
                push_text(&mut out, "set non-blocking: ");
                push_text(&mut out, detail.as_str());
            },
            ConnectError::Context { detail } => {
                push_text(&mut out, "tls client context: ");
                push_text(&mut out, detail.as_str());
            },
            ConnectError::Session { detail } => {
                push_text(&mut out, "ssl session: ");
                push_text(&mut out, detail.as_str());
            },
            ConnectError::Stream { detail } => {
                push_text(&mut out, "ssl stream: ");
                push_text(&mut out, detail.as_str());
            },
            ConnectError::Handshake { detail, .. } => {
                push_text(&mut out, "tls handshake: ");
                push_text(&mut out, detail.as_str());
            },
            ConnectError::HandshakeTimeout { within_ms } => {
                push_text(&mut out, "TLS handshake to ");
                push_text(&mut out, peer);
                push_text(&mut out, " did not complete within ");
                text::push_wide_decimal(&mut out, *within_ms);
                push_text(&mut out, " ms");
            },
            ConnectError::SocketFault { detail } => {
                push_text(&mut out, "socket fault during TLS handshake to ");
                push_text(&mut out, peer);
                push_text(&mut out, ": ");
                push_text(&mut out, detail.as_str());
            },
        }
        assert(out@ =~= connect_error_text(*self, peer@));
        out
    }
}

/// A failed handshake step, as the TLS library tells it.
#[derive(Debug, PartialEq, Eq)]
pub struct HandshakeFailure<K> {
    /// The kind of the system's error beneath it, if there is one.
    pub kind: Option<K>,
    /// What was said of it.
    pub detail: String,
}

/// The debug form of the error that `std::io::Error::other` makes of a text.
pub uninterp spec fn other_error_debug(text: Seq<char>) -> Seq<char>;

/// The debug form of an error made of a text. Calls `std::io::Error::other`; what the
/// error's debug form is goes by the name [`other_error_debug`].
#[verifier::external_body]
fn debug_of_other(text: &str) -> (r: String)
    ensures
        r@ == other_error_debug(text@),
{
    format!("{:?}", std::io::Error::other(text.to_string()))
}

/// What follows a step of the handshake.
#[derive(Debug, PartialEq, Eq)]
pub enum HandshakeNext<K> {
    /// The session is up.
    Up,
    /// Wait on these directions, no longer than this, and take the next step unless
    /// the wait finds the socket dead.
    Wait {
        /// The direction the session named.
        interest: PollInterest,
        /// What is left of the budget.
        budget: Duration,
    },
    /// No session comes up.
    Failed(ConnectError<K>),
}

/// A handshake under way.
#[derive(Debug, Clone, Copy, PartialEq, Eq, Structural)]
pub struct Handshake {
    /// What it was given.
    pub timeout: Duration,
    /// When that is spent.
    pub deadline: Instant,
}

/// What follows a step of the handshake that came to `step` at `now`.
pub open spec fn after_step<K>(
    handshake: Handshake,
    step: Result<(), TlsFault<HandshakeFailure<K>>>,
    now: Instant,
) -> HandshakeNext<K> {
    match step {
        Ok(()) => HandshakeNext::Up,
        Err(TlsFault::ZeroReturn(e)) => HandshakeNext::Failed(
            ConnectError::Handshake { kind: e.kind, detail: e.detail },
        ),
        Err(TlsFault::Other(e)) => HandshakeNext::Failed(
            ConnectError::Handshake { kind: e.kind, detail: e.detail },
        ),
        Err(want) => if clock::since(handshake.deadline, now) == 0 {
            HandshakeNext::Failed(
                ConnectError::HandshakeTimeout {
                    within_ms: handshake.timeout.nanos / 1_000_000,
                },
            )
        } else {
            HandshakeNext::Wait {
                interest: PollInterest {
                    read: want is WantRead,
                    write: want is WantWrite,
                },
                budget: Duration { nanos: clock::since(handshake.deadline, now) as u128 },
            }
        },
    }
}

impl Handshake {
    /// Begins a handshake on a socket that is connected at `now`. Its budget is its
    /// own: time that the connection did not use is not added to it.
    pub fn begin(now: Instant, timeout: Duration) -> (r: Handshake)
        requires
            clock::moved(now, timeout) is Some,
        ensures
            r.timeout == timeout,
            Some(r.deadline) == clock::moved(now, timeout),
    {
        Handshake { timeout, deadline: Instant { nanos: now.nanos + timeout.nanos } }
    }

    /// What follows a step of the handshake that ended at `now`. Anything but a
    /// want is a real failure: a key or an identity that the peer refuses arrives as
    /// one.
    pub fn on_step<K>(
        &self,
        step: Result<(), TlsFault<HandshakeFailure<K>>>,
        now: Instant,
    ) -> (r: HandshakeNext<K>)
        ensures
            r == after_step(*self, step, now),
    {
        let interest = match step {
            Ok(()) => {
                return HandshakeNext::Up;
            },
            Err(TlsFault::WantRead) => PollInterest::read(),
            Err(TlsFault::WantWrite) => PollInterest::write(),
            Err(TlsFault::ZeroReturn(e)) => {
                return HandshakeNext::Failed(
                    ConnectError::Handshake { kind: e.kind, detail: e.detail },
                );
            },
            Err(TlsFault::Other(e)) => {
                return HandshakeNext::Failed(
                    ConnectError::Handshake { kind: e.kind, detail: e.detail },
                );
            },
        };
        let budget = self.deadline.saturating_duration_since(now);
        if budget.nanos == 0 {
            return HandshakeNext::Failed(
                ConnectError::HandshakeTimeout { within_ms: self.timeout.as_millis() },
            );
        }
        HandshakeNext::Wait { interest, budget }
    }

    /// What a wait says of the handshake: it goes on unless the socket is dead or the
    /// wait itself failed, which comes as the debug form of its error. A wait that ran
    /// out goes on too, and the next step finds the budget spent.
    pub fn on_wait<K>(&self, wake: Result<Readiness, String>) -> (r: Option<ConnectError<K>>)
        ensures
            match wake {
                Err(detail) => r == Some(ConnectError::<K>::SocketFault { detail }),
                Ok(Readiness::Fault(why)) => r matches Some(ConnectError::SocketFault { detail })
                    && detail@ == other_error_debug(why@),
                Ok(_) => r is None,
            },
    {
        match wake {
            Err(detail) => Some(ConnectError::SocketFault { detail }),
            Ok(Readiness::Fault(why)) => Some(
                ConnectError::SocketFault { detail: debug_of_other(why.as_str()) },
            ),
            Ok(_) => None,
        }
    }
}

/// The answers of a Linux pod about itself.
#[derive(Debug)]
pub struct LinkPlatform {
    pod_id: String,
    connect_timeout: Duration,
    handshake_timeout: Duration,
    started: Instant,
}

/// A [`LinkPlatform`] as a mathematical value.
#[verifier::ext_equal]
pub struct PlatformView {
    /// The pod's id.
    pub pod_id: Seq<char>,
    /// What a connection is given.
    pub connect_timeout: Duration,
    /// What a handshake is given.
    pub handshake_timeout: Duration,
    /// When the streamer began.
    pub started: Instant,
}

impl View for LinkPlatform {
    type V = PlatformView;

    closed spec fn view(&self) -> PlatformView {
        PlatformView {
            pod_id: self.pod_id@,
            connect_timeout: self.connect_timeout,
            handshake_timeout: self.handshake_timeout,
            started: self.started,
        }
    }
}

impl LinkPlatform {
    /// A platform that began at `started`, with the default timeouts.
    pub fn new(pod_id: &str, started: Instant) -> (r: LinkPlatform)
        ensures
            r@ == (PlatformView {
                pod_id: pod_id@,
                connect_timeout: Duration { nanos: 300_000_000 },
                handshake_timeout: Duration { nanos: 1_000_000_000 },
                started,
            }),
    {
        LinkPlatform {
            pod_id: pod_id.to_owned(),
            connect_timeout: Duration::from_millis(DEFAULT_CONNECT_TIMEOUT_MS),
            handshake_timeout: Duration::from_millis(DEFAULT_HANDSHAKE_TIMEOUT_MS),
            started,
        }
    }

    /// The platform with other timeouts.
    pub fn with_timeouts(self, connect: Duration, handshake: Duration) -> (r: LinkPlatform)
        ensures
            r@ == (PlatformView {
                connect_timeout: connect,
                handshake_timeout: handshake,
                ..self@
            }),
    {
        LinkPlatform {
            pod_id: self.pod_id,
            connect_timeout: connect,
            handshake_timeout: handshake,
            started: self.started,
        }
    }

    /// The pod's id.
    pub fn pod_id(&self) -> (r: &str)
        ensures
            r@ == self@.pod_id,
    {
        self.pod_id.as_str()
    }

    /// What a connection is given.
    pub fn connect_timeout(&self) -> (r: Duration)
        ensures
            r == self@.connect_timeout,
    {
        self.connect_timeout
    }

    /// What a handshake is given.
    pub fn handshake_timeout(&self) -> (r: Duration)
        ensures
            r == self@.handshake_timeout,
    {
        self.handshake_timeout
    }

    /// Whether the network link is up: it always counts as up, since only an
    /// attempt to connect would know better.
    pub fn link_up(&self) -> (r: Option<bool>)
        ensures
            r == Some(true),
    {
        Some(true)
    }

    /// What is known of the network link, for diagnostics.
    pub fn link_diag(&self) -> (r: &'static str)
        ensures
            r@ == "link=os-managed"@,
    {
        "link=os-managed"
    }

    /// Whole seconds since the streamer began, none on a clock that reads before, and
    /// the most a count can hold where they are more.
    pub fn now_secs(&self, now: Instant) -> (r: u64)
        ensures
            ({
                let secs = clock::since(now, self@.started) / 1_000_000_000;
                r == if secs <= u64::MAX {
                    secs
                } else {
                    u64::MAX as nat
                }
            }),
    {
        let secs: u128 = now.saturating_duration_since(self.started).nanos / 1_000_000_000;
        if secs <= u64::MAX as u128 {
            secs as u64
        } else {
            u64::MAX
        }
    }
}

/// A handshake waits only while its budget lasts, never past its deadline, and on
/// exactly the one direction the session named.
pub proof fn a_handshake_is_bounded<K>(
    handshake: Handshake,
    step: Result<(), TlsFault<HandshakeFailure<K>>>,
    now: Instant,
)
    ensures
        after_step(handshake, step, now) matches HandshakeNext::Wait { interest, budget } ==> {
            &&& now.nanos + budget.nanos <= handshake.deadline.nanos
            &&& budget.nanos > 0
            &&& interest.read != interest.write
            &&& interest.read <==> step == Err::<(), TlsFault<HandshakeFailure<K>>>(
                TlsFault::WantRead,
            )
        },
        now.nanos >= handshake.deadline.nanos ==> !(after_step(handshake, step, now) is Wait),
{
}

/// An error keeps the kind that the system gave it, whatever the stage says around
/// it.
pub proof fn the_kind_survives_the_wrapping<K>(kind: K, after_ms: u64, detail: String)
    ensures
        kind_of(ConnectError::Tcp { kind, after_ms, detail }) == FaultKind::System(kind),
        kind_of(ConnectError::NonBlocking { kind, detail }) == FaultKind::System(kind),
        kind_of(ConnectError::Handshake { kind: Some(kind), detail }) == FaultKind::System(kind),
        kind_of(ConnectError::Handshake { kind: None::<K>, detail }) == FaultKind::<K>::Unsorted,
{
}

/// A step that went through brings the session up, whatever the clock says. One that
/// failed ends the handshake with its own kind and words. One that wants a direction
/// waits on it for exactly what is left of the budget, and where nothing is left the
/// handshake has run out of the time it was given.
pub proof fn a_step_decides_over_the_handshake<K>(
    handshake: Handshake,
    e: HandshakeFailure<K>,
    now: Instant,
)
    ensures
        after_step(handshake, Ok::<(), TlsFault<HandshakeFailure<K>>>(()), now) is Up,
        ({
            let failed = HandshakeNext::Failed(
                ConnectError::Handshake { kind: e.kind, detail: e.detail },
            );
            &&& after_step(
                handshake,
                Err::<(), TlsFault<HandshakeFailure<K>>>(TlsFault::Other(e)),
                now,
            ) == failed
            &&& after_step(
                handshake,
                Err::<(), TlsFault<HandshakeFailure<K>>>(TlsFault::ZeroReturn(e)),
                now,
            ) == failed
        }),
        ({
            let read = after_step(
                handshake,
                Err::<(), TlsFault<HandshakeFailure<K>>>(TlsFault::WantRead),
                now,
            );
            let write = after_step(
                handshake,
                Err::<(), TlsFault<HandshakeFailure<K>>>(TlsFault::WantWrite),
                now,
            );
            if now.nanos < handshake.deadline.nanos {
                let budget = Duration { nanos: (handshake.deadline.nanos - now.nanos) as u128 };
                &&& read == HandshakeNext::<K>::Wait {
                    interest: PollInterest { read: true, write: false },
                    budget,
                }
                &&& write == HandshakeNext::<K>::Wait {
                    interest: PollInterest { read: false, write: true },
                    budget,
                }
            } else {
                let within_ms = handshake.timeout.nanos / 1_000_000;
                &&& read == HandshakeNext::<K>::Failed(ConnectError::HandshakeTimeout { within_ms })
                &&& write == HandshakeNext::<K>::Failed(
                    ConnectError::HandshakeTimeout { within_ms },
                )
            }
        }),
{
}

/// A handshake that ran out of time is sorted as such, and an error without a kind of
/// the system's has none made up for it.
pub proof fn no_kind_is_made_up<K>(detail: String, within_ms: u128)
    ensures
        kind_of(ConnectError::<K>::HandshakeTimeout { within_ms }) == FaultKind::<K>::TimedOut,
        kind_of(ConnectError::<K>::Context { detail }) == FaultKind::<K>::Unsorted,
        kind_of(ConnectError::<K>::Session { detail }) == FaultKind::<K>::Unsorted,
        kind_of(ConnectError::<K>::Stream { detail }) == FaultKind::<K>::Unsorted,
        kind_of(ConnectError::<K>::SocketFault { detail }) == FaultKind::<K>::Unsorted,
        kind_of(ConnectError::<K>::Handshake { kind: None, detail }) == FaultKind::<K>::Unsorted,
{
}

/// Every error is told with the stage that failed and with what was said of it.
pub proof fn an_error_names_its_stage<K>(
    kind: K,
    maybe: Option<K>,
    after_ms: u64,
    within_ms: u128,
    detail: String,
    peer: Seq<char>,
)
    ensures
        connect_error_text(ConnectError::Tcp { kind, after_ms, detail }, peer)
            == "tcp connect to "@ + peer + " after "@ + text::decimal(after_ms as nat) + " ms: "@
            + detail@,
        connect_error_text(ConnectError::NonBlocking { kind, detail }, peer)
            == "set non-blocking: "@ + detail@,
        connect_error_text(ConnectError::<K>::Context { detail }, peer) == "tls client context: "@
            + detail@,
        connect_error_text(ConnectError::<K>::Session { detail }, peer) == "ssl session: "@
            + detail@,
        connect_error_text(ConnectError::<K>::Stream { detail }, peer) == "ssl stream: "@
            + detail@,
        connect_error_text(ConnectError::Handshake { kind: maybe, detail }, peer)
            == "tls handshake: "@ + detail@,
        connect_error_text(ConnectError::<K>::HandshakeTimeout { within_ms }, peer)
            == "TLS handshake to "@ + peer + " did not complete within "@ + text::decimal(
            within_ms as nat,
        ) + " ms"@,
        connect_error_text(ConnectError::<K>::SocketFault { detail }, peer)
            == "socket fault during TLS handshake to "@ + peer + ": "@ + detail@,
{
}

} // verus!
