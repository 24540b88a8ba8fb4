use vstd::prelude::*;
use crate::error::{Error, Result};
use crate::handshake::{accepts, begin_next, close_next, forward_spec, Handshake, HandshakeView};

verus! {

/// Where a session stands with its broker.
#[derive(Debug, Clone, Copy, PartialEq, Eq, Structural)]
pub enum ConnState {
    Disconnected,
    Connecting,
    Reconnecting,
    Connected,
    /// The last connect or reconnect failed with this engine code.
    Failed(i32),
    /// The last handshake gave no result in time.
    TimedOut,
}

impl ConnState {
    /// A handshake is under way.
    pub open spec fn in_handshake(self) -> bool {
        self is Connecting || self is Reconnecting
    }

    /// A connect or reconnect may start from here.
    pub open spec fn may_connect(self) -> bool {
        self is Disconnected || self is Failed || self is TimedOut
    }
}

/// The connection state machine of a session. Its handshakes go through a
/// `Handshake` slot that is kept apart, since the engine's callback thread
/// reads the slot while the session waits.
pub struct Connection {
    state: ConnState,
    loop_started: bool,
}

/// The state of a connection, and whether its network loop runs.
pub struct ConnectionView {
    pub state: ConnState,
    pub loop_started: bool,
}

impl View for Connection {
    type V = ConnectionView;

    closed spec fn view(&self) -> ConnectionView {
        ConnectionView { state: self.state, loop_started: self.loop_started }
    }
}

/// A connection and its handshake slot agree: a handshake is open exactly
/// while the connection is in one.
pub open spec fn consistent(c: ConnectionView, h: HandshakeView) -> bool {
    c.state.in_handshake() <==> h.pending is Some
}

/// The error with which a connect or reconnect from `c` is refused, if any.
pub open spec fn start_refusal(c: ConnectionView) -> Option<Error> {
    if c.state is Connected {
        Some(Error::UnsupportedFeature)
    } else if c.state.in_handshake() {
        Some(Error::AlreadyConnected)
    } else {
        None
    }
}

/// The connection and slot after a connect (`reconnect` false) or reconnect
/// is started from `c` and `h`.
pub open spec fn start_next(c: ConnectionView, h: HandshakeView, reconnect: bool) -> (ConnectionView, HandshakeView) {
    if start_refusal(c) is Some {
        (c, h)
    } else {
        (
            ConnectionView {
                state: if reconnect { ConnState::Reconnecting } else { ConnState::Connecting },
                ..c
            },
            begin_next(h),
        )
    }
}

/// The connection after the engine's immediate answer `status` to the
/// request of the handshake `token`.
pub open spec fn answered_next(c: ConnectionView, h: HandshakeView, token: u64, status: i32) -> (ConnectionView, HandshakeView) {
    if status != 0 {
        (ConnectionView { state: ConnState::Failed(status), ..c }, close_next(h, token))
    } else {
        (ConnectionView { loop_started: true, ..c }, h)
    }
}

/// The connection after the handshake result `code`.
pub open spec fn resolved_state(code: i32) -> ConnState {
    if code == 0 {
        ConnState::Connected
    } else {
        ConnState::Failed(code)
    }
}

/// The connection and slot after the waiting thread of handshake `token`
/// received `msg`.
pub open spec fn message_next(c: ConnectionView, h: HandshakeView, token: u64, msg: (u64, i32)) -> (ConnectionView, HandshakeView) {
    if accepts(h, token, msg) {
        (ConnectionView { state: resolved_state(msg.1), ..c }, close_next(h, token))
    } else {
        (c, h)
    }
}

/// What the waiting thread of handshake `token` learns from `msg`: nothing,
/// where the message is stale, else the outcome of the handshake.
pub open spec fn message_outcome(h: HandshakeView, token: u64, msg: (u64, i32)) -> Option<Result<()>> {
    if !accepts(h, token, msg) {
        None
    } else if msg.1 == 0 {
        Some(Ok(()))
    } else {
        Some(Err(Error::ConnectionError(msg.1)))
    }
}

/// The connection and slot after handshake `token` timed out.
pub open spec fn timeout_next(c: ConnectionView, h: HandshakeView, token: u64) -> (ConnectionView, HandshakeView) {
    if h.pending == Some(token) {
        (ConnectionView { state: ConnState::TimedOut, ..c }, close_next(h, token))
    } else {
        (c, h)
    }
}

impl Connection {
    /// A disconnected session whose network loop has not started.
    pub fn new() -> (r: Self)
        ensures
            r@.state == ConnState::Disconnected,
            !r@.loop_started,
    {
        Connection { state: ConnState::Disconnected, loop_started: false }
    }

    fn start(&mut self, hs: &mut Handshake, reconnect: bool) -> (r: Result<u64>)
        requires
            consistent(old(self)@, old(hs)@),
        ensures
            (final(self)@, final(hs)@) == start_next(old(self)@, old(hs)@, reconnect),
            consistent(final(self)@, final(hs)@),
            r is Err <==> start_refusal(old(self)@) is Some,
            r is Err ==> r == Err::<u64, Error>(start_refusal(old(self)@).unwrap()),
            r is Ok ==> r == Ok::<u64, Error>(old(hs)@.next),
    {
        match self.state {
            ConnState::Connected => Err(Error::UnsupportedFeature),
            ConnState::Connecting | ConnState::Reconnecting => Err(Error::AlreadyConnected),
            _ => {
                let r = hs.begin();
                self.state = if reconnect { ConnState::Reconnecting } else { ConnState::Connecting };
                r
            },
        }
    }

    /// Starts a connect: opens a handshake and returns its token, to be
    /// passed to the steps that follow. Fails with `UnsupportedFeature` when
    /// connected and with `AlreadyConnected` while a handshake is under way.
    pub fn begin_connect(&mut self, hs: &mut Handshake) -> (r: Result<u64>)
        requires
            consistent(old(self)@, old(hs)@),
        ensures
            (final(self)@, final(hs)@) == start_next(old(self)@, old(hs)@, false),
            consistent(final(self)@, final(hs)@),
            r is Err <==> start_refusal(old(self)@) is Some,
            r is Err ==> r == Err::<u64, Error>(start_refusal(old(self)@).unwrap()),
            r is Ok ==> r == Ok::<u64, Error>(old(hs)@.next),
    {
        self.start(hs, false)
    }

    /// Starts a reconnect, as `begin_connect` does a connect.
    pub fn begin_reconnect(&mut self, hs: &mut Handshake) -> (r: Result<u64>)
        requires
            consistent(old(self)@, old(hs)@),
        ensures
            (final(self)@, final(hs)@) == start_next(old(self)@, old(hs)@, true),
            consistent(final(self)@, final(hs)@),
            r is Err <==> start_refusal(old(self)@) is Some,
            r is Err ==> r == Err::<u64, Error>(start_refusal(old(self)@).unwrap()),
            r is Ok ==> r == Ok::<u64, Error>(old(hs)@.next),
    {
        self.start(hs, true)
    }

    /// Takes the engine's immediate answer to the connect request of
    /// handshake `token`. A non-zero status fails the connect with
    /// `ConnectionError(status)` and closes the handshake. Otherwise returns
    /// whether the network loop must be started now, which it must be once
    /// only in the life of the session.
    pub fn connect_answered(&mut self, hs: &mut Handshake, token: u64, status: i32) -> (r: Result<bool>)
        requires
            consistent(old(self)@, old(hs)@),
            old(self)@.state is Connecting,
            old(hs)@.pending == Some(token),
        ensures
            (final(self)@, final(hs)@) == answered_next(old(self)@, old(hs)@, token, status),
            consistent(final(self)@, final(hs)@),
            r is Err <==> status != 0,
            r is Err ==> (r matches Err(Error::ConnectionError(c)) && c == status),
            r is Ok ==> r == Ok::<bool, Error>(!old(self)@.loop_started),
    {
        if status != 0 {
            self.state = ConnState::Failed(status);
            hs.close(token);
            Err(Error::ConnectionError(status))
        } else {
            let start_loop = !self.loop_started;
            self.loop_started = true;
            Ok(start_loop)
        }
    }

    /// Takes the engine's immediate answer to the reconnect request of
    /// handshake `token`. A non-zero status fails the reconnect with
    /// `ConnectionError(status)`. The network loop is not restarted.
    pub fn reconnect_answered(&mut self, hs: &mut Handshake, token: u64, status: i32) -> (r: Result<()>)
        requires
            consistent(old(self)@, old(hs)@),
            old(self)@.state is Reconnecting,
            old(hs)@.pending == Some(token),
        ensures
            status != 0 ==> (final(self)@, final(hs)@) == answered_next(old(self)@, old(hs)@, token, status),
            status == 0 ==> final(self)@ == old(self)@ && final(hs)@ == old(hs)@,
            consistent(final(self)@, final(hs)@),
            r is Err <==> status != 0,
            r is Err ==> (r matches Err(Error::ConnectionError(c)) && c == status),
    {
        if status != 0 {
            self.state = ConnState::Failed(status);
            hs.close(token);
            Err(Error::ConnectionError(status))
        } else {
            Ok(())
        }
    }

    /// Takes a message that the thread waiting on handshake `token` received.
    /// A result of 0 connects the session; any other fails it with that code,
    /// which is surfaced as `ConnectionError`. A stale message, left by an
    /// earlier handshake, is dropped: nothing changes and nothing is returned.
    pub fn handshake_message(&mut self, hs: &mut Handshake, token: u64, msg: (u64, i32)) -> (r: Option<Result<()>>)
        requires
            consistent(old(self)@, old(hs)@),
        ensures
            (final(self)@, final(hs)@) == message_next(old(self)@, old(hs)@, token, msg),
            consistent(final(self)@, final(hs)@),
            r == message_outcome(old(hs)@, token, msg),
    {
        match hs.accept(token, msg) {
            None => None,
            Some(code) => {
                if code == 0 {
                    self.state = ConnState::Connected;
                    Some(Ok(()))
                } else {
                    self.state = ConnState::Failed(code);
                    Some(Err(Error::ConnectionError(code)))
                }
            },
        }
    }

    /// Ends handshake `token`, whose result did not come in time: the session
    /// is marked timed out and a result that comes later will be dropped.
    pub fn handshake_timed_out(&mut self, hs: &mut Handshake, token: u64) -> (r: Error)
        requires
            consistent(old(self)@, old(hs)@),
        ensures
            (final(self)@, final(hs)@) == timeout_next(old(self)@, old(hs)@, token),
            consistent(final(self)@, final(hs)@),
            r == Error::Timeout,
    {
        if hs.is_open_for(token) {
            self.state = ConnState::TimedOut;
            hs.close(token);
        }
        Error::Timeout
    }

    /// The engine reported that a connected session lost its broker, or the
    /// session disconnected: a connected session becomes disconnected.
    pub fn disconnected(&mut self)
        ensures
            old(self)@.state is Connected ==> final(self)@ == (ConnectionView {
                state: ConnState::Disconnected,
                ..old(self)@
            }),
            !(old(self)@.state is Connected) ==> final(self)@ == old(self)@,
    {
        if self.state == ConnState::Connected {
            self.state = ConnState::Disconnected;
        }
    }

    /// Resets the session for a fresh engine handle. Refused with
    /// `UnsupportedFeature` while connected or in a handshake; otherwise the
    /// session is disconnected and, the handle being new, has no network
    /// loop running.
    pub fn reinitialise(&mut self) -> (r: Result<()>)
        ensures
            r is Err <==> !old(self)@.state.may_connect(),
            r is Err ==> (r matches Err(Error::UnsupportedFeature) && final(self)@ == old(self)@),
            r is Ok ==> final(self)@ == (ConnectionView { state: ConnState::Disconnected, loop_started: false }),
    {
        match self.state {
            ConnState::Connected | ConnState::Connecting | ConnState::Reconnecting => Err(
                Error::UnsupportedFeature,
            ),
            _ => {
                self.state = ConnState::Disconnected;
                self.loop_started = false;
                Ok(())
            },
        }
    }

    /// The current state.
    pub fn state(&self) -> (r: ConnState)
        ensures
            r == self@.state,
    {
        self.state
    }
}

/// A connect whose request the engine accepts at once, followed by the
/// handshake result `code`, connects the session when `code` is 0 and fails
/// it with `code` otherwise, and the waiting thread gets that same outcome.
pub proof fn lemma_handshake_determinism(c: ConnectionView, h: HandshakeView, code: i32)
    requires
        consistent(c, h),
        c.state.may_connect(),
    ensures
        ({
            let token = h.next;
            let (c1, h1) = start_next(c, h, false);
            let (c2, h2) = answered_next(c1, h1, token, 0);
            let msg = (token, code);
            &&& forward_spec(h2, code) == Some(msg)
            &&& message_next(c2, h2, token, msg).0.state == (if code == 0 {
                ConnState::Connected
            } else {
                ConnState::Failed(code)
            })
            &&& message_outcome(h2, token, msg) == (if code == 0 {
                Some(Ok::<(), Error>(()))
            } else {
                Some(Err::<(), Error>(Error::ConnectionError(code)))
            })
            &&& consistent(message_next(c2, h2, token, msg).0, message_next(c2, h2, token, msg).1)
        }),
{
}

/// A handshake that times out leaves the session timed out with no
/// handshake open, so a result that comes later is dropped by the callback;
/// and where it was already handed on, the next handshake drops it as stale
/// and still takes its own result `code`.
pub proof fn lemma_timeout_isolation(c: ConnectionView, h: HandshakeView, late: i32, code: i32)
    requires
        consistent(c, h),
        c.state.may_connect(),
    ensures
        ({
            let t1 = h.next;
            let (c1, h1) = start_next(c, h, false);
            let (c2, h2) = answered_next(c1, h1, t1, 0);
            let (c3, h3) = timeout_next(c2, h2, t1);
            let t2 = h3.next;
            let (c4, h4) = start_next(c3, h3, false);
            let (c5, h5) = answered_next(c4, h4, t2, 0);
            &&& c3.state == ConnState::TimedOut
            &&& forward_spec(h3, late) is None
            &&& start_refusal(c3) is None
            &&& t2 != t1
            &&& message_next(c5, h5, t2, (t1, late)) == (c5, h5)
            &&& message_outcome(h5, t2, (t1, late)) is None
            &&& message_next(c5, h5, t2, (t2, code)).0.state == resolved_state(code)
            &&& message_outcome(h5, t2, (t2, code)) == (if code == 0 {
                Some(Ok::<(), Error>(()))
            } else {
                Some(Err::<(), Error>(Error::ConnectionError(code)))
            })
        }),
{
}

} // verus!
