use vstd::prelude::*;
use crate::error::Error;
use crate::lifecycle::LibraryLifecycle;

verus! {

/// How far the making of a session has gone.
#[derive(Debug, Clone, Copy, PartialEq, Eq, Structural)]
pub enum SetupPhase {
    /// Nothing done yet.
    Idle,
    /// The library reference is taken and the engine's global
    /// initialisation is running.
    Initialising,
    /// The engine handle is being created.
    Creating,
    /// The handle is being configured (retry interval, will, credentials).
    Configuring,
    /// TLS is being set on the handle.
    Securing,
    /// The handle is ready; the session owns the library reference.
    Ready,
    /// A step failed; the library reference was given back.
    Failed,
}

/// What the outside steps of the making of a session report.
pub enum SetupEvent {
    /// The library reference is to be taken.
    Acquire,
    /// The engine's global initialisation returned this status.
    Initialised(i32),
    /// The engine handle was created, or not (a null handle).
    HandleCreated(bool),
    /// The engine's will and credential settings returned this status: the
    /// first that was not 0, or 0.
    OptionsApplied(i32),
    /// The engine's TLS setting returned this status; none where no TLS is used.
    Configured(Option<i32>),
}

/// What to do after a step.
pub enum SetupAction {
    /// Run the engine's global initialisation.
    Initialise,
    /// Create the engine handle.
    CreateHandle,
    /// Configure the handle.
    Configure,
    /// Set TLS on the handle, where it is used.
    Secure,
    /// The handle is ready: make the session and connect it.
    Connect,
    /// Give up with this error; run the engine's global cleanup first where
    /// the flag says so.
    Fail(Error, bool),
}

/// The making of a session, from the library reference to a configured
/// engine handle. Every failure gives the library reference back, so a
/// failed setup never leaves the count raised.
pub struct Setup {
    phase: SetupPhase,
    holding: bool,
}

/// The phase of a setup and whether it holds a library reference.
pub struct SetupView {
    pub phase: SetupPhase,
    pub holding: bool,
}

impl View for Setup {
    type V = SetupView;

    closed spec fn view(&self) -> SetupView {
        SetupView { phase: self.phase, holding: self.holding }
    }
}

/// Whether `e` is the event that phase `p` waits for.
pub open spec fn expects(p: SetupPhase, e: SetupEvent) -> bool {
    match e {
        SetupEvent::Acquire => p is Idle,
        SetupEvent::Initialised(_) => p is Initialising,
        SetupEvent::HandleCreated(_) => p is Creating,
        SetupEvent::OptionsApplied(_) => p is Configuring,
        SetupEvent::Configured(_) => p is Securing,
    }
}

/// A setup holds the library reference exactly in the phases between the
/// acquire and the end of the setup, and in `Ready`, where the session is
/// about to take it over.
pub open spec fn accounted(s: SetupView) -> bool {
    s.holding <==> !(s.phase is Idle || s.phase is Failed)
}

/// The setup after event `e`, when the count stood at `live`.
pub open spec fn setup_next(s: SetupView, live: nat, e: SetupEvent) -> SetupView {
    match e {
        SetupEvent::Acquire => SetupView {
            phase: if live == 0 { SetupPhase::Initialising } else { SetupPhase::Creating },
            holding: true,
        },
        SetupEvent::Initialised(st) => if st == 0 {
            SetupView { phase: SetupPhase::Creating, ..s }
        } else {
            SetupView { phase: SetupPhase::Failed, holding: false }
        },
        SetupEvent::HandleCreated(ok) => if ok {
            SetupView { phase: SetupPhase::Configuring, ..s }
        } else {
            SetupView { phase: SetupPhase::Failed, holding: false }
        },
        SetupEvent::OptionsApplied(st) => if st == 0 {
            SetupView { phase: SetupPhase::Securing, ..s }
        } else {
            SetupView { phase: SetupPhase::Failed, holding: false }
        },
        SetupEvent::Configured(st) => if st is None || st == Some(0i32) {
            SetupView { phase: SetupPhase::Ready, ..s }
        } else {
            SetupView { phase: SetupPhase::Failed, holding: false }
        },
    }
}

/// The count after event `e`, when it stood at `live`: an acquire raises it,
/// a failure lowers it by the reference that the setup gives back.
pub open spec fn live_next(s: SetupView, live: nat, e: SetupEvent) -> nat {
    let n = setup_next(s, live, e);
    if !s.holding && n.holding {
        live + 1
    } else if s.holding && !n.holding {
        (live - 1) as nat
    } else {
        live
    }
}

/// What to do after event `e`, when the count stood at `live`.
pub open spec fn action_of(live: nat, e: SetupEvent) -> SetupAction {
    match e {
        SetupEvent::Acquire => if live == 0 { SetupAction::Initialise } else { SetupAction::CreateHandle },
        SetupEvent::Initialised(st) => if st == 0 {
            SetupAction::CreateHandle
        } else {
            SetupAction::Fail(Error::EngineUnavailable, false)
        },
        SetupEvent::HandleCreated(ok) => if ok {
            SetupAction::Configure
        } else {
            SetupAction::Fail(Error::InvalidMosqClient, live == 1)
        },
        SetupEvent::OptionsApplied(st) => if st == 0 {
            SetupAction::Secure
        } else {
            SetupAction::Fail(Error::InvalidOption(st), live == 1)
        },
        SetupEvent::Configured(st) => match st {
            None => SetupAction::Connect,
            Some(c) => if c == 0 {
                SetupAction::Connect
            } else {
                SetupAction::Fail(Error::TlsError(c), live == 1)
            },
        },
    }
}

impl Setup {
    /// A setup that has done nothing yet.
    pub fn new() -> (r: Self)
        ensures
            r@ == (SetupView { phase: SetupPhase::Idle, holding: false }),
    {
        Setup { phase: SetupPhase::Idle, holding: false }
    }

    /// Takes the report of the step that phase waits for and says what comes
    /// next. The count `lc` is the process-wide one; the caller holds its lock
    /// for the duration of the call, and from an `Initialise` action until the
    /// matching `Initialised` event.
    pub fn step(&mut self, lc: &mut LibraryLifecycle, e: SetupEvent) -> (r: SetupAction)
        requires
            accounted(old(self)@),
            expects(old(self)@.phase, e),
            old(self)@.holding ==> old(lc).spec_live() > 0,
            e is Acquire ==> old(lc).spec_live() < usize::MAX,
        ensures
            final(self)@ == setup_next(old(self)@, old(lc).spec_live(), e),
            final(lc).spec_live() == live_next(old(self)@, old(lc).spec_live(), e),
            r == action_of(old(lc).spec_live(), e),
            accounted(final(self)@),
    {
        match e {
            SetupEvent::Acquire => {
                let init = lc.acquire();
                self.holding = true;
                if init {
                    self.phase = SetupPhase::Initialising;
                    SetupAction::Initialise
                } else {
                    self.phase = SetupPhase::Creating;
                    SetupAction::CreateHandle
                }
            },
            SetupEvent::Initialised(st) => match lc.initialised(st) {
                Ok(()) => {
                    self.phase = SetupPhase::Creating;
                    SetupAction::CreateHandle
                },
                Err(err) => {
                    self.phase = SetupPhase::Failed;
                    self.holding = false;
                    SetupAction::Fail(err, false)
                },
            },
            SetupEvent::HandleCreated(ok) => if ok {
                self.phase = SetupPhase::Configuring;
                SetupAction::Configure
            } else {
                let cleanup = lc.release();
                self.phase = SetupPhase::Failed;
                self.holding = false;
                SetupAction::Fail(Error::InvalidMosqClient, cleanup)
            },
            SetupEvent::OptionsApplied(st) => if st == 0 {
                self.phase = SetupPhase::Securing;
                SetupAction::Secure
            } else {
                let cleanup = lc.release();
                self.phase = SetupPhase::Failed;
                self.holding = false;
                SetupAction::Fail(Error::InvalidOption(st), cleanup)
            },
            SetupEvent::Configured(st) => {
                let status: i32 = match st {
                    Some(c) => c,
                    None => 0,
                };
                if status != 0 {
                    let cleanup = lc.release();
                    self.phase = SetupPhase::Failed;
                    self.holding = false;
                    SetupAction::Fail(Error::TlsError(status), cleanup)
                } else {
                    self.phase = SetupPhase::Ready;
                    SetupAction::Connect
                }
            },
        }
    }

    /// The current phase.
    pub fn phase(&self) -> (r: SetupPhase)
        ensures
            r == self@.phase,
    {
        self.phase
    }
}

/// Each step of a setup keeps the count in step with what the setup holds:
/// it rises by one where the setup takes the reference and falls by one where
/// the setup gives it back, and a failed setup holds nothing. So the making
/// of a session either ends ready, holding the one reference that the new
/// session takes over, or fails having given it back.
pub proof fn lemma_setup_never_leaks(s: SetupView, live: nat, e: SetupEvent)
    requires
        accounted(s),
        expects(s.phase, e),
        s.holding ==> live > 0,
    ensures
        accounted(setup_next(s, live, e)),
        setup_next(s, live, e).phase is Failed ==> !setup_next(s, live, e).holding,
        action_of(live, e) is Fail ==> setup_next(s, live, e).phase is Failed,
        live_next(s, live, e) + (if s.holding { 1int } else { 0 }) == live + (if setup_next(
            s,
            live,
            e,
        ).holding {
            1int
        } else {
            0
        }),
{
}

/// The setup and the count after the events `es`, one after the other.
pub open spec fn run(s: SetupView, live: nat, es: Seq<SetupEvent>) -> (SetupView, nat)
    decreases es.len(),
{
    if es.len() == 0 {
        (s, live)
    } else {
        run(setup_next(s, live, es[0]), live_next(s, live, es[0]), es.drop_first())
    }
}

/// Each event of `es` is the one that the setup waits for when it comes.
pub open spec fn valid_run(s: SetupView, live: nat, es: Seq<SetupEvent>) -> bool
    decreases es.len(),
{
    es.len() == 0 || (expects(s.phase, es[0]) && valid_run(
        setup_next(s, live, es[0]),
        live_next(s, live, es[0]),
        es.drop_first(),
    ))
}

/// Over a whole setup, from nothing done to wherever the events lead, the
/// count rises by one exactly where the setup ends holding the reference
/// that the session takes over; a setup that ends failed leaves the count
/// as it found it.
pub proof fn lemma_setup_run_balanced(live: nat, es: Seq<SetupEvent>)
    requires
        valid_run(SetupView { phase: SetupPhase::Idle, holding: false }, live, es),
    ensures
        ({
            let (s, n) = run(SetupView { phase: SetupPhase::Idle, holding: false }, live, es);
            &&& accounted(s)
            &&& n == live + if s.holding { 1nat } else { 0nat }
            &&& s.phase is Failed ==> n == live
        }),
{
    lemma_run_accounted(SetupView { phase: SetupPhase::Idle, holding: false }, live, es);
}

proof fn lemma_run_accounted(s: SetupView, live: nat, es: Seq<SetupEvent>)
    requires
        accounted(s),
        s.holding ==> live > 0,
        valid_run(s, live, es),
    ensures
        accounted(run(s, live, es).0),
        run(s, live, es).0.holding ==> run(s, live, es).1 > 0,
        run(s, live, es).1 + (if s.holding { 1int } else { 0 }) == live + (if run(s, live, es).0.holding {
            1int
        } else {
            0
        }),
    decreases es.len(),
{
    if es.len() > 0 {
        lemma_setup_never_leaks(s, live, es[0]);
        lemma_run_accounted(setup_next(s, live, es[0]), live_next(s, live, es[0]), es.drop_first());
    }
}

} // verus!
