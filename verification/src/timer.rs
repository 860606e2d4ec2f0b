//! The periodic-timer core: continuations, the trampoline protocol, and the
//! lifecycle state machine of the handle a caller owns.
//!
//! The registry that actually fires the timer is the platform's: it is handed
//! a delay, the fixed trampoline address and an opaque context pointer, and it
//! calls the trampoline on its own thread, once per tick, serialized per
//! timer.  Everything the trampoline and the handle decide is in this module
//! and verified; performing the foreign calls is left to an unverified shell.

use vstd::prelude::*;

verus! {

/// The unit of rescheduling: either the work still owes a next invocation
/// (`Active`, carrying the delay in milliseconds until that invocation and
/// the action to run then), or the timer is done (`Terminal`).
///
/// A delay of zero means "invoke again as soon as possible"; the only way to
/// stop the timer from within is to produce `Terminal`.
pub enum Continuation<A> {
    Active { next_delay_ms: u32, next_action: A },
    Terminal,
}

/// One generation of timer work.  Invoking the action consumes it — it can be
/// run at most once — and yields the continuation that replaces it: a new
/// delay and action, or `Terminal` to stop the timer.
///
/// Implementations are the caller's; nothing is assumed about what `invoke`
/// returns.  State shared across generations (say, a counter every tick
/// bumps) belongs in the action's own fields, behind the caller's own
/// synchronization, because the registry invokes actions from its own thread.
pub trait TimerAction: Sized {
    fn invoke(self) -> Continuation<Self>;
}

impl<A> Continuation<A> {
    /// Whether this continuation still owes a next invocation.
    pub open spec fn is_active(self) -> bool {
        self matches Continuation::Active { .. }
    }

    /// The delay until the next invocation, in milliseconds.
    pub open spec fn next_delay(self) -> u32
        recommends
            self.is_active(),
    {
        match self {
            Continuation::Active { next_delay_ms, .. } => next_delay_ms,
            Continuation::Terminal => 0,
        }
    }
}

/// What one trampoline invocation tells the registry.
#[derive(Clone, Copy, Debug, PartialEq, Eq, Structural)]
pub enum TrampolineOutcome {
    /// Invoke the trampoline again after this many milliseconds (zero: as
    /// soon as possible).
    Reschedule { next_delay_ms: u32 },
    /// The new continuation is `Terminal`: never invoke this timer again.
    Stop,
    /// The slot held no active continuation: the registry invoked a timer
    /// that had already stopped, or overlapped two invocations.  A contract
    /// violation on the registry's side; the slot is left exactly as it was
    /// and the timer must be retired.
    Inconsistent,
}

/// How one trampoline invocation relates the slot before the call, the slot
/// after it, and the reported outcome.
pub open spec fn step_transition<A>(
    pre: Option<Continuation<A>>,
    post: Option<Continuation<A>>,
    r: TrampolineOutcome,
) -> bool {
    match pre {
        Some(Continuation::Active { .. }) => {
            &&& post is Some
            &&& (match post {
                Some(Continuation::Active { next_delay_ms, .. }) => r == (TrampolineOutcome::Reschedule { next_delay_ms }),
                Some(Continuation::Terminal) => r == TrampolineOutcome::Stop,
                None => false,
            })
        },
        _ => {
            &&& post == pre
            &&& r == TrampolineOutcome::Inconsistent
        },
    }
}

/// One invocation of the trampoline over a continuation slot.
///
/// The current continuation is taken out, leaving the slot momentarily empty,
/// so that an overlapping invocation could never run the same action twice.
/// An `Active` continuation has its action invoked exactly once and the
/// continuation it produces is stored back; the outcome reports that new
/// continuation's delay, or `Stop` when it is `Terminal`.  A slot found empty
/// or `Terminal` is left exactly as it was and reported `Inconsistent`: no
/// action exists that could be run.
pub fn trampoline_step<A: TimerAction>(slot: &mut Option<Continuation<A>>) -> (r:
    TrampolineOutcome)
    ensures
        step_transition(*old(slot), *final(slot), r),
{
    let taken = slot.take();
    match taken {
        Some(Continuation::Active { next_delay_ms: _, next_action }) => {
            let next = next_action.invoke();
            let r = match &next {
                Continuation::Active { next_delay_ms, .. } => TrampolineOutcome::Reschedule {
                    next_delay_ms: *next_delay_ms,
                },
                Continuation::Terminal => TrampolineOutcome::Stop,
            };
            *slot = Some(next);
            r
        },
        other => {
            *slot = other;
            TrampolineOutcome::Inconsistent
        },
    }
}

/// The value the trampoline hands back to the native registry for an
/// outcome.  The registry's convention is that zero stops the timer, so zero
/// is returned exactly when the timer must stop (`Stop`, or the fatal
/// `Inconsistent`).  An `Active` continuation's delay of zero means "as soon
/// as possible", never "stop", so it is returned as one millisecond.
pub open spec fn native_return_spec(outcome: TrampolineOutcome) -> u32 {
    match outcome {
        TrampolineOutcome::Reschedule { next_delay_ms } => if next_delay_ms == 0 {
            1u32
        } else {
            next_delay_ms
        },
        TrampolineOutcome::Stop => 0u32,
        TrampolineOutcome::Inconsistent => 0u32,
    }
}

/// Converts a trampoline outcome to the native registry's return value: zero
/// to retire the timer, a positive delay to be invoked again.
pub fn native_return_value(outcome: TrampolineOutcome) -> (r: u32)
    ensures
        r == native_return_spec(outcome),
        r == 0 <==> !(outcome matches TrampolineOutcome::Reschedule { .. }),
{
    match outcome {
        TrampolineOutcome::Reschedule { next_delay_ms } => if next_delay_ms == 0 {
            1
        } else {
            next_delay_ms
        },
        TrampolineOutcome::Stop => 0,
        TrampolineOutcome::Inconsistent => 0,
    }
}

/// A handle's start can fail without touching the handle.
#[derive(Clone, Copy, Debug, PartialEq, Eq, Structural)]
pub enum TimerLifecycleError {
    /// `start` was called while the handle was already registered.
    AlreadyRunning,
    /// The registry answered the registration with its null token.
    RegistrationRefused,
}

/// What `remove` asks of the caller: hand this token to the registry's
/// deregistration call, or nothing was registered.
#[derive(Clone, Copy, Debug, PartialEq, Eq, Structural)]
pub enum RemoveAction {
    Deregister { token: u64 },
    AlreadyStopped,
}

/// The handle a caller owns: the configured first delay, the registry's
/// token for this timer (zero: not registered), and the slot holding the
/// current continuation.
///
/// The slot is the one value both sides touch: the caller installs it before
/// registration, and thereafter the registry's thread works it through
/// [`trampoline_step`] on every tick.  Its storage must therefore keep one
/// fixed address from `start` to teardown — the registry dereferences the raw
/// context pointer it was given at registration.  Addresses are no part of
/// this model; the unverified shell upholds that invariant by boxing the
/// handle once and never moving it while registered.
pub struct Timer<A> {
    delay_ms: u32,
    registry_token: u64,
    slot: Option<Continuation<A>>,
}

/// How `start` relates the handle before the call, the handle after it, the
/// token the registry answered with, and the result.
pub open spec fn start_transition<A>(
    pre: Timer<A>,
    post: Timer<A>,
    token: u64,
    r: Result<(), TimerLifecycleError>,
) -> bool {
    if pre.running() {
        &&& r == Err::<(), TimerLifecycleError>(TimerLifecycleError::AlreadyRunning)
        &&& post == pre
    } else if token == 0 {
        &&& r == Err::<(), TimerLifecycleError>(TimerLifecycleError::RegistrationRefused)
        &&& post == pre
    } else {
        &&& r == Ok::<(), TimerLifecycleError>(())
        &&& post.token() == token
        &&& post.configured_delay() == pre.configured_delay()
        &&& post.continuation() == pre.continuation()
    }
}

/// How `remove` relates the handle before the call, the handle after it, and
/// the action it asks of the caller.  Whatever the prior state, afterwards the
/// token is the null sentinel and the rest of the handle is untouched.
pub open spec fn remove_transition<A>(pre: Timer<A>, post: Timer<A>, r: RemoveAction) -> bool {
    &&& post.token() == 0
    &&& post.configured_delay() == pre.configured_delay()
    &&& post.continuation() == pre.continuation()
    &&& r == if pre.running() {
        (RemoveAction::Deregister { token: pre.token() })
    } else {
        RemoveAction::AlreadyStopped
    }
}

impl<A> Timer<A> {
    /// The delay, in milliseconds, to register the timer with: the time until
    /// the first invocation.
    pub closed spec fn configured_delay(self) -> u32 {
        self.delay_ms
    }

    /// The registry's token for this timer; zero while not registered.
    pub closed spec fn token(self) -> u64 {
        self.registry_token
    }

    /// The current content of the continuation slot.
    pub closed spec fn continuation(self) -> Option<Continuation<A>> {
        self.slot
    }

    /// Whether the handle holds a registration.  After the timer stops on its
    /// own (its continuation became `Terminal`), the token is stale but still
    /// held: only `remove` clears it, and the registry tolerates being asked
    /// to drop a timer it already retired.
    pub open spec fn running(self) -> bool {
        self.token() != 0
    }
}

impl<A: TimerAction> Timer<A> {
    /// Pure construction: stores the first delay and the initial
    /// continuation.  Nothing is registered until `start`.
    pub fn new(delay_ms: u32, initial: Continuation<A>) -> (t: Timer<A>)
        ensures
            t.configured_delay() == delay_ms,
            t.continuation() == Some(initial),
            !t.running(),
    {
        Timer { delay_ms, registry_token: 0, slot: Some(initial) }
    }

    /// The delay to hand to the registry's registration call.
    pub fn delay_ms(&self) -> (d: u32)
        ensures
            d == self.configured_delay(),
    {
        self.delay_ms
    }

    /// Whether the handle holds a registration.
    pub fn is_running(&self) -> (b: bool)
        ensures
            b == self.running(),
    {
        self.registry_token != 0
    }

    /// Records the registry's answer to the registration call made on this
    /// handle's behalf.  Fails, leaving the handle untouched, when the handle
    /// is already registered or when the registry answered with its null
    /// token; otherwise the handle is running under `token`.
    pub fn start(&mut self, token: u64) -> (r: Result<(), TimerLifecycleError>)
        ensures
            start_transition(*old(self), *final(self), token, r),
    {
        if self.registry_token != 0 {
            Err(TimerLifecycleError::AlreadyRunning)
        } else if token == 0 {
            Err(TimerLifecycleError::RegistrationRefused)
        } else {
            self.registry_token = token;
            Ok(())
        }
    }

    /// Clears the registration unconditionally and says what the caller owes
    /// the registry: deregister the held token, or nothing.  Calling it again,
    /// or calling it after the timer stopped on its own, is harmless — the
    /// second call finds the null sentinel and asks for nothing.
    pub fn remove(&mut self) -> (r: RemoveAction)
        ensures
            remove_transition(*old(self), *final(self), r),
    {
        let token = self.registry_token;
        self.registry_token = 0;
        if token != 0 {
            RemoveAction::Deregister { token }
        } else {
            RemoveAction::AlreadyStopped
        }
    }

    /// One tick of this timer: the trampoline invocation the registry makes,
    /// applied to this handle's slot.  Token and configured delay are left
    /// alone — in particular, a `Stop` outcome does not clear the token.
    pub fn tick(&mut self) -> (r: TrampolineOutcome)
        ensures
            step_transition(old(self).continuation(), final(self).continuation(), r),
            final(self).token() == old(self).token(),
            final(self).configured_delay() == old(self).configured_delay(),
    {
        trampoline_step(&mut self.slot)
    }
}

/// Removal is idempotent: after one `remove`, a second finds nothing
/// registered, asks the caller for nothing, and leaves the handle exactly as
/// the first left it.
pub proof fn lemma_remove_idempotent<A>(
    t0: Timer<A>,
    t1: Timer<A>,
    r1: RemoveAction,
    t2: Timer<A>,
    r2: RemoveAction,
)
    requires
        remove_transition(t0, t1, r1),
        remove_transition(t1, t2, r2),
    ensures
        r2 == RemoveAction::AlreadyStopped,
        t2.token() == t1.token(),
        t2.configured_delay() == t1.configured_delay(),
        t2.continuation() == t1.continuation(),
{
}

/// A reschedule is live: when a trampoline invocation reports `Reschedule`
/// with some delay, the slot holds an active continuation carrying exactly
/// that delay — the interval the registry is asked for is the one the next
/// invocation was scheduled under, never an invented one.
pub proof fn lemma_reschedule_keeps_active<A>(
    s0: Option<Continuation<A>>,
    s1: Option<Continuation<A>>,
    r: TrampolineOutcome,
    d: u32,
)
    requires
        step_transition(s0, s1, r),
        r == (TrampolineOutcome::Reschedule { next_delay_ms: d }),
    ensures
        s1 matches Some(c) && c.is_active() && c.next_delay() == d,
        native_return_spec(r) > 0,
{
}

/// A stop is final: when a trampoline invocation reports `Stop`, the slot
/// holds `Terminal`, and any later invocation the registry makes in breach of
/// that signal runs no action — it leaves the slot exactly as it was and
/// reports `Inconsistent`, whose native return value again tells the registry
/// to stop.
pub proof fn lemma_stop_is_final<A>(
    s0: Option<Continuation<A>>,
    s1: Option<Continuation<A>>,
    r1: TrampolineOutcome,
    s2: Option<Continuation<A>>,
    r2: TrampolineOutcome,
)
    requires
        step_transition(s0, s1, r1),
        r1 == TrampolineOutcome::Stop,
        step_transition(s1, s2, r2),
    ensures
        s1 == Some(Continuation::<A>::Terminal),
        s2 == s1,
        r2 == TrampolineOutcome::Inconsistent,
        native_return_spec(r2) == 0,
{
}

} // verus!
