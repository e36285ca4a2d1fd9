//! The remote-wakeup request: a one-shot notification from the scanner to
//! the task that watches the bus. Raising it twice before it is taken is the
//! same as raising it once.

use embassy_sync::blocking_mutex::raw::CriticalSectionRawMutex;
use embassy_sync::signal::Signal;
use vstd::prelude::*;

verus! {

/// The remote-wakeup request, kept in a `Signal` of `embassy_sync`.
#[verifier::external_body]
pub struct WakeupSignal {
    inner: Signal<CriticalSectionRawMutex, ()>,
}

/// Whether the `Signal` of `embassy_sync` holds a value: whether `signal`
/// has been called since the last `try_take`.
pub uninterp spec fn signal_pending(signal: WakeupSignal) -> bool;

/// `Signal::new`: a signal that nobody has raised.
#[verifier::external_body]
fn signal_new() -> (signal: WakeupSignal)
    ensures
        !signal_pending(signal),
{
    WakeupSignal { inner: Signal::new() }
}

/// `Signal::signal`: the signal is raised, whether or not it was before.
#[verifier::external_body]
fn signal_raise(signal: &mut WakeupSignal)
    ensures
        signal_pending(*final(signal)),
{
    signal.inner.signal(())
}

/// `Signal::try_take`: says whether the signal was raised, and lowers it.
#[verifier::external_body]
fn signal_try_take(signal: &mut WakeupSignal) -> (taken: bool)
    ensures
        taken == signal_pending(*old(signal)),
        !signal_pending(*final(signal)),
{
    signal.inner.try_take().is_some()
}

/// `Signal::signaled`: whether the signal is raised.
#[verifier::external_body]
fn signal_signaled(signal: &WakeupSignal) -> (pending: bool)
    ensures
        pending == signal_pending(*signal),
{
    signal.inner.signaled()
}

impl View for WakeupSignal {
    type V = bool;

    /// Whether a wakeup has been asked for and not yet taken.
    closed spec fn view(&self) -> bool {
        signal_pending(*self)
    }
}

impl WakeupSignal {
    /// A signal with no wakeup pending.
    pub fn new() -> (signal: Self)
        ensures
            !signal@,
    {
        signal_new()
    }

    /// Asks for a wakeup. Asking again before the request is taken changes
    /// nothing.
    pub fn raise(&mut self)
        ensures
            final(self)@,
    {
        signal_raise(self)
    }

    /// Takes the request: says whether a wakeup was asked for since the last
    /// call, and clears the request.
    pub fn take(&mut self) -> (requested: bool)
        ensures
            requested == old(self)@,
            !final(self)@,
    {
        signal_try_take(self)
    }

    /// Whether a wakeup is pending.
    pub fn is_raised(&self) -> (pending: bool)
        ensures
            pending == self@,
    {
        signal_signaled(self)
    }
}

} // verus!
