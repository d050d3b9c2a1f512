//! The hardware-timer interface that concrete peripheral drivers
//! implement. The alarm core itself abstracts time through
//! [`crate::clock::TickClock`]; this trait is the lower-level,
//! interrupt-driven countdown timer shape that boards provide.

use vstd::prelude::*;
use core::convert::Infallible;
use fugit::NanosDurationU32;

verus! {

#[verifier::external_type_specification]
#[verifier::external_body]
#[verifier::reject_recursive_types(T)]
pub struct ExDuration<T, const NOM: u64, const DENOM: u64>(fugit::Duration<T, NOM, DENOM>);

#[verifier::external_type_specification]
#[verifier::external_body]
#[verifier::reject_recursive_types(E)]
pub struct ExNbError<E>(nb::Error<E>);

/// A timer that can enable and disable an interrupt that fires when the
/// timer expires. Hardware behavior carries no contracts here; the
/// verified core never relies on it.
pub trait InterruptDrivenTimer {
    /// Enable the timer interrupt.
    fn enable_interrupt(&mut self);

    /// Start the timer with a given timeout in nanoseconds.
    fn start<T: Into<NanosDurationU32>>(&mut self, timeout: T);

    /// Wait for the timer to finish counting down, without blocking:
    /// report `WouldBlock` until the countdown has elapsed.
    fn wait(&mut self) -> nb::Result<(), Infallible>;

    /// The current count of the timer.
    fn count(&self) -> u32;

    /// Reset the counter.
    fn retrigger(&mut self);

    /// Disable the timer interrupt.
    fn disable_interrupt(&mut self);
}

} // verus!
