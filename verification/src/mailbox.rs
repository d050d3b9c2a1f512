//! The single-slot, last-write-wins cell that carries the currently
//! intended alarm instant from the driver to the watcher task.
//!
//! The cell is `embassy_sync::signal::Signal`, a single-consumer signaling
//! primitive: writing overwrites any unread value (no buffering), reading
//! takes the value out. Verus cannot declare `Signal` directly (its `M:
//! RawMutex` bound names a foreign trait), so the signal lives inside an
//! opaque holder whose abstract state — the unread value, if any — is the
//! uninterpreted [`mailbox_slot`]. The asynchronous `wait` side of the
//! signal belongs to the runtime shell around this crate; the synchronous
//! operations below are what the rearm protocol and the watcher's polling
//! use.

use vstd::prelude::*;
use embassy_sync::blocking_mutex::raw::CriticalSectionRawMutex;
use embassy_sync::signal::Signal;

verus! {

/// The mailbox holding the most recently intended alarm target, or the
/// sentinel `TICK_MAX` meaning "none armed". Exactly one logical value;
/// the last write wins.
#[verifier::external_body]
pub struct AlarmMailbox {
    cell: Signal<CriticalSectionRawMutex, u64>,
}

/// The unread value held by the mailbox's signal: `Some(v)` after
/// `signal(v)` until the next `try_take`, `None` otherwise.
pub uninterp spec fn mailbox_slot(m: AlarmMailbox) -> Option<u64>;

impl AlarmMailbox {
    /// The unread value currently held, if any.
    pub open spec fn slot(self) -> Option<u64> {
        mailbox_slot(self)
    }

    /// Relies on `Signal::new`: a fresh signal holds no value.
    #[verifier::external_body]
    pub fn new() -> (m: AlarmMailbox)
        ensures
            mailbox_slot(m) == None::<u64>,
    {
        AlarmMailbox { cell: Signal::new() }
    }

    /// Relies on `Signal::signal`: stores `v`, overwriting any unread
    /// value; the previous value is lost, never buffered.
    #[verifier::external_body]
    pub fn signal(&mut self, v: u64)
        ensures
            mailbox_slot(*final(self)) == Some(v),
    {
        self.cell.signal(v);
    }

    /// Relies on `Signal::signaled`: reports whether an unread value is
    /// present, without clearing it.
    #[verifier::external_body]
    pub fn signaled(&self) -> (r: bool)
        ensures
            r <==> mailbox_slot(*self) is Some,
    {
        self.cell.signaled()
    }

    /// Relies on `Signal::try_take`: removes and returns the unread value,
    /// if any.
    #[verifier::external_body]
    pub fn try_take(&mut self) -> (r: Option<u64>)
        ensures
            r == mailbox_slot(*old(self)),
            mailbox_slot(*final(self)) == None::<u64>,
    {
        self.cell.try_take()
    }
}

} // verus!
