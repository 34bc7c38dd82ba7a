//! The chip as the scheduler sees it: whether interrupts wait to be
//! serviced, servicing them, and running code with interrupts masked.

use crate::hardware::Hardware;
use vstd::prelude::*;

verus! {

/// The chip.
pub struct Lpc43xx {}

impl Lpc43xx {
    pub fn new() -> Lpc43xx {
        Lpc43xx {  }
    }

    /// Whether work waits for the scheduler: an interrupt line that is
    /// pending and unmasked, or a deferred task, of which the caller says
    /// whether one is queued.
    pub fn has_pending_interrupts(&self, hw: &Hardware, deferred_tasks: bool) -> (pending: bool)
        requires
            hw.wf(),
        ensures
            pending == (hw@.has_pending() || deferred_tasks),
    {
        hw.has_pending() || deferred_tasks
    }

    /// Services pending interrupts until none is left: takes the lowest
    /// pending line, dispatches it, clears its pending flag and unmasks it
    /// again.
    ///
    /// No interrupt line has a handler to dispatch to, so a pending line
    /// cannot be serviced: the caller must see to it that none is pending.
    /// The registers are then left as they are.
    pub fn service_pending_interrupts(&mut self, hw: &mut Hardware)
        requires
            old(hw).wf(),
            !old(hw)@.has_pending(),
        ensures
            final(hw).wf(),
            final(hw)@ == old(hw)@,
    {
        loop
            invariant
                hw.wf(),
                hw@ == old(hw)@,
                !hw@.has_pending(),
            decreases 0int,
        {
            if let Some(interrupt) = hw.next_pending() {
                assert(hw@.deliverable(interrupt as int));
                hw.irq_clear_pending(interrupt);
                hw.irq_enable(interrupt);
            } else {
                break ;
            }
        }
    }

    /// Runs `f` with interrupts masked and puts the mask back to what it was
    /// before, whatever `f` returns.
    pub fn atomic<F, R>(&self, hw: &mut Hardware, f: F) -> (r: R) where F: FnOnce() -> R
        requires
            old(hw).wf(),
            f.requires(()),
        ensures
            final(hw).wf(),
            final(hw)@ == old(hw)@,
            f.ensures((), r),
    {
        let prior = hw.set_interrupt_mask(true);
        let r = f();
        hw.set_interrupt_mask(prior);
        assert(hw@ =~= old(hw)@);
        r
    }
}

} // verus!
