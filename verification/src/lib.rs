//! Pin multiplexing, GPIO and pin-interrupt driver logic for the LPC43xx,
//! verified against an in-memory register file.

pub mod chip;
pub mod fields;
pub mod gpio;
pub mod gpio_pin_int;
pub mod hardware;
pub mod hil;
pub mod lemmas;
pub mod nvic;
pub mod scu;

use crate::hardware::Hardware;
use vstd::prelude::*;

verus! {

/// Brings the interrupt controller into its start state: with interrupts
/// masked, forgets every pending interrupt; then unmasks interrupts.
pub fn init(hw: &mut Hardware)
    requires
        old(hw).wf(),
    ensures
        final(hw).wf(),
        final(hw)@ == old(hw)@.with_nothing_pending().with_mask(false),
{
    hw.set_interrupt_mask(true);
    hw.irq_clear_all_pending();
    hw.set_interrupt_mask(false);
    assert(hw@ =~= old(hw)@.with_nothing_pending().with_mask(false));
}

} // verus!
