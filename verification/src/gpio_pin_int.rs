//! The pin-interrupt block: status and edge selection of each channel.

use crate::hardware::{Hardware, Registers, CHANNELS};
use vstd::prelude::*;

verus! {

/// The state with the status flag of `channel` cleared.
pub open spec fn spec_clear_int_status(r: Registers, channel: int) -> Registers {
    r.with_channel(channel, r.channels[channel].with_status(false))
}

/// The state with `channel` reacting to edges.
pub open spec fn spec_set_pin_mode_edge(r: Registers, channel: int) -> Registers {
    r.with_channel(channel, r.channels[channel].edge_sensitive())
}

/// The state with `channel` latching rising edges.
pub open spec fn spec_enable_int_high(r: Registers, channel: int) -> Registers {
    r.with_channel(channel, r.channels[channel].with_rising())
}

/// The state with `channel` latching falling edges.
pub open spec fn spec_enable_int_low(r: Registers, channel: int) -> Registers {
    r.with_channel(channel, r.channels[channel].with_falling())
}

/// Clears the status flag of `channel`, so that an edge latched earlier is
/// forgotten.
pub fn clear_int_status(hw: &mut Hardware, channel: u8)
    requires
        old(hw).wf(),
        channel < CHANNELS,
    ensures
        final(hw).wf(),
        final(hw)@ == spec_clear_int_status(old(hw)@, channel as int),
{
    let current = hw.channel(channel);
    hw.set_channel(channel, crate::hardware::Channel { status: false, ..current });
}

/// Makes `channel` react to edges rather than levels.
pub fn set_pin_mode_edge(hw: &mut Hardware, channel: u8)
    requires
        old(hw).wf(),
        channel < CHANNELS,
    ensures
        final(hw).wf(),
        final(hw)@ == spec_set_pin_mode_edge(old(hw)@, channel as int),
{
    let current = hw.channel(channel);
    hw.set_channel(channel, crate::hardware::Channel { level_sensitive: false, ..current });
}

/// Makes `channel` latch rising edges.
pub fn enable_int_high(hw: &mut Hardware, channel: u8)
    requires
        old(hw).wf(),
        channel < CHANNELS,
    ensures
        final(hw).wf(),
        final(hw)@ == spec_enable_int_high(old(hw)@, channel as int),
{
    let current = hw.channel(channel);
    hw.set_channel(channel, crate::hardware::Channel { rising: true, ..current });
}

/// Makes `channel` latch falling edges.
pub fn enable_int_low(hw: &mut Hardware, channel: u8)
    requires
        old(hw).wf(),
        channel < CHANNELS,
    ensures
        final(hw).wf(),
        final(hw)@ == spec_enable_int_low(old(hw)@, channel as int),
{
    let current = hw.channel(channel);
    hw.set_channel(channel, crate::hardware::Channel { falling: true, ..current });
}

} // verus!
