//! System control unit: the fields of a pin configuration register, and the
//! selection of the GPIO bit each pin-interrupt channel listens to.

use crate::fields::FieldValue;
use crate::hardware::{Channel, Hardware, Registers, CHANNELS, GPIO_PORTS, PINS_PER_PORT};
use vstd::prelude::*;

verus! {

/// Function select: bits 2 to 0.
pub open spec fn spec_mode(function: u32) -> FieldValue {
    FieldValue { mask: 0x7, value: function & 0x7 }
}

/// Pull-down resistor enabled: bit 3 set.
pub open spec fn spec_pull_down_enabled() -> FieldValue {
    FieldValue { mask: 0x8, value: 0x8 }
}

/// Pull-down resistor disabled: bit 3 clear.
pub open spec fn spec_pull_down_disabled() -> FieldValue {
    FieldValue { mask: 0x8, value: 0 }
}

/// Pull-up resistor enabled: bit 4 clear.
pub open spec fn spec_pull_up_enabled() -> FieldValue {
    FieldValue { mask: 0x10, value: 0 }
}

/// Pull-up resistor disabled: bit 4 set.
pub open spec fn spec_pull_up_disabled() -> FieldValue {
    FieldValue { mask: 0x10, value: 0x10 }
}

/// Input buffer enabled: bit 6 set.
pub open spec fn spec_input_buffer_enabled() -> FieldValue {
    FieldValue { mask: 0x40, value: 0x40 }
}

/// Input buffer disabled: bit 6 clear.
pub open spec fn spec_input_buffer_disabled() -> FieldValue {
    FieldValue { mask: 0x40, value: 0 }
}

/// Input glitch filter enabled: bit 7 clear.
pub open spec fn spec_glitch_filter_enabled() -> FieldValue {
    FieldValue { mask: 0x80, value: 0 }
}

/// Input glitch filter disabled: bit 7 set.
pub open spec fn spec_glitch_filter_disabled() -> FieldValue {
    FieldValue { mask: 0x80, value: 0x80 }
}

/// Normal drive strength: bits 9 and 8 clear.
pub open spec fn spec_normal_drive() -> FieldValue {
    FieldValue { mask: 0x300, value: 0 }
}

/// Where each field lies in the register.
proof fn lemma_field_positions()
    by (bit_vector)
    ensures
        forall|f: u32|
            0x7u32 << 0u32 == 0x7 && #[trigger] ((f & 0x7) << 0u32) == f & 0x7 && f & 0x7 <= 0x7,
        0x1u32 << 3u32 == 0x8,
        0x1u32 << 4u32 == 0x10,
        0x1u32 << 6u32 == 0x40,
        0x1u32 << 7u32 == 0x80,
        0x3u32 << 8u32 == 0x300,
        (0x1u32 & 0x1) << 3u32 == 0x8,
        (0x1u32 & 0x1) << 4u32 == 0x10,
        (0x1u32 & 0x1) << 6u32 == 0x40,
        (0x1u32 & 0x1) << 7u32 == 0x80,
        (0x0u32 & 0x1) << 3u32 == 0,
        (0x0u32 & 0x1) << 4u32 == 0,
        (0x0u32 & 0x1) << 6u32 == 0,
        (0x0u32 & 0x1) << 7u32 == 0,
        (0x0u32 & 0x3) << 8u32 == 0,
{
}

/// Function select `function`; only its low three bits count.
pub fn mode(function: u32) -> (fv: FieldValue)
    ensures
        fv == spec_mode(function),
        fv.value <= 0x7,
        fv.wf(),
{
    proof {
        lemma_field_positions();
    }
    FieldValue::new(0x7, 0, function)
}

/// Pull-down resistor enabled.
pub fn pull_down_enabled() -> (fv: FieldValue)
    ensures
        fv == spec_pull_down_enabled(),
        fv.wf(),
{
    proof {
        lemma_field_positions();
    }
    FieldValue::new(0x1, 3, 1)
}

/// Pull-down resistor disabled.
pub fn pull_down_disabled() -> (fv: FieldValue)
    ensures
        fv == spec_pull_down_disabled(),
        fv.wf(),
{
    proof {
        lemma_field_positions();
    }
    FieldValue::new(0x1, 3, 0)
}

/// Pull-up resistor enabled.
pub fn pull_up_enabled() -> (fv: FieldValue)
    ensures
        fv == spec_pull_up_enabled(),
        fv.wf(),
{
    proof {
        lemma_field_positions();
    }
    FieldValue::new(0x1, 4, 0)
}

/// Pull-up resistor disabled.
pub fn pull_up_disabled() -> (fv: FieldValue)
    ensures
        fv == spec_pull_up_disabled(),
        fv.wf(),
{
    proof {
        lemma_field_positions();
    }
    FieldValue::new(0x1, 4, 1)
}

/// Input buffer enabled.
pub fn input_buffer_enabled() -> (fv: FieldValue)
    ensures
        fv == spec_input_buffer_enabled(),
        fv.wf(),
{
    proof {
        lemma_field_positions();
    }
    FieldValue::new(0x1, 6, 1)
}

/// Input buffer disabled.
pub fn input_buffer_disabled() -> (fv: FieldValue)
    ensures
        fv == spec_input_buffer_disabled(),
        fv.wf(),
{
    proof {
        lemma_field_positions();
    }
    FieldValue::new(0x1, 6, 0)
}

/// Input glitch filter enabled.
pub fn glitch_filter_enabled() -> (fv: FieldValue)
    ensures
        fv == spec_glitch_filter_enabled(),
        fv.wf(),
{
    proof {
        lemma_field_positions();
    }
    FieldValue::new(0x1, 7, 0)
}

/// Input glitch filter disabled.
pub fn glitch_filter_disabled() -> (fv: FieldValue)
    ensures
        fv == spec_glitch_filter_disabled(),
        fv.wf(),
{
    proof {
        lemma_field_positions();
    }
    FieldValue::new(0x1, 7, 1)
}

/// Normal drive strength.
pub fn normal_drive() -> (fv: FieldValue)
    ensures
        fv == spec_normal_drive(),
        fv.wf(),
{
    proof {
        lemma_field_positions();
    }
    FieldValue::new(0x3, 8, 0)
}

/// The state with `channel` wired to GPIO bit (`port`, `pin`).
pub open spec fn spec_gpio_int_pin_sel(r: Registers, channel: int, port: u8, pin: u8) -> Registers {
    r.with_channel(channel, r.channels[channel].wired_to(port, pin))
}

/// Wires pin-interrupt channel `channel` to GPIO bit (`port`, `pin`). An
/// earlier wiring of the channel is overwritten; its edge selection, its
/// status flag and its interrupt line are left as they are.
pub fn gpio_int_pin_sel(hw: &mut Hardware, channel: u8, port: u8, pin: u8)
    requires
        old(hw).wf(),
        channel < CHANNELS,
        port < GPIO_PORTS,
        pin < PINS_PER_PORT,
    ensures
        final(hw).wf(),
        final(hw)@ == spec_gpio_int_pin_sel(old(hw)@, channel as int, port, pin),
{
    let current = hw.channel(channel);
    hw.set_channel(channel, Channel { bound: true, port, bit: pin, ..current });
}

} // verus!
