//! What holds of every pin and every state of the registers.

use crate::fields::FieldValue;
use crate::gpio::{
    board_identity, board_names, spec_floating_field, spec_low_power, spec_mode_bits,
    spec_pulled_up, GPIOPin, PORT_SLOTS,
};
use crate::hardware::{ChannelState, Edge, Registers, GPIO_PORTS, PINS_PER_PORT};
use crate::hil::{ClientId, Configuration, FloatingState, InterruptEdge};
use crate::scu::{spec_pull_down_enabled, spec_pull_up_enabled};
use vstd::prelude::*;

verus! {

/// Bit `k` of `word` is set.
pub open spec fn bit_is_set(word: u32, k: u32) -> bool {
    word & (1u32 << k) != 0
}

/// `mode` asks for interrupts on `edge`.
pub open spec fn covers(mode: InterruptEdge, edge: Edge) -> bool {
    match mode {
        InterruptEdge::EitherEdge => true,
        InterruptEdge::RisingEdge => edge == Edge::Rising,
        InterruptEdge::FallingEdge => edge == Edge::Falling,
    }
}

/// Register arithmetic: the settings of a multiplexer register as numbers.
proof fn lemma_mux_numbers(f: u32)
    by (bit_vector)
    requires
        f <= 0x7,
    ensures
        f & !0x7u32 == 0,
        (0x7u32 | 0x80u32) | 0x40u32 == 0xC7,
        (f | 0x80u32) | 0x40u32 == f | 0xC0,
        ((((0x7u32 | 0x8u32) | 0x10u32) | 0x40u32) | 0x80u32) | 0x300u32 == 0x3DF,
        (((((0u32 & 0x7) | 0u32) | 0x10u32) | 0u32) | 0u32) | 0u32 == 0x10,
        0x10u32 | 0x8u32 == 0x18,
        0u32 | 0u32 == 0,
        0x10u32 & 0xC7u32 != f | 0xC0,
        0x10u32 & 0x8u32 != 0x8,
        0x10u32 & 0x10u32 != 0,
{
}

/// Register arithmetic: changing the pull resistor fields of a multiplexer
/// register leaves function select, input buffer and glitch filter as they
/// are.
proof fn lemma_pulls_leave_gpio_setting(register: u32)
    by (bit_vector)
    ensures
        ((register & !(0x10u32 | 0x8u32)) | (0u32 | 0u32)) & ((0x7u32 | 0x80u32) | 0x40u32)
            == register & ((0x7u32 | 0x80u32) | 0x40u32),
{
}

/// Register arithmetic: each selection of the two pull resistor fields
/// reads back as itself, and switching one resistor leaves the other.
proof fn lemma_pull_bits(register: u32)
    by (bit_vector)
    ensures
        ((register & !(0x8u32 | 0x10u32)) | (0u32 | 0u32)) & 0x8u32 != 0x8u32,
        ((register & !(0x8u32 | 0x10u32)) | (0u32 | 0u32)) & 0x10u32 == 0u32,
        ((register & !(0x10u32 | 0x8u32)) | (0x10u32 | 0x8u32)) & 0x8u32 == 0x8u32,
        ((register & !(0x10u32 | 0x8u32)) | (0x10u32 | 0u32)) & 0x8u32 != 0x8u32,
        ((register & !(0x10u32 | 0x8u32)) | (0x10u32 | 0u32)) & 0x10u32 != 0u32,
        ((register & !0x8u32) | 0x8u32) & 0x8u32 == 0x8u32,
        ((register & !0x8u32) | 0u32) & 0x8u32 != 0x8u32,
        ((register & !0x10u32) | 0u32) & 0x10u32 == 0u32,
        ((register & !0x10u32) | 0x10u32) & 0x10u32 != 0u32,
        ((register & !0x8u32) | 0x8u32) & 0x10u32 == register & 0x10u32,
        ((register & !0x8u32) | 0u32) & 0x10u32 == register & 0x10u32,
        ((register & !0x10u32) | 0u32) & 0x8u32 == register & 0x8u32,
        ((register & !0x10u32) | 0x10u32) & 0x8u32 == register & 0x8u32,
{
}

/// Register arithmetic: setting or clearing bit `b` of a word makes that bit
/// read as set or clear and leaves every other bit as it is.
proof fn lemma_one_bit_changes(word: u32, b: u32, k: u32)
    by (bit_vector)
    requires
        b < 32,
        k < 32,
    ensures
        ((word & !(1u32 << b)) | (1u32 << b)) & (1u32 << b) == 1u32 << b,
        ((word & !(1u32 << b)) | 0u32) & (1u32 << b) != 1u32 << b,
        k != b ==> ((word & !(1u32 << b)) | (1u32 << b)) & (1u32 << k) == word & (1u32 << k),
        k != b ==> ((word & !(1u32 << b)) | 0u32) & (1u32 << k) == word & (1u32 << k),
{
}

/// A function select value names no bit outside its mask.
pub proof fn lemma_function_select(func: FieldValue)
    requires
        func.mask == 0x7,
        func.value <= 0x7,
    ensures
        func.wf(),
{
    lemma_mux_numbers(func.value);
}

/// The settings of a multiplexer register as numbers: the GPIO setting of a
/// pin is its function select value with bits 7 and 6 set, looked at
/// through the mask `0xC7`; the idle setting is `0x10` under the mask
/// `0x3DF`; the pulled-up setting clears bits 4 and 3.
pub proof fn lemma_settings_as_numbers(pin: GPIOPin)
    requires
        pin.wf(),
    ensures
        pin.identity().gpio_function() == (FieldValue {
            mask: 0xC7,
            value: pin.identity().func.value | 0xC0,
        }),
        spec_low_power() == (FieldValue { mask: 0x3DF, value: 0x10 }),
        spec_pulled_up() == (FieldValue { mask: 0x18, value: 0 }),
{
    lemma_mux_numbers(pin.identity().func.value);
}

/// After `enable` and then `make_output` the pin is configured as an
/// output, whatever the registers held before.
pub proof fn lemma_output_after_enable(pin: GPIOPin, r: Registers)
    requires
        pin.wf(),
        r.wf(),
    ensures
        pin.spec_configuration(pin.spec_make_output(pin.spec_enable(r))) == Configuration::Output,
{
    lemma_enabled_pin_is_gpio(pin, r);
    lemma_direction_is_reported(pin, pin.spec_enable(r));
}

/// After `enable` and then `make_input` the pin is configured as an input,
/// whatever the registers held before.
pub proof fn lemma_input_after_enable(pin: GPIOPin, r: Registers)
    requires
        pin.wf(),
        r.wf(),
    ensures
        pin.spec_configuration(pin.spec_make_input(pin.spec_enable(r))) == Configuration::Input,
{
    lemma_enabled_pin_is_gpio(pin, r);
    lemma_direction_is_reported(pin, pin.spec_enable(r));
}

/// After `enable` the pin is set up as a GPIO, so its configuration is
/// `Input` or `Output` as its direction bit says.
pub proof fn lemma_enabled_pin_is_gpio(pin: GPIOPin, r: Registers)
    requires
        pin.wf(),
        r.wf(),
    ensures
        pin.spec_enable(r).wf(),
        pin.spec_is_gpio(pin.spec_enable(r)),
        pin.spec_is_output(pin.spec_enable(r)) == pin.spec_is_output(r),
{
    let f = pin.identity().func.value;
    assert(((f | 0x80u32) | 0x40u32) & ((0x7u32 | 0x80u32) | 0x40u32) == (f | 0x80u32) | 0x40u32)
        by (bit_vector)
        requires
            f <= 0x7,
    ;
}

/// After `disable` the pin is not a GPIO and has no pull resistor.
pub proof fn lemma_disabled_pin_is_idle(pin: GPIOPin, r: Registers)
    requires
        pin.wf(),
        r.wf(),
    ensures
        pin.spec_configuration(pin.spec_disable(r)) == Configuration::Function,
        pin.spec_floating_state(pin.spec_disable(r)) == FloatingState::PullNone,
{
    lemma_mux_numbers(pin.identity().func.value);
}

/// The pin's direction bit is set right after `make_output` and clear right
/// after `make_input`.
pub proof fn lemma_direction_is_set(pin: GPIOPin, r: Registers)
    requires
        pin.wf(),
        r.wf(),
    ensures
        pin.spec_is_output(pin.spec_make_output(r)),
        !pin.spec_is_output(pin.spec_make_input(r)),
{
    let id = pin.identity();
    lemma_one_bit_changes(r.direction(id.gpio_port as int), id.gpio_pin, id.gpio_pin);
}

/// A pin that is set up as a GPIO is an output right after `make_output`
/// and an input right after `make_input`.
pub proof fn lemma_direction_is_reported(pin: GPIOPin, r: Registers)
    requires
        pin.wf(),
        r.wf(),
        pin.spec_is_gpio(r),
    ensures
        pin.spec_configuration(pin.spec_make_output(r)) == Configuration::Output,
        pin.spec_configuration(pin.spec_make_input(r)) == Configuration::Input,
{
    let id = pin.identity();
    lemma_pulls_leave_gpio_setting(pin.mux(r));
    lemma_one_bit_changes(r.direction(id.gpio_port as int), id.gpio_pin, id.gpio_pin);
}

/// Whatever the registers hold, a pin that is enabled and made an output
/// and then has its output disabled is an input.
pub proof fn lemma_disabled_output_is_input(pin: GPIOPin, r: Registers)
    requires
        pin.wf(),
        r.wf(),
    ensures
        pin.spec_configuration(
            pin.spec_make_input(pin.spec_enable(pin.spec_make_output(pin.spec_enable(r)))),
        ) == Configuration::Input,
{
    lemma_input_after_enable(pin, pin.spec_make_output(pin.spec_enable(r)));
}

/// `make_output` and `make_input` change the pin's own bit of its port's
/// direction register and no other: every other bit of that register, and
/// every other direction register, is as before.
pub proof fn lemma_direction_of_others_untouched(pin: GPIOPin, r: Registers, port: int, k: u32)
    requires
        pin.wf(),
        r.wf(),
        0 <= port < GPIO_PORTS,
        k < PINS_PER_PORT,
        port != pin.identity().gpio_port || k != pin.identity().gpio_pin,
    ensures
        bit_is_set(pin.spec_make_output(r).direction(port), k) == bit_is_set(r.direction(port), k),
        bit_is_set(pin.spec_make_input(r).direction(port), k) == bit_is_set(r.direction(port), k),
{
    let id = pin.identity();
    lemma_one_bit_changes(r.direction(id.gpio_port as int), id.gpio_pin, k);
}

/// Toggling a pin inverts what it reads, so toggling it twice brings back
/// what it read before.
pub proof fn lemma_toggle_is_involution(pin: GPIOPin, r: Registers)
    requires
        pin.wf(),
        r.wf(),
    ensures
        pin.spec_read(pin.spec_toggle(r)) == !pin.spec_read(r),
        pin.spec_read(pin.spec_toggle(pin.spec_toggle(r))) == pin.spec_read(r),
{
}

/// Writing the level of one pin leaves the byte register of every other
/// GPIO bit as it is.
pub proof fn lemma_level_of_others_untouched(
    pin: GPIOPin,
    r: Registers,
    value: u8,
    port: int,
    bit: int,
)
    requires
        pin.wf(),
        r.wf(),
        0 <= port < GPIO_PORTS,
        0 <= bit < PINS_PER_PORT,
        port != pin.identity().gpio_port || bit != pin.identity().gpio_pin,
    ensures
        pin.with_level(r, value).level(port, bit) == r.level(port, bit),
        pin.spec_toggle(r).level(port, bit) == r.level(port, bit),
{
}

/// The pull resistor setting that was chosen is the one that is read back.
pub proof fn lemma_floating_state_round_trip(pin: GPIOPin, r: Registers, state: FloatingState)
    requires
        pin.wf(),
        r.wf(),
    ensures
        pin.spec_floating_state(pin.with_mux_field(r, spec_floating_field(state))) == state,
{
    lemma_pull_bits(pin.mux(r));
}

/// The two pull resistors are switched independently: switching the
/// pull-down leaves the pull-up as it is, and the other way round.
pub proof fn lemma_pull_resistors_are_independent(pin: GPIOPin, r: Registers)
    requires
        pin.wf(),
        r.wf(),
    ensures
        ({
            let down_on = pin.with_mux_field(r, spec_pull_down_enabled());
            let down_off = pin.with_mux_field(r, crate::scu::spec_pull_down_disabled());
            let up_on = pin.with_mux_field(r, spec_pull_up_enabled());
            let up_off = pin.with_mux_field(r, crate::scu::spec_pull_up_disabled());
            let has_up = |s: Registers| spec_pull_up_enabled().spec_matches_all(pin.mux(s));
            let has_down = |s: Registers| spec_pull_down_enabled().spec_matches_all(pin.mux(s));
            &&& has_down(down_on) && has_up(down_on) == has_up(r)
            &&& !has_down(down_off) && has_up(down_off) == has_up(r)
            &&& has_up(up_on) && has_down(up_on) == has_down(r)
            &&& !has_up(up_off) && has_down(up_off) == has_down(r)
        }),
{
    lemma_pull_bits(pin.mux(r));
}

/// What servicing the pin's interrupt line does. Where the interrupt
/// controller reports the line, the pin's handler runs, then the line's
/// pending flag is cleared and the line is unmasked again; the result is the
/// state afterwards and the callback that is notified, if one is
/// registered. Where the line is not reported, nothing happens.
pub open spec fn serviced(pin: GPIOPin, r: Registers) -> (Registers, Option<ClientId>) {
    let line = pin.identity().interrupt_line();
    if r.deliverable(line) {
        (
            pin.spec_handle_interrupt(r).with_irq_pending(line, false).with_irq_enabled(line, true),
            pin.client(),
        )
    } else {
        (r, None)
    }
}

/// The state after the pin's channel is set up for `mode` and armed.
pub open spec fn armed_for(pin: GPIOPin, r: Registers, mode: InterruptEdge) -> Registers {
    pin.spec_enable_interrupt(pin.spec_set_interrupt_mode(r, spec_mode_bits(mode)))
}

/// The state after `edge` arrives at the pin.
pub open spec fn after_edge_at(pin: GPIOPin, r: Registers, edge: Edge) -> Registers {
    r.after_edge(pin.identity().gpio_port as int, pin.identity().gpio_pin as int, edge)
}

/// Once a pin's channel is set up for `mode` and armed, nothing is reported
/// until an edge arrives. An edge at the pin that `mode` covers is then
/// serviced once: the first servicing notifies the registered callback and
/// leaves the channel's status flag and the line's pending flag clear, and
/// a second servicing finds nothing to do.
pub proof fn lemma_armed_edge_is_delivered_once(
    pin: GPIOPin,
    r: Registers,
    mode: InterruptEdge,
    edge: Edge,
)
    requires
        pin.wf(),
        pin.identity().assigned_interrupt is Some,
        r.wf(),
        covers(mode, edge),
    ensures
        ({
            let channel = pin.identity().assigned_interrupt.unwrap() as int;
            let line = pin.identity().interrupt_line();
            let armed = armed_for(pin, r, mode);
            let fired = after_edge_at(pin, armed, edge);
            let first = serviced(pin, fired);
            let second = serviced(pin, first.0);
            &&& serviced(pin, armed) == (armed, None::<ClientId>)
            &&& fired.channels[channel].status
            &&& first.1 == pin.client()
            &&& !first.0.channels[channel].status
            &&& !first.0.irq_pending[line]
            &&& second == (first.0, None::<ClientId>)
        }),
{
}

/// An edge that `mode` does not cover is not serviced: the channel does not
/// latch it and the pin's line is not reported.
pub proof fn lemma_uncovered_edge_is_not_delivered(
    pin: GPIOPin,
    r: Registers,
    mode: InterruptEdge,
    edge: Edge,
)
    requires
        pin.wf(),
        pin.identity().assigned_interrupt is Some,
        r.wf(),
        !covers(mode, edge),
        !r.channels[pin.identity().assigned_interrupt.unwrap() as int].rising,
        !r.channels[pin.identity().assigned_interrupt.unwrap() as int].falling,
    ensures
        ({
            let channel = pin.identity().assigned_interrupt.unwrap() as int;
            let armed = armed_for(pin, r, mode);
            let fired = after_edge_at(pin, armed, edge);
            &&& !fired.channels[channel].status
            &&& serviced(pin, fired) == (fired, None::<ClientId>)
        }),
{
}

/// Two edges that `mode` covers, each serviced when it has arrived, notify
/// the registered callback twice; before each notification the channel's
/// status flag is clear, and in the end no flag is left set and nothing is
/// left to service.
pub proof fn lemma_two_edges_are_delivered_twice(
    pin: GPIOPin,
    r: Registers,
    mode: InterruptEdge,
    first_edge: Edge,
    second_edge: Edge,
)
    requires
        pin.wf(),
        pin.identity().assigned_interrupt is Some,
        r.wf(),
        covers(mode, first_edge),
        covers(mode, second_edge),
    ensures
        ({
            let channel = pin.identity().assigned_interrupt.unwrap() as int;
            let line = pin.identity().interrupt_line();
            let armed = armed_for(pin, r, mode);
            let first = serviced(pin, after_edge_at(pin, armed, first_edge));
            let second = serviced(pin, after_edge_at(pin, first.0, second_edge));
            &&& first.1 == pin.client()
            &&& !first.0.channels[channel].status
            &&& second.1 == pin.client()
            &&& !second.0.channels[channel].status
            &&& !second.0.irq_pending[line]
            &&& serviced(pin, second.0) == (second.0, None::<ClientId>)
        }),
{
}

/// After a pin's channel is disarmed, an edge at the pin is not serviced:
/// the interrupt controller does not report the pin's line, so no callback
/// is notified. The wiring and the edges of the channel are as they were
/// before the disarming.
pub proof fn lemma_disarmed_edge_is_not_delivered(pin: GPIOPin, r: Registers, edge: Edge)
    requires
        pin.wf(),
        pin.identity().assigned_interrupt is Some,
        r.wf(),
    ensures
        ({
            let disarmed = pin.spec_disable_interrupt(r);
            let fired = after_edge_at(pin, disarmed, edge);
            &&& disarmed.channels == r.channels
            &&& !fired.deliverable(pin.identity().interrupt_line())
            &&& serviced(pin, fired) == (fired, None::<ClientId>)
        }),
{
}

/// How a pin's channel moves between unbound, bound and armed. Setting the
/// interrupt mode wires the channel to the pin, whatever it was wired to
/// before, and neither arms nor disarms it; arming a bound channel makes it
/// armed; disarming a bound channel makes it bound and keeps its wiring and
/// its edges.
pub proof fn lemma_channel_transitions(pin: GPIOPin, r: Registers, mode: u8)
    requires
        pin.wf(),
        pin.identity().assigned_interrupt is Some,
        r.wf(),
    ensures
        ({
            let id = pin.identity();
            let channel = id.assigned_interrupt.unwrap() as int;
            let wired = pin.spec_set_interrupt_mode(r, mode);
            &&& wired.channels[channel].bound
            &&& wired.channels[channel].port == id.gpio_port
            &&& wired.channels[channel].bit == id.gpio_pin
            &&& wired.irq_enabled == r.irq_enabled
            &&& wired.channel_state(channel) == if r.irq_enabled[id.interrupt_line()] {
                ChannelState::Armed
            } else {
                ChannelState::Bound
            }
            &&& pin.spec_enable_interrupt(wired).channel_state(channel) == ChannelState::Armed
            &&& pin.spec_disable_interrupt(wired).channel_state(channel) == ChannelState::Bound
            &&& pin.spec_disable_interrupt(wired).channels[channel] == wired.channels[channel]
        }),
{
}

/// Arming a pin's channel that was not armed raises the count of armed pin
/// interrupts by one, and disarming one that was armed lowers it by one;
/// arming an armed channel, or disarming one that is not armed, leaves the
/// count as it is. Either way the count stays the number of unmasked
/// pin-interrupt lines.
pub proof fn lemma_interrupt_count_follows_arming(pin: GPIOPin, r: Registers)
    requires
        pin.wf(),
        pin.identity().assigned_interrupt is Some,
        r.wf(),
    ensures
        ({
            let line = pin.identity().interrupt_line();
            let was_armed: int = if r.irq_enabled[line] {
                1
            } else {
                0
            };
            &&& pin.spec_enable_interrupt(r).interrupt_count == r.interrupt_count + 1 - was_armed
            &&& pin.spec_disable_interrupt(r).interrupt_count == r.interrupt_count - was_armed
            &&& pin.spec_enable_interrupt(r).wf()
            &&& pin.spec_disable_interrupt(r).wf()
        }),
{
}

/// Every pin of the board has a well-formed identity, and no port has more
/// pins than a port has slots.
pub proof fn lemma_board_identities_wf(gpio_port: int, gpio_pin: int)
    requires
        board_identity(gpio_port, gpio_pin) is Some,
    ensures
        board_identity(gpio_port, gpio_pin).unwrap().wf(),
        board_names(gpio_port).len() <= PORT_SLOTS,
{
    assert(0u32 & 0x7 == 0 && 4u32 & 0x7 == 4) by (bit_vector);
}

/// Every physical pin occurs on the board once: no two GPIO bits have the
/// same package name.
pub proof fn lemma_board_names_are_unique(port_a: int, pin_a: int, port_b: int, pin_b: int)
    requires
        board_identity(port_a, pin_a) is Some,
        board_identity(port_b, pin_b) is Some,
        board_identity(port_a, pin_a).unwrap().port_name == board_identity(
            port_b,
            pin_b,
        ).unwrap().port_name,
        board_identity(port_a, pin_a).unwrap().pin_name == board_identity(
            port_b,
            pin_b,
        ).unwrap().pin_name,
    ensures
        port_a == port_b,
        pin_a == pin_b,
{
}

/// No two pins of the board share a GPIO bit, and no two share a
/// pin-interrupt channel.
pub proof fn lemma_board_pins_do_not_alias(port_a: int, pin_a: int, port_b: int, pin_b: int)
    requires
        board_identity(port_a, pin_a) is Some,
        board_identity(port_b, pin_b) is Some,
    ensures
        ({
            let a = board_identity(port_a, pin_a).unwrap();
            let b = board_identity(port_b, pin_b).unwrap();
            &&& a.gpio_port == b.gpio_port && a.gpio_pin == b.gpio_pin ==> port_a == port_b && pin_a
                == pin_b
            &&& a.assigned_interrupt is Some && a.assigned_interrupt == b.assigned_interrupt
                ==> port_a == port_b && pin_a == pin_b
        }),
{
}

} // verus!
