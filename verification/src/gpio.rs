//! GPIO pins: the identity of each pin, and the operations that set a pin up,
//! read and drive it, and run its edge interrupt.

use crate::fields::FieldValue;
use crate::gpio_pin_int::{clear_int_status, enable_int_high, enable_int_low, set_pin_mode_edge};
use crate::hardware::{
    Channel, Hardware, Registers, CHANNELS, FIRST_CHANNEL_LINE, GPIO_PORTS, MUX_PORTS,
    PINS_PER_PORT,
};
use crate::hil::{ClientId, Configuration, FloatingState, InterruptEdge};
use crate::lemmas::{
    lemma_board_identities_wf, lemma_direction_is_set, lemma_floating_state_round_trip,
    lemma_function_select, lemma_input_after_enable, lemma_output_after_enable,
};
use crate::scu::{
    gpio_int_pin_sel, glitch_filter_disabled, glitch_filter_enabled, input_buffer_disabled,
    input_buffer_enabled, mode, normal_drive, pull_down_disabled, pull_down_enabled,
    pull_up_disabled, pull_up_enabled, spec_glitch_filter_disabled, spec_glitch_filter_enabled,
    spec_input_buffer_disabled, spec_input_buffer_enabled, spec_mode, spec_normal_drive,
    spec_pull_down_disabled, spec_pull_down_enabled, spec_pull_up_disabled, spec_pull_up_enabled,
};
use vstd::prelude::*;

verus! {

/// What a physical pin is: its name on the package, the multiplexer function
/// that makes it a GPIO, its GPIO address, and its interrupt channel if it
/// has one.
#[derive(Clone, Copy, Debug)]
pub struct PinIdentity {
    /// Silicon port of the pin's name.
    pub port_name: u32,
    /// Pin number of the pin's name.
    pub pin_name: u32,
    /// Function select value that routes the GPIO block to the pin.
    pub func: FieldValue,
    /// GPIO port the pin belongs to when it is a GPIO.
    pub gpio_port: u32,
    /// Bit of the pin within its GPIO port.
    pub gpio_pin: u32,
    /// Pin-interrupt channel assigned to the pin.
    pub assigned_interrupt: Option<u8>,
}

impl PinIdentity {
    /// Every part of the identity addresses a register that exists, and the
    /// function is a function select value.
    pub open spec fn wf(self) -> bool {
        &&& self.port_name < MUX_PORTS
        &&& self.pin_name < PINS_PER_PORT
        &&& self.func.mask == 0x7
        &&& self.func.value <= 0x7
        &&& self.gpio_port < GPIO_PORTS
        &&& self.gpio_pin < PINS_PER_PORT
        &&& match self.assigned_interrupt {
            Some(channel) => channel < CHANNELS,
            None => true,
        }
    }

    /// Interrupt line of the assigned channel.
    pub open spec fn interrupt_line(self) -> int {
        FIRST_CHANNEL_LINE + self.assigned_interrupt.unwrap()
    }

    /// The multiplexer setting in which the pin is a GPIO: its GPIO
    /// function, input buffer on, glitch filter off.
    pub open spec fn gpio_function(self) -> FieldValue {
        self.func.spec_plus(spec_glitch_filter_disabled()).spec_plus(spec_input_buffer_enabled())
    }

    /// The field of the direction register that holds this pin's bit.
    pub open spec fn direction_field(self, output: bool) -> FieldValue {
        FieldValue {
            mask: 1u32 << self.gpio_pin,
            value: if output {
                1u32 << self.gpio_pin
            } else {
                0
            },
        }
    }
}

/// The multiplexer setting of an idle pin: function 0, both pull resistors
/// off, input buffer off, glitch filter on, normal drive strength.
pub open spec fn spec_low_power() -> FieldValue {
    spec_mode(0).spec_plus(spec_pull_down_disabled()).spec_plus(spec_pull_up_disabled()).spec_plus(
        spec_input_buffer_disabled(),
    ).spec_plus(spec_glitch_filter_enabled()).spec_plus(spec_normal_drive())
}

/// The pull resistor setting with the pull-up on and the pull-down off.
pub open spec fn spec_pulled_up() -> FieldValue {
    spec_pull_up_enabled().spec_plus(spec_pull_down_disabled())
}

/// A GPIO pin: its identity and the callback registered for its interrupt.
/// Everything else about a pin lives in the registers.
pub struct GPIOPin {
    identity: PinIdentity,
    client: Option<ClientId>,
}

impl GPIOPin {
    /// The identity of the pin.
    pub closed spec fn identity(&self) -> PinIdentity {
        self.identity
    }

    /// The callback registered for the pin's interrupt.
    pub closed spec fn client(&self) -> Option<ClientId> {
        self.client
    }

    /// The pin's identity is well formed.
    pub open spec fn wf(&self) -> bool {
        self.identity().wf()
    }

    /// The state with this pin's multiplexer register set to `value`.
    pub open spec fn with_mux(&self, r: Registers, value: u32) -> Registers {
        r.with_mux(self.identity().port_name as int, self.identity().pin_name as int, value)
    }

    /// This pin's multiplexer register.
    pub open spec fn mux(&self, r: Registers) -> u32 {
        r.mux(self.identity().port_name as int, self.identity().pin_name as int)
    }

    /// The state with `field` put into this pin's multiplexer register.
    pub open spec fn with_mux_field(&self, r: Registers, field: FieldValue) -> Registers {
        self.with_mux(r, field.spec_modify(self.mux(r)))
    }

    /// The state with this pin's bit of the direction register set or
    /// cleared.
    pub open spec fn with_direction(&self, r: Registers, output: bool) -> Registers {
        r.with_direction(
            self.identity().gpio_port as int,
            self.identity().direction_field(output).spec_modify(
                r.direction(self.identity().gpio_port as int),
            ),
        )
    }

    /// This pin's byte register.
    pub open spec fn level(&self, r: Registers) -> u8 {
        r.level(self.identity().gpio_port as int, self.identity().gpio_pin as int)
    }

    /// The state with this pin's byte register set to `value`.
    pub open spec fn with_level(&self, r: Registers, value: u8) -> Registers {
        r.with_level(self.identity().gpio_port as int, self.identity().gpio_pin as int, value)
    }

    /// A pin with the given identity and no callback registered.
    pub fn new(
        port_name: u32,
        pin_name: u32,
        func: FieldValue,
        gpio_port: u32,
        gpio_pin: u32,
        assigned_interrupt: Option<u8>,
    ) -> (pin: GPIOPin)
        requires
            (PinIdentity { port_name, pin_name, func, gpio_port, gpio_pin, assigned_interrupt }).wf(),
        ensures
            pin.identity() == (PinIdentity {
                port_name,
                pin_name,
                func,
                gpio_port,
                gpio_pin,
                assigned_interrupt,
            }),
            pin.client() is None,
            pin.wf(),
    {
        GPIOPin {
            identity: PinIdentity {
                port_name,
                pin_name,
                func,
                gpio_port,
                gpio_pin,
                assigned_interrupt,
            },
            client: None,
        }
    }

    /// The identity of the pin.
    pub fn get_identity(&self) -> (identity: PinIdentity)
        ensures
            identity == self.identity(),
    {
        self.identity
    }

    /// The callback registered for the pin's interrupt.
    pub fn get_client(&self) -> (client: Option<ClientId>)
        ensures
            client == self.client(),
    {
        self.client
    }

    /// Registers `client` as the callback of the pin's interrupt, in place of
    /// any registered before.
    pub fn set_client(&mut self, client: ClientId)
        ensures
            final(self).client() == Some(client),
            final(self).identity() == old(self).identity(),
    {
        self.client = Some(client);
    }

    /// The state after `enable`.
    pub open spec fn spec_enable(&self, r: Registers) -> Registers {
        self.with_mux(r, self.identity().gpio_function().value)
    }

    /// Makes the pin a GPIO: writes its GPIO function, input buffer on and
    /// glitch filter off to its multiplexer register; every other field of
    /// the register becomes zero.
    pub fn enable(&self, hw: &mut Hardware)
        requires
            self.wf(),
            old(hw).wf(),
        ensures
            final(hw).wf(),
            final(hw)@ == self.spec_enable(old(hw)@),
    {
        proof {
            lemma_function_select(self.identity.func);
        }
        let field = self.identity.func.plus(glitch_filter_disabled()).plus(input_buffer_enabled());
        hw.set_mux_register(self.identity.port_name, self.identity.pin_name, field.value);
    }

    /// The state after `disable`.
    pub open spec fn spec_disable(&self, r: Registers) -> Registers {
        self.with_mux(r, spec_low_power().value)
    }

    /// Puts the pin into its idle configuration: function 0, glitch filter
    /// on, input buffer off, normal drive strength, both pull resistors off.
    pub fn disable(&self, hw: &mut Hardware)
        requires
            self.wf(),
            old(hw).wf(),
        ensures
            final(hw).wf(),
            final(hw)@ == self.spec_disable(old(hw)@),
    {
        let field = mode(0).plus(pull_down_disabled()).plus(pull_up_disabled()).plus(
            input_buffer_disabled(),
        ).plus(glitch_filter_enabled()).plus(normal_drive());
        hw.set_mux_register(self.identity.port_name, self.identity.pin_name, field.value);
    }

    /// Puts `field` into the pin's multiplexer register, leaving the other
    /// bits of the register as they are. Reading and writing back happen
    /// with interrupts masked; the mask is then put back.
    fn modify_mux(&self, hw: &mut Hardware, field: FieldValue)
        requires
            self.wf(),
            old(hw).wf(),
            field.wf(),
        ensures
            final(hw).wf(),
            final(hw)@ == self.with_mux_field(old(hw)@, field),
    {
        let prior = hw.set_interrupt_mask(true);
        let current = hw.mux_register(self.identity.port_name, self.identity.pin_name);
        hw.set_mux_register(
            self.identity.port_name,
            self.identity.pin_name,
            field.modify(current),
        );
        hw.set_interrupt_mask(prior);
        assert(hw@ == self.with_mux_field(old(hw)@, field));
    }

    /// Sets or clears the pin's bit of its port's direction register,
    /// leaving the other bits of the register as they are. Reading and
    /// writing back happen with interrupts masked; the mask is then put
    /// back.
    fn modify_direction(&self, hw: &mut Hardware, output: bool)
        requires
            self.wf(),
            old(hw).wf(),
        ensures
            final(hw).wf(),
            final(hw)@ == self.with_direction(old(hw)@, output),
    {
        let field = self.direction_field(output);
        let prior = hw.set_interrupt_mask(true);
        let direction = hw.direction_register(self.identity.gpio_port);
        hw.set_direction_register(self.identity.gpio_port, field.modify(direction));
        hw.set_interrupt_mask(prior);
        assert(hw@ == self.with_direction(old(hw)@, output));
    }

    /// The field of the direction register that holds this pin's bit, set
    /// for an output and clear for an input.
    fn direction_field(&self, output: bool) -> (field: FieldValue)
        requires
            self.wf(),
        ensures
            field == self.identity().direction_field(output),
            field.wf(),
    {
        let bit = self.identity.gpio_pin;
        assert((0x1u32 & 0x1) << bit == 1u32 << bit && (0x0u32 & 0x1) << bit == 0) by (bit_vector)
            requires
                bit < 32,
        ;
        FieldValue::new(
            0x1,
            self.identity.gpio_pin as usize,
            if output {
                0x1
            } else {
                0x0
            },
        )
    }

    /// The state after `make_output`.
    pub open spec fn spec_make_output(&self, r: Registers) -> Registers {
        self.with_direction(self.with_mux_field(r, spec_pulled_up()), true)
    }

    /// Makes the pin drive its level: turns the pull-up on and the pull-down
    /// off in the multiplexer register, then sets the pin's bit of its
    /// port's direction register and no other bit of it.
    pub fn make_output(&self, hw: &mut Hardware)
        requires
            self.wf(),
            old(hw).wf(),
        ensures
            final(hw).wf(),
            final(hw)@ == self.spec_make_output(old(hw)@),
            self.spec_is_output(final(hw)@),
    {
        self.modify_mux(hw, pull_up_enabled().plus(pull_down_disabled()));
        self.modify_direction(hw, true);
        proof {
            lemma_direction_is_set(*self, old(hw)@);
        }
    }

    /// The state after `make_input`.
    pub open spec fn spec_make_input(&self, r: Registers) -> Registers {
        self.with_direction(self.with_mux_field(r, spec_pulled_up()), false)
    }

    /// Makes the pin listen: turns the pull-up on and the pull-down off in
    /// the multiplexer register, then clears the pin's bit of its port's
    /// direction register and no other bit of it.
    pub fn make_input(&self, hw: &mut Hardware)
        requires
            self.wf(),
            old(hw).wf(),
        ensures
            final(hw).wf(),
            final(hw)@ == self.spec_make_input(old(hw)@),
            !self.spec_is_output(final(hw)@),
    {
        self.modify_mux(hw, pull_up_enabled().plus(pull_down_disabled()));
        self.modify_direction(hw, false);
        proof {
            lemma_direction_is_set(*self, old(hw)@);
        }
    }

    /// The state after `select_peripheral`.
    pub open spec fn spec_select_peripheral(&self, r: Registers, function: FieldValue) -> Registers {
        self.with_mux(r, function.value)
    }

    /// Hands the pin to a peripheral: writes `function` to the pin's
    /// multiplexer register; every field that `function` does not name
    /// becomes zero.
    pub fn select_peripheral(&self, hw: &mut Hardware, function: FieldValue)
        requires
            self.wf(),
            old(hw).wf(),
        ensures
            final(hw).wf(),
            final(hw)@ == self.spec_select_peripheral(old(hw)@, function),
    {
        hw.set_mux_register(self.identity.port_name, self.identity.pin_name, function.value);
    }

    /// Turns the pull-down resistor on; the pull-up is left as it is.
    pub fn enable_pull_down(&self, hw: &mut Hardware)
        requires
            self.wf(),
            old(hw).wf(),
        ensures
            final(hw).wf(),
            final(hw)@ == self.with_mux_field(old(hw)@, spec_pull_down_enabled()),
    {
        self.modify_mux(hw, pull_down_enabled());
    }

    /// Turns the pull-down resistor off; the pull-up is left as it is.
    pub fn disable_pull_down(&self, hw: &mut Hardware)
        requires
            self.wf(),
            old(hw).wf(),
        ensures
            final(hw).wf(),
            final(hw)@ == self.with_mux_field(old(hw)@, spec_pull_down_disabled()),
    {
        self.modify_mux(hw, pull_down_disabled());
    }

    /// Turns the pull-up resistor on; the pull-down is left as it is.
    pub fn enable_pull_up(&self, hw: &mut Hardware)
        requires
            self.wf(),
            old(hw).wf(),
        ensures
            final(hw).wf(),
            final(hw)@ == self.with_mux_field(old(hw)@, spec_pull_up_enabled()),
    {
        self.modify_mux(hw, pull_up_enabled());
    }

    /// Turns the pull-up resistor off; the pull-down is left as it is.
    pub fn disable_pull_up(&self, hw: &mut Hardware)
        requires
            self.wf(),
            old(hw).wf(),
        ensures
            final(hw).wf(),
            final(hw)@ == self.with_mux_field(old(hw)@, spec_pull_up_disabled()),
    {
        self.modify_mux(hw, pull_up_disabled());
    }

    /// The pin reads high: its byte register is not zero.
    pub open spec fn spec_read(&self, r: Registers) -> bool {
        self.level(r) != 0
    }

    /// Whether the pin is high.
    pub fn read(&self, hw: &Hardware) -> (high: bool)
        requires
            self.wf(),
            hw.wf(),
        ensures
            high == self.spec_read(hw@),
    {
        hw.byte_register(self.identity.gpio_port, self.identity.gpio_pin) != 0
    }

    /// The state after `toggle`.
    pub open spec fn spec_toggle(&self, r: Registers) -> Registers {
        self.with_level(
            r,
            if self.spec_read(r) {
                0
            } else {
                1
            },
        )
    }

    /// Inverts the pin: writes the opposite of what it reads to its byte
    /// register, and returns the new level.
    pub fn toggle(&self, hw: &mut Hardware) -> (high: bool)
        requires
            self.wf(),
            old(hw).wf(),
        ensures
            final(hw).wf(),
            final(hw)@ == self.spec_toggle(old(hw)@),
            high == !self.spec_read(old(hw)@),
            high == self.spec_read(final(hw)@),
    {
        let val = self.read(hw);
        hw.set_byte_register(
            self.identity.gpio_port,
            self.identity.gpio_pin,
            if val {
                0
            } else {
                1
            },
        );
        !val
    }

    /// Drives the pin high: writes 1 to its byte register.
    pub fn set(&self, hw: &mut Hardware)
        requires
            self.wf(),
            old(hw).wf(),
        ensures
            final(hw).wf(),
            final(hw)@ == self.with_level(old(hw)@, 1),
            self.spec_read(final(hw)@),
    {
        hw.set_byte_register(self.identity.gpio_port, self.identity.gpio_pin, 1)
    }

    /// Drives the pin low: writes 0 to its byte register.
    pub fn clear(&self, hw: &mut Hardware)
        requires
            self.wf(),
            old(hw).wf(),
        ensures
            final(hw).wf(),
            final(hw)@ == self.with_level(old(hw)@, 0),
            !self.spec_read(final(hw)@),
    {
        hw.set_byte_register(self.identity.gpio_port, self.identity.gpio_pin, 0)
    }

    /// The state after `set_interrupt_mode`: the pin's channel is wired to
    /// the pin's GPIO bit and reacts to edges, its status flag is clear, and
    /// it latches the edges that `mode` names besides those it latched
    /// before.
    pub open spec fn spec_set_interrupt_mode(&self, r: Registers, mode: u8) -> Registers {
        let channel = self.identity().assigned_interrupt.unwrap() as int;
        r.with_channel(
            channel,
            Channel {
                bound: true,
                port: self.identity().gpio_port as u8,
                bit: self.identity().gpio_pin as u8,
                level_sensitive: false,
                rising: r.channels[channel].rising || mode != 0b10,
                falling: r.channels[channel].falling || mode != 0b01,
                status: false,
            },
        )
    }

    /// Wires the pin's channel to the pin and chooses its edges.
    ///
    /// | `mode` | edges        |
    /// | ------ | ------------ |
    /// | `0b01` | rising       |
    /// | `0b10` | falling      |
    /// | other  | both         |
    ///
    /// A status left from before is cleared. The channel is not armed by
    /// this, and an edge it latched before stays enabled.
    pub fn set_interrupt_mode(&self, hw: &mut Hardware, mode: u8)
        requires
            self.wf(),
            self.identity().assigned_interrupt is Some,
            old(hw).wf(),
        ensures
            final(hw).wf(),
            final(hw)@ == self.spec_set_interrupt_mode(old(hw)@, mode),
    {
        let channel = self.identity.assigned_interrupt.unwrap();
        gpio_int_pin_sel(
            hw,
            channel,
            self.identity.gpio_port as u8,
            self.identity.gpio_pin as u8,
        );
        clear_int_status(hw, channel);
        set_pin_mode_edge(hw, channel);
        if mode == 0b01 {
            enable_int_high(hw, channel);
        } else if mode == 0b10 {
            enable_int_low(hw, channel);
        } else {
            enable_int_high(hw, channel);
            enable_int_low(hw, channel);
        }
        assert(hw@.channels =~= self.spec_set_interrupt_mode(old(hw)@, mode).channels);
    }

    /// The state after `enable_interrupt`.
    pub open spec fn spec_enable_interrupt(&self, r: Registers) -> Registers {
        r.with_irq_pending(self.identity().interrupt_line(), false).with_irq_enabled(
            self.identity().interrupt_line(),
            true,
        )
    }

    /// Arms the pin's channel: clears what is pending on its interrupt line
    /// and unmasks the line.
    pub fn enable_interrupt(&self, hw: &mut Hardware)
        requires
            self.wf(),
            self.identity().assigned_interrupt is Some,
            old(hw).wf(),
        ensures
            final(hw).wf(),
            final(hw)@ == self.spec_enable_interrupt(old(hw)@),
    {
        let line = FIRST_CHANNEL_LINE + self.identity.assigned_interrupt.unwrap() as u32;
        hw.irq_clear_pending(line);
        hw.irq_enable(line);
    }

    /// The state after `disable_interrupt`.
    pub open spec fn spec_disable_interrupt(&self, r: Registers) -> Registers {
        r.with_irq_pending(self.identity().interrupt_line(), false).with_irq_enabled(
            self.identity().interrupt_line(),
            false,
        )
    }

    /// Disarms the pin's channel: clears what is pending on its interrupt
    /// line and masks the line. Wiring and edges of the channel stay.
    pub fn disable_interrupt(&self, hw: &mut Hardware)
        requires
            self.wf(),
            self.identity().assigned_interrupt is Some,
            old(hw).wf(),
        ensures
            final(hw).wf(),
            final(hw)@ == self.spec_disable_interrupt(old(hw)@),
    {
        let line = FIRST_CHANNEL_LINE + self.identity.assigned_interrupt.unwrap() as u32;
        hw.irq_clear_pending(line);
        hw.irq_disable(line);
    }

    /// The state after `handle_interrupt`.
    pub open spec fn spec_handle_interrupt(&self, r: Registers) -> Registers {
        crate::gpio_pin_int::spec_clear_int_status(
            r,
            self.identity().assigned_interrupt.unwrap() as int,
        )
    }

    /// Handles the pin's interrupt: clears the status flag of its channel
    /// and then returns the callback to notify, if one is registered. The
    /// flag is clear before the caller can run the callback, so an edge that
    /// arrives while the callback runs is latched anew.
    pub fn handle_interrupt(&self, hw: &mut Hardware) -> (notify: Option<ClientId>)
        requires
            self.wf(),
            self.identity().assigned_interrupt is Some,
            old(hw).wf(),
        ensures
            final(hw).wf(),
            final(hw)@ == self.spec_handle_interrupt(old(hw)@),
            notify == self.client(),
    {
        clear_int_status(hw, self.identity.assigned_interrupt.unwrap());
        self.client
    }
}

impl GPIOPin {
    /// The multiplexer register shows the pin's GPIO function with the input
    /// buffer on and the glitch filter off.
    pub open spec fn spec_is_gpio(&self, r: Registers) -> bool {
        self.identity().gpio_function().spec_matches_all(self.mux(r))
    }

    /// The pin's bit of the direction register is set.
    pub open spec fn spec_is_output(&self, r: Registers) -> bool {
        self.identity().direction_field(true).spec_matches_all(
            r.direction(self.identity().gpio_port as int),
        )
    }

    /// What the pin is set up as: a peripheral function where the
    /// multiplexer register does not show the GPIO setting, else an output
    /// or an input as the direction bit says.
    pub open spec fn spec_configuration(&self, r: Registers) -> Configuration {
        if !self.spec_is_gpio(r) {
            Configuration::Function
        } else if self.spec_is_output(r) {
            Configuration::Output
        } else {
            Configuration::Input
        }
    }

    /// Which pull resistor the multiplexer register selects. Where both are
    /// on, the pull-down counts.
    pub open spec fn spec_floating_state(&self, r: Registers) -> FloatingState {
        if spec_pull_down_enabled().spec_matches_all(self.mux(r)) {
            FloatingState::PullDown
        } else if spec_pull_up_enabled().spec_matches_all(self.mux(r)) {
            FloatingState::PullUp
        } else {
            FloatingState::PullNone
        }
    }
}

/// The two pull resistor fields that select `state`.
pub open spec fn spec_floating_field(state: FloatingState) -> FieldValue {
    match state {
        FloatingState::PullUp => spec_pull_down_disabled().spec_plus(spec_pull_up_enabled()),
        FloatingState::PullDown => spec_pull_up_disabled().spec_plus(spec_pull_down_enabled()),
        FloatingState::PullNone => spec_pull_up_disabled().spec_plus(spec_pull_down_disabled()),
    }
}

/// The number by which `set_interrupt_mode` knows `mode`.
pub open spec fn spec_mode_bits(mode: InterruptEdge) -> u8 {
    match mode {
        InterruptEdge::EitherEdge => 0b00,
        InterruptEdge::RisingEdge => 0b01,
        InterruptEdge::FallingEdge => 0b10,
    }
}

impl GPIOPin {
    /// Hands the pin to the peripheral function `config` names, or makes it
    /// a GPIO where `config` names none.
    pub fn configure(&self, hw: &mut Hardware, config: Option<FieldValue>)
        requires
            self.wf(),
            old(hw).wf(),
        ensures
            final(hw).wf(),
            final(hw)@ == match config {
                Some(function) => self.spec_select_peripheral(old(hw)@, function),
                None => self.spec_enable(old(hw)@),
            },
    {
        match config {
            Some(c) => self.select_peripheral(hw, c),
            None => self.enable(hw),
        }
    }

    /// What the pin is currently set up as.
    pub fn configuration(&self, hw: &Hardware) -> (configuration: Configuration)
        requires
            self.wf(),
            hw.wf(),
        ensures
            configuration == self.spec_configuration(hw@),
    {
        proof {
            lemma_function_select(self.identity.func);
        }
        let sfsp = hw.mux_register(self.identity.port_name, self.identity.pin_name);
        let is_gpio = self.identity.func.plus(glitch_filter_disabled()).plus(
            input_buffer_enabled(),
        ).matches_all(sfsp);
        let gpio_dir = hw.direction_register(self.identity.gpio_port);
        let output = self.direction_field(true).matches_all(gpio_dir);
        let input = !output;
        match (is_gpio, input, output) {
            (false, _, _) => Configuration::Function,
            (true, false, false) => Configuration::Other,
            (true, false, true) => Configuration::Output,
            (true, true, false) => Configuration::Input,
            (true, true, true) => Configuration::InputOutput,
        }
    }

    /// Makes the pin a GPIO and an output; afterwards `configuration`
    /// reports `Output`.
    pub fn configure_output(&self, hw: &mut Hardware) -> (configuration: Configuration)
        requires
            self.wf(),
            old(hw).wf(),
        ensures
            final(hw).wf(),
            final(hw)@ == self.spec_make_output(self.spec_enable(old(hw)@)),
            configuration == Configuration::Output,
            self.spec_configuration(final(hw)@) == Configuration::Output,
    {
        self.enable(hw);
        self.make_output(hw);
        proof {
            lemma_output_after_enable(*self, old(hw)@);
        }
        Configuration::Output
    }

    /// Makes the pin a GPIO and an input; afterwards `configuration` reports
    /// `Input`.
    pub fn configure_input(&self, hw: &mut Hardware) -> (configuration: Configuration)
        requires
            self.wf(),
            old(hw).wf(),
        ensures
            final(hw).wf(),
            final(hw)@ == self.spec_make_input(self.spec_enable(old(hw)@)),
            configuration == Configuration::Input,
            self.spec_configuration(final(hw)@) == Configuration::Input,
    {
        self.enable(hw);
        self.make_input(hw);
        proof {
            lemma_input_after_enable(*self, old(hw)@);
        }
        Configuration::Input
    }

    /// Stops the pin from driving by making it a GPIO input, and reports the
    /// configuration that results, which is `Input`.
    pub fn disable_output(&self, hw: &mut Hardware) -> (configuration: Configuration)
        requires
            self.wf(),
            old(hw).wf(),
        ensures
            final(hw).wf(),
            final(hw)@ == self.spec_make_input(self.spec_enable(old(hw)@)),
            configuration == Configuration::Input,
            self.spec_configuration(final(hw)@) == Configuration::Input,
    {
        self.configure_input(hw);
        self.configuration(hw)
    }

    /// Changes nothing, since a pin of this chip can always be read, and
    /// reports the configuration.
    pub fn disable_input(&self, hw: &Hardware) -> (configuration: Configuration)
        requires
            self.wf(),
            hw.wf(),
        ensures
            configuration == self.spec_configuration(hw@),
    {
        self.configuration(hw)
    }

    /// Puts the pin into its idle configuration, as `disable` does.
    pub fn deactivate_to_low_power(&self, hw: &mut Hardware)
        requires
            self.wf(),
            old(hw).wf(),
        ensures
            final(hw).wf(),
            final(hw)@ == self.spec_disable(old(hw)@),
    {
        self.disable(hw);
    }

    /// Chooses the pull resistors of the pin and leaves the rest of its
    /// multiplexer register as it is; afterwards `floating_state` reports
    /// `state`.
    pub fn set_floating_state(&self, hw: &mut Hardware, state: FloatingState)
        requires
            self.wf(),
            old(hw).wf(),
        ensures
            final(hw).wf(),
            final(hw)@ == self.with_mux_field(old(hw)@, spec_floating_field(state)),
            self.spec_floating_state(final(hw)@) == state,
    {
        match state {
            FloatingState::PullUp => {
                self.modify_mux(hw, pull_down_disabled().plus(pull_up_enabled()));
            },
            FloatingState::PullDown => {
                self.modify_mux(hw, pull_up_disabled().plus(pull_down_enabled()));
            },
            FloatingState::PullNone => {
                self.modify_mux(hw, pull_up_disabled().plus(pull_down_disabled()));
            },
        }
        proof {
            lemma_floating_state_round_trip(*self, old(hw)@, state);
        }
    }

    /// Which pull resistor the pin has. Where both are on, the answer is
    /// `PullDown`.
    pub fn floating_state(&self, hw: &Hardware) -> (state: FloatingState)
        requires
            self.wf(),
            hw.wf(),
        ensures
            state == self.spec_floating_state(hw@),
    {
        let sfsp = hw.mux_register(self.identity.port_name, self.identity.pin_name);
        let down = pull_down_enabled().matches_all(sfsp);
        let up = pull_up_enabled().matches_all(sfsp);
        if down {
            FloatingState::PullDown
        } else if up {
            FloatingState::PullUp
        } else {
            FloatingState::PullNone
        }
    }

    /// Wires the pin's channel to the pin, sets it up for the edges of
    /// `mode` and arms it.
    pub fn enable_interrupts(&self, hw: &mut Hardware, mode: InterruptEdge)
        requires
            self.wf(),
            self.identity().assigned_interrupt is Some,
            old(hw).wf(),
        ensures
            final(hw).wf(),
            final(hw)@ == self.spec_enable_interrupt(
                self.spec_set_interrupt_mode(old(hw)@, spec_mode_bits(mode)),
            ),
    {
        let mode_bits: u8 = match mode {
            InterruptEdge::EitherEdge => 0b00,
            InterruptEdge::RisingEdge => 0b01,
            InterruptEdge::FallingEdge => 0b10,
        };
        self.set_interrupt_mode(hw, mode_bits);
        self.enable_interrupt(hw);
    }

    /// Disarms the pin's channel, as `disable_interrupt` does.
    pub fn disable_interrupts(&self, hw: &mut Hardware)
        requires
            self.wf(),
            self.identity().assigned_interrupt is Some,
            old(hw).wf(),
        ensures
            final(hw).wf(),
            final(hw)@ == self.spec_disable_interrupt(old(hw)@),
    {
        self.disable_interrupt(hw);
    }
}

/// Package names (silicon port, pin) of the pins of GPIO port 0, by GPIO bit.
pub const GPIO0_NAMES: [(u32, u32); 16] = [
    (0, 0), (0, 1), (1, 15), (1, 16), (1, 0), (6, 6), (3, 6), (2, 7),
    (1, 1), (1, 2), (1, 3), (1, 4), (1, 17), (1, 18), (2, 10), (1, 20),
];

/// Package names (silicon port, pin) of the pins of GPIO port 1, by GPIO bit.
pub const GPIO1_NAMES: [(u32, u32); 16] = [
    (1, 7), (1, 8), (1, 9), (1, 10), (1, 11), (1, 12), (1, 13), (1, 14),
    (1, 5), (1, 6), (2, 9), (2, 11), (2, 12), (2, 13), (3, 4), (3, 5),
];

/// Package names (silicon port, pin) of the pins of GPIO port 2, by GPIO bit.
pub const GPIO2_NAMES: [(u32, u32); 16] = [
    (4, 0), (4, 1), (4, 2), (4, 3), (4, 4), (4, 5), (4, 6), (5, 7),
    (6, 12), (5, 0), (5, 1), (5, 2), (5, 3), (5, 4), (5, 5), (5, 6),
];

/// Package names (silicon port, pin) of the pins of GPIO port 3, by GPIO bit.
pub const GPIO3_NAMES: [(u32, u32); 16] = [
    (6, 1), (6, 2), (6, 3), (6, 4), (6, 5), (6, 9), (6, 10), (6, 11),
    (7, 0), (7, 1), (7, 2), (7, 3), (7, 4), (7, 5), (7, 6), (7, 7),
];

/// Package names (silicon port, pin) of the pins of GPIO port 4, by GPIO bit.
pub const GPIO4_NAMES: [(u32, u32); 16] = [
    (8, 0), (8, 1), (8, 2), (8, 3), (8, 4), (8, 5), (8, 6), (8, 7),
    (10, 1), (10, 2), (10, 3), (9, 6), (9, 0), (9, 1), (9, 2), (9, 3),
];

/// Package names (silicon port, pin) of the pins of GPIO port 5, by GPIO bit.
pub const GPIO5_NAMES: [(u32, u32); 27] = [
    (2, 0), (2, 1), (2, 2), (2, 3), (2, 4), (2, 5), (2, 6), (2, 8),
    (3, 1), (3, 2), (3, 7), (3, 8), (4, 8), (4, 9), (4, 10), (6, 7),
    (6, 8), (9, 4), (9, 5), (10, 4), (11, 0), (11, 1), (11, 2), (11, 3),
    (11, 4), (11, 5), (11, 6),
];

/// Package names (silicon port, pin) of the pins of GPIO port 6, by GPIO bit.
pub const GPIO6_NAMES: [(u32, u32); 31] = [
    (12, 1), (12, 2), (12, 3), (12, 4), (12, 5), (12, 6), (12, 7), (12, 8),
    (12, 9), (12, 10), (12, 11), (12, 12), (12, 13), (12, 14), (13, 0), (13, 1),
    (13, 2), (13, 3), (13, 4), (13, 5), (13, 6), (13, 7), (13, 8), (13, 9),
    (13, 10), (13, 11), (13, 12), (13, 13), (13, 14), (13, 15), (13, 16),
];

/// Package names (silicon port, pin) of the pins of GPIO port 7, by GPIO bit.
pub const GPIO7_NAMES: [(u32, u32); 26] = [
    (14, 0), (14, 1), (14, 2), (14, 3), (14, 4), (14, 5), (14, 6), (14, 7),
    (14, 8), (14, 9), (14, 10), (14, 11), (14, 12), (14, 13), (14, 14), (14, 15),
    (15, 1), (15, 2), (15, 3), (15, 5), (15, 6), (15, 7), (15, 8), (15, 9),
    (15, 10), (15, 11),
];

/// Slots of a port.
pub const PORT_SLOTS: usize = 31;

/// Package names of the pins of GPIO port `gpio_port`, by GPIO bit.
pub open spec fn board_names(gpio_port: int) -> Seq<(u32, u32)> {
    if gpio_port == 0 {
        GPIO0_NAMES@
    } else if gpio_port == 1 {
        GPIO1_NAMES@
    } else if gpio_port == 2 {
        GPIO2_NAMES@
    } else if gpio_port == 3 {
        GPIO3_NAMES@
    } else if gpio_port == 4 {
        GPIO4_NAMES@
    } else if gpio_port == 5 {
        GPIO5_NAMES@
    } else if gpio_port == 6 {
        GPIO6_NAMES@
    } else if gpio_port == 7 {
        GPIO7_NAMES@
    } else {
        Seq::empty()
    }
}

/// Function select value that makes a pin of GPIO port `gpio_port` a GPIO.
pub open spec fn board_function(gpio_port: int) -> u32 {
    if gpio_port < 5 {
        0
    } else {
        4
    }
}

/// Pin-interrupt channel that the board assigns to GPIO bit (`gpio_port`,
/// `gpio_pin`): the four buttons have one each.
pub open spec fn board_channel(gpio_port: int, gpio_pin: int) -> Option<u8> {
    if gpio_port == 0 && gpio_pin == 4 {
        Some(0u8)
    } else if gpio_port == 0 && gpio_pin == 8 {
        Some(1u8)
    } else if gpio_port == 0 && gpio_pin == 9 {
        Some(2u8)
    } else if gpio_port == 1 && gpio_pin == 9 {
        Some(3u8)
    } else {
        None
    }
}

/// Identity of the pin at GPIO bit (`gpio_port`, `gpio_pin`), where the
/// board has one.
pub open spec fn board_identity(gpio_port: int, gpio_pin: int) -> Option<PinIdentity> {
    if 0 <= gpio_port < GPIO_PORTS && 0 <= gpio_pin < board_names(gpio_port).len() {
        Some(
            PinIdentity {
                port_name: board_names(gpio_port)[gpio_pin].0,
                pin_name: board_names(gpio_port)[gpio_pin].1,
                func: spec_mode(board_function(gpio_port)),
                gpio_port: gpio_port as u32,
                gpio_pin: gpio_pin as u32,
                assigned_interrupt: board_channel(gpio_port, gpio_pin),
            },
        )
    } else {
        None
    }
}

/// Pin-interrupt channel that the board assigns to a GPIO bit.
fn assigned_channel(gpio_port: u32, gpio_pin: u32) -> (channel: Option<u8>)
    ensures
        channel == board_channel(gpio_port as int, gpio_pin as int),
{
    if gpio_port == 0 && gpio_pin == 4 {
        Some(0)
    } else if gpio_port == 0 && gpio_pin == 8 {
        Some(1)
    } else if gpio_port == 0 && gpio_pin == 9 {
        Some(2)
    } else if gpio_port == 1 && gpio_pin == 9 {
        Some(3)
    } else {
        None
    }
}

/// The pins of one GPIO port: a fixed number of slots, each holding a pin or
/// nothing. Which slots hold a pin never changes.
pub struct Port {
    pins: Vec<Option<GPIOPin>>,
}

impl View for Port {
    type V = Seq<Option<GPIOPin>>;

    closed spec fn view(&self) -> Seq<Option<GPIOPin>> {
        self.pins@
    }
}

impl Port {
    /// The port has all its slots and every pin in it is well formed.
    pub open spec fn wf(&self) -> bool {
        &&& self@.len() == PORT_SLOTS
        &&& forall|slot: int|
            0 <= slot < self@.len() && self@[slot] is Some ==> (#[trigger] self@[slot]).unwrap().wf()
    }

    /// Slot `index` exists and holds a pin.
    pub open spec fn populated(&self, index: int) -> bool {
        0 <= index < self@.len() && self@[index] is Some
    }

    /// Identity of the pin in slot `index`, if the slot holds one.
    pub open spec fn identity_at(&self, index: int) -> Option<PinIdentity> {
        if self.populated(index) {
            Some(self@[index].unwrap().identity())
        } else {
            None
        }
    }

    /// The pins of GPIO port `gpio_port` as the board has them: slot `i`
    /// holds the pin of GPIO bit `i`, with no callback registered.
    pub fn new(gpio_port: u32) -> (port: Port)
        requires
            gpio_port < GPIO_PORTS,
        ensures
            port.wf(),
            forall|slot: int|
                0 <= slot < PORT_SLOTS ==> #[trigger] port.identity_at(slot) == board_identity(
                    gpio_port as int,
                    slot,
                ),
            forall|slot: int| #[trigger]
                port.populated(slot) <==> board_identity(gpio_port as int, slot) is Some,
            forall|slot: int|
                0 <= slot < PORT_SLOTS && port.populated(slot) ==> (#[trigger] port@[slot]).unwrap().client()
                    is None,
    {
        if gpio_port == 0 {
            Port::from_names(gpio_port, GPIO0_NAMES.as_slice())
        } else if gpio_port == 1 {
            Port::from_names(gpio_port, GPIO1_NAMES.as_slice())
        } else if gpio_port == 2 {
            Port::from_names(gpio_port, GPIO2_NAMES.as_slice())
        } else if gpio_port == 3 {
            Port::from_names(gpio_port, GPIO3_NAMES.as_slice())
        } else if gpio_port == 4 {
            Port::from_names(gpio_port, GPIO4_NAMES.as_slice())
        } else if gpio_port == 5 {
            Port::from_names(gpio_port, GPIO5_NAMES.as_slice())
        } else if gpio_port == 6 {
            Port::from_names(gpio_port, GPIO6_NAMES.as_slice())
        } else {
            Port::from_names(gpio_port, GPIO7_NAMES.as_slice())
        }
    }

    /// A port whose first slots hold the pins named in `names`, in order.
    fn from_names(gpio_port: u32, names: &[(u32, u32)]) -> (port: Port)
        requires
            gpio_port < GPIO_PORTS,
            names@ == board_names(gpio_port as int),
        ensures
            port.wf(),
            forall|slot: int|
                0 <= slot < PORT_SLOTS ==> #[trigger] port.identity_at(slot) == board_identity(
                    gpio_port as int,
                    slot,
                ),
            forall|slot: int| #[trigger]
                port.populated(slot) <==> board_identity(gpio_port as int, slot) is Some,
            forall|slot: int|
                0 <= slot < PORT_SLOTS && port.populated(slot) ==> (#[trigger] port@[slot]).unwrap().client()
                    is None,
    {
        let function: u32 = if gpio_port < 5 {
            0
        } else {
            4
        };
        let mut pins: Vec<Option<GPIOPin>> = Vec::new();
        let mut slot: usize = 0;
        while slot < PORT_SLOTS
            invariant
                slot <= PORT_SLOTS,
                gpio_port < GPIO_PORTS,
                names@ == board_names(gpio_port as int),
                function == board_function(gpio_port as int),
                pins.len() == slot,
                forall|i: int|
                    0 <= i < slot ==> match #[trigger] pins@[i] {
                        Some(pin) => pin.wf() && pin.client() is None && Some(pin.identity())
                            == board_identity(gpio_port as int, i),
                        None => board_identity(gpio_port as int, i) is None,
                    },
            decreases PORT_SLOTS - slot,
        {
            if slot < names.len() {
                let name = names[slot];
                proof {
                    lemma_board_identities_wf(gpio_port as int, slot as int);
                }
                pins.push(
                    Some(
                        GPIOPin::new(
                            name.0,
                            name.1,
                            mode(function),
                            gpio_port,
                            slot as u32,
                            assigned_channel(gpio_port, slot as u32),
                        ),
                    ),
                );
            } else {
                pins.push(None);
            }
            slot += 1;
        }
        Port { pins }
    }

    /// Whether slot `index` exists and holds a pin.
    pub fn is_populated(&self, index: usize) -> (populated: bool)
        ensures
            populated == self.populated(index as int),
    {
        index < self.pins.len() && self.pins[index].is_some()
    }

    /// The pin in slot `index`, which must hold one.
    pub fn index(&self, index: usize) -> (pin: &GPIOPin)
        requires
            self.populated(index as int),
        ensures
            Some(*pin) == self@[index as int],
    {
        self.pins[index].as_ref().unwrap()
    }

    /// The pin in slot `index`, which must hold one, for changing it in
    /// place.
    pub fn index_mut(&mut self, index: usize) -> (pin: &mut GPIOPin)
        requires
            old(self).populated(index as int),
        ensures
            Some(*pin) == old(self)@[index as int],
            final(self)@ == old(self)@.update(index as int, Some(*final(pin))),
    {
        self.pins[index].as_mut().unwrap()
    }
}

} // verus!
