use lpc43xx::fields::FieldValue;
use lpc43xx::gpio::{GPIOPin, Port};
use lpc43xx::hardware::{Hardware, GPIO_PORTS, PINS_PER_PORT};
use lpc43xx::hil::{Configuration, FloatingState};
use lpc43xx::scu;

/// P4_4, which is GPIO2[4]; its GPIO function is function 0.
fn gpio2_4() -> GPIOPin {
    GPIOPin::new(4, 4, scu::mode(0), 2, 4, None)
}

/// P6_7, which is GPIO5[15]; its GPIO function is function 4.
fn gpio5_15() -> GPIOPin {
    GPIOPin::new(6, 7, scu::mode(4), 5, 15, None)
}

#[test]
fn a_new_pin_has_its_identity_and_no_client() {
    let pin = GPIOPin::new(1, 6, scu::mode(0), 1, 9, Some(3));
    let id = pin.get_identity();
    assert_eq!(id.port_name, 1);
    assert_eq!(id.pin_name, 6);
    assert_eq!(id.func, FieldValue { mask: 0x7, value: 0 });
    assert_eq!(id.gpio_port, 1);
    assert_eq!(id.gpio_pin, 9);
    assert_eq!(id.assigned_interrupt, Some(3));
    assert_eq!(pin.get_client(), None);
}

#[test]
fn set_client_replaces_the_client_and_keeps_the_identity() {
    let mut pin = gpio5_15();
    pin.set_client(11);
    assert_eq!(pin.get_client(), Some(11));
    pin.set_client(12);
    assert_eq!(pin.get_client(), Some(12));
    let id = pin.get_identity();
    assert_eq!((id.port_name, id.pin_name, id.gpio_port, id.gpio_pin), (6, 7, 5, 15));
    assert_eq!(id.assigned_interrupt, None);
}

#[test]
fn enable_writes_the_gpio_function_with_buffer_on_and_filter_off() {
    let mut hw = Hardware::new();
    hw.set_mux_register(4, 4, 0xFFFF_FFFF);
    gpio2_4().enable(&mut hw);
    assert_eq!(hw.mux_register(4, 4), 0xC0);
    hw.set_mux_register(6, 7, 0x31F);
    gpio5_15().enable(&mut hw);
    assert_eq!(hw.mux_register(6, 7), 0xC4);
    assert_eq!(hw.mux_register(4, 4), 0xC0);
}

#[test]
fn disable_writes_the_idle_setting() {
    let mut hw = Hardware::new();
    let pin = gpio5_15();
    pin.enable(&mut hw);
    pin.disable(&mut hw);
    // Function 0, pull-down off, pull-up off, buffer off, filter on,
    // normal drive.
    assert_eq!(hw.mux_register(6, 7), 0x10);
    assert_eq!(pin.floating_state(&hw), FloatingState::PullNone);
    hw.set_mux_register(6, 7, 0xFFFF_FFFF);
    pin.deactivate_to_low_power(&mut hw);
    assert_eq!(hw.mux_register(6, 7), 0x10);
}

#[test]
fn select_peripheral_writes_the_function_value() {
    let mut hw = Hardware::new();
    let pin = gpio2_4();
    hw.set_mux_register(4, 4, 0xFFFF_FFFF);
    pin.select_peripheral(&mut hw, scu::mode(2).plus(scu::input_buffer_enabled()));
    assert_eq!(hw.mux_register(4, 4), 0x42);
    assert_eq!(pin.configuration(&hw), Configuration::Function);
}

#[test]
fn configure_selects_a_function_or_the_gpio() {
    let mut hw = Hardware::new();
    let pin = gpio5_15();
    pin.configure(&mut hw, Some(scu::mode(1)));
    assert_eq!(hw.mux_register(6, 7), 0x1);
    assert_eq!(pin.configuration(&hw), Configuration::Function);
    pin.configure(&mut hw, None);
    assert_eq!(hw.mux_register(6, 7), 0xC4);
    assert_eq!(pin.configuration(&hw), Configuration::Input);
}

#[test]
fn make_output_sets_the_pins_direction_bit_and_no_other() {
    let mut hw = Hardware::new();
    hw.set_direction_register(2, 0x8000_0003);
    hw.set_direction_register(1, 0x10);
    hw.set_mux_register(4, 4, 0xFFFF_FFFF);
    gpio2_4().make_output(&mut hw);
    assert_eq!(hw.direction_register(2), 0x8000_0013);
    assert_eq!(hw.direction_register(1), 0x10);
    assert_eq!(hw.direction_register(3), 0);
    // Pull-up on (bit 4 clear) and pull-down off (bit 3 clear); the rest of
    // the multiplexer register is as it was.
    assert_eq!(hw.mux_register(4, 4), 0xFFFF_FFE7);
    gpio2_4().make_output(&mut hw);
    assert_eq!(hw.direction_register(2), 0x8000_0013);
}

#[test]
fn make_input_clears_the_pins_direction_bit_and_no_other() {
    let mut hw = Hardware::new();
    hw.set_direction_register(5, 0xFFFF_FFFF);
    hw.set_direction_register(4, 0xFFFF_FFFF);
    hw.set_mux_register(6, 7, 0x3DC);
    gpio5_15().make_input(&mut hw);
    assert_eq!(hw.direction_register(5), 0xFFFF_7FFF);
    assert_eq!(hw.direction_register(4), 0xFFFF_FFFF);
    assert_eq!(hw.mux_register(6, 7), 0x3C4);
    gpio5_15().make_input(&mut hw);
    assert_eq!(hw.direction_register(5), 0xFFFF_7FFF);
}

#[test]
fn direction_of_the_highest_bit() {
    let mut hw = Hardware::new();
    let pin = GPIOPin::new(15, 31, scu::mode(4), 7, 31, None);
    pin.make_output(&mut hw);
    assert_eq!(hw.direction_register(7), 0x8000_0000);
    pin.make_input(&mut hw);
    assert_eq!(hw.direction_register(7), 0);
}

#[test]
fn configuration_after_make_output_is_output() {
    for port in 0..GPIO_PORTS {
        let pins = Port::new(port);
        for slot in 0..PINS_PER_PORT as usize {
            if !pins.is_populated(slot) {
                continue;
            }
            let pin = pins.index(slot);
            let mut hw = Hardware::new();
            assert_eq!(pin.configure_output(&mut hw), Configuration::Output);
            assert_eq!(pin.configuration(&hw), Configuration::Output);
            assert_eq!(pin.configure_input(&mut hw), Configuration::Input);
            assert_eq!(pin.configuration(&hw), Configuration::Input);
        }
    }
}

#[test]
fn disable_output_after_enable_and_make_output_is_input() {
    let mut hw = Hardware::new();
    let pin = gpio2_4();
    pin.enable(&mut hw);
    pin.make_output(&mut hw);
    assert_eq!(pin.configuration(&hw), Configuration::Output);
    assert_eq!(pin.disable_output(&mut hw), Configuration::Input);
    assert_eq!(pin.configuration(&hw), Configuration::Input);
    assert_eq!(hw.direction_register(2), 0);
}

#[test]
fn configuration_is_function_unless_the_gpio_setting_is_in_place() {
    let mut hw = Hardware::new();
    let pin = gpio5_15();
    // Reset state: function 0, buffer off.
    assert_eq!(pin.configuration(&hw), Configuration::Function);
    pin.make_output(&mut hw);
    assert_eq!(pin.configuration(&hw), Configuration::Function);
    // Right function, buffer on, but glitch filter on as well.
    hw.set_mux_register(6, 7, 0x44);
    assert_eq!(pin.configuration(&hw), Configuration::Function);
    // Right function, filter off, buffer off.
    hw.set_mux_register(6, 7, 0x84);
    assert_eq!(pin.configuration(&hw), Configuration::Function);
    // Wrong function.
    hw.set_mux_register(6, 7, 0xC0);
    assert_eq!(pin.configuration(&hw), Configuration::Function);
    // The GPIO setting; pull resistors and drive strength do not matter.
    hw.set_mux_register(6, 7, 0x3DC);
    assert_eq!(pin.configuration(&hw), Configuration::Output);
    assert_eq!(pin.disable_input(&hw), Configuration::Output);
    pin.make_input(&mut hw);
    assert_eq!(pin.configuration(&hw), Configuration::Input);
    assert_eq!(pin.disable_input(&hw), Configuration::Input);
}

#[test]
fn configuration_looks_at_the_pins_own_direction_bit() {
    let mut hw = Hardware::new();
    let pin = gpio2_4();
    pin.enable(&mut hw);
    hw.set_direction_register(2, !0x10);
    assert_eq!(pin.configuration(&hw), Configuration::Input);
    hw.set_direction_register(2, 0x10);
    assert_eq!(pin.configuration(&hw), Configuration::Output);
}

#[test]
fn floating_state_round_trips() {
    let pin = gpio2_4();
    for start in [0u32, 0x18, 0x08, 0x10, 0xFFFF_FFFF] {
        for state in [FloatingState::PullUp, FloatingState::PullDown, FloatingState::PullNone] {
            let mut hw = Hardware::new();
            hw.set_mux_register(4, 4, start);
            pin.set_floating_state(&mut hw, state);
            assert_eq!(pin.floating_state(&hw), state);
            // Only the two pull resistor bits may have changed.
            assert_eq!(hw.mux_register(4, 4) & !0x18, start & !0x18);
        }
    }
}

#[test]
fn set_floating_state_writes_both_pull_bits() {
    let pin = gpio2_4();
    let mut hw = Hardware::new();
    hw.set_mux_register(4, 4, 0xC0);
    pin.set_floating_state(&mut hw, FloatingState::PullDown);
    assert_eq!(hw.mux_register(4, 4), 0xD8);
    pin.set_floating_state(&mut hw, FloatingState::PullNone);
    assert_eq!(hw.mux_register(4, 4), 0xD0);
    pin.set_floating_state(&mut hw, FloatingState::PullUp);
    assert_eq!(hw.mux_register(4, 4), 0xC0);
}

#[test]
fn pull_down_wins_where_both_resistors_are_on() {
    let pin = gpio2_4();
    let mut hw = Hardware::new();
    pin.enable_pull_up(&mut hw);
    pin.enable_pull_down(&mut hw);
    assert_eq!(hw.mux_register(4, 4), 0x08);
    assert_eq!(pin.floating_state(&hw), FloatingState::PullDown);
    pin.disable_pull_down(&mut hw);
    assert_eq!(hw.mux_register(4, 4), 0x00);
    assert_eq!(pin.floating_state(&hw), FloatingState::PullUp);
    pin.disable_pull_up(&mut hw);
    assert_eq!(hw.mux_register(4, 4), 0x10);
    assert_eq!(pin.floating_state(&hw), FloatingState::PullNone);
    pin.enable_pull_down(&mut hw);
    assert_eq!(hw.mux_register(4, 4), 0x18);
    assert_eq!(pin.floating_state(&hw), FloatingState::PullDown);
}

#[test]
fn the_pull_resistors_are_switched_independently() {
    let pin = gpio5_15();
    let mut hw = Hardware::new();
    hw.set_mux_register(6, 7, 0xFFFF_FFFF);
    pin.enable_pull_up(&mut hw);
    assert_eq!(hw.mux_register(6, 7), 0xFFFF_FFEF);
    pin.disable_pull_down(&mut hw);
    assert_eq!(hw.mux_register(6, 7), 0xFFFF_FFE7);
    pin.disable_pull_up(&mut hw);
    assert_eq!(hw.mux_register(6, 7), 0xFFFF_FFF7);
    pin.enable_pull_down(&mut hw);
    assert_eq!(hw.mux_register(6, 7), 0xFFFF_FFFF);
}

#[test]
fn read_is_true_for_any_nonzero_byte() {
    let pin = gpio2_4();
    let mut hw = Hardware::new();
    assert!(!pin.read(&hw));
    hw.set_byte_register(2, 4, 1);
    assert!(pin.read(&hw));
    hw.set_byte_register(2, 4, 0x80);
    assert!(pin.read(&hw));
    hw.set_byte_register(2, 4, 0);
    hw.set_byte_register(2, 5, 1);
    hw.set_byte_register(2, 3, 1);
    assert!(!pin.read(&hw));
}

#[test]
fn set_and_clear_write_the_pins_byte_only() {
    let pin = gpio5_15();
    let mut hw = Hardware::new();
    hw.set_byte_register(5, 14, 7);
    pin.set(&mut hw);
    assert_eq!(hw.byte_register(5, 15), 1);
    assert!(pin.read(&hw));
    assert_eq!(hw.byte_register(5, 14), 7);
    assert_eq!(hw.byte_register(5, 16), 0);
    pin.clear(&mut hw);
    assert_eq!(hw.byte_register(5, 15), 0);
    assert!(!pin.read(&hw));
    assert_eq!(hw.byte_register(5, 14), 7);
}

#[test]
fn toggle_returns_the_new_level() {
    let pin = gpio2_4();
    let mut hw = Hardware::new();
    assert!(pin.toggle(&mut hw));
    assert_eq!(hw.byte_register(2, 4), 1);
    assert!(!pin.toggle(&mut hw));
    assert_eq!(hw.byte_register(2, 4), 0);
}

#[test]
fn toggle_twice_restores_what_read_returns() {
    let pin = gpio2_4();
    for start in [0u8, 1, 2, 0xFF] {
        let mut hw = Hardware::new();
        hw.set_byte_register(2, 4, start);
        let before = pin.read(&hw);
        let first = pin.toggle(&mut hw);
        assert_eq!(first, !before);
        assert_eq!(pin.read(&hw), !before);
        let second = pin.toggle(&mut hw);
        assert_eq!(second, before);
        assert_eq!(pin.read(&hw), before);
    }
}

#[test]
fn pin_operations_leave_the_interrupt_mask_as_it_was() {
    let pin = gpio2_4();
    let mut hw = Hardware::new();
    pin.configure_output(&mut hw);
    pin.set_floating_state(&mut hw, FloatingState::PullDown);
    assert!(!hw.interrupts_masked());
    hw.set_interrupt_mask(true);
    pin.configure_input(&mut hw);
    pin.enable_pull_up(&mut hw);
    assert!(hw.interrupts_masked());
}
