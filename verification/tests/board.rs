use lpc43xx::fields::FieldValue;
use lpc43xx::gpio::{
    Port, GPIO0_NAMES, GPIO1_NAMES, GPIO2_NAMES, GPIO3_NAMES, GPIO4_NAMES, GPIO5_NAMES,
    GPIO6_NAMES, GPIO7_NAMES, PORT_SLOTS,
};
use lpc43xx::hardware::{GPIO_PORTS, MUX_PORTS, PINS_PER_PORT};

fn populated(port: &Port) -> usize {
    (0..PORT_SLOTS).filter(|slot| port.is_populated(*slot)).count()
}

#[test]
fn each_port_has_its_number_of_pins() {
    let expected = [16usize, 16, 16, 16, 16, 27, 31, 26];
    for gpio_port in 0..GPIO_PORTS {
        let port = Port::new(gpio_port);
        assert_eq!(populated(&port), expected[gpio_port as usize]);
        // The pins fill the first slots.
        for slot in 0..PORT_SLOTS {
            assert_eq!(port.is_populated(slot), slot < expected[gpio_port as usize]);
        }
    }
    assert_eq!(GPIO0_NAMES.len(), 16);
    assert_eq!(GPIO1_NAMES.len(), 16);
    assert_eq!(GPIO2_NAMES.len(), 16);
    assert_eq!(GPIO3_NAMES.len(), 16);
    assert_eq!(GPIO4_NAMES.len(), 16);
    assert_eq!(GPIO5_NAMES.len(), 27);
    assert_eq!(GPIO6_NAMES.len(), 31);
    assert_eq!(GPIO7_NAMES.len(), 26);
}

#[test]
fn a_slot_past_the_end_is_not_populated() {
    let port = Port::new(6);
    assert!(port.is_populated(PORT_SLOTS - 1));
    assert!(!port.is_populated(PORT_SLOTS));
    assert!(!port.is_populated(usize::MAX));
}

#[test]
fn an_empty_slot_is_reported_and_not_handed_out() {
    for gpio_port in 0..5 {
        let port = Port::new(gpio_port);
        for slot in 16..PORT_SLOTS {
            assert!(!port.is_populated(slot));
        }
    }
    let port = Port::new(7);
    for slot in 26..PORT_SLOTS {
        assert!(!port.is_populated(slot));
    }
}

#[test]
fn the_slot_of_a_pin_is_its_gpio_bit() {
    for gpio_port in 0..GPIO_PORTS {
        let port = Port::new(gpio_port);
        for slot in 0..PORT_SLOTS {
            if port.is_populated(slot) {
                let id = port.index(slot).get_identity();
                assert_eq!(id.gpio_port, gpio_port);
                assert_eq!(id.gpio_pin, slot as u32);
                assert!(id.port_name < MUX_PORTS);
                assert!(id.pin_name < PINS_PER_PORT);
                assert_eq!(port.index(slot).get_client(), None);
            }
        }
    }
}

#[test]
fn pins_have_the_gpio_function_of_their_port() {
    for gpio_port in 0..GPIO_PORTS {
        let port = Port::new(gpio_port);
        let function = if gpio_port < 5 { 0 } else { 4 };
        for slot in 0..PORT_SLOTS {
            if port.is_populated(slot) {
                assert_eq!(
                    port.index(slot).get_identity().func,
                    FieldValue { mask: 0x7, value: function }
                );
            }
        }
    }
}

#[test]
fn some_pins_by_name() {
    let name = |gpio_port: u32, slot: usize| {
        let port = Port::new(gpio_port);
        let id = port.index(slot).get_identity();
        (id.port_name, id.pin_name)
    };
    assert_eq!(name(0, 0), (0, 0));
    assert_eq!(name(0, 2), (1, 15));
    assert_eq!(name(0, 14), (2, 10));
    assert_eq!(name(0, 15), (1, 20));
    assert_eq!(name(1, 8), (1, 5));
    assert_eq!(name(2, 8), (6, 12));
    assert_eq!(name(3, 15), (7, 7));
    assert_eq!(name(4, 11), (9, 6));
    assert_eq!(name(5, 26), (11, 6));
    assert_eq!(name(6, 30), (13, 16));
    assert_eq!(name(7, 16), (15, 1));
    assert_eq!(name(7, 19), (15, 5));
    assert_eq!(name(7, 25), (15, 11));
}

#[test]
fn the_buttons_have_the_channels() {
    let channel = |gpio_port: u32, slot: usize| {
        Port::new(gpio_port).index(slot).get_identity().assigned_interrupt
    };
    assert_eq!(channel(0, 4), Some(0));
    assert_eq!(channel(0, 8), Some(1));
    assert_eq!(channel(0, 9), Some(2));
    assert_eq!(channel(1, 9), Some(3));
    assert_eq!(channel(0, 5), None);
    assert_eq!(channel(1, 4), None);
    assert_eq!(channel(1, 8), None);
    assert_eq!(channel(2, 9), None);
}

#[test]
fn no_two_pins_share_a_name_or_a_channel() {
    let mut names = Vec::new();
    let mut channels = Vec::new();
    for gpio_port in 0..GPIO_PORTS {
        let port = Port::new(gpio_port);
        for slot in 0..PORT_SLOTS {
            if port.is_populated(slot) {
                let id = port.index(slot).get_identity();
                assert!(!names.contains(&(id.port_name, id.pin_name)));
                names.push((id.port_name, id.pin_name));
                if let Some(channel) = id.assigned_interrupt {
                    assert!(!channels.contains(&channel));
                    channels.push(channel);
                }
            }
        }
    }
    assert_eq!(names.len(), 164);
    assert_eq!(channels, vec![0, 1, 2, 3]);
}

#[test]
fn a_client_set_through_the_port_stays_in_the_port() {
    let mut port = Port::new(0);
    port.index_mut(8).set_client(3);
    assert_eq!(port.index(8).get_client(), Some(3));
    assert_eq!(port.index(9).get_client(), None);
    assert_eq!(populated(&port), 16);
    let id = port.index(8).get_identity();
    assert_eq!((id.port_name, id.pin_name), (1, 1));
}
