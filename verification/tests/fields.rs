use lpc43xx::fields::FieldValue;
use lpc43xx::scu;

#[test]
fn new_shifts_mask_and_value_into_place() {
    let fv = FieldValue::new(0x1, 3, 1);
    assert_eq!(fv.mask, 0x8);
    assert_eq!(fv.value, 0x8);
    let fv = FieldValue::new(0x3, 8, 2);
    assert_eq!(fv.mask, 0x300);
    assert_eq!(fv.value, 0x200);
}

#[test]
fn new_keeps_only_the_part_of_the_value_inside_the_mask() {
    let fv = FieldValue::new(0x7, 0, 9);
    assert_eq!(fv.mask, 0x7);
    assert_eq!(fv.value, 0x1);
    let fv = FieldValue::new(0x1, 31, 0xFFFF_FFFF);
    assert_eq!(fv.mask, 0x8000_0000);
    assert_eq!(fv.value, 0x8000_0000);
}

#[test]
fn new_drops_bits_shifted_past_the_top() {
    let fv = FieldValue::new(0xFF, 28, 0xFF);
    assert_eq!(fv.mask, 0xF000_0000);
    assert_eq!(fv.value, 0xF000_0000);
}

#[test]
fn plus_joins_masks_and_values() {
    let a = FieldValue::new(0x7, 0, 4);
    let b = FieldValue::new(0x1, 7, 1);
    let c = FieldValue::new(0x1, 6, 0);
    let sum = a.plus(b).plus(c);
    assert_eq!(sum.mask, 0xC7);
    assert_eq!(sum.value, 0x84);
}

#[test]
fn modify_replaces_the_masked_bits_only() {
    let fv = FieldValue::new(0x3, 4, 0x2);
    assert_eq!(fv.modify(0xFFFF_FFFF), 0xFFFF_FFEF);
    assert_eq!(fv.modify(0), 0x20);
    assert_eq!(fv.modify(0x1234_5678), 0x1234_5668);
}

#[test]
fn matches_all_compares_the_masked_bits_only() {
    let fv = FieldValue::new(0x3, 4, 0x2);
    assert!(fv.matches_all(0x20));
    assert!(fv.matches_all(0xFFFF_FFEF));
    assert!(!fv.matches_all(0x30));
    assert!(!fv.matches_all(0x00));
    assert!(!fv.matches_all(0x10));
}

#[test]
fn field_value_equality_is_by_mask_and_value() {
    assert_eq!(FieldValue::new(0x1, 3, 1), FieldValue { mask: 0x8, value: 0x8 });
    assert_ne!(FieldValue::new(0x1, 3, 1), FieldValue::new(0x1, 3, 0));
}

#[test]
fn mux_fields_lie_where_the_register_has_them() {
    assert_eq!(scu::mode(0), FieldValue { mask: 0x7, value: 0 });
    assert_eq!(scu::mode(4), FieldValue { mask: 0x7, value: 4 });
    assert_eq!(scu::mode(12), FieldValue { mask: 0x7, value: 4 });
    assert_eq!(scu::pull_down_enabled(), FieldValue { mask: 0x8, value: 0x8 });
    assert_eq!(scu::pull_down_disabled(), FieldValue { mask: 0x8, value: 0 });
    assert_eq!(scu::pull_up_enabled(), FieldValue { mask: 0x10, value: 0 });
    assert_eq!(scu::pull_up_disabled(), FieldValue { mask: 0x10, value: 0x10 });
    assert_eq!(scu::input_buffer_enabled(), FieldValue { mask: 0x40, value: 0x40 });
    assert_eq!(scu::input_buffer_disabled(), FieldValue { mask: 0x40, value: 0 });
    assert_eq!(scu::glitch_filter_enabled(), FieldValue { mask: 0x80, value: 0 });
    assert_eq!(scu::glitch_filter_disabled(), FieldValue { mask: 0x80, value: 0x80 });
    assert_eq!(scu::normal_drive(), FieldValue { mask: 0x300, value: 0 });
}
