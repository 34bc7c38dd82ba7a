//! Register field values: a set of register bits together with the value
//! those bits are to take.
//!
//! The arithmetic on field values is that of the `tock-registers` crate; the
//! functions here call it and state what it computes.

use vstd::prelude::*;

verus! {

/// Bits of a 32-bit register (`mask`) and the value they are to take
/// (`value`), both already shifted into place.
#[derive(Clone, Copy, Debug, PartialEq, Eq, Structural)]
pub struct FieldValue {
    pub mask: u32,
    pub value: u32,
}

impl FieldValue {
    /// The value names no bit outside the mask.
    pub open spec fn wf(self) -> bool {
        self.value & !self.mask == 0
    }

    /// Both sets of bits together, each with its value.
    pub open spec fn spec_plus(self, other: FieldValue) -> FieldValue {
        FieldValue { mask: self.mask | other.mask, value: self.value | other.value }
    }

    /// The register value `register` with the bits of the mask replaced by
    /// this value.
    pub open spec fn spec_modify(self, register: u32) -> u32 {
        (register & !self.mask) | self.value
    }

    /// Every bit of the mask has, in `register`, the value given here.
    pub open spec fn spec_matches_all(self, register: u32) -> bool {
        register & self.mask == self.value
    }

    /// The field `mask`, moved `shift` bits up, holding `value`.
    pub fn new(mask: u32, shift: usize, value: u32) -> (fv: FieldValue)
        requires
            shift < 32,
        ensures
            fv.mask == mask << (shift as u32),
            fv.value == (value & mask) << (shift as u32),
            fv.wf(),
    {
        let (m, v) = shifted_field(mask, shift, value);
        let s = shift as u32;
        assert(((value & mask) << s) & !(mask << s) == 0) by (bit_vector)
            requires
                s < 32,
        ;
        FieldValue { mask: m, value: v }
    }

    /// Both fields together.
    pub fn plus(self, other: FieldValue) -> (fv: FieldValue)
        requires
            self.wf(),
            other.wf(),
        ensures
            fv == self.spec_plus(other),
            fv.wf(),
    {
        let (m, v) = combined_fields(self.mask, self.value, other.mask, other.value);
        let (m1, v1, m2, v2) = (self.mask, self.value, other.mask, other.value);
        assert((v1 & m1) | (v2 & m2) == v1 | v2 && (v1 | v2) & !(m1 | m2) == 0) by (bit_vector)
            requires
                v1 & !m1 == 0,
                v2 & !m2 == 0,
        ;
        FieldValue { mask: m, value: v }
    }

    /// Replaces the bits of the mask in `register` by this value.
    pub fn modify(self, register: u32) -> (r: u32)
        requires
            self.wf(),
        ensures
            r == self.spec_modify(register),
    {
        let r = modified_register(self.mask, self.value, register);
        let (m, v) = (self.mask, self.value);
        assert(v & m == v) by (bit_vector)
            requires
                v & !m == 0,
        ;
        r
    }

    /// Whether every bit of the mask has, in `register`, the value given
    /// here.
    pub fn matches_all(&self, register: u32) -> (b: bool)
        requires
            self.wf(),
        ensures
            b == self.spec_matches_all(register),
    {
        let b = register_matches(self.mask, self.value, register);
        let (m, v) = (self.mask, self.value);
        assert(v & m == v) by (bit_vector)
            requires
                v & !m == 0,
        ;
        b
    }
}

/// `tock_registers::fields::FieldValue::<u32, ()>::new`: the mask moved
/// `shift` bits up, and the part of `value` inside the mask moved up by the
/// same amount. Bits moved past the top of the register are dropped.
#[verifier::external_body]
fn shifted_field(mask: u32, shift: usize, value: u32) -> (r: (u32, u32))
    requires
        shift < 32,
    ensures
        r.0 == mask << (shift as u32),
        r.1 == (value & mask) << (shift as u32),
{
    let field = tock_registers::fields::FieldValue::<u32, ()>::new(mask, shift, value);
    (field.mask(), field.value)
}

/// `+` on `tock_registers::fields::FieldValue`: the union of the two masks
/// and the union of the two values. Each operand is made from a mask and a
/// value at shift 0, which keeps the part of the value inside the mask.
#[verifier::external_body]
fn combined_fields(mask: u32, value: u32, other_mask: u32, other_value: u32) -> (r: (u32, u32))
    ensures
        r.0 == mask | other_mask,
        r.1 == (value & mask) | (other_value & other_mask),
{
    let first = tock_registers::fields::FieldValue::<u32, ()>::new(mask, 0, value);
    let second = tock_registers::fields::FieldValue::<u32, ()>::new(other_mask, 0, other_value);
    let sum = first + second;
    (sum.mask(), sum.value)
}

/// `tock_registers::fields::FieldValue::modify`: `register` with the bits of
/// the mask cleared and the value put in their place. The field is made from
/// the mask and the value at shift 0, which keeps the part of the value
/// inside the mask.
#[verifier::external_body]
fn modified_register(mask: u32, value: u32, register: u32) -> (r: u32)
    ensures
        r == (register & !mask) | (value & mask),
{
    tock_registers::fields::FieldValue::<u32, ()>::new(mask, 0, value).modify(register)
}

/// `tock_registers::fields::FieldValue::matches_all`: whether `register`,
/// cut down to the mask, equals the value. The field is made from the mask
/// and the value at shift 0, which keeps the part of the value inside the
/// mask.
#[verifier::external_body]
fn register_matches(mask: u32, value: u32, register: u32) -> (b: bool)
    ensures
        b == (register & mask == value & mask),
{
    tock_registers::fields::FieldValue::<u32, ()>::new(mask, 0, value).matches_all(register)
}

} // verus!
