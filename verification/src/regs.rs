//! Register addressing for the SPD2010.
//!
//! Register addresses are 16 bits wide and travel on the wire as two
//! bytes, low byte first.

use vstd::prelude::*;

verus! {

/// Peripheral address of the controller on the two-wire bus.
pub const SPD2010_ADDR: u8 = 0x53;

/// Interrupt control register: acknowledge and rearm commands go here.
pub const REG_INTERRUPT_CONTROL: u16 = 0x0002;

/// Low wire byte of a register address.
pub open spec fn spec_reg_low(reg: u16) -> u8 {
    (reg & 0xff) as u8
}

/// High wire byte of a register address.
pub open spec fn spec_reg_high(reg: u16) -> u8 {
    (reg >> 8) as u8
}

/// The register address that a pair of wire bytes (low first) denotes.
pub open spec fn spec_reg_of_bytes(low: u8, high: u8) -> u16 {
    (low + high * 0x100) as u16
}

/// Encodes a register address as its two wire bytes, low byte first.
pub fn encode_register_address(reg: u16) -> (r: (u8, u8))
    ensures
        r.0 == spec_reg_low(reg),
        r.1 == spec_reg_high(reg),
{
    proof {
        assert(reg & 0xff < 256 && reg >> 8 < 256) by (bit_vector);
        assert((reg & 0xff) as u8 == spec_reg_low(reg));
    }
    ((reg & 0xff) as u8, (reg >> 8) as u8)
}

/// Reassembles a register address from its two wire bytes, low byte first.
pub fn decode_register_address(low: u8, high: u8) -> (r: u16)
    ensures
        r == spec_reg_of_bytes(low, high),
{
    low as u16 + high as u16 * 0x100
}

/// Encoding a register address and decoding the two wire bytes again
/// yields the original address.
pub proof fn lemma_register_address_round_trip(reg: u16)
    ensures
        spec_reg_of_bytes(spec_reg_low(reg), spec_reg_high(reg)) == reg,
{
    assert(((reg & 0xff) as u8) + ((reg >> 8) as u8) * 0x100 == reg) by (bit_vector);
}

} // verus!
