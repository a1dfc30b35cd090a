//! Address arithmetic for the bit-manipulation-engine write path.
//!
//! Some microcontrollers decode a write to a specially encoded alias address
//! as a bit-field insert: the store modifies only a sub-range of bits of the
//! word at the real address, without a software read-modify-write. The
//! functions here decide whether a real address is eligible for that path
//! and compute the alias address, bit for bit as the hardware defines it.
//! They touch no memory themselves, so the caller that performs the store
//! can check and encode first and fail loudly on an ineligible address.

use vstd::prelude::*;

verus! {

/// The pattern an address is held against: it is eligible for the engine
/// exactly when masking with this value leaves it unchanged, which places it
/// in the peripheral window or in the upper on-chip-memory window.
pub const BME_ADDRESS_MASK: u32 = 0xe007_ffff;

/// The high marker bit that designates an aliased, bit-field-insert access.
pub const BFI_MARKER: u32 = 0x1000_0000;

/// Whether `addr` lies in one of the two windows the engine serves.
pub open spec fn bme_window_contains(addr: u32) -> bool {
    addr & BME_ADDRESS_MASK == addr
}

/// Decides whether the bit-field-insert path may be used on `addr`.
///
/// A store to the alias of an address outside both windows is undefined at
/// the hardware level, so a caller must abort rather than attempt it.
pub fn bme_address_ok(addr: u32) -> (ok: bool)
    ensures
        ok == bme_window_contains(addr),
{
    addr & BME_ADDRESS_MASK == addr
}

/// The alias address that encodes "insert `bit_count` bits starting at
/// `first_bit` into the word at `addr`": the real address with the marker
/// bit set, the first bit (taken modulo 32) at bits 23 and up, and the
/// width less one (taken modulo 16) at bits 19 and up.
pub open spec fn spec_bfi_alias(addr: u32, first_bit: u8, bit_count: u8) -> u32
    recommends
        1 <= bit_count,
{
    addr | BFI_MARKER
        | (((first_bit & 0x1f) as u32) << 23)
        | (((((bit_count - 1) as u32) & 0xf) as u32) << 19)
}

/// Computes the alias address for a bit-field insert of `bit_count` bits
/// starting at `first_bit` of the word at `addr`.
///
/// A width of zero encodes nothing the hardware defines, so at least one
/// bit must be inserted.
pub fn bfi_alias_address(addr: u32, first_bit: u8, bit_count: u8) -> (alias: u32)
    requires
        1 <= bit_count,
    ensures
        alias == spec_bfi_alias(addr, first_bit, bit_count),
{
    addr | BFI_MARKER
        | (((first_bit & 0x1f) as u32) << 23)
        | ((((bit_count - 1) as u32) & 0xf) << 19)
}

/// The ASCII code of one hexadecimal digit, lower case.
pub open spec fn spec_hex_digit(nibble: u8) -> u8
    recommends
        nibble < 16,
{
    if nibble < 10 {
        (0x30 + nibble) as u8
    } else {
        (0x57 + nibble) as u8
    }
}

/// The eight ASCII hexadecimal digits of `addr`, most significant first.
pub open spec fn spec_hex_address(addr: u32) -> Seq<u8> {
    seq![
        spec_hex_digit(((addr >> 28) & 0xf) as u8),
        spec_hex_digit(((addr >> 24) & 0xf) as u8),
        spec_hex_digit(((addr >> 20) & 0xf) as u8),
        spec_hex_digit(((addr >> 16) & 0xf) as u8),
        spec_hex_digit(((addr >> 12) & 0xf) as u8),
        spec_hex_digit(((addr >> 8) & 0xf) as u8),
        spec_hex_digit(((addr >> 4) & 0xf) as u8),
        spec_hex_digit((addr & 0xf) as u8),
    ]
}

proof fn lemma_nibble_bound()
    by (bit_vector)
    ensures
        forall|x: u32| #[trigger] (x & 0xf) < 16,
{
}

fn hex_digit(nibble: u8) -> (digit: u8)
    requires
        nibble < 16,
    ensures
        digit == spec_hex_digit(nibble),
{
    if nibble < 10 {
        0x30 + nibble
    } else {
        0x57 + nibble
    }
}

/// Renders `addr` as its eight hexadecimal digits, most significant first,
/// for the diagnostic a caller raises when an address fails the window
/// check: the message must name the offending address.
pub fn hex_address(addr: u32) -> (digits: Vec<u8>)
    ensures
        digits@ == spec_hex_address(addr),
{
    proof {
        lemma_nibble_bound();
    }
    let mut digits: Vec<u8> = Vec::new();
    digits.push(hex_digit(((addr >> 28) & 0xf) as u8));
    digits.push(hex_digit(((addr >> 24) & 0xf) as u8));
    digits.push(hex_digit(((addr >> 20) & 0xf) as u8));
    digits.push(hex_digit(((addr >> 16) & 0xf) as u8));
    digits.push(hex_digit(((addr >> 12) & 0xf) as u8));
    digits.push(hex_digit(((addr >> 8) & 0xf) as u8));
    digits.push(hex_digit(((addr >> 4) & 0xf) as u8));
    digits.push(hex_digit((addr & 0xf) as u8));
    proof {
        assert(digits@ =~= spec_hex_address(addr));
    }
    digits
}

} // verus!
