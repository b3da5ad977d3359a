//! GPIO register arithmetic: the offset, shift and field computations
//! of the pin controller, on plain register values.
//!
//! Four pins share each 32-bit configuration register, one byte of
//! field per pin.  The volatile reads and writes of the controller's
//! memory-mapped registers live with the platform code; what it writes
//! is computed, and verified, here.

use vstd::prelude::*;

verus! {

/// Base address of the pin-controller register block.
pub const GPIO_BASE: usize = 0x13040000;

/// Width mask of one output-enable field.
pub const GPIO_DOEN_MASK: u32 = 0x3f;

/// Width mask of one output-data field.
pub const GPIO_DOUT_MASK: u32 = 0x7f;

/// Byte offset of the output-data registers in the block.
pub const GPIO_DOUT: usize = 0x40;

/// Byte offset of the input-data registers in the block.
pub const GPIO_DIN: usize = 0x80;

/// Byte offset of the register group a pin's field lives in: the pin
/// number rounded down to a multiple of four.
pub fn gpio_offset(gpio: u32) -> (off: usize)
    ensures
        off == ((gpio >> 2u32) << 2u32),
        off == (gpio / 4) * 4,
{
    proof {
        assert(((gpio >> 2u32) << 2u32) == (gpio / 4) * 4) by (bit_vector);
    }
    ((gpio >> 2) << 2) as usize
}

/// Bit position of a pin's field inside its register: eight bits per
/// pin, four pins per register.
pub fn gpio_shift(gpio: u32) -> (shift: u32)
    ensures
        shift == ((gpio & 3u32) << 3u32),
        shift == (gpio % 4) * 8,
        shift <= 24,
{
    proof {
        assert(((gpio & 3u32) << 3u32) == (gpio % 4) * 8 && ((gpio & 3u32) << 3u32) <= 24)
            by (bit_vector);
    }
    (gpio & 0x3) << 3
}

/// A register value with the `clr` bits cleared and the `set` bits
/// set, in that order.
pub fn clrset_value(current: u32, clr: u32, set: u32) -> (v: u32)
    ensures
        v == (current & !clr) | set,
{
    (current & !clr) | set
}

/// The new output-enable register value after programming one pin's
/// enable field: the pin's field cleared, then set to `oen`.
pub fn doen_update(current: u32, gpio: u32, oen: u32) -> (v: u32)
    requires
        oen <= GPIO_DOEN_MASK,
    ensures
        ({
            let shift = (gpio % 4) * 8;
            v == (current & !((GPIO_DOEN_MASK << shift) as u32)) | ((oen << shift) as u32)
        }),
{
    let shift = gpio_shift(gpio);
    clrset_value(current, GPIO_DOEN_MASK << shift, oen << shift)
}

/// The new output-data register value after programming one pin's data
/// field: the pin's field cleared, then set to `gpo` masked to the
/// field width.
pub fn dout_update(current: u32, gpio: u32, gpo: u32) -> (v: u32)
    ensures
        ({
            let shift = (gpio % 4) * 8;
            v == (current & !((GPIO_DOUT_MASK << shift) as u32)) | (((gpo & GPIO_DOUT_MASK)
                << shift) as u32)
        }),
{
    let shift = gpio_shift(gpio);
    clrset_value(current, GPIO_DOUT_MASK << shift, (gpo & GPIO_DOUT_MASK) << shift)
}

/// Whether a pin reads high in its input-data register value: the
/// pin's bit within the 32-pin register.
pub fn din_bit(value: u32, gpio: u32) -> (high: bool)
    ensures
        high == (((value >> ((gpio & 31u32) as u32)) & 1u32) != 0),
{
    proof {
        assert((gpio & 31u32) < 32) by (bit_vector);
    }
    ((value >> (gpio & 0x1f)) & 0x1) != 0
}

} // verus!
