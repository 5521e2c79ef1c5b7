//! Address arithmetic of the Cortex-M4 memory map used by the lessons: the bit-band alias
//! of a peripheral register bit, the NVIC enable register and bit of an interrupt, and
//! setting one bit of a register.

use vstd::prelude::*;

verus! {

/// Start of the peripheral region.
pub const PERIPHERAL_BASE: usize = 0x4000_0000;

/// Start of the peripheral bit-band alias region.
pub const BIT_BAND_ALIAS_BASE: usize = 0x4200_0000;

/// The alias word of bit `bit` of the peripheral register at `register_address`: every
/// byte of the peripheral region maps to 32 alias bytes, every bit to one 4-byte word.
pub open spec fn bit_band_alias_spec(register_address: int, bit: int) -> int {
    BIT_BAND_ALIAS_BASE + (register_address - PERIPHERAL_BASE) * 32 + bit * 4
}

/// The address whose word write sets or clears bit `bit` of the peripheral register at
/// `register_address`.
pub fn bit_band_alias(register_address: usize, bit: usize) -> (alias: usize)
    requires
        register_address >= PERIPHERAL_BASE,
        bit_band_alias_spec(register_address as int, bit as int) <= usize::MAX,
    ensures
        alias == bit_band_alias_spec(register_address as int, bit as int),
{
    let offset: usize = register_address - PERIPHERAL_BASE;
    BIT_BAND_ALIAS_BASE + offset * 32 + bit * 4
}

/// Inside the 1 MB bit-band region, every register bit gets its own word-aligned alias,
/// inside the 32 MB alias region.
pub proof fn lemma_bit_band_alias_distinct(a1: int, b1: int, a2: int, b2: int)
    requires
        PERIPHERAL_BASE <= a1 < PERIPHERAL_BASE + 0x10_0000,
        PERIPHERAL_BASE <= a2 < PERIPHERAL_BASE + 0x10_0000,
        a1 % 4 == 0,
        a2 % 4 == 0,
        0 <= b1 < 32,
        0 <= b2 < 32,
        a1 != a2 || b1 != b2,
    ensures
        bit_band_alias_spec(a1, b1) != bit_band_alias_spec(a2, b2),
        bit_band_alias_spec(a1, b1) % 4 == 0,
        BIT_BAND_ALIAS_BASE <= bit_band_alias_spec(a1, b1) < BIT_BAND_ALIAS_BASE + 0x200_0000,
{
    assert(bit_band_alias_spec(a1, b1) != bit_band_alias_spec(a2, b2)) by (nonlinear_arith)
        requires
            PERIPHERAL_BASE <= a1 < PERIPHERAL_BASE + 0x10_0000,
            PERIPHERAL_BASE <= a2 < PERIPHERAL_BASE + 0x10_0000,
            a1 % 4 == 0,
            a2 % 4 == 0,
            0 <= b1 < 32,
            0 <= b2 < 32,
            a1 != a2 || b1 != b2,
    ;
}

/// Number of interrupt lines one NVIC set-enable register covers.
pub const IRQS_PER_ISER: u32 = 32;

/// The set-enable register (ISERn) and its bit for interrupt number `irq`.
pub fn nvic_enable_position(irq: u32) -> (position: (usize, u32))
    ensures
        position.0 == irq / 32,
        position.1 == irq % 32,
        32 * position.0 + position.1 == irq,
{
    ((irq / IRQS_PER_ISER) as usize, irq % IRQS_PER_ISER)
}

/// The value of a register after setting its bit `bit` by read-modify-write (an NVIC
/// set-enable bit, SLEEPONEXIT in the SCB, CMP_PD in SYSCFG): that bit is set and the
/// others are kept.
pub fn with_bit_set(current: u32, bit: u32) -> (value: u32)
    requires
        bit < 32,
    ensures
        value == current | (1u32 << bit),
        (value >> bit) & 1 == 1,
        forall|k: u32| k < 32 && k != bit ==> #[trigger] ((value >> k) & 1) == (current >> k) & 1,
{
    let value: u32 = current | (1u32 << bit);
    assert((value >> bit) & 1 == 1) by (bit_vector)
        requires
            bit < 32,
            value == current | (1u32 << bit),
    ;
    assert forall|k: u32| k < 32 && k != bit implies #[trigger] ((value >> k) & 1) == (current >> k)
        & 1 by {
        assert(((current | (1u32 << bit)) >> k) & 1 == (current >> k) & 1) by (bit_vector)
            requires
                bit < 32,
                k < 32,
                k != bit,
        ;
    }
    value
}

} // verus!
