//! The LCD1602 lessons: which levels the control lines (RS, RW) and the data lines take for a
//! transfer, in the 8-line and the 4-line wiring, and how the busy flag is read back.

use vstd::prelude::*;
use crate::bits::{bit_set, lemma_shift_reads_bit};

verus! {

/// Levels of the RS and RW lines for the register-select value `rs` and the read/write value
/// `rw` (each 0 or 1): high for 1.
pub fn control_levels(rs: u8, rw: u8) -> (levels: (bool, bool))
    requires
        rs <= 1,
        rw <= 1,
    ensures
        levels.0 == (rs == 1),
        levels.1 == (rw == 1),
{
    let rs_high = match rs {
        0 => false,
        _ => true,
    };
    let rw_high = match rw {
        0 => false,
        _ => true,
    };
    (rs_high, rw_high)
}

/// Levels of D0..D7 in the 8-line wiring: line `i` is high when bit `i` of `data` is set.
pub fn data_line_levels(data: u8) -> (levels: Vec<bool>)
    ensures
        levels@.len() == 8,
        forall|i: int| 0 <= i < 8 ==> levels@[i] == bit_set(data, i as nat),
{
    proof {
        lemma_shift_reads_bit(data);
    }
    let mut levels: Vec<bool> = Vec::new();
    let mut i: u8 = 0;
    while i < 8
        invariant
            i <= 8,
            levels@.len() == i,
            forall|j: int| 0 <= j < i ==> levels@[j] == bit_set(data, j as nat),
            forall|j: u8| j < 8 ==> (#[trigger] ((data >> j) & 1) == 1) == bit_set(data, j as nat),
        decreases 8 - i,
    {
        levels.push((data >> i) & 1 == 1);
        i = i + 1;
    }
    levels
}

/// Levels of D4..D7 in the 4-line wiring for a nibble: line `4 + k` is high when bit `k` of
/// `nibble` is set.
pub fn nibble_line_levels(nibble: u8) -> (levels: Vec<bool>)
    requires
        nibble < 16,
    ensures
        levels@.len() == 4,
        forall|k: int| 0 <= k < 4 ==> levels@[k] == bit_set(nibble, k as nat),
{
    proof {
        lemma_shift_reads_bit(nibble);
    }
    let mut levels: Vec<bool> = Vec::new();
    let mut k: u8 = 0;
    while k < 4
        invariant
            k <= 4,
            levels@.len() == k,
            forall|j: int| 0 <= j < k ==> levels@[j] == bit_set(nibble, j as nat),
            forall|j: u8| j < 8 ==> (#[trigger] ((nibble >> j) & 1) == 1) == bit_set(nibble, j as nat),
        decreases 4 - k,
    {
        levels.push((nibble >> k) & 1 == 1);
        k = k + 1;
    }
    levels
}

/// The two nibbles in which the 4-line wiring sends a byte: the high one first.
pub fn split_byte(data: u8) -> (nibbles: (u8, u8))
    ensures
        nibbles.0 == data / 16,
        nibbles.1 == data % 16,
        nibbles.0 < 16,
        nibbles.1 < 16,
{
    assert(data >> 4u8 == data / 16) by (bit_vector);
    assert(data & 0xFu8 == data % 16) by (bit_vector);
    (data >> 4, data & 0b1111)
}

/// A byte sent as two nibbles puts on D4..D7 the same levels that the 8-line wiring puts on
/// D4..D7 and then on D0..D3, and the nibbles make up the byte again.
pub proof fn lemma_nibbles_carry_byte(data: u8)
    ensures
        (data / 16) * 16 + data % 16 == data,
        forall|k: nat| k < 4 ==> #[trigger] bit_set((data / 16) as u8, k) == bit_set(data, k + 4),
        forall|k: nat| k < 4 ==> #[trigger] bit_set((data % 16) as u8, k) == bit_set(data, k),
{
    assert({
        &&& (data / 16) % 2 == (data / 16) % 2
        &&& ((data / 16) / 2) % 2 == (data / 32) % 2
        &&& ((data / 16) / 4) % 2 == (data / 64) % 2
        &&& ((data / 16) / 8) % 2 == (data / 128) % 2
        &&& (data % 16) % 2 == data % 2
        &&& ((data % 16) / 2) % 2 == (data / 2) % 2
        &&& ((data % 16) / 4) % 2 == (data / 4) % 2
        &&& ((data % 16) / 8) % 2 == (data / 8) % 2
    }) by (bit_vector);
    assert forall|k: nat| k < 4 implies #[trigger] bit_set((data / 16) as u8, k) == bit_set(
        data,
        k + 4,
    ) by {
        if k == 0 {
        } else if k == 1 {
        } else if k == 2 {
        } else {
        }
    }
    assert forall|k: nat| k < 4 implies #[trigger] bit_set((data % 16) as u8, k) == bit_set(
        data,
        k,
    ) by {
        if k == 0 {
        } else if k == 1 {
        } else if k == 2 {
        } else {
        }
    }
}

/// The busy flag and address counter read on D0..D7 in the 8-line wiring: the low byte of
/// the port input register.
pub fn busy_flag_8pin(idr: u32) -> (flag: u8)
    ensures
        flag == idr % 256,
{
    assert(idr & 0xFFu32 == idr % 256) by (bit_vector);
    (idr & 0b1111_1111) as u8
}

/// The value the 4-line wiring reads from its two port reads: D4..D7 are port bits 4..7,
/// so each read gives one nibble, the first read the high one and the second the low one.
pub open spec fn busy_flag_4pin_value(first_idr: u32, second_idr: u32) -> int {
    ((first_idr / 16) % 16) * 16 + (second_idr / 16) % 16
}

/// Combines the two reads of the 4-line wiring, keeping only port bits 4..7 of each.
pub fn busy_flag_4pin(first_idr: u32, second_idr: u32) -> (flag: u8)
    ensures
        flag == busy_flag_4pin_value(first_idr, second_idr),
{
    let state_high: u32 = (first_idr >> 4) & 0xF;
    let state_low: u32 = (second_idr >> 4) & 0xF;
    assert((first_idr >> 4u32) & 0xF == (first_idr / 16) % 16) by (bit_vector);
    assert((second_idr >> 4u32) & 0xF == (second_idr / 16) % 16) by (bit_vector);
    assert(state_high < 16 && state_low < 16 ==> (state_high << 4u32) | state_low == state_high * 16
        + state_low) by (bit_vector);
    ((state_high << 4) | state_low) as u8
}

/// The controller is busy while bit 7 of the value read is set.
pub fn is_busy(flag: u8) -> (busy: bool)
    ensures
        busy == (flag >= 128),
{
    assert(((flag >> 7u8) & 1 == 1) == (flag >= 128)) by (bit_vector);
    (flag >> 7) & 1 == 1
}

/// Whether the SysTick control and status value `csr` has COUNTFLAG (bit 16) set: the
/// delay has elapsed.
pub fn systick_count_flag(csr: u32) -> (elapsed: bool)
    ensures
        elapsed == ((csr / 0x1_0000) % 2 == 1),
{
    assert(((csr >> 16u32) & 1 == 1) == ((csr / 0x1_0000) % 2 == 1)) by (bit_vector);
    (csr >> 16) & 1 == 1
}

} // verus!
