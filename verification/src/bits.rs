//! Bits of a byte, stated arithmetically.

use vstd::prelude::*;

verus! {

/// The value of bit `k` of a byte: 2 to the power `k`, for `k < 8`.
pub open spec fn bit_weight(k: nat) -> nat {
    if k == 0 {
        1
    } else if k == 1 {
        2
    } else if k == 2 {
        4
    } else if k == 3 {
        8
    } else if k == 4 {
        16
    } else if k == 5 {
        32
    } else if k == 6 {
        64
    } else {
        128
    }
}

/// Whether bit `k` (0 is the least significant, `k < 8`) of `byte` is set.
pub open spec fn bit_set(byte: u8, k: nat) -> bool {
    (byte as nat / bit_weight(k)) % 2 == 1
}

/// Shifting right by `k` and masking the lowest bit reads bit `k`.
pub proof fn lemma_shift_reads_bit(byte: u8)
    ensures
        forall|k: u8| k < 8 ==> (#[trigger] ((byte >> k) & 1) == 1) == bit_set(byte, k as nat),
        forall|k: u8| k < 8 ==> (#[trigger] ((byte >> k) & 1) == 1) || ((byte >> k) & 1) == 0,
{
    assert({
        &&& (((byte >> 0u8) & 1) == 1) == (byte % 2 == 1)
        &&& (((byte >> 1u8) & 1) == 1) == ((byte / 2) % 2 == 1)
        &&& (((byte >> 2u8) & 1) == 1) == ((byte / 4) % 2 == 1)
        &&& (((byte >> 3u8) & 1) == 1) == ((byte / 8) % 2 == 1)
        &&& (((byte >> 4u8) & 1) == 1) == ((byte / 16) % 2 == 1)
        &&& (((byte >> 5u8) & 1) == 1) == ((byte / 32) % 2 == 1)
        &&& (((byte >> 6u8) & 1) == 1) == ((byte / 64) % 2 == 1)
        &&& (((byte >> 7u8) & 1) == 1) == ((byte / 128) % 2 == 1)
    }) by (bit_vector);
    assert(forall|k: u8| k < 8 ==> (#[trigger] ((byte >> k) & 1) == 1) || ((byte >> k) & 1) == 0)
        by (bit_vector);
    assert forall|k: u8| k < 8 implies (#[trigger] ((byte >> k) & 1) == 1) == bit_set(
        byte,
        k as nat,
    ) by {
        if k == 0 {
        } else if k == 1 {
        } else if k == 2 {
        } else if k == 3 {
        } else if k == 4 {
        } else if k == 5 {
        } else if k == 6 {
        } else {
        }
    }
}

} // verus!
