//! The ws2812 lesson: a colour is sent to the LED as 24 PWM periods, one per bit (green,
//! red, blue, most significant bit first), whose duty says whether the bit is 0 or 1, then
//! one period of low level that latches the colour.

use vstd::prelude::*;
use crate::bits::{bit_set, bit_weight, lemma_shift_reads_bit};

verus! {

/// Compare value (in 0.05 us timer ticks out of 25) of a period that sends a 0 bit.
pub const N0: u16 = 8;

/// Compare value of a period that sends a 1 bit.
pub const N1: u16 = 16;

/// Number of compare values in one frame: 24 bits and the latching low period.
pub const FRAME_LEN: usize = 25;

/// Number of colours in the blinking palette.
pub const COLOR_COUNT: u8 = 8;

/// A colour as the ws2812 receives it: green, red, blue.
#[derive(Clone, Copy, Debug, PartialEq, Eq, Structural)]
pub struct GrbColor {
    pub green: u8,
    pub red: u8,
    pub blue: u8,
}

/// The compare value that sends `bit`.
pub open spec fn duty_for(bit: bool) -> u16 {
    if bit {
        N1
    } else {
        N0
    }
}

/// The eight compare values that send `byte`, most significant bit first.
pub open spec fn byte_duties(byte: u8) -> Seq<u16> {
    Seq::new(8, |i: int| duty_for(bit_set(byte, (7 - i) as nat)))
}

/// The whole frame for `color`.
pub open spec fn frame_duties(color: GrbColor) -> Seq<u16> {
    byte_duties(color.green) + byte_duties(color.red) + byte_duties(color.blue) + seq![0u16]
}

/// The bit that a compare value stands for, as a number.
pub open spec fn duty_bit(duty: u16) -> u8 {
    if duty == N1 {
        1
    } else {
        0
    }
}

/// The byte sent by the eight compare values starting at `start`.
pub open spec fn decode_byte(duties: Seq<u16>, start: int) -> u8 {
    (128 * duty_bit(duties[start]) + 64 * duty_bit(duties[start + 1]) + 32 * duty_bit(
        duties[start + 2],
    ) + 16 * duty_bit(duties[start + 3]) + 8 * duty_bit(duties[start + 4]) + 4 * duty_bit(
        duties[start + 5],
    ) + 2 * duty_bit(duties[start + 6]) + duty_bit(duties[start + 7])) as u8
}

/// The colour that a frame of compare values sends.
pub open spec fn decode_frame(duties: Seq<u16>) -> GrbColor {
    GrbColor {
        green: decode_byte(duties, 0),
        red: decode_byte(duties, 8),
        blue: decode_byte(duties, 16),
    }
}

/// Appends the eight compare values of `byte`, most significant bit first.
fn push_byte_duties(out: &mut Vec<u16>, byte: u8)
    ensures
        final(out)@ == old(out)@ + byte_duties(byte),
{
    proof {
        lemma_shift_reads_bit(byte);
    }
    let mut k: u8 = 0;
    while k < 8
        invariant
            k <= 8,
            out@ == old(out)@ + byte_duties(byte).take(k as int),
            forall|j: u8| j < 8 ==> (#[trigger] ((byte >> j) & 1) == 1) == bit_set(byte, j as nat),
        decreases 8 - k,
    {
        let shift: u8 = 7 - k;
        let duty: u16 = if (byte >> shift) & 1 == 1 {
            N1
        } else {
            N0
        };
        out.push(duty);
        k = k + 1;
        proof {
            assert(byte_duties(byte).take(k as int) =~= byte_duties(byte).take(k - 1).push(duty));
        }
    }
    proof {
        assert(byte_duties(byte).take(8) =~= byte_duties(byte));
    }
}

/// The compare values that show `color`: 24 bit periods, green, red then blue, each most
/// significant bit first, and a final 0 that holds the line low.
pub fn color_frame(color: GrbColor) -> (frame: Vec<u16>)
    ensures
        frame@ == frame_duties(color),
        frame@.len() == FRAME_LEN,
{
    let mut frame: Vec<u16> = Vec::new();
    push_byte_duties(&mut frame, color.green);
    push_byte_duties(&mut frame, color.red);
    push_byte_duties(&mut frame, color.blue);
    frame.push(0);
    proof {
        assert(frame@ =~= frame_duties(color));
    }
    frame
}

proof fn lemma_byte_round_trip(byte: u8, duties: Seq<u16>, start: int)
    requires
        0 <= start,
        start + 8 <= duties.len(),
        forall|i: int| 0 <= i < 8 ==> duties[start + i] == byte_duties(byte)[i],
    ensures
        decode_byte(duties, start) == byte,
{
    assert forall|i: int| 0 <= i < 8 implies duty_bit(#[trigger] duties[start + i]) as nat == (
    byte as nat / bit_weight((7 - i) as nat)) % 2 by {
        assert(duties[start + i] == byte_duties(byte)[i]);
    }
    assert(duty_bit(duties[start + 0]) == (byte / 128) % 2);
    assert(duty_bit(duties[start + 1]) == (byte / 64) % 2);
    assert(duty_bit(duties[start + 2]) == (byte / 32) % 2);
    assert(duty_bit(duties[start + 3]) == (byte / 16) % 2);
    assert(duty_bit(duties[start + 4]) == (byte / 8) % 2);
    assert(duty_bit(duties[start + 5]) == (byte / 4) % 2);
    assert(duty_bit(duties[start + 6]) == (byte / 2) % 2);
    assert(duty_bit(duties[start + 7]) == byte % 2);
    assert(byte == 128 * ((byte / 128) % 2) + 64 * ((byte / 64) % 2) + 32 * ((byte / 32) % 2) + 16
        * ((byte / 16) % 2) + 8 * ((byte / 8) % 2) + 4 * ((byte / 4) % 2) + 2 * ((byte / 2) % 2) + (
    byte % 2)) by (bit_vector);
}

/// A frame sends exactly the colour it was made from: reading each period's duty back as
/// a bit, green, red and blue most significant bit first, gives the colour again.
pub proof fn lemma_frame_round_trip(color: GrbColor)
    ensures
        decode_frame(frame_duties(color)) == color,
        frame_duties(color).len() == FRAME_LEN,
        frame_duties(color)[24] == 0,
        forall|i: int| 0 <= i < 24 ==> #[trigger] frame_duties(color)[i] == N0 || frame_duties(color)[i] == N1,
{
    let f = frame_duties(color);
    assert forall|i: int| 0 <= i < 8 implies f[0 + i] == byte_duties(color.green)[i] by {}
    assert forall|i: int| 0 <= i < 8 implies f[8 + i] == byte_duties(color.red)[i] by {}
    assert forall|i: int| 0 <= i < 8 implies f[16 + i] == byte_duties(color.blue)[i] by {}
    lemma_byte_round_trip(color.green, f, 0);
    lemma_byte_round_trip(color.red, f, 8);
    lemma_byte_round_trip(color.blue, f, 16);
}

/// The dim colour with `green`, `red` and `blue` components switched on (at level 2) or off.
pub open spec fn dim_color(green: bool, red: bool, blue: bool) -> GrbColor {
    GrbColor {
        green: if green {
            2
        } else {
            0
        },
        red: if red {
            2
        } else {
            0
        },
        blue: if blue {
            2
        } else {
            0
        },
    }
}

/// The blinking palette: off, green, red, blue, yellow, cyan, magenta, white.
pub open spec fn palette_spec(index: u8) -> GrbColor {
    if index == 0 {
        dim_color(false, false, false)
    } else if index == 1 {
        dim_color(true, false, false)
    } else if index == 2 {
        dim_color(false, true, false)
    } else if index == 3 {
        dim_color(false, false, true)
    } else if index == 4 {
        dim_color(true, true, false)
    } else if index == 5 {
        dim_color(true, false, true)
    } else if index == 6 {
        dim_color(false, true, true)
    } else {
        dim_color(true, true, true)
    }
}

/// Colour number `index` of the palette.
pub fn palette_color(index: u8) -> (color: GrbColor)
    requires
        index < COLOR_COUNT,
    ensures
        color == palette_spec(index),
{
    let (green, red, blue) = if index == 0 {
        (0, 0, 0)
    } else if index == 1 {
        (2, 0, 0)
    } else if index == 2 {
        (0, 2, 0)
    } else if index == 3 {
        (0, 0, 2)
    } else if index == 4 {
        (2, 2, 0)
    } else if index == 5 {
        (2, 0, 2)
    } else if index == 6 {
        (0, 2, 2)
    } else {
        (2, 2, 2)
    };
    GrbColor { green, red, blue }
}

/// The palette index shown after `index`.
pub open spec fn next_color_index_spec(index: u8) -> u8 {
    if index < COLOR_COUNT - 1 {
        (index + 1) as u8
    } else {
        0
    }
}

/// The palette index shown after `index`: the next one, and the first after the last.
pub fn next_color_index(index: u8) -> (next: u8)
    ensures
        next == next_color_index_spec(index),
        next < COLOR_COUNT,
{
    if index < COLOR_COUNT - 1 {
        index + 1
    } else {
        0
    }
}

/// Stepping through the palette visits every colour in turn and comes back to the start
/// after [`COLOR_COUNT`] steps.
pub proof fn lemma_palette_cycle(index: u8)
    requires
        index < COLOR_COUNT,
    ensures
        next_color_index_spec(index) == (index + 1) % (COLOR_COUNT as int),
{
}

/// What the DMA interrupt of the LED stream does.
#[derive(Clone, Copy, Debug, PartialEq, Eq, Structural)]
pub enum StripDmaResponse {
    /// A transfer or FIFO error: stop the stream, report the errors, reset the timers,
    /// the port and the DMA controller, and halt.
    Abort { transfer_error: bool, fifo_error: bool },
    /// The frame went out: clear the flags, report, and stop the PWM timer until the
    /// next colour.
    FrameSent,
    /// Nothing to do.
    Idle,
}

/// Decides the DMA interrupt of the LED stream from its transfer error, FIFO error and
/// transfer complete flags: errors come first.
pub fn strip_dma_response(transfer_error: bool, fifo_error: bool, complete: bool) -> (response:
    StripDmaResponse)
    ensures
        transfer_error || fifo_error ==> response == (StripDmaResponse::Abort {
            transfer_error,
            fifo_error,
        }),
        !(transfer_error || fifo_error) && complete ==> response == StripDmaResponse::FrameSent,
        !(transfer_error || fifo_error || complete) ==> response == StripDmaResponse::Idle,
{
    if transfer_error || fifo_error {
        StripDmaResponse::Abort { transfer_error, fifo_error }
    } else if complete {
        StripDmaResponse::FrameSent
    } else {
        StripDmaResponse::Idle
    }
}

} // verus!
