//! The timer lessons: the ultrasonic range finders (input capture of the echo pulse), the
//! quadrature encoders, and the counter display of the master-mode timer.

use vstd::prelude::*;
use crate::text::{
    decimal_digits, decimal_value, decimal_width, is_decimal_numeral, lemma_decimal_digits_denote,
    pow10, push_decimal,
};

verus! {

/// Status flags of the free-running range finder's timer (TIM3).
#[derive(Clone, Copy, Debug)]
pub struct FreerunFlags {
    /// UIF: the counter overflowed.
    pub update: bool,
    /// CC1IF: a rising edge of the echo was captured (the counter was reset by it).
    pub rising_edge: bool,
    /// CC2IF: a falling edge of the echo was captured.
    pub falling_edge: bool,
}

/// What the free-running range finder's interrupt does.
#[derive(Clone, Copy, Debug, PartialEq, Eq, Structural)]
pub enum FreerunStep {
    /// Clear the overflow flag; when an echo had started, also clear its flag, report a
    /// timeout and count the event.
    Overflow { echo_started: bool },
    /// Clear both capture flags, turn the captured pulse length into a distance, reset the
    /// counter and count the event.
    Echo,
    /// Nothing to do.
    Nothing,
}

/// Decides the free-running range finder's interrupt: an overflow comes first.
pub fn freerun_step(flags: FreerunFlags) -> (step: FreerunStep)
    ensures
        flags.update ==> step == (FreerunStep::Overflow { echo_started: flags.rising_edge }),
        !flags.update && flags.falling_edge ==> step == FreerunStep::Echo,
        !flags.update && !flags.falling_edge ==> step == FreerunStep::Nothing,
{
    if flags.update {
        FreerunStep::Overflow { echo_started: flags.rising_edge }
    } else if flags.falling_edge {
        FreerunStep::Echo
    } else {
        FreerunStep::Nothing
    }
}

/// Status flags of the periodic range finder's timer (TIM2, which also triggers the sensor).
#[derive(Clone, Copy, Debug)]
pub struct PeriodicFlags {
    /// UIF: the period ended.
    pub update: bool,
    /// CC3IF: a rising edge of the echo was captured.
    pub rising_edge: bool,
    /// CC4IF: a falling edge of the echo was captured.
    pub falling_edge: bool,
}

/// What the periodic range finder's interrupt does.
#[derive(Clone, Copy, Debug, PartialEq, Eq, Structural)]
pub enum PeriodicStep {
    /// Clear the update flag and leave, without counting the event: no echo started.
    QuietPeriod,
    /// Clear the update flag and the rising-edge flag, report a timeout, count the event.
    Timeout,
    /// Clear the falling-edge flag, measure the pulse between the two captures, count the
    /// event.
    Echo,
    /// Count the event.
    Other,
}

/// Decides the periodic range finder's interrupt: the end of a period comes first.
pub fn periodic_step(flags: PeriodicFlags) -> (step: PeriodicStep)
    ensures
        flags.update && !flags.rising_edge ==> step == PeriodicStep::QuietPeriod,
        flags.update && flags.rising_edge ==> step == PeriodicStep::Timeout,
        !flags.update && flags.falling_edge ==> step == PeriodicStep::Echo,
        !flags.update && !flags.falling_edge ==> step == PeriodicStep::Other,
{
    if flags.update {
        if !flags.rising_edge {
            return PeriodicStep::QuietPeriod;
        }
        PeriodicStep::Timeout
    } else if flags.falling_edge {
        PeriodicStep::Echo
    } else {
        PeriodicStep::Other
    }
}

/// The length, in timer ticks (microseconds), of the echo pulse captured at `begin` and
/// `end`; none when the falling edge was captured before the rising one in the counter's
/// cycle.
pub fn echo_interval(begin: u32, end: u32) -> (interval: Option<u32>)
    ensures
        begin > end ==> interval is None,
        begin <= end ==> interval == Some((end - begin) as u32),
{
    if begin > end {
        None
    } else {
        Some(end - begin)
    }
}

/// The direction in which a timer counts (its DIR bit).
#[derive(Clone, Copy, Debug, PartialEq, Eq, Structural)]
pub enum CountDirection {
    Up,
    Down,
}

/// The direction given by the DIR bit of CR1: set means counting down.
pub fn direction_from_dir_bit(dir_bit: bool) -> (direction: CountDirection)
    ensures
        dir_bit ==> direction == CountDirection::Down,
        !dir_bit ==> direction == CountDirection::Up,
{
    if dir_bit {
        CountDirection::Down
    } else {
        CountDirection::Up
    }
}

/// The letter shown for a direction: `D` (68) for down, `U` (85) for up.
pub fn direction_letter(direction: CountDirection) -> (letter: u8)
    ensures
        direction == CountDirection::Down ==> letter == 68,
        direction == CountDirection::Up ==> letter == 85,
{
    match direction {
        CountDirection::Down => 68,
        CountDirection::Up => 85,
    }
}

/// The position after one encoder step in `direction`.
pub open spec fn stepped(position: int, direction: CountDirection) -> int {
    match direction {
        CountDirection::Down => position - 1,
        CountDirection::Up => position + 1,
    }
}

/// The position after one encoder step: one less when the timer counted down, one more
/// when it counted up.
pub fn encoder_step(position: i16, direction: CountDirection) -> (next: i16)
    requires
        i16::MIN <= stepped(position as int, direction) <= i16::MAX,
    ensures
        next == stepped(position as int, direction),
{
    match direction {
        CountDirection::Down => position - 1,
        CountDirection::Up => position + 1,
    }
}

/// A step one way and a step the other way bring the position back.
pub proof fn lemma_encoder_steps_cancel(position: int, direction: CountDirection)
    ensures
        stepped(stepped(position, direction), match direction {
            CountDirection::Down => CountDirection::Up,
            CountDirection::Up => CountDirection::Down,
        }) == position,
{
}

/// The value the quadrature decoder's 32-bit counter is set to, in the middle of its range
/// (half of 2^32, less one), so that it can move equally far both ways.
pub const QEI_START_COUNT: u32 = 0x7FFF_FFFF;

/// The position shown by the quadrature-decoder lesson: the counter's distance from its
/// start value.
pub fn qei_position(count: u32) -> (position: i64)
    ensures
        position == count - QEI_START_COUNT,
        -0x7FFF_FFFF <= position <= 0x8000_0000,
{
    count as i64 - QEI_START_COUNT as i64
}

/// The counter display of the master-mode timer lesson for the tick numbered `count`.
/// The first tick prints `"TIM2 Int Triggered: 1"`; later ticks move the cursor back over
/// the previous number (`ESC [ n D`, n its width) and print the new one in its place.
pub open spec fn tick_display_spec(count: nat) -> Seq<u8> {
    if count == 1 {
        seq![84u8, 73u8, 77u8, 50u8, 32u8, 73u8, 110u8, 116u8, 32u8, 84u8, 114u8, 105u8, 103u8,
        103u8, 101u8, 114u8, 101u8, 100u8, 58u8, 32u8] + decimal_digits(count)
    } else {
        seq![27u8, 91u8] + decimal_digits(decimal_digits((count - 1) as nat).len()) + seq![68u8]
            + decimal_digits(count)
    }
}

/// What the display of a tick does on the terminal. The first tick prints
/// `"TIM2 Int Triggered: "` and the numeral of 1. A later tick `count` prints `ESC [`, a
/// numeral `n`, `D`, and the numeral of `count`, where `n` is the number of decimal digits of
/// the previous tick number `count - 1` (`10^(n-1) <= count - 1 < 10^n`): the cursor moves
/// back over exactly the previous number, which the new one overwrites.
pub proof fn lemma_tick_display_overwrites_previous(count: nat) -> (parts: (Seq<u8>, Seq<u8>))
    requires
        count >= 1,
    ensures
        count == 1 ==> tick_display_spec(count) == seq![84u8, 73u8, 77u8, 50u8, 32u8, 73u8,
        110u8, 116u8, 32u8, 84u8, 114u8, 105u8, 103u8, 103u8, 101u8, 114u8, 101u8, 100u8, 58u8,
        32u8] + parts.1,
        count >= 2 ==> {
            &&& tick_display_spec(count) == seq![27u8, 91u8] + parts.0 + seq![68u8] + parts.1
            &&& is_decimal_numeral(parts.0)
            &&& decimal_value(parts.0) >= 1
            &&& pow10((decimal_value(parts.0) - 1) as nat) <= count - 1 < pow10(
                decimal_value(parts.0),
            )
        },
        is_decimal_numeral(parts.1),
        decimal_value(parts.1) == count,
{
    lemma_decimal_digits_denote(count);
    let shown = decimal_digits(count);
    if count == 1 {
        (Seq::empty(), shown)
    } else {
        let previous = (count - 1) as nat;
        lemma_decimal_digits_denote(previous);
        let width = decimal_digits(previous).len();
        lemma_decimal_digits_denote(width);
        let moved = decimal_digits(width);
        assert(tick_display_spec(count) =~= seq![27u8, 91u8] + moved + seq![68u8] + shown);
        (moved, shown)
    }
}

/// Builds the display for tick `count`.
pub fn tick_display(count: u32) -> (text: Vec<u8>)
    requires
        count >= 1,
    ensures
        text@ == tick_display_spec(count as nat),
        count >= 2 ==> exists|moved: Seq<u8>, shown: Seq<u8>|
            {
                &&& text@ == seq![27u8, 91u8] + moved + seq![68u8] + shown
                &&& is_decimal_numeral(moved)
                &&& decimal_value(moved) >= 1
                &&& pow10((decimal_value(moved) - 1) as nat) <= count - 1 < pow10(
                    decimal_value(moved),
                )
                &&& is_decimal_numeral(shown)
                &&& decimal_value(shown) == count
            },
{
    let mut text: Vec<u8> = Vec::new();
    if count == 1 {
        // "TIM2 Int Triggered: "
        text.push(84);
        text.push(73);
        text.push(77);
        text.push(50);
        text.push(32);
        text.push(73);
        text.push(110);
        text.push(116);
        text.push(32);
        text.push(84);
        text.push(114);
        text.push(105);
        text.push(103);
        text.push(103);
        text.push(101);
        text.push(114);
        text.push(101);
        text.push(100);
        text.push(58);
        text.push(32);
        push_decimal(&mut text, count);
    } else {
        text.push(27);
        text.push(91);
        let width: u32 = decimal_width(count - 1);
        push_decimal(&mut text, width);
        text.push(68);
        push_decimal(&mut text, count);
    }
    proof {
        assert(text@ =~= tick_display_spec(count as nat));
        let parts = lemma_tick_display_overwrites_previous(count as nat);
        if count >= 2 {
            assert(text@ == seq![27u8, 91u8] + parts.0 + seq![68u8] + parts.1);
        }
    }
    text
}

} // verus!
