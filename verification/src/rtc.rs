//! The calendar of the RTC lessons: the BCD fields of the date register (RTC_DR) and the
//! time register (RTC_TR), and the line that the alarm interrupt shows every second.

use vstd::prelude::*;
use crate::text::{decimal_digits, extend_bytes, push_decimal};

verus! {

/// The BCD fields of RTC_DR, as the alarm handler reads them.
#[derive(Clone, Copy, Debug, PartialEq, Eq, Structural)]
pub struct CalendarDate {
    /// YT, bits 20..24.
    pub year_tens: u32,
    /// YU, bits 16..20.
    pub year_units: u32,
    /// WDU, bits 13..16 (1 is Monday, 7 is Sunday).
    pub weekday: u32,
    /// MT, bit 12.
    pub month_tens: u32,
    /// MU, bits 8..12.
    pub month_units: u32,
    /// DT, bits 4..6.
    pub day_tens: u32,
    /// DU, bits 0..4.
    pub day_units: u32,
}

/// The BCD fields of RTC_TR, as the alarm handler reads them.
#[derive(Clone, Copy, Debug, PartialEq, Eq, Structural)]
pub struct ClockTime {
    /// HT, bits 20..22.
    pub hour_tens: u32,
    /// HU, bits 16..20.
    pub hour_units: u32,
    /// MNT, bits 12..15.
    pub minute_tens: u32,
    /// MNU, bits 8..12.
    pub minute_units: u32,
    /// ST, bits 4..7.
    pub second_tens: u32,
    /// SU, bits 0..4.
    pub second_units: u32,
}

/// The fields of a date register value.
pub open spec fn date_fields(dr: u32) -> CalendarDate {
    CalendarDate {
        year_tens: (dr / 0x10_0000) % 16,
        year_units: (dr / 0x1_0000) % 16,
        weekday: (dr / 0x2000) % 8,
        month_tens: (dr / 0x1000) % 2,
        month_units: (dr / 0x100) % 16,
        day_tens: (dr / 0x10) % 4,
        day_units: dr % 16,
    }
}

/// The fields of a time register value.
pub open spec fn time_fields(tr: u32) -> ClockTime {
    ClockTime {
        hour_tens: (tr / 0x10_0000) % 4,
        hour_units: (tr / 0x1_0000) % 16,
        minute_tens: (tr / 0x1000) % 8,
        minute_units: (tr / 0x100) % 16,
        second_tens: (tr / 0x10) % 8,
        second_units: tr % 16,
    }
}

/// Splits a date register value into its BCD fields.
pub fn decode_date(dr: u32) -> (date: CalendarDate)
    ensures
        date == date_fields(dr),
        date.year_tens == (dr / 0x10_0000) % 16,
        date.year_units == (dr / 0x1_0000) % 16,
        date.weekday == (dr / 0x2000) % 8,
        date.month_tens == (dr / 0x1000) % 2,
        date.month_units == (dr / 0x100) % 16,
        date.day_tens == (dr / 0x10) % 4,
        date.day_units == dr % 16,
{
    assert((dr >> 20u32) & 0xF == (dr / 0x10_0000) % 16) by (bit_vector);
    assert((dr >> 16u32) & 0xF == (dr / 0x1_0000) % 16) by (bit_vector);
    assert((dr >> 13u32) & 0x7 == (dr / 0x2000) % 8) by (bit_vector);
    assert((dr >> 12u32) & 0x1 == (dr / 0x1000) % 2) by (bit_vector);
    assert((dr >> 8u32) & 0xF == (dr / 0x100) % 16) by (bit_vector);
    assert((dr >> 4u32) & 0x3 == (dr / 0x10) % 4) by (bit_vector);
    assert(dr & 0xF == dr % 16) by (bit_vector);
    CalendarDate {
        year_tens: (dr >> 20) & 0b1111,
        year_units: (dr >> 16) & 0b1111,
        weekday: (dr >> 13) & 0b111,
        month_tens: (dr >> 12) & 0b1,
        month_units: (dr >> 8) & 0b1111,
        day_tens: (dr >> 4) & 0b11,
        day_units: dr & 0b1111,
    }
}

/// Splits a time register value into its BCD fields.
pub fn decode_time(tr: u32) -> (time: ClockTime)
    ensures
        time == time_fields(tr),
        time.hour_tens == (tr / 0x10_0000) % 4,
        time.hour_units == (tr / 0x1_0000) % 16,
        time.minute_tens == (tr / 0x1000) % 8,
        time.minute_units == (tr / 0x100) % 16,
        time.second_tens == (tr / 0x10) % 8,
        time.second_units == tr % 16,
{
    assert((tr >> 20u32) & 0x3 == (tr / 0x10_0000) % 4) by (bit_vector);
    assert((tr >> 16u32) & 0xF == (tr / 0x1_0000) % 16) by (bit_vector);
    assert((tr >> 12u32) & 0x7 == (tr / 0x1000) % 8) by (bit_vector);
    assert((tr >> 8u32) & 0xF == (tr / 0x100) % 16) by (bit_vector);
    assert((tr >> 4u32) & 0x7 == (tr / 0x10) % 8) by (bit_vector);
    assert(tr & 0xF == tr % 16) by (bit_vector);
    ClockTime {
        hour_tens: (tr >> 20) & 0b11,
        hour_units: (tr >> 16) & 0b1111,
        minute_tens: (tr >> 12) & 0b111,
        minute_units: (tr >> 8) & 0b1111,
        second_tens: (tr >> 4) & 0b111,
        second_units: tr & 0b1111,
    }
}

/// The date fields are the whole BCD fields of RTC_DR, each read in full from its bits:
/// put back at their places (YT at bit 20, YU at 16, WDU at 13, MT at 12, MU at 8, DT at 4,
/// DU at 0), they give back every date bit of the register, bits 0..6 and 8..24.
pub proof fn lemma_date_fields_are_register_fields(dr: u32)
    ensures
        date_fields(dr).year_tens == (dr / 0x10_0000) % 16,
        date_fields(dr).year_units == (dr / 0x1_0000) % 16,
        date_fields(dr).weekday == (dr / 0x2000) % 8,
        date_fields(dr).month_tens == (dr / 0x1000) % 2,
        date_fields(dr).month_units == (dr / 0x100) % 16,
        date_fields(dr).day_tens == (dr / 0x10) % 4,
        date_fields(dr).day_units == dr % 16,
        date_fields(dr).year_tens * 0x10_0000 + date_fields(dr).year_units * 0x1_0000
            + date_fields(dr).weekday * 0x2000 + date_fields(dr).month_tens * 0x1000
            + date_fields(dr).month_units * 0x100 + date_fields(dr).day_tens * 0x10 + date_fields(
            dr,
        ).day_units == dr & 0x00FF_FF3F,
{
    assert(((dr / 0x10_0000) % 16) * 0x10_0000 + ((dr / 0x1_0000) % 16) * 0x1_0000 + ((dr
        / 0x2000) % 8) * 0x2000 + ((dr / 0x1000) % 2) * 0x1000 + ((dr / 0x100) % 16) * 0x100 + ((
    dr / 0x10) % 4) * 0x10 + dr % 16 == dr & 0x00FF_FF3F) by (bit_vector);
}

/// The time fields are the whole BCD fields of RTC_TR, each read in full from its bits:
/// put back at their places (HT at bit 20, HU at 16, MNT at 12, MNU at 8, ST at 4, SU at 0),
/// they give back every time bit of the register except PM, bits 0..7, 8..15 and 16..22.
pub proof fn lemma_time_fields_are_register_fields(tr: u32)
    ensures
        time_fields(tr).hour_tens == (tr / 0x10_0000) % 4,
        time_fields(tr).hour_units == (tr / 0x1_0000) % 16,
        time_fields(tr).minute_tens == (tr / 0x1000) % 8,
        time_fields(tr).minute_units == (tr / 0x100) % 16,
        time_fields(tr).second_tens == (tr / 0x10) % 8,
        time_fields(tr).second_units == tr % 16,
        time_fields(tr).hour_tens * 0x10_0000 + time_fields(tr).hour_units * 0x1_0000
            + time_fields(tr).minute_tens * 0x1000 + time_fields(tr).minute_units * 0x100
            + time_fields(tr).second_tens * 0x10 + time_fields(tr).second_units == tr
            & 0x003F_7F7F,
{
    assert(((tr / 0x10_0000) % 4) * 0x10_0000 + ((tr / 0x1_0000) % 16) * 0x1_0000 + ((tr
        / 0x1000) % 8) * 0x1000 + ((tr / 0x100) % 16) * 0x100 + ((tr / 0x10) % 8) * 0x10 + tr % 16
        == tr & 0x003F_7F7F) by (bit_vector);
}

/// The three-letter English name of weekday `wdu` (1 is Monday), or "Err".
pub open spec fn weekday_label(wdu: u32) -> Seq<u8> {
    if wdu == 1 {
        seq![77u8, 111u8, 110u8]  // Mon
    } else if wdu == 2 {
        seq![84u8, 117u8, 101u8]  // Tue
    } else if wdu == 3 {
        seq![87u8, 101u8, 100u8]  // Wed
    } else if wdu == 4 {
        seq![84u8, 104u8, 117u8]  // Thu
    } else if wdu == 5 {
        seq![70u8, 114u8, 105u8]  // Fri
    } else if wdu == 6 {
        seq![83u8, 97u8, 116u8]  // Sat
    } else if wdu == 7 {
        seq![83u8, 117u8, 110u8]  // Sun
    } else {
        seq![69u8, 114u8, 114u8]  // Err
    }
}

/// The three-letter English name of month `month` (1 is January), or "Err".
pub open spec fn month_label(month: u32) -> Seq<u8> {
    if month == 1 {
        seq![74u8, 97u8, 110u8]  // Jan
    } else if month == 2 {
        seq![70u8, 101u8, 98u8]  // Feb
    } else if month == 3 {
        seq![77u8, 97u8, 114u8]  // Mar
    } else if month == 4 {
        seq![65u8, 112u8, 114u8]  // Apr
    } else if month == 5 {
        seq![77u8, 97u8, 121u8]  // May
    } else if month == 6 {
        seq![74u8, 117u8, 110u8]  // Jun
    } else if month == 7 {
        seq![74u8, 117u8, 108u8]  // Jul
    } else if month == 8 {
        seq![65u8, 117u8, 103u8]  // Aug
    } else if month == 9 {
        seq![83u8, 101u8, 112u8]  // Sep
    } else if month == 10 {
        seq![79u8, 99u8, 116u8]  // Oct
    } else if month == 11 {
        seq![78u8, 111u8, 118u8]  // Nov
    } else if month == 12 {
        seq![68u8, 101u8, 99u8]  // Dec
    } else {
        seq![69u8, 114u8, 114u8]  // Err
    }
}

/// Name of the weekday `wdu` of the date register.
pub fn weekday_name(wdu: u32) -> (name: Vec<u8>)
    ensures
        name@ == weekday_label(wdu),
{
    let name = if wdu == 1 {
        vec![77, 111, 110]
    } else if wdu == 2 {
        vec![84, 117, 101]
    } else if wdu == 3 {
        vec![87, 101, 100]
    } else if wdu == 4 {
        vec![84, 104, 117]
    } else if wdu == 5 {
        vec![70, 114, 105]
    } else if wdu == 6 {
        vec![83, 97, 116]
    } else if wdu == 7 {
        vec![83, 117, 110]
    } else {
        vec![69, 114, 114]
    };
    proof {
        assert(name@ =~= weekday_label(wdu));
    }
    name
}

/// Name of the month numbered `month` (the BCD month read as `10 * MT + MU`).
pub fn month_name(month: u32) -> (name: Vec<u8>)
    ensures
        name@ == month_label(month),
{
    let name = if month == 1 {
        vec![74, 97, 110]
    } else if month == 2 {
        vec![70, 101, 98]
    } else if month == 3 {
        vec![77, 97, 114]
    } else if month == 4 {
        vec![65, 112, 114]
    } else if month == 5 {
        vec![77, 97, 121]
    } else if month == 6 {
        vec![74, 117, 110]
    } else if month == 7 {
        vec![74, 117, 108]
    } else if month == 8 {
        vec![65, 117, 103]
    } else if month == 9 {
        vec![83, 101, 112]
    } else if month == 10 {
        vec![79, 99, 116]
    } else if month == 11 {
        vec![78, 111, 118]
    } else if month == 12 {
        vec![68, 101, 99]
    } else {
        vec![69, 114, 114]
    };
    proof {
        assert(name@ =~= month_label(month));
    }
    name
}

/// The two lines the alarm handler prints: `20YY/Mon/DD/Wkd`, then `HH:MM:SS`, each
/// digit field printed in decimal, and the cursor moved back up to the first line.
pub open spec fn calendar_text(date: CalendarDate, time: ClockTime) -> Seq<u8> {
    seq![50u8, 48u8] + decimal_digits(date.year_tens as nat) + decimal_digits(
        date.year_units as nat,
    ) + seq![47u8] + month_label((date.month_tens * 10 + date.month_units) as u32) + seq![47u8]
        + decimal_digits(date.day_tens as nat) + decimal_digits(date.day_units as nat) + seq![
        47u8,
    ] + weekday_label(date.weekday) + seq![10u8, 13u8] + decimal_digits(time.hour_tens as nat)
        + decimal_digits(time.hour_units as nat) + seq![58u8] + decimal_digits(
        time.minute_tens as nat,
    ) + decimal_digits(time.minute_units as nat) + seq![58u8] + decimal_digits(
        time.second_tens as nat,
    ) + decimal_digits(time.second_units as nat) + seq![27u8, 91u8, 65u8, 13u8]
}

/// The text shown for the time register value `tr` and the date register value `dr`.
#[verifier::rlimit(40)]
pub fn calendar_display(tr: u32, dr: u32) -> (text: Vec<u8>)
    ensures
        text@ == calendar_text(date_fields(dr), time_fields(tr)),
{
    let date = decode_date(dr);
    let time = decode_time(tr);
    let mut text: Vec<u8> = Vec::new();
    text.push(50);
    text.push(48);
    push_decimal(&mut text, date.year_tens);
    push_decimal(&mut text, date.year_units);
    text.push(47);
    let month = month_name(date.month_tens * 10 + date.month_units);
    extend_bytes(&mut text, month.as_slice());
    text.push(47);
    push_decimal(&mut text, date.day_tens);
    push_decimal(&mut text, date.day_units);
    text.push(47);
    let weekday = weekday_name(date.weekday);
    extend_bytes(&mut text, weekday.as_slice());
    text.push(10);
    text.push(13);
    push_decimal(&mut text, time.hour_tens);
    push_decimal(&mut text, time.hour_units);
    text.push(58);
    push_decimal(&mut text, time.minute_tens);
    push_decimal(&mut text, time.minute_units);
    text.push(58);
    push_decimal(&mut text, time.second_tens);
    push_decimal(&mut text, time.second_units);
    text.push(27);
    text.push(91);
    text.push(65);
    text.push(13);
    proof {
        assert(text@ =~= calendar_text(date, time));
    }
    text
}

} // verus!
