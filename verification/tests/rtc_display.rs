use stm32_lessons::rtc::{calendar_display, decode_date, decode_time, month_name, weekday_name, CalendarDate, ClockTime};

// RTC_DR for 2023-04-06, a Thursday, and RTC_TR for 16:50:25, the values the lessons set.
const DR: u32 = (2 << 20) | (3 << 16) | (4 << 13) | (0 << 12) | (4 << 8) | (0 << 4) | 6;
const TR: u32 = (1 << 20) | (6 << 16) | (5 << 12) | (0 << 8) | (2 << 4) | 5;

#[test]
fn decode_date_reads_bcd_fields() {
    assert_eq!(
        decode_date(DR),
        CalendarDate {
            year_tens: 2,
            year_units: 3,
            weekday: 4,
            month_tens: 0,
            month_units: 4,
            day_tens: 0,
            day_units: 6
        }
    );
}

#[test]
fn decode_time_reads_bcd_fields() {
    assert_eq!(
        decode_time(TR),
        ClockTime {
            hour_tens: 1,
            hour_units: 6,
            minute_tens: 5,
            minute_units: 0,
            second_tens: 2,
            second_units: 5
        }
    );
}

#[test]
fn decode_ignores_bits_outside_the_fields() {
    // PM (bit 22) and reserved bits of TR; reserved bits 6..8 and 24.. of DR.
    assert_eq!(decode_time(TR | (1 << 22) | (1 << 7) | (1 << 15) | 0xFF00_0000), decode_time(TR));
    assert_eq!(decode_date(DR | (0b11 << 6) | 0xFF00_0000), decode_date(DR));
    let all = decode_date(u32::MAX);
    assert_eq!((all.year_tens, all.weekday, all.month_tens, all.day_tens), (15, 7, 1, 3));
}

#[test]
fn calendar_display_of_the_start_date() {
    assert_eq!(
        calendar_display(TR, DR),
        b"2023/Apr/06/Thu\n\r16:50:25\x1b[A\r".to_vec()
    );
}

#[test]
fn calendar_display_out_of_range_names() {
    // weekday 0 and month 0 are invalid BCD values: both print "Err".
    let text = calendar_display(0, 0);
    assert_eq!(text, b"2000/Err/00/Err\n\r00:00:00\x1b[A\r".to_vec());
    // Out-of-range BCD digits are printed as numbers.
    let dr = (15 << 20) | (1 << 12) | (2 << 8) | (3 << 4) | 15 | (7 << 13);
    assert_eq!(calendar_display(0, dr), b"20150/Dec/315/Sun\n\r00:00:00\x1b[A\r".to_vec());
}

#[test]
fn names_of_weekdays_and_months() {
    let days: Vec<Vec<u8>> = (0..9).map(weekday_name).collect();
    assert_eq!(
        days,
        ["Err", "Mon", "Tue", "Wed", "Thu", "Fri", "Sat", "Sun", "Err"]
            .iter()
            .map(|s| s.as_bytes().to_vec())
            .collect::<Vec<_>>()
    );
    let months: Vec<Vec<u8>> = (0..14).map(month_name).collect();
    assert_eq!(
        months,
        ["Err", "Jan", "Feb", "Mar", "Apr", "May", "Jun", "Jul", "Aug", "Sep", "Oct", "Nov", "Dec", "Err"]
            .iter()
            .map(|s| s.as_bytes().to_vec())
            .collect::<Vec<_>>()
    );
}
