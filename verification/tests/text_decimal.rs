use stm32_lessons::text::{decimal_width, extend_bytes, push_decimal};

#[test]
fn decimal_text_matches_std_formatting() {
    for n in [0u32, 1, 9, 10, 99, 100, 12345, 1_000_000_000, u32::MAX] {
        let mut out = b"x".to_vec();
        push_decimal(&mut out, n);
        assert_eq!(out, format!("x{}", n).into_bytes());
        assert_eq!(decimal_width(n) as usize, n.to_string().len());
    }
}

#[test]
fn decimal_width_is_ilog10_plus_one() {
    for n in [1u32, 9, 10, 11, 999, 1000, 4_000_000_000] {
        assert_eq!(decimal_width(n), n.ilog(10) + 1);
    }
    assert_eq!(decimal_width(0), 1);
}

#[test]
fn extend_bytes_appends() {
    let mut out = vec![1u8, 2];
    extend_bytes(&mut out, &[3, 4, 5]);
    assert_eq!(out, vec![1, 2, 3, 4, 5]);
    extend_bytes(&mut out, &[]);
    assert_eq!(out, vec![1, 2, 3, 4, 5]);
}
