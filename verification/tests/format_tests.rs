use now_playing::format::{format_m_ss, u64_to_dec};

#[test]
fn dec_zero() {
    assert_eq!(u64_to_dec(0), "0");
}

#[test]
fn dec_single_digit() {
    assert_eq!(u64_to_dec(7), "7");
}

#[test]
fn dec_two_digits() {
    assert_eq!(u64_to_dec(10), "10");
}

#[test]
fn dec_interval_constant() {
    assert_eq!(u64_to_dec(150), "150");
}

#[test]
fn dec_largest() {
    assert_eq!(u64_to_dec(u64::MAX), "18446744073709551615");
}

#[test]
fn m_ss_zero() {
    assert_eq!(format_m_ss(0), "0:00");
}

#[test]
fn m_ss_under_one_minute() {
    assert_eq!(format_m_ss(59), "0:59");
}

#[test]
fn m_ss_exact_minute() {
    assert_eq!(format_m_ss(60), "1:00");
}

#[test]
fn m_ss_length_125() {
    // A track length of 125 seconds displays as 2:05.
    assert_eq!(format_m_ss(125), "2:05");
}

#[test]
fn m_ss_just_under_an_hour() {
    assert_eq!(format_m_ss(3599), "59:59");
}

#[test]
fn m_ss_minutes_unbounded() {
    assert_eq!(format_m_ss(3661), "61:01");
}

#[test]
fn m_ss_huge() {
    assert_eq!(format_m_ss(6_000_000_000_000), "100000000000:00");
}
