use ferris_bot::timefmt::is_valid_time_format;

#[test]
fn accepts_well_formed_times() {
    assert!(is_valid_time_format("00:00"));
    assert!(is_valid_time_format("08:30"));
    assert!(is_valid_time_format("12:00"));
    assert!(is_valid_time_format("23:59"));
}

#[test]
fn rejects_out_of_range_and_malformed_times() {
    assert!(!is_valid_time_format("24:00"));
    assert!(!is_valid_time_format("9:60"));
    assert!(!is_valid_time_format("abc"));
    assert!(!is_valid_time_format(""));
    assert!(!is_valid_time_format("12:60"));
    assert!(!is_valid_time_format("8:00"));
    assert!(!is_valid_time_format("+8:00"));
    assert!(!is_valid_time_format("08-00"));
    assert!(!is_valid_time_format("08:000"));
    assert!(!is_valid_time_format(" 08:00"));
}

#[test]
fn accepts_every_minute_of_the_day() {
    for h in 0..24 {
        for m in 0..60 {
            assert!(is_valid_time_format(&format!("{:02}:{:02}", h, m)));
        }
    }
}
