use niri::clock::{ClockTime, MINUTES_PER_DAY};

fn quoted(s: &str) -> String {
    format!("{s:?}")
}

#[test]
fn bedtime_stage_parses_clock_times() {
    assert_eq!("23:30".parse::<ClockTime>(), Ok(ClockTime::new(23, 30)));
    assert_eq!("06:45".parse::<ClockTime>(), Ok(ClockTime::new(6, 45)));
    assert_eq!(ClockTime::new(6, 0).minutes, 360);

    assert!("25:00".parse::<ClockTime>().is_err());
    assert!("2330".parse::<ClockTime>().is_err());
}

#[test]
fn clock_time_new_counts_minutes_since_midnight() {
    assert_eq!(ClockTime::new(0, 0).minutes, 0);
    assert_eq!(ClockTime::new(23, 59).minutes, MINUTES_PER_DAY - 1);
    assert_eq!(ClockTime::new(1, 0), ClockTime { minutes: 60 });
}

#[test]
fn clock_time_fields_are_trimmed_and_read_as_unsigned_numbers() {
    assert_eq!(ClockTime::parse(" 6 : 45 "), Ok(ClockTime::new(6, 45)));
    assert_eq!(ClockTime::parse("+7:+05"), Ok(ClockTime::new(7, 5)));
    assert_eq!(ClockTime::parse("007:0000"), Ok(ClockTime::new(7, 0)));
    assert_eq!(ClockTime::parse("\t23:59\n"), Ok(ClockTime::new(23, 59)));
    assert_eq!(ClockTime::parse("00:00"), Ok(ClockTime::new(0, 0)));
}

#[test]
fn clock_time_errors_name_the_problem() {
    assert_eq!(
        ClockTime::parse("2330"),
        Err(format!("expected HH:MM, got {}", quoted("2330")))
    );
    assert_eq!(
        ClockTime::parse("ab:30"),
        Err(format!("bad hour in {}", quoted("ab:30")))
    );
    assert_eq!(
        ClockTime::parse("12:"),
        Err(format!("bad minute in {}", quoted("12:")))
    );
    assert_eq!(
        ClockTime::parse("25:00"),
        Err(format!("{} is not a time of day", quoted("25:00")))
    );
    assert_eq!(
        ClockTime::parse("23:60"),
        Err(format!("{} is not a time of day", quoted("23:60")))
    );
    // Only the first colon splits; the rest belongs to the minute.
    assert_eq!(
        ClockTime::parse("1:2:3"),
        Err(format!("bad minute in {}", quoted("1:2:3")))
    );
    // A sign is allowed once, and only a plus.
    assert_eq!(
        ClockTime::parse("-1:00"),
        Err(format!("bad hour in {}", quoted("-1:00")))
    );
    assert_eq!(
        ClockTime::parse("+:00"),
        Err(format!("bad hour in {}", quoted("+:00")))
    );
    // Too large for a u32 is a bad number, not an out-of-range time.
    assert_eq!(
        ClockTime::parse("4294967296:00"),
        Err(format!("bad hour in {}", quoted("4294967296:00")))
    );
    assert_eq!(
        ClockTime::parse("4294967295:00"),
        Err(format!("{} is not a time of day", quoted("4294967295:00")))
    );
    // The message quotes the input as Rust's Debug does.
    assert_eq!(
        ClockTime::parse("a\"b"),
        Err("expected HH:MM, got \"a\\\"b\"".to_owned())
    );
}

#[test]
fn unicode_whitespace_is_trimmed_like_str_trim() {
    assert_eq!(
        ClockTime::parse("\u{3000}8\u{a0}:\u{2009}15\u{85}"),
        Ok(ClockTime::new(8, 15))
    );
    // Not whitespace: a zero-width space stays and spoils the number.
    assert!(ClockTime::parse("\u{200b}8:15").is_err());
}
