use pomc::text::{
    clock_text, decimal_text, flag_text, ordinal_text, push_decimal, push_two_digits, same_text,
};

#[test]
fn clock_of_zero_seconds() {
    assert_eq!(clock_text(0), "00:00");
}

#[test]
fn clock_of_two_minutes_five() {
    assert_eq!(clock_text(125), "02:05");
}

#[test]
fn clock_of_last_second_of_the_hour() {
    assert_eq!(clock_text(3599), "59:59");
}

#[test]
fn clock_of_one_hour_has_no_hour_field() {
    assert_eq!(clock_text(3600), "60:00");
}

#[test]
fn clock_of_a_pomodoro() {
    assert_eq!(clock_text(24 * 60 + 59), "24:59");
}

#[test]
fn clock_pads_both_fields() {
    assert_eq!(clock_text(1), "00:01");
    assert_eq!(clock_text(59), "00:59");
    assert_eq!(clock_text(60), "01:00");
    assert_eq!(clock_text(9 * 60 + 9), "09:09");
    assert_eq!(clock_text(10 * 60 + 10), "10:10");
}

#[test]
fn clock_grows_past_a_hundred_minutes() {
    assert_eq!(clock_text(5999), "99:59");
    assert_eq!(clock_text(6000), "100:00");
    assert_eq!(clock_text(86_400), "1440:00");
}

#[test]
fn clock_of_the_longest_span() {
    assert_eq!(clock_text(u64::MAX), "307445734561825860:15");
}

#[test]
fn clock_agrees_with_std_formatting() {
    let mut seconds: u64 = 0;
    while seconds < 7300 {
        assert_eq!(
            clock_text(seconds),
            format!("{:02}:{:02}", seconds / 60, seconds % 60)
        );
        seconds += 1;
    }
}

#[test]
fn ordinal_counts_from_one() {
    assert_eq!(ordinal_text(0), "1");
    assert_eq!(ordinal_text(2), "3");
    assert_eq!(ordinal_text(8), "9");
    assert_eq!(ordinal_text(9), "10");
    assert_eq!(ordinal_text(99), "100");
}

#[test]
fn ordinal_of_the_last_counter_does_not_wrap() {
    assert_eq!(ordinal_text(255), "256");
}

#[test]
fn ordinal_of_every_counter() {
    let mut counter: u8 = 0;
    loop {
        assert_eq!(ordinal_text(counter), format!("{}", counter as u32 + 1));
        if counter == u8::MAX {
            break;
        }
        counter += 1;
    }
}

#[test]
fn flag_is_one_or_zero() {
    assert_eq!(flag_text(true), "1");
    assert_eq!(flag_text(false), "0");
}

#[test]
fn decimal_of_small_and_large_numbers() {
    assert_eq!(decimal_text(0), "0");
    assert_eq!(decimal_text(7), "7");
    assert_eq!(decimal_text(10), "10");
    assert_eq!(decimal_text(1905), "1905");
    assert_eq!(decimal_text(u64::MAX), "18446744073709551615");
}

#[test]
fn push_decimal_appends() {
    let mut text = String::from("n=");
    push_decimal(&mut text, 42);
    push_decimal(&mut text, 0);
    assert_eq!(text, "n=420");
}

#[test]
fn push_two_digits_fills_on_the_left() {
    let mut text = String::new();
    push_two_digits(&mut text, 0);
    push_two_digits(&mut text, 7);
    push_two_digits(&mut text, 10);
    push_two_digits(&mut text, 123);
    assert_eq!(text, "000710123");
}

#[test]
fn same_text_compares_characters() {
    assert!(same_text("", ""));
    assert!(same_text("stop", "stop"));
    assert!(!same_text("stop", "skip"));
    assert!(!same_text("stop", "stop "));
    assert!(!same_text("stop", "Stop"));
    assert!(same_text("né", "né"));
    assert!(!same_text("né", "ne"));
}
