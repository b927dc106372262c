use countdown::codec::{parse_chars, parse_duration, remain_to_fmt, MAX_DURATION};

fn chars(text: &str) -> Vec<char> {
    text.chars().collect()
}

#[test]
fn parse_accepts_minutes_and_seconds() {
    assert_eq!(parse_duration("00:00"), Some(0));
    assert_eq!(parse_duration("00:05"), Some(5));
    assert_eq!(parse_duration("01:00"), Some(60));
    assert_eq!(parse_duration("12:34"), Some(754));
    assert_eq!(parse_duration("59:59"), Some(3599));
}

#[test]
fn parse_accepts_hours_minutes_and_seconds() {
    assert_eq!(parse_duration("00:00:00"), Some(0));
    assert_eq!(parse_duration("00:00:05"), Some(5));
    assert_eq!(parse_duration("01:30:00"), Some(5400));
    assert_eq!(parse_duration("19:07:03"), Some(68823));
    assert_eq!(parse_duration("20:00:00"), Some(72000));
    assert_eq!(parse_duration("23:59:59"), Some(86399));
    assert_eq!(MAX_DURATION, 86399);
}

#[test]
fn parse_rejects_other_lengths() {
    for text in ["", "5", "05", "0:05", "00:5", "000:05", "00:005", "0:00:05", "00:00:5", "00:00:005", "001:00:00", "00:00:00:00"] {
        assert_eq!(parse_duration(text), None, "{text:?}");
        assert_eq!(parse_chars(&chars(text)), None, "{text:?}");
    }
}

#[test]
fn parse_rejects_fields_out_of_range() {
    for text in ["60:00", "00:60", "00:90", "99:99", "24:00:00", "30:00:00", "23:60:00", "23:59:60", "00:00:60", "99:59:59"] {
        assert_eq!(parse_duration(text), None, "{text:?}");
        assert_eq!(parse_chars(&chars(text)), None, "{text:?}");
    }
}

#[test]
fn parse_rejects_what_is_not_digits_and_colons_in_place() {
    for text in ["ab:cd", "00-05", "00.05", "0a:05", "00:0a", "00:-5", "+0:05", " 0:05", "00:05 ", "0:005", "000:5", "00005", "01:3:000", "01-30-00", "01:30-00", "01:30:0x", "x1:30:00", "0130:000", "x12:34yz", "12:34:::", ":::12:34", "١٢:٣٤", "é0:05"] {
        assert_eq!(parse_duration(text), None, "{text:?}");
        assert_eq!(parse_chars(&chars(text)), None, "{text:?}");
    }
}

#[test]
fn parse_reads_every_duration_of_a_day() {
    for h in 0u64..24 {
        for m in 0u64..60 {
            for s in 0u64..60 {
                let text = format!("{h:02}:{m:02}:{s:02}");
                assert_eq!(parse_duration(&text), Some(3600 * h + 60 * m + s), "{text}");
            }
        }
    }
    for m in 0u64..60 {
        for s in 0u64..60 {
            let text = format!("{m:02}:{s:02}");
            assert_eq!(parse_duration(&text), Some(60 * m + s), "{text}");
            assert_eq!(parse_chars(&chars(&text)), Some(60 * m + s), "{text}");
        }
    }
}

#[test]
fn parse_refuses_every_two_digit_field_out_of_range() {
    for h in 0u64..100 {
        for m in 0u64..100 {
            for s in [0u64, 7, 59, 60, 99] {
                let text = format!("{h:02}:{m:02}:{s:02}");
                let valid = h <= 23 && m <= 59 && s <= 59;
                assert_eq!(parse_duration(&text).is_some(), valid, "{text}");
            }
        }
    }
    for m in 0u64..100 {
        for s in 0u64..100 {
            let text = format!("{m:02}:{s:02}");
            let valid = m <= 59 && s <= 59;
            assert_eq!(parse_duration(&text).is_some(), valid, "{text}");
        }
    }
}

#[test]
fn format_below_one_hour_has_two_fields() {
    assert_eq!(remain_to_fmt(0), "00:00");
    assert_eq!(remain_to_fmt(5), "00:05");
    assert_eq!(remain_to_fmt(59), "00:59");
    assert_eq!(remain_to_fmt(60), "01:00");
    assert_eq!(remain_to_fmt(754), "12:34");
    assert_eq!(remain_to_fmt(3599), "59:59");
}

#[test]
fn format_from_one_hour_on_has_three_fields() {
    assert_eq!(remain_to_fmt(3600), "01:00:00");
    assert_eq!(remain_to_fmt(5400), "01:30:00");
    assert_eq!(remain_to_fmt(36000), "10:00:00");
    assert_eq!(remain_to_fmt(86399), "23:59:59");
}

#[test]
fn format_keeps_hours_beyond_a_day() {
    assert_eq!(remain_to_fmt(86400), "24:00:00");
    assert_eq!(remain_to_fmt(359999), "99:59:59");
    assert_eq!(remain_to_fmt(360000), "100:00:00");
    assert_eq!(remain_to_fmt(u64::MAX), "5124095576030431:00:15");
}

#[test]
fn format_agrees_with_zero_padded_fields() {
    for total in (0u64..200_000).step_by(7) {
        let (h, m, s) = (total / 3600, (total % 3600) / 60, total % 60);
        let expected = if h == 0 {
            format!("{m:02}:{s:02}")
        } else {
            format!("{h:02}:{m:02}:{s:02}")
        };
        assert_eq!(remain_to_fmt(total), expected);
    }
}

#[test]
fn format_then_parse_gives_the_duration_back() {
    for total in 0u64..=86399 {
        assert_eq!(parse_duration(&remain_to_fmt(total)), Some(total));
    }
    assert_eq!(parse_duration(&remain_to_fmt(86400)), None);
}

#[test]
fn an_hours_field_of_zero_is_read_but_not_written() {
    assert_eq!(parse_duration("00:01:30"), Some(90));
    assert_eq!(remain_to_fmt(90), "01:30");
}
