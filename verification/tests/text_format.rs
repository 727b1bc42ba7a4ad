use pendulums::cli::text::{decimal_string, duration_string, join_strings, pad_right, parse_i64, push_decimal};

#[test]
fn decimal_string_writes_as_to_string_does() {
    for n in [0i64, 7, 42, -5, -1000, 1_700_000_000_000, i64::MAX, i64::MIN] {
        assert_eq!(decimal_string(n), n.to_string());
    }
}

#[test]
fn push_decimal_appends() {
    let mut out = String::from("page ");
    push_decimal(&mut out, -12);
    assert_eq!(out, "page -12");
}

#[test]
fn parse_reads_back_what_decimal_string_writes() {
    for n in [0i64, 9, 10, -10, 1_712_345_678_901, i64::MAX, i64::MIN, -1] {
        assert_eq!(parse_i64(&decimal_string(n)), Some(n));
    }
}

#[test]
fn parse_agrees_with_std_parse() {
    let inputs = [
        "", "-", "+", "0", "+7", "-0", "007", "12a", " 1", "1 ", "1.5", "--1", "+-1",
        "9223372036854775807", "9223372036854775808", "-9223372036854775808",
        "-9223372036854775809", "99999999999999999999", "١٢", "1_000",
    ];
    for s in inputs {
        assert_eq!(parse_i64(s), s.parse::<i64>().ok(), "input {:?}", s);
    }
}

#[test]
fn pad_right_pads_to_the_width() {
    let mut out = String::new();
    pad_right(&mut out, "ID", 5);
    assert_eq!(out, "ID   ");
    assert_eq!(out, format!("{:<5}", "ID"));
}

#[test]
fn pad_right_never_cuts() {
    let mut out = String::from(">");
    pad_right(&mut out, "a long name", 4);
    assert_eq!(out, ">a long name");
}

#[test]
fn pad_right_counts_characters_not_bytes() {
    let mut out = String::new();
    pad_right(&mut out, "été", 5);
    assert_eq!(out, format!("{:<5}", "été"));
    assert_eq!(out.chars().count(), 5);
}

#[test]
fn duration_string_splits_hours_minutes_seconds() {
    assert_eq!(duration_string(3725), "1h 2m 5s");
    assert_eq!(duration_string(0), "0h 0m 0s");
    assert_eq!(duration_string(59), "0h 0m 59s");
    assert_eq!(duration_string(86400), "24h 0m 0s");
}

#[test]
fn duration_string_of_a_negative_span_rounds_toward_zero() {
    assert_eq!(duration_string(-3725), "-1h -2m -5s");
    assert_eq!(duration_string(-59), "0h 0m -59s");
}

#[test]
fn duration_parts_add_back_up() {
    for total in [0i64, 1, 61, 3599, 3600, 90061, -1, -61, -90061] {
        let text = duration_string(total);
        let parts: Vec<i64> = text
            .split(' ')
            .map(|p| p[..p.len() - 1].parse::<i64>().unwrap())
            .collect();
        assert_eq!(parts[0] * 3600 + parts[1] * 60 + parts[2], total);
        assert!(parts[1].abs() < 60 && parts[2].abs() < 60);
    }
}

#[test]
fn join_strings_puts_the_separator_between() {
    let items = vec![String::from("a@x.io"), String::from("b@x.io"), String::from("c@x.io")];
    assert_eq!(join_strings(&items, ", "), "a@x.io, b@x.io, c@x.io");
    assert_eq!(join_strings(&vec![String::from("only")], ", "), "only");
    assert_eq!(join_strings(&Vec::new(), ", "), "");
}
