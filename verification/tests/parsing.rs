use fitness_bot::email::is_valid_email;
use fitness_bot::parse::{
    parse_age, parse_data_update, parse_height_weight, parse_sizes, parse_string,
    parse_string_size, DataUpdate, DataUpdateError, HeightWeightError, SizeField,
};
use fitness_bot::profile::Sizes;
use fitness_bot::text::{i32_to_string, parse_i32, split_on, str_eq, trim_str, u64_to_string};

#[test]
fn email_accepts_plain_address() {
    assert!(is_valid_email("user@example.com"));
}

#[test]
fn email_rejects_double_at() {
    assert!(!is_valid_email("user@@example"));
}

#[test]
fn email_rejects_missing_at() {
    assert!(!is_valid_email("user.com"));
}

#[test]
fn email_rejects_empty() {
    assert!(!is_valid_email(""));
}

#[test]
fn email_edge_cases() {
    assert!(is_valid_email("a.b_c%d+e-f@sub.domain-x.co"));
    assert!(is_valid_email("x@y.zz"));
    // only one letter after the last dot
    assert!(!is_valid_email("x@y.z"));
    // digit in the part after the last dot
    assert!(!is_valid_email("x@y.c0m"));
    // nothing before the @
    assert!(!is_valid_email("@y.com"));
    // nothing between @ and the last dot
    assert!(!is_valid_email("x@.com"));
    // no dot in the domain at all
    assert!(!is_valid_email("x@com"));
    // a space is not a local character
    assert!(!is_valid_email("x y@z.com"));
}

#[test]
fn age_accepts_full_range() {
    assert_eq!(parse_age("1"), Some(1));
    assert_eq!(parse_age("30"), Some(30));
    assert_eq!(parse_age("99"), Some(99));
}

#[test]
fn age_rejects_zero() {
    assert_eq!(parse_age("0"), None);
}

#[test]
fn age_rejects_hundred() {
    assert_eq!(parse_age("100"), None);
}

#[test]
fn age_rejects_negative() {
    assert_eq!(parse_age("-5"), None);
}

#[test]
fn age_rejects_text() {
    assert_eq!(parse_age("abc"), None);
}

#[test]
fn integer_parser_limits() {
    assert_eq!(parse_i32("2147483647"), Some(i32::MAX));
    assert_eq!(parse_i32("2147483648"), None);
    assert_eq!(parse_i32("-2147483648"), Some(i32::MIN));
    assert_eq!(parse_i32("-2147483649"), None);
    assert_eq!(parse_i32("+7"), Some(7));
    assert_eq!(parse_i32(""), None);
    assert_eq!(parse_i32("-"), None);
    assert_eq!(parse_i32("12a"), None);
    assert_eq!(parse_i32(" 5"), None);
    assert_eq!(parse_i32("99999999999999999999"), None);
}

#[test]
fn height_weight_accepts_two_ints() {
    assert_eq!(parse_height_weight("185 90"), Ok((185, 90)));
}

#[test]
fn height_weight_rejects_single_token() {
    assert_eq!(
        parse_height_weight("185"),
        Err(HeightWeightError::WrongShape)
    );
}

#[test]
fn height_weight_rejects_bad_weight() {
    assert_eq!(
        parse_height_weight("185 ninety"),
        Err(HeightWeightError::BadWeight)
    );
}

#[test]
fn height_weight_rejects_bad_height() {
    assert_eq!(
        parse_height_weight("tall 90"),
        Err(HeightWeightError::BadHeight)
    );
}

#[test]
fn height_weight_rejects_three_tokens() {
    assert_eq!(
        parse_height_weight("185 90 12"),
        Err(HeightWeightError::WrongShape)
    );
}

#[test]
fn data_update_accepts_all_keys() {
    assert_eq!(
        parse_data_update("вік: 21, зріст: 185, вага: 112"),
        Ok(DataUpdate {
            age: 21,
            height: 185,
            weight: 112
        })
    );
}

#[test]
fn data_update_rejects_missing_age() {
    assert_eq!(
        parse_data_update("зріст: 185, вага: 112"),
        Err(DataUpdateError::BadAge)
    );
}

#[test]
fn data_update_rejects_missing_height() {
    assert_eq!(
        parse_data_update("вік: 21, вага: 112"),
        Err(DataUpdateError::BadHeightWeight)
    );
}

#[test]
fn data_update_rejects_missing_weight() {
    assert_eq!(
        parse_data_update("вік: 21, зріст: 185"),
        Err(DataUpdateError::BadHeightWeight)
    );
}

#[test]
fn data_update_rejects_non_numeric_value() {
    assert_eq!(
        parse_data_update("вік: стар, зріст: 185, вага: 112"),
        Err(DataUpdateError::BadAge)
    );
}

#[test]
fn data_update_last_key_wins() {
    assert_eq!(
        parse_data_update("вік: 21, зріст: 185, вага: 112, вік: 22"),
        Ok(DataUpdate {
            age: 22,
            height: 185,
            weight: 112
        })
    );
}

#[test]
fn key_value_pairs_are_collected_in_order() {
    let pairs = parse_string("a: 1, b:2, c: 3 ");
    // "b:2" has no ": " separator and is skipped; values are trimmed
    assert_eq!(
        pairs,
        vec![
            ("a".to_string(), "1".to_string()),
            ("c".to_string(), "3".to_string())
        ]
    );
}

#[test]
fn size_update_accepts_all_labels() {
    assert_eq!(
        parse_string_size(
            "108 - груди, 105 - талія, 123 - бедра, 39 - біцепс руки, 72 - біцепс ноги, 45 - ікра"
        ),
        Ok(vec![108, 105, 123, 39, 72, 45])
    );
}

#[test]
fn size_update_builds_snapshot() {
    assert_eq!(
        parse_sizes(
            "108 - груди, 105 - талія, 123 - бедра, 39 - біцепс руки, 72 - біцепс ноги, 45 - ікра"
        ),
        Ok(Sizes {
            chest: 108,
            waist: 105,
            hips: 123,
            hand_biceps: 39,
            leg_biceps: 72,
            calf: 45
        })
    );
}

#[test]
fn size_update_names_each_missing_label() {
    let full = [
        ("108 - груди", SizeField::Chest),
        ("105 - талія", SizeField::Waist),
        ("123 - бедра", SizeField::Hips),
        ("39 - біцепс руки", SizeField::HandBiceps),
        ("72 - біцепс ноги", SizeField::LegBiceps),
        ("45 - ікра", SizeField::Calf),
    ];
    for omit in 0..full.len() {
        let text = full
            .iter()
            .enumerate()
            .filter(|(i, _)| *i != omit)
            .map(|(_, (part, _))| *part)
            .collect::<Vec<_>>()
            .join(", ");
        assert_eq!(parse_string_size(&text), Err(full[omit].1));
    }
}

#[test]
fn size_update_skips_malformed_entries() {
    // an entry with a bad value or shape contributes nothing
    assert_eq!(
        parse_string_size("x - груди, 105 - талія"),
        Err(SizeField::Chest)
    );
    assert_eq!(
        parse_string_size("1 - 2 - груди, 105 - талія"),
        Err(SizeField::Chest)
    );
}

#[test]
fn split_on_behaves_like_a_plain_split() {
    assert_eq!(split_on("a, b, c", ", "), vec!["a", "b", "c"]);
    assert_eq!(split_on("abc", ", "), vec!["abc"]);
    assert_eq!(split_on("", ", "), vec![""]);
    assert_eq!(split_on("a, ", ", "), vec!["a", ""]);
}

#[test]
fn trim_removes_surrounding_whitespace() {
    assert_eq!(trim_str("  приклад \t"), "приклад");
    assert_eq!(trim_str("ціле"), "ціле");
    assert_eq!(trim_str("   "), "");
}

#[test]
fn string_comparison_sees_unicode() {
    assert!(str_eq("вік", "вік"));
    assert!(!str_eq("вік", "віК"));
    assert!(!str_eq("вік", "вік "));
}

#[test]
fn decimal_rendering_round_trips() {
    assert_eq!(u64_to_string(0), "0");
    assert_eq!(u64_to_string(185), "185");
    assert_eq!(i32_to_string(-112), "-112");
    assert_eq!(i32_to_string(i32::MIN), "-2147483648");
    assert_eq!(parse_i32(&i32_to_string(2_000_000_000)), Some(2_000_000_000));
}
