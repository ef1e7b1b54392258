use pcsv::infer::{detect_data_type_cached, init_patterns, DataType, DatePatterns};

fn detect(pats: &DatePatterns, s: &str) -> DataType {
    detect_data_type_cached(pats, s)
}

#[test]
fn dates_match_all_six_patterns() {
    let p = init_patterns();
    assert_eq!(detect(&p, "2024-01-15"), DataType::Date);
    assert_eq!(detect(&p, "01/02/2024"), DataType::Date);
    assert_eq!(detect(&p, "01-02-2024"), DataType::Date);
    assert_eq!(detect(&p, "2024/01/15"), DataType::Date);
    assert_eq!(detect(&p, "1/2/2024"), DataType::Date);
    assert_eq!(detect(&p, "2024-01-15 10:30:00"), DataType::Date);
}

#[test]
fn near_dates_are_not_dates() {
    let p = init_patterns();
    assert_eq!(detect(&p, "2024-1-15"), DataType::Text);
    assert_eq!(detect(&p, "2024-01-15x"), DataType::Text);
    assert_eq!(detect(&p, "x2024-01-15"), DataType::Text);
    assert_eq!(detect(&p, "2024-01-15 10:30"), DataType::Text);
    assert_eq!(detect(&p, "123/45/6789"), DataType::Text);
}

#[test]
fn blanks_are_empty() {
    let p = init_patterns();
    assert_eq!(detect(&p, ""), DataType::Empty);
    assert_eq!(detect(&p, " "), DataType::Empty);
    assert_eq!(detect(&p, " \t\r\n "), DataType::Empty);
    assert_eq!(detect(&p, "\u{00A0}\u{2003}"), DataType::Empty);
}

#[test]
fn boolean_words_in_any_case() {
    let p = init_patterns();
    for w in ["true", "false", "yes", "no", "y", "n", "TRUE", "False", "YES", "No", "Y", "N"] {
        assert_eq!(detect(&p, w), DataType::Boolean, "word {:?}", w);
    }
    assert_eq!(detect(&p, "yess"), DataType::Text);
    assert_eq!(detect(&p, "tru"), DataType::Text);
}

#[test]
fn integers_in_range() {
    let p = init_patterns();
    for w in ["0", "7", "123", "-5", "+42", "0000", "9223372036854775807"] {
        assert_eq!(detect(&p, w), DataType::IntNumber, "word {:?}", w);
    }
    assert_eq!(detect(&p, "-9223372036854775808"), DataType::IntNumber);
}

#[test]
fn overflowing_integers_fall_back_to_float() {
    let p = init_patterns();
    assert_eq!(detect(&p, "9223372036854775808"), DataType::FloatNumber);
    assert_eq!(detect(&p, "-9223372036854775809"), DataType::FloatNumber);
    assert_eq!(detect(&p, "99999999999999999999999999"), DataType::FloatNumber);
}

#[test]
fn floats_with_points_and_exponents() {
    let p = init_patterns();
    for w in ["1.5", "-0.5", "+3.25", ".5", "5.", "1e5", "1E5", "2e-3", "+1.5e+3", "0.0"] {
        assert_eq!(detect(&p, w), DataType::FloatNumber, "word {:?}", w);
    }
}

#[test]
fn float_specials() {
    let p = init_patterns();
    for w in ["inf", "-inf", "+inf", "infinity", "Infinity", "nan", "NaN", "-NAN"] {
        assert_eq!(detect(&p, w), DataType::FloatNumber, "word {:?}", w);
    }
    assert_eq!(detect(&p, "info"), DataType::Text);
}

#[test]
fn text_catches_the_rest() {
    let p = init_patterns();
    for w in [
        "abc", "12a", "1.2.3", "e5", ".", "+", "-", "--1", "1e", "1e+", "0x10", " 1 ", "1 2",
        "twelve",
    ] {
        assert_eq!(detect(&p, w), DataType::Text, "word {:?}", w);
    }
}
