use beta::decimal::{format_signed, format_unsigned};
use beta::io::{bool_from_lowered, FromInput, IoError, ToOutput};
use beta::text::{replace_dashes, same_text};

fn parse<T: FromInput>(s: &str) -> Result<T, IoError> {
    T::from_input(s)
}

fn is_parse_error<T>(r: Result<T, IoError>) -> bool {
    matches!(r, Err(IoError::ParseError(_)))
}

#[test]
fn round_trip_integers() {
    for v in [i32::MIN, -1, 0, 7, i32::MAX] {
        assert_eq!(parse::<i32>(&v.to_output()), Ok(v));
    }
    for v in [0u32, 9, 10, u32::MAX] {
        assert_eq!(parse::<u32>(&v.to_output()), Ok(v));
    }
    for v in [i64::MIN, -1234567890123, 0, i64::MAX] {
        assert_eq!(parse::<i64>(&v.to_output()), Ok(v));
    }
    for v in [0u64, 42, u64::MAX] {
        assert_eq!(parse::<u64>(&v.to_output()), Ok(v));
    }
}

#[test]
fn round_trip_text_and_bool() {
    let s = String::from("hello world");
    assert_eq!(parse::<String>(&s.to_output()), Ok(s.clone()));
    assert_eq!(parse::<bool>(&true.to_output()), Ok(true));
    assert_eq!(parse::<bool>(&false.to_output()), Ok(false));
}

#[test]
fn bool_spellings_normalise_in_one_pass() {
    for s in ["yes", "1", "no", "0", "", "TRUE", "False"] {
        let b = parse::<bool>(s).unwrap();
        let text = b.to_output();
        assert!(text == "true" || text == "false");
        assert_eq!(parse::<bool>(&text), Ok(b));
    }
}

#[test]
fn bool_parsing() {
    for s in ["TRUE", "True", "1", "yes", "true", "YES"] {
        assert_eq!(parse::<bool>(s), Ok(true));
    }
    for s in ["FALSE", "0", "no", "", "false", "No"] {
        assert_eq!(parse::<bool>(s), Ok(false));
    }
    assert_eq!(
        parse::<bool>("maybe"),
        Err(IoError::ParseError(String::from("Cannot parse 'maybe' as bool")))
    );
    assert!(is_parse_error(parse::<bool>(" true")));
    assert!(is_parse_error(parse::<bool>("2")));
}

#[test]
fn bool_from_lowered_text() {
    assert_eq!(bool_from_lowered("yes"), Some(true));
    assert_eq!(bool_from_lowered("no"), Some(false));
    assert_eq!(bool_from_lowered(""), Some(false));
    assert_eq!(bool_from_lowered("TRUE"), None);
    assert_eq!(bool_from_lowered("maybe"), None);
}

#[test]
fn integer_parsing() {
    assert_eq!(parse::<i32>("-17"), Ok(-17));
    assert_eq!(parse::<i32>("+17"), Ok(17));
    assert_eq!(parse::<u32>("+17"), Ok(17));
    assert_eq!(parse::<u64>("007"), Ok(7));
    assert_eq!(parse::<i64>("-9223372036854775808"), Ok(i64::MIN));
    assert!(is_parse_error(parse::<i32>("2147483648")));
    assert!(is_parse_error(parse::<u32>("-1")));
    assert!(is_parse_error(parse::<u32>("-0")));
    assert!(is_parse_error(parse::<u64>("18446744073709551616")));
    assert!(is_parse_error(parse::<i64>("12a")));
    assert!(is_parse_error(parse::<i32>("")));
    assert!(is_parse_error(parse::<i32>("-")));
    assert!(is_parse_error(parse::<i32>(" 4")));
    assert!(is_parse_error(parse::<u64>("1_000")));
}

#[test]
fn integer_parse_error_carries_message() {
    assert_eq!(
        parse::<u32>("abc"),
        Err(IoError::ParseError(String::from("invalid digit found in string")))
    );
    assert_eq!(
        parse::<i32>("99999999999"),
        Err(IoError::ParseError(String::from("number too large to fit in target type")))
    );
}

#[test]
fn optional_parsing() {
    assert_eq!(parse::<Option<i32>>(""), Ok(None));
    assert_eq!(parse::<Option<i32>>("5"), Ok(Some(5)));
    assert!(is_parse_error(parse::<Option<u64>>("x")));
    assert_eq!(parse::<Option<String>>("a"), Ok(Some(String::from("a"))));
}

#[test]
fn formatting() {
    assert_eq!(true.to_output(), "true");
    assert_eq!(false.to_output(), "false");
    assert_eq!((-42i32).to_output(), "-42");
    assert_eq!(4000000000u32.to_output(), "4000000000");
    assert_eq!(i64::MIN.to_output(), "-9223372036854775808");
    assert_eq!(u64::MAX.to_output(), "18446744073709551615");
    assert_eq!("abc".to_output(), "abc");
    assert_eq!(String::from("x y").to_output(), "x y");
    assert_eq!(Some(3u64).to_output(), "3");
    assert_eq!(None::<u64>.to_output(), "");
    assert_eq!(format_unsigned(0), "0");
    assert_eq!(format_unsigned(1090), "1090");
    assert_eq!(format_signed(-5), "-5");
    assert_eq!(format_signed(0), "0");
}

#[test]
fn error_messages() {
    assert_eq!(
        IoError::MissingRequired(String::from("body")).to_string(),
        "required input 'body' is missing"
    );
    assert_eq!(IoError::ParseError(String::from("bad")).to_string(), "parse error: bad");
}

#[test]
fn text_helpers() {
    assert_eq!(replace_dashes("a-b--c"), "a_b__c");
    assert_eq!(replace_dashes(""), "");
    assert!(same_text("abc", "abc"));
    assert!(!same_text("abc", "abd"));
    assert!(!same_text("ab", "abc"));
}

#[test]
fn integer_parse_messages_for_each_kind() {
    let empty = "cannot parse integer from empty string";
    let digit = "invalid digit found in string";
    assert_eq!(parse::<u64>(""), Err(IoError::ParseError(String::from(empty))));
    assert_eq!(parse::<u64>(" 42"), Err(IoError::ParseError(String::from(digit))));
    assert_eq!(parse::<u32>("-1"), Err(IoError::ParseError(String::from(digit))));
    assert_eq!(
        parse::<i64>("9223372036854775808"),
        Err(IoError::ParseError(String::from("number too large to fit in target type")))
    );
    assert_eq!(
        parse::<i32>("-2147483649"),
        Err(IoError::ParseError(String::from("number too small to fit in target type")))
    );
}

#[test]
fn optional_adapter_hands_on_inner_errors() {
    assert_eq!(
        parse::<Option<u32>>("abc"),
        Err(IoError::ParseError(String::from("invalid digit found in string")))
    );
    assert_eq!(parse::<Option<bool>>(""), Ok(None));
    assert_eq!(
        parse::<Option<bool>>("MAYBE"),
        Err(IoError::ParseError(String::from("Cannot parse 'MAYBE' as bool")))
    );
    assert_eq!(parse::<Option<bool>>(" "), parse::<bool>(" ").map(Some));
}
