use beta::io::{resolve, resolve_value, IoError, VarError};
use beta::{env_key, env_key_from_upper, input, output_line, repository, Error, Repository};

fn set(s: &str) -> Result<String, VarError> {
    Ok(String::from(s))
}

fn missing(name: &str) -> IoError {
    IoError::MissingRequired(String::from(name))
}

#[test]
fn key_derivation() {
    assert_eq!(env_key("pull-number"), "PREFIX_PULL_NUMBER");
    assert_eq!(env_key("token"), "PREFIX_TOKEN");
    assert_eq!(env_key("a-b-c"), "PREFIX_A_B_C");
    assert_eq!(env_key_from_upper("X-Y"), "PREFIX_X_Y");
}

#[test]
fn required_not_set_is_missing() {
    for name in ["token", "pull-number", ""] {
        let r = resolve::<String>(name, &Err(VarError::NotPresent), true);
        assert_eq!(r, Err(missing(name)));
        let r = resolve::<u64>(name, &Err(VarError::NotPresent), true);
        assert_eq!(r, Err(missing(name)));
    }
}

#[test]
fn required_blank_is_missing() {
    for value in ["", " ", "\t\n ", "\u{3000}"] {
        assert_eq!(resolve::<String>("body", &set(value), true), Err(missing("body")));
        assert_eq!(resolve::<bool>("flag", &set(value), true), Err(missing("flag")));
    }
}

#[test]
fn optional_not_set_or_blank_is_absent() {
    assert_eq!(resolve::<String>("token", &Err(VarError::NotPresent), false), Ok(None));
    assert_eq!(resolve::<i32>("n", &set("  "), false), Ok(None));
    assert_eq!(resolve::<i32>("n", &set(""), false), Ok(None));
}

#[test]
fn not_unicode_is_a_parse_error() {
    let r = resolve::<String>("token", &Err(VarError::NotUnicode), false);
    assert_eq!(r, Err(IoError::ParseError(String::from("token"))));
    let r = resolve::<String>("token", &Err(VarError::NotUnicode), true);
    assert_eq!(r, Err(IoError::ParseError(String::from("token"))));
}

#[test]
fn set_values_are_parsed_untrimmed() {
    assert_eq!(resolve::<u64>("n", &set("42"), true), Ok(Some(42)));
    assert_eq!(resolve::<String>("s", &set(" a "), true), Ok(Some(String::from(" a "))));
    assert!(matches!(resolve::<u64>("n", &set(" 42"), true), Err(IoError::ParseError(_))));
    assert!(matches!(resolve::<u64>("n", &set("x"), false), Err(IoError::ParseError(_))));
    assert_eq!(resolve_value::<u64>("n", "7", "7", false), Ok(Some(7)));
    assert_eq!(resolve_value::<u64>("n", " ", "", true), Err(missing("n")));
}

#[test]
fn scenario_inputs() {
    let number: Result<u64, Error> = input("number", &set("42"));
    assert_eq!(number, Ok(42));
    let body: Result<String, Error> = input("body", &set(""));
    assert_eq!(body, Err(Error::IoError(missing("body"))));
    let token: Result<String, Error> = input("token", &Err(VarError::NotPresent));
    assert_eq!(token, Err(Error::IoError(missing("token"))));
    let token: Result<Option<String>, Error> = input("token", &Err(VarError::NotPresent));
    assert_eq!(token, Ok(None));
}

#[test]
fn scenario_output_line() {
    let line = output_line("comment-url", &String::from("https://x/1"));
    assert_eq!(line, "::set-output name=comment-url::https://x/1");
    assert_eq!(output_line("n", &None::<u64>), "::set-output name=n::");
    assert_eq!(output_line("ok", &true), "::set-output name=ok::true");
}

#[test]
fn repository_slug() {
    let repo = repository(&set("octo/hello")).unwrap();
    assert_eq!(
        repo,
        Repository { owner: String::from("octo"), name: String::from("hello") }
    );
    let repo = repository(&set("a/b/c")).unwrap();
    assert_eq!(repo.owner, "a");
    assert_eq!(repo.name, "b");
    let repo = repository(&set("/x")).unwrap();
    assert_eq!(repo.owner, "");
    assert_eq!(repo.name, "x");
    assert_eq!(
        repository(&Err(VarError::NotPresent)),
        Err(Error::EnvVarError(VarError::NotPresent))
    );
}

#[test]
fn error_text() {
    assert_eq!(
        Error::IoError(missing("x")).to_string(),
        "io error: required input 'x' is missing"
    );
    assert_eq!(
        Error::EnvVarError(VarError::NotPresent).to_string(),
        "env var error: environment variable not found"
    );
}

#[test]
fn parse_failures_carry_the_parser_message() {
    let r = resolve::<u32>("n", &set("abc"), true);
    assert_eq!(r, Err(IoError::ParseError(String::from("invalid digit found in string"))));
    let r = resolve::<u32>("n", &set("abc"), false);
    assert_eq!(r, Err(IoError::ParseError(String::from("invalid digit found in string"))));
    let r: Result<bool, Error> = input("flag", &set("maybe"));
    assert_eq!(
        r,
        Err(Error::IoError(IoError::ParseError(String::from("Cannot parse 'maybe' as bool"))))
    );
}

#[test]
fn optional_read_is_required_read_with_absent() {
    let raws = [
        Err(VarError::NotPresent),
        Err(VarError::NotUnicode),
        set(""),
        set(" \u{85}\u{2029}"),
        set("12"),
        set("x"),
    ];
    for raw in raws.iter() {
        let req = resolve::<u64>("n", raw, true);
        let opt = resolve::<u64>("n", raw, false);
        let expected = match resolve::<u64>("n", raw, true) {
            Err(IoError::MissingRequired(_)) => Ok(None),
            other => other,
        };
        assert_eq!(opt, expected);
        assert_eq!(req, resolve::<u64>("n", raw, true));
    }
}

#[test]
fn white_space_that_trims_away() {
    for value in ["\u{a0}", "\u{1680}", "\u{2000}\u{200a}", "\u{202f}\u{205f}", "\u{b}\u{c}\r"] {
        assert_eq!(resolve::<String>("s", &set(value), true), Err(missing("s")));
    }
    assert_eq!(
        resolve::<String>("s", &set("\u{200b}"), true),
        Ok(Some(String::from("\u{200b}")))
    );
}
