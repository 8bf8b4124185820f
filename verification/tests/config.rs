use grelsolar::config::{is_white_space, ConfigError, Env, MAX_DURATION_DIGITS};

#[test]
fn test_as_string_env_present() {
    let val = Env::var("TEST_STRING").as_string(Some("hello".to_string())).unwrap();
    assert_eq!(val, "hello");
}

#[test]
fn test_as_string_env_empty() {
    let err = Env::var("TEST_STRING").as_string(Some("   ".to_string())).unwrap_err();
    assert!(matches!(err, ConfigError::EnvVarNotFoundError(name) if name == "TEST_STRING"));
}

#[test]
fn test_as_string_env_missing_with_default() {
    let val = Env::var("TEST_STRING").or("default").as_string(None).unwrap();
    assert_eq!(val, "default");
}

#[test]
fn test_as_string_env_missing_no_default() {
    let err = Env::var("TEST_STRING").as_string(None).unwrap_err();
    assert!(matches!(err, ConfigError::EnvVarNotFoundError(name) if name == "TEST_STRING"));
}

#[test]
fn test_as_url_valid() {
    let url = Env::var("TEST_URL").as_url(Some("http://localhost:1234".to_string())).unwrap();
    assert_eq!(url.as_str(), "http://localhost:1234/");
}

#[test]
fn test_as_url_invalid() {
    let err = Env::var("TEST_URL").as_url(Some("not a url".to_string())).unwrap_err();
    assert!(matches!(err, ConfigError::UrlParseError(name) if name == "TEST_URL"));
}

#[test]
fn a_url_is_read_from_the_value_or_the_default() {
    let url = Env::var("U").or("http://hub.local:8123/base/").as_url(None).unwrap();
    assert_eq!(url.as_str(), "http://hub.local:8123/base/");
    assert!(matches!(
        Env::var("U").as_url(None),
        Err(ConfigError::EnvVarNotFoundError(name)) if name == "U"
    ));
    assert!(matches!(
        Env::var("U").or("http://x").as_url(Some(" ".to_string())),
        Err(ConfigError::EnvVarNotFoundError(_))
    ));
    assert!(matches!(
        Env::var("U").or("nowhere").as_url(None),
        Err(ConfigError::UrlParseError(name)) if name == "U"
    ));
}

#[test]
fn test_as_duration_seconds() {
    let dur = Env::var("TEST_DUR").as_duration(Some("42s".to_string())).unwrap();
    assert_eq!(std::time::Duration::from_secs(dur), std::time::Duration::from_secs(42));
}

#[test]
fn test_as_duration_human() {
    let dur = Env::var("TEST_DUR").as_duration(Some("2m".to_string())).unwrap();
    assert_eq!(std::time::Duration::from_secs(dur), std::time::Duration::from_secs(120));
}

#[test]
fn test_as_duration_invalid() {
    let err = Env::var("TEST_DUR").as_duration(Some("not a duration".to_string())).unwrap_err();
    assert!(matches!(err, ConfigError::DurationParseError(_)));
}

#[test]
fn a_blank_value_is_an_error_even_with_a_default() {
    for blank in ["", " ", "\t\n", "\u{a0}\u{2003}", "\u{3000}"] {
        let err = Env::var("NAME").or("fallback").as_string(Some(blank.to_string())).unwrap_err();
        assert!(matches!(err, ConfigError::EnvVarNotFoundError(name) if name == "NAME"));
    }
    assert_eq!(Env::var("NAME").or("fallback").as_string(Some(" x ".to_string())).unwrap(), " x ");
    assert_eq!(Env::var("NAME").or("fallback").as_string(Some("\u{200b}".to_string())).unwrap(), "\u{200b}");
    assert_eq!(Env::var("NAME").or("first").or("second").as_string(None).unwrap(), "second");
    assert_eq!(Env::var("NAME").name(), "NAME");
}

#[test]
fn durations_count_in_whole_seconds() {
    assert_eq!(Env::var("D").or("5s").as_duration(None).unwrap(), 5);
    assert_eq!(Env::var("D").or("60s").as_duration(Some("1h 1s".to_string())).unwrap(), 3601);
    assert_eq!(Env::var("D").as_duration(Some("1500ms".to_string())).unwrap(), 1);
    assert_eq!(Env::var("D").as_duration(Some("0".to_string())).unwrap(), 0);
    assert!(matches!(
        Env::var("D").as_duration(None),
        Err(ConfigError::EnvVarNotFoundError(name)) if name == "D"
    ));
    assert!(matches!(
        Env::var("D").or("soon").as_duration(None),
        Err(ConfigError::DurationParseError(_))
    ));
    assert!(matches!(
        Env::var("D").as_duration(Some("  ".to_string())),
        Err(ConfigError::EnvVarNotFoundError(_))
    ));
}

#[test]
fn white_space_is_what_the_standard_library_takes_for_it() {
    let mut count = 0;
    for code in 0..=0x10FFFFu32 {
        if let Some(c) = char::from_u32(code) {
            assert_eq!(is_white_space(c), c.is_whitespace(), "U+{code:04X}");
            if c.is_whitespace() {
                count += 1;
            }
        }
    }
    assert_eq!(count, 25);
}

#[test]
fn a_duration_with_too_many_digits_is_refused_before_it_is_read() {
    assert_eq!(MAX_DURATION_DIGITS, 11);
    let refused = [
        "18446744073709551615s 1000000000ns",
        "18446744073709551615s",
        "123456789012s",
        "12345678 9012s",
        "1s 1s 1s 1s 1s 1s 1s 1s 1s 1s 1s 1s",
        "000000000005s",
    ];
    for text in refused.iter() {
        let err = Env::var("D").as_duration(Some(text.to_string())).unwrap_err();
        assert!(
            matches!(err, ConfigError::DurationParseError(words) if words == "number is too large"),
            "{text}"
        );
    }
    assert_eq!(Env::var("D").as_duration(Some("12345678901s".to_string())).unwrap(), 12345678901);
    assert_eq!(
        Env::var("D").as_duration(Some("99999999999years".to_string())).unwrap(),
        99999999999 * 31_557_600
    );
    assert_eq!(Env::var("D").as_duration(Some("1s 1000000000ns".to_string())).unwrap(), 2);
    assert_eq!(Env::var("D").as_duration(Some("999ms 1000000ns".to_string())).unwrap(), 1);
    assert_eq!(Env::var("D").as_duration(Some("1h 30m 15s".to_string())).unwrap(), 5415);
    assert!(matches!(
        Env::var("D").or("123456789012s").as_duration(None),
        Err(ConfigError::DurationParseError(_))
    ));
}
