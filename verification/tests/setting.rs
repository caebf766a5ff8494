use api::config::ConfigError;
use api::decimal::{decimal_text, parse_unsigned_at_most};
use api::setting::{bounded, parse_or_default, positive, setting_from_lookup, SettingValue};

#[test]
fn numerals_follow_unsigned_integer_syntax() {
    assert_eq!(parse_unsigned_at_most("8080", u64::MAX), Some(8080));
    assert_eq!(parse_unsigned_at_most("+42", u64::MAX), Some(42));
    assert_eq!(parse_unsigned_at_most("0042", u64::MAX), Some(42));
    assert_eq!(parse_unsigned_at_most("0", u64::MAX), Some(0));
    assert_eq!(parse_unsigned_at_most("", u64::MAX), None);
    assert_eq!(parse_unsigned_at_most("+", u64::MAX), None);
    assert_eq!(parse_unsigned_at_most("-0", u64::MAX), None);
    assert_eq!(parse_unsigned_at_most(" 1", u64::MAX), None);
    assert_eq!(parse_unsigned_at_most("1 ", u64::MAX), None);
    assert_eq!(parse_unsigned_at_most("1_000", u64::MAX), None);
    assert_eq!(parse_unsigned_at_most("١٢", u64::MAX), None);
    assert_eq!(
        parse_unsigned_at_most("18446744073709551615", u64::MAX),
        Some(u64::MAX)
    );
    assert_eq!(parse_unsigned_at_most("18446744073709551616", u64::MAX), None);
    assert_eq!(parse_unsigned_at_most("300", 300), Some(300));
    assert_eq!(parse_unsigned_at_most("301", 300), None);
    assert_eq!(parse_unsigned_at_most("5", 3), None);
}

#[test]
fn numerals_agree_with_std_parsing() {
    for text in ["0", "7", "+7", "65535", "65536", "-1", "x", "", "99999999999999999999", "0x10"] {
        assert_eq!(
            u16::from_numeral(text),
            text.parse::<u16>().ok(),
            "u16 {text:?}"
        );
        assert_eq!(
            u64::from_numeral(text),
            text.parse::<u64>().ok(),
            "u64 {text:?}"
        );
        assert_eq!(
            usize::from_numeral(text),
            text.parse::<usize>().ok(),
            "usize {text:?}"
        );
    }
}

#[test]
fn decimal_text_is_shortest_numeral() {
    assert_eq!(decimal_text(0), "0");
    assert_eq!(decimal_text(7), "7");
    assert_eq!(decimal_text(10), "10");
    assert_eq!(decimal_text(10_000), "10000");
    assert_eq!(decimal_text(16_777_216), "16777216");
    assert_eq!(decimal_text(u64::MAX), u64::MAX.to_string());
}

#[test]
fn decimal_text_reads_back() {
    for n in [0u64, 1, 9, 10, 99, 100, 3600, 65535, u64::MAX] {
        assert_eq!(parse_unsigned_at_most(&decimal_text(n), u64::MAX), Some(n));
    }
}

#[test]
fn positive_rejects_only_zero() {
    assert_eq!(positive("PORT", 0u16), Err(ConfigError::Zero { name: "PORT" }));
    assert_eq!(positive("PORT", 1u16), Ok(1));
    assert_eq!(positive("PORT", u16::MAX), Ok(u16::MAX));
}

#[test]
fn bounded_accepts_one_to_maximum() {
    assert_eq!(
        bounded("SHUTDOWN_TIMEOUT_SECONDS", 0u64, 300),
        Err(ConfigError::Zero {
            name: "SHUTDOWN_TIMEOUT_SECONDS"
        })
    );
    assert_eq!(bounded("SHUTDOWN_TIMEOUT_SECONDS", 1u64, 300), Ok(1));
    assert_eq!(bounded("SHUTDOWN_TIMEOUT_SECONDS", 300u64, 300), Ok(300));
    assert_eq!(
        bounded("SHUTDOWN_TIMEOUT_SECONDS", 301u64, 300),
        Err(ConfigError::TooLarge {
            name: "SHUTDOWN_TIMEOUT_SECONDS",
            maximum: "300".to_owned(),
        })
    );
    assert_eq!(
        bounded("MAX_CONCURRENT_REQUESTS", 10_001usize, 10_000),
        Err(ConfigError::TooLarge {
            name: "MAX_CONCURRENT_REQUESTS",
            maximum: "10000".to_owned(),
        })
    );
}

#[test]
fn unset_setting_takes_default_and_given_one_is_parsed() {
    assert_eq!(setting_from_lookup(Ok(None), "PORT", 8080u16), Ok(8080));
    assert_eq!(
        setting_from_lookup(Ok(Some("9090".to_owned())), "PORT", 8080u16),
        Ok(9090)
    );
    assert_eq!(
        setting_from_lookup(Ok(Some("".to_owned())), "PORT", 8080u16),
        Err(ConfigError::Invalid { name: "PORT" })
    );
    assert_eq!(
        setting_from_lookup::<u16>(Err(ConfigError::Invalid { name: "PORT" }), "PORT", 8080),
        Err(ConfigError::Invalid { name: "PORT" })
    );
}

#[test]
fn parse_or_default_reads_the_named_variable() {
    let read = |name: &'static str| {
        Ok(match name {
            "REQUEST_TIMEOUT_SECONDS" => Some("45".to_owned()),
            _ => None,
        })
    };
    assert_eq!(parse_or_default(&read, "REQUEST_TIMEOUT_SECONDS", 30u64), Ok(45));
    assert_eq!(parse_or_default(&read, "SHUTDOWN_TIMEOUT_SECONDS", 30u64), Ok(30));
    let broken = |_: &'static str| Ok(Some("4x".to_owned()));
    assert_eq!(
        parse_or_default(&broken, "SHUTDOWN_TIMEOUT_SECONDS", 30u64),
        Err(ConfigError::Invalid {
            name: "SHUTDOWN_TIMEOUT_SECONDS"
        })
    );
}

#[test]
fn setting_values_report_their_numerals() {
    assert_eq!(8080u16.numeral(), "8080");
    assert_eq!(10_000usize.numeral(), "10000");
    assert!(0u64.is_zero());
    assert!(!1u64.is_zero());
    assert!(301u64.exceeds(&300));
    assert!(!300u64.exceeds(&300));
}
