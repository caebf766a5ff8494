use std::collections::HashMap;
use std::time::Duration;

use api::config::{Config, ConfigError, IpAddress};

/// Stands in for the IP address parser: dotted version 4 addresses, and the
/// version 6 loopback address.
fn parse_address(text: &str) -> Option<IpAddress> {
    if text == "::1" {
        return Some(IpAddress::V6([0, 0, 0, 0, 0, 0, 0, 1]));
    }
    let parts: Vec<&str> = text.split('.').collect();
    if parts.len() != 4 {
        return None;
    }
    let mut octets = [0u8; 4];
    for (octet, part) in octets.iter_mut().zip(parts) {
        *octet = part.parse().ok()?;
    }
    Some(IpAddress::V4(octets))
}

fn address_text(address: IpAddress) -> String {
    match address {
        IpAddress::V4([a, b, c, d]) => format!("{a}.{b}.{c}.{d}"),
        IpAddress::V6(segments) => format!("{segments:?}"),
    }
}

#[test]
fn defaults_are_safe_and_cloud_run_compatible() {
    let config = Config::from_reader(|_| Ok(None), parse_address)
        .expect("defaults must form valid configuration");

    assert_eq!(address_text(config.bind_address), "0.0.0.0");
    assert_eq!(config.port, 8080);
    assert_eq!(Duration::from_secs(config.request_timeout_seconds), Duration::from_secs(30));
    assert_eq!(config.max_concurrent_requests, 256);
    assert_eq!(config.max_request_body_bytes, 1_048_576);
    assert_eq!(Duration::from_secs(config.shutdown_timeout_seconds), Duration::from_secs(30));
}

#[test]
fn environment_overrides_every_setting() {
    let values = HashMap::from([
        ("BIND_ADDRESS", "127.0.0.1"),
        ("PORT", "9090"),
        ("REQUEST_TIMEOUT_SECONDS", "5"),
        ("MAX_CONCURRENT_REQUESTS", "10"),
        ("MAX_REQUEST_BODY_BYTES", "2048"),
        ("SHUTDOWN_TIMEOUT_SECONDS", "8"),
    ]);

    let config = Config::from_reader(
        |name| Ok(values.get(name).map(ToString::to_string)),
        parse_address,
    )
    .expect("test values must form valid configuration");

    assert_eq!(address_text(config.bind_address), "127.0.0.1");
    assert_eq!(config.port, 9090);
    assert_eq!(Duration::from_secs(config.request_timeout_seconds), Duration::from_secs(5));
    assert_eq!(config.max_concurrent_requests, 10);
    assert_eq!(config.max_request_body_bytes, 2048);
    assert_eq!(Duration::from_secs(config.shutdown_timeout_seconds), Duration::from_secs(8));
}

#[test]
fn zero_resource_limit_is_rejected() {
    let result = Config::from_reader(
        |name| Ok((name == "MAX_CONCURRENT_REQUESTS").then_some("0".to_owned())),
        parse_address,
    );

    assert_eq!(
        result,
        Err(ConfigError::Zero {
            name: "MAX_CONCURRENT_REQUESTS"
        })
    );
}

#[test]
fn excessive_concurrency_is_rejected_before_middleware_construction() {
    let result = Config::from_reader(
        |name| Ok((name == "MAX_CONCURRENT_REQUESTS").then_some("10001".to_owned())),
        parse_address,
    );

    assert_eq!(
        result,
        Err(ConfigError::TooLarge {
            name: "MAX_CONCURRENT_REQUESTS",
            maximum: "10000".to_owned(),
        })
    );
}

#[test]
fn maximum_resource_limits_are_accepted() {
    let values = HashMap::from([
        ("REQUEST_TIMEOUT_SECONDS", "3600"),
        ("MAX_CONCURRENT_REQUESTS", "10000"),
        ("MAX_REQUEST_BODY_BYTES", "16777216"),
        ("SHUTDOWN_TIMEOUT_SECONDS", "300"),
    ]);

    let config = Config::from_reader(
        |name| Ok(values.get(name).map(ToString::to_string)),
        parse_address,
    )
    .expect("maximum values must remain in the valid range");

    assert_eq!(Duration::from_secs(config.request_timeout_seconds), Duration::from_secs(3_600));
    assert_eq!(config.max_concurrent_requests, 10_000);
    assert_eq!(config.max_request_body_bytes, 16_777_216);
    assert_eq!(Duration::from_secs(config.shutdown_timeout_seconds), Duration::from_secs(300));
}

#[test]
fn zero_port_is_rejected_instead_of_selecting_an_ephemeral_port() {
    let result = Config::from_reader(
        |name| Ok((name == "PORT").then_some("0".to_owned())),
        parse_address,
    );

    assert_eq!(result, Err(ConfigError::Zero { name: "PORT" }));
}

#[test]
fn invalid_value_names_variable_without_echoing_value() {
    let result = Config::from_reader(
        |name| Ok((name == "PORT").then_some("secret-value".to_owned())),
        parse_address,
    );

    assert_eq!(result, Err(ConfigError::Invalid { name: "PORT" }));
    assert!(
        !result
            .expect_err("value is invalid")
            .message()
            .contains("secret-value")
    );
}

#[test]
fn non_unicode_environment_value_is_rejected_as_invalid() {
    let result = Config::from_reader(
        |name| {
            if name == "BIND_ADDRESS" {
                Err(ConfigError::Invalid { name })
            } else {
                Ok(None)
            }
        },
        parse_address,
    );

    assert_eq!(
        result,
        Err(ConfigError::Invalid {
            name: "BIND_ADDRESS"
        })
    );
}

#[test]
fn default_trait_matches_unset_environment() {
    let read = Config::from_reader(|_| Ok(None), parse_address).expect("defaults are valid");
    assert_eq!(read, Config::default());
    assert_eq!(Config::default().bind_address, IpAddress::V4([0, 0, 0, 0]));
}

#[test]
fn ipv6_bind_address_is_accepted() {
    let config = Config::from_reader(
        |name| Ok((name == "BIND_ADDRESS").then_some("::1".to_owned())),
        parse_address,
    )
    .expect("loopback must be accepted");
    assert_eq!(config.bind_address, IpAddress::V6([0, 0, 0, 0, 0, 0, 0, 1]));
}

#[test]
fn invalid_bind_address_is_rejected_first() {
    let result = Config::from_reader(
        |name| {
            Ok(Some(match name {
                "BIND_ADDRESS" => "not-an-address".to_owned(),
                _ => "0".to_owned(),
            }))
        },
        parse_address,
    );
    assert_eq!(result, Err(ConfigError::Invalid { name: "BIND_ADDRESS" }));
}

#[test]
fn first_failing_setting_is_reported_and_reading_stops() {
    let seen = std::cell::RefCell::new(Vec::new());
    let result = Config::from_reader(
        |name| {
            seen.borrow_mut().push(name);
            Ok(match name {
                "REQUEST_TIMEOUT_SECONDS" => Some("3601".to_owned()),
                "MAX_REQUEST_BODY_BYTES" => Some("0".to_owned()),
                _ => None,
            })
        },
        parse_address,
    );
    assert_eq!(
        result,
        Err(ConfigError::TooLarge {
            name: "REQUEST_TIMEOUT_SECONDS",
            maximum: "3600".to_owned(),
        })
    );
    assert_eq!(
        *seen.borrow(),
        vec!["BIND_ADDRESS", "PORT", "REQUEST_TIMEOUT_SECONDS"]
    );
}

#[test]
fn port_beyond_sixteen_bits_is_invalid() {
    let result = Config::from_reader(
        |name| Ok((name == "PORT").then_some("65536".to_owned())),
        parse_address,
    );
    assert_eq!(result, Err(ConfigError::Invalid { name: "PORT" }));

    let config = Config::from_reader(
        |name| Ok((name == "PORT").then_some("65535".to_owned())),
        parse_address,
    )
    .expect("largest port is valid");
    assert_eq!(config.port, 65535);
}

#[test]
fn body_limit_above_maximum_is_rejected() {
    let result = Config::from_reader(
        |name| Ok((name == "MAX_REQUEST_BODY_BYTES").then_some("16777217".to_owned())),
        parse_address,
    );
    assert_eq!(
        result,
        Err(ConfigError::TooLarge {
            name: "MAX_REQUEST_BODY_BYTES",
            maximum: "16777216".to_owned(),
        })
    );
}

#[test]
fn zero_shutdown_timeout_is_rejected() {
    let result = Config::from_reader(
        |name| Ok((name == "SHUTDOWN_TIMEOUT_SECONDS").then_some("0".to_owned())),
        parse_address,
    );
    assert_eq!(
        result,
        Err(ConfigError::Zero {
            name: "SHUTDOWN_TIMEOUT_SECONDS"
        })
    );
}

#[test]
fn lookup_error_is_passed_on() {
    let result = Config::from_reader(
        |name| {
            if name == "SHUTDOWN_TIMEOUT_SECONDS" {
                Err(ConfigError::Invalid { name })
            } else {
                Ok(None)
            }
        },
        parse_address,
    );
    assert_eq!(
        result,
        Err(ConfigError::Invalid {
            name: "SHUTDOWN_TIMEOUT_SECONDS"
        })
    );
}

#[test]
fn error_messages_name_the_variable() {
    assert_eq!(
        ConfigError::Invalid { name: "PORT" }.message(),
        "environment variable PORT has an invalid value"
    );
    assert_eq!(
        ConfigError::TooLarge {
            name: "MAX_CONCURRENT_REQUESTS",
            maximum: "10000".to_owned(),
        }
        .message(),
        "environment variable MAX_CONCURRENT_REQUESTS must not exceed 10000"
    );
    assert_eq!(
        ConfigError::Zero { name: "PORT" }.message(),
        "environment variable PORT must be greater than zero"
    );
}
