//! What holds of reading the settings, whatever the environment holds.
use vstd::prelude::*;

use crate::config::{
    config_outcome, default_config, setting_name, steps_taken, within_bounds, Config,
    ConfigErrorView, IpAddress, DEFAULT_MAX_CONCURRENT_REQUESTS, DEFAULT_MAX_REQUEST_BODY_BYTES,
    DEFAULT_PORT, DEFAULT_REQUEST_TIMEOUT_SECONDS, DEFAULT_SHUTDOWN_TIMEOUT_SECONDS,
    MAX_CONCURRENT_REQUESTS_LIMIT, MAX_REQUEST_BODY_BYTES_LIMIT, MAX_REQUEST_TIMEOUT_SECONDS,
    MAX_SHUTDOWN_TIMEOUT_SECONDS,
};
use crate::decimal::{decimal_at_most, decimal_digits, unsigned_decimal};
use crate::setting::{setting_outcome, LookupView};
use crate::lifecycle::{transition, RunOutcome, ServerAction, ServerEvent, ServerState};

verus! {

/// The maximum of the limit read in step `i` (steps 2 to 5).
pub open spec fn step_maximum(i: int) -> nat {
    if i == 2 {
        MAX_REQUEST_TIMEOUT_SECONDS as nat
    } else if i == 3 {
        MAX_CONCURRENT_REQUESTS_LIMIT as nat
    } else if i == 4 {
        MAX_REQUEST_BODY_BYTES_LIMIT as nat
    } else {
        MAX_SHUTDOWN_TIMEOUT_SECONDS as nat
    }
}

/// The defaults lie within the bounds: every limit is finite and above zero.
pub proof fn lemma_defaults_within_bounds()
    ensures
        within_bounds(default_config()),
{
}

/// Where no environment variable is set, the settings are the defaults.
pub proof fn lemma_unset_gives_defaults(lookups: Seq<LookupView>, parsed: Option<IpAddress>)
    requires
        lookups.len() == 6,
        forall|i: int| 0 <= i < 6 ==> #[trigger] lookups[i] == Ok::<Option<Seq<char>>, ConfigErrorView>(None),
    ensures
        config_outcome(lookups, parsed) == Ok::<Config, ConfigErrorView>(default_config()),
{
    assert(lookups[0] == Ok::<Option<Seq<char>>, ConfigErrorView>(None));
    assert(lookups[1] == Ok::<Option<Seq<char>>, ConfigErrorView>(None));
    assert(lookups[2] == Ok::<Option<Seq<char>>, ConfigErrorView>(None));
    assert(lookups[3] == Ok::<Option<Seq<char>>, ConfigErrorView>(None));
    assert(lookups[4] == Ok::<Option<Seq<char>>, ConfigErrorView>(None));
    assert(lookups[5] == Ok::<Option<Seq<char>>, ConfigErrorView>(None));
}

/// Settings that are read without error lie within the bounds.
pub proof fn lemma_accepted_within_bounds(lookups: Seq<LookupView>, parsed: Option<IpAddress>)
    requires
        lookups.len() == 6,
        config_outcome(lookups, parsed) is Ok,
    ensures
        within_bounds(config_outcome(lookups, parsed)->Ok_0),
{
}

/// A value that is given is used as given, never replaced by the default; a
/// setting that is not given takes its default.
pub proof fn lemma_given_values_are_used(lookups: Seq<LookupView>, parsed: Option<IpAddress>)
    requires
        lookups.len() == 6,
        config_outcome(lookups, parsed) is Ok,
    ensures
        ({
            let c = config_outcome(lookups, parsed)->Ok_0;
            &&& lookups[0] matches Ok(Some(_)) ==> parsed == Some(c.bind_address)
            &&& lookups[0] matches Ok(None) ==> c.bind_address == IpAddress::spec_unspecified_v4()
            &&& lookups[1] matches Ok(Some(t)) ==> unsigned_decimal(t) == Some(c.port as nat)
            &&& lookups[1] matches Ok(None) ==> c.port == DEFAULT_PORT
            &&& lookups[2] matches Ok(Some(t)) ==> unsigned_decimal(t) == Some(
                c.request_timeout_seconds as nat,
            )
            &&& lookups[2] matches Ok(None) ==> c.request_timeout_seconds
                == DEFAULT_REQUEST_TIMEOUT_SECONDS
            &&& lookups[3] matches Ok(Some(t)) ==> unsigned_decimal(t) == Some(
                c.max_concurrent_requests as nat,
            )
            &&& lookups[3] matches Ok(None) ==> c.max_concurrent_requests
                == DEFAULT_MAX_CONCURRENT_REQUESTS
            &&& lookups[4] matches Ok(Some(t)) ==> unsigned_decimal(t) == Some(
                c.max_request_body_bytes as nat,
            )
            &&& lookups[4] matches Ok(None) ==> c.max_request_body_bytes
                == DEFAULT_MAX_REQUEST_BODY_BYTES
            &&& lookups[5] matches Ok(Some(t)) ==> unsigned_decimal(t) == Some(
                c.shutdown_timeout_seconds as nat,
            )
            &&& lookups[5] matches Ok(None) ==> c.shutdown_timeout_seconds
                == DEFAULT_SHUTDOWN_TIMEOUT_SECONDS
        }),
{
}

/// A rejected value is not echoed: any two values that are not numerals in
/// range give the same error, which names only the setting.
pub proof fn lemma_rejected_value_not_echoed(
    name: Seq<char>,
    first: Seq<char>,
    second: Seq<char>,
    default: nat,
    largest: nat,
)
    requires
        decimal_at_most(first, largest) is None,
        decimal_at_most(second, largest) is None,
    ensures
        setting_outcome(Ok(Some(first)), name, default, largest) == setting_outcome(
            Ok(Some(second)),
            name,
            default,
            largest,
        ),
        setting_outcome(Ok(Some(first)), name, default, largest) == Err::<nat, ConfigErrorView>(
            ConfigErrorView::Invalid { name },
        ),
{
}

/// Every error is either one that a lookup gave, or one that names the setting
/// of a step and holds nothing else but, for a value above its maximum, that
/// maximum.
pub proof fn lemma_errors_name_the_setting(lookups: Seq<LookupView>, parsed: Option<IpAddress>)
    requires
        lookups.len() == 6,
        config_outcome(lookups, parsed) is Err,
    ensures
        ({
            let e = config_outcome(lookups, parsed)->Err_0;
            exists|i: int|
                0 <= i < 6 && {
                    ||| #[trigger] lookups[i] == Err::<Option<Seq<char>>, ConfigErrorView>(e)
                    ||| e == ConfigErrorView::Invalid { name: setting_name(i)@ }
                    ||| e == ConfigErrorView::Zero { name: setting_name(i)@ }
                    ||| e == ConfigErrorView::TooLarge {
                        name: setting_name(i)@,
                        maximum: decimal_digits(step_maximum(i)),
                    }
                }
        }),
{
    let k = steps_taken(lookups, parsed) - 1;
    assert(0 <= k < 6);
    assert(lookups[k] == lookups[k]);
}

/// The variables are read in the documented order, each step its own variable:
/// `BIND_ADDRESS`, `PORT`, `REQUEST_TIMEOUT_SECONDS`,
/// `MAX_CONCURRENT_REQUESTS`, `MAX_REQUEST_BODY_BYTES`,
/// `SHUTDOWN_TIMEOUT_SECONDS`.
pub proof fn lemma_reading_order()
    ensures
        setting_name(0) == "BIND_ADDRESS",
        setting_name(1) == "PORT",
        setting_name(2) == "REQUEST_TIMEOUT_SECONDS",
        setting_name(3) == "MAX_CONCURRENT_REQUESTS",
        setting_name(4) == "MAX_REQUEST_BODY_BYTES",
        setting_name(5) == "SHUTDOWN_TIMEOUT_SECONDS",
{
}

/// Whether a lookup leaves the setting unset, or gives a decimal numeral whose
/// number lies between `low` and `high`.
pub open spec fn acceptable(lookup: LookupView, low: nat, high: nat) -> bool {
    ||| lookup == Ok::<Option<Seq<char>>, ConfigErrorView>(None)
    ||| (lookup matches Ok(Some(t)) && unsigned_decimal(t) matches Some(v) && low <= v <= high)
}

/// The number a lookup gives, or `default` where it leaves the setting unset.
pub open spec fn given_or(lookup: LookupView, default: nat) -> nat {
    match lookup {
        Ok(Some(t)) => match unsigned_decimal(t) {
            Some(v) => v,
            None => default,
        },
        _ => default,
    }
}

/// Reading the settings succeeds exactly when no lookup fails, the address is
/// unset or parses, the port is a numeral from 1 to 65535, and each limit is a
/// numeral from 1 to its maximum (or unset); the settings then hold the parsed
/// address (or `0.0.0.0`) and each number as given (or its default).
pub proof fn lemma_success_exactly_when_valid(lookups: Seq<LookupView>, parsed: Option<IpAddress>)
    requires
        lookups.len() == 6,
    ensures
        (config_outcome(lookups, parsed) is Ok) <==> ({
            &&& (lookups[0] == Ok::<Option<Seq<char>>, ConfigErrorView>(None) || (lookups[0] matches Ok(
                Some(_),
            ) && parsed is Some))
            &&& acceptable(lookups[1], 1, 65535)
            &&& acceptable(lookups[2], 1, 3600)
            &&& acceptable(lookups[3], 1, 10000)
            &&& acceptable(lookups[4], 1, 16777216)
            &&& acceptable(lookups[5], 1, 300)
        }),
        config_outcome(lookups, parsed) is Ok ==> config_outcome(lookups, parsed)->Ok_0 == (Config {
            bind_address: if lookups[0] matches Ok(Some(_)) {
                parsed->0
            } else {
                IpAddress::V4([0u8, 0u8, 0u8, 0u8])
            },
            port: given_or(lookups[1], 8080) as u16,
            request_timeout_seconds: given_or(lookups[2], 30) as u64,
            max_concurrent_requests: given_or(lookups[3], 256) as usize,
            max_request_body_bytes: given_or(lookups[4], 1048576) as usize,
            shutdown_timeout_seconds: given_or(lookups[5], 30) as u64,
        }),
{
}

/// A given address that parses is the address the server binds to, whatever
/// address it is, as long as the other settings are valid.
pub proof fn lemma_parsed_address_is_used(
    lookups: Seq<LookupView>,
    text: Seq<char>,
    address: IpAddress,
)
    requires
        lookups.len() == 6,
        lookups[0] == Ok::<Option<Seq<char>>, ConfigErrorView>(Some(text)),
        acceptable(lookups[1], 1, 65535),
        acceptable(lookups[2], 1, 3600),
        acceptable(lookups[3], 1, 10000),
        acceptable(lookups[4], 1, 16777216),
        acceptable(lookups[5], 1, 300),
    ensures
        config_outcome(lookups, Some(address)) is Ok,
        config_outcome(lookups, Some(address))->Ok_0.bind_address == address,
{
    lemma_success_exactly_when_valid(lookups, Some(address));
}

/// Any port from 1 to 65535 is accepted and used as given, where the other
/// settings are valid.
pub proof fn lemma_every_nonzero_port_accepted(
    lookups: Seq<LookupView>,
    parsed: Option<IpAddress>,
    text: Seq<char>,
    port: nat,
)
    requires
        lookups.len() == 6,
        lookups[0] == Ok::<Option<Seq<char>>, ConfigErrorView>(None),
        lookups[1] == Ok::<Option<Seq<char>>, ConfigErrorView>(Some(text)),
        unsigned_decimal(text) == Some(port),
        1 <= port <= 65535,
        acceptable(lookups[2], 1, 3600),
        acceptable(lookups[3], 1, 10000),
        acceptable(lookups[4], 1, 16777216),
        acceptable(lookups[5], 1, 300),
    ensures
        config_outcome(lookups, parsed) is Ok,
        config_outcome(lookups, parsed)->Ok_0.port == port,
{
    lemma_success_exactly_when_valid(lookups, parsed);
}

/// A shutdown request while serving starts draining with exactly the
/// configured deadline, and a missed deadline then reports that same deadline,
/// whatever deadline is configured by then.
pub proof fn lemma_drain_uses_configured_deadline(timeout: u64, later_timeout: u64)
    ensures
        transition(ServerState::Serving, ServerEvent::ShutdownSignal { succeeded: true }, timeout)
            == (ServerState::Draining { deadline_seconds: timeout }, ServerAction::BeginShutdown {
            deadline_seconds: timeout,
        }),
        transition(
            ServerState::Draining { deadline_seconds: timeout },
            ServerEvent::DeadlineElapsed,
            later_timeout,
        ).1 == ServerAction::Exit(RunOutcome::ShutdownDeadline { timeout_seconds: timeout }),
{
}

/// The error a numeric setting's lookup calls for, if any: the lookup's own
/// error; for a text that is no numeral, or whose number does not fit in the
/// setting's type (`largest`), an invalid value; for zero, a zero value; above
/// `maximum`, a value that is too large, reported with the maximum's numeral.
pub open spec fn numeral_error(lookup: LookupView, name: Seq<char>, largest: nat, maximum: nat) -> Option<
    ConfigErrorView,
> {
    match lookup {
        Err(e) => Some(e),
        Ok(None) => None,
        Ok(Some(t)) => match unsigned_decimal(t) {
            None => Some(ConfigErrorView::Invalid { name }),
            Some(v) => if v > largest {
                Some(ConfigErrorView::Invalid { name })
            } else if v == 0 {
                Some(ConfigErrorView::Zero { name })
            } else if v > maximum {
                Some(ConfigErrorView::TooLarge { name, maximum: decimal_digits(maximum) })
            } else {
                None
            },
        },
    }
}

/// The error the address lookup calls for, if any.
pub open spec fn address_error(lookup: LookupView, parsed: Option<IpAddress>) -> Option<
    ConfigErrorView,
> {
    match lookup {
        Err(e) => Some(e),
        Ok(None) => None,
        Ok(Some(_)) => if parsed is Some {
            None
        } else {
            Some(ConfigErrorView::Invalid { name: "BIND_ADDRESS"@ })
        },
    }
}

/// The error of the first variable, in the order `BIND_ADDRESS`, `PORT`,
/// `REQUEST_TIMEOUT_SECONDS`, `MAX_CONCURRENT_REQUESTS`,
/// `MAX_REQUEST_BODY_BYTES`, `SHUTDOWN_TIMEOUT_SECONDS`, that calls for one.
pub open spec fn first_error(lookups: Seq<LookupView>, parsed: Option<IpAddress>) -> Option<
    ConfigErrorView,
> {
    let errors = seq![
        address_error(lookups[0], parsed),
        numeral_error(lookups[1], "PORT"@, 65535, 65535),
        numeral_error(lookups[2], "REQUEST_TIMEOUT_SECONDS"@, u64::MAX as nat, 3600),
        numeral_error(lookups[3], "MAX_CONCURRENT_REQUESTS"@, usize::MAX as nat, 10000),
        numeral_error(lookups[4], "MAX_REQUEST_BODY_BYTES"@, usize::MAX as nat, 16777216),
        numeral_error(lookups[5], "SHUTDOWN_TIMEOUT_SECONDS"@, u64::MAX as nat, 300),
    ];
    if errors[0] is Some {
        errors[0]
    } else if errors[1] is Some {
        errors[1]
    } else if errors[2] is Some {
        errors[2]
    } else if errors[3] is Some {
        errors[3]
    } else if errors[4] is Some {
        errors[4]
    } else {
        errors[5]
    }
}

/// Reading the settings fails exactly when some variable calls for an error,
/// and then with the error of the first such variable in reading order.
pub proof fn lemma_first_error_reported(lookups: Seq<LookupView>, parsed: Option<IpAddress>)
    requires
        lookups.len() == 6,
    ensures
        (config_outcome(lookups, parsed) is Err) <==> (first_error(lookups, parsed) is Some),
        config_outcome(lookups, parsed) is Err ==> first_error(lookups, parsed) == Some(
            config_outcome(lookups, parsed)->Err_0,
        ),
{
}

/// Whatever the state and the configured deadline, a server that stops by
/// itself ends the run: completed without an error, failed with one.
pub proof fn lemma_server_stop_ends_run(state: ServerState, succeeded: bool, timeout: u64)
    ensures
        transition(state, ServerEvent::ServerStopped { succeeded }, timeout).1 == ServerAction::Exit(
            if succeeded {
                RunOutcome::Completed
            } else {
                RunOutcome::ServeFailed
            },
        ),
{
}

/// A failure to listen for a shutdown request while serving ends the run with
/// that failure; a further shutdown request while draining changes nothing;
/// a deadline passing while serving changes nothing.
pub proof fn lemma_other_events(deadline: u64, succeeded: bool, timeout: u64)
    ensures
        transition(ServerState::Serving, ServerEvent::ShutdownSignal { succeeded: false }, timeout)
            == (ServerState::Serving, ServerAction::Exit(RunOutcome::SignalFailed)),
        transition(
            ServerState::Draining { deadline_seconds: deadline },
            ServerEvent::ShutdownSignal { succeeded },
            timeout,
        ) == (ServerState::Draining { deadline_seconds: deadline }, ServerAction::Wait),
        transition(ServerState::Serving, ServerEvent::DeadlineElapsed, timeout) == (
            ServerState::Serving,
            ServerAction::Wait,
        ),
{
}

/// A leading `+` does not change a numeral's number, nor do leading zeros;
/// text holding any character that is not an ASCII digit (past a leading `+`)
/// is no numeral, and neither is empty text or a lone `+`.
pub proof fn lemma_numeral_syntax(n: nat, s: Seq<char>, i: int)
    ensures
        unsigned_decimal(seq!['+'] + decimal_digits(n)) == Some(n),
        unsigned_decimal(seq!['0'] + decimal_digits(n)) == Some(n),
        unsigned_decimal(Seq::<char>::empty()) is None,
        unsigned_decimal(seq!['+']) is None,
        (0 < i < s.len() && !('0' <= s[i] && s[i] <= '9')) ==> unsigned_decimal(s) is None,
        (s.len() > 0 && s[0] != '+' && !('0' <= s[0] && s[0] <= '9')) ==> unsigned_decimal(s) is None,
{
    crate::decimal::lemma_decimal_digits_shape(n);
    let d = decimal_digits(n);
    assert((seq!['+'] + d).drop_first() =~= d);
    let z = seq!['0'] + d;
    assert(crate::decimal::all_digits(z)) by {
        assert forall|k: int| 0 <= k < z.len() implies crate::decimal::is_ascii_digit(#[trigger] z[k]) by {
            if k > 0 {
                assert(z[k] == d[k - 1]);
            }
        }
    }
    crate::decimal::lemma_leading_zero(d);
    if 0 < i < s.len() && !('0' <= s[i] && s[i] <= '9') {
        let digits = crate::decimal::unsigned_digits(s);
        if s[0] == '+' {
            assert(digits[i - 1] == s[i]);
        } else {
            assert(digits[i] == s[i]);
        }
    }
    if s.len() > 0 && s[0] != '+' && !('0' <= s[0] && s[0] <= '9') {
        assert(crate::decimal::unsigned_digits(s)[0] == s[0]);
    }
}

} // verus!
