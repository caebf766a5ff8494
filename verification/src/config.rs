//! The server's settings, their defaults and bounds, and how they are read.
use vstd::prelude::*;

use crate::setting::{
    bounded, bounded_outcome, lookup_view, numeric_result, parse_or_default, positive,
    positive_outcome, setting_outcome, LookupView, SettingValue,
};

verus! {

/// Port on which the server listens by default.
pub const DEFAULT_PORT: u16 = 8080;

/// Seconds a request may take by default.
pub const DEFAULT_REQUEST_TIMEOUT_SECONDS: u64 = 30;

/// Requests served at the same time by default.
pub const DEFAULT_MAX_CONCURRENT_REQUESTS: usize = 256;

/// Bytes a request body may hold by default.
pub const DEFAULT_MAX_REQUEST_BODY_BYTES: usize = 1_048_576;

/// Seconds that a graceful shutdown may take by default.
pub const DEFAULT_SHUTDOWN_TIMEOUT_SECONDS: u64 = 30;

/// Most seconds a request may be allowed.
pub const MAX_REQUEST_TIMEOUT_SECONDS: u64 = 3_600;

/// Most requests that may be allowed at the same time.
pub const MAX_CONCURRENT_REQUESTS_LIMIT: usize = 10_000;

/// Most bytes a request body may be allowed.
pub const MAX_REQUEST_BODY_BYTES_LIMIT: usize = 16 * 1_048_576;

/// Most seconds a graceful shutdown may be allowed.
pub const MAX_SHUTDOWN_TIMEOUT_SECONDS: u64 = 300;

/// Why the settings could not be read. An error names the setting, never the
/// value that was given for it.
#[derive(Clone, Debug, PartialEq, Eq)]
pub enum ConfigError {
    /// The setting's value could not be read or does not parse.
    Invalid { name: &'static str },
    /// The setting's value is above its maximum.
    TooLarge { name: &'static str, maximum: String },
    /// The setting's value is zero.
    Zero { name: &'static str },
}

/// A [`ConfigError`] as plain values.
pub enum ConfigErrorView {
    Invalid { name: Seq<char> },
    TooLarge { name: Seq<char>, maximum: Seq<char> },
    Zero { name: Seq<char> },
}

impl View for ConfigError {
    type V = ConfigErrorView;

    open spec fn view(&self) -> ConfigErrorView {
        match self {
            ConfigError::Invalid { name } => ConfigErrorView::Invalid { name: name@ },
            ConfigError::TooLarge { name, maximum } => ConfigErrorView::TooLarge {
                name: name@,
                maximum: maximum@,
            },
            ConfigError::Zero { name } => ConfigErrorView::Zero { name: name@ },
        }
    }
}

/// The text of an error as it is shown to an operator: the setting's name and,
/// for a value above its maximum, that maximum.
pub open spec fn error_message(e: ConfigErrorView) -> Seq<char> {
    match e {
        ConfigErrorView::Invalid { name } => "environment variable "@ + name
            + " has an invalid value"@,
        ConfigErrorView::TooLarge { name, maximum } => "environment variable "@ + name
            + " must not exceed "@ + maximum,
        ConfigErrorView::Zero { name } => "environment variable "@ + name
            + " must be greater than zero"@,
    }
}

impl ConfigError {
    /// The text of the error as it is shown to an operator.
    pub fn message(&self) -> (res: String)
        ensures
            res@ == error_message(self@),
    {
        let mut text = String::from_str("environment variable ");
        match self {
            ConfigError::Invalid { name } => {
                text.append(name);
                text.append(" has an invalid value");
            },
            ConfigError::TooLarge { name, maximum } => {
                text.append(name);
                text.append(" must not exceed ");
                text.append(maximum.as_str());
            },
            ConfigError::Zero { name } => {
                text.append(name);
                text.append(" must be greater than zero");
            },
        }
        text
    }
}

/// An IP address, as its octets (version 4) or its segments (version 6).
#[derive(Clone, Copy, Debug, PartialEq, Eq)]
pub enum IpAddress {
    V4([u8; 4]),
    V6([u16; 8]),
}

impl IpAddress {
    /// The version 4 address that stands for every interface.
    pub open spec fn spec_unspecified_v4() -> IpAddress {
        IpAddress::V4([0u8, 0u8, 0u8, 0u8])
    }

    /// The version 4 address that stands for every interface, `0.0.0.0`.
    #[verifier::when_used_as_spec(spec_unspecified_v4)]
    pub fn unspecified_v4() -> (res: IpAddress)
        ensures
            res == IpAddress::spec_unspecified_v4(),
    {
        IpAddress::V4([0u8, 0u8, 0u8, 0u8])
    }
}

/// The settings with which the server runs.
#[derive(Clone, Copy, Debug, PartialEq, Eq)]
pub struct Config {
    /// Address on which the server listens.
    pub bind_address: IpAddress,
    /// Port on which the server listens.
    pub port: u16,
    /// Seconds a request may take until its response is complete.
    pub request_timeout_seconds: u64,
    /// Requests served at the same time; any more are refused, not queued.
    pub max_concurrent_requests: usize,
    /// Bytes a request body may hold.
    pub max_request_body_bytes: usize,
    /// Seconds a graceful shutdown may take before connections are closed.
    pub shutdown_timeout_seconds: u64,
}

/// The settings where nothing overrides a default: `0.0.0.0:8080`, and every
/// limit finite.
pub open spec fn default_config() -> Config {
    Config {
        bind_address: IpAddress::spec_unspecified_v4(),
        port: DEFAULT_PORT,
        request_timeout_seconds: DEFAULT_REQUEST_TIMEOUT_SECONDS,
        max_concurrent_requests: DEFAULT_MAX_CONCURRENT_REQUESTS,
        max_request_body_bytes: DEFAULT_MAX_REQUEST_BODY_BYTES,
        shutdown_timeout_seconds: DEFAULT_SHUTDOWN_TIMEOUT_SECONDS,
    }
}

/// Whether every setting lies within its bounds: no limit is zero and none is
/// above its maximum.
pub open spec fn within_bounds(c: Config) -> bool {
    &&& c.port >= 1
    &&& 1 <= c.request_timeout_seconds <= MAX_REQUEST_TIMEOUT_SECONDS
    &&& 1 <= c.max_concurrent_requests <= MAX_CONCURRENT_REQUESTS_LIMIT
    &&& 1 <= c.max_request_body_bytes <= MAX_REQUEST_BODY_BYTES_LIMIT
    &&& 1 <= c.shutdown_timeout_seconds <= MAX_SHUTDOWN_TIMEOUT_SECONDS
}

impl Default for Config {
    fn default() -> (res: Config)
        ensures
            res == default_config(),
    {
        Config {
            bind_address: IpAddress::unspecified_v4(),
            port: DEFAULT_PORT,
            request_timeout_seconds: DEFAULT_REQUEST_TIMEOUT_SECONDS,
            max_concurrent_requests: DEFAULT_MAX_CONCURRENT_REQUESTS,
            max_request_body_bytes: DEFAULT_MAX_REQUEST_BODY_BYTES,
            shutdown_timeout_seconds: DEFAULT_SHUTDOWN_TIMEOUT_SECONDS,
        }
    }
}

/// The environment variable from which the setting read in step `i` comes.
pub open spec fn setting_name(i: int) -> &'static str {
    if i == 0 {
        "BIND_ADDRESS"
    } else if i == 1 {
        "PORT"
    } else if i == 2 {
        "REQUEST_TIMEOUT_SECONDS"
    } else if i == 3 {
        "MAX_CONCURRENT_REQUESTS"
    } else if i == 4 {
        "MAX_REQUEST_BODY_BYTES"
    } else {
        "SHUTDOWN_TIMEOUT_SECONDS"
    }
}

/// The address after its lookup and, where it was given, its parse: the
/// lookup's error, the unspecified version 4 address where it is unset, the
/// parsed address, or an error that names the setting.
pub open spec fn address_outcome(lookup: LookupView, parsed: Option<IpAddress>) -> Result<
    IpAddress,
    ConfigErrorView,
> {
    match lookup {
        Err(e) => Err(e),
        Ok(None) => Ok(IpAddress::spec_unspecified_v4()),
        Ok(Some(_)) => match parsed {
            Some(a) => Ok(a),
            None => Err(ConfigErrorView::Invalid { name: "BIND_ADDRESS"@ }),
        },
    }
}

/// The port after its lookup: a `u16` that is not zero, `8080` where unset.
pub open spec fn port_outcome(lookup: LookupView) -> Result<nat, ConfigErrorView> {
    match setting_outcome(lookup, "PORT"@, DEFAULT_PORT as nat, u16::MAX as nat) {
        Err(e) => Err(e),
        Ok(v) => positive_outcome("PORT"@, v),
    }
}

/// A limit after its lookup: a number of its type between one and `maximum`,
/// `default` where unset.
pub open spec fn limit_outcome(
    lookup: LookupView,
    name: Seq<char>,
    default: nat,
    largest: nat,
    maximum: nat,
) -> Result<nat, ConfigErrorView> {
    match setting_outcome(lookup, name, default, largest) {
        Err(e) => Err(e),
        Ok(v) => bounded_outcome(name, v, maximum),
    }
}

/// The outcome of step `i` of reading the settings, from the lookups and the
/// parse of the address; the number read (zero for the address step).
pub open spec fn step_outcome(lookups: Seq<LookupView>, parsed: Option<IpAddress>, i: int) -> Result<
    nat,
    ConfigErrorView,
> {
    if i == 0 {
        match address_outcome(lookups[0], parsed) {
            Err(e) => Err(e),
            Ok(_) => Ok(0),
        }
    } else if i == 1 {
        port_outcome(lookups[1])
    } else if i == 2 {
        limit_outcome(
            lookups[2],
            "REQUEST_TIMEOUT_SECONDS"@,
            DEFAULT_REQUEST_TIMEOUT_SECONDS as nat,
            u64::MAX as nat,
            MAX_REQUEST_TIMEOUT_SECONDS as nat,
        )
    } else if i == 3 {
        limit_outcome(
            lookups[3],
            "MAX_CONCURRENT_REQUESTS"@,
            DEFAULT_MAX_CONCURRENT_REQUESTS as nat,
            usize::MAX as nat,
            MAX_CONCURRENT_REQUESTS_LIMIT as nat,
        )
    } else if i == 4 {
        limit_outcome(
            lookups[4],
            "MAX_REQUEST_BODY_BYTES"@,
            DEFAULT_MAX_REQUEST_BODY_BYTES as nat,
            usize::MAX as nat,
            MAX_REQUEST_BODY_BYTES_LIMIT as nat,
        )
    } else {
        limit_outcome(
            lookups[5],
            "SHUTDOWN_TIMEOUT_SECONDS"@,
            DEFAULT_SHUTDOWN_TIMEOUT_SECONDS as nat,
            u64::MAX as nat,
            MAX_SHUTDOWN_TIMEOUT_SECONDS as nat,
        )
    }
}

/// How many of the steps are taken: the steps stop at the first that fails.
pub open spec fn steps_taken(lookups: Seq<LookupView>, parsed: Option<IpAddress>) -> int {
    if step_outcome(lookups, parsed, 0) is Err {
        1
    } else if step_outcome(lookups, parsed, 1) is Err {
        2
    } else if step_outcome(lookups, parsed, 2) is Err {
        3
    } else if step_outcome(lookups, parsed, 3) is Err {
        4
    } else if step_outcome(lookups, parsed, 4) is Err {
        5
    } else {
        6
    }
}

/// The settings from the lookups of the six environment variables, in order,
/// and the parse of the address: the first step that fails gives the error;
/// where none fails, each setting holds what its step read.
pub open spec fn config_outcome(lookups: Seq<LookupView>, parsed: Option<IpAddress>) -> Result<
    Config,
    ConfigErrorView,
> {
    if steps_taken(lookups, parsed) < 6 || step_outcome(lookups, parsed, 5) is Err {
        Err(step_outcome(lookups, parsed, steps_taken(lookups, parsed) - 1)->Err_0)
    } else {
        Ok(
            Config {
                bind_address: address_outcome(lookups[0], parsed)->Ok_0,
                port: step_outcome(lookups, parsed, 1)->Ok_0 as u16,
                request_timeout_seconds: step_outcome(lookups, parsed, 2)->Ok_0 as u64,
                max_concurrent_requests: step_outcome(lookups, parsed, 3)->Ok_0 as usize,
                max_request_body_bytes: step_outcome(lookups, parsed, 4)->Ok_0 as usize,
                shutdown_timeout_seconds: step_outcome(lookups, parsed, 5)->Ok_0 as u64,
            },
        )
    }
}

/// A result of reading the settings as plain values.
pub open spec fn config_result(res: Result<Config, ConfigError>) -> Result<Config, ConfigErrorView> {
    match res {
        Ok(c) => Ok(c),
        Err(e) => Err(e@),
    }
}

/// An address result as plain values.
pub open spec fn address_result(res: Result<IpAddress, ConfigError>) -> Result<
    IpAddress,
    ConfigErrorView,
> {
    match res {
        Ok(a) => Ok(a),
        Err(e) => Err(e@),
    }
}

/// Whether `parsed` is what `parse_address` gave for the text of the address
/// lookup, where that lookup gave a text.
pub open spec fn address_parsed_by<P>(
    parse_address: P,
    lookup: Result<Option<String>, ConfigError>,
    parsed: Option<IpAddress>,
) -> bool where P: Fn(&str) -> Option<IpAddress> {
    lookup matches Ok(Some(text)) ==> exists|t: &str|
        t@ == text@ && #[trigger] parse_address.ensures((t,), parsed)
}

/// The lookups as plain values.
pub open spec fn lookup_views(lookups: Seq<Result<Option<String>, ConfigError>>) -> Seq<LookupView> {
    lookups.map_values(|l: Result<Option<String>, ConfigError>| lookup_view(l))
}

/// Whether `lookups` and `parsed` are what `read` and `parse_address` gave in
/// the steps that were taken, for the environment variable of each step.
pub open spec fn observed<R, P>(
    read: R,
    parse_address: P,
    lookups: Seq<Result<Option<String>, ConfigError>>,
    parsed: Option<IpAddress>,
) -> bool where
    R: Fn(&'static str) -> Result<Option<String>, ConfigError>,
    P: Fn(&str) -> Option<IpAddress>,
 {
    &&& lookups.len() == 6
    &&& forall|i: int|
        0 <= i < steps_taken(lookup_views(lookups), parsed) ==> read.ensures(
            (setting_name(i),),
            #[trigger] lookups[i],
        )
    &&& address_parsed_by(parse_address, lookups[0], parsed)
}

/// Looks the bind address up with `read` and parses it with `parse_address`,
/// falling back to `0.0.0.0` where it is unset.
pub fn bind_address_or_default<R, P>(read: &R, parse_address: &P) -> (res: Result<
    IpAddress,
    ConfigError,
>) where
    R: Fn(&'static str) -> Result<Option<String>, ConfigError>,
    P: Fn(&str) -> Option<IpAddress>,

    requires
        read.requires(("BIND_ADDRESS",)),
        forall|t: &str| #[trigger] parse_address.requires((t,)),
    ensures
        exists|lookup: Result<Option<String>, ConfigError>, parsed: Option<IpAddress>|
            {
                &&& #[trigger] read.ensures(("BIND_ADDRESS",), lookup)
                &&& #[trigger] address_parsed_by(*parse_address, lookup, parsed)
                &&& address_result(res) == address_outcome(lookup_view(lookup), parsed)
            },
{
    let lookup = read("BIND_ADDRESS");
    let ghost seen = lookup;
    match lookup {
        Err(e) => {
            assert(address_parsed_by(*parse_address, seen, None));
            Err(e)
        },
        Ok(None) => {
            assert(address_parsed_by(*parse_address, seen, None));
            Ok(IpAddress::unspecified_v4())
        },
        Ok(Some(text)) => {
            let t = text.as_str();
            let parsed = parse_address(t);
            assert(address_parsed_by(*parse_address, seen, parsed));
            match parsed {
                Some(a) => Ok(a),
                None => Err(ConfigError::Invalid { name: "BIND_ADDRESS" }),
            }
        },
    }
}

/// Once the first `taken` steps are known to be what `read` and
/// `parse_address` gave, and no later step was taken, the lookups are observed.
proof fn lemma_observed<R, P>(
    read: R,
    parse_address: P,
    lookups: Seq<Result<Option<String>, ConfigError>>,
    parsed: Option<IpAddress>,
    taken: int,
) where
    R: Fn(&'static str) -> Result<Option<String>, ConfigError>,
    P: Fn(&str) -> Option<IpAddress>,

    requires
        lookups.len() == 6,
        1 <= taken <= 6,
        forall|i: int| 0 <= i < taken ==> read.ensures((setting_name(i),), #[trigger] lookups[i]),
        address_parsed_by(parse_address, lookups[0], parsed),
        steps_taken(lookup_views(lookups), parsed) <= taken,
    ensures
        observed(read, parse_address, lookups, parsed),
{
}

impl Config {
    /// Reads the settings through `read`, which gives each environment
    /// variable's value (or `None` where it is unset), and parses the address
    /// with `parse_address`. The variables are read in the order
    /// `BIND_ADDRESS`, `PORT`, `REQUEST_TIMEOUT_SECONDS`,
    /// `MAX_CONCURRENT_REQUESTS`, `MAX_REQUEST_BODY_BYTES`,
    /// `SHUTDOWN_TIMEOUT_SECONDS`; the first that fails gives the error.
    pub fn from_reader<R, P>(read: R, parse_address: P) -> (res: Result<Config, ConfigError>) where
        R: Fn(&'static str) -> Result<Option<String>, ConfigError>,
        P: Fn(&str) -> Option<IpAddress>,

        requires
            forall|name: &'static str| #[trigger] read.requires((name,)),
            forall|t: &str| #[trigger] parse_address.requires((t,)),
        ensures
            exists|lookups: Seq<Result<Option<String>, ConfigError>>, parsed: Option<IpAddress>|
                {
                    &&& #[trigger] observed(read, parse_address, lookups, parsed)
                    &&& config_result(res) == config_outcome(lookup_views(lookups), parsed)
                },
            res matches Ok(c) ==> within_bounds(c),
    {
        let ghost unset: Result<Option<String>, ConfigError> = Ok(None);

        let address = bind_address_or_default(&read, &parse_address);
        let ghost (l0, parsed) = choose|
            l: Result<Option<String>, ConfigError>,
            p: Option<IpAddress>,
        |
            {
                &&& read.ensures(("BIND_ADDRESS",), l)
                &&& address_parsed_by(parse_address, l, p)
                &&& address_result(address) == address_outcome(lookup_view(l), p)
            };
        let bind_address = match address {
            Ok(a) => a,
            Err(e) => {
                proof {
                    let lookups = seq![l0, unset, unset, unset, unset, unset];
                    assert(lookup_views(lookups)[0] == lookup_view(l0));
                    lemma_observed(read, parse_address, lookups, parsed, 1);
                }
                return Err(e);
            },
        };

        let port = parse_or_default(&read, "PORT", DEFAULT_PORT);
        let ghost l1 = choose|l: Result<Option<String>, ConfigError>|
            {
                &&& read.ensures(("PORT",), l)
                &&& numeric_result(port) == setting_outcome(
                    lookup_view(l),
                    "PORT"@,
                    DEFAULT_PORT as nat,
                    u16::MAX as nat,
                )
            };
        let port = match port {
            Ok(v) => positive("PORT", v),
            Err(e) => Err(e),
        };
        let port = match port {
            Ok(v) => v,
            Err(e) => {
                proof {
                    let lookups = seq![l0, l1, unset, unset, unset, unset];
                    assert(lookup_views(lookups)[0] == lookup_view(l0));
                    assert(lookup_views(lookups)[1] == lookup_view(l1));
                    lemma_observed(read, parse_address, lookups, parsed, 2);
                }
                return Err(e);
            },
        };

        let request_timeout_seconds = parse_or_default(&read, "REQUEST_TIMEOUT_SECONDS", DEFAULT_REQUEST_TIMEOUT_SECONDS);
        let ghost l2 = choose|l: Result<Option<String>, ConfigError>|
            {
                &&& read.ensures(("REQUEST_TIMEOUT_SECONDS",), l)
                &&& numeric_result(request_timeout_seconds) == setting_outcome(
                    lookup_view(l),
                    "REQUEST_TIMEOUT_SECONDS"@,
                    DEFAULT_REQUEST_TIMEOUT_SECONDS as nat,
                    u64::MAX as nat,
                )
            };
        let request_timeout_seconds = match request_timeout_seconds {
            Ok(v) => bounded("REQUEST_TIMEOUT_SECONDS", v, MAX_REQUEST_TIMEOUT_SECONDS),
            Err(e) => Err(e),
        };
        let request_timeout_seconds = match request_timeout_seconds {
            Ok(v) => v,
            Err(e) => {
                proof {
                    let lookups = seq![l0, l1, l2, unset, unset, unset];
                    assert(lookup_views(lookups)[0] == lookup_view(l0));
                    assert(lookup_views(lookups)[1] == lookup_view(l1));
                    assert(lookup_views(lookups)[2] == lookup_view(l2));
                    lemma_observed(read, parse_address, lookups, parsed, 3);
                }
                return Err(e);
            },
        };

        let max_concurrent_requests = parse_or_default(&read, "MAX_CONCURRENT_REQUESTS", DEFAULT_MAX_CONCURRENT_REQUESTS);
        let ghost l3 = choose|l: Result<Option<String>, ConfigError>|
            {
                &&& read.ensures(("MAX_CONCURRENT_REQUESTS",), l)
                &&& numeric_result(max_concurrent_requests) == setting_outcome(
                    lookup_view(l),
                    "MAX_CONCURRENT_REQUESTS"@,
                    DEFAULT_MAX_CONCURRENT_REQUESTS as nat,
                    usize::MAX as nat,
                )
            };
        let max_concurrent_requests = match max_concurrent_requests {
            Ok(v) => bounded("MAX_CONCURRENT_REQUESTS", v, MAX_CONCURRENT_REQUESTS_LIMIT),
            Err(e) => Err(e),
        };
        let max_concurrent_requests = match max_concurrent_requests {
            Ok(v) => v,
            Err(e) => {
                proof {
                    let lookups = seq![l0, l1, l2, l3, unset, unset];
                    assert(lookup_views(lookups)[0] == lookup_view(l0));
                    assert(lookup_views(lookups)[1] == lookup_view(l1));
                    assert(lookup_views(lookups)[2] == lookup_view(l2));
                    assert(lookup_views(lookups)[3] == lookup_view(l3));
                    lemma_observed(read, parse_address, lookups, parsed, 4);
                }
                return Err(e);
            },
        };

        let max_request_body_bytes = parse_or_default(&read, "MAX_REQUEST_BODY_BYTES", DEFAULT_MAX_REQUEST_BODY_BYTES);
        let ghost l4 = choose|l: Result<Option<String>, ConfigError>|
            {
                &&& read.ensures(("MAX_REQUEST_BODY_BYTES",), l)
                &&& numeric_result(max_request_body_bytes) == setting_outcome(
                    lookup_view(l),
                    "MAX_REQUEST_BODY_BYTES"@,
                    DEFAULT_MAX_REQUEST_BODY_BYTES as nat,
                    usize::MAX as nat,
                )
            };
        let max_request_body_bytes = match max_request_body_bytes {
            Ok(v) => bounded("MAX_REQUEST_BODY_BYTES", v, MAX_REQUEST_BODY_BYTES_LIMIT),
            Err(e) => Err(e),
        };
        let max_request_body_bytes = match max_request_body_bytes {
            Ok(v) => v,
            Err(e) => {
                proof {
                    let lookups = seq![l0, l1, l2, l3, l4, unset];
                    assert(lookup_views(lookups)[0] == lookup_view(l0));
                    assert(lookup_views(lookups)[1] == lookup_view(l1));
                    assert(lookup_views(lookups)[2] == lookup_view(l2));
                    assert(lookup_views(lookups)[3] == lookup_view(l3));
                    assert(lookup_views(lookups)[4] == lookup_view(l4));
                    lemma_observed(read, parse_address, lookups, parsed, 5);
                }
                return Err(e);
            },
        };

        let shutdown_timeout_seconds = parse_or_default(&read, "SHUTDOWN_TIMEOUT_SECONDS", DEFAULT_SHUTDOWN_TIMEOUT_SECONDS);
        let ghost l5 = choose|l: Result<Option<String>, ConfigError>|
            {
                &&& read.ensures(("SHUTDOWN_TIMEOUT_SECONDS",), l)
                &&& numeric_result(shutdown_timeout_seconds) == setting_outcome(
                    lookup_view(l),
                    "SHUTDOWN_TIMEOUT_SECONDS"@,
                    DEFAULT_SHUTDOWN_TIMEOUT_SECONDS as nat,
                    u64::MAX as nat,
                )
            };
        let shutdown_timeout_seconds = match shutdown_timeout_seconds {
            Ok(v) => bounded("SHUTDOWN_TIMEOUT_SECONDS", v, MAX_SHUTDOWN_TIMEOUT_SECONDS),
            Err(e) => Err(e),
        };
        let shutdown_timeout_seconds = match shutdown_timeout_seconds {
            Ok(v) => v,
            Err(e) => {
                proof {
                    let lookups = seq![l0, l1, l2, l3, l4, l5];
                    assert(lookup_views(lookups)[0] == lookup_view(l0));
                    assert(lookup_views(lookups)[1] == lookup_view(l1));
                    assert(lookup_views(lookups)[2] == lookup_view(l2));
                    assert(lookup_views(lookups)[3] == lookup_view(l3));
                    assert(lookup_views(lookups)[4] == lookup_view(l4));
                    assert(lookup_views(lookups)[5] == lookup_view(l5));
                    lemma_observed(read, parse_address, lookups, parsed, 6);
                }
                return Err(e);
            },
        };

        let config = Config {
            bind_address,
            port,
            request_timeout_seconds,
            max_concurrent_requests,
            max_request_body_bytes,
            shutdown_timeout_seconds,
        };
        proof {
            let lookups = seq![l0, l1, l2, l3, l4, l5];
            assert(lookup_views(lookups)[0] == lookup_view(l0));
            assert(lookup_views(lookups)[1] == lookup_view(l1));
            assert(lookup_views(lookups)[2] == lookup_view(l2));
            assert(lookup_views(lookups)[3] == lookup_view(l3));
            assert(lookup_views(lookups)[4] == lookup_view(l4));
            assert(lookup_views(lookups)[5] == lookup_view(l5));
            lemma_observed(read, parse_address, lookups, parsed, 6);
        }
        Ok(config)
    }
}

} // verus!
