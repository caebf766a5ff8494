//! One setting at a time: reading it with a fallback to its default, and
//! checking it against zero and against its upper limit.
use vstd::prelude::*;

use crate::config::{ConfigError, ConfigErrorView};
use crate::decimal::{decimal_at_most, decimal_digits, decimal_text, parse_unsigned_at_most};

verus! {

/// An unsigned integer type in which a numeric setting is held.
pub trait SettingValue: Sized + Copy {
    /// The number that the value stands for.
    spec fn numeric(self) -> nat;

    /// The largest number that the type can hold.
    spec fn largest() -> nat;

    /// The value holding a number is determined by that number, and lies
    /// within the type's range.
    proof fn lemma_numeric(a: Self, b: Self)
        ensures
            a.numeric() <= Self::largest(),
            a.numeric() == b.numeric() ==> a == b,
    ;

    /// Reads a value written as an unsigned decimal numeral; `None` where the
    /// text is no such numeral or its number does not fit in the type.
    fn from_numeral(text: &str) -> (res: Option<Self>)
        ensures
            match decimal_at_most(text@, Self::largest()) {
                Some(v) => res is Some && res->0.numeric() == v,
                None => res is None,
            },
    ;

    /// Whether the value is zero.
    fn is_zero(&self) -> (res: bool)
        ensures
            res == (self.numeric() == 0),
    ;

    /// Whether the value is greater than `limit`.
    fn exceeds(&self, limit: &Self) -> (res: bool)
        ensures
            res == (self.numeric() > limit.numeric()),
    ;

    /// The shortest decimal numeral of the value.
    fn numeral(&self) -> (res: String)
        ensures
            res@ == decimal_digits(self.numeric()),
    ;
}

impl SettingValue for u16 {
    open spec fn numeric(self) -> nat {
        self as nat
    }

    open spec fn largest() -> nat {
        u16::MAX as nat
    }

    proof fn lemma_numeric(a: Self, b: Self) {
    }

    fn from_numeral(text: &str) -> (res: Option<Self>) {
        match parse_unsigned_at_most(text, u16::MAX as u64) {
            Some(v) => Some(v as u16),
            None => None,
        }
    }

    fn is_zero(&self) -> (res: bool) {
        *self == 0
    }

    fn exceeds(&self, limit: &Self) -> (res: bool) {
        *self > *limit
    }

    fn numeral(&self) -> (res: String) {
        decimal_text(*self as u64)
    }
}

impl SettingValue for u64 {
    open spec fn numeric(self) -> nat {
        self as nat
    }

    open spec fn largest() -> nat {
        u64::MAX as nat
    }

    proof fn lemma_numeric(a: Self, b: Self) {
    }

    fn from_numeral(text: &str) -> (res: Option<Self>) {
        parse_unsigned_at_most(text, u64::MAX)
    }

    fn is_zero(&self) -> (res: bool) {
        *self == 0
    }

    fn exceeds(&self, limit: &Self) -> (res: bool) {
        *self > *limit
    }

    fn numeral(&self) -> (res: String) {
        decimal_text(*self)
    }
}

impl SettingValue for usize {
    open spec fn numeric(self) -> nat {
        self as nat
    }

    open spec fn largest() -> nat {
        usize::MAX as nat
    }

    proof fn lemma_numeric(a: Self, b: Self) {
    }

    fn from_numeral(text: &str) -> (res: Option<Self>) {
        match parse_unsigned_at_most(text, usize::MAX as u64) {
            Some(v) => Some(v as usize),
            None => None,
        }
    }

    fn is_zero(&self) -> (res: bool) {
        *self == 0
    }

    fn exceeds(&self, limit: &Self) -> (res: bool) {
        *self > *limit
    }

    fn numeral(&self) -> (res: String) {
        decimal_text(*self as u64)
    }
}

/// What a lookup of one setting gave: an error, no value, or its text.
pub type LookupView = Result<Option<Seq<char>>, ConfigErrorView>;

/// The lookup result as plain values.
pub open spec fn lookup_view(lookup: Result<Option<String>, ConfigError>) -> LookupView {
    match lookup {
        Ok(Some(text)) => Ok(Some(text@)),
        Ok(None) => Ok(None),
        Err(e) => Err(e@),
    }
}

/// A numeric result as plain values.
pub open spec fn numeric_result<T: SettingValue>(res: Result<T, ConfigError>) -> Result<
    nat,
    ConfigErrorView,
> {
    match res {
        Ok(v) => Ok(v.numeric()),
        Err(e) => Err(e@),
    }
}

/// The setting `name` after its lookup: the lookup's error, the default where
/// it is unset, its number where the text is a decimal numeral that fits in
/// `largest`, and otherwise an error that names the setting and nothing else.
pub open spec fn setting_outcome(lookup: LookupView, name: Seq<char>, default: nat, largest: nat) -> Result<
    nat,
    ConfigErrorView,
> {
    match lookup {
        Err(e) => Err(e),
        Ok(None) => Ok(default),
        Ok(Some(text)) => match decimal_at_most(text, largest) {
            Some(v) => Ok(v),
            None => Err(ConfigErrorView::Invalid { name }),
        },
    }
}

/// A setting that must not be zero.
pub open spec fn positive_outcome(name: Seq<char>, value: nat) -> Result<nat, ConfigErrorView> {
    if value == 0 {
        Err(ConfigErrorView::Zero { name })
    } else {
        Ok(value)
    }
}

/// A setting that must lie between one and `maximum`.
pub open spec fn bounded_outcome(name: Seq<char>, value: nat, maximum: nat) -> Result<
    nat,
    ConfigErrorView,
> {
    if value == 0 {
        Err(ConfigErrorView::Zero { name })
    } else if value > maximum {
        Err(ConfigErrorView::TooLarge { name, maximum: decimal_digits(maximum) })
    } else {
        Ok(value)
    }
}

/// The setting `name` from what its lookup gave: `default` where it is unset.
pub fn setting_from_lookup<T: SettingValue>(
    lookup: Result<Option<String>, ConfigError>,
    name: &'static str,
    default: T,
) -> (res: Result<T, ConfigError>)
    ensures
        numeric_result(res) == setting_outcome(
            lookup_view(lookup),
            name@,
            default.numeric(),
            T::largest(),
        ),
        lookup_view(lookup) == Ok::<Option<Seq<char>>, ConfigErrorView>(None) ==> res == Ok::<
            T,
            ConfigError,
        >(default),
{
    match lookup {
        Err(e) => Err(e),
        Ok(None) => Ok(default),
        Ok(Some(text)) => match T::from_numeral(text.as_str()) {
            Some(v) => Ok(v),
            None => Err(ConfigError::Invalid { name }),
        },
    }
}

/// Looks the setting `name` up with `read` and reads its value, falling back to
/// `default` where it is unset.
pub fn parse_or_default<T: SettingValue, R>(read: &R, name: &'static str, default: T) -> (res: Result<
    T,
    ConfigError,
>) where R: Fn(&'static str) -> Result<Option<String>, ConfigError>
    requires
        read.requires((name,)),
    ensures
        exists|lookup: Result<Option<String>, ConfigError>|
            {
                &&& #[trigger] read.ensures((name,), lookup)
                &&& numeric_result(res) == setting_outcome(
                    lookup_view(lookup),
                    name@,
                    default.numeric(),
                    T::largest(),
                )
            },
{
    let lookup = read(name);
    let ghost seen = lookup;
    let res = setting_from_lookup(lookup, name, default);
    assert(read.ensures((name,), seen));
    res
}

/// Keeps `value` where it is not zero.
pub fn positive<T: SettingValue>(name: &'static str, value: T) -> (res: Result<T, ConfigError>)
    ensures
        numeric_result(res) == positive_outcome(name@, value.numeric()),
        res matches Ok(v) ==> v == value,
{
    if value.is_zero() {
        Err(ConfigError::Zero { name })
    } else {
        Ok(value)
    }
}

/// Keeps `value` where it lies between one and `maximum`; otherwise the error
/// names the setting and, for a value above it, the maximum.
pub fn bounded<T: SettingValue>(name: &'static str, value: T, maximum: T) -> (res: Result<
    T,
    ConfigError,
>)
    ensures
        numeric_result(res) == bounded_outcome(name@, value.numeric(), maximum.numeric()),
        res matches Ok(v) ==> v == value,
{
    let value = match positive(name, value) {
        Ok(v) => v,
        Err(e) => return Err(e),
    };
    if value.exceeds(&maximum) {
        Err(ConfigError::TooLarge { name, maximum: maximum.numeral() })
    } else {
        Ok(value)
    }
}

} // verus!
