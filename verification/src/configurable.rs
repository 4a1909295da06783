//! Settings that the environment may override, with lenient fallback.

use vstd::prelude::*;
use vstd::string::*;
use crate::decimal::{parse_u64, parsed_u64};

verus! {

/// A setting of type `T`: the environment variable that may override it,
/// and the value it has otherwise.
pub struct ConfigurableItem<T> {
    pub environment_variable: &'static str,
    pub default_value: T,
}

/// What the environment holds under a name, as a sequence of characters.
pub open spec fn supplied_text(supplied: Option<&str>) -> Option<Seq<char>> {
    match supplied {
        Some(text) => Some(text@),
        None => None,
    }
}

/// Reading of a truth value: `true` and `false`, spelled exactly so.
pub open spec fn parsed_bool(text: Seq<char>) -> Option<bool> {
    if text == "true"@ {
        Some(true)
    } else if text == "false"@ {
        Some(false)
    } else {
        None
    }
}

/// The effective text: the override where there is one.
pub open spec fn resolved_text(supplied: Option<Seq<char>>, default_value: Seq<char>) -> Seq<char> {
    match supplied {
        Some(text) => text,
        None => default_value,
    }
}

/// The effective number: the override where it is there and reads as a
/// number, the default otherwise.
pub open spec fn resolved_u64(supplied: Option<Seq<char>>, default_value: u64) -> u64 {
    match supplied {
        Some(text) => match parsed_u64(text) {
            Some(value) => value,
            None => default_value,
        },
        None => default_value,
    }
}

/// The effective truth value: the override where it is there and reads as
/// one, the default otherwise.
pub open spec fn resolved_bool(supplied: Option<Seq<char>>, default_value: bool) -> bool {
    match supplied {
        Some(text) => match parsed_bool(text) {
            Some(value) => value,
            None => default_value,
        },
        None => default_value,
    }
}

/// The effective value of a setting of type `T`.
pub trait ConfigurableValue<T> {
    /// `value` is what the setting comes to when the environment holds
    /// `supplied` under its name.
    spec fn resolves_to(&self, supplied: Option<Seq<char>>, value: T) -> bool;

    /// Resolves the setting against what the environment holds under
    /// `environment_variable`, `None` standing for a variable that is not
    /// set. An override that cannot be read never fails: the default
    /// stands in.
    fn value(&self, supplied: Option<&str>) -> (value: T)
        ensures
            self.resolves_to(supplied_text(supplied), value),
    ;
}

impl ConfigurableValue<String> for ConfigurableItem<&'static str> {
    open spec fn resolves_to(&self, supplied: Option<Seq<char>>, value: String) -> bool {
        value@ == resolved_text(supplied, self.default_value@)
    }

    fn value(&self, supplied: Option<&str>) -> (value: String) {
        match supplied {
            Some(text) => String::from_str(text),
            None => String::from_str(self.default_value),
        }
    }
}

impl ConfigurableValue<u64> for ConfigurableItem<u64> {
    open spec fn resolves_to(&self, supplied: Option<Seq<char>>, value: u64) -> bool {
        value == resolved_u64(supplied, self.default_value)
    }

    fn value(&self, supplied: Option<&str>) -> (value: u64) {
        match supplied {
            Some(text) => match parse_u64(text) {
                Some(value) => value,
                None => self.default_value,
            },
            None => self.default_value,
        }
    }
}

/// Reads a truth value; `None` for anything but `true` and `false`.
pub fn parse_bool(text: &str) -> (value: Option<bool>)
    ensures
        value == parsed_bool(text@),
{
    let owned = String::from_str(text);
    if owned == String::from_str("true") {
        Some(true)
    } else if owned == String::from_str("false") {
        Some(false)
    } else {
        None
    }
}

impl ConfigurableValue<bool> for ConfigurableItem<bool> {
    open spec fn resolves_to(&self, supplied: Option<Seq<char>>, value: bool) -> bool {
        value == resolved_bool(supplied, self.default_value)
    }

    fn value(&self, supplied: Option<&str>) -> (value: bool) {
        match supplied {
            Some(text) => match parse_bool(text) {
                Some(value) => value,
                None => self.default_value,
            },
            None => self.default_value,
        }
    }
}

} // verus!
