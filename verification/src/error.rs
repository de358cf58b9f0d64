//! The error taxonomy: configuration errors are fatal and carry an exact
//! message; everything else in this library degrades silently instead of
//! erring.

use vstd::prelude::*;

verus! {

/// A fatal error surfaced to the user.
#[derive(Debug)]
pub enum Error {
    /// Reading or writing the config file failed.
    IO(String),
    /// The config file held text that does not parse.
    Parse(String),
    /// A flag or config-file field is out of range.
    InvalidConfig(String),
}

impl Error {
    /// The message shown to the user: the text each variant carries.
    pub fn message(&self) -> (r: &str)
        ensures
            r@ == self.message_spec(),
    {
        match self {
            Error::IO(m) => m.as_str(),
            Error::Parse(m) => m.as_str(),
            Error::InvalidConfig(m) => m.as_str(),
        }
    }

    /// The text each variant carries.
    pub open spec fn message_spec(&self) -> Seq<char> {
        match self {
            Error::IO(m) => m@,
            Error::Parse(m) => m@,
            Error::InvalidConfig(m) => m@,
        }
    }
}

} // verus!
