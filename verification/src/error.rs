//! The two kinds of failure a test run can end in.

use vstd::prelude::*;
use vstd::string::*;

verus! {

/// Why a run failed. `Configuration` is a defect of the harness or of a test
/// definition; `User` is a defect of the program under test.
#[derive(Debug, Clone, PartialEq, Eq)]
pub enum TesterError {
    User(String),
    Configuration(String),
}

/// A `TesterError` as a plain value: its kind and the text of its message.
pub enum Failure {
    User(Seq<char>),
    Configuration(Seq<char>),
}

impl Failure {
    /// The text of the message, whatever the kind.
    pub open spec fn message(self) -> Seq<char> {
        match self {
            Failure::User(text) => text,
            Failure::Configuration(text) => text,
        }
    }

    /// The same kind of failure, with `suffix` appended to its message.
    pub open spec fn with_suffix(self, suffix: Seq<char>) -> Failure {
        match self {
            Failure::User(text) => Failure::User(text + suffix),
            Failure::Configuration(text) => Failure::Configuration(text + suffix),
        }
    }
}

impl View for TesterError {
    type V = Failure;

    open spec fn view(&self) -> Failure {
        match self {
            TesterError::User(text) => Failure::User(text@),
            TesterError::Configuration(text) => Failure::Configuration(text@),
        }
    }
}

/// The result of a check as a plain value.
pub open spec fn verdict(result: Result<(), TesterError>) -> Result<(), Failure> {
    match result {
        Ok(_) => Ok(()),
        Err(error) => Err(error@),
    }
}

impl TesterError {
    /// The text of the message.
    pub fn message(&self) -> (text: &str)
        ensures
            text@ == self@.message(),
    {
        match self {
            TesterError::User(text) => text.as_str(),
            TesterError::Configuration(text) => text.as_str(),
        }
    }

    /// The text of the message, as an owned string.
    pub fn to_string(&self) -> (text: String)
        ensures
            text@ == self@.message(),
    {
        String::from_str(self.message())
    }

    /// Whether the program under test is to blame.
    pub fn is_user(&self) -> (yes: bool)
        ensures
            yes == (self@ is User),
    {
        match self {
            TesterError::User(_) => true,
            TesterError::Configuration(_) => false,
        }
    }

    /// Whether the harness or a test definition is to blame.
    pub fn is_configuration(&self) -> (yes: bool)
        ensures
            yes == (self@ is Configuration),
    {
        match self {
            TesterError::User(_) => false,
            TesterError::Configuration(_) => true,
        }
    }

    /// The same kind of error, with `suffix` appended to its message.
    pub fn with_suffix(self, suffix: &str) -> (extended: TesterError)
        ensures
            extended@ == self@.with_suffix(suffix@),
    {
        match self {
            TesterError::User(text) => TesterError::User(text.concat(suffix)),
            TesterError::Configuration(text) => TesterError::Configuration(text.concat(suffix)),
        }
    }
}

} // verus!
