//! The error of the AI-assisted decision flow.

use vstd::prelude::*;

verus! {

/// Why an AI-assisted decision could not be made; each variant carries a
/// detail message.
#[derive(Clone, Debug, PartialEq, Eq)]
pub enum DecidingError {
    /// The AI provider failed or returned an unusable response.
    Ai(String),
    /// A (de)serialization failure.
    Serde(String),
    /// The output failed validation.
    Validation(String),
}

impl DecidingError {
    /// An AI-provider error with the given detail.
    pub fn ai(detail: &str) -> (e: Self)
        ensures
            e matches DecidingError::Ai(m) && m@ == detail@,
    {
        DecidingError::Ai(String::from_str(detail))
    }

    /// A (de)serialization error with the given detail.
    pub fn serde(detail: &str) -> (e: Self)
        ensures
            e matches DecidingError::Serde(m) && m@ == detail@,
    {
        DecidingError::Serde(String::from_str(detail))
    }

    /// A validation error with the given detail.
    pub fn validation(detail: &str) -> (e: Self)
        ensures
            e matches DecidingError::Validation(m) && m@ == detail@,
    {
        DecidingError::Validation(String::from_str(detail))
    }

    /// The detail message carried by the error.
    pub open spec fn detail(self) -> Seq<char> {
        match self {
            DecidingError::Ai(m) => m@,
            DecidingError::Serde(m) => m@,
            DecidingError::Validation(m) => m@,
        }
    }

    /// The detail message carried by the error.
    pub fn message(&self) -> (s: &str)
        ensures
            s@ == self.detail(),
    {
        match self {
            DecidingError::Ai(m) => m.as_str(),
            DecidingError::Serde(m) => m.as_str(),
            DecidingError::Validation(m) => m.as_str(),
        }
    }
}

} // verus!
