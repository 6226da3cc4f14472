//! The crate's error type.

use vstd::prelude::*;

use crate::text::join2;

verus! {

#[derive(Clone, Debug)]
pub enum IntakeError {
    /// AI provider failed or returned an unusable response.
    Ai(String),
    /// (De)serialization failure.
    Serde(String),
    /// Output failed validation (missing or invalid fields).
    Validation(String),
}

impl IntakeError {
    pub fn ai(msg: &str) -> (r: Self)
        ensures
            r matches IntakeError::Ai(m) && m@ == msg@,
    {
        IntakeError::Ai(msg.to_owned())
    }

    pub fn serde(msg: &str) -> (r: Self)
        ensures
            r matches IntakeError::Serde(m) && m@ == msg@,
    {
        IntakeError::Serde(msg.to_owned())
    }

    pub fn validation(msg: &str) -> (r: Self)
        ensures
            r matches IntakeError::Validation(m) && m@ == msg@,
    {
        IntakeError::Validation(msg.to_owned())
    }

    /// The human-readable rendering: the kind, a colon, then the message.
    pub open spec fn text(&self) -> Seq<char> {
        match self {
            IntakeError::Ai(m) => "ai: "@ + m@,
            IntakeError::Serde(m) => "serde: "@ + m@,
            IntakeError::Validation(m) => "validation: "@ + m@,
        }
    }

    /// Renders the error as `ai: ..`, `serde: ..` or `validation: ..`.
    pub fn to_string(&self) -> (r: String)
        ensures
            r@ == self.text(),
    {
        match self {
            IntakeError::Ai(m) => join2("ai: ", m.as_str()),
            IntakeError::Serde(m) => join2("serde: ", m.as_str()),
            IntakeError::Validation(m) => join2("validation: ", m.as_str()),
        }
    }
}

} // verus!
