//! The error kinds that the client reports.
use vstd::prelude::*;

verus! {

/// A failure, by kind, with a message that describes it.
#[derive(Debug)]
pub enum FireboltError {
    Authentication(String),
    Network(String),
    Query(String),
    Serialization(String),
    Configuration(String),
    HeaderParsing(String),
    Unknown(String),
}

impl FireboltError {
    /// The message of the error, after the name of its kind.
    pub fn message(&self) -> (r: String)
        ensures
            r@ == self.text()@,
    {
        match self {
            FireboltError::Authentication(m) => m.clone(),
            FireboltError::Network(m) => m.clone(),
            FireboltError::Query(m) => m.clone(),
            FireboltError::Serialization(m) => m.clone(),
            FireboltError::Configuration(m) => m.clone(),
            FireboltError::HeaderParsing(m) => m.clone(),
            FireboltError::Unknown(m) => m.clone(),
        }
    }

    pub open spec fn text(self) -> String {
        match self {
            FireboltError::Authentication(m) => m,
            FireboltError::Network(m) => m,
            FireboltError::Query(m) => m,
            FireboltError::Serialization(m) => m,
            FireboltError::Configuration(m) => m,
            FireboltError::HeaderParsing(m) => m,
            FireboltError::Unknown(m) => m,
        }
    }
}

} // verus!
