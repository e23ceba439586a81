//! The closed set of failure kinds surfaced to callers.

use vstd::prelude::*;
use vstd::string::StringExecFns;

verus! {

/// Every way a request against the store can fail.
///
/// `ServerError` carries the failure text verbatim; `DBNotFoundError` carries
/// the name of the database the server did not recognise.
#[derive(Debug)]
pub enum SeismicError {
    /// The server reported a failure that fits no more specific kind.
    ServerError(String),
    /// The server reported that the named database does not exist.
    DBNotFoundError(String),
    /// Connecting, reconnecting, or reading or writing a frame failed,
    /// including a reply cut short before its declared length.
    ConnectionError,
    /// A payload could not be decoded (for example, it was not valid UTF-8).
    SerialError,
    /// A snapshot reply was not valid JSON.
    JsonError,
}

impl PartialEq for SeismicError {
    fn eq(&self, other: &SeismicError) -> (r: bool) {
        match (self, other) {
            (SeismicError::ServerError(a), SeismicError::ServerError(b)) => a.eq(b),
            (SeismicError::DBNotFoundError(a), SeismicError::DBNotFoundError(b)) => a.eq(b),
            (SeismicError::ConnectionError, SeismicError::ConnectionError) => true,
            (SeismicError::SerialError, SeismicError::SerialError) => true,
            (SeismicError::JsonError, SeismicError::JsonError) => true,
            _ => false,
        }
    }
}

impl vstd::std_specs::cmp::PartialEqSpecImpl for SeismicError {
    open spec fn obeys_eq_spec() -> bool {
        true
    }

    open spec fn eq_spec(&self, other: &SeismicError) -> bool {
        match (self, other) {
            (SeismicError::ServerError(a), SeismicError::ServerError(b)) => a@ == b@,
            (SeismicError::DBNotFoundError(a), SeismicError::DBNotFoundError(b)) => a@ == b@,
            (SeismicError::ConnectionError, SeismicError::ConnectionError) => true,
            (SeismicError::SerialError, SeismicError::SerialError) => true,
            (SeismicError::JsonError, SeismicError::JsonError) => true,
            _ => false,
        }
    }
}

impl SeismicError {
    /// A short human-readable account of the failure: the carried text for
    /// the two text-bearing kinds, a fixed phrase otherwise.
    pub fn description(&self) -> (r: String)
        ensures
            match self {
                SeismicError::ServerError(m) => r@ == m@,
                SeismicError::DBNotFoundError(n) => r@ == n@,
                SeismicError::ConnectionError => r@ == "Error connecting to seismicdb"@,
                SeismicError::SerialError => r@ == "Error serializing/deserializing"@,
                SeismicError::JsonError => r@ == "Error serializing/deserializing json"@,
            },
    {
        match self {
            SeismicError::ServerError(m) => m.clone(),
            SeismicError::DBNotFoundError(n) => n.clone(),
            SeismicError::ConnectionError => String::from_str("Error connecting to seismicdb"),
            SeismicError::SerialError => String::from_str("Error serializing/deserializing"),
            SeismicError::JsonError => String::from_str("Error serializing/deserializing json"),
        }
    }

    /// The display form of the failure: the kind's name, with the carried
    /// text appended for the two text-bearing kinds.
    pub fn display_string(&self) -> (r: String)
        ensures
            match self {
                SeismicError::ServerError(m) => r@ == "SeismicError: "@ + m@,
                SeismicError::DBNotFoundError(n) => r@ == "DBNotFoundError: "@ + n@,
                SeismicError::ConnectionError => r@ == "ConnectionError"@,
                SeismicError::SerialError => r@ == "SerialError"@,
                SeismicError::JsonError => r@ == "JsonError"@,
            },
    {
        match self {
            SeismicError::ServerError(m) => {
                let mut s = String::from_str("SeismicError: ");
                s.append(m.as_str());
                s
            },
            SeismicError::DBNotFoundError(n) => {
                let mut s = String::from_str("DBNotFoundError: ");
                s.append(n.as_str());
                s
            },
            SeismicError::ConnectionError => String::from_str("ConnectionError"),
            SeismicError::SerialError => String::from_str("SerialError"),
            SeismicError::JsonError => String::from_str("JsonError"),
        }
    }
}

} // verus!
