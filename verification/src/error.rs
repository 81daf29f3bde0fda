//! The errors of the argument parser and of the data client.

use vstd::prelude::*;
use vstd::string::StringExecFns;

verus! {

/// Possible errors while parsing the arguments of a table.
#[derive(Debug, PartialEq, Eq, Structural)]
pub enum ArgumentError {
    /// No IMSI is provided.
    NoImsi,
    /// Invalid `from` is provided.
    InvalidFrom,
    /// Invalid `to` is provided.
    InvalidTo,
    /// Invalid `limit` is provided. It should be from 1 to 1000.
    InvalidLimit,
    /// Unknown option is provided.
    UnknownOption,
}

impl ArgumentError {
    /// The message that describes the error to a reader.
    pub open spec fn message(self) -> Seq<char> {
        match self {
            ArgumentError::NoImsi => "No IMSI is provided"@,
            ArgumentError::InvalidFrom => "Invalid 'from' is provided"@,
            ArgumentError::InvalidTo => "Invalid 'to' is provided"@,
            ArgumentError::InvalidLimit => "Invalid 'limit' is provided. It should be from 1 to 1000"@,
            ArgumentError::UnknownOption => "Unknown option is provided"@,
        }
    }

    /// Returns the message that describes the error.
    pub fn to_string(&self) -> (message: String)
        ensures
            message@ == self.message(),
    {
        match self {
            ArgumentError::NoImsi => String::from_str("No IMSI is provided"),
            ArgumentError::InvalidFrom => String::from_str("Invalid 'from' is provided"),
            ArgumentError::InvalidTo => String::from_str("Invalid 'to' is provided"),
            ArgumentError::InvalidLimit => String::from_str(
                "Invalid 'limit' is provided. It should be from 1 to 1000",
            ),
            ArgumentError::UnknownOption => String::from_str("Unknown option is provided"),
        }
    }
}

/// Possible errors of the data client.
#[derive(Debug, PartialEq, Eq)]
pub enum SoracomHarvestClientError {
    /// Failed to authenticate with auth key ID and auth key secret given.
    Auth,
    /// Invalid limit is provided. It should be from 1 to 1000.
    InvalidLimit,
    /// The request could not be carried out; the text says why.
    Request(String),
    /// The response was not the JSON that was expected; the text says why.
    Json(String),
}

impl Clone for SoracomHarvestClientError {
    fn clone(&self) -> (copy: Self)
        ensures
            copy == *self,
    {
        match self {
            SoracomHarvestClientError::Auth => SoracomHarvestClientError::Auth,
            SoracomHarvestClientError::InvalidLimit => SoracomHarvestClientError::InvalidLimit,
            SoracomHarvestClientError::Request(why) => SoracomHarvestClientError::Request(why.clone()),
            SoracomHarvestClientError::Json(why) => SoracomHarvestClientError::Json(why.clone()),
        }
    }
}

impl SoracomHarvestClientError {
    /// The message that describes the error to a reader.
    pub open spec fn message(self) -> Seq<char> {
        match self {
            SoracomHarvestClientError::Auth => "Failed to authenticate with auth key ID and auth key secret given"@,
            SoracomHarvestClientError::InvalidLimit => "Invalid limit is provided. It should be from 1 to 1000"@,
            SoracomHarvestClientError::Request(why) => why@,
            SoracomHarvestClientError::Json(why) => why@,
        }
    }

    /// Returns the message that describes the error.
    pub fn to_string(&self) -> (message: String)
        ensures
            message@ == self.message(),
    {
        match self {
            SoracomHarvestClientError::Auth => String::from_str(
                "Failed to authenticate with auth key ID and auth key secret given",
            ),
            SoracomHarvestClientError::InvalidLimit => String::from_str(
                "Invalid limit is provided. It should be from 1 to 1000",
            ),
            SoracomHarvestClientError::Request(why) => why.clone(),
            SoracomHarvestClientError::Json(why) => why.clone(),
        }
    }
}

} // verus!
