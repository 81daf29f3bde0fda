//! The coverage regions of the remote service and the endpoint that serves each.

use vstd::prelude::*;
use vstd::std_specs::convert::FromSpecImpl;
use vstd::string::StringExecFns;

use crate::text::{ascii_lowered, chars_of, lowered_is};

verus! {

/// Endpoint of the remote API, chosen by the coverage of the device.
#[derive(Debug, PartialEq, Eq, Structural)]
pub enum Endpoint {
    /// Global coverage
    Global,
    /// Japan coverage
    Japan,
}

/// The region that a coverage name selects: `jp` and `japan`, in any mix of
/// ASCII upper and lower case, select Japan; every other name selects the
/// global region.
pub open spec fn endpoint_named(name: Seq<char>) -> Endpoint {
    let lowered = ascii_lowered(name);
    if lowered == seq!['j', 'p'] || lowered == seq!['j', 'a', 'p', 'a', 'n'] {
        Endpoint::Japan
    } else {
        Endpoint::Global
    }
}

impl Endpoint {
    /// The base URL of the region, as a sequence of characters.
    pub open spec fn url(self) -> Seq<char> {
        match self {
            Endpoint::Global => "https://g.api.soracom.io"@,
            Endpoint::Japan => "https://api.soracom.io"@,
        }
    }

    /// Returns the base URL of the endpoint.
    pub fn as_str(&self) -> (url: &str)
        ensures
            url@ == self.url(),
    {
        match self {
            Endpoint::Global => "https://g.api.soracom.io",
            Endpoint::Japan => "https://api.soracom.io",
        }
    }

    /// Returns the base URL of the endpoint as an owned string.
    pub fn to_string(&self) -> (url: String)
        ensures
            url@ == self.url(),
    {
        String::from_str(self.as_str())
    }
}

impl Default for Endpoint {
    fn default() -> (endpoint: Self)
        ensures
            endpoint == Endpoint::Global,
    {
        Endpoint::Global
    }
}

impl Clone for Endpoint {
    fn clone(&self) -> (copy: Self)
        ensures
            copy == *self,
    {
        match self {
            Endpoint::Global => Endpoint::Global,
            Endpoint::Japan => Endpoint::Japan,
        }
    }
}

impl<'a> From<&'a str> for Endpoint {
    fn from(s: &'a str) -> (endpoint: Self)
        ensures
            endpoint == endpoint_named(s@),
    {
        let chars = chars_of(s);
        if lowered_is(&chars, &vec!['j', 'p']) || lowered_is(&chars, &vec!['j', 'a', 'p', 'a', 'n']) {
            Endpoint::Japan
        } else {
            Endpoint::Global
        }
    }
}

impl<'a> FromSpecImpl<&'a str> for Endpoint {
    open spec fn obeys_from_spec() -> bool {
        true
    }

    open spec fn from_spec(s: &'a str) -> Self {
        endpoint_named(s@)
    }
}

impl From<String> for Endpoint {
    fn from(s: String) -> (endpoint: Self)
        ensures
            endpoint == endpoint_named(s@),
    {
        Endpoint::from(s.as_str())
    }
}

impl FromSpecImpl<String> for Endpoint {
    open spec fn obeys_from_spec() -> bool {
        true
    }

    open spec fn from_spec(s: String) -> Self {
        endpoint_named(s@)
    }
}

} // verus!
