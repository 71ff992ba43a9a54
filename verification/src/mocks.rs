//! Stand-ins for the server client, used to exercise the terminal interface
//! without a running server.
use vstd::prelude::*;
use std::time::Duration;

verus! {

/// A client that answers without a server.
#[derive(Debug)]
pub struct MockAerolithsClient {
    pub url: String,
}

impl MockAerolithsClient {
    /// A stand-in client for `url`; it never fails and ignores the timeout.
    pub fn new(url: String, timeout: Option<Duration>) -> (r: Result<Self, String>)
        ensures
            r matches Ok(c) && c.url@ == url@,
    {
        Ok(MockAerolithsClient { url })
    }

    /// The stand-in server is always healthy.
    pub fn health_check(&self) -> (b: bool)
        ensures
            b,
    {
        true
    }
}

/// The simplest stand-in client.
#[derive(Debug)]
pub struct MockClient {
    pub url: String,
}

impl MockClient {
    /// A stand-in client for `url`; it never fails and ignores the timeout.
    pub fn new(url: String, timeout: Option<Duration>) -> (r: Result<Self, String>)
        ensures
            r matches Ok(c) && c.url@ == url@,
    {
        Ok(MockClient { url })
    }

    /// The stand-in server is always healthy.
    pub fn health_check(&self) -> (b: bool)
        ensures
            b,
    {
        true
    }
}

} // verus!
