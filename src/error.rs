//! Errors of requests to the registry.
use vstd::prelude::*;

verus! {

/// What went wrong.
#[derive(Clone, Copy, Debug, PartialEq, Eq, Structural)]
pub enum ErrorKind {
    /// The request did not complete: network failure or timeout.
    Transport,
    /// The server answered with an error, or with another body than expected.
    Server,
    /// The server's answer could not be decoded.
    Decode,
    /// No healthy instance of the service is known.
    NoHealthyInstance,
}

/// An error of a request to the registry, with the reason given for it.
#[derive(Debug)]
pub struct NacosError {
    pub kind: ErrorKind,
    pub reason: String,
}

impl NacosError {
    /// An error that the server reported, with its own words.
    pub fn throw(reason: &str) -> (r: NacosError)
        ensures
            r.kind == ErrorKind::Server,
            r.reason@ == reason@,
    {
        NacosError { kind: ErrorKind::Server, reason: reason.to_owned() }
    }

    /// An error of the given kind.
    pub fn new(kind: ErrorKind, reason: &str) -> (r: NacosError)
        ensures
            r.kind == kind,
            r.reason@ == reason@,
    {
        NacosError { kind, reason: reason.to_owned() }
    }

    /// The error for a service with no healthy instance.
    pub fn no_healthy_instance() -> (r: NacosError)
        ensures
            r.kind == ErrorKind::NoHealthyInstance,
            r.reason@ == "server have not instance"@,
    {
        NacosError::new(ErrorKind::NoHealthyInstance, "server have not instance")
    }

    pub fn kind(&self) -> (r: ErrorKind)
        ensures
            r == self.kind,
    {
        self.kind
    }

    pub fn reason(&self) -> (r: &str)
        ensures
            r@ == self.reason@,
    {
        self.reason.as_str()
    }
}

/// Accepts a reply whose body is exactly `expected`; any other body is a
/// server error that carries the body as its reason.
pub fn expect_body(body: String, expected: &str) -> (r: Result<(), NacosError>)
    ensures
        r is Ok <==> body@ == expected@,
        r matches Err(e) ==> e.kind == ErrorKind::Server && e.reason@ == body@,
{
    if body == expected.to_owned() {
        Ok(())
    } else {
        Err(NacosError { kind: ErrorKind::Server, reason: body })
    }
}

} // verus!
