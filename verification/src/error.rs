use vstd::prelude::*;

verus! {

/// Why a request was not turned into a delegated signing call.
///
/// A failure of the signing service itself is not among these: it comes
/// after the call was issued, and the host hands it to the caller as it is.
#[derive(Clone, Copy, Debug, PartialEq, Eq, Structural)]
pub enum SignError {
    /// The caller's previous admitted request is at most one window old.
    RateLimited,
    /// The payload is not an even number of hexadecimal digits.
    MalformedPayload,
}

impl SignError {
    /// The text shown to the caller for this error.
    pub fn message(&self) -> (text: &'static str)
        ensures
            text@ == (match *self {
                SignError::RateLimited => "Cannot make more than one call per minute"@,
                SignError::MalformedPayload => "Payload is not valid hexadecimal"@,
            }),
    {
        match self {
            SignError::RateLimited => "Cannot make more than one call per minute",
            SignError::MalformedPayload => "Payload is not valid hexadecimal",
        }
    }
}

} // verus!
