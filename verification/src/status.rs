//! Classification of an HTTP status code into the three classes the
//! client distinguishes: success, client error, and everything else.

use vstd::prelude::*;

verus! {

/// The three response classes the client reacts to.
#[derive(Clone, Copy, PartialEq, Eq, Structural, Debug)]
pub enum StatusClass {
    /// A 2xx status: the body is expected to hold a weather report.
    Success,
    /// A 4xx status: the body is expected to hold an error message.
    ClientError,
    /// Any other status (1xx, 3xx, 5xx, or out of range): no body is read.
    Other,
}

/// Sort an HTTP status code into the class that decides how the
/// response is handled.
pub fn classify_status(code: u16) -> (c: StatusClass)
    ensures
        c == StatusClass::Success <==> 200 <= code <= 299,
        c == StatusClass::ClientError <==> 400 <= code <= 499,
        c == StatusClass::Other <==> !(200 <= code <= 299 || 400 <= code <= 499),
{
    if 200 <= code && code <= 299 {
        StatusClass::Success
    } else if 400 <= code && code <= 499 {
        StatusClass::ClientError
    } else {
        StatusClass::Other
    }
}

} // verus!
