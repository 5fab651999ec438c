use vstd::prelude::*;
use vstd::string::StringExecFns;

verus! {

/// An HTTP request may ask for at most this many circles.
pub const MAX_REQUESTED_CIRCLES: u32 = 1000;

/// The amount of circles when a request names none.
pub const DEFAULT_REQUESTED_CIRCLES: u32 = 1;

/// The status code of a user error: Bad Request.
pub const BAD_REQUEST: u16 = 400;

/// An error of the HTTP service, reported to the client.
pub enum ApiError {
    User(String),
}

/// The message of a user error on a circle amount out of bounds.
pub open spec fn requested_amount_message() -> Seq<char> {
    "amount too big. max 1000"@
}

impl ApiError {
    /// The HTTP status code the error is answered with.
    pub fn status_code(&self) -> (r: u16)
        ensures
            r == (match self {
                ApiError::User(_) => BAD_REQUEST,
            }),
    {
        match self {
            ApiError::User(_) => BAD_REQUEST,
        }
    }
}

/// The amount of circles a request asks for: the default when it names none,
/// the amount when it is within the bound, a user error above it.
pub fn requested_circle_amount(amount: Option<u32>) -> (r: Result<u32, ApiError>)
    ensures
        amount is None ==> r == Ok::<u32, ApiError>(DEFAULT_REQUESTED_CIRCLES),
        amount is Some && amount->0 <= MAX_REQUESTED_CIRCLES ==> r == Ok::<u32, ApiError>(amount->0),
        amount is Some && amount->0 > MAX_REQUESTED_CIRCLES ==> (r matches Err(ApiError::User(m))
            && m@ == requested_amount_message()),
{
    match amount {
        Some(a) => {
            if a > MAX_REQUESTED_CIRCLES {
                Err(ApiError::User(String::from_str("amount too big. max 1000")))
            } else {
                Ok(a)
            }
        },
        None => Ok(DEFAULT_REQUESTED_CIRCLES),
    }
}

} // verus!
