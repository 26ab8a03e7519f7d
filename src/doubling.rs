//! The doubling operation and the replies of the two routes.
//!
//! Overflow policy: a value whose double does not fit in an `i32` is rejected
//! as a client error, like a body that could not be read.

use vstd::prelude::*;

verus! {

/// HTTP status of a successful reply.
pub const STATUS_OK: u16 = 200;

/// HTTP status of a reply to a request that the client got wrong.
pub const STATUS_BAD_REQUEST: u16 = 400;

/// The body of `POST /api/double`: `{"value": <integer>}`.
#[derive(Clone, Copy, Debug, PartialEq, Eq, Structural)]
pub struct InputValue {
    pub value: i32,
}

/// The body of a successful reply of `POST /api/double`: `{"result": <integer>}`.
#[derive(Clone, Copy, Debug, PartialEq, Eq, Structural)]
pub struct OutputValue {
    pub result: i32,
}

/// Why a request to `POST /api/double` was refused.
#[derive(Clone, Copy, Debug, PartialEq, Eq, Structural)]
pub enum RequestError {
    /// The body is missing, is not JSON, or lacks an integer `value`.
    MalformedBody,
    /// `value * 2` does not fit in an `i32`.
    OutOfRange,
}

/// The reply of `POST /api/double`.
#[derive(Clone, Copy, Debug, PartialEq, Eq, Structural)]
pub enum DoubleReply {
    Doubled(OutputValue),
    Rejected(RequestError),
}

/// Whether `x` is a value of `i32`.
pub open spec fn fits_i32(x: int) -> bool {
    i32::MIN <= x <= i32::MAX
}

/// The reply that a request body (`None` when it could not be read as an
/// `InputValue`) calls for.
pub open spec fn reply_for(body: Option<InputValue>) -> DoubleReply {
    match body {
        None => DoubleReply::Rejected(RequestError::MalformedBody),
        Some(input) => if fits_i32(2 * input.value) {
            DoubleReply::Doubled(OutputValue { result: (2 * input.value) as i32 })
        } else {
            DoubleReply::Rejected(RequestError::OutOfRange)
        },
    }
}

/// Doubles the value of a request: `Some` with `result == 2 * value` exactly
/// when that product is an `i32`, `None` otherwise.
pub fn double_value(input: InputValue) -> (r: Option<OutputValue>)
    ensures
        r is Some <==> fits_i32(2 * input.value),
        r is Some ==> r->0.result == 2 * input.value,
{
    match input.value.checked_mul(2) {
        Some(result) => Some(OutputValue { result }),
        None => None,
    }
}

/// Answers `POST /api/double` for a body that was read as `Some(input)`, or
/// could not be read (`None`).
pub fn respond_double(body: Option<InputValue>) -> (r: DoubleReply)
    ensures
        r == reply_for(body),
{
    match body {
        None => DoubleReply::Rejected(RequestError::MalformedBody),
        Some(input) => match double_value(input) {
            Some(output) => DoubleReply::Doubled(output),
            None => DoubleReply::Rejected(RequestError::OutOfRange),
        },
    }
}

/// The HTTP status of a reply: success for a doubled value, a client error
/// for a refused request.
pub open spec fn reply_status(reply: DoubleReply) -> u16 {
    match reply {
        DoubleReply::Doubled(_) => STATUS_OK,
        DoubleReply::Rejected(_) => STATUS_BAD_REQUEST,
    }
}

impl DoubleReply {
    /// The HTTP status of the reply.
    pub fn status(&self) -> (r: u16)
        ensures
            r == reply_status(*self),
    {
        match self {
            DoubleReply::Doubled(_) => STATUS_OK,
            DoubleReply::Rejected(_) => STATUS_BAD_REQUEST,
        }
    }
}

/// Every value whose double is an `i32` is answered with success and
/// `{"result": 2 * value}`.
pub proof fn lemma_double_in_range(v: i32)
    requires
        fits_i32(2 * v),
    ensures
        reply_for(Some(InputValue { value: v })) == DoubleReply::Doubled(
            OutputValue { result: (2 * v) as i32 },
        ),
        (2 * v) as i32 == 2 * v,
        reply_status(reply_for(Some(InputValue { value: v }))) == STATUS_OK,
{
}

/// A body that could not be read as an `InputValue` (missing, not JSON, or
/// with a `value` that is not an integer) is answered with a client error.
pub proof fn lemma_unreadable_body_rejected()
    ensures
        reply_for(None) == DoubleReply::Rejected(RequestError::MalformedBody),
        reply_status(reply_for(None)) == STATUS_BAD_REQUEST,
{
}

/// The text body of the liveness probe `GET /`.
pub open spec fn health_body() -> Seq<char> {
    seq!['O', 'K']
}

/// Answers the liveness probe `GET /`: the text `OK`, sent with `STATUS_OK`.
pub fn health_check() -> (r: &'static str)
    ensures
        r@ == health_body(),
{
    let r = "OK";
    proof {
        reveal_strlit("OK");
    }
    r
}

} // verus!
