//! Turning failures into HTTP statuses and JSON replies.
//!
//! A handler that fails answers either with a bare status or with a JSON
//! body that carries a `success` or a `failure` payload. The helpers here
//! turn a `Result` or an `Option` into either kind of answer, and
//! [`ResultValue::reply`] decides what goes on the wire.

use crate::json::{text, text_value};
use serde_json::Value;
use vstd::prelude::*;

verus! {

/// The status of a reply that carries a success payload and names none.
pub const STATUS_OK: u16 = 200;

/// The status of a reply that carries neither payload, or both.
pub const STATUS_CONFLICT: u16 = 409;

/// The status of an internal fault.
pub const STATUS_INTERNAL: u16 = 500;

/// An HTTP status, known by its code.
#[derive(Debug, Clone, Copy, PartialEq, Eq, Structural)]
pub struct Status {
    pub code: u16,
}

impl Status {
    /// The status with the given code.
    pub fn new(code: u16) -> (status: Status)
        ensures
            status == (Status { code }),
    {
        Status { code }
    }
}

/// The payload of a JSON reply: a success value or a failure value, and the
/// status to answer with where the default is not wanted.
#[derive(Debug, Clone, PartialEq, Eq)]
pub struct ResultValue {
    pub success: Option<Value>,
    pub failure: Option<Value>,
    pub status: Option<Status>,
}

/// A handler's outcome: the payload to answer with, on either side.
pub type ResultJson = Result<ResultValue, ResultValue>;

/// What a reply's body holds: the two members of the JSON object, where
/// `None` stands for `null`.
#[derive(Debug, Clone, PartialEq, Eq)]
pub struct ReplyBody {
    pub success: Option<Value>,
    pub failure: Option<Value>,
}

/// What goes on the wire for a [`ResultValue`]: a status, and a body unless
/// the payload was ambiguous.
#[derive(Debug, Clone, PartialEq, Eq)]
pub struct Reply {
    pub status: Status,
    pub body: Option<ReplyBody>,
}

/// The payload that reports success with `value`. A value that could not be
/// serialized arrives as `Err` with the serializer's message, and turns the
/// report into a failure that carries the message and no status.
pub open spec fn success_of(value: Result<Value, String>, status: Option<Status>) -> ResultJson {
    match value {
        Ok(json) => Ok(ResultValue { success: Some(json), failure: None, status }),
        Err(message) => Err(
            ResultValue { success: None, failure: Some(text_value(message@)), status: None },
        ),
    }
}

/// The payload that reports failure with `value`; see [`success_of`] for a
/// value that could not be serialized.
pub open spec fn failure_of(value: Result<Value, String>, status: Option<Status>) -> ResultValue {
    match value {
        Ok(json) => ResultValue { success: None, failure: Some(json), status },
        Err(message) => ResultValue {
            success: None,
            failure: Some(text_value(message@)),
            status: None,
        },
    }
}

/// The reply for a payload. One payload alone is sent under the status the
/// value names, or under 200 for a success and 500 for a failure. Neither
/// payload, or both, is a conflict and has no body.
pub open spec fn reply_of(value: ResultValue) -> Reply {
    match (value.success, value.failure) {
        (Some(success), None) => Reply {
            status: match value.status {
                Some(status) => status,
                None => Status { code: STATUS_OK },
            },
            body: Some(ReplyBody { success: Some(success), failure: None }),
        },
        (None, Some(failure)) => Reply {
            status: match value.status {
                Some(status) => status,
                None => Status { code: STATUS_INTERNAL },
            },
            body: Some(ReplyBody { success: None, failure: Some(failure) }),
        },
        _ => Reply { status: Status { code: STATUS_CONFLICT }, body: None },
    }
}

impl ResultValue {
    /// The failure payload for `value`.
    pub fn failing(value: Result<Value, String>, status: Option<Status>) -> (payload: ResultValue)
        ensures
            payload == failure_of(value, status),
    {
        match value {
            Ok(json) => ResultValue { success: None, failure: Some(json), status },
            Err(message) => ResultValue { success: None, failure: Some(text(message)), status: None },
        }
    }

    /// Decides what is sent for this payload.
    pub fn respond_to(self) -> (reply: Reply)
        ensures
            reply == reply_of(self),
    {
        let status = self.status;
        match (self.success, self.failure) {
            (Some(success), None) => Reply {
                status: match status {
                    Some(status) => status,
                    None => Status::new(STATUS_OK),
                },
                body: Some(ReplyBody { success: Some(success), failure: None }),
            },
            (None, Some(failure)) => Reply {
                status: match status {
                    Some(status) => status,
                    None => Status::new(STATUS_INTERNAL),
                },
                body: Some(ReplyBody { success: None, failure: Some(failure) }),
            },
            _ => Reply { status: Status::new(STATUS_CONFLICT), body: None },
        }
    }
}

impl Default for ResultValue {
    fn default() -> (value: ResultValue)
        ensures
            value == (ResultValue { success: None, failure: None, status: None }),
    {
        ResultValue { success: None, failure: None, status: None }
    }
}

/// Constructors for the two sides of a [`ResultJson`].
pub trait ResultJsonExt {
    /// Reports success with `value`, the outcome of serializing the payload.
    #[allow(non_snake_case)]
    fn Success(value: Result<Value, String>, status: Option<Status>) -> (outcome: ResultJson)
        ensures
            outcome == success_of(value, status),
    {
        match value {
            Ok(json) => Ok(ResultValue { success: Some(json), failure: None, status }),
            Err(message) => Err(
                ResultValue { success: None, failure: Some(text(message)), status: None },
            ),
        }
    }

    /// Reports failure with `value`, the outcome of serializing the payload.
    #[allow(non_snake_case)]
    fn Failure(value: Result<Value, String>, status: Option<Status>) -> (outcome: ResultJson)
        ensures
            outcome == Err::<ResultValue, ResultValue>(failure_of(value, status)),
    {
        Err(ResultValue::failing(value, status))
    }
}

impl ResultJsonExt for ResultJson {

}

/// Failing with a bare status.
pub trait ToStatusErr<T>: Sized {
    /// The value that `self` holds, if it holds one.
    spec fn held(self) -> Option<T>;

    /// Keeps the value, or fails with the status of the given code.
    fn status_err(self, code: u16) -> (outcome: Result<T, Status>)
        ensures
            outcome == match self.held() {
                Some(value) => Ok::<T, Status>(value),
                None => Err(Status { code }),
            },
    ;
}

impl<T, E> ToStatusErr<T> for Result<T, E> {
    open spec fn held(self) -> Option<T> {
        match self {
            Ok(value) => Some(value),
            Err(_) => None,
        }
    }

    #[inline]
    fn status_err(self, code: u16) -> (outcome: Result<T, Status>) {
        match self {
            Ok(value) => Ok(value),
            Err(_) => Err(Status::new(code)),
        }
    }
}

impl<T> ToStatusErr<T> for Option<T> {
    open spec fn held(self) -> Option<T> {
        self
    }

    #[inline]
    fn status_err(self, code: u16) -> (outcome: Result<T, Status>) {
        match self {
            Some(value) => Ok(value),
            None => Err(Status::new(code)),
        }
    }
}

/// Failing with a JSON payload.
pub trait ToJsonError<T>: Sized {
    /// The value that `self` holds, if it holds one.
    spec fn kept(self) -> Option<T>;

    /// Keeps the value, or fails with the failure payload for `value`.
    fn json_err(self, value: Result<Value, String>, status: Option<Status>) -> (outcome: Result<
        T,
        ResultValue,
    >)
        ensures
            outcome == match self.kept() {
                Some(held) => Ok::<T, ResultValue>(held),
                None => Err(failure_of(value, status)),
            },
    ;
}

impl<T, E> ToJsonError<T> for Result<T, E> {
    open spec fn kept(self) -> Option<T> {
        match self {
            Ok(value) => Some(value),
            Err(_) => None,
        }
    }

    #[inline]
    fn json_err(self, value: Result<Value, String>, status: Option<Status>) -> (outcome: Result<
        T,
        ResultValue,
    >) {
        match self {
            Ok(held) => Ok(held),
            Err(_) => Err(ResultValue::failing(value, status)),
        }
    }
}

impl<T> ToJsonError<T> for Option<T> {
    open spec fn kept(self) -> Option<T> {
        self
    }

    #[inline]
    fn json_err(self, value: Result<Value, String>, status: Option<Status>) -> (outcome: Result<
        T,
        ResultValue,
    >) {
        match self {
            Some(held) => Ok(held),
            None => Err(ResultValue::failing(value, status)),
        }
    }
}

/// Failing with a JSON payload made from the error.
pub trait ToJsonErrorMapped<T, E>: Sized {
    /// `self` as a plain `Result`.
    spec fn parts(self) -> Result<T, E>;

    /// Keeps the value, or hands the error to `f` and fails with the failure
    /// payload for what `f` returns.
    fn json_err_map<F: FnOnce(E) -> Result<Value, String>>(
        self,
        f: F,
        status: Option<Status>,
    ) -> (outcome: Result<T, ResultValue>)
        requires
            self.parts() matches Err(error) ==> f.requires((error,)),
        ensures
            match self.parts() {
                Ok(held) => outcome == Ok::<T, ResultValue>(held),
                Err(error) => exists|value: Result<Value, String>|
                    f.ensures((error,), value) && outcome == Err::<T, ResultValue>(
                        failure_of(value, status),
                    ),
            },
    ;
}

impl<T, E> ToJsonErrorMapped<T, E> for Result<T, E> {
    open spec fn parts(self) -> Result<T, E> {
        self
    }

    fn json_err_map<F: FnOnce(E) -> Result<Value, String>>(
        self,
        f: F,
        status: Option<Status>,
    ) -> (outcome: Result<T, ResultValue>) {
        match self {
            Ok(held) => Ok(held),
            Err(error) => {
                let value = f(error);
                Err(ResultValue::failing(value, status))
            },
        }
    }
}

/// A payload that carries neither a success nor a failure is answered with
/// a conflict and no body, whatever status it names.
pub proof fn lemma_empty_payload_is_conflict(status: Option<Status>)
    ensures
        reply_of(ResultValue { success: None, failure: None, status }) == (Reply {
            status: Status { code: STATUS_CONFLICT },
            body: None,
        }),
{
}

} // verus!
