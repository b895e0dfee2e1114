use vstd::prelude::*;
use crate::error::{Error, error_message, error_status};

verus! {

/// The JSON envelope of most answers: whether the request succeeded, and
/// either its result or an error.
pub struct Response<T> {
    pub success: bool,
    pub body: ResponseResult<T>,
}

/// The result part of a [`Response`], written without a tag.
pub enum ResponseResult<T> {
    Success(T),
    Failure(ResponseError),
}

/// An error inside a [`Response`]: a status code and a text.
pub struct ResponseError {
    pub code: u16,
    pub message: String,
}

/// A JSON answer that holds only a text.
pub struct TextResponse {
    pub message: String,
}

/// A failed response with error code `code` and text `message`.
pub open spec fn is_error_response<T>(r: Response<T>, code: u16, message: Seq<char>) -> bool {
    &&& !r.success
    &&& r.body matches ResponseResult::Failure(e) && e.code == code && e.message@ == message
}

impl<T> Response<T> {
    /// A failed response with the given code and text.
    pub fn new_error(code: u16, message: String) -> (res: Self)
        ensures
            is_error_response(res, code, message@),
    {
        Response { success: false, body: ResponseResult::Failure(ResponseError { code, message }) }
    }

    /// A successful response that carries `body`.
    pub fn new_success(body: T) -> (res: Self)
        ensures
            res.success,
            res.body == ResponseResult::<T>::Success(body),
    {
        Response { success: true, body: ResponseResult::Success(body) }
    }

    /// The failed response for an error: the error's status and text.
    pub fn from_error(value: Error) -> (res: Self)
        ensures
            is_error_response(res, error_status(value), error_message(value)),
    {
        Response { success: false, body: ResponseResult::Failure(ResponseError::from_error(value)) }
    }
}

impl ResponseError {
    /// The status and text of an error.
    pub fn from_error(value: Error) -> (res: Self)
        ensures
            res.code == error_status(value),
            res.message@ == error_message(value),
    {
        ResponseError { code: value.status_code(), message: value.message() }
    }
}

} // verus!
