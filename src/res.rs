//! The envelope of every response: a payload, a status code and a message.

use vstd::prelude::*;

verus! {

/// The status code of a success.
pub const CODE_SUCCESS: u16 = 200;

/// The status code of a failure.
pub const CODE_FAIL: u16 = 500;

/// A response: `data` when there is a payload, the HTTP status `code`, and a message.
pub struct Res<T> {
    pub data: Option<T>,
    pub code: u16,
    pub message: String,
}

impl<T> Res<T> {
    /// A success carrying `data`.
    pub fn success(data: T) -> (r: Res<T>)
        ensures
            r.data == Some(data),
            r.code == CODE_SUCCESS,
            r.message@ == "success"@,
    {
        Res { data: Some(data), code: CODE_SUCCESS, message: "success".to_owned() }
    }

    /// A failure that still carries `data`, under the success message.
    pub fn failed(data: T) -> (r: Res<T>)
        ensures
            r.data == Some(data),
            r.code == CODE_FAIL,
            r.message@ == "success"@,
    {
        Res { data: Some(data), code: CODE_FAIL, message: "success".to_owned() }
    }

    /// A failure without payload.
    pub fn fail() -> (r: Res<T>)
        ensures
            r.data is None,
            r.code == CODE_FAIL,
            r.message@ == "fail"@,
    {
        Res { data: None, code: CODE_FAIL, message: "fail".to_owned() }
    }

    /// A failure with the status `code` and the message `message`.
    pub fn custom_fail(code: u16, message: String) -> (r: Res<T>)
        ensures
            r.data is None,
            r.code == code,
            r.message@ == message@,
    {
        Res { data: None, code, message }
    }
}

} // verus!
