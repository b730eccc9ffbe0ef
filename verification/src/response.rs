use vstd::prelude::*;

verus! {

/// The envelope of a successful answer: code `0`, message `success`, and the
/// entity or entity sequence as payload.
pub struct SuccessResponse<T> {
    pub code: u32,
    pub message: String,
    pub data: T,
}

impl<T> SuccessResponse<T> {
    /// Wrap a payload in the success envelope.
    pub fn new(data: T) -> (r: Self)
        ensures
            r.code == 0,
            r.message@ == "success"@,
            r.data == data,
    {
        SuccessResponse { code: 0, message: "success".to_owned(), data }
    }
}

/// The envelope of a failed answer: a string error tag and the fixed
/// message `failed`.
pub struct ErrorResponse {
    pub code: String,
    pub message: String,
}

impl ErrorResponse {
    /// Wrap an error tag in the failure envelope.
    pub fn code(code: &str) -> (r: Self)
        ensures
            r.code@ == code@,
            r.message@ == "failed"@,
    {
        ErrorResponse { code: code.to_owned(), message: "failed".to_owned() }
    }
}

} // verus!
