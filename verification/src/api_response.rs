//! The envelope in which every answer of the service is sent.

use vstd::prelude::*;
use vstd::string::*;
use crate::error::ErrorApp;
use crate::text::str_eq;

verus! {

/// An answer: a response code, a status word, a message and, on success, data.
pub struct ApiResponse<T> {
    pub code: String,
    pub status: String,
    pub message: String,
    pub data: Option<T>,
}

/// Response code of a success.
pub open spec fn code_success() -> Seq<char> {
    "00"@
}

/// Response code of a record that was not found.
pub open spec fn code_not_found() -> Seq<char> {
    "99"@
}

/// Response code of an internal failure.
pub open spec fn code_internal() -> Seq<char> {
    "93"@
}

pub open spec fn status_success() -> Seq<char> {
    "SUCCESS"@
}

pub open spec fn status_failed() -> Seq<char> {
    "FAILED"@
}

pub open spec fn status_no_data() -> Seq<char> {
    "NODATA"@
}

/// The HTTP status an answer with this code and status word is sent with.
pub open spec fn http_status(code: Seq<char>, status: Seq<char>) -> u16 {
    if code == code_success() {
        200
    } else if code == code_internal() {
        500
    } else if status == status_no_data() {
        404
    } else {
        400
    }
}

impl<T> ApiResponse<T> {
    /// A failed answer that keeps the code, status and message of `resp` and carries no data.
    pub fn failed_from<V>(resp: ApiResponse<V>) -> (r: ApiResponse<T>)
        ensures
            r.code@ == resp.code@,
            r.status@ == resp.status@,
            r.message@ == resp.message@,
            r.data is None,
    {
        ApiResponse { code: resp.code, status: resp.status, message: resp.message, data: None }
    }

    /// A failed answer with the code of a record that was not found.
    pub fn failed_not_found(message: String) -> (r: ApiResponse<T>)
        ensures
            r.code@ == code_not_found(),
            r.status@ == status_failed(),
            r.message@ == message@,
            r.data is None,
    {
        Self::failed_with_code(String::from_str("99"), message)
    }

    /// A failed answer with the given code and message.
    pub fn failed_with_code(code: String, message: String) -> (r: ApiResponse<T>)
        ensures
            r.code@ == code@,
            r.status@ == status_failed(),
            r.message@ == message@,
            r.data is None,
    {
        ApiResponse { code, status: String::from_str("FAILED"), message, data: None }
    }

    /// A successful answer that carries `data`.
    pub fn success(message: String, data: T) -> (r: ApiResponse<T>)
        ensures
            r.code@ == code_success(),
            r.status@ == status_success(),
            r.message@ == message@,
            r.data == Some(data),
    {
        ApiResponse {
            code: String::from_str("00"),
            status: String::from_str("SUCCESS"),
            message,
            data: Some(data),
        }
    }

    /// A failed answer with the code of an internal failure.
    pub fn failed_internal(message: String) -> (r: ApiResponse<T>)
        ensures
            r.code@ == code_internal(),
            r.status@ == status_failed(),
            r.message@ == message@,
            r.data is None,
    {
        Self::failed_with_code(String::from_str("93"), message)
    }

    /// The HTTP status this answer is sent with: 200 for a success, 500 for an
    /// internal failure, 404 for a status of no data, 400 otherwise.
    pub fn status_code(&self) -> (r: u16)
        ensures
            r == http_status(self.code@, self.status@),
    {
        proof {
            reveal_strlit("00");
            reveal_strlit("93");
            reveal_strlit("NODATA");
        }
        if str_eq(self.code.as_str(), "00") {
            200
        } else if str_eq(self.code.as_str(), "93") {
            500
        } else if str_eq(self.status.as_str(), "NODATA") {
            404
        } else {
            400
        }
    }

    /// The answer for the outcome of a service call: the answer itself when there
    /// is one, the code and message an error carries, or an internal failure
    /// that describes the error.
    pub fn response_from(result_response: Result<ApiResponse<T>, ErrorApp>) -> (r: ApiResponse<T>)
        ensures
            match result_response {
                Ok(resp) => r == resp,
                Err(ErrorApp::WithCode(code, message)) => {
                    &&& r.code@ == code@
                    &&& r.status@ == status_failed()
                    &&& r.message@ == message@
                    &&& r.data is None
                },
                Err(err) => {
                    &&& r.code@ == code_internal()
                    &&& r.status@ == status_failed()
                    &&& r.message@ == err.message()
                    &&& r.data is None
                },
            },
    {
        match result_response {
            Ok(resp) => resp,
            Err(ErrorApp::WithCode(code, message)) => Self::failed_with_code(code, message),
            Err(err) => Self::failed_internal(err.to_string()),
        }
    }
}


/// The constructors' answers are sent with these statuses: a success with
/// 200, an internal failure with 500, and every other failure the
/// constructors make, the not-found one included, with 400 (their status is
/// never `NODATA`).
pub proof fn law_constructor_statuses(code: Seq<char>)
    ensures
        http_status(code_success(), status_success()) == 200,
        http_status(code_internal(), status_failed()) == 500,
        http_status(code_not_found(), status_failed()) == 400,
        code != code_success() && code != code_internal() ==> http_status(code, status_failed())
            == 400,
{
    reveal_strlit("00");
    reveal_strlit("93");
    reveal_strlit("99");
    reveal_strlit("FAILED");
    reveal_strlit("NODATA");
    assert(code_not_found()[1] != code_success()[1]);
    assert(code_not_found()[1] != code_internal()[1]);
    assert(status_failed()[0] != status_no_data()[0]);
}

} // verus!
