//! Errors of the application and of the authorization check.

use vstd::prelude::*;
use vstd::string::*;

verus! {

/// An error raised while serving a request.
#[derive(Debug)]
#[non_exhaustive]
pub enum ErrorApp {
    /// A query that expected a row found none.
    RowNotFound,
    /// An insert collided with an existing key.
    DuplicateKey,
    /// Any other failure, with its description.
    OtherErr(String),
    /// A failure that carries the response code and message to report.
    WithCode(String, String),
}

pub open spec fn row_not_found_text() -> Seq<char> {
    "no rows returned by a query that expected to return at least one row"@
}

pub open spec fn duplicate_key_text() -> Seq<char> {
    "error duplicate data"@
}

impl ErrorApp {
    /// The text that describes this error.
    pub open spec fn message(&self) -> Seq<char> {
        match self {
            ErrorApp::RowNotFound => row_not_found_text(),
            ErrorApp::DuplicateKey => duplicate_key_text(),
            ErrorApp::OtherErr(m) => "error: "@ + m@,
            ErrorApp::WithCode(_, m) => m@,
        }
    }

    /// The text that describes this error.
    pub fn to_string(&self) -> (r: String)
        ensures
            r@ == self.message(),
    {
        match self {
            ErrorApp::RowNotFound => String::from_str(
                "no rows returned by a query that expected to return at least one row",
            ),
            ErrorApp::DuplicateKey => String::from_str("error duplicate data"),
            ErrorApp::OtherErr(m) => {
                let mut r = String::from_str("error: ");
                r.append(m.as_str());
                r
            },
            ErrorApp::WithCode(_, m) => m.clone(),
        }
    }
}

/// The body of a refused authorization, in the shape of an OAuth error.
pub struct ErrorAuth {
    pub error: String,
    pub error_description: Option<String>,
    pub error_uri: Option<String>,
}

pub open spec fn invalid_token_text() -> Seq<char> {
    "invalid_token"@
}

/// The HTTP status that answers an authorization error with the given code.
pub open spec fn auth_status(error: Seq<char>) -> u16 {
    if error == invalid_token_text() {
        401
    } else {
        400
    }
}

impl ErrorAuth {
    /// An authorization error with an empty code and no description or link.
    pub fn new() -> (r: ErrorAuth)
        ensures
            r.error@ == Seq::<char>::empty(),
            r.error_description is None,
            r.error_uri is None,
    {
        ErrorAuth { error: String::new(), error_description: None, error_uri: None }
    }

    /// The HTTP status this error is answered with: 401 for an invalid token,
    /// 400 for anything else.
    pub fn status_code(&self) -> (r: u16)
        ensures
            r == auth_status(self.error@),
    {
        proof {
            reveal_strlit("invalid_token");
        }
        if crate::text::str_eq(self.error.as_str(), "invalid_token") {
            401
        } else {
            400
        }
    }
}

} // verus!
