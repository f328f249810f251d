use rust_rest_api::api_response::ApiResponse;
use rust_rest_api::error::{ErrorApp, ErrorAuth};

#[test]
fn success_carries_data_and_code_00() {
    let r: ApiResponse<i32> = ApiResponse::success("ok".to_string(), 7);
    assert_eq!(r.code, "00");
    assert_eq!(r.status, "SUCCESS");
    assert_eq!(r.message, "ok");
    assert_eq!(r.data, Some(7));
    assert_eq!(r.status_code(), 200);
}

#[test]
fn failures_carry_their_codes() {
    let nf: ApiResponse<i32> = ApiResponse::failed_not_found("missing".to_string());
    assert_eq!(nf.code, "99");
    assert_eq!(nf.status, "FAILED");
    assert_eq!(nf.message, "missing");
    assert!(nf.data.is_none());
    assert_eq!(nf.status_code(), 400);

    let int: ApiResponse<i32> = ApiResponse::failed_internal("boom".to_string());
    assert_eq!(int.code, "93");
    assert_eq!(int.status, "FAILED");
    assert_eq!(int.status_code(), 500);

    let other: ApiResponse<i32> = ApiResponse::failed_with_code("42".to_string(), "bad".to_string());
    assert_eq!(other.code, "42");
    assert_eq!(other.message, "bad");
    assert_eq!(other.status_code(), 400);
}

#[test]
fn no_data_status_is_not_found() {
    let r: ApiResponse<i32> = ApiResponse {
        code: "11".to_string(),
        status: "NODATA".to_string(),
        message: String::new(),
        data: None,
    };
    assert_eq!(r.status_code(), 404);
}

#[test]
fn failed_from_keeps_code_status_and_message() {
    let src: ApiResponse<String> = ApiResponse::failed_with_code("12".to_string(), "m".to_string());
    let r: ApiResponse<i32> = ApiResponse::failed_from(src);
    assert_eq!(r.code, "12");
    assert_eq!(r.status, "FAILED");
    assert_eq!(r.message, "m");
    assert!(r.data.is_none());
}

#[test]
fn response_from_each_outcome() {
    let ok: ApiResponse<i32> =
        ApiResponse::response_from(Ok(ApiResponse::success("fine".to_string(), 3)));
    assert_eq!(ok.code, "00");
    assert_eq!(ok.data, Some(3));

    let coded: ApiResponse<i32> = ApiResponse::response_from(Err(ErrorApp::WithCode(
        "99".to_string(),
        "exists".to_string(),
    )));
    assert_eq!(coded.code, "99");
    assert_eq!(coded.message, "exists");
    assert_eq!(coded.status, "FAILED");

    let other: ApiResponse<i32> =
        ApiResponse::response_from(Err(ErrorApp::OtherErr("db down".to_string())));
    assert_eq!(other.code, "93");
    assert_eq!(other.message, "error: db down");

    let nf: ApiResponse<i32> = ApiResponse::response_from(Err(ErrorApp::RowNotFound));
    assert_eq!(nf.code, "93");
    assert_eq!(
        nf.message,
        "no rows returned by a query that expected to return at least one row"
    );
}

#[test]
fn error_texts() {
    assert_eq!(ErrorApp::DuplicateKey.to_string(), "error duplicate data");
    assert_eq!(ErrorApp::OtherErr("x".to_string()).to_string(), "error: x");
    assert_eq!(ErrorApp::WithCode("99".to_string(), "m".to_string()).to_string(), "m");
}

#[test]
fn error_auth_statuses() {
    let mut e = ErrorAuth::new();
    assert_eq!(e.error, "");
    assert!(e.error_description.is_none());
    assert!(e.error_uri.is_none());
    assert_eq!(e.status_code(), 400);
    e.error = "invalid_token".to_string();
    assert_eq!(e.status_code(), 401);
    e.error = "missing_token".to_string();
    assert_eq!(e.status_code(), 400);
}
