use chrono::{NaiveDate, NaiveDateTime};
use rust_rest_api::api_response::ApiResponse;
use rust_rest_api::context::CtxApp;
use rust_rest_api::error::ErrorApp;
use rust_rest_api::messages::MessageStore;
use rust_rest_api::repository::{DbError, UserRepoDb};
use rust_rest_api::service::{
    create_outcome, delete_response, get_by_user_id_response, get_users_response, update_response,
};
use rust_rest_api::user::{UserMaster, UserReq};

fn date() -> NaiveDate {
    NaiveDate::from_ymd_opt(2030, 12, 31).unwrap()
}

fn moment() -> NaiveDateTime {
    NaiveDate::from_ymd_opt(2024, 1, 2).unwrap().and_hms_opt(3, 4, 5).unwrap()
}

fn request(id: &str) -> UserReq {
    UserReq {
        userId: id.to_string(),
        branchId: "001".to_string(),
        fullName: "Ann Lee".to_string(),
        email: "ann@example.com".to_string(),
        status: 1,
        flgCbs: true,
        application: "core".to_string(),
        expDate: date(),
    }
}

fn store() -> MessageStore {
    let mut s = MessageStore::new();
    s.load_properties(
        "en",
        &vec![
            "user.get.retrieve.success=Users retrieved".to_string(),
            "user.get.not.found=User not found".to_string(),
            "user.get.already.exists=User already exists".to_string(),
            "user.create.success=User created".to_string(),
            "user.update.success=User updated".to_string(),
        ],
    );
    s
}

fn english() -> CtxApp {
    CtxApp::from_accept_language(Some("en"))
}

#[test]
fn record_from_request() {
    let m = UserMaster::from_user_req_at(request("u1"), moment());
    assert_eq!(m.userid, "u1");
    assert_eq!(m.branchid, "001");
    assert_eq!(m.fullname, "Ann Lee");
    assert_eq!(m.email, "ann@example.com");
    assert_eq!(m.status, 1);
    assert!(m.flgcbs);
    assert_eq!(m.application, "core");
    assert_eq!(m.expdate, date());
    assert_eq!(m.created_at, moment());
    assert_eq!(m.created_by, "SYSTEM");
    assert!(m.updated_at.is_none());
    assert!(m.updated_by.is_none());

    let now = UserMaster::from_user_req(request("u2"));
    assert_eq!(now.userid, "u2");
    assert_eq!(now.created_by, "SYSTEM");
}

#[test]
fn response_from_record() {
    let r = UserMaster::from_user_req_at(request("u1"), moment()).to_user_res();
    assert_eq!(r.userId, "u1");
    assert_eq!(r.branchId, "001");
    assert_eq!(r.fullName, "Ann Lee");
    assert_eq!(r.email, "ann@example.com");
    assert_eq!(r.status, 1);
    assert!(r.flgCbs);
    assert_eq!(r.application, "core");
    assert_eq!(r.expDate, date());
}

#[test]
fn recording_who_changed_a_user() {
    let mut m = UserMaster::from_user_req_at(request("u1"), moment());
    UserRepoDb::prepare_create(&mut m, &"s9999".to_string());
    assert_eq!(m.created_by, "s9999");
    UserRepoDb::prepare_update(&mut m, &"bob".to_string());
    assert_eq!(m.updated_by, Some("bob".to_string()));
    assert_eq!(m.created_by, "s9999");
}

#[test]
fn repository_outcomes() {
    let _repo = UserRepoDb::new();
    assert!(matches!(
        UserRepoDb::find_by_user_id_result(Err(DbError::RowNotFound("no rows".to_string()))),
        Err(ErrorApp::RowNotFound)
    ));
    match UserRepoDb::find_all_result(Err(DbError::Other("pool timed out".to_string()))) {
        Err(ErrorApp::OtherErr(m)) => assert_eq!(m, "pool timed out"),
        _ => panic!("expected a failure"),
    }
    assert!(matches!(
        UserRepoDb::create_result(Err(DbError::Database {
            unique_violation: true,
            message: "duplicate key".to_string(),
            description: "error returned from database: duplicate key".to_string(),
        })),
        Err(ErrorApp::DuplicateKey)
    ));
    match UserRepoDb::create_result(Err(DbError::Database {
        unique_violation: false,
        message: "null value".to_string(),
        description: "error returned from database: null value".to_string(),
    })) {
        Err(ErrorApp::OtherErr(m)) => assert_eq!(m, "null value"),
        _ => panic!("expected a failure"),
    }
    assert!(UserRepoDb::create_result(Ok(1)).is_ok());
    assert!(matches!(UserRepoDb::rows_affected_result(Ok(0)), Err(ErrorApp::RowNotFound)));
    assert!(UserRepoDb::rows_affected_result(Ok(2)).is_ok());
    match UserRepoDb::rows_affected_result(Err(DbError::Database {
        unique_violation: false,
        message: "m".to_string(),
        description: "d".to_string(),
    })) {
        Err(ErrorApp::OtherErr(m)) => assert_eq!(m, "d"),
        _ => panic!("expected a failure"),
    }
}

#[test]
fn listing_users() {
    let users = vec![
        UserMaster::from_user_req_at(request("a"), moment()),
        UserMaster::from_user_req_at(request("b"), moment()),
    ];
    let r = get_users_response(Ok(users), &store(), &english());
    assert_eq!(r.code, "00");
    assert_eq!(r.message, "Users retrieved");
    let data = r.data.unwrap();
    assert_eq!(data.len(), 2);
    assert_eq!(data[0].userId, "a");
    assert_eq!(data[1].userId, "b");

    let failed = get_users_response(Err(ErrorApp::OtherErr("down".to_string())), &store(), &english());
    assert_eq!(failed.code, "93");
    assert_eq!(failed.message, "error: down");
    assert!(failed.data.is_none());
}

#[test]
fn reading_one_user() {
    let r = get_by_user_id_response(
        Ok(UserMaster::from_user_req_at(request("a"), moment())),
        &store(),
        &english(),
    );
    assert_eq!(r.code, "00");
    assert_eq!(r.data.unwrap().userId, "a");

    let nf = get_by_user_id_response(Err(ErrorApp::RowNotFound), &store(), &english());
    assert_eq!(nf.code, "99");
    assert_eq!(nf.message, "User not found");
    assert_eq!(nf.status_code(), 400);

    let unknown_lang = get_by_user_id_response(
        Err(ErrorApp::RowNotFound),
        &store(),
        &CtxApp::from_accept_language(Some("de")),
    );
    assert_eq!(unknown_lang.message, "id.user.get.not.found");
}

#[test]
fn creating_a_user() {
    let ok = create_outcome(Ok(()), &store(), &english()).ok().unwrap();
    assert_eq!(ok.code, "00");
    assert_eq!(ok.message, "User created");
    assert_eq!(ok.data, Some(()));

    match create_outcome(Err(ErrorApp::DuplicateKey), &store(), &english()) {
        Err(ErrorApp::WithCode(code, m)) => {
            assert_eq!(code, "99");
            assert_eq!(m, "User already exists");
        },
        _ => panic!("expected a coded failure"),
    }
    match create_outcome(Err(ErrorApp::OtherErr("x".to_string())), &store(), &english()) {
        Err(ErrorApp::OtherErr(m)) => assert_eq!(m, "error: x"),
        _ => panic!("expected a failure"),
    }
    let answered: ApiResponse<()> = ApiResponse::response_from(create_outcome(
        Err(ErrorApp::DuplicateKey),
        &store(),
        &english(),
    ));
    assert_eq!(answered.code, "99");
    assert_eq!(answered.message, "User already exists");
}

#[test]
fn updating_and_deleting() {
    let u = update_response(Ok(()), &store(), &english());
    assert_eq!(u.message, "User updated");
    let d = delete_response(Ok(()), &store(), &english());
    assert_eq!(d.code, "00");
    assert_eq!(d.message, "id.user.delete.success");
    let nf = delete_response(Err(ErrorApp::RowNotFound), &store(), &english());
    assert_eq!(nf.code, "99");
    let internal = update_response(Err(ErrorApp::DuplicateKey), &store(), &english());
    assert_eq!(internal.code, "93");
    assert_eq!(internal.message, "error duplicate data");
}
