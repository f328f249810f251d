//! The answers of the user service: from the outcome of each repository
//! operation to the response the client gets, with its message in the
//! request's language.

use vstd::prelude::*;
use vstd::string::*;
use crate::api_response::{
    ApiResponse, code_internal, code_not_found, code_success, status_failed, status_success,
};
use crate::context::{CtxApp, strings_view};
use crate::error::ErrorApp;
use crate::messages::{MessageStore, localized};
use crate::user::{UserMaster, UserRes};

verus! {

/// The message for `key` without arguments, in the languages of the request.
pub open spec fn msg(store: &MessageStore, ctx: &CtxApp, key: Seq<char>) -> Seq<char> {
    localized(store@, strings_view(ctx.accept_languages@), key, Seq::empty())
}

/// The user as a response shows it.
pub open spec fn user_res_of(m: UserMaster) -> UserRes {
    UserRes {
        userId: m.userid,
        branchId: m.branchid,
        fullName: m.fullname,
        email: m.email,
        status: m.status,
        flgCbs: m.flgcbs,
        application: m.application,
        expDate: m.expdate,
    }
}

/// Whether `r` is a success whose message is the one for `key`.
pub open spec fn succeeded_with<T>(
    r: &ApiResponse<T>,
    store: &MessageStore,
    ctx: &CtxApp,
    key: Seq<char>,
) -> bool {
    r.code@ == code_success() && r.status@ == status_success() && r.message@ == msg(store, ctx, key)
}

/// Whether `r` is a failure with the given code and message, without data.
pub open spec fn failed_with<T>(r: &ApiResponse<T>, code: Seq<char>, message: Seq<char>) -> bool {
    r.code@ == code && r.status@ == status_failed() && r.message@ == message && r.data is None
}

/// The answer to a change by user id: a success with the message for
/// `success_key`, a not-found failure, or an internal failure that describes
/// the error.
pub open spec fn change_answered(
    changed: Result<(), ErrorApp>,
    r: &ApiResponse<()>,
    store: &MessageStore,
    ctx: &CtxApp,
    success_key: Seq<char>,
) -> bool {
    match changed {
        Ok(_) => succeeded_with(r, store, ctx, success_key) && r.data == Some(()),
        Err(ErrorApp::RowNotFound) => failed_with(
            r,
            code_not_found(),
            msg(store, ctx, "user.get.not.found"@),
        ),
        Err(e) => failed_with(r, code_internal(), e.message()),
    }
}

fn message(store: &MessageStore, ctx: &CtxApp, key: &str) -> (r: String)
    ensures
        r@ == msg(store, ctx, key@),
{
    let args: Vec<String> = Vec::new();
    assert(strings_view(args@) =~= Seq::<Seq<char>>::empty());
    store.get_message(&ctx.accept_languages, key, &args)
}

/// The answer to listing the users: every user found, or an internal failure
/// that describes the error.
pub fn get_users_response(
    found: Result<Vec<UserMaster>, ErrorApp>,
    store: &MessageStore,
    ctx: &CtxApp,
) -> (r: ApiResponse<Vec<UserRes>>)
    ensures
        match found {
            Ok(users) => {
                &&& succeeded_with(&r, store, ctx, "user.get.retrieve.success"@)
                &&& r.data matches Some(d) && d@ == users@.map_values(
                    |m: UserMaster| user_res_of(m),
                )
            },
            Err(e) => failed_with(&r, code_internal(), e.message()),
        },
{
    match found {
        Err(e) => ApiResponse::failed_internal(e.to_string()),
        Ok(users) => {
            let ghost uv = users@;
            let mut list: Vec<UserRes> = Vec::new();
            let mut rest = users;
            let n = rest.len();
            let mut i: usize = 0;
            proof {
                assert(uv.skip(0) =~= uv);
            }
            while i < n
                invariant
                    n == uv.len(),
                    rest@ == uv.skip(i as int),
                    0 <= i <= n,
                    list@ == uv.take(i as int).map_values(|m: UserMaster| user_res_of(m)),
                decreases n - i,
            {
                let m = rest.remove(0);
                proof {
                    assert(m == uv[i as int]);
                }
                list.push(m.to_user_res());
                proof {
                    assert(rest@ =~= uv.skip(i + 1));
                    assert(list@ =~= uv.take(i + 1).map_values(|m: UserMaster| user_res_of(m)));
                }
                i = i + 1;
            }
            proof {
                assert(uv.take(n as int) =~= uv);
            }
            ApiResponse::success(message(store, ctx, "user.get.retrieve.success"), list)
        },
    }
}


/// The answer to reading one user: the user, a not-found failure, or an
/// internal failure that describes the error.
pub fn get_by_user_id_response(
    found: Result<UserMaster, ErrorApp>,
    store: &MessageStore,
    ctx: &CtxApp,
) -> (r: ApiResponse<UserRes>)
    ensures
        match found {
            Ok(u) => {
                &&& succeeded_with(&r, store, ctx, "user.get.retrieve.success"@)
                &&& r.data == Some(user_res_of(u))
            },
            Err(ErrorApp::RowNotFound) => failed_with(
                &r,
                code_not_found(),
                msg(store, ctx, "user.get.not.found"@),
            ),
            Err(e) => failed_with(&r, code_internal(), e.message()),
        },
{
    match found {
        Ok(u) => ApiResponse::success(
            message(store, ctx, "user.get.retrieve.success"),
            u.to_user_res(),
        ),
        Err(ErrorApp::RowNotFound) => ApiResponse::failed_not_found(
            message(store, ctx, "user.get.not.found"),
        ),
        Err(e) => ApiResponse::failed_internal(e.to_string()),
    }
}

/// The outcome of creating a user: a success, a user that already exists
/// (reported with the not-found code and the matching message), or another
/// failure wrapped with its description.
pub fn create_outcome(
    created: Result<(), ErrorApp>,
    store: &MessageStore,
    ctx: &CtxApp,
) -> (r: Result<ApiResponse<()>, ErrorApp>)
    ensures
        match created {
            Ok(_) => r matches Ok(resp) && succeeded_with(&resp, store, ctx, "user.create.success"@)
                && resp.data == Some(()),
            Err(ErrorApp::DuplicateKey) => r matches Err(ErrorApp::WithCode(code, m))
                && code@ == code_not_found() && m@ == msg(store, ctx, "user.get.already.exists"@),
            Err(e) => r matches Err(ErrorApp::OtherErr(m)) && m@ == e.message(),
        },
{
    match created {
        Ok(_) => Ok(ApiResponse::success(message(store, ctx, "user.create.success"), ())),
        Err(ErrorApp::DuplicateKey) => Err(ErrorApp::WithCode(
            String::from_str("99"),
            message(store, ctx, "user.get.already.exists"),
        )),
        Err(e) => Err(ErrorApp::OtherErr(e.to_string())),
    }
}

/// The answer to a change by user id (see `change_answered`).
fn changed_response(
    changed: Result<(), ErrorApp>,
    store: &MessageStore,
    ctx: &CtxApp,
    success_key: &str,
) -> (r: ApiResponse<()>)
    ensures
        change_answered(changed, &r, store, ctx, success_key@),
{
    match changed {
        Ok(_) => ApiResponse::success(message(store, ctx, success_key), ()),
        Err(ErrorApp::RowNotFound) => ApiResponse::failed_not_found(
            message(store, ctx, "user.get.not.found"),
        ),
        Err(e) => ApiResponse::failed_internal(e.to_string()),
    }
}

/// The answer to updating a user (see `changed_response`).
pub fn update_response(
    updated: Result<(), ErrorApp>,
    store: &MessageStore,
    ctx: &CtxApp,
) -> (r: ApiResponse<()>)
    ensures
        change_answered(updated, &r, store, ctx, "user.update.success"@),
{
    changed_response(updated, store, ctx, "user.update.success")
}

/// The answer to deleting a user (see `changed_response`).
pub fn delete_response(
    deleted: Result<(), ErrorApp>,
    store: &MessageStore,
    ctx: &CtxApp,
) -> (r: ApiResponse<()>)
    ensures
        change_answered(deleted, &r, store, ctx, "user.delete.success"@),
{
    changed_response(deleted, store, ctx, "user.delete.success")
}


/// Each user in a listing is the stored record, field for field: the `i`-th
/// answer entry has the `i`-th record's id, branch, name, email, status, CBS
/// flag, application and expiry date.
pub proof fn law_listing_copies_each_record(users: Seq<UserMaster>, i: int)
    requires
        0 <= i < users.len(),
    ensures
        ({
            let res = users.map_values(|m: UserMaster| user_res_of(m))[i];
            &&& users.map_values(|m: UserMaster| user_res_of(m)).len() == users.len()
            &&& res.userId == users[i].userid
            &&& res.branchId == users[i].branchid
            &&& res.fullName == users[i].fullname
            &&& res.email == users[i].email
            &&& res.status == users[i].status
            &&& res.flgCbs == users[i].flgcbs
            &&& res.application == users[i].application
            &&& res.expDate == users[i].expdate
        }),
{
}

/// The user read by id is the stored record, field for field.
pub proof fn law_read_copies_the_record(u: UserMaster)
    ensures
        user_res_of(u).userId == u.userid,
        user_res_of(u).branchId == u.branchid,
        user_res_of(u).fullName == u.fullname,
        user_res_of(u).email == u.email,
        user_res_of(u).status == u.status,
        user_res_of(u).flgCbs == u.flgcbs,
        user_res_of(u).application == u.application,
        user_res_of(u).expDate == u.expdate,
{
}

/// A change (update or delete, whatever its success message) that found no row
/// is answered as not found: code `99`, status `FAILED`, the localized
/// `user.get.not.found` message and no data; any other failure as an internal
/// one, code `93`, with the error's text.
pub proof fn law_change_of_missing_user_is_not_found(
    r: ApiResponse<()>,
    store: &MessageStore,
    ctx: &CtxApp,
    success_key: Seq<char>,
    e: ErrorApp,
)
    ensures
        change_answered(Err(ErrorApp::RowNotFound), &r, store, ctx, success_key) ==> {
            &&& r.code@ == "99"@
            &&& r.status@ == "FAILED"@
            &&& r.message@ == localized(
                store@,
                strings_view(ctx.accept_languages@),
                "user.get.not.found"@,
                Seq::empty(),
            )
            &&& r.data is None
        },
        !(e is RowNotFound) && change_answered(Err(e), &r, store, ctx, success_key) ==> {
            &&& r.code@ == "93"@
            &&& r.status@ == "FAILED"@
            &&& r.message@ == e.message()
            &&& r.data is None
        },
        change_answered(Ok(()), &r, store, ctx, success_key) ==> {
            &&& r.code@ == "00"@
            &&& r.message@ == localized(
                store@,
                strings_view(ctx.accept_languages@),
                success_key,
                Seq::empty(),
            )
            &&& r.data == Some(())
        },
{
}

} // verus!
