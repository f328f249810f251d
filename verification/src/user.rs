//! The user record: as a request sends it, as a response shows it, and as the
//! `user_master` table holds it.

use vstd::prelude::*;
use vstd::string::*;
use chrono::{NaiveDate, NaiveDateTime};

verus! {

#[verifier::external_type_specification]
#[verifier::external_body]
pub struct ExNaiveDate(NaiveDate);

#[verifier::external_type_specification]
#[verifier::external_body]
pub struct ExNaiveDateTime(NaiveDateTime);

/// A user as a request sends it.
#[allow(non_snake_case)]
pub struct UserReq {
    pub userId: String,
    pub branchId: String,
    pub fullName: String,
    pub email: String,
    pub status: i16,
    pub flgCbs: bool,
    pub application: String,
    pub expDate: NaiveDate,
}

/// A user as a response shows it.
#[allow(non_snake_case)]
pub struct UserRes {
    pub userId: String,
    pub branchId: String,
    pub fullName: String,
    pub email: String,
    pub status: i16,
    pub flgCbs: bool,
    pub application: String,
    pub expDate: NaiveDate,
}

/// A user as the `user_master` table holds it, with who created and last
/// updated the row and when.
pub struct UserMaster {
    pub userid: String,
    pub branchid: String,
    pub fullname: String,
    pub email: String,
    pub status: i16,
    pub flgcbs: bool,
    pub application: String,
    pub expdate: NaiveDate,
    pub created_at: NaiveDateTime,
    pub created_by: String,
    pub updated_at: Option<NaiveDateTime>,
    pub updated_by: Option<String>,
}

/// Calls `chrono::Local::now()` and takes its `naive_local()` time. The clock
/// decides the value, so nothing is stated of it.
#[verifier::external_body]
fn local_now() -> NaiveDateTime {
    chrono::Local::now().naive_local()
}

impl UserMaster {
    /// The record for a user sent in a request, created at `now` by `SYSTEM`
    /// and never updated.
    pub fn from_user_req_at(user_req: UserReq, now: NaiveDateTime) -> (r: UserMaster)
        ensures
            r.userid == user_req.userId,
            r.branchid == user_req.branchId,
            r.fullname == user_req.fullName,
            r.email == user_req.email,
            r.status == user_req.status,
            r.flgcbs == user_req.flgCbs,
            r.application == user_req.application,
            r.expdate == user_req.expDate,
            r.created_at == now,
            r.created_by@ == "SYSTEM"@,
            r.updated_at is None,
            r.updated_by is None,
    {
        UserMaster {
            userid: user_req.userId,
            branchid: user_req.branchId,
            fullname: user_req.fullName,
            email: user_req.email,
            status: user_req.status,
            flgcbs: user_req.flgCbs,
            application: user_req.application,
            expdate: user_req.expDate,
            created_at: now,
            created_by: String::from_str("SYSTEM"),
            updated_at: None,
            updated_by: None,
        }
    }

    /// The record for a user sent in a request, created now (by the local
    /// clock) by `SYSTEM` and never updated.
    pub fn from_user_req(user_req: UserReq) -> (r: UserMaster)
        ensures
            r.userid == user_req.userId,
            r.branchid == user_req.branchId,
            r.fullname == user_req.fullName,
            r.email == user_req.email,
            r.status == user_req.status,
            r.flgcbs == user_req.flgCbs,
            r.application == user_req.application,
            r.expdate == user_req.expDate,
            r.created_by@ == "SYSTEM"@,
            r.updated_at is None,
            r.updated_by is None,
    {
        let now = local_now();
        Self::from_user_req_at(user_req, now)
    }

    /// The user as a response shows it.
    pub fn to_user_res(self) -> (r: UserRes)
        ensures
            r.userId == self.userid,
            r.branchId == self.branchid,
            r.fullName == self.fullname,
            r.email == self.email,
            r.status == self.status,
            r.flgCbs == self.flgcbs,
            r.application == self.application,
            r.expDate == self.expdate,
    {
        UserRes {
            userId: self.userid,
            branchId: self.branchid,
            fullName: self.fullname,
            email: self.email,
            status: self.status,
            flgCbs: self.flgcbs,
            application: self.application,
            expDate: self.expdate,
        }
    }
}

} // verus!
