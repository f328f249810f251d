//! The decisions of the database-backed user repository: what each statement's
//! outcome means for the caller, and who is recorded as having made a change.
//! Running the statements is left to the caller.

use vstd::prelude::*;
use crate::error::ErrorApp;
use crate::user::UserMaster;

verus! {

/// Why a statement failed, as the database driver reports it.
pub enum DbError {
    /// A query that expected a row found none; with the driver's description.
    RowNotFound(String),
    /// The database refused the statement: whether it broke a unique key, the
    /// database's own message, and the driver's description.
    Database { unique_violation: bool, message: String, description: String },
    /// Any other failure, with the driver's description.
    Other(String),
}

impl DbError {
    /// The driver's description of the failure.
    pub open spec fn description(&self) -> Seq<char> {
        match self {
            DbError::RowNotFound(d) => d@,
            DbError::Database { description, .. } => description@,
            DbError::Other(d) => d@,
        }
    }

    /// The driver's description of the failure.
    pub fn describe(&self) -> (r: String)
        ensures
            r@ == self.description(),
    {
        match self {
            DbError::RowNotFound(d) => d.clone(),
            DbError::Database { description, .. } => description.clone(),
            DbError::Other(d) => d.clone(),
        }
    }
}

/// The repository of users kept in the `user_master` table.
pub struct UserRepoDb {}

impl UserRepoDb {
    pub fn new() -> (r: UserRepoDb) {
        UserRepoDb {  }
    }

    /// The outcome of reading every user: a failure is reported with the
    /// driver's description.
    pub fn find_all_result(found: Result<Vec<UserMaster>, DbError>) -> (r: Result<
        Vec<UserMaster>,
        ErrorApp,
    >)
        ensures
            match found {
                Ok(v) => r == Ok::<Vec<UserMaster>, ErrorApp>(v),
                Err(e) => r matches Err(ErrorApp::OtherErr(m)) && m@ == e.description(),
            },
    {
        match found {
            Ok(v) => Ok(v),
            Err(e) => Err(ErrorApp::OtherErr(e.describe())),
        }
    }

    /// The outcome of reading one user: no row means the user was not found;
    /// any other failure is reported with the driver's description.
    pub fn find_by_user_id_result(found: Result<UserMaster, DbError>) -> (r: Result<
        UserMaster,
        ErrorApp,
    >)
        ensures
            match found {
                Ok(u) => r == Ok::<UserMaster, ErrorApp>(u),
                Err(DbError::RowNotFound(_)) => r matches Err(ErrorApp::RowNotFound),
                Err(e) => r matches Err(ErrorApp::OtherErr(m)) && m@ == e.description(),
            },
    {
        match found {
            Ok(u) => Ok(u),
            Err(DbError::RowNotFound(_)) => Err(ErrorApp::RowNotFound),
            Err(e) => Err(ErrorApp::OtherErr(e.describe())),
        }
    }

    /// The outcome of inserting a user: a broken unique key means the user
    /// already exists; another refusal by the database is reported with the
    /// database's message; any other failure with the driver's description.
    pub fn create_result(executed: Result<u64, DbError>) -> (r: Result<(), ErrorApp>)
        ensures
            match executed {
                Ok(_) => r is Ok,
                Err(DbError::Database { unique_violation: true, .. }) => r matches Err(
                    ErrorApp::DuplicateKey,
                ),
                Err(DbError::Database { unique_violation: false, message, .. }) => r matches Err(
                    ErrorApp::OtherErr(m),
                ) && m@ == message@,
                Err(e) => r matches Err(ErrorApp::OtherErr(m)) && m@ == e.description(),
            },
    {
        match executed {
            Ok(_) => Ok(()),
            Err(DbError::Database { unique_violation: true, .. }) => Err(ErrorApp::DuplicateKey),
            Err(DbError::Database { unique_violation: false, message, .. }) => Err(
                ErrorApp::OtherErr(message),
            ),
            Err(e) => Err(ErrorApp::OtherErr(e.describe())),
        }
    }

    /// The outcome of an update or a delete by user id: no row affected means
    /// the user was not found; a failure is reported with the driver's
    /// description.
    pub fn rows_affected_result(executed: Result<u64, DbError>) -> (r: Result<(), ErrorApp>)
        ensures
            match executed {
                Ok(n) => if n == 0 {
                    r matches Err(ErrorApp::RowNotFound)
                } else {
                    r is Ok
                },
                Err(e) => r matches Err(ErrorApp::OtherErr(m)) && m@ == e.description(),
            },
    {
        match executed {
            Ok(n) => if n == 0 {
                Err(ErrorApp::RowNotFound)
            } else {
                Ok(())
            },
            Err(e) => Err(ErrorApp::OtherErr(e.describe())),
        }
    }

    /// Records `acting_user` as the creator of a user about to be inserted.
    pub fn prepare_create(user_master: &mut UserMaster, acting_user: &String)
        ensures
            final(user_master).created_by@ == acting_user@,
            final(user_master).userid == old(user_master).userid,
            final(user_master).branchid == old(user_master).branchid,
            final(user_master).fullname == old(user_master).fullname,
            final(user_master).email == old(user_master).email,
            final(user_master).status == old(user_master).status,
            final(user_master).flgcbs == old(user_master).flgcbs,
            final(user_master).application == old(user_master).application,
            final(user_master).expdate == old(user_master).expdate,
            final(user_master).created_at == old(user_master).created_at,
            final(user_master).updated_at == old(user_master).updated_at,
            final(user_master).updated_by == old(user_master).updated_by,
    {
        user_master.created_by = acting_user.clone();
    }

    /// Records `acting_user` as the last updater of a user about to be updated.
    pub fn prepare_update(user_master: &mut UserMaster, acting_user: &String)
        ensures
            final(user_master).updated_by matches Some(u) && u@ == acting_user@,
            final(user_master).userid == old(user_master).userid,
            final(user_master).branchid == old(user_master).branchid,
            final(user_master).fullname == old(user_master).fullname,
            final(user_master).email == old(user_master).email,
            final(user_master).status == old(user_master).status,
            final(user_master).flgcbs == old(user_master).flgcbs,
            final(user_master).application == old(user_master).application,
            final(user_master).expdate == old(user_master).expdate,
            final(user_master).created_at == old(user_master).created_at,
            final(user_master).created_by == old(user_master).created_by,
            final(user_master).updated_at == old(user_master).updated_at,
    {
        user_master.updated_by = Some(acting_user.clone());
    }
}

} // verus!
