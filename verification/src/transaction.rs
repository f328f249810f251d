//! The decisions of a transactional unit of work: which transaction manager
//! and propagation it asks for, whether it opens a transaction of its own, and
//! how its outcome is settled by commit or rollback. Opening, committing and
//! rolling back are left to the caller, who reports back how they went.

use vstd::prelude::*;
use vstd::string::*;
use crate::error::ErrorApp;
use crate::text::str_eq;

verus! {

/// The names a unit of work uses for its transaction manager (the pool, the
/// transaction slot and the flag that a transaction is open) and its
/// propagation (`REQUIRED` or `REQUIRED_NEW`).
pub struct TxOptions {
    pub db: String,
    pub tx: String,
    pub is_tx: String,
    pub propagation: String,
}

/// The options as plain text: db, tx, is_tx and propagation.
pub type TxNames = (Seq<char>, Seq<char>, Seq<char>, Seq<char>);

impl TxOptions {
    pub open spec fn names(&self) -> TxNames {
        (self.db@, self.tx@, self.is_tx@, self.propagation@)
    }
}

/// Whether a `key = "value"` pair names an option that units of work take.
pub open spec fn known_option(key: Seq<char>) -> bool {
    key == "txManager"@ || key == "propagation"@
}

/// The options after the pairs are read in order, starting from the default
/// manager `tx` and the propagation `REQUIRED`: a `txManager` other than `tx`
/// renames the three fields to `db_<m>`, `tx_<m>` and `is_tx_<m>`; a
/// `propagation` sets the propagation. A later pair overrides an earlier one.
pub open spec fn options_from(pairs: Seq<(Seq<char>, Seq<char>)>) -> TxNames
    decreases pairs.len(),
{
    if pairs.len() == 0 {
        ("db"@, "tx"@, "is_tx"@, "REQUIRED"@)
    } else {
        let before = options_from(pairs.drop_last());
        let (key, value) = pairs.last();
        if key == "txManager"@ {
            if value != "tx"@ {
                ("db_"@ + value, "tx_"@ + value, "is_tx_"@ + value, before.3)
            } else {
                before
            }
        } else {
            (before.0, before.1, before.2, value)
        }
    }
}

pub open spec fn pairs_view(pairs: Seq<(String, String)>) -> Seq<(Seq<char>, Seq<char>)> {
    pairs.map_values(|p: (String, String)| (p.0@, p.1@))
}

/// Whether a unit of work with this propagation opens a transaction of its
/// own, given whether one is open already: `REQUIRED` opens one only where
/// none is open, `REQUIRED_NEW` always, any other never.
pub open spec fn opens(propagation: Seq<char>, is_tx: bool) -> bool {
    (propagation == "REQUIRED"@ && !is_tx) || propagation == "REQUIRED_NEW"@
}

/// The next step once the work of a unit that opened a transaction is done.
pub enum TxStep<T> {
    /// Return this outcome as it is.
    Done(Result<T, ErrorApp>),
    /// Roll back, then report this error.
    Rollback(ErrorApp),
    /// Commit, then return this value.
    Commit(T),
}

pub open spec fn tx_missing_text() -> Seq<char> {
    "tx not found when finished"@
}

impl TxOptions {
    /// The options a unit of work asks for with the given pairs (see
    /// `options_from`).
    pub fn from_pairs(pairs: &Vec<(String, String)>) -> (r: TxOptions)
        requires
            forall|i: int| 0 <= i < pairs@.len() ==> known_option(#[trigger] pairs@[i].0@),
        ensures
            r.names() == options_from(pairs_view(pairs@)),
    {
        proof {
            reveal_strlit("txManager");
            reveal_strlit("tx");
        }
        let ghost pv = pairs_view(pairs@);
        let mut r = TxOptions {
            db: String::from_str("db"),
            tx: String::from_str("tx"),
            is_tx: String::from_str("is_tx"),
            propagation: String::from_str("REQUIRED"),
        };
        proof {
            assert(pv.take(0) =~= Seq::<(Seq<char>, Seq<char>)>::empty());
        }
        let n = pairs.len();
        let mut i: usize = 0;
        while i < n
            invariant
                n == pairs@.len(),
                pv == pairs_view(pairs@),
                0 <= i <= n,
                r.names() == options_from(pv.take(i as int)),
            decreases n - i,
        {
            proof {
                assert(pv.take(i + 1).drop_last() =~= pv.take(i as int));
                assert(pv.take(i + 1).last() == (pairs@[i as int].0@, pairs@[i as int].1@));
            }
            let key = pairs[i].0.as_str();
            let value = pairs[i].1.as_str();
            if str_eq(key, "txManager") {
                if !str_eq(value, "tx") {
                    let mut db = String::from_str("db_");
                    db.append(value);
                    let mut tx = String::from_str("tx_");
                    tx.append(value);
                    let mut is_tx = String::from_str("is_tx_");
                    is_tx.append(value);
                    r.db = db;
                    r.tx = tx;
                    r.is_tx = is_tx;
                }
            } else {
                r.propagation = String::from_str(value);
            }
            i = i + 1;
        }
        proof {
            assert(pv.take(n as int) =~= pv);
        }
        r
    }

    /// Whether the unit of work opens a transaction of its own (see `opens`).
    pub fn opens_transaction(&self, is_tx: bool) -> (r: bool)
        ensures
            r == opens(self.propagation@, is_tx),
    {
        str_eq(self.propagation.as_str(), "REQUIRED") && !is_tx || str_eq(
            self.propagation.as_str(),
            "REQUIRED_NEW",
        )
    }
}

/// The outcome of opening the transaction: a failure ends the unit of work
/// with the driver's description.
pub fn after_begin(begun: Result<(), String>) -> (r: Result<(), ErrorApp>)
    ensures
        match begun {
            Ok(_) => r is Ok,
            Err(m) => r matches Err(ErrorApp::OtherErr(e)) && e@ == m@,
        },
{
    match begun {
        Ok(_) => Ok(()),
        Err(m) => Err(ErrorApp::OtherErr(m)),
    }
}

/// The step `finish` takes: without a transaction in its slot the unit fails
/// with `tx not found when finished`; otherwise a failed work is rolled back
/// and a successful one committed.
pub open spec fn finish_step<T>(
    result: Result<T, ErrorApp>,
    tx_found: bool,
    step: TxStep<T>,
) -> bool {
    if !tx_found {
        step matches TxStep::Done(Err(ErrorApp::OtherErr(m))) && m@ == tx_missing_text()
    } else {
        match result {
            Ok(v) => step == TxStep::<T>::Commit(v),
            Err(e) => step == TxStep::<T>::Rollback(e),
        }
    }
}

/// The outcome after rolling back for `err`: `err` itself where the rollback
/// succeeded, else both descriptions joined by `: `.
pub open spec fn rollback_outcome<T>(
    err: ErrorApp,
    rolled_back: Result<(), String>,
    r: Result<T, ErrorApp>,
) -> bool {
    match rolled_back {
        Ok(_) => r matches Err(e) && e == err,
        Err(m) => r matches Err(ErrorApp::OtherErr(e)) && e@ == err.message() + ": "@ + m@,
    }
}

/// The outcome after committing `value`: the value where the commit
/// succeeded, else its failure with the driver's description.
pub open spec fn commit_outcome<T>(
    value: T,
    committed: Result<(), String>,
    r: Result<T, ErrorApp>,
) -> bool {
    match committed {
        Ok(_) => r == Ok::<T, ErrorApp>(value),
        Err(m) => r matches Err(ErrorApp::OtherErr(e)) && e@ == m@,
    }
}

/// What to do once the work of a unit that opened a transaction is done, given
/// its outcome and whether the transaction is still in its slot: without a
/// transaction the unit fails; a failed work is rolled back; a successful one
/// committed.
pub fn finish<T>(result: Result<T, ErrorApp>, tx_found: bool) -> (r: TxStep<T>)
    ensures
        finish_step(result, tx_found, r),
{
    if !tx_found {
        let text = String::from_str("tx not found when finished");
        return TxStep::Done(Err(ErrorApp::OtherErr(text)));
    }
    match result {
        Ok(v) => TxStep::Commit(v),
        Err(e) => TxStep::Rollback(e),
    }
}

/// The outcome after rolling back for the error `err`: the error itself, or,
/// where the rollback failed too, both descriptions joined by `: `.
pub fn after_rollback<T>(err: ErrorApp, rolled_back: Result<(), String>) -> (r: Result<T, ErrorApp>)
    ensures
        rollback_outcome(err, rolled_back, r),
{
    match rolled_back {
        Ok(_) => Err(err),
        Err(m) => {
            let mut text = err.to_string();
            text.append(": ");
            text.append(m.as_str());
            Err(ErrorApp::OtherErr(text))
        },
    }
}

/// The outcome after committing the successful work's `value`: the value, or
/// the commit's failure with the driver's description.
pub fn after_commit<T>(value: T, committed: Result<(), String>) -> (r: Result<T, ErrorApp>)
    ensures
        commit_outcome(value, committed, r),
{
    match committed {
        Ok(_) => Ok(value),
        Err(m) => Err(ErrorApp::OtherErr(m)),
    }
}

/// The step once the work of a unit is done, given whether the unit opened a
/// transaction of its own: a unit that opened none returns its work's outcome
/// as it is; one that did goes on as `finish_step` says.
pub open spec fn completion_step<T>(
    opened: bool,
    result: Result<T, ErrorApp>,
    tx_found: bool,
    step: TxStep<T>,
) -> bool {
    if opened {
        finish_step(result, tx_found, step)
    } else {
        step == TxStep::<T>::Done(result)
    }
}

/// What to do once the work of a unit is done (see `completion_step`);
/// `tx_found` matters only where the unit opened a transaction.
pub fn complete<T>(opened: bool, result: Result<T, ErrorApp>, tx_found: bool) -> (r: TxStep<T>)
    ensures
        completion_step(opened, result, tx_found, r),
{
    if opened {
        finish(result, tx_found)
    } else {
        TxStep::Done(result)
    }
}

/// A unit of work whose propagation does not call for a transaction of its own
/// (`REQUIRED` inside an open transaction, or any propagation other than
/// `REQUIRED` and `REQUIRED_NEW`) opens none and returns its work's outcome
/// unchanged.
pub proof fn law_unit_without_transaction_returns_the_work<T>(
    propagation: Seq<char>,
    is_tx: bool,
    result: Result<T, ErrorApp>,
    tx_found: bool,
    step: TxStep<T>,
)
    requires
        !opens(propagation, is_tx),
        completion_step(opens(propagation, is_tx), result, tx_found, step),
    ensures
        step == TxStep::<T>::Done(result),
{
}

/// A unit of work whose transaction is found at the end and settles cleanly
/// returns what its work returned: a successful work is committed and its
/// value returned, a failed one rolled back and its error returned.
pub proof fn law_clean_settlement_returns_the_work<T>(
    result: Result<T, ErrorApp>,
    step: TxStep<T>,
    outcome: Result<T, ErrorApp>,
)
    requires
        finish_step(result, true, step),
        step matches TxStep::Commit(v) ==> commit_outcome(v, Ok(()), outcome),
        step matches TxStep::Rollback(e) ==> rollback_outcome(e, Ok(()), outcome),
    ensures
        outcome == result,
        result is Ok <==> step is Commit,
{
}

/// Where a statement runs: in the open transaction, nowhere because a
/// transaction is marked open but is not in its slot, or on the pool.
pub enum ExecRoute {
    Transaction,
    MissingTransaction,
    Pool,
}

/// Where a statement runs, given whether a transaction is in the slot and
/// whether one is marked open.
pub fn execute_route(tx_present: bool, is_tx: bool) -> (r: ExecRoute)
    ensures
        tx_present ==> r is Transaction,
        !tx_present && is_tx ==> r is MissingTransaction,
        !tx_present && !is_tx ==> r is Pool,
{
    if tx_present {
        ExecRoute::Transaction
    } else if is_tx {
        ExecRoute::MissingTransaction
    } else {
        ExecRoute::Pool
    }
}


/// The manager and the propagation are set independently: a `txManager` pair
/// leaves the propagation as it was, a `propagation` pair sets the propagation
/// to its value and leaves the three manager names as they were; with no pairs
/// the propagation is `REQUIRED` and the names are `db`, `tx` and `is_tx`.
pub proof fn law_manager_and_propagation_are_independent(
    pairs: Seq<(Seq<char>, Seq<char>)>,
    value: Seq<char>,
)
    ensures
        options_from(pairs.push(("txManager"@, value))).3 == options_from(pairs).3,
        value != "tx"@ ==> options_from(pairs.push(("txManager"@, value))).0 == "db_"@ + value,
        value != "tx"@ ==> options_from(pairs.push(("txManager"@, value))).1 == "tx_"@ + value,
        value != "tx"@ ==> options_from(pairs.push(("txManager"@, value))).2 == "is_tx_"@
            + value,
        options_from(pairs.push(("propagation"@, value))).3 == value,
        options_from(pairs.push(("propagation"@, value))).0 == options_from(pairs).0,
        options_from(pairs.push(("propagation"@, value))).1 == options_from(pairs).1,
        options_from(pairs.push(("propagation"@, value))).2 == options_from(pairs).2,
        options_from(Seq::empty()) == ("db"@, "tx"@, "is_tx"@, "REQUIRED"@),
{
    reveal_strlit("txManager");
    reveal_strlit("propagation");
    assert(pairs.push(("txManager"@, value)).drop_last() =~= pairs);
    assert(pairs.push(("propagation"@, value)).drop_last() =~= pairs);
    assert("propagation"@[0] != "txManager"@[0]);
}

} // verus!
