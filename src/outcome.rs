//! The decisions around one store transaction. The store work itself (begin,
//! run the statement, commit, or drop to roll back) happens outside; after
//! each step the caller hands back what the store reported, and these
//! functions say what to do next and what the caller is answered.

use vstd::prelude::*;
use crate::error::ServiceError;
use crate::handlers::delete_response;
use crate::models::User;
use crate::users::{blank_password, blanked};

verus! {

/// What a statement that returns at most one row reported.
pub enum Fetched<T> {
    /// The row that the statement returned.
    Row(T),
    /// The statement ran and matched no row.
    NoRow,
    /// The store failed to run the statement.
    Failed,
}

/// Whether the transaction is to be committed: only once its statement
/// returned a row. Otherwise it is dropped, which rolls it back.
pub fn should_commit<T>(statement: &Fetched<T>) -> (r: bool)
    ensures
        r == (statement is Row),
{
    match statement {
        Fetched::Row(_) => true,
        _ => false,
    }
}

/// The answer to a read of every row: the rows, or `InternalServerError`
/// when the store could not be read.
pub fn find_all_outcome<T>(rows: Option<Vec<T>>) -> (r: Result<Vec<T>, ServiceError>)
    ensures
        match rows {
            Some(v) => r == Ok::<Vec<T>, ServiceError>(v),
            None => r == Err::<Vec<T>, ServiceError>(ServiceError::InternalServerError),
        },
{
    match rows {
        Some(v) => Ok(v),
        None => Err(ServiceError::InternalServerError),
    }
}

/// The answer to a read by id: the row, `NotFound`, or
/// `InternalServerError` when the store failed.
pub fn find_by_id_outcome<T>(fetched: Fetched<T>) -> (r: Result<T, ServiceError>)
    ensures
        match fetched {
            Fetched::Row(t) => r == Ok::<T, ServiceError>(t),
            Fetched::NoRow => r == Err::<T, ServiceError>(ServiceError::NotFound),
            Fetched::Failed => r == Err::<T, ServiceError>(ServiceError::InternalServerError),
        },
{
    match fetched {
        Fetched::Row(t) => Ok(t),
        Fetched::NoRow => Err(ServiceError::NotFound),
        Fetched::Failed => Err(ServiceError::InternalServerError),
    }
}

/// The answer to a create: the inserted row only when the transaction began,
/// the insert returned the row and the commit went through; any other
/// outcome is the generic creation failure, `BadRequest`.
pub fn create_outcome<T>(begun: bool, inserted: Fetched<T>, committed: bool) -> (r: Result<T, ServiceError>)
    ensures
        begun && committed && inserted is Row ==> r == Ok::<T, ServiceError>(inserted->Row_0),
        !(begun && committed && inserted is Row) ==> r matches Err(ServiceError::BadRequest(_)),
{
    if !begun || !committed {
        return Err(ServiceError::BadRequest("Error trying to create a new record".to_owned()));
    }
    match inserted {
        Fetched::Row(t) => Ok(t),
        _ => Err(ServiceError::BadRequest("Error trying to create a new record".to_owned())),
    }
}

/// The answer to an update: no row matched is `NotFound`; a statement that
/// failed is `BadRequest`; a transaction that could not begin or commit is
/// `InternalServerError`; only a committed update returns the row.
pub fn update_outcome<T>(begun: bool, statement: Fetched<T>, committed: bool) -> (r: Result<T, ServiceError>)
    ensures
        !begun ==> r == Err::<T, ServiceError>(ServiceError::InternalServerError),
        begun ==> match statement {
            Fetched::Row(t) => if committed {
                r == Ok::<T, ServiceError>(t)
            } else {
                r == Err::<T, ServiceError>(ServiceError::InternalServerError)
            },
            Fetched::NoRow => r == Err::<T, ServiceError>(ServiceError::NotFound),
            Fetched::Failed => r matches Err(ServiceError::BadRequest(_)),
        },
{
    if !begun {
        return Err(ServiceError::InternalServerError);
    }
    match statement {
        Fetched::Row(t) => if committed {
            Ok(t)
        } else {
            Err(ServiceError::InternalServerError)
        },
        Fetched::NoRow => Err(ServiceError::NotFound),
        Fetched::Failed => Err(ServiceError::BadRequest("Error trying to update the record".to_owned())),
    }
}

/// The answer to a delete: any failure of the transaction, including a
/// commit that failed after the statement ran, is `InternalServerError`;
/// otherwise no row removed is `NotFound` and one is the count.
pub fn delete_tx_outcome(begun: bool, affected: Option<u64>, committed: bool) -> (r: Result<u64, ServiceError>)
    ensures
        !(begun && committed && affected is Some) ==> r == Err::<u64, ServiceError>(ServiceError::InternalServerError),
        begun && committed && affected is Some ==> r == delete_response(affected->Some_0),
{
    if !begun || !committed {
        return Err(ServiceError::InternalServerError);
    }
    match affected {
        Some(n) => crate::handlers::delete_outcome(n),
        None => Err(ServiceError::InternalServerError),
    }
}

/// The first step of a user create, after the lookup by username.
pub enum UserCreateStep {
    /// The username is taken: answer with this user, its password emptied;
    /// nothing is written.
    Existing(User),
    /// No such user: hash the password and insert.
    Insert,
    /// The lookup failed: answer with this failure.
    Fail(ServiceError),
}

/// Decides a user create from the lookup by its username.
pub fn user_create_step(found: Fetched<User>) -> (r: UserCreateStep)
    ensures
        match found {
            Fetched::Row(u) => r matches UserCreateStep::Existing(e) && blanked(e, u),
            Fetched::NoRow => r is Insert,
            Fetched::Failed => r matches UserCreateStep::Fail(ServiceError::BadRequest(_)),
        },
{
    match found {
        Fetched::Row(u) => UserCreateStep::Existing(blank_password(u)),
        Fetched::NoRow => UserCreateStep::Insert,
        Fetched::Failed => UserCreateStep::Fail(ServiceError::BadRequest("Error trying to create new user".to_owned())),
    }
}

/// The answer to a user create or update once the store has reported: as
/// for any create or update, with the password emptied on success.
pub fn user_write_outcome(r: Result<User, ServiceError>) -> (out: Result<User, ServiceError>)
    ensures
        match r {
            Ok(u) => out is Ok && blanked(out->Ok_0, u),
            Err(e) => out == Err::<User, ServiceError>(e),
        },
{
    match r {
        Ok(u) => Ok(blank_password(u)),
        Err(e) => Err(e),
    }
}

} // verus!
