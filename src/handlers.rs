//! Guarded writes over the in-memory tables of `repository` and `users`:
//! each checks the session first, renews it, and only then touches a table.
//! Reads need no session. These tables model the relational store; a service
//! that keeps its rows in a database server runs the same guard
//! (`Session::authorize_write`) and answers through the functions of
//! `outcome` instead.

use vstd::prelude::*;
use crate::error::ServiceError;
use crate::hasher::{digest_of, password_ok, HashConfig};
use crate::models::{Credentials, Duplicate, Record, User, UserInput};
use crate::repository::{contains_id, delete_count, rows_after_delete, rows_after_update, updated, Table};
use crate::session::Session;
use crate::users::{create_user_done, has_username, update_user_done, username_index, UserTable};

verus! {

/// The answer to a delete that removed `count` rows: none means `NotFound`.
pub open spec fn delete_response(count: u64) -> Result<u64, ServiceError> {
    if count == 0 {
        Err(ServiceError::NotFound)
    } else {
        Ok(count)
    }
}

/// Maps a delete's affected-row count to the caller's answer.
pub fn delete_outcome(count: u64) -> (r: Result<u64, ServiceError>)
    ensures
        r == delete_response(count),
{
    if count == 0 {
        Err(ServiceError::NotFound)
    } else {
        Ok(count)
    }
}

/// Creates a row for a signed-in user. Without a user in the session:
/// `Unauthorized`, and neither the session nor the table changes.
pub fn create<F: Duplicate>(session: &mut Session, table: &mut Table<F>, input: F) -> (r: Result<Record<F>, ServiceError>)
    requires
        old(table).wf(),
    ensures
        final(table).wf(),
        old(session).user_id is None ==> {
            &&& r == Err::<Record<F>, ServiceError>(ServiceError::Unauthorized)
            &&& *final(session) == *old(session)
            &&& *final(table) == *old(table)
        },
        old(session).user_id is Some ==> {
            &&& final(session).user_id == old(session).user_id
            &&& final(session).renewed
            &&& (old(table).next_id == i32::MAX || old(table).clock == i64::MAX) ==> {
                &&& r matches Err(ServiceError::BadRequest(_))
                &&& *final(table) == *old(table)
            }
            &&& (old(table).next_id < i32::MAX && old(table).clock < i64::MAX) ==> {
                let rec = Record { id: old(table).next_id, fields: input, created_at: old(table).clock, updated_at: old(table).clock };
                &&& r == Ok::<Record<F>, ServiceError>(rec)
                &&& final(table).rows@ == old(table).rows@.push(rec)
                &&& final(table).next_id == old(table).next_id + 1
                &&& final(table).clock == old(table).clock + 1
            }
        },
{
    match session.authorize_write() {
        Err(e) => Err(e),
        Ok(_user) => table.create(input),
    }
}

/// Updates a row for a signed-in user. Without a user in the session:
/// `Unauthorized`, and neither the session nor the table changes.
pub fn update<F: Duplicate>(session: &mut Session, table: &mut Table<F>, id: i32, input: F) -> (r: Result<Record<F>, ServiceError>)
    requires
        old(table).wf(),
    ensures
        final(table).wf(),
        old(session).user_id is None ==> {
            &&& r == Err::<Record<F>, ServiceError>(ServiceError::Unauthorized)
            &&& *final(session) == *old(session)
            &&& *final(table) == *old(table)
        },
        old(session).user_id is Some ==> {
            &&& final(session).user_id == old(session).user_id
            &&& final(session).renewed
            &&& !contains_id(old(table).rows@, id) ==> {
                &&& r == Err::<Record<F>, ServiceError>(ServiceError::NotFound)
                &&& *final(table) == *old(table)
            }
            &&& contains_id(old(table).rows@, id) && old(table).clock < i64::MAX ==> {
                &&& r == Ok::<Record<F>, ServiceError>(updated(old(table).rows@, id, input, old(table).clock))
                &&& final(table).rows@ == rows_after_update(old(table).rows@, id, input, old(table).clock)
                &&& final(table).next_id == old(table).next_id
                &&& final(table).clock == old(table).clock + 1
            }
            &&& contains_id(old(table).rows@, id) && old(table).clock == i64::MAX ==> {
                &&& r == Err::<Record<F>, ServiceError>(ServiceError::InternalServerError)
                &&& *final(table) == *old(table)
            }
        },
{
    match session.authorize_write() {
        Err(e) => Err(e),
        Ok(_user) => table.update(id, input),
    }
}

/// Deletes a row for a signed-in user and answers `NotFound` when no row
/// had the id. Without a user in the session: `Unauthorized`, and neither the
/// session nor the table changes.
pub fn delete<F: Duplicate>(session: &mut Session, table: &mut Table<F>, id: i32) -> (r: Result<u64, ServiceError>)
    requires
        old(table).wf(),
    ensures
        final(table).wf(),
        old(session).user_id is None ==> {
            &&& r == Err::<u64, ServiceError>(ServiceError::Unauthorized)
            &&& *final(session) == *old(session)
            &&& *final(table) == *old(table)
        },
        old(session).user_id is Some ==> {
            &&& final(session).user_id == old(session).user_id
            &&& final(session).renewed
            &&& r == delete_response(delete_count(old(table).rows@, id))
            &&& final(table).rows@ == rows_after_delete(old(table).rows@, id)
            &&& final(table).next_id == old(table).next_id
            &&& final(table).clock == old(table).clock
        },
{
    match session.authorize_write() {
        Err(e) => Err(e),
        Ok(_user) => {
            let count = table.delete(id);
            delete_outcome(count)
        },
    }
}

/// Creates a user for a signed-in user (see `UserTable::create`). Without a
/// user in the session: `Unauthorized`, and neither the session nor the
/// table changes.
pub fn create_user(session: &mut Session, users: &mut UserTable, config: &HashConfig, input: UserInput) -> (r: Result<User, ServiceError>)
    requires
        old(users).wf(),
        config.valid(),
    ensures
        final(users).wf(),
        old(session).user_id is None ==> {
            &&& r == Err::<User, ServiceError>(ServiceError::Unauthorized)
            &&& *final(session) == *old(session)
            &&& *final(users) == *old(users)
        },
        old(session).user_id is Some ==> {
            &&& final(session).user_id == old(session).user_id
            &&& final(session).renewed
            &&& create_user_done(*old(users), *final(users), config.salt@, input, r)
        },
{
    match session.authorize_write() {
        Err(e) => Err(e),
        Ok(_user) => users.create(config, input),
    }
}

/// Updates a user for a signed-in user (see `UserTable::update`). Without a
/// user in the session: `Unauthorized`, and neither the session nor the
/// table changes.
pub fn update_user(session: &mut Session, users: &mut UserTable, id: i32, input: UserInput) -> (r: Result<User, ServiceError>)
    requires
        old(users).wf(),
    ensures
        final(users).wf(),
        old(session).user_id is None ==> {
            &&& r == Err::<User, ServiceError>(ServiceError::Unauthorized)
            &&& *final(session) == *old(session)
            &&& *final(users) == *old(users)
        },
        old(session).user_id is Some ==> {
            &&& final(session).user_id == old(session).user_id
            &&& final(session).renewed
            &&& update_user_done(*old(users), *final(users), id, input, r)
        },
{
    match session.authorize_write() {
        Err(e) => Err(e),
        Ok(_user) => users.update(id, input),
    }
}

/// Deletes a user for a signed-in user and answers `NotFound` when no user
/// had the id. Without a user in the session: `Unauthorized`, and neither the
/// session nor the table changes.
pub fn delete_user(session: &mut Session, users: &mut UserTable, id: i32) -> (r: Result<u64, ServiceError>)
    requires
        old(users).wf(),
    ensures
        final(users).wf(),
        old(session).user_id is None ==> {
            &&& r == Err::<u64, ServiceError>(ServiceError::Unauthorized)
            &&& *final(session) == *old(session)
            &&& *final(users) == *old(users)
        },
        old(session).user_id is Some ==> {
            &&& final(session).user_id == old(session).user_id
            &&& final(session).renewed
            &&& r == delete_response(delete_count(old(users).rows(), id))
            &&& final(users).rows() == rows_after_delete(old(users).rows(), id)
            &&& final(users).table.next_id == old(users).table.next_id
            &&& final(users).table.clock == old(users).table.clock
        },
{
    match session.authorize_write() {
        Err(e) => Err(e),
        Ok(_user) => {
            let count = users.delete(id);
            delete_outcome(count)
        },
    }
}

/// Logs a user in: on matching credentials the session names the user's id;
/// otherwise `Unauthorized` and the session is unchanged.
pub fn login(session: &mut Session, users: &UserTable, config: &HashConfig, credentials: &Credentials) -> (r: Result<User, ServiceError>)
    requires
        users.wf(),
        config.valid(),
    ensures
        r matches Ok(u) ==> final(session).user_id == Some(u.id as i64)
            && final(session).renewed == old(session).renewed,
        r is Err ==> r == Err::<User, ServiceError>(ServiceError::Unauthorized) && *final(session) == *old(session),
        r is Ok <==> ({
            let rows = users.rows();
            let name = credentials.username@;
            password_ok(credentials.password@) && has_username(rows, name)
                && rows[username_index(rows, name)].fields.password@
                    == digest_of(credentials.password@, config.salt@)
        }),
        r matches Ok(u) ==> u == users.rows()[username_index(users.rows(), credentials.username@)],
{
    let result = users.authenticate(config, credentials);
    match result {
        Ok(u) => {
            session.on_login_success(u.id as i64);
            Ok(u)
        },
        Err(e) => Err(e),
    }
}

/// A delete on an id that no row has reports no row removed and is answered
/// `NotFound`; on an id that a row has it reports one row and the id is gone.
pub proof fn lemma_delete_answers<F>(rows: Seq<Record<F>>, id: i32)
    ensures
        !contains_id(rows, id) ==> delete_response(delete_count(rows, id)) == Err::<u64, ServiceError>(ServiceError::NotFound),
        contains_id(rows, id) ==> delete_response(delete_count(rows, id)) == Ok::<u64, ServiceError>(1),
{
}

} // verus!
