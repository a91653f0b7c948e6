//! The user table: unique usernames, passwords stored only as digests and
//! never handed back, and the credential check.

use vstd::prelude::*;
use vstd::seq_lib::{to_multiset_build, to_multiset_insert};
use crate::error::ServiceError;
use crate::hasher::{constant_time_eq, digest_of, hash, is_digest_text, password_ok, HashConfig};
use crate::models::{Credentials, Duplicate, Record, User, UserInput};
use crate::repository::{contains_id, delete_count, index_of, rows_after_delete, rows_after_update, rows_wf, updated, Table};

verus! {

/// Some user has this username.
pub open spec fn has_username(rows: Seq<User>, name: Seq<char>) -> bool {
    exists|i: int| #![trigger rows[i]] 0 <= i < rows.len() && rows[i].fields.username@ == name
}

/// The position of the user with this username.
pub open spec fn username_index(rows: Seq<User>, name: Seq<char>) -> int
    recommends
        has_username(rows, name),
{
    choose|i: int| #![trigger rows[i]] 0 <= i < rows.len() && rows[i].fields.username@ == name
}

/// Users stand in ascending `created_at` order.
pub open spec fn by_creation(users: Seq<User>) -> bool {
    forall|a: int, b: int| 0 <= a < b < users.len() ==> (#[trigger] users[a]).created_at <= (#[trigger] users[b]).created_at
}

/// No two users share a username.
pub open spec fn usernames_unique(rows: Seq<User>) -> bool {
    forall|i: int, j: int| #![trigger rows[i], rows[j]]
        0 <= i < rows.len() && 0 <= j < rows.len() && i != j
            ==> rows[i].fields.username@ != rows[j].fields.username@
}

/// `r` is `u` with an empty password.
pub open spec fn blanked(r: User, u: User) -> bool {
    &&& r.id == u.id
    &&& r.created_at == u.created_at
    &&& r.updated_at == u.updated_at
    &&& r.fields.first_name == u.fields.first_name
    &&& r.fields.last_name == u.fields.last_name
    &&& r.fields.username == u.fields.username
    &&& r.fields.email == u.fields.email
    &&& r.fields.password@.len() == 0
}

/// The id that a create for this username returns: the existing user's, or
/// the next id to assign.
pub open spec fn created_user_id(rows: Seq<User>, next_id: i32, name: Seq<char>) -> i32 {
    if has_username(rows, name) {
        rows[username_index(rows, name)].id
    } else {
        next_id
    }
}

/// The fields that an update writes: names and email from the input, the
/// stored username and password digest kept.
pub open spec fn merged_fields(stored: UserInput, input: UserInput) -> UserInput {
    UserInput {
        first_name: input.first_name,
        last_name: input.last_name,
        username: stored.username,
        password: stored.password,
        email: input.email,
    }
}

/// Whether these credentials match the user found under their username, if
/// one was found.
pub open spec fn credentials_match(found: Option<User>, password: Seq<char>, salt: Seq<char>) -> bool {
    &&& password_ok(password)
    &&& match found {
        Some(u) => u.fields.password@ == digest_of(password, salt),
        None => false,
    }
}

/// The same user with an empty password.
pub fn blank_password(u: User) -> (r: User)
    ensures
        blanked(r, u),
{
    let User { id, fields, created_at, updated_at } = u;
    let UserInput { first_name, last_name, username, password: _, email } = fields;
    User {
        id,
        fields: UserInput { first_name, last_name, username, password: String::new(), email },
        created_at,
        updated_at,
    }
}

/// Compares a freshly computed digest with the one stored for the user that
/// the lookup found, in constant time. No user and a different digest give
/// the same `Unauthorized`; on a match the user comes back as found.
pub fn match_digest(supplied: &str, found: Option<User>) -> (r: Result<User, ServiceError>)
    ensures
        (found matches Some(u) && u.fields.password@ == supplied@) <==> r is Ok,
        r matches Ok(u) ==> u == found->Some_0,
        r is Err ==> r == Err::<User, ServiceError>(ServiceError::Unauthorized),
{
    match found {
        None => Err(ServiceError::Unauthorized),
        Some(user) => {
            if constant_time_eq(supplied, user.fields.password.as_str()) {
                Ok(user)
            } else {
                Err(ServiceError::Unauthorized)
            }
        },
    }
}

/// The credential check on the user found under the supplied username, if
/// any: the digest of the supplied password must equal the stored one. A
/// missing user, a wrong password and a password too long to hash give the
/// same `Unauthorized`. On a match the principal comes back as stored; its
/// password field holds the digest, never the plaintext.
pub fn check_credentials(config: &HashConfig, password: &str, found: Option<User>) -> (r: Result<User, ServiceError>)
    requires
        config.valid(),
    ensures
        credentials_match(found, password@, config.salt@) <==> r is Ok,
        r matches Ok(u) ==> u == found->Some_0,
        r matches Ok(u) ==> is_digest_text(u.fields.password@),
        r is Err ==> r == Err::<User, ServiceError>(ServiceError::Unauthorized),
{
    if password.as_bytes().len() > 0xffff_ffff {
        return Err(ServiceError::Unauthorized);
    }
    let supplied = hash(config, password);
    match_digest(supplied.as_str(), found)
}

/// The authentication service over a user lookup made elsewhere.
pub struct Auth {}

impl Auth {
    /// Checks credentials against the user that a lookup by their username
    /// found (`None`: no such user).
    pub fn authenticate(config: &HashConfig, credentials: &Credentials, found: Option<User>) -> (r: Result<User, ServiceError>)
        requires
            config.valid(),
            found matches Some(u) ==> u.fields.username@ == credentials.username@,
        ensures
            credentials_match(found, credentials.password@, config.salt@) <==> r is Ok,
            r matches Ok(u) ==> u == found->Some_0,
            r matches Ok(u) ==> is_digest_text(u.fields.password@),
            r is Err ==> r == Err::<User, ServiceError>(ServiceError::Unauthorized),
    {
        check_credentials(config, credentials.password.as_str(), found)
    }
}

/// What a user create did: returned the existing user (without its
/// password) and wrote nothing; or failed with `BadRequest` and wrote nothing
/// (a password too long to hash, or a store out of ids or clock);
/// or appended the new user with its password digest and returned it without
/// the password.
pub open spec fn create_user_done(before: UserTable, after: UserTable, salt: Seq<char>, input: UserInput, r: Result<User, ServiceError>) -> bool {
    &&& (has_username(before.rows(), input.username@) ==> {
            &&& r is Ok
            &&& blanked(r->Ok_0, before.rows()[username_index(before.rows(), input.username@)])
            &&& after == before
        })
    &&& (!has_username(before.rows(), input.username@) && (!password_ok(input.password@)
            || before.table.next_id == i32::MAX || before.table.clock == i64::MAX) ==> {
            &&& r matches Err(ServiceError::BadRequest(_))
            &&& after == before
        })
    &&& (!has_username(before.rows(), input.username@) && password_ok(input.password@)
            && before.table.next_id < i32::MAX && before.table.clock < i64::MAX ==> {
            let stored = after.rows().last();
            &&& after.rows() == before.rows().push(stored)
            &&& stored.id == before.table.next_id
            &&& stored.created_at == before.table.clock
            &&& stored.updated_at == before.table.clock
            &&& stored.fields.first_name == input.first_name
            &&& stored.fields.last_name == input.last_name
            &&& stored.fields.username == input.username
            &&& stored.fields.email == input.email
            &&& stored.fields.password@ == digest_of(input.password@, salt)
            &&& after.table.next_id == before.table.next_id + 1
            &&& after.table.clock == before.table.clock + 1
            &&& r is Ok
            &&& blanked(r->Ok_0, stored)
        })
    &&& (r matches Ok(u) ==> {
            &&& u.id == created_user_id(before.rows(), before.table.next_id, input.username@)
            &&& has_username(after.rows(), input.username@)
            &&& after.rows()[username_index(after.rows(), input.username@)].id == u.id
        })
}

/// What a user update did: `NotFound` or `InternalServerError` with nothing
/// written, or the row replaced by its merged fields and returned without the
/// password.
pub open spec fn update_user_done(before: UserTable, after: UserTable, id: i32, input: UserInput, r: Result<User, ServiceError>) -> bool {
    &&& (!contains_id(before.rows(), id) ==> {
            &&& r == Err::<User, ServiceError>(ServiceError::NotFound)
            &&& after == before
        })
    &&& (contains_id(before.rows(), id) && before.table.clock == i64::MAX ==> {
            &&& r == Err::<User, ServiceError>(ServiceError::InternalServerError)
            &&& after == before
        })
    &&& (contains_id(before.rows(), id) && before.table.clock < i64::MAX ==> {
            let merged = merged_fields(before.rows()[index_of(before.rows(), id)].fields, input);
            &&& after.rows() == rows_after_update(before.rows(), id, merged, before.table.clock)
            &&& after.table.next_id == before.table.next_id
            &&& after.table.clock == before.table.clock + 1
            &&& r is Ok
            &&& blanked(r->Ok_0, updated(before.rows(), id, merged, before.table.clock))
        })
}

/// The user table.
pub struct UserTable {
    pub table: Table<UserInput>,
}

impl UserTable {
    pub open spec fn wf(&self) -> bool {
        &&& self.table.wf()
        &&& usernames_unique(self.table.rows@)
    }

    pub open spec fn rows(&self) -> Seq<User> {
        self.table.rows@
    }

    /// An empty user table.
    pub fn new() -> (r: UserTable)
        ensures
            r.wf(),
            r.rows().len() == 0,
            r.table.next_id == 1,
            r.table.clock == 0,
    {
        UserTable { table: Table::new() }
    }

    /// Every user, in ascending `created_at` order.
    pub fn find_all(&self) -> (r: Vec<User>)
        requires
            self.wf(),
        ensures
            r@.to_multiset() == self.rows().to_multiset(),
            by_creation(r@),
    {
        let rows = &self.table.rows;
        let mut out: Vec<User> = Vec::new();
        let mut i: usize = 0;
        assert(out@ =~= rows@.subrange(0, 0));
        while i < rows.len()
            invariant
                rows@ == self.rows(),
                i <= rows@.len(),
                out@.to_multiset() == rows@.subrange(0, i as int).to_multiset(),
                by_creation(out@),
            decreases rows@.len() - i,
        {
            let rec = rows[i].duplicate();
            let mut j: usize = 0;
            while j < out.len() && out[j].created_at <= rec.created_at
                invariant
                    j <= out@.len(),
                    forall|k: int| 0 <= k < j ==> (#[trigger] out@[k]).created_at <= rec.created_at,
                decreases out@.len() - j,
            {
                j = j + 1;
            }
            let ghost before = out@;
            out.insert(j, rec);
            proof {
                to_multiset_insert(before, j as int, rec);
                to_multiset_build(rows@.subrange(0, i as int), rows@[i as int]);
                assert(rows@.subrange(0, i + 1) =~= rows@.subrange(0, i as int).push(rows@[i as int]));
                let now = out@;
                assert forall|a: int, b: int| 0 <= a < b < now.len()
                    implies (#[trigger] now[a]).created_at <= (#[trigger] now[b]).created_at by {
                    if b < j {
                        assert(now[a] == before[a] && now[b] == before[b]);
                    } else if b == j {
                        assert(now[a] == before[a]);
                    } else if a < j {
                        assert(now[a] == before[a] && now[b] == before[b - 1]);
                        assert(before[j as int].created_at > rec.created_at);
                    } else if a == j {
                        assert(now[b] == before[b - 1]);
                        assert(before[j as int].created_at > rec.created_at);
                    } else {
                        assert(now[a] == before[a - 1] && now[b] == before[b - 1]);
                    }
                }
            }
            i = i + 1;
        }
        assert(rows@.subrange(0, i as int) =~= rows@);
        out
    }

    /// The user with this id, or `NotFound`.
    pub fn find_by_id(&self, id: i32) -> (r: Result<User, ServiceError>)
        requires
            self.wf(),
        ensures
            contains_id(self.rows(), id) ==> r == Ok::<User, ServiceError>(self.rows()[index_of(self.rows(), id)]),
            !contains_id(self.rows(), id) ==> r == Err::<User, ServiceError>(ServiceError::NotFound),
    {
        self.table.find_by_id(id)
    }

    /// The user with exactly this username, or `NotFound`.
    pub fn find_by_username(&self, username: &str) -> (r: Result<User, ServiceError>)
        requires
            self.wf(),
        ensures
            has_username(self.rows(), username@) ==> r == Ok::<User, ServiceError>(
                self.rows()[username_index(self.rows(), username@)],
            ),
            !has_username(self.rows(), username@) ==> r == Err::<User, ServiceError>(ServiceError::NotFound),
    {
        let rows = &self.table.rows;
        let mut i: usize = 0;
        while i < rows.len()
            invariant
                self.wf(),
                rows@ == self.rows(),
                i <= rows@.len(),
                forall|k: int| 0 <= k < i ==> (#[trigger] rows@[k]).fields.username@ != username@,
            decreases rows@.len() - i,
        {
            if constant_time_eq(rows[i].fields.username.as_str(), username) {
                proof {
                    let all = self.rows();
                    assert(all[i as int].fields.username@ == username@);
                    assert(has_username(all, username@));
                    let j = username_index(all, username@);
                    assert(0 <= j < all.len() && all[j].fields.username@ == username@);
                    if j != i {
                        assert(all[j].fields.username@ != all[i as int].fields.username@);
                    }
                }
                return Ok(rows[i].duplicate());
            }
            i = i + 1;
        }
        Err(ServiceError::NotFound)
    }

    /// Creates a user whose password is stored as its digest, and returns
    /// it without the password. Where a user with the same username exists,
    /// that user is returned instead (without its password) and nothing is
    /// written. Fails with `BadRequest`, writing nothing, when the store has
    /// run out of ids or of clock.
    pub fn create(&mut self, config: &HashConfig, input: UserInput) -> (r: Result<User, ServiceError>)
        requires
            old(self).wf(),
            config.valid(),
        ensures
            final(self).wf(),
            create_user_done(*old(self), *final(self), config.salt@, input, r),
    {
        match self.find_by_username(input.username.as_str()) {
            Ok(existing) => Ok(blank_password(existing)),
            Err(_) => {
                if input.password.as_str().as_bytes().len() > 0xffff_ffff {
                    return Err(ServiceError::BadRequest("the password is too long to hash".to_owned()));
                }
                let digest = hash(config, input.password.as_str());
                let ghost name = input.username@;
                let UserInput { first_name, last_name, username, password: _, email } = input;
                let fields = UserInput { first_name, last_name, username, password: digest, email };
                let ghost old_rows = self.rows();
                let created = self.table.create(fields);
                match created {
                    Ok(u) => {
                        proof {
                            let rows = self.rows();
                            let last = rows.len() - 1;
                            assert(rows[last].fields.username@ == name);
                            assert forall|i: int, j: int| #![trigger rows[i], rows[j]]
                                0 <= i < rows.len() && 0 <= j < rows.len() && i != j
                                implies rows[i].fields.username@ != rows[j].fields.username@ by {
                                if i < last && j < last {
                                    assert(rows[i] == old_rows[i] && rows[j] == old_rows[j]);
                                } else if i < last {
                                    assert(rows[i] == old_rows[i]);
                                } else {
                                    assert(rows[j] == old_rows[j]);
                                }
                            }
                            assert(has_username(rows, name));
                            let k = username_index(rows, name);
                            assert(0 <= k < rows.len() && rows[k].fields.username@ == name);
                            if k != last {
                                assert(rows[k].fields.username@ != rows[last].fields.username@);
                            }
                        }
                        Ok(blank_password(u))
                    },
                    Err(e) => Err(e),
                }
            },
        }
    }

    /// Replaces the first name, last name and email of the user with this
    /// id, keeping the username and the password digest, and returns the user
    /// without the password. `NotFound` when no user has the id;
    /// `InternalServerError` when the store has run out of clock. A failure
    /// writes nothing.
    pub fn update(&mut self, id: i32, input: UserInput) -> (r: Result<User, ServiceError>)
        requires
            old(self).wf(),
        ensures
            final(self).wf(),
            update_user_done(*old(self), *final(self), id, input, r),
    {
        match self.table.find_by_id(id) {
            Err(e) => Err(e),
            Ok(stored) => {
                let ghost old_rows = self.rows();
                let ghost pos = index_of(old_rows, id);
                let UserInput { first_name, last_name, username: _, password: _, email } = input;
                let Record { id: _, fields: kept, created_at: _, updated_at: _ } = stored;
                let UserInput { first_name: _, last_name: _, username, password, email: _ } = kept;
                let merged = UserInput { first_name, last_name, username, password, email };
                let result = self.table.update(id, merged);
                match result {
                    Ok(u) => {
                        proof {
                            let rows = self.rows();
                            let mid = old_rows.remove(pos);
                            let last = rows.len() - 1;
                            assert(rows == mid.push(rows[last]));
                            assert(rows[last].fields.username == old_rows[pos].fields.username);
                            assert forall|i: int, j: int| #![trigger rows[i], rows[j]]
                                0 <= i < rows.len() && 0 <= j < rows.len() && i != j
                                implies rows[i].fields.username@ != rows[j].fields.username@ by {
                                let oi = if i == last { pos } else if i < pos { i } else { i + 1 };
                                let oj = if j == last { pos } else if j < pos { j } else { j + 1 };
                                assert(rows[i].fields.username == old_rows[oi].fields.username);
                                assert(rows[j].fields.username == old_rows[oj].fields.username);
                                assert(old_rows[oi].fields.username@ != old_rows[oj].fields.username@);
                            }
                        }
                        Ok(blank_password(u))
                    },
                    Err(e) => Err(e),
                }
            },
        }
    }

    /// Removes the user with this id; returns how many users went (0 or 1).
    pub fn delete(&mut self, id: i32) -> (r: u64)
        requires
            old(self).wf(),
        ensures
            final(self).wf(),
            r == delete_count(old(self).rows(), id),
            final(self).rows() == rows_after_delete(old(self).rows(), id),
            final(self).table.next_id == old(self).table.next_id,
            final(self).table.clock == old(self).table.clock,
    {
        let ghost old_rows = self.rows();
        let r = self.table.delete(id);
        proof {
            let rows = self.rows();
            if contains_id(old_rows, id) {
                let pos = index_of(old_rows, id);
                assert forall|i: int, j: int| #![trigger rows[i], rows[j]]
                    0 <= i < rows.len() && 0 <= j < rows.len() && i != j
                    implies rows[i].fields.username@ != rows[j].fields.username@ by {
                    let oi = if i < pos { i } else { i + 1 };
                    let oj = if j < pos { j } else { j + 1 };
                    assert(rows[i] == old_rows[oi]);
                    assert(rows[j] == old_rows[oj]);
                }
            }
        }
        r
    }

    /// Looks the user up by the supplied username and checks the password.
    /// An unknown username and a wrong password give the same
    /// `Unauthorized`; the principal comes back as stored.
    pub fn authenticate(&self, config: &HashConfig, credentials: &Credentials) -> (r: Result<User, ServiceError>)
        requires
            self.wf(),
            config.valid(),
        ensures
            ({
                let rows = self.rows();
                let name = credentials.username@;
                password_ok(credentials.password@) && has_username(rows, name)
                    && rows[username_index(rows, name)].fields.password@
                        == digest_of(credentials.password@, config.salt@)
            }) <==> r is Ok,
            r matches Ok(u) ==> u == self.rows()[username_index(self.rows(), credentials.username@)],
            r matches Ok(u) ==> is_digest_text(u.fields.password@),
            r is Err ==> r == Err::<User, ServiceError>(ServiceError::Unauthorized),
    {
        let found = match self.find_by_username(credentials.username.as_str()) {
            Ok(u) => Some(u),
            Err(_) => None,
        };
        Auth::authenticate(config, credentials, found)
    }
}

/// The principal handed back by a successful login carries the stored
/// digest of the plaintext, 64 lower-case hex digits, so it equals the
/// plaintext only where the plaintext is itself 64 such digits.
pub proof fn lemma_principal_hides_password(principal: User, plaintext: Seq<char>, salt: Seq<char>)
    requires
        principal.fields.password@ == digest_of(plaintext, salt),
        is_digest_text(principal.fields.password@),
        !is_digest_text(plaintext),
    ensures
        principal.fields.password@ != plaintext,
{
}

/// A create for a username that a create already stored returns the id
/// that the first create returned: once a user with `name` exists under id
/// `first_id`, a second create for `name` yields `first_id` again.
pub proof fn lemma_create_user_idempotent(rows: Seq<User>, next_id: i32, clock: i64, name: Seq<char>, first_id: i32)
    requires
        rows_wf(rows, next_id, clock),
        usernames_unique(rows),
        has_username(rows, name),
        rows[username_index(rows, name)].id == first_id,
    ensures
        created_user_id(rows, next_id, name) == first_id,
{
}

} // verus!
