//! The per-request session and the guard in front of every write.

use vstd::prelude::*;
use crate::error::ServiceError;

verus! {

/// A request's session snapshot: the signed-in user, if any, and whether the
/// session's token is to be reissued when the response goes out.
#[derive(Debug, Clone, Copy, PartialEq, Eq)]
pub struct Session {
    pub user_id: Option<i64>,
    pub renewed: bool,
}

impl Session {
    /// A snapshot as read from the request; a missing or malformed session
    /// is read as `None`.
    pub fn new(user_id: Option<i64>) -> (r: Session)
        ensures
            r.user_id == user_id,
            !r.renewed,
    {
        Session { user_id, renewed: false }
    }

    /// The signed-in user's id, if any.
    pub fn current_user_id(&self) -> (r: Option<i64>)
        ensures
            r == self.user_id,
    {
        self.user_id
    }

    /// The signed-in user's id, or `Unauthorized` where there is none.
    pub fn authorize_or_deny(&self) -> (r: Result<i64, ServiceError>)
        ensures
            match self.user_id {
                Some(id) => r == Ok::<i64, ServiceError>(id),
                None => r == Err::<i64, ServiceError>(ServiceError::Unauthorized),
            },
    {
        match self.user_id {
            Some(id) => Ok(id),
            None => Err(ServiceError::Unauthorized),
        }
    }

    /// Records a successful login: the session now names this user.
    pub fn on_login_success(&mut self, user_id: i64)
        ensures
            final(self).user_id == Some(user_id),
            final(self).renewed == old(self).renewed,
    {
        self.user_id = Some(user_id);
    }

    /// Asks for the session's token to be reissued; the user is kept.
    pub fn renew(&mut self)
        ensures
            final(self).user_id == old(self).user_id,
            final(self).renewed,
    {
        self.renewed = true;
    }

    /// The check in front of a write: with a user, renews the session and
    /// returns the user's id; without one, returns `Unauthorized` and leaves
    /// the session as it was.
    pub fn authorize_write(&mut self) -> (r: Result<i64, ServiceError>)
        ensures
            final(self).user_id == old(self).user_id,
            match old(self).user_id {
                Some(id) => r == Ok::<i64, ServiceError>(id) && final(self).renewed,
                None => r == Err::<i64, ServiceError>(ServiceError::Unauthorized)
                    && *final(self) == *old(self),
            },
    {
        match self.user_id {
            Some(id) => {
                self.renew();
                Ok(id)
            },
            None => Err(ServiceError::Unauthorized),
        }
    }
}

} // verus!
