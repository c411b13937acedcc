use vstd::prelude::*;

verus! {

/// A stored user record.
#[derive(Debug, Clone, PartialEq, Eq)]
pub struct User {
    pub id: i32,
    pub username: String,
    pub email: Option<String>,
    pub password_hash: String,
}

/// Payload for creating a user. The password arrives in the clear; it is
/// hashed outside this crate before storage.
#[derive(Debug, Clone, PartialEq, Eq)]
pub struct CreateUser {
    pub username: String,
    pub email: Option<String>,
    pub password: String,
}

/// Partial update of a user record: an absent field keeps its current
/// value.
#[derive(Debug, Clone, PartialEq, Eq)]
pub struct UpdateUser {
    pub username: Option<String>,
    pub email: Option<String>,
    pub password: Option<String>,
}

/// Credentials presented at login.
#[derive(Debug, Clone, PartialEq, Eq)]
pub struct LoginRequest {
    pub username: String,
    pub password: String,
}

/// Token handed back on a successful login.
#[derive(Debug, Clone, PartialEq, Eq)]
pub struct LoginResponse {
    pub token: String,
}

impl User {
    /// The email the record ends up with after an update: the requested
    /// one, else the current one, else empty.
    pub open spec fn spec_merged_email(self, update: UpdateUser) -> Seq<char> {
        match update.email {
            Some(e) => e@,
            None => match self.email {
                Some(e) => e@,
                None => Seq::empty(),
            },
        }
    }

    /// Merges a partial update into this record: each requested field
    /// replaces the current one, absent fields are kept, and the identity
    /// never changes. A password change arrives as the new hash, computed
    /// outside this crate exactly when the update carries a password.
    pub fn apply_update(self, update: UpdateUser, new_password_hash: Option<String>) -> (r: User)
        requires
            new_password_hash is Some <==> update.password is Some,
        ensures
            r.id == self.id,
            r.username == (match update.username {
                Some(u) => u,
                None => self.username,
            }),
            (r.email matches Some(e) && e@ == self.spec_merged_email(update)),
            r.password_hash == (match new_password_hash {
                Some(h) => h,
                None => self.password_hash,
            }),
    {
        let username = match update.username {
            Some(u) => u,
            None => self.username,
        };
        let email = match update.email {
            Some(e) => e,
            None => match self.email {
                Some(e) => e,
                None => String::new(),
            },
        };
        let password_hash = match new_password_hash {
            Some(h) => h,
            None => self.password_hash,
        };
        User { id: self.id, username, email: Some(email), password_hash }
    }
}

} // verus!
