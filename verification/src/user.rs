//! Accounts, the identities linked to them, and their access logs.

use vstd::prelude::*;

verus! {

/// Role value of an administrator account.
pub const ROLE_ADMIN: i64 = 0;

/// Role value of an ordinary account (the default of a new account).
pub const ROLE_USER: i64 = 1;

/// Identity provider number of GitHub.
pub const IDENTITY_GITHUB: i64 = 0;

/// Identity provider number of Facebook.
pub const IDENTITY_FACEBOOK: i64 = 1;

/// Identity provider number of Twitter.
pub const IDENTITY_TWITTER: i64 = 2;

/// An account of the service.
#[derive(Debug, PartialEq, Eq)]
pub struct User {
    pub user_id: i64,
    pub nickname: String,
    /// `ROLE_ADMIN` or `ROLE_USER`.
    pub role: i64,
    pub created_at: i64,
}

impl Clone for User {
    fn clone(&self) -> (r: Self)
        ensures
            r == *self,
    {
        User {
            user_id: self.user_id,
            nickname: self.nickname.clone(),
            role: self.role,
            created_at: self.created_at,
        }
    }
}

impl User {
    /// The identifier under which a login session remembers this account.
    pub fn id(&self) -> (r: i64)
        ensures
            r == self.user_id,
    {
        self.user_id
    }

    /// Accounts sign in only through OAuth providers, so no local secret
    /// takes part in a session: the hash is always empty.
    pub fn session_auth_hash(&self) -> (r: &[u8])
        ensures
            r@.len() == 0,
    {
        &[]
    }
}

/// An identity of an OAuth provider linked to an account.
#[derive(Debug, PartialEq, Eq)]
pub struct UserAuth {
    pub user_auth_id: i64,
    pub user_id: i64,
    /// The provider's own identifier of the person.
    pub identifier: String,
    /// `IDENTITY_GITHUB`, `IDENTITY_FACEBOOK` or `IDENTITY_TWITTER`.
    pub identity_type: i64,
    pub created_at: i64,
}

impl Clone for UserAuth {
    fn clone(&self) -> (r: Self)
        ensures
            r == *self,
    {
        UserAuth {
            user_auth_id: self.user_auth_id,
            user_id: self.user_id,
            identifier: self.identifier.clone(),
            identity_type: self.identity_type,
            created_at: self.created_at,
        }
    }
}

/// How much data the deletion of an account archives.
#[derive(Debug, PartialEq, Eq)]
pub struct UserDeletePreview {
    pub river_count: i64,
    pub track_count: i64,
    pub waypoint_count: i64,
    pub auth_count: i64,
}

impl Clone for UserDeletePreview {
    fn clone(&self) -> (r: Self)
        ensures
            r == *self,
    {
        UserDeletePreview {
            river_count: self.river_count,
            track_count: self.track_count,
            waypoint_count: self.waypoint_count,
            auth_count: self.auth_count,
        }
    }
}

impl Default for UserDeletePreview {
    fn default() -> (r: Self)
        ensures
            r.river_count == 0,
            r.track_count == 0,
            r.waypoint_count == 0,
            r.auth_count == 0,
    {
        UserDeletePreview { river_count: 0, track_count: 0, waypoint_count: 0, auth_count: 0 }
    }
}

/// One request of an account, kept as its JSON text.
#[derive(Debug, PartialEq, Eq)]
pub struct AccessLog {
    pub access_log_id: i64,
    pub user_id: i64,
    pub request: String,
    pub created_at: i64,
}

impl Clone for AccessLog {
    fn clone(&self) -> (r: Self)
        ensures
            r == *self,
    {
        AccessLog {
            access_log_id: self.access_log_id,
            user_id: self.user_id,
            request: self.request.clone(),
            created_at: self.created_at,
        }
    }
}

} // verus!
