use vstd::prelude::*;

use crate::error::AuthError;
use crate::user::User;

verus! {

/// What the resolver attached to one request: the signed-in user as loaded
/// when the request was resolved, or nothing.
pub struct RequestContext {
    pub user: Option<User>,
}

/// The identity a handler sees.
pub enum SecurityToken {
    Anonymous,
    Authenticated { user: User },
}

/// The token for a request whose context holds `user`.
pub open spec fn token_of(user: Option<User>) -> SecurityToken {
    match user {
        Some(u) => SecurityToken::Authenticated { user: u },
        None => SecurityToken::Anonymous,
    }
}

/// The answer of an authenticated-only accessor for a request whose context
/// holds `user`.
pub open spec fn required_user(user: Option<User>) -> Result<User, AuthError> {
    match user {
        Some(u) => Ok(u),
        None => Err(AuthError::Unauthorized),
    }
}

impl RequestContext {
    /// A context with no identity attached.
    pub fn anonymous() -> (r: RequestContext)
        ensures
            r.user is None,
    {
        RequestContext { user: None }
    }

    /// The signed-in user, for resources that require one.
    pub fn authenticated_user(&self) -> (r: Result<User, AuthError>)
        ensures
            r == required_user(self.user),
    {
        match &self.user {
            Some(u) => Ok(u.clone()),
            None => Err(AuthError::Unauthorized),
        }
    }
}

impl Clone for SecurityToken {
    fn clone(&self) -> (r: Self)
        ensures
            r == *self,
    {
        match self {
            SecurityToken::Anonymous => SecurityToken::Anonymous,
            SecurityToken::Authenticated { user } => SecurityToken::Authenticated {
                user: user.clone(),
            },
        }
    }
}

impl SecurityToken {
    /// The token derived from what the resolver attached; no store access.
    pub fn from_context(ctx: &RequestContext) -> (r: SecurityToken)
        ensures
            r == token_of(ctx.user),
    {
        match &ctx.user {
            Some(u) => SecurityToken::Authenticated { user: u.clone() },
            None => SecurityToken::Anonymous,
        }
    }

    /// Whether a user is signed in.
    pub fn is_authenticated(&self) -> (r: bool)
        ensures
            r == (self is Authenticated),
    {
        match self {
            SecurityToken::Authenticated { .. } => true,
            SecurityToken::Anonymous => false,
        }
    }

    /// The signed-in user, if any.
    pub fn user(&self) -> (r: Option<User>)
        ensures
            r == match self {
                SecurityToken::Authenticated { user } => Some(*user),
                SecurityToken::Anonymous => None::<User>,
            },
    {
        match self {
            SecurityToken::Authenticated { user } => Some(user.clone()),
            SecurityToken::Anonymous => None,
        }
    }
}

} // verus!
