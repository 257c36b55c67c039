use vstd::prelude::*;

use crate::error::StoreError;
use crate::security::{token_of, RequestContext, SecurityToken};
use crate::session::SessionData;
use crate::user::User;

verus! {

/// The resolver's verdict for a request: the session's identity afterwards,
/// and the user attached to the request. `found` is the store's answer to a
/// lookup of the session's identity; it plays no part where there is none.
pub open spec fn resolve_spec(
    identity: Option<String>,
    found: Result<Option<User>, StoreError>,
) -> (Option<String>, Option<User>) {
    match identity {
        None => (None, None),
        Some(id) => match found {
            Ok(Some(u)) => (Some(id), Some(u)),
            _ => (None, None),
        },
    }
}

/// Builds the identity resolver around the rest of a request pipeline.
pub struct UserDataMiddleware;

/// The identity resolver wrapped around the inner service `S`. It runs once
/// per request before the handler.
pub struct UserDataService<S> {
    pub service: S,
}

impl UserDataMiddleware {
    /// Wraps `service` in the resolver.
    pub fn new_transform<S>(&self, service: S) -> (r: UserDataService<S>)
        ensures
            r.service == service,
    {
        UserDataService { service }
    }
}

impl<S> UserDataService<S> {
    /// The identifier to look up in the store for this request, if the
    /// session names one.
    pub fn pending_lookup(&self, session: &SessionData) -> (r: Option<String>)
        ensures
            r == session.user_id,
    {
        match &session.user_id {
            Some(id) => Some(id.clone()),
            None => None,
        }
    }

    /// Resolves the request's identity from the store's answer to the
    /// lookup. A found user is attached as is; a missing one, or a failed
    /// lookup, clears the session's identity and leaves the request
    /// anonymous. The session is never given an identity here.
    pub fn call(
        &self,
        session: &mut SessionData,
        found: Result<Option<User>, StoreError>,
    ) -> (ctx: RequestContext)
        ensures
            (final(session).user_id, ctx.user) == resolve_spec(old(session).user_id, found),
    {
        if session.user_id.is_none() {
            return RequestContext::anonymous();
        }
        match found {
            Ok(Some(user)) => RequestContext { user: Some(user) },
            _ => {
                session.remove_identity();
                RequestContext::anonymous()
            },
        }
    }
}

/// A session that names a user the store no longer holds is cleared, and the
/// request proceeds anonymously; so does one whose lookup failed.
pub proof fn lemma_stale_session_cleared(id: String, failure: StoreError)
    ensures
        resolve_spec(Some(id), Ok(None)) == (None::<String>, None::<User>),
        resolve_spec(Some(id), Err(failure)) == (None::<String>, None::<User>),
        token_of(resolve_spec(Some(id), Ok(None)).1) == SecurityToken::Anonymous,
{
}

/// A session that names a stored user keeps its identity, and the request is
/// authenticated with the record as the store returned it.
pub proof fn lemma_live_session_authenticated(id: String, user: User)
    ensures
        resolve_spec(Some(id), Ok(Some(user))) == (Some(id), Some(user)),
        token_of(resolve_spec(Some(id), Ok(Some(user))).1) == (SecurityToken::Authenticated {
            user,
        }),
{
}

/// The resolver only ever removes the session's identity: whatever it keeps
/// is what the session held before.
pub proof fn lemma_resolver_never_inserts(
    identity: Option<String>,
    found: Result<Option<User>, StoreError>,
)
    ensures
        resolve_spec(identity, found).0 is None || resolve_spec(identity, found).0 == identity,
{
}

} // verus!
