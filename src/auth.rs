use vstd::prelude::*;

use crate::codec::{bcrypt_verdict, hash_password, password_matches, verify_password, CodecError};
use crate::error::{AuthError, StoreError};
use crate::form::{LoginFormData, RegisterFormData};
use crate::resolver::resolve_spec;
use crate::security::{required_user, token_of, SecurityToken};
use crate::session::SessionData;
use crate::user::User;

verus! {

/// The sign-in verdict once the account is known and the codec has answered:
/// the identifier to put in the session, or the error.
pub open spec fn verdict_outcome(user: User, verdict: Result<bool, CodecError>) -> Result<
    String,
    AuthError,
> {
    match verdict {
        Ok(true) => Ok(user.id),
        Ok(false) => Err(AuthError::InvalidCredentials),
        Err(_) => Err(AuthError::Internal),
    }
}

/// The sign-in verdict for `password`, given the store's answer to the
/// lookup by email.
pub open spec fn login_outcome(
    password: Seq<char>,
    found: Result<Option<User>, StoreError>,
) -> Result<String, AuthError> {
    match found {
        Err(_) => Err(AuthError::StoreUnavailable),
        Ok(None) => Err(AuthError::InvalidCredentials),
        Ok(Some(u)) => match bcrypt_verdict(password, u.password@) {
            Some(true) => Ok(u.id),
            Some(false) => Err(AuthError::InvalidCredentials),
            None => Err(AuthError::Internal),
        },
    }
}

/// The session identity after a flow that writes `outcome` on success.
pub open spec fn session_after(before: Option<String>, outcome: Result<String, AuthError>) -> Option<
    String,
> {
    match outcome {
        Ok(id) => Some(id),
        Err(_) => before,
    }
}

/// The registration verdict, given the store's answer to the insert.
pub open spec fn registration_outcome(inserted: Result<User, StoreError>) -> Result<
    String,
    AuthError,
> {
    match inserted {
        Ok(u) => Ok(u.id),
        Err(StoreError::Conflict) => Err(AuthError::Conflict),
        Err(StoreError::Unavailable) => Err(AuthError::StoreUnavailable),
    }
}

/// The session identity after signing out.
pub open spec fn logout_spec(authenticated: bool, before: Option<String>) -> Option<String> {
    if authenticated {
        None
    } else {
        before
    }
}

/// Finishes a sign-in for a known account once the password check has
/// answered: the account's identifier goes into the session on a match, and
/// nothing changes otherwise.
pub fn login_with_verdict(
    session: &mut SessionData,
    user: User,
    verdict: Result<bool, CodecError>,
) -> (r: Result<(), AuthError>)
    ensures
        final(session).user_id == session_after(old(session).user_id, verdict_outcome(user, verdict)),
        r == match verdict_outcome(user, verdict) {
            Ok(_) => Ok::<(), AuthError>(()),
            Err(e) => Err(e),
        },
{
    match verdict {
        Ok(true) => {
            session.insert_identity(user.id);
            Ok(())
        },
        Ok(false) => Err(AuthError::InvalidCredentials),
        Err(_) => Err(AuthError::Internal),
    }
}

/// Signs in with the form's password, given the store's answer to the lookup
/// of the form's email. An unknown email and a wrong password give the same
/// error; only a match writes the session.
pub fn login(
    session: &mut SessionData,
    form: &LoginFormData,
    found: Result<Option<User>, StoreError>,
) -> (r: Result<(), AuthError>)
    ensures
        final(session).user_id == session_after(
            old(session).user_id,
            login_outcome(form.password@, found),
        ),
        r == match login_outcome(form.password@, found) {
            Ok(_) => Ok::<(), AuthError>(()),
            Err(e) => Err(e),
        },
{
    match found {
        Err(_) => Err(AuthError::StoreUnavailable),
        Ok(None) => Err(AuthError::InvalidCredentials),
        Ok(Some(user)) => {
            let verdict = verify_password(form.password.as_str(), user.password.as_str());
            login_with_verdict(session, user, verdict)
        },
    }
}

/// The record to insert for a registration, once the codec has answered
/// with the digest of the form's password: a fresh identifier, the form's
/// name and email, that digest, no secret and no flag set.
pub fn registration_record(form: &RegisterFormData, digest: Result<String, CodecError>) -> (r:
    Result<User, AuthError>)
    ensures
        match digest {
            Ok(d) => r matches Ok(u) && {
                &&& u.username == form.username
                &&& u.email == form.email
                &&& u.password == d
                &&& u.secret is None
                &&& u.flags == 0
                &&& u.id@.len() == 36
            },
            Err(_) => r == Err::<User, AuthError>(AuthError::Internal),
        },
{
    match digest {
        Ok(d) => Ok(User::new_record(form.username.clone(), form.email.clone(), d)),
        Err(_) => Err(AuthError::Internal),
    }
}

/// The record to insert for a registration: a fresh identifier, the form's
/// name and email, a salted digest of its password, no secret, no flag.
pub fn prepare_registration(form: &RegisterFormData) -> (r: Result<User, AuthError>)
    ensures
        r matches Ok(u) ==> {
            &&& u.username == form.username
            &&& u.email == form.email
            &&& password_matches(form.password@, u.password@)
            &&& u.secret is None
            &&& u.flags == 0
            &&& u.id@.len() == 36
        },
        r matches Err(e) ==> e == AuthError::Internal,
{
    let digest = hash_password(form.password.as_str());
    registration_record(form, digest)
}

/// Finishes a registration with the store's answer to the insert: the new
/// account's identifier goes into the session; on any failure the session
/// is left as it was.
pub fn complete_registration(
    session: &mut SessionData,
    inserted: Result<User, StoreError>,
) -> (r: Result<User, AuthError>)
    ensures
        final(session).user_id == session_after(
            old(session).user_id,
            registration_outcome(inserted),
        ),
        r == match inserted {
            Ok(u) => Ok::<User, AuthError>(u),
            Err(StoreError::Conflict) => Err(AuthError::Conflict),
            Err(StoreError::Unavailable) => Err(AuthError::StoreUnavailable),
        },
{
    match inserted {
        Ok(user) => {
            session.insert_identity(user.id.clone());
            Ok(user)
        },
        Err(StoreError::Conflict) => Err(AuthError::Conflict),
        Err(StoreError::Unavailable) => Err(AuthError::StoreUnavailable),
    }
}

/// Signs out: an authenticated request loses its session identity; an
/// anonymous one leaves the session untouched. Either way the visitor is
/// signed out afterwards.
pub fn logout(token: &SecurityToken, session: &mut SessionData)
    ensures
        final(session).user_id == logout_spec(token is Authenticated, old(session).user_id),
{
    if token.is_authenticated() {
        session.remove_identity();
    }
}

/// Signing in with the right password for a stored account writes its
/// identifier into the session. A wrong password and an unknown email give
/// one and the same error, and leave the session as it was.
pub proof fn lemma_login_outcomes(before: Option<String>, password: Seq<char>, user: User)
    ensures
        password_matches(password, user.password@) ==> {
            &&& login_outcome(password, Ok(Some(user))) == Ok::<String, AuthError>(user.id)
            &&& session_after(before, login_outcome(password, Ok(Some(user)))) == Some(user.id)
        },
        bcrypt_verdict(password, user.password@) == Some(false) ==> {
            &&& login_outcome(password, Ok(Some(user))) == login_outcome(password, Ok(None))
            &&& session_after(before, login_outcome(password, Ok(Some(user)))) == before
        },
        login_outcome(password, Ok(None)) == Err::<String, AuthError>(AuthError::InvalidCredentials),
        session_after(before, login_outcome(password, Ok(None))) == before,
{
}

/// Registering with an email address that is already taken is a conflict
/// and leaves the session as it was.
pub proof fn lemma_registration_conflict(before: Option<String>)
    ensures
        registration_outcome(Err(StoreError::Conflict)) == Err::<String, AuthError>(
            AuthError::Conflict,
        ),
        session_after(before, registration_outcome(Err(StoreError::Conflict))) == before,
{
}

/// Signing out an anonymous request leaves the session as it was.
pub proof fn lemma_anonymous_logout_noop(before: Option<String>)
    ensures
        logout_spec(false, before) == before,
{
}

/// The life of an account through the flows: after registering, the session
/// names the new account; signing in with the registered password names it
/// again; after signing out, the next request resolves anonymously and an
/// authenticated-only resource is refused.
pub proof fn lemma_account_lifecycle(
    start: Option<String>,
    password: Seq<char>,
    user: User,
    found: Result<Option<User>, StoreError>,
)
    requires
        password_matches(password, user.password@),
    ensures
        ({
            let registered = session_after(start, registration_outcome(Ok(user)));
            let signed_in = session_after(registered, login_outcome(password, Ok(Some(user))));
            let signed_out = logout_spec(
                token_of(Some(user)) is Authenticated,
                signed_in,
            );
            &&& registered == Some(user.id)
            &&& signed_in == Some(user.id)
            &&& signed_out is None
            &&& resolve_spec(signed_out, found) == (None::<String>, None::<User>)
            &&& required_user(resolve_spec(signed_out, found).1) == Err::<User, AuthError>(
                AuthError::Unauthorized,
            )
        }),
{
}

} // verus!
