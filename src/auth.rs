use vstd::prelude::*;
use vstd::string::StrSliceExecFns;

use crate::error::{AuthError, AuthFailure, InternalCause, StoreFailure, error_envelope, message_of, status_of};
use crate::password::{hash_password, verify_outcome, verify_password};
use crate::ids::uuid_text;
use crate::token::{
    AuthConfig, TOKEN_TTL_SECS, issue_token, issued, jwt_claims, token_subject, verify_token,
};

verus! {

/// The role every new account gets.
pub open spec fn default_role() -> Seq<char> {
    "user"@
}

/// A stored account. `password` holds the bcrypt hash, never the plaintext;
/// timestamps are microseconds since the Unix epoch.
#[derive(Debug, Clone)]
pub struct User {
    pub id: u128,
    pub email: String,
    pub password: String,
    pub full_name: String,
    pub role: String,
    pub created_at: i64,
    pub updated_at: i64,
}

/// What a client may see of an account: everything but the password hash.
#[derive(Debug, Clone)]
pub struct PublicUser {
    pub id: u128,
    pub email: String,
    pub full_name: String,
    pub role: String,
    pub created_at: i64,
    pub updated_at: i64,
}

/// The body of a registration request.
#[derive(Debug, Clone)]
pub struct CreateUserSchema {
    pub email: String,
    pub password: String,
    pub full_name: String,
}

/// The body of a login request.
#[derive(Debug, Clone)]
pub struct LoginUserSchema {
    pub email: String,
    pub password: String,
}

pub open spec fn is_public_view(p: PublicUser, u: User) -> bool {
    &&& p.id == u.id
    &&& p.email@ == u.email@
    &&& p.full_name@ == u.full_name@
    &&& p.role@ == u.role@
    &&& p.created_at == u.created_at
    &&& p.updated_at == u.updated_at
}

impl User {
    /// The public projection of this account.
    pub fn public_view(&self) -> (r: PublicUser)
        ensures
            is_public_view(r, *self),
    {
        PublicUser {
            id: self.id,
            email: self.email.clone(),
            full_name: self.full_name.clone(),
            role: self.role.clone(),
            created_at: self.created_at,
            updated_at: self.updated_at,
        }
    }
}

/// The account row for a registration, given the password's hash: a fresh `id` and the
/// time `now` come from the caller, the role is the default one.
pub fn new_user(body: &CreateUserSchema, hash: String, id: u128, now: i64) -> (u: User)
    ensures
        u.id == id,
        u.email@ == body.email@,
        u.password@ == hash@,
        u.full_name@ == body.full_name@,
        u.role@ == default_role(),
        u.created_at == now,
        u.updated_at == now,
{
    proof {
        reveal_strlit("user");
    }
    User {
        id,
        email: body.email.clone(),
        password: hash,
        full_name: body.full_name.clone(),
        role: "user".to_owned(),
        created_at: now,
        updated_at: now,
    }
}

/// The account row to insert for a registration: the password is hashed with a fresh
/// salt and the row is built by `new_user`.
pub fn register(body: &CreateUserSchema, id: u128, now: i64) -> (r: Result<User, AuthError>)
    ensures
        r matches Ok(u) ==> {
            &&& u.id == id
            &&& u.email@ == body.email@
            &&& u.full_name@ == body.full_name@
            &&& u.role@ == default_role()
            &&& u.created_at == now
            &&& u.updated_at == now
            &&& verify_outcome(body.password@, u.password@) == Ok::<bool, AuthError>(true)
        },
        r matches Err(e) ==> e == AuthError::Internal(InternalCause::Hashing),
{
    let hash = hash_password(body.password.as_str())?;
    Ok(new_user(body, hash, id, now))
}

/// The outcome of a registration, given what the store answered to the insert.
pub open spec fn registration_result(inserted: Result<User, StoreFailure>) -> Result<(), AuthError> {
    match inserted {
        Ok(_) => Ok(()),
        Err(StoreFailure::UniqueViolation) => Err(AuthError::DuplicateEmail),
        Err(StoreFailure::Other) => Err(AuthError::Internal(InternalCause::Store)),
    }
}

/// Maps the store's answer to the insert of a new account to the registration's result:
/// the stored account's public view, `DuplicateEmail` on a uniqueness conflict, and an
/// internal error otherwise.
pub fn register_outcome(inserted: Result<User, StoreFailure>) -> (r: Result<PublicUser, AuthError>)
    ensures
        match inserted {
            Ok(u) => r matches Ok(p) && is_public_view(p, u),
            Err(_) => r matches Err(e) && registration_result(inserted) == Err::<(), AuthError>(e),
        },
{
    match inserted {
        Ok(u) => Ok(u.public_view()),
        Err(StoreFailure::UniqueViolation) => Err(AuthError::DuplicateEmail),
        Err(StoreFailure::Other) => Err(AuthError::Internal(InternalCause::Store)),
    }
}

/// What a login decides before any token is made: the id to issue a token for, or the
/// error. An unknown email and a wrong password give the same error.
pub open spec fn login_decision(password: Seq<char>, found: Result<Option<User>, StoreFailure>) -> Result<u128, AuthError> {
    match found {
        Err(_) => Err(AuthError::Internal(InternalCause::Store)),
        Ok(None) => Err(AuthError::InvalidCredentials),
        Ok(Some(u)) => match verify_outcome(password, u.password@) {
            Err(e) => Err(e),
            Ok(false) => Err(AuthError::InvalidCredentials),
            Ok(true) => Ok(u.id),
        },
    }
}

/// Logs in, given what the store found for the request's email: checks the password
/// against the stored hash and issues a token valid for 24 hours from `now`.
pub fn login(config: &AuthConfig, body: &LoginUserSchema, found: Result<Option<User>, StoreFailure>, now: u64) -> (r: Result<String, AuthError>)
    requires
        now + TOKEN_TTL_SECS <= u64::MAX,
    ensures
        match login_decision(body.password@, found) {
            Ok(id) => r matches Ok(t) && t@.len() > 0 && issued(t@, config.jwt_secret@, id, now)
                && jwt_claims(t@, config.jwt_secret@) == Some(
                (uuid_text(id), now, (now + TOKEN_TTL_SECS) as u64),
            ),
            Err(e) => r == Err::<String, AuthError>(e),
        },
{
    let user = match found {
        Err(_) => {
            return Err(AuthError::Internal(InternalCause::Store));
        },
        Ok(None) => {
            return Err(AuthError::InvalidCredentials);
        },
        Ok(Some(u)) => u,
    };
    let valid = verify_password(body.password.as_str(), user.password.as_str())?;
    if !valid {
        return Err(AuthError::InvalidCredentials);
    }
    Ok(issue_token(config, user.id, now))
}

/// The characters a bearer authorization header starts with.
pub open spec fn bearer_prefix() -> Seq<char> {
    "Bearer "@
}

/// The token of an authorization header of the form `Bearer <token>`.
pub open spec fn bearer_of(header: Seq<char>) -> Option<Seq<char>> {
    if header.len() >= 7 && header.subrange(0, 7) == bearer_prefix() {
        Some(header.subrange(7, header.len() as int))
    } else {
        None
    }
}

/// Extracts the token of an authorization header of the form `Bearer <token>`.
pub fn bearer_token(header: &str) -> (r: Option<String>)
    ensures
        match bearer_of(header@) {
            Some(t) => r matches Some(s) && s@ == t,
            None => r is None,
        },
{
    let prefix = "Bearer ";
    proof {
        reveal_strlit("Bearer ");
    }
    let n = header.unicode_len();
    if n < 7 {
        return None;
    }
    let mut i: usize = 0;
    while i < 7
        invariant
            i <= 7,
            n == header@.len(),
            n >= 7,
            prefix@ == bearer_prefix(),
            prefix@.len() == 7,
            forall|j: int| 0 <= j < i ==> header@[j] == bearer_prefix()[j],
        decreases 7 - i,
    {
        if header.get_char(i) != prefix.get_char(i) {
            assert(header@.subrange(0, 7)[i as int] != bearer_prefix()[i as int]);
            return None;
        }
        i = i + 1;
    }
    assert(header@.subrange(0, 7) =~= bearer_prefix());
    Some(header.substring_char(7, n).to_owned())
}

/// What authenticating a request yields, given its authorization header (if any),
/// the signing secret and the time `now`.
pub open spec fn request_subject(header: Option<Seq<char>>, secret: Seq<u8>, now: u64) -> Result<u128, AuthError> {
    match header {
        None => Err(AuthError::Unauthenticated(AuthFailure::NoToken)),
        Some(h) => match bearer_of(h) {
            None => Err(AuthError::Unauthenticated(AuthFailure::NoToken)),
            Some(t) => token_subject(t, secret, now),
        },
    }
}

/// Resolves the user a request acts for from its authorization header: the header must
/// read `Bearer <token>` and the token must be signed with the configured secret, not
/// expired at `now`, and name a UUID. Every failure is `Unauthenticated`: `NoToken` for the
/// header, `InvalidToken` for a malformed, forged or expired token, `InvalidSubject` for
/// a subject that is not a UUID.
pub fn auth_middleware(config: &AuthConfig, header: Option<&str>, now: u64) -> (r: Result<u128, AuthError>)
    ensures
        r == request_subject(
            match header {
                Some(h) => Some(h@),
                None => None,
            },
            config.jwt_secret@,
            now,
        ),
{
    match header {
        None => Err(AuthError::Unauthenticated(AuthFailure::NoToken)),
        Some(h) => match bearer_token(h) {
            None => Err(AuthError::Unauthenticated(AuthFailure::NoToken)),
            Some(t) => verify_token(config, t.as_str(), now),
        },
    }
}

/// What a store that enforces unique emails answers to inserting `u` while the emails
/// in `taken` are in use: a conflict exactly when the email is taken.
pub open spec fn unique_insert(taken: Set<Seq<char>>, u: User) -> Result<User, StoreFailure> {
    if taken.contains(u.email@) {
        Err(StoreFailure::UniqueViolation)
    } else {
        Ok(u)
    }
}

/// Against a store that enforces unique emails, once a registration has gone through,
/// a second registration with the same email ends in `DuplicateEmail` (status 409),
/// whatever the rest of its payload.
pub proof fn lemma_second_registration_conflicts(
    taken: Set<Seq<char>>,
    first: CreateUserSchema,
    second: CreateUserSchema,
    row1: User,
    row2: User,
)
    requires
        row1.email@ == first.email@,
        row2.email@ == second.email@,
        first.email@ == second.email@,
        registration_result(unique_insert(taken, row1)) is Ok,
    ensures
        registration_result(unique_insert(taken.insert(row1.email@), row2)) == Err::<(), AuthError>(
            AuthError::DuplicateEmail,
        ),
        status_of(AuthError::DuplicateEmail) == 409,
{
}

/// Logging in with an unknown email and logging in with a known email and a wrong
/// password fail alike: the same error, hence the same status (400) and the same body.
pub proof fn lemma_login_failures_alike(password: Seq<char>, known: User)
    requires
        verify_outcome(password, known.password@) == Ok::<bool, AuthError>(false),
    ensures
        login_decision(password, Ok(None)) == login_decision(password, Ok(Some(known))),
        login_decision(password, Ok(None)) == Err::<u128, AuthError>(AuthError::InvalidCredentials),
        status_of(AuthError::InvalidCredentials) == 400,
        error_envelope(message_of(AuthError::InvalidCredentials)) == error_envelope("Invalid email or password"@),
{
}

/// A request without an authorization header, or with a header not of the form
/// `Bearer <token>`, is refused for want of a token; one with an expired token or with a
/// token whose signature does not check out is refused as an invalid token, the same
/// failure in both cases. All of them get status 401.
pub proof fn lemma_rejected_requests(
    secret: Seq<u8>,
    now: u64,
    header: Seq<char>,
    token: Seq<char>,
    subject: u128,
    t0: u64,
)
    ensures
        request_subject(None, secret, now) == Err::<u128, AuthError>(
            AuthError::Unauthenticated(AuthFailure::NoToken),
        ),
        bearer_of(header) is None ==> request_subject(Some(header), secret, now) == Err::<
            u128,
            AuthError,
        >(AuthError::Unauthenticated(AuthFailure::NoToken)),
        issued(token, secret, subject, t0) && now >= t0 + TOKEN_TTL_SECS ==> request_subject(
            Some(bearer_prefix() + token),
            secret,
            now,
        ) == Err::<u128, AuthError>(AuthError::Unauthenticated(AuthFailure::InvalidToken)),
        jwt_claims(token, secret) is None ==> request_subject(
            Some(bearer_prefix() + token),
            secret,
            now,
        ) == Err::<u128, AuthError>(AuthError::Unauthenticated(AuthFailure::InvalidToken)),
        status_of(AuthError::Unauthenticated(AuthFailure::NoToken)) == 401,
        status_of(AuthError::Unauthenticated(AuthFailure::InvalidToken)) == 401,
        message_of(AuthError::Unauthenticated(AuthFailure::InvalidToken)) == "Invalid token"@,
{
    reveal_strlit("Bearer ");
    let h = bearer_prefix() + token;
    assert(h.subrange(0, 7) =~= bearer_prefix());
    assert(h.subrange(7, h.len() as int) =~= token);
}

} // verus!
