use vstd::prelude::*;

use crate::common::{earlier, Failure, Reply, Status, Timestamp};

verus! {

/// A restaurant-side account that manages the service.
#[derive(Debug)]
pub struct Provider {
    pub id: u32,
    pub email: String,
    pub password_hash: String,
}

/// The body of a log-in request.
#[derive(Debug)]
pub struct AuthRequest {
    pub email: String,
    pub password: String,
}

/// The body of a request that creates a provider account.
#[derive(Debug)]
pub struct ProviderRequest {
    pub id: u32,
    pub email: String,
    pub password: String,
}

/// What the account table holds for an e-mail address: the stored password
/// hash and the account's id.
#[derive(Debug)]
pub struct Credentials {
    pub password_hash: String,
    pub id: u32,
}

impl Provider {
    /// A copy of the provider.
    pub fn duplicate(&self) -> (p: Provider)
        ensures
            p == *self,
    {
        Provider { id: self.id, email: self.email.clone(), password_hash: self.password_hash.clone() }
    }
}

// ---------------------------------------------------------------------------
// The password library

#[verifier::external_type_specification]
#[verifier::external_body]
pub struct ExBcryptError(bcrypt::BcryptError);

/// What `bcrypt::verify` answers for a password and a stored hash: `None`
/// when it fails (the hash is malformed), else whether the password matches.
pub uninterp spec fn bcrypt_verify_result(password: Seq<char>, hash: Seq<char>) -> Option<bool>;

/// Calls `bcrypt::verify(password, hash)`.  Trusted: the answer depends on
/// the two strings alone, and is named `bcrypt_verify_result`; which error
/// comes back on failure is not stated.
#[verifier::external_body]
fn check_password(password: &str, hash: &str) -> (r: Result<bool, bcrypt::BcryptError>)
    ensures
        r is Ok <==> bcrypt_verify_result(password@, hash@) is Some,
        r matches Ok(b) ==> bcrypt_verify_result(password@, hash@) == Some(b),
{
    bcrypt::verify(password, hash)
}

/// Whether a stored password is a bcrypt hash at the default cost: 60
/// characters that begin with `$2b$12$`.
pub open spec fn is_default_cost_hash(h: Seq<char>) -> bool {
    h.len() == 60 && h.subrange(0, 7) == "$2b$12$"@
}

/// Calls `bcrypt::hash(password, bcrypt::DEFAULT_COST)`.  The salt is drawn
/// from the operating system, so the hash itself is not determined, and the
/// call may fail when no randomness can be had.  Trusted: a hash that comes
/// back is `$2b$12$` followed by 22 characters of salt and 31 of hash (the
/// crate formats it so, with the default cost 12), and it verifies the
/// password it was made from (the crate's `verify` hashes the password again
/// with the salt and cost read back from the hash).
#[verifier::external_body]
fn hash_password(password: &str) -> (r: Result<String, bcrypt::BcryptError>)
    ensures
        r matches Ok(h) ==> bcrypt_verify_result(password@, h@) == Some(true),
        r matches Ok(h) ==> is_default_cost_hash(h@),
{
    bcrypt::hash(password, bcrypt::DEFAULT_COST)
}

/// The verdict of a password check, its failure as `None`.
pub open spec fn verdict(checked: Result<bool, bcrypt::BcryptError>) -> Option<bool> {
    match checked {
        Ok(b) => Some(b),
        Err(_) => None,
    }
}

// ---------------------------------------------------------------------------
// Sessions

/// How long a session lasts: one day, in seconds.
pub const SESSION_SECONDS: i64 = 86400;

/// A session as the store reports it for a cookie: when it ends, and the
/// database's clock at the moment it was read.
#[derive(Clone, Copy, Debug, PartialEq, Eq, Structural)]
pub struct SessionRecord {
    pub expires: Timestamp,
    pub now: Timestamp,
}

/// When a session recorded at `start` ends: one day later, or `None` when a
/// day later is past the last representable second.
pub open spec fn session_end(start: Timestamp) -> Option<Timestamp> {
    if start.secs + SESSION_SECONDS <= i64::MAX {
        Some(Timestamp { secs: (start.secs + SESSION_SECONDS) as i64, nanos: start.nanos })
    } else {
        None
    }
}

/// Whether the session found for a cookie is live: there is one, and the
/// clock read with it lies before its end.
pub open spec fn is_live(found: Option<SessionRecord>) -> bool {
    match found {
        Some(r) => earlier(r.now, r.expires),
        None => false,
    }
}

/// When a session recorded at `start` ends.
pub fn session_expiry(start: Timestamp) -> (e: Option<Timestamp>)
    ensures
        e == session_end(start),
{
    if start.secs <= i64::MAX - SESSION_SECONDS {
        Some(Timestamp { secs: start.secs + SESSION_SECONDS, nanos: start.nanos })
    } else {
        None
    }
}

/// Whether the session found for a cookie is live.
pub fn session_live(found: &Option<SessionRecord>) -> (b: bool)
    ensures
        b == is_live(*found),
{
    match found {
        Some(r) => r.now.is_before(&r.expires),
        None => false,
    }
}

// ---------------------------------------------------------------------------
// Logging in

/// Where a log-in request stands.
#[derive(Debug)]
pub enum AuthorizeState {
    /// The request has arrived, with the session cookie if the client sent one.
    Start { cookie: Option<String>, request: AuthRequest },
    /// The account for the e-mail address has been asked for; `session` is
    /// the cookie of the request.
    AwaitingCredentials { session: String, password: String },
    /// The password matched; the clock is read to date the session.
    AwaitingClock { session: String, provider_id: u32 },
    /// The session is being recorded.
    AwaitingSession,
    /// The request has been answered.
    Done,
}

/// What the outside world reports back to a log-in request.
#[derive(Debug)]
pub enum AuthorizeEvent {
    Begin,
    CredentialsFound(Option<Credentials>),
    /// The database's clock.
    ClockRead(Timestamp),
    SessionStored,
}

/// What a log-in request asks the outside world to do next.
#[derive(Debug)]
pub enum AuthorizeAction {
    /// Look up the stored hash and id for this e-mail address.
    FindCredentials { email: String },
    /// Read the database's clock.
    ReadClock,
    /// Record that the session with this cookie belongs to this provider
    /// until `expires`, replacing any earlier record of the cookie.
    StoreSession { cookie: String, provider_id: u32, expires: Timestamp },
    /// Answer the request.
    Finish(Result<Reply<bool>, Failure>),
}

/// The events that each state of a log-in request waits for.
pub open spec fn authorize_accepts(state: AuthorizeState, event: AuthorizeEvent) -> bool {
    match (state, event) {
        (AuthorizeState::Start { .. }, AuthorizeEvent::Begin) => true,
        (AuthorizeState::AwaitingCredentials { .. }, AuthorizeEvent::CredentialsFound(_)) => true,
        (AuthorizeState::AwaitingClock { .. }, AuthorizeEvent::ClockRead(_)) => true,
        (AuthorizeState::AwaitingSession, AuthorizeEvent::SessionStored) => true,
        _ => false,
    }
}

/// The answer to an event that the state does not wait for: a refusal.
pub open spec fn authorize_refusal() -> (AuthorizeState, AuthorizeAction) {
    (AuthorizeState::Done, AuthorizeAction::Finish(Ok(Reply::Status(Status::Unauthorized))))
}

/// How a log-in request goes on once the password was checked.
pub open spec fn password_outcome(cookie: String, provider_id: u32, verdict: Option<bool>) -> (AuthorizeState, AuthorizeAction) {
    match verdict {
        Some(true) => (AuthorizeState::AwaitingClock { session: cookie, provider_id }, AuthorizeAction::ReadClock),
        Some(false) => (AuthorizeState::Done, AuthorizeAction::Finish(Ok(Reply::Status(Status::Unauthorized)))),
        None => (AuthorizeState::Done, AuthorizeAction::Finish(Err(Failure::PasswordLibrary))),
    }
}

/// How a log-in request goes on once the clock was read: the session is
/// recorded until a day later, or, when that cannot be stored, a failure.
pub open spec fn clock_outcome(cookie: String, provider_id: u32, now: Timestamp) -> (AuthorizeState, AuthorizeAction) {
    match session_end(now) {
        Some(e) => (AuthorizeState::AwaitingSession, AuthorizeAction::StoreSession { cookie, provider_id, expires: e }),
        None => (AuthorizeState::Done, AuthorizeAction::Finish(Err(Failure::TimeOutOfRange))),
    }
}

/// The next state and action of a log-in request, given the verdict of the
/// password check where one is made.
pub open spec fn authorize_next(state: AuthorizeState, event: AuthorizeEvent, verdict: Option<bool>) -> (AuthorizeState, AuthorizeAction) {
    match (state, event) {
        (AuthorizeState::Start { cookie, request }, AuthorizeEvent::Begin) => match cookie {
            None => (AuthorizeState::Done, AuthorizeAction::Finish(Ok(Reply::Status(Status::BadRequest)))),
            Some(c) => (
                AuthorizeState::AwaitingCredentials { session: c, password: request.password },
                AuthorizeAction::FindCredentials { email: request.email },
            ),
        },
        (AuthorizeState::AwaitingCredentials { session, .. }, AuthorizeEvent::CredentialsFound(found)) => match found {
            None => (AuthorizeState::Done, AuthorizeAction::Finish(Ok(Reply::Status(Status::Unauthorized)))),
            Some(cr) => password_outcome(session, cr.id, verdict),
        },
        (AuthorizeState::AwaitingClock { session, provider_id }, AuthorizeEvent::ClockRead(now)) =>
            clock_outcome(session, provider_id, now),
        (AuthorizeState::AwaitingSession, AuthorizeEvent::SessionStored) =>
            (AuthorizeState::Done, AuthorizeAction::Finish(Ok(Reply::Json(true)))),
        _ => authorize_refusal(),
    }
}

/// The verdict that a step of a log-in request obtains: that of the stored
/// hash for the password, when credentials were found.
pub open spec fn authorize_verdict(state: AuthorizeState, event: AuthorizeEvent) -> Option<bool> {
    match (state, event) {
        (AuthorizeState::AwaitingCredentials { password, .. }, AuthorizeEvent::CredentialsFound(Some(cr))) =>
            bcrypt_verify_result(password@, cr.password_hash@),
        _ => None,
    }
}

/// How far a log-in request is from its answer.
pub open spec fn authorize_rank(state: AuthorizeState) -> nat {
    match state {
        AuthorizeState::Start { .. } => 4,
        AuthorizeState::AwaitingCredentials { .. } => 3,
        AuthorizeState::AwaitingClock { .. } => 2,
        AuthorizeState::AwaitingSession => 1,
        AuthorizeState::Done => 0,
    }
}

/// Goes on with a log-in request once the password was checked: a match
/// reads the clock to record the session, a mismatch is answered 401, a
/// failure of the check 500.
pub fn after_password_check(cookie: String, provider_id: u32, checked: Result<bool, bcrypt::BcryptError>) -> (r: (AuthorizeState, AuthorizeAction))
    ensures
        r == password_outcome(cookie, provider_id, verdict(checked)),
{
    match checked {
        Ok(true) => (AuthorizeState::AwaitingClock { session: cookie, provider_id }, AuthorizeAction::ReadClock),
        Ok(false) => (AuthorizeState::Done, AuthorizeAction::Finish(Ok(Reply::Status(Status::Unauthorized)))),
        Err(_) => (AuthorizeState::Done, AuthorizeAction::Finish(Err(Failure::PasswordLibrary))),
    }
}

/// One step of a log-in request.  Without a session cookie it is answered
/// 400; an unknown e-mail address or a wrong password 401; a right password
/// records the session until a day after the clock's time and is answered
/// `true`.  An event that the state does not wait for is refused with 401.
pub fn authorize(state: AuthorizeState, event: AuthorizeEvent) -> (r: (AuthorizeState, AuthorizeAction))
    ensures
        r == authorize_next(state, event, authorize_verdict(state, event)),
        authorize_accepts(state, event) ==> authorize_rank(r.0) < authorize_rank(state),
{
    match (state, event) {
        (AuthorizeState::Start { cookie, request }, AuthorizeEvent::Begin) => match cookie {
            None => (AuthorizeState::Done, AuthorizeAction::Finish(Ok(Reply::Status(Status::BadRequest)))),
            Some(c) => (
                AuthorizeState::AwaitingCredentials { session: c, password: request.password },
                AuthorizeAction::FindCredentials { email: request.email },
            ),
        },
        (AuthorizeState::AwaitingCredentials { session, password }, AuthorizeEvent::CredentialsFound(found)) => match found {
            None => (AuthorizeState::Done, AuthorizeAction::Finish(Ok(Reply::Status(Status::Unauthorized)))),
            Some(cr) => {
                let checked = check_password(password.as_str(), cr.password_hash.as_str());
                after_password_check(session, cr.id, checked)
            },
        },
        (AuthorizeState::AwaitingClock { session, provider_id }, AuthorizeEvent::ClockRead(now)) => match session_expiry(now) {
            Some(e) => (AuthorizeState::AwaitingSession, AuthorizeAction::StoreSession { cookie: session, provider_id, expires: e }),
            None => (AuthorizeState::Done, AuthorizeAction::Finish(Err(Failure::TimeOutOfRange))),
        },
        (AuthorizeState::AwaitingSession, AuthorizeEvent::SessionStored) =>
            (AuthorizeState::Done, AuthorizeAction::Finish(Ok(Reply::Json(true)))),
        _ => (AuthorizeState::Done, AuthorizeAction::Finish(Ok(Reply::Status(Status::Unauthorized)))),
    }
}

// ---------------------------------------------------------------------------
// Creating an account

/// Where a request to create a provider account stands.
#[derive(Debug)]
pub enum CreateProviderState {
    /// The request has arrived, with the session cookie if the client sent one.
    Start { cookie: Option<String>, request: ProviderRequest },
    /// The session of the cookie has been asked for.
    AwaitingSession { request: ProviderRequest },
    /// The new account is being stored.
    AwaitingInsert { provider: Provider },
    /// The request has been answered.
    Done,
}

/// What the outside world reports back to a request that creates an account.
#[derive(Debug)]
pub enum CreateProviderEvent {
    Begin,
    /// The session of the cookie, if the cookie names a session of some provider.
    SessionFound(Option<SessionRecord>),
    Inserted,
}

/// What a request that creates an account asks the outside world to do next.
#[derive(Debug)]
pub enum CreateProviderAction {
    /// Find the session that has this cookie.
    FindSession { cookie: String },
    /// Store the new account.
    InsertProvider { provider: Provider },
    /// Answer the request.
    Finish(Result<Reply<Provider>, Failure>),
}

/// The events that each state of a request that creates an account waits for.
pub open spec fn create_accepts(state: CreateProviderState, event: CreateProviderEvent) -> bool {
    match (state, event) {
        (CreateProviderState::Start { .. }, CreateProviderEvent::Begin) => true,
        (CreateProviderState::AwaitingSession { .. }, CreateProviderEvent::SessionFound(_)) => true,
        (CreateProviderState::AwaitingInsert { .. }, CreateProviderEvent::Inserted) => true,
        _ => false,
    }
}

/// The account that a request creates, with the hash made of its password.
pub open spec fn new_provider(request: ProviderRequest, password_hash: String) -> Provider {
    Provider { id: request.id, email: request.email, password_hash }
}

/// How a request that creates an account goes on once its password was
/// hashed (`None` when hashing failed).
pub open spec fn hashing_outcome(request: ProviderRequest, hashed: Option<String>) -> (CreateProviderState, CreateProviderAction) {
    match hashed {
        Some(h) => (
            CreateProviderState::AwaitingInsert { provider: new_provider(request, h) },
            CreateProviderAction::InsertProvider { provider: new_provider(request, h) },
        ),
        None => (CreateProviderState::Done, CreateProviderAction::Finish(Err(Failure::PasswordLibrary))),
    }
}

/// The next state and action of a request that creates an account, given
/// the hash that is made where one is made.
pub open spec fn create_next(state: CreateProviderState, event: CreateProviderEvent, hashed: Option<String>) -> (CreateProviderState, CreateProviderAction) {
    match (state, event) {
        (CreateProviderState::Start { cookie, request }, CreateProviderEvent::Begin) => match cookie {
            None => (CreateProviderState::Done, CreateProviderAction::Finish(Ok(Reply::Status(Status::Unauthorized)))),
            Some(c) => (CreateProviderState::AwaitingSession { request }, CreateProviderAction::FindSession { cookie: c }),
        },
        (CreateProviderState::AwaitingSession { request }, CreateProviderEvent::SessionFound(found)) =>
            if is_live(found) {
                hashing_outcome(request, hashed)
            } else {
                (CreateProviderState::Done, CreateProviderAction::Finish(Ok(Reply::Status(Status::Unauthorized))))
            },
        (CreateProviderState::AwaitingInsert { provider }, CreateProviderEvent::Inserted) =>
            (CreateProviderState::Done, CreateProviderAction::Finish(Ok(Reply::Json(provider)))),
        _ => (CreateProviderState::Done, CreateProviderAction::Finish(Ok(Reply::Status(Status::Unauthorized)))),
    }
}

/// The hash that a step stored, if it stored one.
pub open spec fn hash_issued(action: CreateProviderAction) -> Option<String> {
    match action {
        CreateProviderAction::InsertProvider { provider } => Some(provider.password_hash),
        _ => None,
    }
}

/// How far a request that creates an account is from its answer.
pub open spec fn create_rank(state: CreateProviderState) -> nat {
    match state {
        CreateProviderState::Start { .. } => 3,
        CreateProviderState::AwaitingSession { .. } => 2,
        CreateProviderState::AwaitingInsert { .. } => 1,
        CreateProviderState::Done => 0,
    }
}

/// The hash of a hashing call, its failure as `None`.
pub open spec fn hash_made(hashed: Result<String, bcrypt::BcryptError>) -> Option<String> {
    match hashed {
        Ok(h) => Some(h),
        Err(_) => None,
    }
}

/// Goes on with a request that creates an account once its password was
/// hashed: the account is stored with the hash, or a failure answered 500.
pub fn after_hashing(request: ProviderRequest, hashed: Result<String, bcrypt::BcryptError>) -> (r: (CreateProviderState, CreateProviderAction))
    ensures
        r == hashing_outcome(request, hash_made(hashed)),
        hashed matches Ok(h) ==> ({
            &&& r.1 matches CreateProviderAction::InsertProvider { provider }
            &&& provider.id == request.id
            &&& provider.email == request.email
            &&& provider.password_hash == h
            &&& r.0 == CreateProviderState::AwaitingInsert { provider }
        }),
        hashed is Err ==> r == (CreateProviderState::Done, CreateProviderAction::Finish(Err(Failure::PasswordLibrary))),
{
    match hashed {
        Ok(h) => {
            let provider = Provider { id: request.id, email: request.email, password_hash: h };
            let stored = provider.duplicate();
            (CreateProviderState::AwaitingInsert { provider }, CreateProviderAction::InsertProvider { provider: stored })
        },
        Err(_) => (CreateProviderState::Done, CreateProviderAction::Finish(Err(Failure::PasswordLibrary))),
    }
}

/// One step of a request that creates a provider account.  It needs a live
/// session (401 otherwise); the password is stored only as its bcrypt hash
/// at the default cost, and the new account is the answer.  An event that
/// the state does not wait for is refused with 401.
pub fn create(state: CreateProviderState, event: CreateProviderEvent) -> (r: (CreateProviderState, CreateProviderAction))
    ensures
        r == create_next(state, event, hash_issued(r.1)),
        r.1 matches CreateProviderAction::InsertProvider { provider } ==> state matches CreateProviderState::AwaitingSession { request }
            && bcrypt_verify_result(request.password@, provider.password_hash@) == Some(true)
            && is_default_cost_hash(provider.password_hash@)
            && provider.id == request.id && provider.email == request.email,
        create_accepts(state, event) ==> create_rank(r.0) < create_rank(state),
{
    match (state, event) {
        (CreateProviderState::Start { cookie, request }, CreateProviderEvent::Begin) => match cookie {
            None => (CreateProviderState::Done, CreateProviderAction::Finish(Ok(Reply::Status(Status::Unauthorized)))),
            Some(c) => (CreateProviderState::AwaitingSession { request }, CreateProviderAction::FindSession { cookie: c }),
        },
        (CreateProviderState::AwaitingSession { request }, CreateProviderEvent::SessionFound(found)) =>
            if session_live(&found) {
                let hashed = hash_password(request.password.as_str());
                after_hashing(request, hashed)
            } else {
                (CreateProviderState::Done, CreateProviderAction::Finish(Ok(Reply::Status(Status::Unauthorized))))
            },
        (CreateProviderState::AwaitingInsert { provider }, CreateProviderEvent::Inserted) =>
            (CreateProviderState::Done, CreateProviderAction::Finish(Ok(Reply::Json(provider)))),
        _ => (CreateProviderState::Done, CreateProviderAction::Finish(Ok(Reply::Status(Status::Unauthorized)))),
    }
}

// ---------------------------------------------------------------------------
// Listing the accounts

/// Where a request for the list of accounts stands.
#[derive(Debug)]
pub enum ListProvidersState {
    /// The request has arrived, with the session cookie if the client sent one.
    Start { cookie: Option<String> },
    AwaitingSession,
    AwaitingList,
    Done,
}

/// What the outside world reports back to a request for the list of accounts.
#[derive(Debug)]
pub enum ListProvidersEvent {
    Begin,
    /// The session of the cookie, if the cookie names a session of some provider.
    SessionFound(Option<SessionRecord>),
    Listed(Vec<Provider>),
}

/// What a request for the list of accounts asks the outside world to do next.
#[derive(Debug)]
pub enum ListProvidersAction {
    FindSession { cookie: String },
    ListProviders,
    Finish(Reply<Vec<Provider>>),
}

/// The events that each state of a request for the list waits for.
pub open spec fn list_accepts(state: ListProvidersState, event: ListProvidersEvent) -> bool {
    match (state, event) {
        (ListProvidersState::Start { .. }, ListProvidersEvent::Begin) => true,
        (ListProvidersState::AwaitingSession, ListProvidersEvent::SessionFound(_)) => true,
        (ListProvidersState::AwaitingList, ListProvidersEvent::Listed(_)) => true,
        _ => false,
    }
}

/// The next state and action of a request for the list of accounts.
pub open spec fn list_next(state: ListProvidersState, event: ListProvidersEvent) -> (ListProvidersState, ListProvidersAction) {
    match (state, event) {
        (ListProvidersState::Start { cookie }, ListProvidersEvent::Begin) => match cookie {
            None => (ListProvidersState::Done, ListProvidersAction::Finish(Reply::Status(Status::Unauthorized))),
            Some(c) => (ListProvidersState::AwaitingSession, ListProvidersAction::FindSession { cookie: c }),
        },
        (ListProvidersState::AwaitingSession, ListProvidersEvent::SessionFound(found)) =>
            if is_live(found) {
                (ListProvidersState::AwaitingList, ListProvidersAction::ListProviders)
            } else {
                (ListProvidersState::Done, ListProvidersAction::Finish(Reply::Status(Status::Unauthorized)))
            },
        (ListProvidersState::AwaitingList, ListProvidersEvent::Listed(all)) =>
            (ListProvidersState::Done, ListProvidersAction::Finish(Reply::Json(all))),
        _ => (ListProvidersState::Done, ListProvidersAction::Finish(Reply::Status(Status::Unauthorized))),
    }
}

/// How far a request for the list is from its answer.
pub open spec fn list_rank(state: ListProvidersState) -> nat {
    match state {
        ListProvidersState::Start { .. } => 3,
        ListProvidersState::AwaitingSession => 2,
        ListProvidersState::AwaitingList => 1,
        ListProvidersState::Done => 0,
    }
}

/// One step of a request for the list of provider accounts, which needs a
/// live session (401 otherwise).  An event that the state does not wait for
/// is refused with 401.
pub fn get_all(state: ListProvidersState, event: ListProvidersEvent) -> (r: (ListProvidersState, ListProvidersAction))
    ensures
        r == list_next(state, event),
        list_accepts(state, event) ==> list_rank(r.0) < list_rank(state),
{
    match (state, event) {
        (ListProvidersState::Start { cookie }, ListProvidersEvent::Begin) => match cookie {
            None => (ListProvidersState::Done, ListProvidersAction::Finish(Reply::Status(Status::Unauthorized))),
            Some(c) => (ListProvidersState::AwaitingSession, ListProvidersAction::FindSession { cookie: c }),
        },
        (ListProvidersState::AwaitingSession, ListProvidersEvent::SessionFound(found)) =>
            if session_live(&found) {
                (ListProvidersState::AwaitingList, ListProvidersAction::ListProviders)
            } else {
                (ListProvidersState::Done, ListProvidersAction::Finish(Reply::Status(Status::Unauthorized)))
            },
        (ListProvidersState::AwaitingList, ListProvidersEvent::Listed(all)) =>
            (ListProvidersState::Done, ListProvidersAction::Finish(Reply::Json(all))),
        _ => (ListProvidersState::Done, ListProvidersAction::Finish(Reply::Status(Status::Unauthorized))),
    }
}

// ---------------------------------------------------------------------------
// Laws of the account requests

/// The clock is read for a session only for a request that carried a
/// cookie, named a known account, and whose password the account's stored
/// hash verifies; and a session is stored only for such a request, until a
/// day after the clock's time.
pub proof fn lemma_session_needs_right_password(state: AuthorizeState, event: AuthorizeEvent)
    ensures
        authorize_next(state, event, authorize_verdict(state, event)).0 matches AuthorizeState::AwaitingClock { session, provider_id }
            ==> ({
                &&& state matches AuthorizeState::AwaitingCredentials { session: c, password }
                &&& c == session
                &&& event matches AuthorizeEvent::CredentialsFound(Some(cr))
                &&& cr.id == provider_id
                &&& bcrypt_verify_result(password@, cr.password_hash@) == Some(true)
            }),
        authorize_next(state, event, authorize_verdict(state, event)).1 matches AuthorizeAction::StoreSession { cookie, provider_id, expires }
            ==> ({
                &&& state matches AuthorizeState::AwaitingClock { session: c, provider_id: p }
                &&& c == cookie
                &&& p == provider_id
                &&& event matches AuthorizeEvent::ClockRead(now)
                &&& session_end(now) == Some(expires)
            }),
{
}

/// A log-in request without a session cookie is answered 400 at once.
pub proof fn lemma_authorize_without_cookie(request: AuthRequest, verdict: Option<bool>)
    ensures
        authorize_next(AuthorizeState::Start { cookie: None, request }, AuthorizeEvent::Begin, verdict)
            == (AuthorizeState::Done, AuthorizeAction::Finish(Ok(Reply::<bool>::Status(Status::BadRequest)))),
{
}

/// A request with an unknown e-mail address, or with a password that the
/// stored hash rejects, is answered 401 and records no session.
pub proof fn lemma_authorize_refused(cookie: String, password: String, found: Option<Credentials>)
    requires
        found matches Some(cr) ==> bcrypt_verify_result(password@, cr.password_hash@) == Some(false),
    ensures
        ({
            let state = AuthorizeState::AwaitingCredentials { session: cookie, password };
            let event = AuthorizeEvent::CredentialsFound(found);
            authorize_next(state, event, authorize_verdict(state, event))
                == (AuthorizeState::Done, AuthorizeAction::Finish(Ok(Reply::<bool>::Status(Status::Unauthorized))))
        }),
{
}

/// A log-in request answers `true` only after the session was recorded, and
/// an event out of order is refused, never granted.
pub proof fn lemma_login_granted_only_after_session(state: AuthorizeState, event: AuthorizeEvent)
    ensures
        authorize_next(state, event, authorize_verdict(state, event)).1 matches AuthorizeAction::Finish(Ok(Reply::Json(_)))
            ==> state is AwaitingSession && event is SessionStored,
        !authorize_accepts(state, event) ==> authorize_next(state, event, authorize_verdict(state, event)) == authorize_refusal(),
{
}

/// A session recorded at log-in lasts one day: when the clock reads `t` at
/// log-in, the session is stored (unless a day after `t` cannot be stored,
/// which fails the request), and a later check at `t2` finds it live exactly
/// when `t2` is before `t` plus one day.
pub proof fn lemma_logged_in_session_lasts_a_day(session: String, provider_id: u32, t: Timestamp, t2: Timestamp)
    ensures
        ({
            let r = authorize_next(
                AuthorizeState::AwaitingClock { session, provider_id },
                AuthorizeEvent::ClockRead(t),
                None,
            );
            &&& (r.1 is StoreSession <==> t.secs + SESSION_SECONDS <= i64::MAX)
            &&& (r.1 is StoreSession || r.1 == AuthorizeAction::Finish(Err::<Reply<bool>, Failure>(Failure::TimeOutOfRange)))
            &&& r.1 matches AuthorizeAction::StoreSession { cookie, provider_id: p, expires } ==> {
                &&& cookie == session
                &&& p == provider_id
                &&& (is_live(Some(SessionRecord { expires, now: t2 }))
                    <==> (t2.secs < t.secs + SESSION_SECONDS || (t2.secs == t.secs + SESSION_SECONDS && t2.nanos < t.nanos)))
            }
        }),
{
}

/// An account is stored only after its request was found to come from a
/// live session.
pub proof fn lemma_insert_needs_session(state: CreateProviderState, event: CreateProviderEvent, hashed: Option<String>)
    ensures
        create_next(state, event, hashed).1 is InsertProvider ==> ({
            &&& state is AwaitingSession
            &&& event matches CreateProviderEvent::SessionFound(found)
            &&& is_live(found)
        }),
{
}

/// The accounts are listed only after the request was found to come from a
/// live session.
pub proof fn lemma_list_needs_session(state: ListProvidersState, event: ListProvidersEvent)
    ensures
        list_next(state, event).1 is ListProviders ==> ({
            &&& state is AwaitingSession
            &&& event matches ListProvidersEvent::SessionFound(found)
            &&& is_live(found)
        }),
        list_next(state, event).1 matches ListProvidersAction::Finish(Reply::Json(_)) ==> state is AwaitingList,
{
}

/// An account created with a password can log in with that password: where
/// the stored hash verifies the password, as the hash made at creation does,
/// logging in with it goes on to record the session for that account.
pub proof fn lemma_created_account_logs_in(cookie: String, password: String, provider: Provider)
    requires
        bcrypt_verify_result(password@, provider.password_hash@) == Some(true),
    ensures
        ({
            let state = AuthorizeState::AwaitingCredentials { session: cookie, password };
            let event = AuthorizeEvent::CredentialsFound(
                Some(Credentials { password_hash: provider.password_hash, id: provider.id }),
            );
            authorize_next(state, event, authorize_verdict(state, event)) == (
                AuthorizeState::AwaitingClock { session: cookie, provider_id: provider.id },
                AuthorizeAction::ReadClock,
            )
        }),
{
}

/// The stored password is not the plaintext: a hash at the default cost
/// differs from every password that is not itself 60 characters beginning
/// with `$2b$12$`.
pub proof fn lemma_stored_hash_is_not_the_password(password: Seq<char>, stored: Seq<char>)
    requires
        is_default_cost_hash(stored),
        !is_default_cost_hash(password),
    ensures
        stored != password,
{
}

} // verus!
