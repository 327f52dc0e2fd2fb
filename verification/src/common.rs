use vstd::prelude::*;

verus! {

/// A point in time as seconds and nanoseconds since the Unix epoch.
#[derive(Clone, Copy, Debug, PartialEq, Eq, Structural)]
pub struct Timestamp {
    pub secs: i64,
    pub nanos: u32,
}

/// Whether `a` is strictly earlier than `b`.
pub open spec fn earlier(a: Timestamp, b: Timestamp) -> bool {
    a.secs < b.secs || (a.secs == b.secs && a.nanos < b.nanos)
}

impl Timestamp {
    /// Whether this time is strictly earlier than `other`.
    pub fn is_before(&self, other: &Timestamp) -> (b: bool)
        ensures
            b == earlier(*self, *other),
    {
        self.secs < other.secs || (self.secs == other.secs && self.nanos < other.nanos)
    }
}

/// The Unix epoch: the time a meal is taken to have opened when none is given.
pub fn zerotime() -> (t: Timestamp)
    ensures
        t.secs == 0,
        t.nanos == 0,
{
    Timestamp { secs: 0, nanos: 0 }
}

/// A reply that carries no body, only a status.
#[derive(Clone, Copy, Debug, PartialEq, Eq, Structural)]
pub enum Status {
    BadRequest,
    Unauthorized,
    NotFound,
}

/// What a request is answered with: a JSON body (status 200) or a bare status.
#[derive(Debug)]
pub enum Reply<T> {
    Json(T),
    Status(Status),
}

/// A failure inside the service's own logic; it is answered with status 500.
#[derive(Clone, Copy, Debug, PartialEq, Eq, Structural)]
pub enum Failure {
    /// The password library could not check or hash a password.
    PasswordLibrary,
    /// The clock reads a time so late that a day after it cannot be stored.
    TimeOutOfRange,
}

/// The HTTP status of a bare-status reply.
pub open spec fn status_number(s: Status) -> u16 {
    match s {
        Status::BadRequest => 400,
        Status::Unauthorized => 401,
        Status::NotFound => 404,
    }
}

/// The HTTP status with which an outcome is sent.
pub open spec fn outcome_status<T>(outcome: Result<Reply<T>, Failure>) -> u16 {
    match outcome {
        Ok(Reply::Json(_)) => 200,
        Ok(Reply::Status(s)) => status_number(s),
        Err(_) => 500,
    }
}

/// The HTTP status with which an outcome is sent: 200 for a JSON body, the
/// status itself for a bare status, and 500 for a failure.
pub fn http_status<T>(outcome: &Result<Reply<T>, Failure>) -> (code: u16)
    ensures
        code == outcome_status(*outcome),
{
    match outcome {
        Ok(Reply::Json(_)) => 200,
        Ok(Reply::Status(Status::BadRequest)) => 400,
        Ok(Reply::Status(Status::Unauthorized)) => 401,
        Ok(Reply::Status(Status::NotFound)) => 404,
        Err(_) => 500,
    }
}

/// The reply for a row that was looked up: the row as JSON, or 404 when
/// there is none.
pub open spec fn found_reply<T>(found: Option<T>) -> Reply<T> {
    match found {
        Some(v) => Reply::Json(v),
        None => Reply::Status(Status::NotFound),
    }
}

/// Answers with the row that was found, or with 404 when there is none.
pub fn or_404<T>(found: Option<T>) -> (r: Reply<T>)
    ensures
        r == found_reply(found),
        found matches Some(v) ==> r == Reply::Json(v),
        found is None ==> r == Reply::<T>::Status(Status::NotFound),
{
    match found {
        Some(v) => Reply::Json(v),
        None => Reply::Status(Status::NotFound),
    }
}

/// The identifier of a freshly inserted row as a 32-bit key: the database
/// reports a 64-bit insert id, of which the low 32 bits are kept.
pub fn insert_id_u32(last_insert_id: u64) -> (id: u32)
    ensures
        id == last_insert_id % 0x1_0000_0000,
{
    (last_insert_id % 0x1_0000_0000) as u32
}

} // verus!
