//! The two endpoints' replies: the JSON body `{message, timestamp}`, the span
//! that each handler runs in, and the log records it emits inside that span.
use vstd::prelude::*;

verus! {

/// Greeting of `GET /`.
pub const ROOT_GREETING: &'static str = "Rust OpenTelemetry Service";

/// Greeting of `GET /api/hello`.
pub const HELLO_GREETING: &'static str = "Hello from Rust with OpenTelemetry!";

/// Span that `GET /` runs in.
pub const ROOT_SPAN: &'static str = "root_endpoint";

/// Span that `GET /api/hello` runs in.
pub const HELLO_SPAN: &'static str = "hello_endpoint";

/// The informational record that `GET /api/hello` logs.
pub const HELLO_LOG: &'static str = "Hello endpoint called from Rust service";

pub open spec fn root_greeting() -> Seq<char> {
    ROOT_GREETING@
}

pub open spec fn hello_greeting() -> Seq<char> {
    HELLO_GREETING@
}

pub open spec fn root_span() -> Seq<char> {
    ROOT_SPAN@
}

pub open spec fn hello_span() -> Seq<char> {
    HELLO_SPAN@
}

pub open spec fn hello_log() -> Seq<char> {
    HELLO_LOG@
}

/// The body of a reply.
pub struct Message {
    pub message: String,
    pub timestamp: String,
}

/// Severity of a log record.
#[derive(PartialEq, Eq, Structural, Clone, Copy, Debug)]
pub enum Level {
    Info,
}

/// A log record, tied to the span it is emitted in.
pub struct LogRecord {
    pub level: Level,
    pub span: String,
    pub message: String,
}

/// What a handler does for one request: it opens the span `span`, emits
/// `logs` inside it in order, closes it and answers with `body`.
pub struct Reply {
    pub span: String,
    pub logs: Vec<LogRecord>,
    pub body: Message,
}

impl Reply {
    /// Every log record belongs to the reply's own span.
    pub open spec fn logs_in_span(&self) -> bool {
        forall|i: int| 0 <= i < self.logs@.len() ==> (#[trigger] self.logs@[i]).span@ == self.span@
    }
}

/// The reply of `GET /` at the instant written as `timestamp`: the root
/// greeting, in the root span, with no log record.
pub fn root_reply(timestamp: String) -> (r: Reply)
    ensures
        r.body.message@ == root_greeting(),
        r.body.timestamp@ == timestamp@,
        r.span@ == root_span(),
        r.logs@.len() == 0,
        r.logs_in_span(),
{
    Reply {
        span: ROOT_SPAN.to_owned(),
        logs: Vec::new(),
        body: Message { message: ROOT_GREETING.to_owned(), timestamp },
    }
}

/// The reply of `GET /api/hello` at the instant written as `timestamp`: the
/// hello greeting, in the hello span, with exactly one informational record.
pub fn hello_reply(timestamp: String) -> (r: Reply)
    ensures
        r.body.message@ == hello_greeting(),
        r.body.timestamp@ == timestamp@,
        r.span@ == hello_span(),
        r.logs@.len() == 1,
        r.logs@[0].level == Level::Info,
        r.logs@[0].span@ == hello_span(),
        r.logs@[0].message@ == hello_log(),
        r.logs_in_span(),
{
    let mut logs: Vec<LogRecord> = Vec::new();
    logs.push(LogRecord { level: Level::Info, span: HELLO_SPAN.to_owned(), message: HELLO_LOG.to_owned() });
    Reply {
        span: HELLO_SPAN.to_owned(),
        logs,
        body: Message { message: HELLO_GREETING.to_owned(), timestamp },
    }
}

/// Seconds from the Unix epoch to 10000-01-01T00:00:00Z: the clock readings
/// below it have a four-digit year.
pub const MAX_RFC3339_SECS: u64 = 253402300800;

/// Nanoseconds in one second.
pub const NANOS_PER_SEC: u32 = 1000000000;

/// The instant `secs` seconds and `nanos` nanoseconds after the Unix epoch can
/// be written as an RFC 3339 date-time with a four-digit year.
pub open spec fn in_rfc3339_range(secs: u64, nanos: u32) -> bool {
    secs < MAX_RFC3339_SECS && nanos < NANOS_PER_SEC
}

/// The reply of `GET /` at the instant `secs` seconds and `nanos` nanoseconds
/// after the Unix epoch, where that instant has a four-digit year.
pub fn root_at(secs: u64, nanos: u32) -> (r: Option<Reply>)
    ensures
        r is Some <==> in_rfc3339_range(secs, nanos),
        r is Some ==> r->0.body.message@ == root_greeting(),
        r is Some ==> r->0.body.timestamp@ == rfc3339_of(secs as int, nanos as int),
        r is Some ==> is_rfc3339_utc(r->0.body.timestamp@),
        r is Some ==> r->0.span@ == root_span(),
        r is Some ==> r->0.logs@.len() == 0,
{
    match timestamp_at(secs, nanos) {
        Some(timestamp) => Some(root_reply(timestamp)),
        None => None,
    }
}

/// The reply of `GET /api/hello` at the instant `secs` seconds and `nanos`
/// nanoseconds after the Unix epoch, where that instant has a four-digit year.
pub fn hello_at(secs: u64, nanos: u32) -> (r: Option<Reply>)
    ensures
        r is Some <==> in_rfc3339_range(secs, nanos),
        r is Some ==> r->0.body.message@ == hello_greeting(),
        r is Some ==> r->0.body.timestamp@ == rfc3339_of(secs as int, nanos as int),
        r is Some ==> is_rfc3339_utc(r->0.body.timestamp@),
        r is Some ==> r->0.span@ == hello_span(),
        r is Some ==> r->0.logs@.len() == 1,
        r is Some ==> r->0.logs@[0].level == Level::Info,
        r is Some ==> r->0.logs@[0].span@ == hello_span(),
        r is Some ==> r->0.logs@[0].message@ == hello_log(),
{
    match timestamp_at(secs, nanos) {
        Some(timestamp) => Some(hello_reply(timestamp)),
        None => None,
    }
}

/// The RFC 3339 text of the instant, where it has a four-digit year.
fn timestamp_at(secs: u64, nanos: u32) -> (r: Option<String>)
    ensures
        r is Some <==> in_rfc3339_range(secs, nanos),
        r is Some ==> r->0@ == rfc3339_of(secs as int, nanos as int),
        r is Some ==> is_rfc3339_utc(r->0@),
{
    if secs < MAX_RFC3339_SECS && nanos < NANOS_PER_SEC {
        format_rfc3339(secs as i64, nanos)
    } else {
        None
    }
}

/// Handles `GET /`: the root reply, stamped with the current time. `None`
/// where the clock reads before the Unix epoch or past the year 9999.
pub fn root() -> (r: Option<Reply>)
    ensures
        r is Some ==> r->0.body.message@ == root_greeting(),
        r is Some ==> is_rfc3339_utc(r->0.body.timestamp@),
        r is Some ==> r->0.span@ == root_span(),
        r is Some ==> r->0.logs@.len() == 0,
{
    match clock_now() {
        Some((secs, nanos)) => root_at(secs, nanos),
        None => None,
    }
}

/// Handles `GET /api/hello`: the hello reply, stamped with the current time.
/// `None` where the clock reads before the Unix epoch or past the year 9999.
pub fn hello() -> (r: Option<Reply>)
    ensures
        r is Some ==> r->0.body.message@ == hello_greeting(),
        r is Some ==> is_rfc3339_utc(r->0.body.timestamp@),
        r is Some ==> r->0.span@ == hello_span(),
        r is Some ==> r->0.logs@.len() == 1,
        r is Some ==> r->0.logs@[0].level == Level::Info,
        r is Some ==> r->0.logs@[0].span@ == hello_span(),
        r is Some ==> r->0.logs@[0].message@ == hello_log(),
{
    match clock_now() {
        Some((secs, nanos)) => hello_at(secs, nanos),
        None => None,
    }
}

pub open spec fn is_digit(c: char) -> bool {
    '0' <= c && c <= '9'
}

/// `s[from..from + n]` holds decimal digits only.
pub open spec fn digits_at(s: Seq<char>, from: int, n: int) -> bool {
    forall|i: int| from <= i < from + n ==> #[trigger] is_digit(s[i])
}

/// An RFC 3339 date-time in UTC as chrono writes it for a four-digit year:
/// `YYYY-MM-DDTHH:MM:SS`, then `.` with 3, 6 or 9 digits unless the
/// fraction is zero, then the offset `+00:00`.
pub open spec fn is_rfc3339_utc(s: Seq<char>) -> bool {
    let n = s.len() as int;
    &&& n == 25 || n == 29 || n == 32 || n == 35
    &&& digits_at(s, 0, 4) && s[4] == '-' && digits_at(s, 5, 2) && s[7] == '-'
    &&& digits_at(s, 8, 2) && s[10] == 'T'
    &&& digits_at(s, 11, 2) && s[13] == ':' && digits_at(s, 14, 2) && s[16] == ':'
    &&& digits_at(s, 17, 2)
    &&& n > 25 ==> s[19] == '.' && digits_at(s, 20, n - 26)
    &&& s.subrange(n - 6, n) == seq!['+', '0', '0', ':', '0', '0']
}

/// The RFC 3339 text that chrono writes for the UTC instant `secs` seconds and
/// `nanos` nanoseconds after the Unix epoch.
pub uninterp spec fn rfc3339_of(secs: int, nanos: int) -> Seq<char>;

/// Relies on chrono's `DateTime::from_timestamp` and `DateTime::to_rfc3339`:
/// an instant with a four-digit year and a nanosecond part under one second
/// exists, and its text has the shape of `is_rfc3339_utc`, the offset of UTC
/// being written `+00:00`.
#[verifier::external_body]
fn format_rfc3339(secs: i64, nanos: u32) -> (r: Option<String>)
    ensures
        0 <= secs < MAX_RFC3339_SECS && nanos < NANOS_PER_SEC ==> r is Some,
        r is Some ==> r->0@ == rfc3339_of(secs as int, nanos as int),
        r is Some && 0 <= secs < MAX_RFC3339_SECS && nanos < NANOS_PER_SEC ==> is_rfc3339_utc(r->0@),
{
    match chrono::DateTime::from_timestamp(secs, nanos) {
        Some(t) => Some(t.to_rfc3339()),
        None => None,
    }
}

/// Relies on std's `SystemTime::now` and `SystemTime::duration_since`: the
/// time since the Unix epoch as whole seconds and the nanoseconds past them,
/// or `None` where the clock reads before the epoch.
#[verifier::external_body]
fn clock_now() -> (r: Option<(u64, u32)>)
    ensures
        match r {
            Some((_, nanos)) => nanos < NANOS_PER_SEC,
            None => true,
        },
{
    match std::time::SystemTime::now().duration_since(std::time::UNIX_EPOCH) {
        Ok(d) => Some((d.as_secs(), d.subsec_nanos())),
        Err(_) => None,
    }
}

} // verus!
