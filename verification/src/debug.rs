use vstd::prelude::*;
use std::borrow::Cow;
use std::time::{Duration, Instant};

verus! {

/// Severities a timing line can be emitted at; whoever receives the line
/// decides where a line of each severity goes.
#[derive(Clone, Copy, PartialEq, Eq, Structural, Debug)]
pub enum LogLevel {
    Error,
    Warn,
    Info,
    Debug,
    Trace,
}

/// A point in time taken from the system's monotonic clock.
#[verifier::external_type_specification]
#[verifier::external_body]
pub struct ExInstant(Instant);

/// The text std's `Debug` formatting renders a `Duration` as.  It depends
/// on the duration value alone, so it gets a name rather than a page of
/// formatting rules.
pub uninterp spec fn duration_text(d: Duration) -> Seq<char>;

/// The one line a timing reports: the rendered elapsed time in brackets,
/// then the message.
pub open spec fn timing_line(d: Duration, msg: Seq<char>) -> Seq<char> {
    seq!['['] + duration_text(d) + seq![']', ' '] + msg
}

/// Relies on std's `Instant::now` for the current monotonic time; nothing
/// is assumed of the value.
#[verifier::external_body]
fn instant_now() -> Instant {
    Instant::now()
}

/// Relies on std's `Instant::duration_since` for the time between two
/// instants; nothing is assumed of the value.
#[verifier::external_body]
fn instant_duration_since(later: &Instant, earlier: &Instant) -> Duration {
    later.duration_since(*earlier)
}

/// Relies on std's `Into` conversions into `Cow<str>`.  The conversion is
/// chosen by the caller's type, which may be anyone's, so nothing is
/// assumed of the result.
#[verifier::external_body]
fn message_into_cow<'a, N: Into<Cow<'a, str>>>(msg: N) -> Cow<'a, str> {
    msg.into()
}

/// Relies on `From<&str> for Cow<str>`, which borrows the given text
/// unchanged.
#[verifier::external_body]
fn str_into_cow<'a>(msg: &'a str) -> (r: Cow<'a, str>)
    ensures
        r@ == msg@,
{
    Cow::from(msg)
}

/// Relies on std's `format!` (`Debug` for `Duration`, `Display` for `str`)
/// to render one timing line: the elapsed time in brackets, then the
/// message.
#[verifier::external_body]
fn format_timing_line(elapsed: &Duration, msg: &Cow<'_, str>) -> (r: String)
    ensures
        r@ == seq!['['] + duration_text(*elapsed) + seq![']', ' '] + msg@,
{
    format!("[{:?}] {}", elapsed, msg)
}

/// Measures how long a scope takes: remembers when it was created and
/// renders an "[elapsed] message" line on demand.
pub struct Timing<'a> {
    pub start: Instant,
    pub level: LogLevel,
    pub msg: Cow<'a, str>,
}

impl<'a> Timing<'a> {
    /// A timing that starts now and will report under the given message.
    /// The message conversion is the caller's `Into` impl, so the contract
    /// leaves the stored text open; std's own conversions keep it verbatim.
    pub fn new<N: Into<Cow<'a, str>>>(msg: N) -> (t: Self)
        ensures
            t.level is Trace,
    {
        let mut t = Self::default();
        t.msg = message_into_cow(msg);
        t
    }

    /// The time that has passed since this timing was created.
    pub fn elapsed(&self) -> Duration {
        let now = instant_now();
        instant_duration_since(&now, &self.start)
    }

    /// The line to report for this timing: some elapsed time rendered in
    /// brackets, then the message.  The caller emits it at `self.level`.
    pub fn log(&self) -> (r: String)
        ensures
            exists|d: Duration| r@ == #[trigger] timing_line(d, self.msg@),
    {
        let elapsed = self.elapsed();
        let line = format_timing_line(&elapsed, &self.msg);
        proof {
            assert(line@ == timing_line(elapsed, self.msg@));
        }
        line
    }
}

impl<'a> Default for Timing<'a> {
    fn default() -> (t: Self)
        ensures
            t.level is Trace,
            t.msg@ == "TIME!"@,
    {
        Timing { start: instant_now(), level: LogLevel::Trace, msg: str_into_cow("TIME!") }
    }
}

} // verus!
