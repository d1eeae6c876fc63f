use vstd::prelude::*;

verus! {

/// The earliest whole second, counted from the Unix epoch, that a timestamp may have.
pub const MIN_SECOND: i64 = -377705023201;

/// The latest whole second, counted from the Unix epoch, that a timestamp may have.
pub const MAX_SECOND: i64 = 253402207200;

/// The largest magnitude of the sub-second part, in nanoseconds.
pub const MAX_NANOSECOND: i32 = 999999999;

/// Whether `second` and `nanosecond` name an instant in the supported range.
pub open spec fn in_range(second: i64, nanosecond: i32) -> bool {
    &&& MIN_SECOND <= second <= MAX_SECOND
    &&& -MAX_NANOSECOND <= nanosecond <= MAX_NANOSECOND
    &&& !(second == MIN_SECOND && nanosecond < 0)
}

/// An instant in time: seconds since the Unix epoch and a sub-second part in
/// nanoseconds. Every value lies in the supported range.
#[derive(Debug, Clone, Copy)]
pub struct Instant {
    second: i64,
    nanosecond: i32,
}

/// The human-readable text of the instant given by `second` and `nanosecond`.
pub uninterp spec fn timestamp_text(second: i64, nanosecond: i32) -> Seq<char>;

impl Instant {
    #[verifier::type_invariant]
    closed spec fn inv(self) -> bool {
        in_range(self.second, self.nanosecond)
    }

    pub closed spec fn spec_second(self) -> i64 {
        self.second
    }

    pub closed spec fn spec_nanosecond(self) -> i32 {
        self.nanosecond
    }

    /// The text shown for this instant.
    pub open spec fn text(self) -> Seq<char> {
        timestamp_text(self.spec_second(), self.spec_nanosecond())
    }

    /// The instant `second` seconds and `nanosecond` nanoseconds after the
    /// Unix epoch; `None` when that lies outside the supported range.
    pub fn new(second: i64, nanosecond: i32) -> (r: Option<Instant>)
        ensures
            r is Some <==> in_range(second, nanosecond),
            r matches Some(t) ==> t.spec_second() == second && t.spec_nanosecond() == nanosecond,
    {
        if MIN_SECOND <= second && second <= MAX_SECOND && -MAX_NANOSECOND <= nanosecond
            && nanosecond <= MAX_NANOSECOND && !(second == MIN_SECOND && nanosecond < 0) {
            Some(Instant { second, nanosecond })
        } else {
            None
        }
    }

    pub fn second(&self) -> (r: i64)
        ensures
            r == self.spec_second(),
    {
        self.second
    }

    pub fn nanosecond(&self) -> (r: i32)
        ensures
            r == self.spec_nanosecond(),
    {
        self.nanosecond
    }

    /// The current wall-clock time; `None` when the system clock is set
    /// outside the supported range.
    pub fn now() -> (r: Option<Instant>) {
        match timestamp_parts(std::time::SystemTime::now()) {
            Some((second, nanosecond)) => Some(Instant { second, nanosecond }),
            None => None,
        }
    }

    /// Formats this instant as text.
    pub fn to_text(&self) -> (r: String)
        ensures
            r@ == self.text(),
    {
        proof {
            use_type_invariant(self);
        }
        format_timestamp(self.second, self.nanosecond)
    }
}

#[verifier::external_type_specification]
#[verifier::external_body]
pub struct ExSystemTime(std::time::SystemTime);

/// Relies on std's `SystemTime::now`: it reads the system clock, of which
/// nothing is promised.
pub assume_specification[ std::time::SystemTime::now ]() -> std::time::SystemTime;

/// Relies on jiff's `TryFrom<SystemTime>` for `Timestamp`, which fails rather
/// than panics when the time lies outside jiff's range, and on
/// `Timestamp::as_second` and `Timestamp::subsec_nanosecond`: every jiff
/// timestamp lies between `Timestamp::MIN` and `Timestamp::MAX`, and its
/// sub-second part is under one second in magnitude.
#[verifier::external_body]
fn timestamp_parts(t: std::time::SystemTime) -> (r: Option<(i64, i32)>)
    ensures
        r matches Some(p) ==> in_range(p.0, p.1),
{
    match jiff::Timestamp::try_from(t) {
        Ok(ts) => Some((ts.as_second(), ts.subsec_nanosecond())),
        Err(_) => None,
    }
}

/// Relies on jiff's `Timestamp::constant`, which panics exactly where
/// `Timestamp::new` fails (outside `in_range`), and on jiff's `Display` for
/// `Timestamp`, whose text depends on the timestamp alone.
#[verifier::external_body]
fn format_timestamp(second: i64, nanosecond: i32) -> (r: String)
    requires
        in_range(second, nanosecond),
    ensures
        r@ == timestamp_text(second, nanosecond),
{
    jiff::Timestamp::constant(second, nanosecond).to_string()
}

} // verus!
