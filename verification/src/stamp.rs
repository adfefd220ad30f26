//! Timestamps: the ways in which a line can be stamped, and the clocks that
//! are read for it.

use vstd::prelude::*;

verus! {

/// How the lines are stamped. At most one way is in force at a time.
#[derive(Debug)]
pub enum TimestampMode {
    /// No timestamp.
    Off,
    /// The wall-clock time in UTC, written after the given strftime pattern.
    Clock(String),
    /// The time that has passed since the sink was made.
    ElapsedSinceStart,
}

/// A `TimestampMode` as a mathematical value.
pub enum TimestampModeView {
    Off,
    Clock(Seq<char>),
    ElapsedSinceStart,
}

impl View for TimestampMode {
    type V = TimestampModeView;

    open spec fn view(&self) -> TimestampModeView {
        match self {
            TimestampMode::Off => TimestampModeView::Off,
            TimestampMode::Clock(pattern) => TimestampModeView::Clock(pattern@),
            TimestampMode::ElapsedSinceStart => TimestampModeView::ElapsedSinceStart,
        }
    }
}

impl Clone for TimestampMode {
    fn clone(&self) -> (copy: TimestampMode)
        ensures
            copy@ == self@,
    {
        match self {
            TimestampMode::Off => TimestampMode::Off,
            TimestampMode::Clock(pattern) => TimestampMode::Clock(pattern.clone()),
            TimestampMode::ElapsedSinceStart => TimestampMode::ElapsedSinceStart,
        }
    }
}

/// A reading of the wall clock: how far it stands from the start of 1970 in
/// UTC, in seconds and nanoseconds, and on which side.
#[derive(Clone, Copy, Debug, PartialEq, Eq, Hash, Structural)]
pub enum WallClock {
    /// At the start of 1970 or after it.
    Since(u64, u32),
    /// Before the start of 1970.
    Before(u64, u32),
}

impl WallClock {
    /// The nanoseconds are part of a second.
    pub open spec fn is_reading(self) -> bool {
        match self {
            WallClock::Since(_, nanos) => nanos < 1_000_000_000,
            WallClock::Before(_, nanos) => nanos < 1_000_000_000,
        }
    }

    /// The instant as whole seconds from the start of 1970, counted below
    /// zero for an instant before it, and the nanoseconds past that second.
    pub open spec fn offset(self) -> (int, int) {
        match self {
            WallClock::Since(seconds, nanos) => (seconds as int, nanos as int),
            WallClock::Before(seconds, nanos) => if nanos == 0 {
                (-(seconds as int), 0)
            } else {
                (-(seconds as int) - 1, 1_000_000_000 - nanos)
            },
        }
    }

    /// The offset of a reading, where its seconds fit into 64 bits.
    pub open spec fn timestamp(self) -> Option<(i64, u32)> {
        if self.is_reading() && i64::MIN <= self.offset().0 <= i64::MAX {
            Some((self.offset().0 as i64, self.offset().1 as u32))
        } else {
            None
        }
    }

    /// The offset of a reading, where its seconds fit into 64 bits.
    pub fn to_timestamp(self) -> (r: Option<(i64, u32)>)
        ensures
            r == self.timestamp(),
    {
        match self {
            WallClock::Since(seconds, nanos) => {
                if nanos < 1_000_000_000 && seconds <= 0x7fff_ffff_ffff_ffff {
                    Some((seconds as i64, nanos))
                } else {
                    None
                }
            },
            WallClock::Before(seconds, nanos) => {
                if nanos >= 1_000_000_000 {
                    None
                } else if seconds <= 0x7fff_ffff_ffff_ffff {
                    let whole: i64 = -(seconds as i64);
                    if nanos == 0 {
                        Some((whole, 0))
                    } else {
                        Some((whole - 1, 1_000_000_000 - nanos))
                    }
                } else if seconds == 0x8000_0000_0000_0000 && nanos == 0 {
                    Some((i64::MIN, 0))
                } else {
                    None
                }
            },
        }
    }
}

/// What chrono writes, after the strftime pattern `pattern`, for the instant
/// in UTC that lies `seconds` seconds and `nanos` nanoseconds after the start
/// of 1970: nothing where it cannot follow the pattern or cannot hold the
/// instant.
pub uninterp spec fn strftime_utc(seconds: int, nanos: int, pattern: Seq<char>) -> Option<
    Seq<char>,
>;

/// What the `Debug` form of a `std::time::Duration` of `seconds` seconds and
/// `nanos` nanoseconds reads, as in `1.246717ms`.
pub uninterp spec fn duration_debug(seconds: int, nanos: int) -> Seq<char>;

/// The timestamp that `pattern` makes of a reading of the wall clock: none
/// for what is no reading, for an instant whose seconds do not fit into 64
/// bits or that chrono cannot hold, and for a pattern that it cannot follow.
pub open spec fn clock_text(reading: WallClock, pattern: Seq<char>) -> Option<Seq<char>> {
    match reading.timestamp() {
        Some((seconds, nanos)) => strftime_utc(seconds as int, nanos as int, pattern),
        None => None,
    }
}

/// The timestamp for a time of `seconds` seconds and `nanos` nanoseconds
/// that has passed: none where the nanoseconds are no part of a second.
pub open spec fn elapsed_text(seconds: u64, nanos: u32) -> Option<Seq<char>> {
    if nanos < 1_000_000_000 {
        Some(duration_debug(seconds as int, nanos as int))
    } else {
        None
    }
}

impl TimestampModeView {
    /// Whether a line can come to bear `stamp` under this mode. Where
    /// stamping is off, it bears none. Under the clock it bears what the
    /// pattern makes of some reading of the wall clock. Under the elapsed
    /// time it bears some duration.
    pub open spec fn admits(self, stamp: Option<Seq<char>>) -> bool {
        match self {
            TimestampModeView::Off => stamp is None,
            TimestampModeView::Clock(pattern) => exists|reading: WallClock|
                reading.is_reading() && stamp == #[trigger] clock_text(reading, pattern),
            TimestampModeView::ElapsedSinceStart => exists|seconds: u64, nanos: u32|
                nanos < 1_000_000_000 && stamp == #[trigger] elapsed_text(seconds, nanos),
        }
    }
}

/// The view of an optional owned text.
pub open spec fn owned_text_of(text: Option<String>) -> Option<Seq<char>> {
    match text {
        Some(t) => Some(t@),
        None => None,
    }
}

/// `std::time::Instant`, a reading of the monotonic clock. It is carried
/// through as it is.
#[verifier::external_type_specification]
#[verifier::external_body]
pub struct ExInstant(std::time::Instant);

/// `std::time::SystemTime`, a reading of the wall clock. It is carried
/// through as it is.
#[verifier::external_type_specification]
#[verifier::external_body]
pub struct ExSystemTime(std::time::SystemTime);

/// `std::time::Instant::now`: the present reading of the monotonic clock.
pub assume_specification[ std::time::Instant::now ]() -> std::time::Instant;

/// `std::time::SystemTime::now`: the present reading of the wall clock.
pub assume_specification[ std::time::SystemTime::now ]() -> std::time::SystemTime;

/// `std::time::Instant::elapsed`: the time that has passed since `start`, as
/// `Duration::as_secs` and `Duration::subsec_nanos` give it. The nanoseconds
/// are the part of a second and so below a thousand million.
#[verifier::external_body]
pub(crate) fn elapsed_since(start: &std::time::Instant) -> (r: (u64, u32))
    ensures
        r.1 < 1_000_000_000,
{
    let elapsed = start.elapsed();
    (elapsed.as_secs(), elapsed.subsec_nanos())
}

/// `std::time::SystemTime::duration_since`, asked for the distance from
/// `UNIX_EPOCH`. For an instant before it the call gives an error that holds
/// the distance the other way round. Either distance is handed out as
/// `Duration::as_secs` and `Duration::subsec_nanos` give it, so that the
/// nanoseconds are below a thousand million.
#[verifier::external_body]
pub(crate) fn since_epoch(at: &std::time::SystemTime) -> (r: WallClock)
    ensures
        r.is_reading(),
{
    match at.duration_since(std::time::UNIX_EPOCH) {
        Ok(since) => WallClock::Since(since.as_secs(), since.subsec_nanos()),
        Err(e) => WallClock::Before(e.duration().as_secs(), e.duration().subsec_nanos()),
    }
}

/// The `Debug` form of the `std::time::Duration` that `Duration::new` makes
/// of `seconds` and `nanos`. With `nanos` below a thousand million nothing is
/// carried over into the seconds.
#[verifier::external_body]
pub(crate) fn duration_text(seconds: u64, nanos: u32) -> (r: String)
    requires
        nanos < 1_000_000_000,
    ensures
        r@ == duration_debug(seconds as int, nanos as int),
{
    format!("{:?}", std::time::Duration::new(seconds, nanos))
}

/// `chrono::DateTime::format` with `pattern`, of the instant that
/// `DateTime::from_timestamp` makes of `seconds` and `nanos`, written out by
/// `DelayedFormat::write_to`. There is no text where the instant is out of
/// chrono's range or the pattern holds a specifier that chrono does not know.
#[verifier::external_body]
pub(crate) fn utc_text(seconds: i64, nanos: u32, pattern: &str) -> (r: Option<String>)
    ensures
        owned_text_of(r) == strftime_utc(seconds as int, nanos as int, pattern@),
{
    let mut text = String::new();
    match chrono::DateTime::from_timestamp(seconds, nanos) {
        Some(at) => match at.format(pattern).write_to(&mut text) {
            Ok(()) => Some(text),
            Err(_) => None,
        },
        None => None,
    }
}

/// Writes the timestamp that `pattern` makes of a reading of the wall clock.
pub fn clock_stamp(reading: WallClock, pattern: &str) -> (stamp: Option<String>)
    ensures
        owned_text_of(stamp) == clock_text(reading, pattern@),
{
    match reading.to_timestamp() {
        Some((seconds, nanos)) => utc_text(seconds, nanos, pattern),
        None => None,
    }
}

/// Writes the timestamp for a time of `seconds` seconds and `nanos`
/// nanoseconds that has passed.
pub fn elapsed_stamp(seconds: u64, nanos: u32) -> (stamp: Option<String>)
    ensures
        owned_text_of(stamp) == elapsed_text(seconds, nanos),
{
    if nanos < 1_000_000_000 {
        Some(duration_text(seconds, nanos))
    } else {
        None
    }
}

/// Reads the clock that `mode` asks for and writes the timestamp: none where
/// stamping is off, the present time in UTC after the pattern under the
/// clock, and the time that has passed since `start` under the elapsed time.
pub(crate) fn read_stamp(mode: &TimestampMode, start: &std::time::Instant) -> (stamp: Option<
    String,
>)
    ensures
        mode@.admits(owned_text_of(stamp)),
{
    match mode {
        TimestampMode::Off => None,
        TimestampMode::Clock(pattern) => {
            let now = std::time::SystemTime::now();
            let reading = since_epoch(&now);
            let stamp = clock_stamp(reading, pattern.as_str());
            assert(owned_text_of(stamp) == clock_text(reading, pattern@));
            stamp
        },
        TimestampMode::ElapsedSinceStart => {
            let (seconds, nanos) = elapsed_since(start);
            let stamp = elapsed_stamp(seconds, nanos);
            assert(owned_text_of(stamp) == elapsed_text(seconds, nanos));
            stamp
        },
    }
}

} // verus!
