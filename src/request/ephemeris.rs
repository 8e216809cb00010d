//! Parameters shared by every ephemeris type: step sizes, time
//! specifications and the enumerations of the protocol.

pub mod common;
pub mod elements;
pub mod vectors;

use vstd::prelude::*;

use crate::wire::{decimal, decimal_text, pairs_view, push_pair, TextPair};

verus! {

/// The unit of a step size.
#[derive(Debug, Clone, Copy, PartialEq, Eq, Structural, PartialOrd, Ord)]
pub enum StepSizeUnit {
    Unitless,
    Minutes,
    Hours,
    Days,
    Years,
    Months,
}

impl StepSizeUnit {
    /// The suffix that the service reads as this unit.
    pub open spec fn token(self) -> Seq<char> {
        match self {
            StepSizeUnit::Days => "d"@,
            StepSizeUnit::Hours => "h"@,
            StepSizeUnit::Minutes => "m"@,
            StepSizeUnit::Years => "y"@,
            StepSizeUnit::Months => "mo"@,
            StepSizeUnit::Unitless => ""@,
        }
    }

    /// The suffix that the service reads as this unit.
    pub fn as_hz_unit(&self) -> (r: &'static str)
        ensures
            r@ == self.token(),
    {
        match self {
            StepSizeUnit::Days => "d",
            StepSizeUnit::Hours => "h",
            StepSizeUnit::Minutes => "m",
            StepSizeUnit::Years => "y",
            StepSizeUnit::Months => "mo",
            StepSizeUnit::Unitless => "",
        }
    }
}

/// A step between the instants of a bounded time specification.
#[derive(Debug, Clone, Copy, PartialEq, Eq, Structural, PartialOrd, Ord)]
pub struct StepSize {
    value: u32,
    unit: StepSizeUnit,
}

impl StepSize {
    /// The magnitude of the step.
    pub closed spec fn spec_value(self) -> u32 {
        self.value
    }

    /// The unit of the step.
    pub closed spec fn spec_unit(self) -> StepSizeUnit {
        self.unit
    }

    /// The step of `value` in `unit`.
    pub closed spec fn spec_new(value: u32, unit: StepSizeUnit) -> StepSize {
        StepSize { value, unit }
    }

    /// A step is made of its magnitude and its unit.
    pub proof fn lemma_new_parts(value: u32, unit: StepSizeUnit)
        ensures
            StepSize::spec_new(value, unit).spec_value() == value,
            StepSize::spec_new(value, unit).spec_unit() == unit,
    {
    }

    /// The wire token: the magnitude in decimal, then the unit's suffix.
    pub open spec fn token(self) -> Seq<char> {
        decimal(self.spec_value() as nat) + self.spec_unit().token()
    }

    /// Creates a new [`StepSize`].
    pub fn new(value: u32, unit: StepSizeUnit) -> (r: StepSize)
        ensures
            r == StepSize::spec_new(value, unit),
    {
        StepSize { value, unit }
    }

    /// The wire token of the step, e.g. `6h`.
    pub fn to_text(&self) -> (r: String)
        ensures
            r@ == self.token(),
    {
        let mut s = decimal_text(self.value as u64);
        s.append(self.unit.as_hz_unit());
        s
    }
}

impl From<(u32, StepSizeUnit)> for StepSize {
    fn from(p: (u32, StepSizeUnit)) -> (r: StepSize) {
        StepSize { value: p.0, unit: p.1 }
    }
}

impl vstd::std_specs::convert::FromSpecImpl<(u32, StepSizeUnit)> for StepSize {
    open spec fn obeys_from_spec() -> bool {
        true
    }

    open spec fn from_spec(p: (u32, StepSizeUnit)) -> StepSize {
        StepSize::spec_new(p.0, p.1)
    }
}

/// The kind of ephemeris asked for.
#[derive(Debug, Clone, Copy, PartialEq, Eq, Structural)]
pub enum EphemType {
    Observer,
    Elements,
    Vectors,
}

impl EphemType {
    /// The wire token of the ephemeris type.
    pub open spec fn token(self) -> Seq<char> {
        match self {
            EphemType::Observer => "O"@,
            EphemType::Elements => "E"@,
            EphemType::Vectors => "V"@,
        }
    }

    /// The wire token of the ephemeris type.
    pub fn as_str(&self) -> (r: &'static str)
        ensures
            r@ == self.token(),
    {
        match self {
            EphemType::Observer => "O",
            EphemType::Elements => "E",
            EphemType::Vectors => "V",
        }
    }
}

/// The format of the service's answer.
#[derive(Debug, Clone, Copy, PartialEq, Eq, Structural)]
pub enum Format {
    Text,
    Json,
}

impl Format {
    /// The wire token of the format.
    pub open spec fn token(self) -> Seq<char> {
        match self {
            Format::Text => "text"@,
            Format::Json => "json"@,
        }
    }

    /// The wire token of the format.
    pub fn as_str(&self) -> (r: &'static str)
        ensures
            r@ == self.token(),
    {
        match self {
            Format::Text => "text",
            Format::Json => "json",
        }
    }
}

/// The first second of the year 0, in seconds from the Unix epoch.
pub const MIN_TIMESTAMP: i64 = -62167219200;

/// The last second of the year 9999, in seconds from the Unix epoch.
pub const MAX_TIMESTAMP: i64 = 253402300799;

/// Nanoseconds in a second.
pub const NANOS_PER_SECOND: u32 = 1000000000;

/// The RFC 3339 text, in UTC with a `Z`, of the instant `secs` seconds and
/// `nanos` nanoseconds after the Unix epoch.
pub uninterp spec fn rfc3339_utc(secs: int, nanos: int) -> Seq<char>;

/// Relies on chrono's `DateTime::<Utc>::from_timestamp`, which gives an
/// instant for every second of the years 0 to 9999 with nanoseconds below one
/// second, and on `DateTime::to_rfc3339_opts(SecondsFormat::AutoSi, true)`,
/// which writes it in RFC 3339 with `Z` and only the sub-second digits needed.
#[verifier::external_body]
fn rfc3339_text(secs: i64, nanos: u32) -> (r: String)
    requires
        MIN_TIMESTAMP <= secs <= MAX_TIMESTAMP,
        nanos < NANOS_PER_SECOND,
    ensures
        r@ == rfc3339_utc(secs as int, nanos as int),
{
    match chrono::DateTime::from_timestamp(secs, nanos) {
        Some(t) => t.to_rfc3339_opts(chrono::SecondsFormat::AutoSi, true),
        None => String::new(),
    }
}

/// An instant in UTC between the start of the year 0 and the end of the year
/// 9999: seconds from the Unix epoch and nanoseconds within the second.
#[derive(Debug, Clone, Copy, PartialEq, Eq, Structural, PartialOrd, Ord)]
pub struct UtcTime {
    secs: i64,
    nanos: u32,
}

impl UtcTime {
    #[verifier::type_invariant]
    spec fn inv(self) -> bool {
        &&& MIN_TIMESTAMP <= self.secs <= MAX_TIMESTAMP
        &&& self.nanos < NANOS_PER_SECOND
    }

    /// Seconds from the Unix epoch.
    pub closed spec fn spec_secs(self) -> i64 {
        self.secs
    }

    /// Nanoseconds within the second.
    pub closed spec fn spec_nanos(self) -> u32 {
        self.nanos
    }

    /// Whether `secs` and `nanos` name an instant that this type holds.
    pub open spec fn in_range(secs: int, nanos: int) -> bool {
        &&& MIN_TIMESTAMP <= secs <= MAX_TIMESTAMP
        &&& 0 <= nanos < NANOS_PER_SECOND
    }

    /// The wire token: the instant in RFC 3339, UTC.
    pub open spec fn token(self) -> Seq<char> {
        rfc3339_utc(self.spec_secs() as int, self.spec_nanos() as int)
    }

    /// The instant `secs` seconds and `nanos` nanoseconds after the Unix
    /// epoch; `None` where it falls outside the years 0 to 9999 or `nanos`
    /// is a second or more.
    pub fn from_timestamp(secs: i64, nanos: u32) -> (r: Option<UtcTime>)
        ensures
            r is Some <==> UtcTime::in_range(secs as int, nanos as int),
            r matches Some(t) ==> t.spec_secs() == secs && t.spec_nanos() == nanos,
    {
        if MIN_TIMESTAMP <= secs && secs <= MAX_TIMESTAMP && nanos < NANOS_PER_SECOND {
            Some(UtcTime { secs, nanos })
        } else {
            None
        }
    }

    /// Seconds from the Unix epoch.
    pub fn timestamp(&self) -> (r: i64)
        ensures
            r == self.spec_secs(),
            UtcTime::in_range(r as int, self.spec_nanos() as int),
    {
        proof { use_type_invariant(self); }
        self.secs
    }

    /// Nanoseconds within the second.
    pub fn subsec_nanos(&self) -> (r: u32)
        ensures
            r == self.spec_nanos(),
    {
        self.nanos
    }

    /// The instant in RFC 3339, UTC.
    pub fn to_text(&self) -> (r: String)
        ensures
            r@ == self.token(),
    {
        proof { use_type_invariant(self); }
        rfc3339_text(self.secs, self.nanos)
    }
}

/// The instants of a list, in RFC 3339, joined by `,`.
pub open spec fn times_text(ts: Seq<UtcTime>) -> Seq<char>
    decreases ts.len(),
{
    if ts.len() == 0 {
        seq![]
    } else if ts.len() == 1 {
        ts[0].token()
    } else {
        times_text(ts.drop_last()) + seq![','] + ts.last().token()
    }
}

/// An explicit list of instants.
#[derive(Debug, PartialEq, Eq)]
pub struct TList(Vec<UtcTime>);

impl View for TList {
    type V = Seq<UtcTime>;

    closed spec fn view(&self) -> Seq<UtcTime> {
        self.0@
    }
}

impl TList {
    /// The list of `times`, in order.
    pub fn new(times: Vec<UtcTime>) -> (r: TList)
        ensures
            r@ == times@,
    {
        TList(times)
    }

    /// The wire token: the instants joined by `,`.
    pub open spec fn token(self) -> Seq<char> {
        times_text(self@)
    }

    /// The wire token: the instants joined by `,`.
    pub fn to_text(&self) -> (r: String)
        ensures
            r@ == self.token(),
    {
        let ghost all = self@;
        let mut out = String::new();
        let mut i: usize = 0;
        while i < self.0.len()
            invariant
                0 <= i <= self.0.len(),
                all == self.0@,
                out@ == times_text(all.take(i as int)),
            decreases self.0.len() - i,
        {
            proof { reveal_strlit(","); }
            if i > 0 {
                out.append(",");
            }
            let t = self.0[i].to_text();
            out.append(t.as_str());
            proof {
                let next = all.take(i + 1);
                assert(next.drop_last() =~= all.take(i as int));
                assert(next.last() == all[i as int]);
            }
            i += 1;
        }
        assert(all.take(self.0.len() as int) =~= all);
        out
    }
}

impl Clone for TList {
    fn clone(&self) -> (r: TList)
        ensures
            r@ == self@,
    {
        let mut v: Vec<UtcTime> = Vec::new();
        let mut i: usize = 0;
        while i < self.0.len()
            invariant
                0 <= i <= self.0.len(),
                v@ == self.0@.take(i as int),
            decreases self.0.len() - i,
        {
            v.push(self.0[i]);
            proof {
                assert(v@ =~= self.0@.take(i + 1));
            }
            i += 1;
        }
        assert(v@ =~= self.0@);
        TList(v)
    }
}

/// When an ephemeris is tabulated: a stepped interval or a list of instants.
/// Neither form is checked here: the stop may precede the start, and the
/// list may be empty.
#[derive(Debug, PartialEq, Eq)]
pub enum TimeSpec {
    Bounded { step_size: StepSize, start_time: UtcTime, stop_time: UtcTime },
    List { tlist: TList },
}

impl TimeSpec {
    /// The fields of the time specification on the wire, in order.
    pub open spec fn spec_fields(self) -> Seq<TextPair> {
        match self {
            TimeSpec::Bounded { step_size, start_time, stop_time } => seq![
                ("step_size"@, step_size.token()),
                ("start_time"@, start_time.token()),
                ("stop_time"@, stop_time.token()),
            ],
            TimeSpec::List { tlist } => seq![("tlist"@, tlist.token())],
        }
    }

    /// Two time specifications say the same: the same form with equal
    /// parts, and for lists the same instants in the same order.
    pub open spec fn equiv(self, other: TimeSpec) -> bool {
        match (self, other) {
            (
                TimeSpec::Bounded { step_size: s1, start_time: a1, stop_time: b1 },
                TimeSpec::Bounded { step_size: s2, start_time: a2, stop_time: b2 },
            ) => s1 == s2 && a1 == a2 && b1 == b2,
            (TimeSpec::List { tlist: l1 }, TimeSpec::List { tlist: l2 }) => l1@ == l2@,
            _ => false,
        }
    }

    /// A stepped interval from `start_time` to `stop_time`.
    pub fn bounded(step_size: StepSize, start_time: UtcTime, stop_time: UtcTime) -> (r: TimeSpec)
        ensures
            r == (TimeSpec::Bounded { step_size, start_time, stop_time }),
    {
        TimeSpec::Bounded { step_size, start_time, stop_time }
    }

    /// The instants of `list`, in order.
    pub fn from_list(list: Vec<UtcTime>) -> (r: TimeSpec)
        ensures
            r matches TimeSpec::List { tlist } && tlist@ == list@,
    {
        TimeSpec::List { tlist: TList::new(list) }
    }

    /// Appends the fields of the time specification to `out`.
    pub fn write_fields(&self, out: &mut Vec<(String, String)>)
        ensures
            pairs_view(final(out)@) == pairs_view(old(out)@) + self.spec_fields(),
    {
        let ghost start = pairs_view(out@);
        match self {
            TimeSpec::Bounded { step_size, start_time, stop_time } => {
                push_pair(out, "step_size", step_size.to_text());
                push_pair(out, "start_time", start_time.to_text());
                push_pair(out, "stop_time", stop_time.to_text());
            },
            TimeSpec::List { tlist } => {
                push_pair(out, "tlist", tlist.to_text());
            },
        }
        assert(pairs_view(out@) =~= start + self.spec_fields());
    }
}

impl Clone for TimeSpec {
    fn clone(&self) -> (r: TimeSpec)
        ensures
            r.equiv(*self),
    {
        match self {
            TimeSpec::Bounded { step_size, start_time, stop_time } => TimeSpec::Bounded {
                step_size: *step_size,
                start_time: *start_time,
                stop_time: *stop_time,
            },
            TimeSpec::List { tlist } => TimeSpec::List { tlist: tlist.clone() },
        }
    }
}

/// Units of distance and velocity in the output.
#[allow(non_camel_case_types)]
#[derive(Debug, Clone, Copy, PartialEq, Eq, Structural, PartialOrd, Ord)]
pub enum OutUnits {
    /// km/day
    KM_D,
    /// km/s
    KM_S,
    /// AU/day
    AU_D,
}

impl OutUnits {
    /// The wire token of the units.
    pub open spec fn token(self) -> Seq<char> {
        match self {
            OutUnits::KM_D => "km-d"@,
            OutUnits::KM_S => "km-s"@,
            OutUnits::AU_D => "au-d"@,
        }
    }

    /// The wire token of the units.
    pub fn as_str(&self) -> (r: &'static str)
        ensures
            r@ == self.token(),
    {
        match self {
            OutUnits::KM_D => "km-d",
            OutUnits::KM_S => "km-s",
            OutUnits::AU_D => "au-d",
        }
    }
}

impl Default for OutUnits {
    fn default() -> (r: OutUnits)
        ensures
            r == OutUnits::KM_S,
    {
        OutUnits::KM_S
    }
}

/// The reference plane of the output.
#[derive(Debug, Clone, Copy, PartialEq, Eq, Structural)]
pub enum RefPlane {
    Ecliptic,
    Frame,
    BodyEquator,
}

impl RefPlane {
    /// The wire token of the plane.
    pub open spec fn token(self) -> Seq<char> {
        match self {
            RefPlane::Ecliptic => "E"@,
            RefPlane::Frame => "F"@,
            RefPlane::BodyEquator => "B"@,
        }
    }

    /// The wire token of the plane.
    pub fn as_str(&self) -> (r: &'static str)
        ensures
            r@ == self.token(),
    {
        match self {
            RefPlane::Ecliptic => "E",
            RefPlane::Frame => "F",
            RefPlane::BodyEquator => "B",
        }
    }
}

impl Default for RefPlane {
    fn default() -> (r: RefPlane)
        ensures
            r == RefPlane::Ecliptic,
    {
        RefPlane::Ecliptic
    }
}

/// The reference frame and epoch.
#[derive(Debug, Clone, Copy, PartialEq, Eq, Structural)]
pub enum RefSystem {
    ICRF,
    B1950,
}

impl RefSystem {
    /// The wire token of the reference system.
    pub open spec fn token(self) -> Seq<char> {
        match self {
            RefSystem::ICRF => "ICRF"@,
            RefSystem::B1950 => "B1950"@,
        }
    }

    /// The wire token of the reference system.
    pub fn as_str(&self) -> (r: &'static str)
        ensures
            r@ == self.token(),
    {
        match self {
            RefSystem::ICRF => "ICRF",
            RefSystem::B1950 => "B1950",
        }
    }
}

impl Default for RefSystem {
    fn default() -> (r: RefSystem)
        ensures
            r == RefSystem::ICRF,
    {
        RefSystem::ICRF
    }
}

} // verus!
