//! The 64-bit fixed-point timestamp of the Network Time Protocol, and the
//! clock that produces it.
//!
//! The upper 32 bits count whole seconds since 1 January 1900; the lower 32
//! bits hold the fraction of a second, in units of 2^-32 s. On the wire the
//! eight bytes stand most significant first.
use crate::wire::{be32, be64, be64_bytes, lemma_be64_of_bytes, lemma_bytes_of_be64, read_u64, write_u64};
use std::num::TryFromIntError;
use std::time::{Duration, SystemTimeError, UNIX_EPOCH};
use vstd::string::{to_string_from_display_ensures, StringExecFns};
use vstd::prelude::*;

verus! {

/// Seconds from 1 January 1900 to 1 January 1970.
pub const NTP_EPOCH_OFFSET: u64 = 2_208_988_800;

/// Nanoseconds in one second.
pub const NANOS_PER_SECOND: u32 = 1_000_000_000;

/// The error of the system clock when it stands before 1970.
#[verifier::external_type_specification]
#[verifier::external_body]
pub struct ExSystemTimeError(SystemTimeError);

/// Why no timestamp could be made.
#[derive(Debug)]
pub enum TimestampError {
    /// The time does not fit the 32-bit seconds field.
    OutOfRange,
    /// The system clock could not be read.
    SystemTimeError(SystemTimeError),
}

impl From<SystemTimeError> for TimestampError {
    fn from(e: SystemTimeError) -> (r: TimestampError) {
        TimestampError::SystemTimeError(e)
    }
}

impl vstd::std_specs::convert::FromSpecImpl<SystemTimeError> for TimestampError {
    open spec fn obeys_from_spec() -> bool {
        true
    }

    open spec fn from_spec(e: SystemTimeError) -> TimestampError {
        TimestampError::SystemTimeError(e)
    }
}

impl From<TryFromIntError> for TimestampError {
    fn from(e: TryFromIntError) -> (r: TimestampError) {
        TimestampError::OutOfRange
    }
}

impl vstd::std_specs::convert::FromSpecImpl<TryFromIntError> for TimestampError {
    open spec fn obeys_from_spec() -> bool {
        true
    }

    open spec fn from_spec(e: TryFromIntError) -> TimestampError {
        TimestampError::OutOfRange
    }
}

impl TimestampError {
    /// The error in words: a fixed text for a time out of range; for a clock
    /// that could not be read, a fixed opening followed by what std says of
    /// the failure.
    pub fn message(&self) -> (text: String)
        ensures
            self is OutOfRange ==> text@ == "Current time out of representable range"@,
            self matches TimestampError::SystemTimeError(e) ==> exists|words: String|
                #[trigger] to_string_from_display_ensures::<SystemTimeError>(&e, words) && text@
                    == "Error computing system time: "@ + words@,
    {
        match self {
            TimestampError::OutOfRange => "Current time out of representable range".to_owned(),
            TimestampError::SystemTimeError(e) => {
                let words: String = e.to_string();
                String::from_str("Error computing system time: ").concat(words.as_str())
            },
        }
    }
}

/// The two kinds of error never read the same: whatever std says of a
/// failed clock, the text for it differs from the text for a time out of
/// range.
pub proof fn lemma_messages_differ(words: Seq<char>)
    ensures
        "Error computing system time: "@ + words != "Current time out of representable range"@,
{
    reveal_strlit("Error computing system time: ");
    reveal_strlit("Current time out of representable range");
    assert(("Error computing system time: "@ + words)[0] == 'E');
    assert("Current time out of representable range"@[0] == 'C');
}

/// A timestamp in wire format.
#[derive(Debug, Clone, Copy, PartialEq, Eq)]
pub struct Timestamp([u8; 8]);

/// Whether a time since 1970, in seconds and nanoseconds, has a timestamp.
pub open spec fn representable(secs: u64, nanos: u32) -> bool {
    secs + NTP_EPOCH_OFFSET <= u32::MAX && nanos < NANOS_PER_SECOND
}

/// The fraction field for a number of nanoseconds: `nanos * 2^32 / 10^9`,
/// rounded to the nearest integer.
pub open spec fn fraction_of_nanos(nanos: int) -> int {
    (nanos * 0x1_0000_0000 + 500_000_000) / 1_000_000_000
}

/// The 64-bit value of the timestamp for a time since 1970.
pub open spec fn ntp_value(secs: u64, nanos: u32) -> int {
    (secs + NTP_EPOCH_OFFSET) * 0x1_0000_0000 + fraction_of_nanos(nanos as int)
}

impl View for Timestamp {
    type V = Seq<u8>;

    /// The eight bytes as they go on the wire.
    closed spec fn view(&self) -> Seq<u8> {
        self.0@
    }
}

impl Timestamp {
    /// The timestamp as one 64-bit number.
    pub open spec fn value(self) -> nat {
        be64(self@)
    }

    /// Whole seconds since 1900.
    pub open spec fn spec_seconds(self) -> nat {
        be32(self@.subrange(0, 4))
    }

    /// The fraction of a second, in units of 2^-32 s.
    pub open spec fn spec_fraction(self) -> nat {
        be32(self@.subrange(4, 8))
    }

    /// A timestamp is eight bytes, and its value is its two fields side by
    /// side.
    pub broadcast proof fn lemma_layout(self)
        ensures
            #[trigger] self@.len() == 8,
            self.value() == self.spec_seconds() * 0x1_0000_0000 + self.spec_fraction(),
            self.spec_seconds() <= u32::MAX,
            self.spec_fraction() <= u32::MAX,
    {
    }

    /// The timestamp that these eight wire bytes hold.
    pub fn from_bytes(bytes: [u8; 8]) -> (t: Timestamp)
        ensures
            t@ == bytes@,
    {
        Timestamp(bytes)
    }

    /// The eight wire bytes.
    pub fn as_bytes(&self) -> (bytes: &[u8; 8])
        ensures
            bytes@ == self@,
    {
        &self.0
    }

    /// The timestamp with the given seconds and fraction fields.
    pub fn from_parts(seconds: u32, fraction: u32) -> (t: Timestamp)
        ensures
            t.spec_seconds() == seconds,
            t.spec_fraction() == fraction,
            t@ == be64_bytes((seconds * 0x1_0000_0000 + fraction) as u64),
    {
        let n: u64 = ((seconds as u64) << 32) | (fraction as u64);
        proof {
            assert(n == seconds * 0x1_0000_0000 + fraction) by (bit_vector)
                requires
                    n == ((seconds as u64) << 32) | (fraction as u64),
            ;
            lemma_be64_of_bytes(n);
        }
        let mut bytes: [u8; 8] = [0; 8];
        write_u64(&mut bytes, n);
        Timestamp(bytes)
    }

    /// The timestamp as one 64-bit number.
    pub fn to_u64(&self) -> (n: u64)
        ensures
            n == self.value(),
    {
        let n: u64 = read_u64(self.0.as_slice());
        proof {
            assert(self@.subrange(0, 8) =~= self@);
        }
        n
    }

    /// Whole seconds since 1900.
    pub fn seconds(&self) -> (s: u32)
        ensures
            s == self.spec_seconds(),
    {
        let n: u64 = self.to_u64();
        proof {
            self.lemma_layout();
            assert(n >> 32 == n / 0x1_0000_0000) by (bit_vector);
        }
        (n >> 32) as u32
    }

    /// The fraction of a second, in units of 2^-32 s.
    pub fn fraction(&self) -> (f: u32)
        ensures
            f == self.spec_fraction(),
    {
        let n: u64 = self.to_u64();
        proof {
            self.lemma_layout();
            assert(n & 0xffff_ffff == n % 0x1_0000_0000) by (bit_vector);
        }
        (n & 0xffff_ffff) as u32
    }

    /// The timestamp for a time given in seconds and nanoseconds since 1970.
    ///
    /// Fails with `OutOfRange` when the seconds since 1900 do not fit 32 bits,
    /// or when `nanos` is not below one second.
    pub fn from_unix(secs: u64, nanos: u32) -> (r: Result<Timestamp, TimestampError>)
        ensures
            representable(secs, nanos) ==> (r matches Ok(t) && t.value() == ntp_value(secs, nanos)
                && t.spec_seconds() == secs + NTP_EPOCH_OFFSET && t.spec_fraction()
                == fraction_of_nanos(nanos as int)),
            !representable(secs, nanos) ==> r matches Err(TimestampError::OutOfRange),
    {
        if nanos >= NANOS_PER_SECOND {
            return Err(TimestampError::OutOfRange);
        }
        let since_1900: u64 = match secs.checked_add(NTP_EPOCH_OFFSET) {
            Some(sum) => sum,
            None => {
                return Err(TimestampError::OutOfRange);
            },
        };
        let seconds: u32 = match u32::try_from(since_1900) {
            Ok(seconds) => seconds,
            Err(e) => {
                return Err(TimestampError::from(e));
            },
        };
        let scaled: u64 = nanos as u64 * 0x1_0000_0000 + 500_000_000;
        let fraction: u32 = (scaled / 1_000_000_000) as u32;
        let t = Timestamp::from_parts(seconds, fraction);
        proof {
            t.lemma_layout();
        }
        Ok(t)
    }

    /// The current time of the system clock.
    ///
    /// Whether a timestamp comes back is for the clock to say: it fails when
    /// the clock cannot be read, and when it stands past the last second
    /// that 32 bits hold. Whatever the clock says, a timestamp that comes
    /// back is the conversion of a time since 1970 that has one, with the
    /// seconds moved to 1900 and the nanoseconds rounded to the nearest
    /// fraction, so it does not lie before 1970.
    pub fn now() -> (r: Result<Timestamp, TimestampError>)
        ensures
            r matches Ok(t) ==> t.of_unix_time(),
            r matches Ok(t) ==> t.spec_seconds() >= NTP_EPOCH_OFFSET,
    {
        match unix_elapsed() {
            Ok(elapsed) => Timestamp::from_unix(elapsed.as_secs(), elapsed.subsec_nanos()),
            Err(e) => Err(TimestampError::from(e)),
        }
    }

    /// Whether this is the timestamp of some time since 1970, given to the
    /// nanosecond, that has one.
    pub open spec fn of_unix_time(self) -> bool {
        exists|secs: u64, nanos: u32|
            representable(secs, nanos) && self.value() == #[trigger] ntp_value(secs, nanos)
    }
}

/// The fraction field is the nearest one: it differs from the exact quotient
/// `nanos * 2^32 / 10^9` by less than half a unit, and it fits 32 bits.
pub proof fn lemma_fraction_nearest(nanos: int)
    requires
        0 <= nanos < NANOS_PER_SECOND,
    ensures
        0 <= fraction_of_nanos(nanos) <= u32::MAX,
        -500_000_000 < fraction_of_nanos(nanos) * 1_000_000_000 - nanos * 0x1_0000_0000
            < 500_000_000,
{
    let x = nanos * 0x1_0000_0000;
    let f = fraction_of_nanos(nanos);
    assert(x % 512 == 0);
    assert((f * 1_000_000_000) % 512 == 0);
}

/// The conversion keeps the order of time: of two clock readings, the later
/// one never gets the smaller timestamp.
pub proof fn lemma_conversion_monotonic(secs1: u64, nanos1: u32, secs2: u64, nanos2: u32)
    requires
        representable(secs1, nanos1),
        representable(secs2, nanos2),
        secs1 < secs2 || (secs1 == secs2 && nanos1 <= nanos2),
    ensures
        ntp_value(secs1, nanos1) <= ntp_value(secs2, nanos2),
{
    lemma_fraction_nearest(nanos1 as int);
    lemma_fraction_nearest(nanos2 as int);
}

/// A timestamp is known by its 64-bit value: two with one value have the
/// same bytes.
pub proof fn lemma_value_determines_bytes(a: Timestamp, b: Timestamp)
    requires
        a.value() == b.value(),
    ensures
        a@ == b@,
        a == b,
{
    lemma_bytes_of_be64(a@);
    lemma_bytes_of_be64(b@);
    assert(a.0@ =~= b.0@);
    assert(a.0 == b.0);
}

/// `UNIX_EPOCH.elapsed()` of std: the time since 1970 by the system clock, or
/// the error of a clock that stands before 1970. Nothing is claimed of the
/// time.
#[verifier::external_body]
fn unix_elapsed() -> Result<Duration, SystemTimeError> {
    UNIX_EPOCH.elapsed()
}

/// `Duration::as_secs` of std: the whole seconds of a duration. Nothing is
/// claimed of their number.
pub assume_specification[ Duration::as_secs ](d: &Duration) -> (secs: u64);

/// `Duration::subsec_nanos` of std: the part of a duration beyond its whole
/// seconds, in nanoseconds, which std documents as less than one billion.
pub assume_specification[ Duration::subsec_nanos ](d: &Duration) -> (nanos: u32)
    ensures
        nanos < NANOS_PER_SECOND,
;

} // verus!
