//! Instants: reading, writing and rounding to what the database keeps.

use vstd::prelude::*;

use time::format_description::well_known::Rfc3339;
use time::OffsetDateTime;

use crate::failure;
use crate::failure::{PluginError, PluginErrorModel};

verus! {

/// Nanoseconds in a microsecond.
pub const NANOS_PER_MICRO: i128 = 1_000;

/// The first instant of the year -9999, in nanoseconds of Unix time.
pub const MIN_NANOS: i128 = -377_705_116_800_000_000_000;

/// The first instant of the year 0, in nanoseconds of Unix time.
pub const YEAR_ZERO_NANOS: i128 = -62_167_219_200_000_000_000;

/// The last instant of the year 9999, in nanoseconds of Unix time.
pub const MAX_NANOS: i128 = 253_402_300_799_999_999_999;

/// Whether an instant lies in the years -9999 to 9999 of Universal Time.
pub open spec fn representable(nanos: int) -> bool {
    MIN_NANOS <= nanos <= MAX_NANOS
}

/// The last whole microsecond that is not after an instant.
pub open spec fn whole_micros(nanos: int) -> int {
    nanos - nanos % (NANOS_PER_MICRO as int)
}

/// An instant in the years -9999 to 9999 of Universal Time. Its value is the
/// number of nanoseconds since the Unix epoch.
#[derive(Clone, Copy, Debug, PartialEq, Eq, Structural)]
pub struct Timestamp {
    nanos: i128,
}

impl View for Timestamp {
    type V = int;

    closed spec fn view(&self) -> int {
        self.nanos as int
    }
}

/// What an optional instant stands for.
pub open spec fn optional_instant(value: Option<Timestamp>) -> Option<int> {
    match value {
        Some(at) => Some(at@),
        None => None,
    }
}

/// The error of `time::OffsetDateTime::parse`.
#[verifier::external_type_specification]
#[verifier::external_body]
pub struct ExParse(time::error::Parse);

/// The error of `time::OffsetDateTime::format`.
#[verifier::external_type_specification]
#[verifier::external_body]
pub struct ExFormat(time::error::Format);

/// The error of `time::OffsetDateTime::from_unix_timestamp_nanos`.
#[verifier::external_type_specification]
#[verifier::external_body]
pub struct ExComponentRange(time::error::ComponentRange);

/// The instant that `time::OffsetDateTime::parse` reads from a text in the format
/// of RFC 3339, in nanoseconds of Unix time; nothing where it refuses the text.
pub uninterp spec fn rfc3339_instant(value: Seq<char>) -> Option<int>;

/// The text that `time::OffsetDateTime::format` writes in the format of RFC 3339
/// for an instant in Universal Time, given in nanoseconds of Unix time.
pub uninterp spec fn rfc3339_text(nanos: int) -> Seq<char>;

/// Calls `time::OffsetDateTime::parse` with the format of RFC 3339. The result
/// depends on the text alone.
#[verifier::external_body]
pub(crate) fn parse_rfc3339(value: &str) -> (result: Result<i128, time::error::Parse>)
    ensures
        match result {
            Ok(nanos) => rfc3339_instant(value@) == Some(nanos as int),
            Err(_) => rfc3339_instant(value@) is None,
        },
{
    OffsetDateTime::parse(value, &Rfc3339).map(|at| at.unix_timestamp_nanos())
}

/// Calls `time::OffsetDateTime::from_unix_timestamp_nanos`, which gives the very
/// instant that it is asked for, in Universal Time, or refuses one outside the
/// years -9999 to 9999.
#[verifier::external_body]
fn universal_instant(nanos: i128) -> (result: Result<i128, time::error::ComponentRange>)
    ensures
        match result {
            Ok(at) => representable(nanos as int) && at == nanos,
            Err(_) => !representable(nanos as int),
        },
{
    OffsetDateTime::from_unix_timestamp_nanos(nanos).map(|at| at.unix_timestamp_nanos())
}

/// Calls `time::OffsetDateTime::format` with the format of RFC 3339, for an
/// instant in Universal Time.
///
/// The format has no room for a year before 0, and every other instant is
/// written. What is written depends on the instant alone, and reading it gives
/// the instant back, to the nanosecond.
#[verifier::external_body]
fn format_rfc3339(nanos: i128) -> (result: Result<String, time::error::Format>)
    requires
        representable(nanos as int),
    ensures
        match result {
            Ok(value) => {
                &&& nanos >= YEAR_ZERO_NANOS
                &&& value@ == rfc3339_text(nanos as int)
                &&& rfc3339_instant(value@) == Some(nanos as int)
            },
            Err(_) => nanos < YEAR_ZERO_NANOS,
        },
{
    OffsetDateTime::from_unix_timestamp_nanos(nanos)
        .expect("the instant is representable")
        .format(&Rfc3339)
}

impl Timestamp {
    #[verifier::type_invariant]
    spec fn in_range(self) -> bool {
        representable(self.nanos as int)
    }

    /// The instant a number of nanoseconds after the Unix epoch, where it lies in
    /// the years -9999 to 9999.
    pub fn from_unix_nanos(nanos: i128) -> (result: Option<Timestamp>)
        ensures
            match result {
                Some(at) => representable(nanos as int) && at@ == nanos,
                None => !representable(nanos as int),
            },
    {
        match universal_instant(nanos) {
            Ok(at) => Some(Timestamp { nanos: at }),
            Err(_) => None,
        }
    }

    /// The number of nanoseconds since the Unix epoch.
    pub fn unix_nanos(&self) -> (nanos: i128)
        ensures
            nanos == self@,
            representable(self@),
    {
        proof {
            use_type_invariant(self);
        }
        self.nanos
    }

    /// Whether two instants are the same.
    pub fn same(&self, other: &Timestamp) -> (same: bool)
        ensures
            same == (self@ == other@),
    {
        self.nanos == other.nanos
    }
}

/// Rounds an instant down to a whole microsecond, the precision of the database.
pub fn normalize_timestamp<E>(nanos: i128) -> (result: Result<Timestamp, PluginError<E>>)
    ensures
        match result {
            Ok(at) => representable(whole_micros(nanos as int)) && at@ == whole_micros(
                nanos as int,
            ),
            Err(error) => {
                &&& !representable(whole_micros(nanos as int))
                &&& error@ == PluginErrorModel::<E>::Runtime(
                    failure::internal("timestamp is outside PostgreSQL range"@),
                )
            },
        },
{
    let rest: i128 = match nanos.checked_rem_euclid(NANOS_PER_MICRO) {
        Some(rest) => rest,
        None => 0,
    };
    let normalized = match nanos.checked_sub(rest) {
        Some(micros) => Timestamp::from_unix_nanos(micros),
        None => None,
    };
    match normalized {
        Some(at) => Ok(at),
        None => Err(failure::invalid_request_runtime("timestamp is outside PostgreSQL range")),
    }
}

/// Whether an instant cannot be written as text: the format has no room for it.
pub open spec fn unwritable(nanos: int) -> bool {
    nanos < YEAR_ZERO_NANOS
}

/// Writes an instant in the format of RFC 3339, in Universal Time.
pub fn format_timestamp<E>(value: Timestamp) -> (result: Result<String, PluginError<E>>)
    ensures
        match result {
            Ok(written) => {
                &&& !unwritable(value@)
                &&& written@ == rfc3339_text(value@)
                &&& rfc3339_instant(written@) == Some(value@)
            },
            Err(error) => {
                &&& unwritable(value@)
                &&& error@ == PluginErrorModel::<E>::Runtime(
                    failure::internal("stored timestamp cannot be formatted"@),
                )
            },
        },
{
    match format_rfc3339(value.unix_nanos()) {
        Ok(written) => Ok(written),
        Err(_) => Err(failure::invalid_request_runtime("stored timestamp cannot be formatted")),
    }
}

/// Writes an instant that a terminal row owes.
pub fn format_required_timestamp<E>(value: Option<Timestamp>) -> (result: Result<
    String,
    PluginError<E>,
>)
    ensures
        match value {
            None => result matches Err(error) && error@ == PluginErrorModel::<E>::Runtime(
                failure::inconsistent_terminal(),
            ),
            Some(at) => match result {
                Ok(written) => {
                    &&& !unwritable(at@)
                    &&& written@ == rfc3339_text(at@)
                    &&& rfc3339_instant(written@) == Some(at@)
                },
                Err(error) => {
                    &&& unwritable(at@)
                    &&& error@ == PluginErrorModel::<E>::Runtime(
                        failure::internal("stored timestamp cannot be formatted"@),
                    )
                },
            },
        },
{
    match value {
        None => Err(failure::invalid_terminal()),
        Some(at) => format_timestamp(at),
    }
}

} // verus!
