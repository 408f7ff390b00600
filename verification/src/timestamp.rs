//! The timestamp codec: an instant with a fixed UTC offset, bound to the
//! RFC 2822 date-time text grammar.
//!
//! Parsing and rendering of the text form are done by chrono behind two
//! trusted wrappers; everything around them — validity of the model range,
//! error reporting, and the round trip — is verified.

use vstd::prelude::*;

verus! {

use crate::error::DecodeError;
use crate::error::DecodeErrorV;
use crate::error::rview;

/// An instant in time paired with the fixed UTC offset it was written in.
/// The offset is retained, not collapsed to UTC.
#[derive(Debug, Clone, Copy, PartialEq, Eq, Structural)]
pub struct Instant {
    /// Seconds since the Unix epoch, counted in UTC.
    pub epoch_secs: i64,
    /// The retained UTC offset, in seconds east of UTC.
    pub offset_secs: i32,
}

/// The mathematical value of an [`Instant`].
pub ghost struct InstantV {
    /// Seconds since the Unix epoch, counted in UTC.
    pub secs: int,
    /// The retained UTC offset, in seconds east of UTC.
    pub offset: int,
}

impl View for Instant {
    type V = InstantV;

    open spec fn view(&self) -> InstantV {
        InstantV { secs: self.epoch_secs as int, offset: self.offset_secs as int }
    }
}

/// The instants this library carries: the offset is a whole number of
/// minutes strictly within one day (the RFC 2822 `+hhmm` form), and the
/// local time — the instant shifted by its offset — falls in years 0
/// through 9999, the range the four-digit RFC 2822 year can spell. The two
/// second bounds are the first second of year 0 and the last second of year
/// 9999.
pub open spec fn instant_valid(secs: int, off: int) -> bool {
    &&& off % 60 == 0
    &&& -86400 < off < 86400
    &&& -62167219200 <= secs + off <= 253402300799
}

impl InstantV {
    /// The instant is within the range this library carries.
    pub open spec fn wf(self) -> bool {
        instant_valid(self.secs, self.offset)
    }
}

/// What chrono's RFC 2822 parser returns for a given text: `None` for a
/// rejected text, or the instant's epoch seconds and its offset seconds.
pub uninterp spec fn rfc2822_parse(s: Seq<char>) -> Option<(int, int)>;

/// What chrono's RFC 2822 renderer returns for given epoch seconds and
/// offset seconds.
pub uninterp spec fn rfc2822_render(secs: int, off: int) -> Seq<char>;

/// Relies on chrono's `DateTime::parse_from_rfc2822`, with
/// `DateTime::timestamp` and `FixedOffset::local_minus_utc` converting the
/// parsed value to plain seconds. The parse depends on the characters alone.
/// A parsed offset is a whole number of minutes strictly within one day:
/// chrono's RFC 2822 zone grammar produces whole minutes (named zones are
/// whole hours) and its `FixedOffset` admits only offsets under 24 hours.
#[verifier::external_body]
fn chrono_parse_rfc2822(s: &str) -> (r: Option<(i64, i32)>)
    ensures
        r matches Some(p) ==> rfc2822_parse(s@) == Some((p.0 as int, p.1 as int)) && p.1 % 60
            == 0 && -86400 < p.1 < 86400,
        r is None ==> rfc2822_parse(s@) is None,
{
    match chrono::DateTime::parse_from_rfc2822(s) {
        Ok(dt) => Some((dt.timestamp(), dt.offset().local_minus_utc())),
        Err(_) => None,
    }
}

/// Relies on chrono's `DateTime::to_rfc2822`, on a value rebuilt with
/// `DateTime::from_timestamp`, `FixedOffset::east_opt` and `with_timezone`.
/// The rendered text depends on the seconds and the offset alone. Within the
/// admitted range — a whole-minute offset within one day, local time in
/// years 0 through 9999 — chrono renders `Day, d Mon yyyy HH:MM:SS +hhmm`,
/// and its own `parse_from_rfc2822` reads that text back to the same seconds
/// and offset.
#[verifier::external_body]
fn chrono_render_rfc2822(secs: i64, off: i32) -> (r: String)
    requires
        instant_valid(secs as int, off as int),
    ensures
        r@ == rfc2822_render(secs as int, off as int),
        rfc2822_parse(r@) == Some((secs as int, off as int)),
{
    let tz = chrono::FixedOffset::east_opt(off).unwrap();
    let dt = chrono::DateTime::from_timestamp(secs, 0).unwrap().with_timezone(&tz);
    dt.to_rfc2822()
}

/// Decide [`instant_valid`] on plain values.
fn check_valid(secs: i64, off: i32) -> (b: bool)
    ensures
        b == instant_valid(secs as int, off as int),
{
    if off <= -86400 || off >= 86400 {
        return false;
    }
    let abs_off: i32 = if off >= 0 {
        off
    } else {
        -off
    };
    if abs_off % 60 != 0 {
        return false;
    }
    if secs < -62167305600 || secs > 253402387199 {
        return false;
    }
    let local: i64 = secs + (off as i64);
    -62167219200 <= local && local <= 253402300799
}

/// What a `recorded_at` text decodes to: the parsed instant when chrono
/// accepts the text and the instant lies in the range this library carries;
/// otherwise an invalid-timestamp failure holding the raw text.
pub open spec fn instant_of_wire(s: Seq<char>) -> Result<InstantV, DecodeErrorV> {
    match rfc2822_parse(s) {
        Some(p) => if instant_valid(p.0, p.1) {
            Ok(InstantV { secs: p.0, offset: p.1 })
        } else {
            Err(DecodeErrorV::InvalidTimestamp(s))
        },
        None => Err(DecodeErrorV::InvalidTimestamp(s)),
    }
}

/// The canonical RFC 2822 text an instant encodes to.
pub open spec fn instant_wire(i: InstantV) -> Seq<char> {
    rfc2822_render(i.secs, i.offset)
}

impl Instant {
    /// Build an instant from plain seconds, admitting exactly the range this
    /// library carries.
    pub fn new(epoch_secs: i64, offset_secs: i32) -> (r: Option<Instant>)
        ensures
            instant_valid(epoch_secs as int, offset_secs as int) ==> r == Some(
                Instant { epoch_secs, offset_secs },
            ),
            !instant_valid(epoch_secs as int, offset_secs as int) ==> r is None,
    {
        if check_valid(epoch_secs, offset_secs) {
            Some(Instant { epoch_secs, offset_secs })
        } else {
            None
        }
    }

    /// Whether this instant lies in the range this library carries.
    pub fn is_valid(&self) -> (b: bool)
        ensures
            b == self@.wf(),
    {
        check_valid(self.epoch_secs, self.offset_secs)
    }

    /// Decode an RFC 2822 date-time text into an instant with its retained
    /// offset. Fails with an invalid-timestamp error exactly when the text
    /// is not an RFC 2822 date-time this library accepts.
    pub fn decode(s: &str) -> (r: Result<Instant, DecodeError>)
        ensures
            rview(r) == instant_of_wire(s@),
            r matches Ok(i) ==> i@.wf(),
    {
        match chrono_parse_rfc2822(s) {
            Some((secs, off)) => {
                if check_valid(secs, off) {
                    Ok(Instant { epoch_secs: secs, offset_secs: off })
                } else {
                    Err(DecodeError::InvalidTimestamp(s.to_owned()))
                }
            },
            None => Err(DecodeError::InvalidTimestamp(s.to_owned())),
        }
    }

    /// Render the instant with its retained offset as canonical RFC 2822
    /// text. Decoding the rendered text yields this instant back: the
    /// timestamp leg of the round trip.
    pub fn encode(&self) -> (r: String)
        requires
            self@.wf(),
        ensures
            r@ == instant_wire(self@),
            instant_of_wire(r@) == Ok::<InstantV, DecodeErrorV>(self@),
    {
        chrono_render_rfc2822(self.epoch_secs, self.offset_secs)
    }
}

} // verus!
