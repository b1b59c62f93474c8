//! Rendering a point in time as an RFC 3339 timestamp,
//! `YYYY-MM-DDTHH:MM:SSZ`, from milliseconds since the Unix epoch.
//!
//! The calendar arithmetic follows the era decomposition of the proleptic
//! Gregorian calendar: days are grouped into 146097-day eras of 400 years,
//! and the year, month and day are read off the day-of-era, counting years
//! from March so that the leap day falls last.

use vstd::prelude::*;

use crate::encode::{append_pad2, append_pad4, spec_pad2, spec_pad4};
use crate::metrics::Millis;

verus! {

/// The first millisecond of the year 10000, the first timestamp a
/// four-digit year cannot render.
pub const MAX_RFC3339_MILLIS: u64 = 253_402_300_800_000;

/// The era (a 400-year cycle counted from 0000-03-01) that day `z` (days
/// since the Unix epoch) falls in.
pub open spec fn spec_civil_era(z: int) -> int {
    (z + 719468) / 146097
}

/// The day within its era, 0 through 146096.
pub open spec fn spec_civil_doe(z: int) -> int {
    z + 719468 - spec_civil_era(z) * 146097
}

/// The year within its era, 0 through 399, of the March-based year.
pub open spec fn spec_civil_yoe(z: int) -> int {
    let doe = spec_civil_doe(z);
    (doe - doe / 1460 + doe / 36524 - doe / 146096) / 365
}

/// The day within its March-based year, 0 through 365.
pub open spec fn spec_civil_doy(z: int) -> int {
    let doe = spec_civil_doe(z);
    let yoe = spec_civil_yoe(z);
    doe - (365 * yoe + yoe / 4 - yoe / 100)
}

/// The March-based month index, 0 for March through 11 for February.
pub open spec fn spec_civil_mp(z: int) -> int {
    (5 * spec_civil_doy(z) + 2) / 153
}

/// The day of the month, 1 through 31.
pub open spec fn spec_civil_day(z: int) -> int {
    spec_civil_doy(z) - (153 * spec_civil_mp(z) + 2) / 5 + 1
}

/// The month, 1 through 12.
pub open spec fn spec_civil_month(z: int) -> int {
    let mp = spec_civil_mp(z);
    if mp < 10 {
        mp + 3
    } else {
        mp - 9
    }
}

/// The calendar year.
pub open spec fn spec_civil_year(z: int) -> int {
    let y = spec_civil_yoe(z) + spec_civil_era(z) * 400;
    if spec_civil_month(z) <= 2 {
        y + 1
    } else {
        y
    }
}

/// The RFC 3339 rendering, `YYYY-MM-DDTHH:MM:SSZ`, of the millisecond
/// timestamp `ms` (fractional seconds are not rendered).
pub open spec fn spec_rfc3339_millis(ms: int) -> Seq<char> {
    let t = ms / 1000;
    let z = t / 86400;
    let sod = t % 86400;
    spec_pad4(spec_civil_year(z)) + seq!['-'] + spec_pad2(spec_civil_month(z)) + seq!['-']
        + spec_pad2(spec_civil_day(z)) + seq!['T'] + spec_pad2(sod / 3600) + seq![':'] + spec_pad2(
        (sod / 60) % 60,
    ) + seq![':'] + spec_pad2(sod % 60) + seq!['Z']
}

/// Render `ms`, a count of milliseconds since the Unix epoch, as an
/// RFC 3339 timestamp in UTC.
pub fn rfc3339_millis(ms: Millis) -> (r: String)
    requires
        ms < MAX_RFC3339_MILLIS,
    ensures
        r@ == spec_rfc3339_millis(ms as int),
{
    let t = ms / 1000;
    let z = t / 86400;
    let sod = t % 86400;
    let zz = z + 719468;
    let era = zz / 146097;
    let doe = zz - era * 146097;
    let yoe = (doe - doe / 1460 + doe / 36524 - doe / 146096) / 365;
    let doy = doe - (365 * yoe + yoe / 4 - yoe / 100);
    let mp = (5 * doy + 2) / 153;
    let day = doy - (153 * mp + 2) / 5 + 1;
    let month = if mp < 10 { mp + 3 } else { mp - 9 };
    let year = if month <= 2 { yoe + era * 400 + 1 } else { yoe + era * 400 };
    let mut out = String::new();
    append_pad4(&mut out, year);
    out.append("-");
    append_pad2(&mut out, month);
    out.append("-");
    append_pad2(&mut out, day);
    out.append("T");
    append_pad2(&mut out, sod / 3600);
    out.append(":");
    append_pad2(&mut out, (sod / 60) % 60);
    out.append(":");
    append_pad2(&mut out, sod % 60);
    out.append("Z");
    proof {
        reveal_strlit("-");
        reveal_strlit("T");
        reveal_strlit(":");
        reveal_strlit("Z");
        assert("-"@ =~= seq!['-']);
        assert("T"@ =~= seq!['T']);
        assert(":"@ =~= seq![':']);
        assert("Z"@ =~= seq!['Z']);
        assert(out@ =~= spec_rfc3339_millis(ms as int));
    }
    out
}

} // verus!
