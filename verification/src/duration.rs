//! Compact rendering of an uptime, given as a seconds count, into a
//! human-readable duration string such as `"1d 2h 3m"`.

use vstd::prelude::*;

use crate::text::{spec_dec, u64_to_dec};

verus! {

/// Whole days in a span of `s` seconds.
pub open spec fn spec_days(s: int) -> int {
    s / 86400
}

/// Hours shown next to the day count: whole hours, modulo a day.
pub open spec fn spec_hours(s: int) -> int {
    (s / 3600) % 24
}

/// Minutes shown next to the hour count: whole minutes, modulo an hour.
/// Seconds below a whole minute are not shown at all.
pub open spec fn spec_minutes(s: int) -> int {
    (s / 60) % 60
}

/// The rendered duration. Exactly one of three forms is produced, chosen
/// by the first condition that holds: `"{d}d {h}h {m}m"` when a whole day
/// has passed, else `"{h}h {m}m"` when a whole hour has passed, else
/// `"{m}m"`.
pub open spec fn spec_format_duration(s: int) -> Seq<char>
    recommends
        s >= 0,
{
    if spec_days(s) > 0 {
        spec_dec(spec_days(s)) + "d "@ + spec_dec(spec_hours(s)) + "h "@ + spec_dec(
            spec_minutes(s),
        ) + "m"@
    } else if spec_hours(s) > 0 {
        spec_dec(spec_hours(s)) + "h "@ + spec_dec(spec_minutes(s)) + "m"@
    } else {
        spec_dec(spec_minutes(s)) + "m"@
    }
}

/// Renders a seconds count as a compact duration, at minute granularity.
pub fn format_duration(seconds: u64) -> (r: String)
    ensures
        r@ == spec_format_duration(seconds as int),
{
    let days: u64 = seconds / 86400;
    let hours: u64 = (seconds / 3600) % 24;
    let minutes: u64 = (seconds / 60) % 60;
    if days > 0 {
        let mut s = u64_to_dec(days);
        s.append("d ");
        let h = u64_to_dec(hours);
        s.append(h.as_str());
        s.append("h ");
        let m = u64_to_dec(minutes);
        s.append(m.as_str());
        s.append("m");
        assert(s@ =~= spec_format_duration(seconds as int));
        s
    } else if hours > 0 {
        let mut s = u64_to_dec(hours);
        s.append("h ");
        let m = u64_to_dec(minutes);
        s.append(m.as_str());
        s.append("m");
        assert(s@ =~= spec_format_duration(seconds as int));
        s
    } else {
        let mut s = u64_to_dec(minutes);
        s.append("m");
        assert(s@ =~= spec_format_duration(seconds as int));
        s
    }
}

/// The day, hour and minute components shown for a span of `s` seconds
/// lie in their usual ranges and, taken together as minutes, recover the
/// whole minutes of the span exactly: nothing below minute granularity is
/// lost by splitting the count into the three displayed fields.
pub proof fn lemma_duration_components_reconstruct(s: int)
    requires
        s >= 0,
    ensures
        0 <= spec_hours(s) < 24,
        0 <= spec_minutes(s) < 60,
        spec_days(s) * 1440 + spec_hours(s) * 60 + spec_minutes(s) == s / 60,
{
    let m = s / 60;
    vstd::arithmetic::div_mod::lemma_div_denominator(s, 60, 60);
    vstd::arithmetic::div_mod::lemma_div_denominator(s, 60, 1440);
    vstd::arithmetic::div_mod::lemma_div_denominator(m, 60, 24);
    assert(s / 3600 == m / 60);
    assert(s / 86400 == m / 1440);
    vstd::arithmetic::div_mod::lemma_fundamental_div_mod(m, 60);
    vstd::arithmetic::div_mod::lemma_fundamental_div_mod(m / 60, 24);
    vstd::arithmetic::div_mod::lemma_mod_bound(m, 60);
    vstd::arithmetic::div_mod::lemma_mod_bound(m / 60, 24);
    assert(m == 60 * (24 * (m / 1440) + (m / 60) % 24) + m % 60);
    assert(spec_days(s) * 1440 + spec_hours(s) * 60 + spec_minutes(s) == s / 60) by {
        assert(60 * (24 * (m / 1440) + (m / 60) % 24) == (m / 1440) * 1440 + ((m / 60) % 24)
            * 60) by (nonlinear_arith);
    }
}

} // verus!
