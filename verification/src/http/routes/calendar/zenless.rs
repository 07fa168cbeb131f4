//! Zenless Zone Zero calendar: events, banners and the four endgame challenges.

use vstd::prelude::*;
use chrono::TimeZone;
use crate::clock::{now_timestamp, timestamp_bound};
use crate::text::{opt_view, parse_i64, parse_in_range, str_eq};
use super::{find_image, lookup_image};

verus! {

/// A calendar date and time as HoYoLab writes it, in the server's time zone.
#[derive(Debug, Clone, Copy)]
pub struct HyvDateTime {
    pub year: i32,
    pub month: u32,
    pub day: u32,
    pub hour: u32,
    pub minute: u32,
    pub second: u32,
}

/// Whether `year` is a leap year of the proleptic Gregorian calendar.
pub open spec fn is_leap_year(year: int) -> bool {
    (year % 4 == 0 && year % 100 != 0) || year % 400 == 0
}

/// The number of days in a month of a year.
pub open spec fn days_in_month(year: int, month: int) -> int {
    if month == 2 {
        if is_leap_year(year) { 29 } else { 28 }
    } else if month == 4 || month == 6 || month == 9 || month == 11 {
        30
    } else {
        31
    }
}

/// The number of days from 1 January 1970 to a date of the proleptic
/// Gregorian calendar (year 0 is 1 BCE), counted in whole 400-year cycles of
/// 146097 days from a year that starts in March.
pub open spec fn days_from_civil(year: int, month: int, day: int) -> int {
    let y = if month <= 2 { year - 1 } else { year };
    let era = y / 400;
    let year_of_era = y - era * 400;
    let month_from_march = if month > 2 { month - 3 } else { month + 9 };
    let day_of_year = (153 * month_from_march + 2) / 5 + day - 1;
    let day_of_era = year_of_era * 365 + year_of_era / 4 - year_of_era / 100 + day_of_year;
    era * 146097 + day_of_era - 719468
}

/// The seconds from 1 January 1970 00:00:00 to a date and time, both read
/// on the same clock.
pub open spec fn civil_seconds(year: int, month: int, day: int, hour: int, minute: int, second: int) -> int {
    days_from_civil(year, month, day) * 86400 + hour * 3600 + minute * 60 + second
}

/// The first second `chrono` represents: 1 January of year -262143, 00:00:00 UTC.
pub open spec fn earliest_chrono_second() -> int {
    civil_seconds(-262143, 1, 1, 0, 0, 0)
}

/// The last second `chrono` represents: 31 December of year 262142, 23:59:59 UTC.
pub open spec fn latest_chrono_second() -> int {
    civil_seconds(262142, 12, 31, 23, 59, 59)
}

/// The Unix time that `chrono` gives a local date and time at a fixed offset
/// of `offset` seconds east of UTC: `None` for a date that does not exist, a
/// year outside those `chrono` represents, a time outside `00:00:00` to
/// `23:59:59`, or a moment that falls outside `chrono`'s range once the
/// offset is taken off.
#[verifier::opaque]
pub open spec fn spec_local_timestamp(
    offset: i32,
    year: i32,
    month: u32,
    day: u32,
    hour: u32,
    minute: u32,
    second: u32,
) -> Option<i64> {
    let t = civil_seconds(year as int, month as int, day as int, hour as int, minute as int, second as int) - offset;
    if -262143 <= year <= 262142 && 1 <= month <= 12 && 1 <= day <= days_in_month(year as int, month as int)
        && hour < 24 && minute < 60 && second < 60 && earliest_chrono_second() <= t <= latest_chrono_second() {
        Some(t as i64)
    } else {
        None
    }
}

/// The range of `chrono`'s timestamps lies within `timestamp_bound()`.
proof fn lemma_chrono_range()
    ensures
        -timestamp_bound() <= earliest_chrono_second(),
        latest_chrono_second() <= timestamp_bound(),
{
    assert(earliest_chrono_second() == -8334601228800);
    assert(latest_chrono_second() == 8210266876799);
}

/// `chrono::FixedOffset::east_opt(offset)`, then `TimeZone::with_ymd_and_hms`,
/// `MappedLocalTime::single` and `DateTime::timestamp`.
///
/// Claims the proleptic Gregorian arithmetic of `spec_local_timestamp`:
/// `with_ymd_and_hms` accepts a date that exists within `chrono`'s years and
/// a time whose hour, minute and second are in range; a fixed offset gives
/// one local time, which is moved to UTC by taking the offset off, and fails
/// where that leaves `chrono`'s first or last day. `east_opt` accepts offsets
/// strictly within a day, which is why they are required.
#[verifier::external_body]
fn local_timestamp(offset: i32, year: i32, month: u32, day: u32, hour: u32, minute: u32, second: u32) -> (r: Option<i64>)
    requires
        -86_400 < offset < 86_400,
    ensures
        r == spec_local_timestamp(offset, year, month, day, hour, minute, second),
{
    match chrono::FixedOffset::east_opt(offset) {
        Some(tz) => match tz.with_ymd_and_hms(year, month, day, hour, minute, second).single() {
            Some(dt) => Some(dt.timestamp()),
            None => None,
        },
        None => None,
    }
}

/// The time zone of a server region, in seconds east of UTC.
pub open spec fn spec_server_offset(region: Seq<char>) -> Option<i32> {
    if region == "prod_gf_us"@ {
        Some(-18000i32)
    } else if region == "prod_gf_eu"@ {
        Some(3600i32)
    } else if region == "prod_gf_jp"@ || region == "prod_gf_sg"@ {
        Some(28800i32)
    } else {
        None
    }
}

/// The time zone of a server region, in seconds east of UTC: America is five
/// hours behind UTC, Europe one hour ahead, Asia and TW/HK/MO eight hours ahead.
pub fn server_offset(region: &str) -> (r: Option<i32>)
    ensures
        r == spec_server_offset(region@),
        r is Some ==> -86_400 < r->0 < 86_400,
{
    if str_eq(region, "prod_gf_us") {
        Some(-5 * 60 * 60)
    } else if str_eq(region, "prod_gf_eu") {
        Some(60 * 60)
    } else if str_eq(region, "prod_gf_jp") || str_eq(region, "prod_gf_sg") {
        Some(8 * 60 * 60)
    } else {
        None
    }
}

/// The Unix time of a server-local date and time.
pub open spec fn spec_structured_timestamp(value: Option<HyvDateTime>, region: Seq<char>) -> Option<i64> {
    match value {
        None => None,
        Some(v) => match spec_server_offset(region) {
            None => None,
            Some(o) => spec_local_timestamp(o, v.year, v.month, v.day, v.hour, v.minute, v.second),
        },
    }
}

/// The Unix time of a date and time written in the region's time zone; none
/// when either is missing or the date is invalid.
pub fn structured_timestamp(value: Option<&HyvDateTime>, region: &str) -> (r: Option<i64>)
    ensures
        r == spec_structured_timestamp(match value { Some(v) => Some(*v), None => None }, region@),
        r is Some ==> -timestamp_bound() <= r->0 <= timestamp_bound(),
{
    let value = match value {
        Some(v) => v,
        None => return None,
    };
    let offset = match server_offset(region) {
        Some(o) => o,
        None => return None,
    };
    proof {
        lemma_chrono_range();
        reveal(spec_local_timestamp);
    }
    local_timestamp(offset, value.year, value.month, value.day, value.hour, value.minute, value.second)
}

/// A timestamp written as a decimal number; only positive values count.
pub open spec fn spec_numeric_timestamp(value: Option<Seq<char>>) -> Option<i64> {
    match value {
        None => None,
        Some(s) => match parse_in_range(s, true, i64::MIN as int, i64::MAX as int) {
            Some(v) => if v > 0 { Some(v as i64) } else { None },
            None => None,
        },
    }
}

/// A timestamp written as a decimal number; only positive values count.
pub fn numeric_timestamp(value: Option<&str>) -> (r: Option<i64>)
    ensures
        r == spec_numeric_timestamp(match value { Some(s) => Some(s@), None => None }),
{
    let s = match value {
        Some(s) => s,
        None => return None,
    };
    match parse_i64(s) {
        Some(v) => if v > 0 { Some(v) } else { None },
        None => None,
    }
}

/// The start and end of a challenge period, each possibly unknown.
#[derive(Debug, Clone, Copy, PartialEq, Eq, Structural)]
pub struct ChallengePeriod {
    pub start_time: Option<i64>,
    pub end_time: Option<i64>,
}

impl Default for ChallengePeriod {
    fn default() -> (p: ChallengePeriod)
        ensures
            p.start_time is None,
            p.end_time is None,
    {
        ChallengePeriod { start_time: None, end_time: None }
    }
}

/// A period whose end comes before its start loses its end.
pub open spec fn spec_normalize_period(start_time: Option<i64>, end_time: Option<i64>) -> ChallengePeriod {
    ChallengePeriod {
        start_time,
        end_time: match (start_time, end_time) {
            (Some(s), Some(e)) => if e < s { None } else { end_time },
            _ => end_time,
        },
    }
}

/// The period from a start and an end; an end before the start is dropped.
pub fn normalize_period(start_time: Option<i64>, end_time: Option<i64>) -> (p: ChallengePeriod)
    ensures
        p == spec_normalize_period(start_time, end_time),
{
    let end_time = match (start_time, end_time) {
        (Some(start), Some(end)) => if end < start { None } else { end_time },
        _ => end_time,
    };
    ChallengePeriod { start_time, end_time }
}

/// A challenge schedule as HoYoLab writes it.
#[derive(Debug, Clone, Copy)]
pub struct HyvChallengePeriod {
    pub start_time: Option<HyvDateTime>,
    pub end_time: Option<HyvDateTime>,
}

/// The Threshold Simulation answer, which nests its schedule.
#[derive(Debug, Clone, Copy)]
pub struct HyvThresholdData {
    pub void_front_battle_abstract_info_brief: Option<HyvChallengePeriod>,
}

/// The Shiyu Defense schedule: numeric timestamps and, as a fallback, dates.
#[derive(Debug, Clone)]
pub struct HyvShiyuPeriod {
    pub begin_time: Option<String>,
    pub end_time: Option<String>,
    pub hadal_begin_time: Option<HyvDateTime>,
    pub hadal_end_time: Option<HyvDateTime>,
}

/// The Shiyu Defense answer.
#[derive(Debug, Clone)]
pub struct HyvShiyuData {
    pub hadal_info_v2: Option<HyvShiyuPeriod>,
}

/// The period of a dated schedule.
pub open spec fn spec_structured_period(data: Option<HyvChallengePeriod>, region: Seq<char>) -> ChallengePeriod {
    match data {
        None => ChallengePeriod { start_time: None, end_time: None },
        Some(d) => spec_normalize_period(
            spec_structured_timestamp(d.start_time, region),
            spec_structured_timestamp(d.end_time, region),
        ),
    }
}

/// The period of a dated schedule; unknown when the schedule is missing.
pub fn structured_period(data: Option<HyvChallengePeriod>, region: &str) -> (p: ChallengePeriod)
    ensures
        p == spec_structured_period(data, region@),
        p.start_time is Some ==> -timestamp_bound() <= p.start_time->0 <= timestamp_bound(),
        p.end_time is Some ==> -timestamp_bound() <= p.end_time->0 <= timestamp_bound(),
{
    let data = match data {
        Some(d) => d,
        None => return ChallengePeriod::default(),
    };
    normalize_period(
        structured_timestamp(data.start_time.as_ref(), region),
        structured_timestamp(data.end_time.as_ref(), region),
    )
}

/// The length of a Shiyu Defense rotation: two weeks, in seconds.
pub open spec fn shiyu_period_seconds() -> int {
    1209600
}

/// The rotation that holds `now`, counting whole rotations from `anchor`.
pub open spec fn spec_shiyu_rotation(anchor: int, now: int) -> (int, int) {
    let start = anchor + ((now - anchor) / shiyu_period_seconds()) * shiyu_period_seconds();
    (start, start + shiyu_period_seconds() - 1)
}

/// The Shiyu Defense rotation that holds `now`, given the start `anchor` of
/// one rotation: it starts a whole number of rotations from the anchor, at or
/// before `now`, and ends one second before the next rotation starts.
pub fn shiyu_rotation(anchor: i64, now: i64) -> (p: ChallengePeriod)
    requires
        -timestamp_bound() <= anchor <= timestamp_bound(),
        -timestamp_bound() <= now <= timestamp_bound(),
    ensures
        p.start_time == Some(spec_shiyu_rotation(anchor as int, now as int).0 as i64),
        p.end_time == Some(spec_shiyu_rotation(anchor as int, now as int).1 as i64),
        p.start_time->0 <= now <= p.end_time->0,
        p.end_time->0 - p.start_time->0 == shiyu_period_seconds() - 1,
        (p.start_time->0 - anchor) % shiyu_period_seconds() == 0,
{
    let period: i64 = 14 * 24 * 60 * 60;
    let diff: i64 = now - anchor;
    let index: i64 = if diff >= 0 {
        diff / period
    } else {
        let neg: i64 = -diff;
        -((neg + period - 1) / period)
    };
    proof {
        let d = diff as int;
        let q = d / shiyu_period_seconds();
        assert(index == q) by (nonlinear_arith)
            requires
                d == diff,
                q == d / 1209600,
                diff >= 0 ==> index == diff / 1209600,
                diff < 0 ==> index == -((-diff + 1209600 - 1) / 1209600),
                -20_000_000_000_000 <= diff <= 20_000_000_000_000,
        ;
        assert(q * 1209600 <= d < q * 1209600 + 1209600) by (nonlinear_arith)
            requires
                q == d / 1209600,
        ;
        assert(-20_000_000 <= q <= 20_000_000) by (nonlinear_arith)
            requires
                q * 1209600 <= d < q * 1209600 + 1209600,
                -20_000_000_000_000 <= d <= 20_000_000_000_000,
        ;
        assert(((q * 1209600) as int) % 1209600 == 0) by (nonlinear_arith);
    }
    let start: i64 = anchor + index * period;
    ChallengePeriod { start_time: Some(start), end_time: Some(start + period - 1) }
}

/// The start of a Shiyu Defense rotation that the schedule is counted from:
/// 26 June 2026, 04:00 server time.
pub open spec fn shiyu_anchor() -> HyvDateTime {
    HyvDateTime { year: 2026, month: 6, day: 26, hour: 4, minute: 0, second: 0 }
}

/// The counted Shiyu Defense rotation for `region` at time `now`: the one
/// that holds `now`, counted from the fixed rotation start in the region's
/// time zone; unknown when the region has no known time zone.
pub open spec fn spec_hardcoded_shiyu_at(region: Seq<char>, now: int) -> ChallengePeriod {
    match spec_structured_timestamp(Some(shiyu_anchor()), region) {
        None => ChallengePeriod { start_time: None, end_time: None },
        Some(anchor) => ChallengePeriod {
            start_time: Some(spec_shiyu_rotation(anchor as int, now).0 as i64),
            end_time: Some(spec_shiyu_rotation(anchor as int, now).1 as i64),
        },
    }
}

/// The counted Shiyu Defense rotation at time `now`, for when HoYoLab does
/// not say.
pub fn hardcoded_shiyu_period_at(region: &str, now: i64) -> (p: ChallengePeriod)
    requires
        -timestamp_bound() <= now <= timestamp_bound(),
    ensures
        p == spec_hardcoded_shiyu_at(region@, now as int),
        p.start_time is Some <==> p.end_time is Some,
        p.start_time is Some ==> p.start_time->0 <= now <= p.end_time->0
            && p.end_time->0 - p.start_time->0 == shiyu_period_seconds() - 1,
{
    let anchor = HyvDateTime { year: 2026, month: 6, day: 26, hour: 4, minute: 0, second: 0 };
    match structured_timestamp(Some(&anchor), region) {
        Some(anchor_time) => shiyu_rotation(anchor_time, now),
        None => ChallengePeriod::default(),
    }
}

/// The current Shiyu Defense rotation, counted from a fixed rotation start,
/// for when HoYoLab does not say: the rotation at the time the clock reads.
/// A region with no known time zone gets an unknown period without a look
/// at the clock; otherwise `None` when the clock gives no time.
pub fn hardcoded_shiyu_period(region: &str) -> (r: Option<ChallengePeriod>)
    ensures
        spec_structured_timestamp(Some(shiyu_anchor()), region@) is None ==> r == Some(
            ChallengePeriod { start_time: None, end_time: None },
        ),
        r matches Some(p) ==> is_whole_period(p) && exists|now: int|
            0 <= now <= timestamp_bound() && p == #[trigger] spec_hardcoded_shiyu_at(region@, now),
{
    let anchor = HyvDateTime { year: 2026, month: 6, day: 26, hour: 4, minute: 0, second: 0 };
    if structured_timestamp(Some(&anchor), region).is_none() {
        let p = ChallengePeriod::default();
        assert(p == spec_hardcoded_shiyu_at(region@, 0));
        return Some(p);
    }
    match now_timestamp() {
        Some(now) => Some(hardcoded_shiyu_period_at(region, now)),
        None => None,
    }
}

/// The start that a Shiyu Defense schedule gives: its numeric timestamp, or else its date.
pub open spec fn spec_shiyu_start(p: HyvShiyuPeriod, region: Seq<char>) -> Option<i64> {
    match spec_numeric_timestamp(opt_view(p.begin_time)) {
        Some(v) => Some(v),
        None => spec_structured_timestamp(p.hadal_begin_time, region),
    }
}

/// The end that a Shiyu Defense schedule gives: its numeric timestamp, or else its date.
pub open spec fn spec_shiyu_end(p: HyvShiyuPeriod, region: Seq<char>) -> Option<i64> {
    match spec_numeric_timestamp(opt_view(p.end_time)) {
        Some(v) => Some(v),
        None => spec_structured_timestamp(p.hadal_end_time, region),
    }
}

/// The Shiyu Defense period that HoYoLab's answer fixes, or `None` when it
/// fixes neither end and the rotation is counted instead. A missing end
/// is completed to a whole rotation from the known one.
pub open spec fn spec_shiyu_known(data: Option<HyvShiyuData>, region: Seq<char>) -> Option<ChallengePeriod> {
    match data {
        None => None,
        Some(d) => match d.hadal_info_v2 {
            None => None,
            Some(p) => {
                let n = spec_normalize_period(spec_shiyu_start(p, region), spec_shiyu_end(p, region));
                match (n.start_time, n.end_time) {
                    (None, None) => None,
                    (Some(s), None) => Some(
                        ChallengePeriod {
                            start_time: Some(s),
                            end_time: Some((s + shiyu_period_seconds() - 1) as i64),
                        },
                    ),
                    (None, Some(e)) => Some(
                        ChallengePeriod {
                            start_time: Some((e - shiyu_period_seconds() + 1) as i64),
                            end_time: Some(e),
                        },
                    ),
                    _ => Some(n),
                }
            },
        },
    }
}

/// The inputs on which completing a Shiyu Defense period stays within `i64`:
/// a numeric start less than one rotation before `i64::MAX` needs an end at
/// or after it.
pub open spec fn shiyu_fits(data: Option<HyvShiyuData>) -> bool {
    match data {
        Some(d) => match d.hadal_info_v2 {
            Some(p) => match spec_numeric_timestamp(opt_view(p.begin_time)) {
                Some(v) => v > i64::MAX - shiyu_period_seconds() ==> (spec_numeric_timestamp(
                    opt_view(p.end_time),
                ) matches Some(e) && e >= v),
                None => true,
            },
            None => true,
        },
        None => true,
    }
}

/// Whether completing the Shiyu Defense period of `data` stays within `i64`,
/// as `shiyu_period` needs.
pub fn shiyu_period_fits(data: &Option<HyvShiyuData>) -> (b: bool)
    ensures
        b == shiyu_fits(*data),
{
    let p = match data {
        Some(d) => match &d.hadal_info_v2 {
            Some(p) => p,
            None => return true,
        },
        None => return true,
    };
    match numeric_timestamp(match &p.begin_time { Some(b) => Some(b.as_str()), None => None }) {
        Some(v) => {
            if v > i64::MAX - 1209600 {
                match numeric_timestamp(match &p.end_time { Some(e) => Some(e.as_str()), None => None }) {
                    Some(e) => e >= v,
                    None => false,
                }
            } else {
                true
            }
        },
        None => true,
    }
}

/// The Shiyu Defense period at time `now`: the one HoYoLab's answer fixes,
/// or else the rotation counted at `now`.
pub open spec fn spec_shiyu_period_at(data: Option<HyvShiyuData>, region: Seq<char>, now: int) -> ChallengePeriod {
    match spec_shiyu_known(data, region) {
        Some(k) => k,
        None => spec_hardcoded_shiyu_at(region, now),
    }
}

/// Whether a period has both ends or neither, the start at or before the end.
pub open spec fn is_whole_period(p: ChallengePeriod) -> bool {
    &&& p.start_time is Some <==> p.end_time is Some
    &&& p.start_time is Some ==> p.start_time->0 <= p.end_time->0
}

/// The period HoYoLab's Shiyu Defense answer fixes, completed to a whole
/// rotation when one end is missing; `None` when it fixes neither end.
fn shiyu_known(data: Option<HyvShiyuData>, region: &str) -> (r: Option<ChallengePeriod>)
    requires
        shiyu_fits(data),
    ensures
        r == spec_shiyu_known(data, region@),
        r matches Some(k) ==> is_whole_period(k),
{
    let ghost data0 = data;
    let period = match data {
        Some(d) => match d.hadal_info_v2 {
            Some(p) => p,
            None => return None,
        },
        None => return None,
    };
    let nb = numeric_timestamp(match &period.begin_time { Some(b) => Some(b.as_str()), None => None });
    let ne = numeric_timestamp(match &period.end_time { Some(b) => Some(b.as_str()), None => None });
    let start_time = match nb {
        Some(v) => Some(v),
        None => structured_timestamp(period.hadal_begin_time.as_ref(), region),
    };
    let end_time = match ne {
        Some(v) => Some(v),
        None => structured_timestamp(period.hadal_end_time.as_ref(), region),
    };
    let seconds: i64 = 14 * 24 * 60 * 60;
    let n = normalize_period(start_time, end_time);
    match (n.start_time, n.end_time) {
        (None, None) => None,
        (Some(s), None) => {
            proof {
                // a start this close to the end of `i64` came from a numeric
                // timestamp, and `shiyu_fits` then gives an end as well
                assert(data0->0.hadal_info_v2 == Some(period));
            }
            Some(ChallengePeriod { start_time: Some(s), end_time: Some(s + seconds - 1) })
        },
        (None, Some(e)) => Some(ChallengePeriod { start_time: Some(e - seconds + 1), end_time: Some(e) }),
        _ => Some(n),
    }
}

/// The Shiyu Defense period at time `now`: the one HoYoLab's answer fixes,
/// completed to a whole rotation when one end is missing, or else the
/// rotation counted at `now`.
pub fn shiyu_period_at(data: Option<HyvShiyuData>, region: &str, now: i64) -> (p: ChallengePeriod)
    requires
        shiyu_fits(data),
        -timestamp_bound() <= now <= timestamp_bound(),
    ensures
        p == spec_shiyu_period_at(data, region@, now as int),
        is_whole_period(p),
{
    match shiyu_known(data, region) {
        Some(k) => k,
        None => hardcoded_shiyu_period_at(region, now),
    }
}

/// The Shiyu Defense period: the one HoYoLab's answer fixes, completed to a
/// whole rotation when one end is missing, or else the rotation counted at
/// the time the clock reads. `None` only when the rotation has to be
/// counted and the clock gives no time.
pub fn shiyu_period(data: Option<HyvShiyuData>, region: &str) -> (r: Option<ChallengePeriod>)
    requires
        shiyu_fits(data),
    ensures
        spec_shiyu_known(data, region@) matches Some(k) ==> r == Some(k),
        spec_structured_timestamp(Some(shiyu_anchor()), region@) is None ==> r is Some,
        r matches Some(p) ==> is_whole_period(p) && exists|now: int|
            0 <= now <= timestamp_bound() && p == #[trigger] spec_shiyu_period_at(data, region@, now),
{
    let ghost data0 = data;
    match shiyu_known(data, region) {
        Some(k) => {
            assert(k == spec_shiyu_period_at(data0, region@, 0));
            Some(k)
        },
        None => match hardcoded_shiyu_period(region) {
            Some(p) => {
                let ghost now = choose|now: int|
                    0 <= now <= timestamp_bound() && p == #[trigger] spec_hardcoded_shiyu_at(region@, now);
                assert(p == spec_shiyu_period_at(data0, region@, now));
                Some(p)
            },
            None => None,
        },
    }
}

/// The names of the four challenges in a language; English for any other.
pub open spec fn spec_challenge_names(lang: Seq<char>) -> Seq<Seq<char>> {
    if lang == "zh-cn"@ {
        seq!["危局强袭战"@, "临界推演"@, "式舆防卫战"@, "拟境湮灭战"@]
    } else if lang == "zh-tw"@ {
        seq!["危局強襲戰"@, "臨界推演"@, "式輿防衛戰"@, "擬境湮滅戰"@]
    } else if lang == "de-de"@ {
        seq!["Gefährlicher Überfall"@, "Schwellensimulation"@, "Shiyu-Verteidigung"@, "Vernichtungs-Simulakrum"@]
    } else if lang == "es-es"@ {
        seq!["Incursión arriesgada"@, "Simulación de umbral"@, "Defensa shiyu"@, "Simulacro de aniquilación"@]
    } else if lang == "fr-fr"@ {
        seq!["Assaut mortel"@, "Simulation de seuil"@, "Défense de Shiyu"@, "Simulacre d'annihilation"@]
    } else if lang == "id-id"@ {
        seq!["Operasi Serbuan Maut"@, "Simulasi Ambang Batas"@, "Shiyu Defense"@, "Simulasi Pertempuran Pemusnahan"@]
    } else if lang == "ja-jp"@ {
        seq!["危局強襲戦"@, "臨界推演"@, "式輿防衛戦"@, "仮想殲滅作戦"@]
    } else if lang == "ko-kr"@ {
        seq!["위험한 강습전"@, "임계 시뮬레이션"@, "시유 방어전"@, "모의 세계 섬멸전"@]
    } else if lang == "pt-pt"@ {
        seq!["Investida Mortal"@, "Simulação do Limiar"@, "Defesa Shiyu"@, "Simulacro da Aniquilação"@]
    } else if lang == "ru-ru"@ {
        seq!["Опасный штурм"@, "Крит. симуляция"@, "Оборона шиюй"@, "Симулякры и аннигиляция"@]
    } else if lang == "th-th"@ {
        seq!["ศึกวิกฤติ"@, "การจำลองจุดวิกฤต"@, "Shiyu Defense"@, "ศึกจำลองทำลายล้าง"@]
    } else if lang == "vi-vn"@ {
        seq!["Tập Kích Nguy Cấp"@, "Suy Đoán Chạm Ngưỡng"@, "Bảo Vệ Trụ Shiyu"@, "Chiến Hủy Diệt Giả Lập"@]
    } else {
        seq!["Deadly Assault"@, "Threshold Simulation"@, "Shiyu Defense"@, "Annihilation Simulacrum"@]
    }
}

/// The names of Deadly Assault, Threshold Simulation, Shiyu Defense and
/// Annihilation Simulacrum in a language; English for any other.
pub fn challenge_names(lang: &str) -> (r: [&'static str; 4])
    ensures
        forall|k: int| 0 <= k < 4 ==> (#[trigger] r@[k])@ == spec_challenge_names(lang@)[k],
{
    if str_eq(lang, "zh-cn") {
        ["危局强袭战", "临界推演", "式舆防卫战", "拟境湮灭战"]
    } else if str_eq(lang, "zh-tw") {
        ["危局強襲戰", "臨界推演", "式輿防衛戰", "擬境湮滅戰"]
    } else if str_eq(lang, "de-de") {
        ["Gefährlicher Überfall", "Schwellensimulation", "Shiyu-Verteidigung", "Vernichtungs-Simulakrum"]
    } else if str_eq(lang, "es-es") {
        ["Incursión arriesgada", "Simulación de umbral", "Defensa shiyu", "Simulacro de aniquilación"]
    } else if str_eq(lang, "fr-fr") {
        ["Assaut mortel", "Simulation de seuil", "Défense de Shiyu", "Simulacre d'annihilation"]
    } else if str_eq(lang, "id-id") {
        ["Operasi Serbuan Maut", "Simulasi Ambang Batas", "Shiyu Defense", "Simulasi Pertempuran Pemusnahan"]
    } else if str_eq(lang, "ja-jp") {
        ["危局強襲戦", "臨界推演", "式輿防衛戦", "仮想殲滅作戦"]
    } else if str_eq(lang, "ko-kr") {
        ["위험한 강습전", "임계 시뮬레이션", "시유 방어전", "모의 세계 섬멸전"]
    } else if str_eq(lang, "pt-pt") {
        ["Investida Mortal", "Simulação do Limiar", "Defesa Shiyu", "Simulacro da Aniquilação"]
    } else if str_eq(lang, "ru-ru") {
        ["Опасный штурм", "Крит. симуляция", "Оборона шиюй", "Симулякры и аннигиляция"]
    } else if str_eq(lang, "th-th") {
        ["ศึกวิกฤติ", "การจำลองจุดวิกฤต", "Shiyu Defense", "ศึกจำลองทำลายล้าง"]
    } else if str_eq(lang, "vi-vn") {
        ["Tập Kích Nguy Cấp", "Suy Đoán Chạm Ngưỡng", "Bảo Vệ Trụ Shiyu", "Chiến Hủy Diệt Giả Lập"]
    } else {
        ["Deadly Assault", "Threshold Simulation", "Shiyu Defense", "Annihilation Simulacrum"]
    }
}

/// A challenge as the API answers it; its times may be unknown.
#[derive(Debug, Clone)]
pub struct Challenge {
    pub id: u64,
    pub name: String,
    pub kind: String,
    pub start_time: Option<i64>,
    pub end_time: Option<i64>,
}

/// Whether `c` is the challenge with the given id, name, kind and period.
pub open spec fn challenge_is(c: Challenge, id: u64, name: Seq<char>, kind: Seq<char>, p: ChallengePeriod) -> bool {
    c.id == id && c.name@ == name && c.kind@ == kind && c.start_time == p.start_time && c.end_time
        == p.end_time
}

fn make_challenge(id: u64, name: &str, kind: &str, period: ChallengePeriod) -> (c: Challenge)
    ensures
        challenge_is(c, id, name@, kind@, period),
{
    Challenge {
        id,
        name: name.to_owned(),
        kind: kind.to_owned(),
        start_time: period.start_time,
        end_time: period.end_time,
    }
}

/// The Threshold Simulation schedule, if the answer holds one.
pub open spec fn threshold_schedule(t: Option<HyvThresholdData>) -> Option<HyvChallengePeriod> {
    match t {
        Some(d) => d.void_front_battle_abstract_info_brief,
        None => None,
    }
}

/// Whether `r` lists the four challenges, in order Deadly Assault, Threshold
/// Simulation, Shiyu Defense and Annihilation Simulacrum, with ids 1 to 4,
/// names in `lang`, the periods the dated schedules give, and `shiyu` as the
/// Shiyu Defense period.
pub open spec fn challenges_are(
    r: Seq<Challenge>,
    deadly: Option<HyvChallengePeriod>,
    threshold: Option<HyvThresholdData>,
    shiyu: ChallengePeriod,
    annihilation: Option<HyvChallengePeriod>,
    region: Seq<char>,
    lang: Seq<char>,
) -> bool {
    &&& r.len() == 4
    &&& challenge_is(r[0], 1, spec_challenge_names(lang)[0], "deadly_assault"@, spec_structured_period(deadly, region))
    &&& challenge_is(
        r[1],
        2,
        spec_challenge_names(lang)[1],
        "threshold_simulation"@,
        spec_structured_period(threshold_schedule(threshold), region),
    )
    &&& challenge_is(r[2], 3, spec_challenge_names(lang)[2], "shiyu_defense"@, shiyu)
    &&& challenge_is(
        r[3],
        4,
        spec_challenge_names(lang)[3],
        "annihilation_simulacrum"@,
        spec_structured_period(annihilation, region),
    )
}

fn challenge_list(
    deadly: Option<HyvChallengePeriod>,
    threshold: Option<HyvThresholdData>,
    shiyu: ChallengePeriod,
    annihilation: Option<HyvChallengePeriod>,
    region: &str,
    lang: &str,
) -> (r: Vec<Challenge>)
    ensures
        challenges_are(r@, deadly, threshold, shiyu, annihilation, region@, lang@),
{
    let brief = match threshold {
        Some(d) => d.void_front_battle_abstract_info_brief,
        None => None,
    };
    let p0 = structured_period(deadly, region);
    let p1 = structured_period(brief, region);
    let p3 = structured_period(annihilation, region);
    let names = challenge_names(lang);
    let mut r: Vec<Challenge> = Vec::new();
    r.push(make_challenge(1, names[0], "deadly_assault", p0));
    r.push(make_challenge(2, names[1], "threshold_simulation", p1));
    r.push(make_challenge(3, names[2], "shiyu_defense", shiyu));
    r.push(make_challenge(4, names[3], "annihilation_simulacrum", p3));
    r
}

/// The four challenges at time `now`, in order Deadly Assault, Threshold
/// Simulation, Shiyu Defense and Annihilation Simulacrum, with ids 1 to 4,
/// names in `lang` and the periods their schedules give; the Shiyu Defense
/// rotation, where it is counted, is the one that holds `now`.
pub fn transform_challenges_at(
    deadly: Option<HyvChallengePeriod>,
    threshold: Option<HyvThresholdData>,
    shiyu: Option<HyvShiyuData>,
    annihilation: Option<HyvChallengePeriod>,
    region: &str,
    lang: &str,
    now: i64,
) -> (r: Vec<Challenge>)
    requires
        shiyu_fits(shiyu),
        -timestamp_bound() <= now <= timestamp_bound(),
    ensures
        challenges_are(r@, deadly, threshold, spec_shiyu_period_at(shiyu, region@, now as int), annihilation, region@, lang@),
{
    let p2 = shiyu_period_at(shiyu, region, now);
    challenge_list(deadly, threshold, p2, annihilation, region, lang)
}

/// The four challenges, in order Deadly Assault, Threshold Simulation, Shiyu
/// Defense and Annihilation Simulacrum, with ids 1 to 4, names in `lang` and
/// the periods their schedules give; the Shiyu Defense rotation, where it is
/// counted, is the one at the time the clock reads. `None` only when the
/// rotation has to be counted and the clock gives no time.
pub fn transform_challenges(
    deadly: Option<HyvChallengePeriod>,
    threshold: Option<HyvThresholdData>,
    shiyu: Option<HyvShiyuData>,
    annihilation: Option<HyvChallengePeriod>,
    region: &str,
    lang: &str,
) -> (r: Option<Vec<Challenge>>)
    requires
        shiyu_fits(shiyu),
    ensures
        spec_shiyu_known(shiyu, region@) is Some ==> r is Some,
        spec_structured_timestamp(Some(shiyu_anchor()), region@) is None ==> r is Some,
        r matches Some(v) ==> exists|now: int|
            0 <= now <= timestamp_bound() && challenges_are(
                v@,
                deadly,
                threshold,
                #[trigger] spec_shiyu_period_at(shiyu, region@, now),
                annihilation,
                region@,
                lang@,
            ),
{
    let ghost shiyu0 = shiyu;
    match shiyu_period(shiyu, region) {
        Some(p2) => {
            let ghost now = choose|now: int|
                0 <= now <= timestamp_bound() && p2 == #[trigger] spec_shiyu_period_at(shiyu0, region@, now);
            let r = challenge_list(deadly, threshold, p2, annihilation, region, lang);
            assert(challenges_are(r@, deadly, threshold, spec_shiyu_period_at(shiyu0, region@, now), annihilation, region@, lang@));
            Some(r)
        },
        None => None,
    }
}

/// The role of an agent or W-Engine, by HoYoLab's number.
pub open spec fn spec_profession(id: u8) -> Seq<char> {
    if id == 1 {
        "Attack"@
    } else if id == 2 {
        "Stun"@
    } else if id == 3 {
        "Anomaly"@
    } else if id == 4 {
        "Support"@
    } else if id == 5 {
        "Defence"@
    } else if id == 6 {
        "Rupture"@
    } else {
        "unknown"@
    }
}

/// The role of an agent or W-Engine, by HoYoLab's number.
pub fn map_profession(id: u8) -> (r: String)
    ensures
        r@ == spec_profession(id),
{
    let s = match id {
        1 => "Attack",
        2 => "Stun",
        3 => "Anomaly",
        4 => "Support",
        5 => "Defence",
        6 => "Rupture",
        _ => "unknown",
    };
    s.to_owned()
}

/// The attribute of an agent, by HoYoLab's number.
pub open spec fn spec_element(id: u16) -> Seq<char> {
    if id == 200 {
        "Physical"@
    } else if id == 201 {
        "Fire"@
    } else if id == 202 {
        "Ice"@
    } else if id == 203 {
        "Electric"@
    } else if id == 204 {
        "Wind"@
    } else if id == 205 {
        "Ether"@
    } else {
        "unknown"@
    }
}

/// The attribute of an agent, by HoYoLab's number.
pub fn map_element(id: u16) -> (r: String)
    ensures
        r@ == spec_element(id),
{
    let s = match id {
        200 => "Physical",
        201 => "Fire",
        202 => "Ice",
        203 => "Electric",
        204 => "Wind",
        205 => "Ether",
        _ => "unknown",
    };
    s.to_owned()
}

/// HoYoLab numbers the attributes from 200 in the game's order: Physical,
/// Fire, Ice, Electric, Wind, Ether. Each of those numbers has its own
/// attribute, no two share one, and any other number is unknown.
pub proof fn law_elements_numbered_in_order(id: u16, other: u16)
    ensures
        200 <= id <= 205 ==> spec_element(id) == seq!["Physical"@, "Fire"@, "Ice"@, "Electric"@, "Wind"@, "Ether"@][id - 200],
        200 <= id <= 205 && 200 <= other <= 205 && id != other ==> spec_element(id) != spec_element(other),
        200 <= id <= 205 ==> spec_element(id) != "unknown"@,
        !(200 <= id <= 205) ==> spec_element(id) == "unknown"@,
{
    reveal_strlit("Physical");
    reveal_strlit("Fire");
    reveal_strlit("Ice");
    reveal_strlit("Electric");
    reveal_strlit("Wind");
    reveal_strlit("Ether");
    reveal_strlit("unknown");
    let names = seq!["Physical"@, "Fire"@, "Ice"@, "Electric"@, "Wind"@, "Ether"@];
    if 200 <= id <= 205 {
        assert(spec_element(id) == names[id - 200]);
    }
    if 200 <= id <= 205 && 200 <= other <= 205 && id != other {
        assert(spec_element(id) == names[id - 200]);
        assert(spec_element(other) == names[other - 200]);
        assert(forall|a: int, b: int| 0 <= a < b < 6 ==> names[a].len() != names[b].len() || names[a][0] != names[b][0]);
    }
}

/// An activity as HoYoLab lists it.
#[derive(Debug, Clone)]
pub struct HyvActivity {
    pub activity_id: u64,
    pub state: String,
    pub name: String,
    pub monochrome_cnt: u64,
    pub start_ts: i64,
    pub end_ts: i64,
}

/// The activity calendar HoYoLab answers.
#[derive(Debug, Clone)]
pub struct HyvActivityData {
    pub activity_list: Vec<HyvActivity>,
}

/// An agent on a banner as HoYoLab lists it.
#[derive(Debug, Clone)]
pub struct HyvAvatar {
    pub avatar_id: u64,
    pub avatar_name: String,
    pub full_name: String,
    pub rarity: String,
    pub icon: String,
    pub avatar_profession: u8,
    pub avatar_element_type: u16,
}

/// A W-Engine on a banner as HoYoLab lists it.
#[derive(Debug, Clone)]
pub struct HyvWeapon {
    pub weapon_id: u64,
    pub rarity: String,
    pub icon: String,
    pub talent_title: String,
    pub profession: u8,
}

/// An agent banner as HoYoLab lists it.
#[derive(Debug, Clone)]
pub struct HyvAvatarGacha {
    pub gacha_type: String,
    pub gacha_state: String,
    pub start_ts: i64,
    pub end_ts: i64,
    pub version: String,
    pub avatar_list: Vec<HyvAvatar>,
}

/// A W-Engine banner as HoYoLab lists it.
#[derive(Debug, Clone)]
pub struct HyvWeaponGacha {
    pub gacha_type: String,
    pub gacha_state: String,
    pub start_ts: i64,
    pub end_ts: i64,
    pub version: String,
    pub weapon_list: Vec<HyvWeapon>,
}

/// The banner calendar HoYoLab answers.
#[derive(Debug, Clone)]
pub struct HyvGachaData {
    pub avatar_gacha_schedule_list: Vec<HyvAvatarGacha>,
    pub weapon_gacha_schedule_list: Vec<HyvWeaponGacha>,
}

/// An event as the API answers it.
#[derive(Debug, Clone)]
pub struct Event {
    pub id: u64,
    pub name: String,
    pub state: String,
    pub image_url: Option<String>,
    pub start_time: i64,
    pub end_time: i64,
    pub polychrome: u64,
}

/// An agent on a banner as the API answers it.
#[derive(Debug, Clone)]
pub struct Agent {
    pub id: u64,
    pub name: String,
    pub full_name: String,
    pub icon: String,
    pub rarity: String,
    pub profession: String,
    pub element: String,
}

/// A W-Engine on a banner as the API answers it.
#[derive(Debug, Clone)]
pub struct WEngine {
    pub id: u64,
    pub name: String,
    pub icon: String,
    pub rarity: String,
    pub profession: String,
}

/// A banner as the API answers it.
#[derive(Debug, Clone)]
pub struct Banner {
    pub banner_type: String,
    pub state: String,
    pub version: String,
    pub agents: Vec<Agent>,
    pub w_engines: Vec<WEngine>,
    pub start_time: i64,
    pub end_time: i64,
}

/// The calendar the API answers for Zenless Zone Zero.
#[derive(Debug, Clone)]
pub struct CalendarResponse {
    pub events: Vec<Event>,
    pub banners: Vec<Banner>,
    pub challenges: Vec<Challenge>,
}

/// Whether `out` is the event made from `act` with image `image`; the
/// Polychrome reward is HoYoLab's Monochrome count.
pub open spec fn event_of(act: HyvActivity, image: Option<Seq<char>>, out: Event) -> bool {
    &&& out.id == act.activity_id
    &&& out.name@ == act.name@
    &&& out.state@ == act.state@
    &&& opt_view(out.image_url) == image
    &&& out.start_time == act.start_ts
    &&& out.end_time == act.end_ts
    &&& out.polychrome == act.monochrome_cnt
}

/// The event made from an activity, with the image found for it.
pub fn transform_activity(act: HyvActivity, image_url: Option<String>) -> (e: Event)
    ensures
        event_of(act, opt_view(image_url), e),
{
    Event {
        id: act.activity_id,
        name: act.name,
        state: act.state,
        image_url,
        start_time: act.start_ts,
        end_time: act.end_ts,
        polychrome: act.monochrome_cnt,
    }
}

/// Whether `out` carries agent `a`, its role and attribute named.
pub open spec fn agent_of(a: HyvAvatar, out: Agent) -> bool {
    &&& out.id == a.avatar_id
    &&& out.name@ == a.avatar_name@
    &&& out.full_name@ == a.full_name@
    &&& out.icon@ == a.icon@
    &&& out.rarity@ == a.rarity@
    &&& out.profession@ == spec_profession(a.avatar_profession)
    &&& out.element@ == spec_element(a.avatar_element_type)
}

/// Whether `out` carries W-Engine `w`, named by its talent title.
pub open spec fn w_engine_of(w: HyvWeapon, out: WEngine) -> bool {
    &&& out.id == w.weapon_id
    &&& out.name@ == w.talent_title@
    &&& out.icon@ == w.icon@
    &&& out.rarity@ == w.rarity@
    &&& out.profession@ == spec_profession(w.profession)
}

/// Whether `out` is the banner made from agent banner `p`.
pub open spec fn avatar_banner_of(p: HyvAvatarGacha, out: Banner) -> bool {
    &&& out.banner_type@ == p.gacha_type@
    &&& out.state@ == p.gacha_state@
    &&& out.version@ == p.version@
    &&& out.agents@.len() == p.avatar_list@.len()
    &&& forall|i: int| 0 <= i < p.avatar_list@.len() ==> agent_of(p.avatar_list@[i], #[trigger] out.agents@[i])
    &&& out.w_engines@.len() == 0
    &&& out.start_time == p.start_ts
    &&& out.end_time == p.end_ts
}

/// Whether `out` is the banner made from W-Engine banner `p`.
pub open spec fn weapon_banner_of(p: HyvWeaponGacha, out: Banner) -> bool {
    &&& out.banner_type@ == p.gacha_type@
    &&& out.state@ == p.gacha_state@
    &&& out.version@ == p.version@
    &&& out.agents@.len() == 0
    &&& out.w_engines@.len() == p.weapon_list@.len()
    &&& forall|i: int| 0 <= i < p.weapon_list@.len() ==> w_engine_of(p.weapon_list@[i], #[trigger] out.w_engines@[i])
    &&& out.start_time == p.start_ts
    &&& out.end_time == p.end_ts
}

/// The banner made from an agent banner.
pub fn transform_avatar_banner(pool: HyvAvatarGacha) -> (b: Banner)
    ensures
        avatar_banner_of(pool, b),
{
    let ghost list = pool.avatar_list@;
    let mut agents: Vec<Agent> = Vec::new();
    for a in it: pool.avatar_list.into_iter()
        invariant
            it.seq() == list,
            agents@.len() == it.index(),
            forall|i: int| 0 <= i < it.index() ==> agent_of(list[i], #[trigger] agents@[i]),
    {
        let profession = map_profession(a.avatar_profession);
        let element = map_element(a.avatar_element_type);
        agents.push(
            Agent {
                id: a.avatar_id,
                name: a.avatar_name,
                full_name: a.full_name,
                icon: a.icon,
                rarity: a.rarity,
                profession,
                element,
            },
        );
    }
    Banner {
        banner_type: pool.gacha_type,
        state: pool.gacha_state,
        version: pool.version,
        agents,
        w_engines: Vec::new(),
        start_time: pool.start_ts,
        end_time: pool.end_ts,
    }
}

/// The banner made from a W-Engine banner.
pub fn transform_weapon_banner(pool: HyvWeaponGacha) -> (b: Banner)
    ensures
        weapon_banner_of(pool, b),
{
    let ghost list = pool.weapon_list@;
    let mut w_engines: Vec<WEngine> = Vec::new();
    for w in it: pool.weapon_list.into_iter()
        invariant
            it.seq() == list,
            w_engines@.len() == it.index(),
            forall|i: int| 0 <= i < it.index() ==> w_engine_of(list[i], #[trigger] w_engines@[i]),
    {
        let profession = map_profession(w.profession);
        w_engines.push(
            WEngine { id: w.weapon_id, name: w.talent_title, icon: w.icon, rarity: w.rarity, profession },
        );
    }
    Banner {
        banner_type: pool.gacha_type,
        state: pool.gacha_state,
        version: pool.version,
        agents: Vec::new(),
        w_engines,
        start_time: pool.start_ts,
        end_time: pool.end_ts,
    }
}

/// The calendar made from HoYoLab's answers: every activity becomes an event
/// with the image found under its name, agent banners come before W-Engine
/// banners, and the challenges are passed through.
pub fn transform_calendar(
    activity_data: HyvActivityData,
    gacha_data: HyvGachaData,
    challenges: Vec<Challenge>,
    image_map: &[(String, String)],
) -> (c: CalendarResponse)
    ensures
        c.events@.len() == activity_data.activity_list@.len(),
        forall|i: int| 0 <= i < activity_data.activity_list@.len() ==> event_of(
            activity_data.activity_list@[i],
            lookup_image(image_map@, activity_data.activity_list@[i].name@),
            #[trigger] c.events@[i],
        ),
        c.banners@.len() == gacha_data.avatar_gacha_schedule_list@.len()
            + gacha_data.weapon_gacha_schedule_list@.len(),
        forall|i: int| 0 <= i < gacha_data.avatar_gacha_schedule_list@.len() ==> avatar_banner_of(
            gacha_data.avatar_gacha_schedule_list@[i],
            #[trigger] c.banners@[i],
        ),
        forall|j: int| 0 <= j < gacha_data.weapon_gacha_schedule_list@.len() ==> weapon_banner_of(
            gacha_data.weapon_gacha_schedule_list@[j],
            #[trigger] c.banners@[gacha_data.avatar_gacha_schedule_list@.len() + j],
        ),
        c.challenges@ == challenges@,
{
    let ghost acts = activity_data.activity_list@;
    let ghost avatars = gacha_data.avatar_gacha_schedule_list@;
    let ghost weapons = gacha_data.weapon_gacha_schedule_list@;
    let mut events: Vec<Event> = Vec::new();
    for act in it: activity_data.activity_list.into_iter()
        invariant
            it.seq() == acts,
            events@.len() == it.index(),
            forall|i: int| 0 <= i < it.index() ==> event_of(acts[i], lookup_image(image_map@, acts[i].name@), #[trigger] events@[i]),
    {
        let image_url = find_image(image_map, act.name.as_str());
        events.push(transform_activity(act, image_url));
    }
    let mut banners: Vec<Banner> = Vec::new();
    for p in it: gacha_data.avatar_gacha_schedule_list.into_iter()
        invariant
            it.seq() == avatars,
            banners@.len() == it.index(),
            forall|i: int| 0 <= i < it.index() ==> avatar_banner_of(avatars[i], #[trigger] banners@[i]),
    {
        banners.push(transform_avatar_banner(p));
    }
    let ghost first = banners@;
    for p in it: gacha_data.weapon_gacha_schedule_list.into_iter()
        invariant
            it.seq() == weapons,
            first.len() == avatars.len(),
            banners@.len() == avatars.len() + it.index(),
            forall|i: int| 0 <= i < avatars.len() ==> #[trigger] banners@[i] == first[i],
            forall|i: int| 0 <= i < avatars.len() ==> avatar_banner_of(avatars[i], #[trigger] first[i]),
            forall|j: int| 0 <= j < it.index() ==> weapon_banner_of(weapons[j], #[trigger] banners@[avatars.len() + j]),
    {
        banners.push(transform_weapon_banner(p));
    }
    CalendarResponse { events, banners, challenges }
}

} // verus!
