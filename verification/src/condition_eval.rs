//! Evaluation of role conditions against a player's profile, including the
//! Spiral Abyss reset schedule that decides whether abyss data is current.
use vstd::prelude::*;

use crate::calendar::{
    MIN_YEAR, MAX_YEAR, utc_timestamp, previous_day, prev_month, month_of, month_contains,
    max_instant, is_representable, now_timestamp, year_month_of, timestamp_at, day_before,
    lemma_month_of, lemma_days_in_year, lemma_month_order, lemma_month_exists,
    lemma_month_start_of, lemma_next_month_start, lemma_month_start_step, lemma_month_at_valid,
    lemma_month_at_index, lemma_next_month_index, lemma_month_start_monotone, month_index,
    month_start_day, next_month,
    lemma_days_in_month_bounds, days_in_month_exec,
};
use crate::condition::{Condition, ConditionField, ConditionOperator, ConditionView, field_key};
use crate::json::{JsonValue, JsonValueView, Entries, entries_view, lookup, or_i64, get_i64};
use crate::player::{PlayerInfo, JsonObject};
use crate::text::{
    str_eq, eq_ignore_ascii_case, eq_ignore_ascii_case_seq, to_uppercase, uppercase, is_ascii_text,
    ascii_upper, ascii_lower,
};

verus! {

// ----- The Spiral Abyss schedule -----
//
// Abyss resets on the 1st and 16th of every month at 04:00 server time.
// Server time offsets from UTC:
// - NA: UTC-5 → reset at 09:00 UTC
// - EU: UTC+1 → reset at 03:00 UTC
// - ASIA/TW/CN: UTC+8 → reset at 20:00 UTC (previous day)

/// Whether a region's resets fall on the UTC day before the server date.
pub open spec fn resets_previous_day(region: Seq<char>) -> bool {
    !(region == "NA"@ || region == "EU"@)
}

/// The UTC hour of a region's resets.
pub open spec fn reset_hour(region: Seq<char>) -> int {
    if region == "NA"@ {
        9
    } else if region == "EU"@ {
        3
    } else {
        20
    }
}

/// The reset that opens the cycle beginning on the 1st of month `m` of year
/// `y`, server time.
pub open spec fn cycle_start_reset(region: Seq<char>, y: int, m: int) -> int {
    if resets_previous_day(region) {
        let p = previous_day(y, m, 1);
        utc_timestamp(p.0, p.1, p.2, reset_hour(region))
    } else {
        utc_timestamp(y, m, 1, reset_hour(region))
    }
}

/// The reset that opens the cycle beginning on the 16th of month `m` of year
/// `y`, server time.
pub open spec fn mid_month_reset(region: Seq<char>, y: int, m: int) -> int {
    if resets_previous_day(region) {
        utc_timestamp(y, m, 15, reset_hour(region))
    } else {
        utc_timestamp(y, m, 16, reset_hour(region))
    }
}

/// Whether `t` is an instant at which the abyss resets in `region`.
pub open spec fn is_abyss_reset(region: Seq<char>, t: int) -> bool {
    exists|y: int, m: int|
        1 <= m <= 12 && (t == cycle_start_reset(region, y, m) || t == mid_month_reset(region, y, m))
}

/// The most recent reset at or before `now`, for an uppercased region: the
/// reset that opens the next month's cycle (for the eastern servers it falls
/// on the last UTC day of this month), else this month's mid-month reset,
/// else this month's first reset, else the previous month's mid-month reset.
pub open spec fn last_abyss_reset(region: Seq<char>, now: int) -> int {
    let ym = month_of(now);
    let nm = next_month(ym.0, ym.1);
    if now >= cycle_start_reset(region, nm.0, nm.1) {
        cycle_start_reset(region, nm.0, nm.1)
    } else if now >= mid_month_reset(region, ym.0, ym.1) {
        mid_month_reset(region, ym.0, ym.1)
    } else if now >= cycle_start_reset(region, ym.0, ym.1) {
        cycle_start_reset(region, ym.0, ym.1)
    } else {
        let p = prev_month(ym.0, ym.1);
        mid_month_reset(region, p.0, p.1)
    }
}

/// The instants for which the schedule is computed: those `chrono`
/// represents, from the second year it represents on (the first month of
/// the first year has no earlier month to fall back to).
pub open spec fn abyss_schedule_covers(now: int) -> bool {
    utc_timestamp(MIN_YEAR as int + 1, 1, 1, 0) <= now <= max_instant()
}

/// The most recent Spiral Abyss reset at or before `now`, for a region
/// given in uppercase.
pub fn last_abyss_reset_at(region: &str, now: i64) -> (r: i64)
    requires
        abyss_schedule_covers(now as int),
    ensures
        r == last_abyss_reset(region@, now as int),
{
    let is_na: bool = str_eq(region, "NA");
    let is_eu: bool = str_eq(region, "EU");
    let reset_hour_utc: u32 = if is_na {
        9
    } else if is_eu {
        3
    } else {
        20
    };
    let prev_day: bool = !(is_na || is_eu);
    proof {
        assert(utc_timestamp(MIN_YEAR as int, 1, 1, 0) <= utc_timestamp(
            MIN_YEAR as int + 1,
            1,
            1,
            0,
        )) by {
            lemma_days_in_year(MIN_YEAR as int);
        }
    }
    let (year, month) = year_month_of(now);
    proof {
        lemma_month_of(year as int, month as int, now as int);
        if year == MIN_YEAR {
            lemma_month_order(year as int, month as int, MIN_YEAR as int + 1, 1);
        }
    }
    // The cycle that began on the 16th (the 15th, UTC, for the eastern servers).
    let candidate_1: i64 = if prev_day {
        timestamp_at(year, month, 15, reset_hour_utc)
    } else {
        timestamp_at(year, month, 16, reset_hour_utc)
    };
    // The cycle that began on the 1st (the last day of the previous month, UTC,
    // for the eastern servers).
    let candidate_0: i64 = if prev_day {
        let (py, pm, pd) = day_before(year, month, 1);
        timestamp_at(py, pm, pd, reset_hour_utc)
    } else {
        timestamp_at(year, month, 1, reset_hour_utc)
    };
    // The cycle that begins on the 1st of next month starts, for the eastern
    // servers, on the last UTC day of this month.
    proof {
        lemma_next_month_index(year as int, month as int);
        lemma_days_in_month_bounds(year as int, month as int);
        let nm = next_month(year as int, month as int);
        if !prev_day {
            assert(cycle_start_reset(region@, nm.0, nm.1) >= utc_timestamp(nm.0, nm.1, 1, 0));
        }
    }
    if prev_day {
        let last_day: u32 = days_in_month_exec(year, month);
        let candidate_next: i64 = timestamp_at(year, month, last_day, reset_hour_utc);
        if now >= candidate_next {
            return candidate_next;
        }
    }
    if now >= candidate_1 {
        candidate_1
    } else if now >= candidate_0 {
        candidate_0
    } else {
        // Before the first reset of this month: the 16th reset of the previous month.
        let (py, pm, _pd) = day_before(year, month, 1);
        proof {
            lemma_days_in_month_bounds(py as int, pm as int);
        }
        if prev_day {
            timestamp_at(py, pm, 15, reset_hour_utc)
        } else {
            timestamp_at(py, pm, 16, reset_hour_utc)
        }
    }
}

/// The instants of the clock are covered by the schedule.
pub(crate) proof fn lemma_clock_covered(t: int)
    requires
        is_representable(t),
        t >= 0,
    ensures
        abyss_schedule_covers(t),
{
    assert(utc_timestamp(MIN_YEAR as int + 1, 1, 1, 0) < 0);
}

/// The most recent Spiral Abyss reset, by the clock, for a region named in
/// any case.
pub fn last_abyss_reset_utc(region: &str) -> (r: i64)
    ensures
        exists|now: int|
            abyss_schedule_covers(now) && now >= 0 && r == last_abyss_reset(
                uppercase(region@),
                now,
            ),
{
    let upper: String = to_uppercase(region);
    let now: i64 = now_timestamp();
    proof {
        lemma_clock_covered(now as int);
    }
    last_abyss_reset_at(upper.as_str(), now)
}

/// The resets of a month, through the first day of the month.
proof fn lemma_resets_of_month(region: Seq<char>, y: int, m: int)
    requires
        1 <= m <= 12,
    ensures
        resets_previous_day(region) ==> reset_hour(region) == 20,
        cycle_start_reset(region, y, m) == month_start_day(month_index(y, m)) * 86400 + reset_hour(
            region,
        ) * 3600 - (if resets_previous_day(region) {
            86400int
        } else {
            0int
        }),
        mid_month_reset(region, y, m) == (month_start_day(month_index(y, m)) + 15) * 86400
            + reset_hour(region) * 3600 - (if resets_previous_day(region) {
            86400int
        } else {
            0int
        }),
{
    lemma_month_start_of(y, m);
    let p = prev_month(y, m);
    lemma_next_month_start(p.0, p.1);
}

/// The reset picked for an instant is a reset, and is not after the instant.
pub proof fn abyss_reset_not_after_now(region: Seq<char>, now: int)
    requires
        abyss_schedule_covers(now),
    ensures
        is_abyss_reset(region, last_abyss_reset(region, now)),
        last_abyss_reset(region, now) <= now,
{
    lemma_month_exists(MIN_YEAR as int + 1, 1, now);
    let ym = month_of(now);
    let (y, m) = ym;
    let k = month_index(y, m);
    let p = prev_month(y, m);
    lemma_resets_of_month(region, y, m);
    lemma_resets_of_month(region, p.0, p.1);
    lemma_month_start_of(y, m);
    lemma_month_start_step(k - 1);
    lemma_month_at_valid(k - 1);
    lemma_month_at_index(p.0, p.1);
    assert(month_index(p.0, p.1) == k - 1);
    if now >= mid_month_reset(region, y, m) {
        assert(1 <= m <= 12 && mid_month_reset(region, y, m) == mid_month_reset(region, y, m));
    } else if now >= cycle_start_reset(region, y, m) {
        assert(1 <= m <= 12 && cycle_start_reset(region, y, m) == cycle_start_reset(region, y, m));
    } else {
        assert(1 <= p.1 <= 12 && mid_month_reset(region, p.0, p.1) == mid_month_reset(region, p.0, p.1));
    }
}

/// The reset picked for an instant is the most recent one: no reset at or
/// before the instant comes after it.
pub proof fn abyss_reset_is_most_recent(region: Seq<char>, now: int, y: int, m: int)
    requires
        abyss_schedule_covers(now),
        1 <= m <= 12,
    ensures
        cycle_start_reset(region, y, m) <= now ==> cycle_start_reset(region, y, m) <= last_abyss_reset(
            region,
            now,
        ),
        mid_month_reset(region, y, m) <= now ==> mid_month_reset(region, y, m) <= last_abyss_reset(
            region,
            now,
        ),
{
    lemma_month_exists(MIN_YEAR as int + 1, 1, now);
    let ym = month_of(now);
    let (cy, cm) = ym;
    let k = month_index(cy, cm);
    let k2 = month_index(y, m);
    let p = prev_month(cy, cm);
    let nm = next_month(cy, cm);
    lemma_resets_of_month(region, cy, cm);
    lemma_resets_of_month(region, p.0, p.1);
    lemma_resets_of_month(region, y, m);
    lemma_month_start_of(cy, cm);
    lemma_month_start_step(k - 1);
    lemma_month_at_valid(k - 1);
    lemma_month_at_index(p.0, p.1);
    assert(month_index(p.0, p.1) == k - 1);
    lemma_next_month_index(cy, cm);
    lemma_month_start_of(nm.0, nm.1);
    lemma_month_start_step(k);
    if k2 > k {
        lemma_month_start_monotone(k + 1, k2);
    } else if k2 == k {
        lemma_month_at_index(y, m);
        lemma_month_at_index(cy, cm);
    } else {
        lemma_month_start_monotone(k2, k - 1);
    }
}

// ----- Conditions -----

/// Whether `actual` passes the comparison against `expected` (and, for a
/// range, its end: `value_end` when it holds a number, else `expected`).
pub open spec fn compare_holds(
    actual: int,
    expected: int,
    operator: ConditionOperator,
    value_end: Option<JsonValueView>,
) -> bool {
    match operator {
        ConditionOperator::Eq => actual == expected,
        ConditionOperator::Gt => actual > expected,
        ConditionOperator::Gte => actual >= expected,
        ConditionOperator::Lt => actual < expected,
        ConditionOperator::Lte => actual <= expected,
        ConditionOperator::Between => {
            let end = match value_end {
                Some(v) => match v.as_i64() {
                    Some(e) => e as int,
                    None => expected,
                },
                None => expected,
            };
            actual >= expected && actual <= end
        },
    }
}

fn compare(actual: i64, expected: i64, operator: &ConditionOperator, value_end: &Option<JsonValue>) -> (r:
    bool)
    ensures
        r == compare_holds(actual as int, expected as int, *operator, crate::condition::opt_view(*value_end)),
{
    match operator {
        ConditionOperator::Eq => actual == expected,
        ConditionOperator::Gt => actual > expected,
        ConditionOperator::Gte => actual >= expected,
        ConditionOperator::Lt => actual < expected,
        ConditionOperator::Lte => actual <= expected,
        ConditionOperator::Between => {
            let end: i64 = match value_end {
                Some(v) => match v.as_i64() {
                    Some(e) => e,
                    None => expected,
                },
                None => expected,
            };
            actual >= expected && actual <= end
        },
    }
}

/// The integer under `key` of an object, or 0.
pub open spec fn int_or_zero(entries: Entries, key: Seq<char>) -> int {
    or_i64(lookup(entries, key).as_i64(), 0) as int
}

/// Whether a showcased character is the target and meets the optional
/// minimum level and constellation.
pub open spec fn avatar_matches(
    avatar: Entries,
    target: i64,
    min_level: Option<i64>,
    min_constellation: Option<i64>,
) -> bool {
    &&& lookup(avatar, "avatarId"@).as_i64() == Some(target)
    &&& (min_level matches Some(l) ==> int_or_zero(avatar, "level"@) >= l)
    &&& (min_constellation matches Some(c) ==> int_or_zero(avatar, "talentLevel"@) >= c)
}

/// The combined Spiral Abyss progress: floor × 10 + chamber.
pub open spec fn abyss_progress(info: PlayerInfo) -> int {
    int_or_zero(entries_view(info.fields@), "towerFloorIndex"@) * 10 + int_or_zero(entries_view(info.fields@), "towerLevelIndex"@)
}

/// Whether abyss data fetched at `fetched_at` is current at `now`: fetched no
/// earlier than the last reset of the region (NA when unknown). Data with
/// no fetch time is taken as current.
pub open spec fn abyss_data_current(region: Option<Seq<char>>, fetched_at: Option<i64>, now: int) -> bool {
    match fetched_at {
        None => true,
        Some(f) => {
            let r = match region {
                Some(s) => s,
                None => "NA"@,
            };
            f >= last_abyss_reset(uppercase(r), now)
        },
    }
}

/// The target id of an id-valued condition: its value as an integer, or 0.
pub open spec fn target_id(c: ConditionView) -> i64 {
    or_i64(c.value.as_i64(), 0)
}

/// Whether one condition holds of a player.
pub open spec fn condition_holds(
    c: ConditionView,
    info: PlayerInfo,
    region: Option<Seq<char>>,
    fetched_at: Option<i64>,
    now: int,
) -> bool {
    match c.field {
        ConditionField::Region => {
            let actual = match region {
                Some(s) => s,
                None => ""@,
            };
            let expected = match c.value.as_str() {
                Some(s) => s,
                None => ""@,
            };
            eq_ignore_ascii_case_seq(actual, expected)
        },
        ConditionField::HasAvatar => match info.show_avatar_info_list {
            Some(list) => exists|i: int|
                0 <= i < list@.len() && avatar_matches(
                    entries_view(#[trigger] list@[i]@),
                    target_id(c),
                    c.avatar_level,
                    c.avatar_constellation,
                ),
            None => false,
        },
        ConditionField::HasNameCard => match info.show_name_card_id_list {
            Some(list) => exists|i: int|
                0 <= i < list@.len() && (#[trigger] list@[i])@.as_i64() == Some(target_id(c)),
            None => false,
        },
        ConditionField::SpiralAbyss => abyss_data_current(region, fetched_at, now) && compare_holds(
            abyss_progress(info),
            target_id(c) as int,
            c.operator,
            c.value_end,
        ),
        ConditionField::TowerStarIndex => abyss_data_current(region, fetched_at, now)
            && compare_holds(
            int_or_zero(entries_view(info.fields@), "towerStarIndex"@),
            target_id(c) as int,
            c.operator,
            c.value_end,
        ),
        _ => compare_holds(
            int_or_zero(entries_view(info.fields@), field_key(c.field)),
            target_id(c) as int,
            c.operator,
            c.value_end,
        ),
    }
}

/// Whether every condition holds of a player.
pub open spec fn all_conditions_hold(
    conditions: Seq<Condition>,
    info: PlayerInfo,
    region: Option<Seq<char>>,
    fetched_at: Option<i64>,
    now: int,
) -> bool {
    forall|i: int|
        0 <= i < conditions.len() ==> condition_holds(
            #[trigger] conditions[i]@,
            info,
            region,
            fetched_at,
            now,
        )
}

/// The view of an optional string.
pub open spec fn opt_str_view(s: Option<&str>) -> Option<Seq<char>> {
    match s {
        Some(x) => Some(x@),
        None => None,
    }
}

/// Whether the abyss progress of a player fits in an `i64`, as evaluating
/// it needs.
pub open spec fn abyss_progress_fits(info: PlayerInfo) -> bool {
    &&& i64::MIN <= int_or_zero(entries_view(info.fields@), "towerFloorIndex"@) * 10 <= i64::MAX
    &&& i64::MIN <= abyss_progress(info) <= i64::MAX
}

/// Whether a list of conditions can be evaluated against a player without
/// overflow: abyss progress is computed only for abyss conditions.
pub open spec fn evaluable(conditions: Seq<Condition>, info: PlayerInfo) -> bool {
    (exists|i: int|
        0 <= i < conditions.len() && (#[trigger] conditions[i]).field == ConditionField::SpiralAbyss)
        ==> abyss_progress_fits(info)
}

/// The reset schedule of a region does not depend on how the region's ASCII
/// name is cased: `"na"` and `"NA"` name the same schedule.
pub proof fn region_case_does_not_matter(a: Seq<char>, b: Seq<char>, now: int)
    requires
        is_ascii_text(a),
        eq_ignore_ascii_case_seq(a, b),
    ensures
        uppercase(a) == uppercase(b),
        last_abyss_reset(uppercase(a), now) == last_abyss_reset(uppercase(b), now),
{
    assert forall|i: int| 0 <= i < b.len() implies (#[trigger] b[i] as u32) < 128 by {
        assert((a[i] as u32) < 128);
        assert(ascii_lower(a[i]) == ascii_lower(b[i]));
    }
    assert forall|i: int| 0 <= i < a.len() implies ascii_upper(#[trigger] a[i]) == ascii_upper(b[i]) by {
        assert((a[i] as u32) < 128);
        assert(ascii_lower(a[i]) == ascii_lower(b[i]));
    }
    assert(a.map_values(|c: char| ascii_upper(c)) =~= b.map_values(|c: char| ascii_upper(c)));
}

/// What each comparison means: `=`, `>`, `>=`, `<`, `<=` on the player's
/// value against the condition's, and an inclusive range from the value to
/// the end (the value itself when the end is absent or not an integer).
pub proof fn comparisons_mean_what_they_say(a: int, e: int, v: Option<JsonValueView>)
    ensures
        compare_holds(a, e, ConditionOperator::Eq, v) == (a == e),
        compare_holds(a, e, ConditionOperator::Gt, v) == (a > e),
        compare_holds(a, e, ConditionOperator::Gte, v) == (a >= e),
        compare_holds(a, e, ConditionOperator::Lt, v) == (a < e),
        compare_holds(a, e, ConditionOperator::Lte, v) == (a <= e),
        v matches Some(JsonValueView::Int(end)) ==> compare_holds(a, e, ConditionOperator::Between, v)
            == (e <= a && a <= end),
        !(v matches Some(JsonValueView::Int(_))) ==> compare_holds(a, e, ConditionOperator::Between, v)
            == (a == e),
        compare_holds(a, e, ConditionOperator::Lte, v) == (compare_holds(a, e, ConditionOperator::Lt, v)
            || compare_holds(a, e, ConditionOperator::Eq, v)),
        compare_holds(a, e, ConditionOperator::Gte, v) == !compare_holds(a, e, ConditionOperator::Lt, v),
        compare_holds(a, e, ConditionOperator::Gt, v) == !compare_holds(a, e, ConditionOperator::Lte, v),
{
}

/// A condition on a plain stat (Adventure Rank, World Level, achievements,
/// friendship count) compares the player's stat under the field's key (0
/// when absent) with the condition's integer, by the condition's operator.
pub proof fn stat_conditions_compare_the_stat(
    c: ConditionView,
    info: PlayerInfo,
    region: Option<Seq<char>>,
    fetched_at: Option<i64>,
    now: int,
    target: i64,
)
    requires
        c.field == ConditionField::Level || c.field == ConditionField::WorldLevel || c.field
            == ConditionField::FinishAchievementNum || c.field == ConditionField::FetterCount,
        c.value == JsonValueView::Int(target),
    ensures
        ({
            let a = match lookup(entries_view(info.fields@), field_key(c.field)) {
                JsonValueView::Int(x) => x as int,
                _ => 0int,
            };
            let e = target as int;
            let end = match c.value_end {
                Some(JsonValueView::Int(x)) => x as int,
                _ => e,
            };
            condition_holds(c, info, region, fetched_at, now) == match c.operator {
                ConditionOperator::Eq => a == e,
                ConditionOperator::Gt => a > e,
                ConditionOperator::Gte => a >= e,
                ConditionOperator::Lt => a < e,
                ConditionOperator::Lte => a <= e,
                ConditionOperator::Between => e <= a && a <= end,
            }
        }),
{
}

/// Resets come at least every sixteen days: the reset picked for an instant
/// is at most sixteen days before it.
pub proof fn abyss_reset_is_recent(region: Seq<char>, now: int)
    requires
        abyss_schedule_covers(now),
    ensures
        now - 16 * 86400 <= last_abyss_reset(region, now) <= now,
{
    abyss_reset_not_after_now(region, now);
    lemma_month_exists(MIN_YEAR as int + 1, 1, now);
    let ym = month_of(now);
    let (y, m) = ym;
    let k = month_index(y, m);
    let p = prev_month(y, m);
    let nm = next_month(y, m);
    lemma_resets_of_month(region, y, m);
    lemma_resets_of_month(region, p.0, p.1);
    lemma_resets_of_month(region, nm.0, nm.1);
    lemma_month_start_of(y, m);
    lemma_month_start_step(k - 1);
    lemma_month_start_step(k);
    lemma_month_at_valid(k - 1);
    lemma_month_at_valid(k);
    lemma_month_at_index(p.0, p.1);
    lemma_month_at_index(y, m);
    lemma_next_month_index(y, m);
    lemma_month_start_of(nm.0, nm.1);
    lemma_days_in_month_bounds(y, m);
    lemma_days_in_month_bounds(p.0, p.1);
    assert(month_index(p.0, p.1) == k - 1);
}

/// A player meets an empty list of conditions.
pub proof fn no_conditions_always_hold(
    info: PlayerInfo,
    region: Option<Seq<char>>,
    fetched_at: Option<i64>,
    now: int,
)
    ensures
        all_conditions_hold(Seq::empty(), info, region, fetched_at, now),
{
}

/// Conditions combine with AND: a player meets two lists of conditions
/// together exactly when it meets each.
pub proof fn conditions_combine_with_and(
    a: Seq<Condition>,
    b: Seq<Condition>,
    info: PlayerInfo,
    region: Option<Seq<char>>,
    fetched_at: Option<i64>,
    now: int,
)
    ensures
        all_conditions_hold(a + b, info, region, fetched_at, now) == (all_conditions_hold(
            a,
            info,
            region,
            fetched_at,
            now,
        ) && all_conditions_hold(b, info, region, fetched_at, now)),
{
    if all_conditions_hold(a + b, info, region, fetched_at, now) {
        assert forall|i: int| 0 <= i < a.len() implies condition_holds(
            #[trigger] a[i]@,
            info,
            region,
            fetched_at,
            now,
        ) by {
            assert((a + b)[i] == a[i]);
        }
        assert forall|i: int| 0 <= i < b.len() implies condition_holds(
            #[trigger] b[i]@,
            info,
            region,
            fetched_at,
            now,
        ) by {
            assert((a + b)[a.len() + i] == b[i]);
        }
    }
}

/// Spiral Abyss progress and stars fetched before the region's most recent
/// reset never meet a condition: they belong to a finished cycle.
pub proof fn stale_abyss_data_never_qualifies(
    c: ConditionView,
    info: PlayerInfo,
    region: Option<Seq<char>>,
    fetched: i64,
    now: int,
)
    requires
        c.field == ConditionField::SpiralAbyss || c.field == ConditionField::TowerStarIndex,
        abyss_schedule_covers(now),
        fetched < last_abyss_reset(
            uppercase(
                match region {
                    Some(s) => s,
                    None => "NA"@,
                },
            ),
            now,
        ),
    ensures
        !condition_holds(c, info, region, Some(fetched), now),
{
}

fn any_avatar_matches(
    list: &Vec<JsonObject>,
    target: i64,
    min_level: Option<i64>,
    min_constellation: Option<i64>,
) -> (r: bool)
    ensures
        r == exists|i: int|
            0 <= i < list@.len() && avatar_matches(
                entries_view(#[trigger] list@[i]@),
                target,
                min_level,
                min_constellation,
            ),
{
    let n: usize = list.len();
    let mut i: usize = 0;
    while i < n
        invariant
            n == list@.len(),
            i <= n,
            forall|k: int|
                0 <= k < i ==> !avatar_matches(entries_view(#[trigger] list@[k]@), target, min_level, min_constellation),
        decreases n - i,
    {
        let a: &JsonObject = &list[i];
        let mut ok: bool = get_i64(a, "avatarId") == Some(target);
        if ok {
            if let Some(l) = min_level {
                let lv: i64 = match get_i64(a, "level") {
                    Some(v) => v,
                    None => 0,
                };
                if lv < l {
                    ok = false;
                }
            }
        }
        if ok {
            if let Some(c) = min_constellation {
                let tl: i64 = match get_i64(a, "talentLevel") {
                    Some(v) => v,
                    None => 0,
                };
                if tl < c {
                    ok = false;
                }
            }
        }
        if ok {
            assert(avatar_matches(entries_view(list@[i as int]@), target, min_level, min_constellation));
            return true;
        }
        i = i + 1;
    }
    false
}

fn any_name_card(list: &Vec<JsonValue>, target: i64) -> (r: bool)
    ensures
        r == exists|i: int| 0 <= i < list@.len() && (#[trigger] list@[i])@.as_i64() == Some(target),
{
    let n: usize = list.len();
    let mut i: usize = 0;
    while i < n
        invariant
            n == list@.len(),
            i <= n,
            forall|k: int| 0 <= k < i ==> (#[trigger] list@[k])@.as_i64() != Some(target),
        decreases n - i,
    {
        if list[i].as_i64() == Some(target) {
            return true;
        }
        i = i + 1;
    }
    false
}

fn abyss_current(region: Option<&str>, fetched_at: Option<i64>, now: i64) -> (r: bool)
    requires
        abyss_schedule_covers(now as int),
    ensures
        r == abyss_data_current(opt_str_view(region), fetched_at, now as int),
{
    match fetched_at {
        None => true,
        Some(fetched) => {
            let r: &str = match region {
                Some(s) => s,
                None => "NA",
            };
            let upper: String = to_uppercase(r);
            let earliest: i64 = timestamp_at(MIN_YEAR + 1, 1, 1, 0);
            if now < earliest {
                return true;
            }
            let last_reset: i64 = last_abyss_reset_at(upper.as_str(), now);
            fetched >= last_reset
        },
    }
}

fn evaluate_single(
    condition: &Condition,
    player_info: &PlayerInfo,
    region: Option<&str>,
    fetched_at: Option<i64>,
    now: i64,
) -> (r: bool)
    requires
        condition.field == ConditionField::SpiralAbyss ==> abyss_progress_fits(*player_info),
        abyss_schedule_covers(now as int),
    ensures
        r == condition_holds(condition@, *player_info, opt_str_view(region), fetched_at, now as int),
{
    match &condition.field {
        ConditionField::Region => {
            let actual: &str = match region {
                Some(s) => s,
                None => "",
            };
            let expected: &str = match condition.value.as_str() {
                Some(s) => s,
                None => "",
            };
            eq_ignore_ascii_case(actual, expected)
        },
        ConditionField::HasAvatar => {
            let target_id: i64 = match condition.value.as_i64() {
                Some(v) => v,
                None => 0,
            };
            match &player_info.show_avatar_info_list {
                Some(list) => any_avatar_matches(
                    list,
                    target_id,
                    condition.avatar_level,
                    condition.avatar_constellation,
                ),
                None => false,
            }
        },
        ConditionField::HasNameCard => {
            let target_id: i64 = match condition.value.as_i64() {
                Some(v) => v,
                None => 0,
            };
            match &player_info.show_name_card_id_list {
                Some(list) => any_name_card(list, target_id),
                None => false,
            }
        },
        ConditionField::SpiralAbyss => {
            // Freshness gate: data must be fetched after the most recent Abyss reset
            if !abyss_current(region, fetched_at, now) {
                return false;
            }
            let floor: i64 = match get_i64(&player_info.fields, "towerFloorIndex") {
                Some(v) => v,
                None => 0,
            };
            let chamber: i64 = match get_i64(&player_info.fields, "towerLevelIndex") {
                Some(v) => v,
                None => 0,
            };
            let actual: i64 = floor * 10 + chamber;
            let expected: i64 = match condition.value.as_i64() {
                Some(v) => v,
                None => 0,
            };
            compare(actual, expected, &condition.operator, &condition.value_end)
        },
        ConditionField::TowerStarIndex => {
            // Freshness gate: resets on the same cycle as Spiral Abyss
            if !abyss_current(region, fetched_at, now) {
                return false;
            }
            let actual: i64 = match get_i64(&player_info.fields, "towerStarIndex") {
                Some(v) => v,
                None => 0,
            };
            let expected: i64 = match condition.value.as_i64() {
                Some(v) => v,
                None => 0,
            };
            compare(actual, expected, &condition.operator, &condition.value_end)
        },
        numeric_field => {
            let field_name: &str = numeric_field.json_key();
            let actual: i64 = match get_i64(&player_info.fields, field_name) {
                Some(v) => v,
                None => 0,
            };
            let expected: i64 = match condition.value.as_i64() {
                Some(v) => v,
                None => 0,
            };
            compare(actual, expected, &condition.operator, &condition.value_end)
        },
    }
}

/// Evaluate all conditions against player data at instant `now`. All must
/// pass (AND logic).
pub fn evaluate_conditions_at(
    conditions: &[Condition],
    player_info: &PlayerInfo,
    region: Option<&str>,
    fetched_at: Option<i64>,
    now: i64,
) -> (r: bool)
    requires
        evaluable(conditions@, *player_info),
        abyss_schedule_covers(now as int),
    ensures
        r == all_conditions_hold(conditions@, *player_info, opt_str_view(region), fetched_at, now as int),
{
    let n: usize = conditions.len();
    let mut i: usize = 0;
    while i < n
        invariant
            n == conditions@.len(),
            i <= n,
            evaluable(conditions@, *player_info),
            abyss_schedule_covers(now as int),
            forall|k: int|
                0 <= k < i ==> condition_holds(
                    #[trigger] conditions@[k]@,
                    *player_info,
                    opt_str_view(region),
                    fetched_at,
                    now as int,
                ),
        decreases n - i,
    {
        if !evaluate_single(&conditions[i], player_info, region, fetched_at, now) {
            return false;
        }
        i = i + 1;
    }
    true
}

/// Evaluate all conditions against player data, now. All must pass (AND
/// logic).
pub fn evaluate_conditions(
    conditions: &[Condition],
    player_info: &PlayerInfo,
    region: Option<&str>,
    fetched_at: Option<i64>,
) -> (r: bool)
    requires
        evaluable(conditions@, *player_info),
    ensures
        exists|now: int|
            abyss_schedule_covers(now) && r == all_conditions_hold(
                conditions@,
                *player_info,
                opt_str_view(region),
                fetched_at,
                now,
            ),
{
    let now: i64 = now_timestamp();
    proof {
        lemma_clock_covered(now as int);
    }
    evaluate_conditions_at(conditions, player_info, region, fetched_at, now)
}

} // verus!
