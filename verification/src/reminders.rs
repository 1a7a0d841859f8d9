//! Next-occurrence computation for time-zone anchored reminders.
//!
//! A reminder fires at a wall-clock time of its zone: the wall-clock reading
//! of its anchor instant, repeated daily, weekly, monthly or yearly. A
//! wall-clock time that the zone skips (spring-forward gap) moves forward to
//! the first minute that exists, at most three hours later; a wall-clock time
//! that occurs twice (fall-back overlap) fires once, at its earlier instant.
//! Reminders of archived or trashed notes are suppressed.
use crate::calendar::{
    add_days, date_add_months, day_of, ms_in_range, spec_date_add_months, spec_tz_known,
    spec_tz_local_of_utc, spec_tz_utc_of_local, time_of_day, tz_is_known, tz_local_of_utc,
    tz_utc_of_local, utc_millis_valid, LocalTimeMapping, DAY_MS, MAX_DAY, MAX_MS, MINUTE_MS,
    MIN_DAY, MIN_MS,
};
use vstd::arithmetic::div_mod::{lemma_div_is_ordered, lemma_fundamental_div_mod, lemma_fundamental_div_mod_converse};
use vstd::prelude::*;

verus! {

/// How often a reminder repeats.
#[derive(Debug, Clone, Copy, PartialEq, Eq, Structural)]
pub enum Recurrence {
    /// Fires once, at the anchor.
    Once,
    Daily,
    Weekly,
    Monthly,
    Yearly,
}

/// Lifecycle state of the note a reminder belongs to.
#[derive(Debug, Clone, Copy, PartialEq, Eq, Structural)]
pub enum NoteState {
    Active,
    Archived,
    Trashed,
}

/// A reminder: its anchor instant, the zone whose wall clock it follows, and
/// how it repeats.
#[derive(Debug, Clone, PartialEq, Eq)]
pub struct ReminderSpec {
    pub wall_clock_epoch_ms: i64,
    pub tzid: String,
    pub recurrence: Recurrence,
}

/// The next instant a reminder fires, if any, and whether it is suppressed.
#[derive(Debug, Clone, PartialEq, Eq)]
pub struct NextTriggerResult {
    pub next_epoch_ms: Option<i64>,
    pub suppressed: bool,
}

/// Why no next occurrence could be computed.
#[derive(Debug, Clone, PartialEq, Eq)]
pub enum ReminderError {
    /// The zone name is not in the time-zone database.
    InvalidTimezone(String),
    /// The epoch milliseconds lie outside the representable range.
    InvalidEpoch(i64),
    /// A skipped wall-clock time found no existing minute within three hours.
    UnresolvableLocalTime,
}

/// How many successive occurrences the search examines at most.
pub const SEARCH_WINDOW: u32 = 200_000;

/// How many minutes a skipped wall-clock time moves forward at most.
pub const MAX_GAP_SHIFT_MINUTES: i64 = 180;

/// The instant a wall-clock time resolves to.
#[derive(Debug, Clone, Copy, PartialEq, Eq)]
pub enum Resolution {
    /// It resolves to this UTC instant.
    At(i64),
    /// No minute within the shift window exists in the zone.
    Unresolvable,
    /// Shifting leaves chrono's range (where the computation panics).
    Overflow,
}

/// What computing the next occurrence comes to.
#[derive(Debug, Clone, Copy, PartialEq, Eq)]
pub enum TriggerOutcome {
    Suppressed,
    InvalidTimezone,
    InvalidEpoch(i64),
    Unresolvable,
    Next(Option<i64>),
    /// The computation panics (a wall-clock reading leaves chrono's range).
    Panics,
}

/// The instant a wall-clock mapping picks: the only one, or the earlier of two.
pub open spec fn earliest_instant(mapping: LocalTimeMapping) -> Option<i64> {
    match mapping {
        LocalTimeMapping::Single(u) => Some(u),
        LocalTimeMapping::Ambiguous(a, _) => Some(a),
        LocalTimeMapping::Gap => None,
    }
}

/// Resolution of a skipped wall-clock time `local`, trying `minutes`,
/// `minutes + 1`, ... up to `MAX_GAP_SHIFT_MINUTES` minutes later.
pub open spec fn resolve_shifted(tzid: Seq<char>, local: i64, minutes: int) -> Resolution
    decreases MAX_GAP_SHIFT_MINUTES + 1 - minutes,
{
    if minutes > MAX_GAP_SHIFT_MINUTES {
        Resolution::Unresolvable
    } else if local + minutes * MINUTE_MS > MAX_MS {
        Resolution::Overflow
    } else {
        match earliest_instant(spec_tz_utc_of_local(tzid, (local + minutes * MINUTE_MS) as i64)) {
            Some(u) => Resolution::At(u),
            None => resolve_shifted(tzid, local, minutes + 1),
        }
    }
}

/// The instant the wall-clock time `local` of zone `tzid` fires at: its only
/// instant, the earlier of two, or for a skipped time the first existing
/// minute after it.
pub open spec fn resolve_local(tzid: Seq<char>, local: i64) -> Resolution {
    match earliest_instant(spec_tz_utc_of_local(tzid, local)) {
        Some(u) => Resolution::At(u),
        None => resolve_shifted(tzid, local, 1),
    }
}

/// The date (day number) of occurrence `index` of a reminder anchored on day `day`.
pub open spec fn occurrence_day(day: int, recurrence: Recurrence, index: u32) -> Option<int> {
    match recurrence {
        Recurrence::Once => if index == 0 { Some(day) } else { None },
        Recurrence::Daily => add_days(day, index as int),
        Recurrence::Weekly => add_days(day, 7 * index),
        Recurrence::Monthly => match spec_date_add_months(day as i64, index) {
            Some(d) => Some(d as int),
            None => None,
        },
        Recurrence::Yearly => if 12 * index > u32::MAX {
            None
        } else {
            match spec_date_add_months(day as i64, (12 * index) as u32) {
                Some(d) => Some(d as int),
                None => None,
            }
        },
    }
}

/// The wall-clock time of occurrence `index`: its date at the anchor's time of day.
pub open spec fn candidate_local(anchor_local: i64, recurrence: Recurrence, index: u32) -> Option<i64> {
    match occurrence_day(day_of(anchor_local as int), recurrence, index) {
        Some(d) => Some((d * DAY_MS + time_of_day(anchor_local as int)) as i64),
        None => None,
    }
}

/// The first occurrence worth examining: for daily and weekly reminders the
/// one on or just before the current date; otherwise the first.
pub open spec fn start_index(recurrence: Recurrence, anchor_local: i64, now_local: i64) -> int {
    if now_local <= anchor_local {
        0
    } else {
        let day_diff = day_of(now_local as int) - day_of(anchor_local as int);
        match recurrence {
            Recurrence::Daily => day_diff,
            Recurrence::Weekly => day_diff / 7,
            _ => 0,
        }
    }
}

/// The search over occurrences `index..end`: the first whose instant is at or
/// after `now`. It stops with no result at the end of the window or at the
/// first occurrence outside the calendar, and with an error at the first one
/// that does not resolve.
pub open spec fn search_from(
    tzid: Seq<char>,
    anchor_local: i64,
    recurrence: Recurrence,
    now: i64,
    end: int,
    index: int,
) -> TriggerOutcome
    decreases end - index,
{
    if index >= end {
        TriggerOutcome::Next(None)
    } else {
        match candidate_local(anchor_local, recurrence, index as u32) {
            None => TriggerOutcome::Next(None),
            Some(c) => match resolve_local(tzid, c) {
                Resolution::Overflow => TriggerOutcome::Panics,
                Resolution::Unresolvable => TriggerOutcome::Unresolvable,
                Resolution::At(u) => if u >= now {
                    TriggerOutcome::Next(Some(u))
                } else {
                    search_from(tzid, anchor_local, recurrence, now, end, index + 1)
                },
            },
        }
    }
}

/// What computing the next occurrence of `spec` at instant `now` comes to,
/// for a note in `state`.
pub open spec fn trigger_outcome(spec: ReminderSpec, now: i64, state: NoteState) -> TriggerOutcome {
    let tzid = spec.tzid@;
    let anchor = spec.wall_clock_epoch_ms;
    if state != NoteState::Active {
        TriggerOutcome::Suppressed
    } else if !spec_tz_known(tzid) {
        TriggerOutcome::InvalidTimezone
    } else if !ms_in_range(anchor as int) {
        TriggerOutcome::InvalidEpoch(anchor)
    } else if !ms_in_range(now as int) {
        TriggerOutcome::InvalidEpoch(now)
    } else {
        match spec_tz_local_of_utc(tzid, anchor) {
            None => TriggerOutcome::Panics,
            Some(anchor_local) => if spec.recurrence == Recurrence::Once {
                TriggerOutcome::Next(if anchor >= now { Some(anchor) } else { None })
            } else {
                match spec_tz_local_of_utc(tzid, now) {
                    None => TriggerOutcome::Panics,
                    Some(now_local) => {
                        let start = start_index(spec.recurrence, anchor_local, now_local);
                        search_from(tzid, anchor_local, spec.recurrence, now, start + SEARCH_WINDOW, start)
                    },
                }
            },
        }
    }
}

/// Whether `res` is what `outcome` says the computation returns.
pub open spec fn returns_outcome(
    outcome: TriggerOutcome,
    tzid: Seq<char>,
    res: Result<NextTriggerResult, ReminderError>,
) -> bool {
    match outcome {
        TriggerOutcome::Suppressed => res == Ok::<NextTriggerResult, ReminderError>(
            NextTriggerResult { next_epoch_ms: None, suppressed: true },
        ),
        TriggerOutcome::InvalidTimezone => res matches Err(ReminderError::InvalidTimezone(s)) && s@
            == tzid,
        TriggerOutcome::InvalidEpoch(e) => res == Err::<NextTriggerResult, ReminderError>(
            ReminderError::InvalidEpoch(e),
        ),
        TriggerOutcome::Unresolvable => res == Err::<NextTriggerResult, ReminderError>(
            ReminderError::UnresolvableLocalTime,
        ),
        TriggerOutcome::Next(n) => res == Ok::<NextTriggerResult, ReminderError>(
            NextTriggerResult { next_epoch_ms: n, suppressed: false },
        ),
        TriggerOutcome::Panics => false,
    }
}

/// Splits a naive date-time into its day number and time of day.
fn day_and_time(ms: i64) -> (r: (i64, i64))
    requires
        ms_in_range(ms as int),
    ensures
        r.0 == day_of(ms as int),
        r.1 == time_of_day(ms as int),
        MIN_DAY <= r.0 <= MAX_DAY,
        0 <= r.1 < DAY_MS,
{
    let offset = ms - MIN_MS;
    let days = offset / DAY_MS;
    let time = offset % DAY_MS;
    proof {
        lemma_fundamental_div_mod(offset as int, DAY_MS as int);
        assert((days + MIN_DAY) * DAY_MS == days * DAY_MS + MIN_DAY * DAY_MS) by (nonlinear_arith);
        lemma_fundamental_div_mod_converse(ms as int, DAY_MS as int, days + MIN_DAY, time as int);
        assert(days <= (MAX_MS - MIN_MS) as int / DAY_MS as int) by {
            vstd::arithmetic::div_mod::lemma_div_is_ordered(offset as int, (MAX_MS - MIN_MS) as int, DAY_MS as int);
        }
    }
    (days + MIN_DAY, time)
}

/// `NaiveDate::checked_add_days(Days::new(n))` on day numbers.
fn checked_add_days(day: i64, n: u64) -> (r: Option<i64>)
    requires
        MIN_DAY <= day <= MAX_DAY,
    ensures
        r matches Some(d) ==> add_days(day as int, n as int) == Some(d as int),
        r is None ==> add_days(day as int, n as int) is None,
{
    if n > 2_147_483_647 {
        None
    } else {
        let sum = day + n as i64;
        if sum < MIN_DAY || sum > MAX_DAY {
            None
        } else {
            Some(sum)
        }
    }
}

/// The wall-clock time of occurrence `index` of a reminder anchored at the
/// wall-clock time `anchor_local`.
fn build_candidate(anchor_local: i64, recurrence: Recurrence, index: u32) -> (r: Option<i64>)
    requires
        ms_in_range(anchor_local as int),
    ensures
        r == candidate_local(anchor_local, recurrence, index),
        r matches Some(c) ==> ms_in_range(c as int),
{
    let (day, time) = day_and_time(anchor_local);
    let date = match recurrence {
        Recurrence::Once => if index == 0 { Some(day) } else { None },
        Recurrence::Daily => checked_add_days(day, index as u64),
        Recurrence::Weekly => checked_add_days(day, (index as u64) * 7),
        Recurrence::Monthly => date_add_months(day, index),
        Recurrence::Yearly => match index.checked_mul(12) {
            Some(months) => date_add_months(day, months),
            None => None,
        },
    };
    match date {
        Some(d) => {
            proof {
                assert(MIN_DAY * DAY_MS <= d * DAY_MS <= MAX_DAY * DAY_MS) by (nonlinear_arith)
                    requires MIN_DAY <= d <= MAX_DAY;
            }
            Some(d * DAY_MS + time)
        },
        None => None,
    }
}

/// The instant the wall-clock time `local` of zone `tzid` fires at: the
/// earlier instant of a repeated time, and for a skipped time the first
/// existing minute up to three hours later.
pub fn resolve_local_datetime(tzid: &str, local: i64) -> (r: Resolution)
    requires
        spec_tz_known(tzid@),
        ms_in_range(local as int),
    ensures
        r == resolve_local(tzid@, local),
        spec_tz_utc_of_local(tzid@, local) matches LocalTimeMapping::Ambiguous(a, _) ==> r
            == Resolution::At(a),
        spec_tz_utc_of_local(tzid@, local) matches LocalTimeMapping::Single(u) ==> r
            == Resolution::At(u),
{
    match tz_utc_of_local(tzid, local) {
        LocalTimeMapping::Single(u) => Resolution::At(u),
        LocalTimeMapping::Ambiguous(a, _) => Resolution::At(a),
        LocalTimeMapping::Gap => {
            let mut minutes: i64 = 1;
            while minutes <= MAX_GAP_SHIFT_MINUTES
                invariant
                    1 <= minutes <= MAX_GAP_SHIFT_MINUTES + 1,
                    spec_tz_known(tzid@),
                    ms_in_range(local as int),
                    spec_tz_utc_of_local(tzid@, local) == LocalTimeMapping::Gap,
                    resolve_shifted(tzid@, local, minutes as int) == resolve_shifted(tzid@, local, 1),
                decreases MAX_GAP_SHIFT_MINUTES + 1 - minutes,
            {
                if local > MAX_MS - minutes * MINUTE_MS {
                    return Resolution::Overflow;
                }
                let shifted = local + minutes * MINUTE_MS;
                match tz_utc_of_local(tzid, shifted) {
                    LocalTimeMapping::Single(u) => return Resolution::At(u),
                    LocalTimeMapping::Ambiguous(a, _) => return Resolution::At(a),
                    LocalTimeMapping::Gap => {},
                }
                minutes = minutes + 1;
            }
            Resolution::Unresolvable
        },
    }
}

/// The first occurrence index worth examining.
fn initial_index(recurrence: Recurrence, anchor_local: i64, now_local: i64) -> (r: u32)
    requires
        ms_in_range(anchor_local as int),
        ms_in_range(now_local as int),
    ensures
        r as int == start_index(recurrence, anchor_local, now_local),
        r <= MAX_DAY - MIN_DAY,
{
    if now_local <= anchor_local {
        return 0;
    }
    let (anchor_day, _) = day_and_time(anchor_local);
    let (now_day, _) = day_and_time(now_local);
    proof {
        lemma_div_is_ordered(anchor_local as int, now_local as int, DAY_MS as int);
    }
    let day_diff = now_day - anchor_day;
    match recurrence {
        Recurrence::Daily => day_diff as u32,
        Recurrence::Weekly => (day_diff / 7) as u32,
        _ => 0,
    }
}

/// Computes what `trigger_outcome` says, returning `Panics` exactly where
/// the computation cannot be completed.
fn evaluate(spec: &ReminderSpec, now_epoch_ms: i64, state: NoteState) -> (r: TriggerOutcome)
    ensures
        r == trigger_outcome(*spec, now_epoch_ms, state),
{
    match state {
        NoteState::Archived | NoteState::Trashed => return TriggerOutcome::Suppressed,
        NoteState::Active => {},
    }
    let tzid = spec.tzid.as_str();
    if !tz_is_known(tzid) {
        return TriggerOutcome::InvalidTimezone;
    }
    let anchor = spec.wall_clock_epoch_ms;
    if !utc_millis_valid(anchor) {
        return TriggerOutcome::InvalidEpoch(anchor);
    }
    if !utc_millis_valid(now_epoch_ms) {
        return TriggerOutcome::InvalidEpoch(now_epoch_ms);
    }
    let anchor_local = match tz_local_of_utc(tzid, anchor) {
        Some(l) => l,
        None => return TriggerOutcome::Panics,
    };
    if spec.recurrence == Recurrence::Once {
        return TriggerOutcome::Next(if anchor >= now_epoch_ms { Some(anchor) } else { None });
    }
    let now_local = match tz_local_of_utc(tzid, now_epoch_ms) {
        Some(l) => l,
        None => return TriggerOutcome::Panics,
    };
    let start = initial_index(spec.recurrence, anchor_local, now_local);
    let end = start + SEARCH_WINDOW;
    let recurrence = spec.recurrence;
    let mut index = start;
    while index < end
        invariant
            start <= index <= end,
            end == start + SEARCH_WINDOW,
            spec_tz_known(tzid@),
            ms_in_range(anchor_local as int),
            trigger_outcome(*spec, now_epoch_ms, state) == search_from(tzid@, anchor_local, recurrence, now_epoch_ms, end as int, start as int),
            search_from(tzid@, anchor_local, recurrence, now_epoch_ms, end as int, index as int)
                == search_from(tzid@, anchor_local, recurrence, now_epoch_ms, end as int, start as int),
        decreases end - index,
    {
        match build_candidate(anchor_local, recurrence, index) {
            None => return TriggerOutcome::Next(None),
            Some(candidate) => match resolve_local_datetime(tzid, candidate) {
                Resolution::Overflow => return TriggerOutcome::Panics,
                Resolution::Unresolvable => return TriggerOutcome::Unresolvable,
                Resolution::At(instant) => {
                    if instant >= now_epoch_ms {
                        return TriggerOutcome::Next(Some(instant));
                    }
                },
            },
        }
        index = index + 1;
    }
    TriggerOutcome::Next(None)
}

/// Converts an outcome that is not `Panics` into the value returned.
fn outcome_result(outcome: TriggerOutcome, spec: &ReminderSpec) -> (res: Result<NextTriggerResult, ReminderError>)
    requires
        outcome != TriggerOutcome::Panics,
    ensures
        returns_outcome(outcome, spec.tzid@, res),
{
    match outcome {
        TriggerOutcome::Suppressed => Ok(NextTriggerResult { next_epoch_ms: None, suppressed: true }),
        TriggerOutcome::InvalidTimezone => Err(ReminderError::InvalidTimezone(spec.tzid.clone())),
        TriggerOutcome::InvalidEpoch(e) => Err(ReminderError::InvalidEpoch(e)),
        TriggerOutcome::Unresolvable => Err(ReminderError::UnresolvableLocalTime),
        TriggerOutcome::Next(n) => Ok(NextTriggerResult { next_epoch_ms: n, suppressed: false }),
        TriggerOutcome::Panics => Err(ReminderError::UnresolvableLocalTime),
    }
}

/// An occurrence the search finds is never before `now`.
proof fn lemma_search_not_before_now(
    tzid: Seq<char>,
    anchor_local: i64,
    recurrence: Recurrence,
    now: i64,
    end: int,
    index: int,
)
    ensures
        search_from(tzid, anchor_local, recurrence, now, end, index) matches TriggerOutcome::Next(
            Some(t),
        ) ==> t >= now,
    decreases end - index,
{
    if index < end {
        lemma_search_not_before_now(tzid, anchor_local, recurrence, now, end, index + 1);
    }
}

/// Which outcomes occur in which state, and that a found occurrence is not
/// before `now`.
pub proof fn lemma_outcome_shape(spec: ReminderSpec, now: i64, state: NoteState)
    ensures
        trigger_outcome(spec, now, state) == TriggerOutcome::Suppressed <==> state != NoteState::Active,
        trigger_outcome(spec, now, state) matches TriggerOutcome::Next(Some(t)) ==> t >= now,
{
    let tzid = spec.tzid@;
    if state == NoteState::Active && spec_tz_known(tzid) && ms_in_range(spec.wall_clock_epoch_ms as int)
        && ms_in_range(now as int) && spec.recurrence != Recurrence::Once {
        if let Some(a) = spec_tz_local_of_utc(tzid, spec.wall_clock_epoch_ms) {
            if let Some(n) = spec_tz_local_of_utc(tzid, now) {
                let start = start_index(spec.recurrence, a, n);
                lemma_search_not_before_now(tzid, a, spec.recurrence, now, start + SEARCH_WINDOW, start);
                lemma_search_never_suppressed(tzid, a, spec.recurrence, now, start + SEARCH_WINDOW, start);
            }
        }
    }
}

/// The search never reports suppression.
proof fn lemma_search_never_suppressed(
    tzid: Seq<char>,
    anchor_local: i64,
    recurrence: Recurrence,
    now: i64,
    end: int,
    index: int,
)
    ensures
        search_from(tzid, anchor_local, recurrence, now, end, index) != TriggerOutcome::Suppressed,
    decreases end - index,
{
    if index < end {
        lemma_search_never_suppressed(tzid, anchor_local, recurrence, now, end, index + 1);
    }
}

/// The instant occurrence `index` of a reminder fires at, if its date exists
/// and its wall-clock time resolves.
pub open spec fn occurrence_instant(tzid: Seq<char>, anchor_local: i64, recurrence: Recurrence, index: u32) -> Option<i64> {
    match candidate_local(anchor_local, recurrence, index) {
        Some(c) => match resolve_local(tzid, c) {
            Resolution::At(u) => Some(u),
            _ => None,
        },
        None => None,
    }
}

/// The wall-clock reading of the reminder's anchor in its zone.
pub open spec fn anchor_reading(spec: ReminderSpec) -> i64 {
    spec_tz_local_of_utc(spec.tzid@, spec.wall_clock_epoch_ms)->0
}

/// The instant occurrence `index` of the reminder `spec` fires at, if any.
pub open spec fn occurrence_of(spec: ReminderSpec, index: u32) -> Option<i64> {
    occurrence_instant(spec.tzid@, anchor_reading(spec), spec.recurrence, index)
}

/// The occurrence index the search starts from at instant `now`.
pub open spec fn search_start(spec: ReminderSpec, now: i64) -> int {
    start_index(spec.recurrence, anchor_reading(spec), spec_tz_local_of_utc(spec.tzid@, now)->0)
}

/// Whether the occurrences of `spec` fire in the order of their indices.
pub open spec fn occurrences_in_order(spec: ReminderSpec) -> bool {
    forall|i: u32, j: u32|
        i < j && #[trigger] occurrence_of(spec, i) is Some && #[trigger] occurrence_of(spec, j) is Some
            ==> occurrence_of(spec, i)->0 < occurrence_of(spec, j)->0
}

/// Whether every occurrence of `spec` before the one the search starts from
/// at `now` fires before `now`.
pub open spec fn skipped_occurrences_passed(spec: ReminderSpec, now: i64) -> bool {
    forall|j: u32|
        j < search_start(spec, now) && #[trigger] occurrence_of(spec, j) is Some ==> occurrence_of(spec, j)->0 < now
}

/// The search from `index` that finds `t` finds it at some occurrence `k` of
/// the window, and every occurrence it passed on the way fires before `now`.
proof fn lemma_search_first_found(
    tzid: Seq<char>,
    anchor_local: i64,
    recurrence: Recurrence,
    now: i64,
    end: int,
    index: int,
    t: i64,
) -> (k: int)
    requires
        0 <= index,
        search_from(tzid, anchor_local, recurrence, now, end, index) == TriggerOutcome::Next(Some(t)),
    ensures
        index <= k < end,
        occurrence_instant(tzid, anchor_local, recurrence, k as u32) == Some(t),
        t >= now,
        forall|m: u32|
            index <= m < k ==> #[trigger] occurrence_instant(tzid, anchor_local, recurrence, m) is Some
                && occurrence_instant(tzid, anchor_local, recurrence, m)->0 < now,
    decreases end - index,
{
    let c = candidate_local(anchor_local, recurrence, index as u32)->0;
    let u = resolve_local(tzid, c)->At_0;
    if u >= now {
        index
    } else {
        let k = lemma_search_first_found(tzid, anchor_local, recurrence, now, end, index + 1, t);
        assert forall|m: u32| index <= m < k implies #[trigger] occurrence_instant(tzid, anchor_local, recurrence, m) is Some
            && occurrence_instant(tzid, anchor_local, recurrence, m)->0 < now by {
            if m == index {
                assert(m == index as u32);
            }
        }
        k
    }
}

/// The start index is never negative.
proof fn lemma_start_index_nonnegative(recurrence: Recurrence, anchor_local: i64, now_local: i64)
    ensures
        start_index(recurrence, anchor_local, now_local) >= 0,
{
    if now_local > anchor_local {
        lemma_div_is_ordered(anchor_local as int, now_local as int, DAY_MS as int);
    }
}

/// The next trigger of a repeating reminder is its earliest occurrence at or
/// after `now`: it is an occurrence, it is not before `now`, and no
/// occurrence that fires at or after `now` fires before it. This holds where
/// the occurrences fire in index order and those the search skips have
/// passed, which the zone's wall clock decides.
pub proof fn lemma_next_trigger_is_earliest(spec: ReminderSpec, now: i64)
    requires
        spec.recurrence != Recurrence::Once,
        trigger_outcome(spec, now, NoteState::Active) matches TriggerOutcome::Next(Some(_)),
        occurrences_in_order(spec),
        skipped_occurrences_passed(spec, now),
    ensures
        ({
            let t = trigger_outcome(spec, now, NoteState::Active)->Next_0->0;
            &&& t >= now
            &&& exists|k: u32| occurrence_of(spec, k) == Some(t)
            &&& forall|j: u32|
                #[trigger] occurrence_of(spec, j) is Some && occurrence_of(spec, j)->0 >= now ==> t <= occurrence_of(
                    spec,
                    j,
                )->0
        }),
{
    let t = trigger_outcome(spec, now, NoteState::Active)->Next_0->0;
    let tzid = spec.tzid@;
    let al = anchor_reading(spec);
    let nl = spec_tz_local_of_utc(tzid, now)->0;
    let start = search_start(spec, now);
    lemma_start_index_nonnegative(spec.recurrence, al, nl);
    let k = lemma_search_first_found(tzid, al, spec.recurrence, now, start + SEARCH_WINDOW, start, t);
    assert(occurrence_of(spec, k as u32) == Some(t));
    assert forall|j: u32| #[trigger] occurrence_of(spec, j) is Some && occurrence_of(spec, j)->0 >= now implies t
        <= occurrence_of(spec, j)->0 by {
        if j < start {
        } else if j < k {
        } else if j == k {
            assert(j == k as u32);
        } else {
            assert(k as u32 == k);
            assert(occurrence_of(spec, k as u32) is Some);
        }
    }
}

/// The next trigger does not move earlier as time advances, and stays put
/// until it is reached: for `now1 <= now2`, the trigger found at `now2` is
/// not before the one found at `now1`, and is the same one while `now2` has
/// not passed it. For a repeating reminder this holds where the occurrences
/// fire in index order and those the search skips have passed.
pub proof fn lemma_next_trigger_monotone_in_now(spec: ReminderSpec, now1: i64, now2: i64)
    requires
        now1 <= now2,
        trigger_outcome(spec, now1, NoteState::Active) matches TriggerOutcome::Next(Some(_)),
        trigger_outcome(spec, now2, NoteState::Active) matches TriggerOutcome::Next(Some(_)),
        spec.recurrence != Recurrence::Once ==> occurrences_in_order(spec),
        spec.recurrence != Recurrence::Once ==> skipped_occurrences_passed(spec, now1),
        spec.recurrence != Recurrence::Once ==> skipped_occurrences_passed(spec, now2),
    ensures
        trigger_outcome(spec, now1, NoteState::Active)->Next_0->0 <= trigger_outcome(spec, now2, NoteState::Active)->Next_0->0,
        now2 <= trigger_outcome(spec, now1, NoteState::Active)->Next_0->0 ==> trigger_outcome(spec, now2, NoteState::Active)->Next_0->0
            == trigger_outcome(spec, now1, NoteState::Active)->Next_0->0,
{
    if spec.recurrence != Recurrence::Once {
        lemma_next_trigger_is_earliest(spec, now1);
        lemma_next_trigger_is_earliest(spec, now2);
        let t1 = trigger_outcome(spec, now1, NoteState::Active)->Next_0->0;
        let t2 = trigger_outcome(spec, now2, NoteState::Active)->Next_0->0;
        let k2 = choose|k: u32| occurrence_of(spec, k) == Some(t2);
        assert(occurrence_of(spec, k2) is Some);
        let k1 = choose|k: u32| occurrence_of(spec, k) == Some(t1);
        assert(occurrence_of(spec, k1) is Some);
    }
}

/// The next instant at or after `now_epoch_ms` at which the reminder `spec`
/// fires, for a note in `state`.
pub fn next_trigger(spec: &ReminderSpec, now_epoch_ms: i64, state: NoteState) -> (res: Result<NextTriggerResult, ReminderError>)
    requires
        trigger_outcome(*spec, now_epoch_ms, state) != TriggerOutcome::Panics,
    ensures
        returns_outcome(trigger_outcome(*spec, now_epoch_ms, state), spec.tzid@, res),
        state != NoteState::Active ==> res == Ok::<NextTriggerResult, ReminderError>(
            NextTriggerResult { next_epoch_ms: None, suppressed: true },
        ),
        res matches Ok(r) ==> (r.suppressed <==> state != NoteState::Active),
        res matches Ok(r) ==> (r.next_epoch_ms matches Some(t) ==> t >= now_epoch_ms),
{
    let outcome = evaluate(spec, now_epoch_ms, state);
    proof {
        lemma_outcome_shape(*spec, now_epoch_ms, state);
    }
    outcome_result(outcome, spec)
}

/// `next_trigger` where its computation can be completed; `None` where it
/// cannot (a wall-clock reading would leave chrono's range).
pub fn next_trigger_checked(spec: &ReminderSpec, now_epoch_ms: i64, state: NoteState) -> (res: Option<Result<NextTriggerResult, ReminderError>>)
    ensures
        res is None <==> trigger_outcome(*spec, now_epoch_ms, state) == TriggerOutcome::Panics,
        res matches Some(r) ==> returns_outcome(
            trigger_outcome(*spec, now_epoch_ms, state),
            spec.tzid@,
            r,
        ),
{
    match evaluate(spec, now_epoch_ms, state) {
        TriggerOutcome::Panics => None,
        _ => Some(next_trigger(spec, now_epoch_ms, state)),
    }
}

/// Daily and weekly occurrences advance by whole days: occurrence `j` lies
/// exactly `j - i` days (daily) or weeks (weekly) after occurrence `i`, so the
/// occurrences strictly increase.
pub proof fn lemma_daily_weekly_occurrences_advance(anchor_local: i64, recurrence: Recurrence, i: u32, j: u32)
    requires
        recurrence == Recurrence::Daily || recurrence == Recurrence::Weekly,
        i < j,
        candidate_local(anchor_local, recurrence, i) is Some,
        candidate_local(anchor_local, recurrence, j) is Some,
    ensures
        candidate_local(anchor_local, recurrence, j)->0 - candidate_local(anchor_local, recurrence, i)->0
            == (j - i) * (if recurrence == Recurrence::Daily { 1int } else { 7int }) * DAY_MS,
        candidate_local(anchor_local, recurrence, i)->0 < candidate_local(anchor_local, recurrence, j)->0,
{
    let day = day_of(anchor_local as int);
    let step: int = if recurrence == Recurrence::Daily { 1 } else { 7 };
    let di = occurrence_day(day, recurrence, i)->0;
    let dj = occurrence_day(day, recurrence, j)->0;
    assert(dj - di == (j - i) * step);
    assert(dj * DAY_MS - di * DAY_MS == (j - i) * step * DAY_MS) by (nonlinear_arith)
        requires dj - di == (j - i) * step;
    assert((j - i) * step * DAY_MS > 0) by (nonlinear_arith)
        requires j - i > 0, step > 0;
}

/// A yearly reminder moves its anchor date by whole calendar years: its
/// occurrence `k` falls on the date `12 * k` months after the anchor date
/// (same month and day, clamped to a shorter month), exactly where the monthly
/// occurrence `12 * k` falls. Beyond `u32::MAX` months there is no occurrence.
pub proof fn lemma_yearly_occurrences_are_calendar_years(anchor_local: i64, k: u32)
    ensures
        12 * k <= u32::MAX ==> occurrence_day(day_of(anchor_local as int), Recurrence::Yearly, k) == (match spec_date_add_months(
            day_of(anchor_local as int) as i64,
            (12 * k) as u32,
        ) {
            Some(d) => Some(d as int),
            None => None::<int>,
        }),
        12 * k <= u32::MAX ==> candidate_local(anchor_local, Recurrence::Yearly, k) == candidate_local(
            anchor_local,
            Recurrence::Monthly,
            (12 * k) as u32,
        ),
        12 * k > u32::MAX ==> candidate_local(anchor_local, Recurrence::Yearly, k) is None,
{
}

} // verus!
