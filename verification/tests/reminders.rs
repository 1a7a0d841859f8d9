use chrono::{DateTime, Duration, LocalResult, NaiveDateTime, TimeZone, Timelike, Utc};
use chrono_tz::Tz;
use crypnotes::reminders::{
    next_trigger, next_trigger_checked, resolve_local_datetime, NextTriggerResult, NoteState,
    Recurrence, ReminderError, ReminderSpec, Resolution,
};

fn spec_from_local(tz: Tz, y: i32, m: u32, d: u32, hh: u32, mm: u32, recurrence: Recurrence) -> ReminderSpec {
    let local = match tz.with_ymd_and_hms(y, m, d, hh, mm, 0) {
        LocalResult::Single(dt) => dt,
        LocalResult::Ambiguous(first, _) => first,
        LocalResult::None => panic!("unexpected nonexistent local time in test setup"),
    };

    ReminderSpec {
        wall_clock_epoch_ms: local.with_timezone(&Utc).timestamp_millis(),
        tzid: tz.name().to_owned(),
        recurrence,
    }
}

fn local_of(tz: Tz, ms: i64) -> DateTime<Tz> {
    DateTime::<Utc>::from_timestamp_millis(ms).unwrap().with_timezone(&tz)
}

fn ms_of(tz: Tz, y: i32, m: u32, d: u32, hh: u32, mm: u32) -> i64 {
    tz.with_ymd_and_hms(y, m, d, hh, mm, 0).earliest().unwrap().with_timezone(&Utc).timestamp_millis()
}

#[test]
fn recurrence_none_returns_none_after_past_trigger() {
    let tz = chrono_tz::UTC;
    let spec = spec_from_local(tz, 2024, 1, 1, 10, 0, Recurrence::Once);
    let now = spec.wall_clock_epoch_ms + 1;

    let out = next_trigger(&spec, now, NoteState::Active).unwrap();
    assert!(!out.suppressed);
    assert_eq!(out.next_epoch_ms, None);
}

#[test]
fn reminders_are_suppressed_when_note_archived_or_trashed() {
    let tz = chrono_tz::UTC;
    let spec = spec_from_local(tz, 2024, 1, 1, 10, 0, Recurrence::Daily);

    let archived = next_trigger(&spec, spec.wall_clock_epoch_ms, NoteState::Archived).unwrap();
    let trashed = next_trigger(&spec, spec.wall_clock_epoch_ms, NoteState::Trashed).unwrap();

    assert!(archived.suppressed);
    assert!(trashed.suppressed);
    assert_eq!(archived.next_epoch_ms, None);
    assert_eq!(trashed.next_epoch_ms, None);
}

#[test]
fn dst_missing_local_time_shifts_forward() {
    let tz = chrono_tz::America::New_York;
    let spec = spec_from_local(tz, 2024, 3, 9, 2, 30, Recurrence::Daily);

    let now_local = tz.with_ymd_and_hms(2024, 3, 10, 0, 0, 0).single().unwrap();
    let out = next_trigger(&spec, now_local.with_timezone(&Utc).timestamp_millis(), NoteState::Active).unwrap();

    let next_utc = DateTime::<Utc>::from_timestamp_millis(out.next_epoch_ms.unwrap()).unwrap();
    let next_local = next_utc.with_timezone(&tz);

    assert_eq!(next_local.date_naive().to_string(), "2024-03-10");
    assert_eq!(next_local.hour(), 3);
    assert_eq!(next_local.minute(), 0);
}

#[test]
fn dst_repeated_time_triggers_once() {
    let tz = chrono_tz::America::New_York;
    let spec = spec_from_local(tz, 2024, 11, 2, 1, 30, Recurrence::Daily);

    let ambiguous = tz.from_local_datetime(
        &NaiveDateTime::parse_from_str("2024-11-03 01:30:00", "%Y-%m-%d %H:%M:%S").unwrap(),
    );
    let (first, second) = match ambiguous {
        LocalResult::Ambiguous(a, b) => (a, b),
        _ => panic!("expected ambiguous local time"),
    };

    let now_utc = (first + Duration::minutes(30)).with_timezone(&Utc);
    assert!(second.with_timezone(&Utc) > now_utc);

    let out = next_trigger(&spec, now_utc.timestamp_millis(), NoteState::Active).unwrap();
    let next = DateTime::<Utc>::from_timestamp_millis(out.next_epoch_ms.unwrap()).unwrap().with_timezone(&tz);

    assert_eq!(next.date_naive().to_string(), "2024-11-04");
    assert_eq!(next.hour(), 1);
    assert_eq!(next.minute(), 30);
}

#[test]
fn archived_or_trashed_always_suppresses_samples() {
    let mut reminder_ms = 1_600_000_000_000_i64;
    while reminder_ms < 1_900_000_000_000_i64 {
        let spec = ReminderSpec { wall_clock_epoch_ms: reminder_ms, tzid: "UTC".to_owned(), recurrence: Recurrence::Weekly };
        for state in [NoteState::Archived, NoteState::Trashed] {
            let out = next_trigger(&spec, reminder_ms, state).unwrap();
            assert_eq!(out, NextTriggerResult { next_epoch_ms: None, suppressed: true });
        }
        reminder_ms += 7_777_777_777;
    }
}

#[test]
fn suppression_comes_before_any_validation() {
    let spec = ReminderSpec { wall_clock_epoch_ms: i64::MAX, tzid: "Nowhere/Invalid".to_owned(), recurrence: Recurrence::Daily };
    let out = next_trigger(&spec, 0, NoteState::Trashed).unwrap();
    assert_eq!(out, NextTriggerResult { next_epoch_ms: None, suppressed: true });
}

#[test]
fn one_time_reminder_in_future_fires_at_anchor() {
    let spec = spec_from_local(chrono_tz::Europe::Berlin, 2030, 6, 1, 9, 15, Recurrence::Once);
    let out = next_trigger(&spec, spec.wall_clock_epoch_ms, NoteState::Active).unwrap();
    assert_eq!(out, NextTriggerResult { next_epoch_ms: Some(spec.wall_clock_epoch_ms), suppressed: false });
    let out = next_trigger(&spec, spec.wall_clock_epoch_ms - 1, NoteState::Active).unwrap();
    assert_eq!(out.next_epoch_ms, Some(spec.wall_clock_epoch_ms));
}

#[test]
fn unknown_zone_is_reported() {
    let spec = ReminderSpec { wall_clock_epoch_ms: 0, tzid: "Mars/Olympus".to_owned(), recurrence: Recurrence::Daily };
    assert_eq!(next_trigger(&spec, 0, NoteState::Active), Err(ReminderError::InvalidTimezone("Mars/Olympus".to_owned())));
}

#[test]
fn out_of_range_epochs_are_reported() {
    let spec = ReminderSpec { wall_clock_epoch_ms: i64::MAX, tzid: "UTC".to_owned(), recurrence: Recurrence::Daily };
    assert_eq!(next_trigger(&spec, 0, NoteState::Active), Err(ReminderError::InvalidEpoch(i64::MAX)));
    let spec = ReminderSpec { wall_clock_epoch_ms: 0, tzid: "UTC".to_owned(), recurrence: Recurrence::Daily };
    assert_eq!(next_trigger(&spec, i64::MIN, NoteState::Active), Err(ReminderError::InvalidEpoch(i64::MIN)));
}

#[test]
fn daily_reminder_fires_today_or_tomorrow() {
    let tz = chrono_tz::Europe::Paris;
    let spec = spec_from_local(tz, 2024, 1, 1, 8, 0, Recurrence::Daily);
    let before = ms_of(tz, 2024, 5, 20, 7, 59);
    let after = ms_of(tz, 2024, 5, 20, 8, 1);
    let today = ms_of(tz, 2024, 5, 20, 8, 0);
    let tomorrow = ms_of(tz, 2024, 5, 21, 8, 0);
    assert_eq!(next_trigger(&spec, before, NoteState::Active).unwrap().next_epoch_ms, Some(today));
    assert_eq!(next_trigger(&spec, today, NoteState::Active).unwrap().next_epoch_ms, Some(today));
    assert_eq!(next_trigger(&spec, after, NoteState::Active).unwrap().next_epoch_ms, Some(tomorrow));
}

#[test]
fn daily_reminder_before_anchor_fires_at_anchor() {
    let tz = chrono_tz::Asia::Tokyo;
    let spec = spec_from_local(tz, 2030, 1, 1, 8, 0, Recurrence::Daily);
    let out = next_trigger(&spec, ms_of(tz, 2029, 12, 1, 0, 0), NoteState::Active).unwrap();
    assert_eq!(out.next_epoch_ms, Some(spec.wall_clock_epoch_ms));
}

#[test]
fn weekly_reminder_keeps_weekday() {
    let tz = chrono_tz::America::Los_Angeles;
    let spec = spec_from_local(tz, 2024, 1, 1, 18, 0, Recurrence::Weekly);
    let out = next_trigger(&spec, ms_of(tz, 2024, 1, 10, 12, 0), NoteState::Active).unwrap();
    assert_eq!(out.next_epoch_ms, Some(ms_of(tz, 2024, 1, 15, 18, 0)));
}

#[test]
fn monthly_reminder_clamps_to_month_end() {
    let tz = chrono_tz::UTC;
    let spec = spec_from_local(tz, 2024, 1, 31, 12, 0, Recurrence::Monthly);
    let out = next_trigger(&spec, ms_of(tz, 2024, 2, 2, 0, 0), NoteState::Active).unwrap();
    assert_eq!(out.next_epoch_ms, Some(ms_of(tz, 2024, 2, 29, 12, 0)));
    let out = next_trigger(&spec, ms_of(tz, 2024, 3, 1, 0, 0), NoteState::Active).unwrap();
    assert_eq!(out.next_epoch_ms, Some(ms_of(tz, 2024, 3, 31, 12, 0)));
}

#[test]
fn yearly_reminder_on_leap_day() {
    let tz = chrono_tz::UTC;
    let spec = spec_from_local(tz, 2024, 2, 29, 7, 0, Recurrence::Yearly);
    let out = next_trigger(&spec, ms_of(tz, 2024, 3, 1, 0, 0), NoteState::Active).unwrap();
    assert_eq!(out.next_epoch_ms, Some(ms_of(tz, 2025, 2, 28, 7, 0)));
}

#[test]
fn reading_past_the_calendar_end_is_left_out() {
    let spec = ReminderSpec { wall_clock_epoch_ms: 8_210_266_876_799_999, tzid: "Asia/Tokyo".to_owned(), recurrence: Recurrence::Once };
    assert_eq!(next_trigger_checked(&spec, 0, NoteState::Active), None);
    let spec = ReminderSpec { wall_clock_epoch_ms: 8_210_266_876_799_999, tzid: "UTC".to_owned(), recurrence: Recurrence::Once };
    assert_eq!(
        next_trigger_checked(&spec, 0, NoteState::Active),
        Some(Ok(NextTriggerResult { next_epoch_ms: Some(8_210_266_876_799_999), suppressed: false }))
    );
}

#[test]
fn resolve_picks_earlier_instant_and_shifts_gaps() {
    let tz = chrono_tz::America::New_York;
    let naive = |s: &str| NaiveDateTime::parse_from_str(s, "%Y-%m-%d %H:%M:%S").unwrap().and_utc().timestamp_millis();
    let repeated = resolve_local_datetime("America/New_York", naive("2024-11-03 01:30:00"));
    assert_eq!(repeated, Resolution::At(ms_of(tz, 2024, 11, 3, 1, 30)));
    assert_eq!(ms_of(tz, 2024, 11, 3, 1, 30), 1_730_611_800_000);
    let skipped = resolve_local_datetime("America/New_York", naive("2024-03-10 02:15:00"));
    assert_eq!(skipped, Resolution::At(ms_of(tz, 2024, 3, 10, 3, 0)));
    assert_eq!(local_of(tz, ms_of(tz, 2024, 3, 10, 3, 0)).hour(), 3);
}

#[test]
fn next_trigger_never_moves_earlier_as_time_advances() {
    let tz = chrono_tz::America::New_York;
    for recurrence in [Recurrence::Daily, Recurrence::Weekly, Recurrence::Monthly, Recurrence::Yearly] {
        let spec = spec_from_local(tz, 2024, 1, 31, 2, 30, recurrence);
        let start = ms_of(tz, 2024, 3, 1, 0, 0);
        let mut previous: Option<(i64, i64)> = None;
        for step in 0..400i64 {
            let now = start + step * 3_600_000 * 7;
            let t = next_trigger(&spec, now, NoteState::Active).unwrap().next_epoch_ms.unwrap();
            assert!(t >= now);
            if let Some((now1, t1)) = previous {
                assert!(t1 <= t);
                if now <= t1 {
                    assert_eq!(t, t1, "{:?} {} {}", recurrence, now1, now);
                }
            }
            previous = Some((now, t));
        }
    }
}
