use bitwarden_desktop_next::icons::{CHECK_CIRCLE_FILL, EXCLAMATION_TRIANGLE_FILL, INFO_CIRCLE_FILL, X_CIRCLE_FILL};
use bitwarden_desktop_next::toast::{
    dismiss_slot, sync_timers, tick_timers, Toast, ToastStatus, ToastTimer, ANIMATION_TICK_MS,
    FADE_IN_MS, FADE_OUT_MS, TIMEOUT_MS,
};

#[test]
fn builders_default_title_to_status() {
    let t = Toast::info("Saved".to_string(), None);
    assert_eq!((t.title.as_str(), t.body.as_str(), t.status), ("Info", "Saved", ToastStatus::Info));
    assert_eq!(Toast::success("b".to_string(), None).title, "Success");
    assert_eq!(Toast::warning("b".to_string(), None).title, "Warning");
    let e = Toast::error("Sync failed".to_string(), Some("Sync"));
    assert_eq!((e.title.as_str(), e.status), ("Sync", ToastStatus::Error));
}

#[test]
fn status_icons() {
    assert_eq!(ToastStatus::Info.icon(), INFO_CIRCLE_FILL);
    assert_eq!(ToastStatus::Success.icon(), CHECK_CIRCLE_FILL);
    assert_eq!(ToastStatus::Warning.icon(), EXCLAMATION_TRIANGLE_FILL);
    assert_eq!(ToastStatus::Error.icon(), X_CIRCLE_FILL);
    assert_eq!(ToastStatus::Error.title(), "Error");
}

fn timer(created: u64) -> Option<ToastTimer> {
    Some(ToastTimer { created, dismissing: None, hovered: false })
}

#[test]
fn toast_lives_then_fades_then_closes() {
    let mut timers = vec![timer(1_000)];
    let out = tick_timers(&mut timers, 2_000, 2_000, &vec![false]);
    assert!(out.closed.is_empty());
    assert_eq!(out.redraw_at, Some(2_000 + ANIMATION_TICK_MS));
    // Still fully visible right after the nominal 5 s: the timeout runs
    // from the end of the fade-in.
    let out = tick_timers(&mut timers, 1_000 + TIMEOUT_MS, 1_000 + TIMEOUT_MS, &vec![false]);
    assert!(out.closed.is_empty());
    assert_eq!(timers[0].unwrap().dismissing, None);
    let start = 1_000 + FADE_IN_MS + TIMEOUT_MS;
    let out = tick_timers(&mut timers, start - 1, start - 1, &vec![false]);
    assert_eq!(timers[0].unwrap().dismissing, None);
    assert!(out.closed.is_empty());
    let out = tick_timers(&mut timers, start, start, &vec![false]);
    assert!(out.closed.is_empty());
    assert_eq!(timers[0].unwrap().dismissing, Some(start));
    let out = tick_timers(&mut timers, start + FADE_OUT_MS, start + FADE_OUT_MS, &vec![false]);
    assert_eq!(out.closed, vec![0]);
    assert_eq!(out.redraw_at, None);
    assert_eq!(timers[0], None);
}

#[test]
fn hover_cancels_dismissal() {
    let start = 1_000 + FADE_IN_MS + TIMEOUT_MS;
    let mut timers = vec![Some(ToastTimer { created: 1_000, dismissing: Some(start), hovered: false })];
    let out = tick_timers(&mut timers, start + 50, start + 50, &vec![true]);
    assert!(out.closed.is_empty());
    let t = timers[0].unwrap();
    assert_eq!(t.dismissing, None);
    assert!(t.hovered);
    assert_eq!(t.created, start + 50 - FADE_IN_MS);
}

#[test]
fn slots_without_rows_are_skipped() {
    let mut timers = vec![timer(0), None, timer(0)];
    let out = tick_timers(&mut timers, 200, 200, &vec![false]);
    assert!(out.closed.is_empty());
    assert_eq!(timers[2], timer(0));
}

#[test]
fn sync_drops_dismissed_and_adds_fresh() {
    let mut timers = vec![timer(5), None, timer(7)];
    sync_timers(&mut timers, 3, 100);
    assert_eq!(timers, vec![timer(5), timer(7), timer(100)]);
    sync_timers(&mut timers, 1, 200);
    assert_eq!(timers, vec![timer(5)]);
}

#[test]
fn dismissed_slot_is_cleared() {
    let mut timers = vec![timer(1), timer(2)];
    dismiss_slot(&mut timers, 0);
    assert_eq!(timers, vec![None, timer(2)]);
    dismiss_slot(&mut timers, 9);
    assert_eq!(timers.len(), 2);
}
