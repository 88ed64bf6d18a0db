//! Toast notifications: the toast itself, its severity, and the per-toast
//! animation timers driven by redraw ticks (appear, stay, fade out, close).

use vstd::prelude::*;

use crate::icons::{CHECK_CIRCLE_FILL, EXCLAMATION_TRIANGLE_FILL, INFO_CIRCLE_FILL, X_CIRCLE_FILL};

verus! {

// ── Tunables ───────────────────────────────────────────────────────────────
//
// All instants are milliseconds on one monotonic clock chosen by the caller.

/// How long each toast stays visible after its fade-in completes, before
/// its auto-dismiss starts.
pub const TIMEOUT_MS: u64 = 5000;

pub const FADE_IN_MS: u64 = 150;

pub const FADE_OUT_MS: u64 = 150;

/// ~30fps tick for the toast's full visible lifetime.
pub const ANIMATION_TICK_MS: u64 = 33;

// ── Public data ────────────────────────────────────────────────────────────

#[derive(Debug, Clone, Copy, PartialEq, Eq, Structural)]
pub enum ToastStatus {
    Info,
    Success,
    Warning,
    Error,
}

/// A user-facing notification.
#[derive(Debug, Clone)]
pub struct Toast {
    pub title: String,
    pub body: String,
    pub status: ToastStatus,
}

impl ToastStatus {
    pub open spec fn title_spec(self) -> Seq<char> {
        match self {
            ToastStatus::Info => "Info"@,
            ToastStatus::Success => "Success"@,
            ToastStatus::Warning => "Warning"@,
            ToastStatus::Error => "Error"@,
        }
    }

    pub open spec fn icon_spec(self) -> char {
        match self {
            ToastStatus::Info => INFO_CIRCLE_FILL,
            ToastStatus::Success => CHECK_CIRCLE_FILL,
            ToastStatus::Warning => EXCLAMATION_TRIANGLE_FILL,
            ToastStatus::Error => X_CIRCLE_FILL,
        }
    }

    /// Default title when the caller passes `None`.
    pub fn title(self) -> (t: &'static str)
        ensures
            t@ == self.title_spec(),
    {
        match self {
            ToastStatus::Info => "Info",
            ToastStatus::Success => "Success",
            ToastStatus::Warning => "Warning",
            ToastStatus::Error => "Error",
        }
    }

    /// Bootstrap-icons codepoint for the filled severity glyph.
    pub fn icon(self) -> (c: char)
        ensures
            c == self.icon_spec(),
    {
        match self {
            ToastStatus::Info => INFO_CIRCLE_FILL,
            ToastStatus::Success => CHECK_CIRCLE_FILL,
            ToastStatus::Warning => EXCLAMATION_TRIANGLE_FILL,
            ToastStatus::Error => X_CIRCLE_FILL,
        }
    }
}

/// The title a toast of `status` carries when built with `title`.
pub open spec fn toast_title(status: ToastStatus, title: Option<&str>) -> Seq<char> {
    match title {
        Some(t) => t@,
        None => status.title_spec(),
    }
}

impl Toast {
    pub open spec fn built(self, status: ToastStatus, body: String, title: Option<&str>) -> bool {
        &&& self.status == status
        &&& self.body@ == body@
        &&& self.title@ == toast_title(status, title)
    }

    pub(crate) fn new(status: ToastStatus, body: String, title: Option<&str>) -> (t: Self)
        ensures
            t.built(status, body, title),
    {
        let title_text = match title {
            Some(s) => s,
            None => status.title(),
        };
        Toast { title: String::from_str(title_text), body, status }
    }

    pub fn info(body: String, title: Option<&str>) -> (t: Self)
        ensures
            t.built(ToastStatus::Info, body, title),
    {
        Self::new(ToastStatus::Info, body, title)
    }

    pub fn success(body: String, title: Option<&str>) -> (t: Self)
        ensures
            t.built(ToastStatus::Success, body, title),
    {
        Self::new(ToastStatus::Success, body, title)
    }

    pub fn warning(body: String, title: Option<&str>) -> (t: Self)
        ensures
            t.built(ToastStatus::Warning, body, title),
    {
        Self::new(ToastStatus::Warning, body, title)
    }

    pub fn error(body: String, title: Option<&str>) -> (t: Self)
        ensures
            t.built(ToastStatus::Error, body, title),
    {
        Self::new(ToastStatus::Error, body, title)
    }
}


// ── Animation timers ───────────────────────────────────────────────────────

/// Per-toast animation timestamps, persisted across view rebuilds.
#[derive(Debug, Clone, Copy, PartialEq, Eq, Structural)]
pub struct ToastTimer {
    pub created: u64,
    /// Set when the auto-dismiss timer fires; the toast then fades out over
    /// `FADE_OUT_MS` and is closed once that completes.
    pub dismissing: Option<u64>,
    /// True while the cursor is over the toast.
    pub hovered: bool,
}

/// `now - then`, saturating at zero.
pub open spec fn elapsed_ms(now: u64, then: u64) -> u64 {
    if now >= then {
        (now - then) as u64
    } else {
        0
    }
}

/// A timer freshly attached to a new toast at `now`.
pub open spec fn fresh_timer(now: u64) -> ToastTimer {
    ToastTimer { created: now, dismissing: None, hovered: false }
}

/// One redraw tick for a live timer: `frame` is the redraw instant, `clock`
/// the clock reading taken while the tick runs, `over` whether the cursor is
/// over the toast. A toast's auto-dismiss starts once the clock is
/// `FADE_IN_MS + TIMEOUT_MS` past its creation (it fades in, then stays
/// fully visible for `TIMEOUT_MS`). `None` means the fade-out completed and
/// the toast closes.
pub open spec fn step_timer(t: ToastTimer, frame: u64, clock: u64, over: bool) -> Option<ToastTimer> {
    let t1 = if over {
        ToastTimer { created: (frame - FADE_IN_MS) as u64, dismissing: None, hovered: true }
    } else {
        ToastTimer { created: t.created, dismissing: t.dismissing, hovered: false }
    };
    let t2 = if t1.dismissing is None && elapsed_ms(clock, t1.created) >= FADE_IN_MS + TIMEOUT_MS {
        ToastTimer { created: t1.created, dismissing: Some(frame), hovered: t1.hovered }
    } else {
        t1
    };
    match t2.dismissing {
        Some(start) => if elapsed_ms(frame, start) >= FADE_OUT_MS {
            None
        } else {
            Some(t2)
        },
        None => Some(t2),
    }
}

/// The cursor state for slot `i`, or `None` when the slot has no laid-out row.
pub open spec fn over_at(over: Seq<bool>, i: int) -> Option<bool> {
    if 0 <= i < over.len() {
        Some(over[i])
    } else {
        None
    }
}

/// What one tick does to a slot: dismissed slots and slots without a row are
/// left alone.
pub open spec fn step_slot(slot: Option<ToastTimer>, frame: u64, clock: u64, over: Option<bool>) -> Option<ToastTimer> {
    match (slot, over) {
        (Some(t), Some(o)) => step_timer(t, frame, clock, o),
        _ => slot,
    }
}

/// The tick closes the toast in this slot.
pub open spec fn slot_closes(slot: Option<ToastTimer>, frame: u64, clock: u64, over: Option<bool>) -> bool {
    slot is Some && over is Some && step_slot(slot, frame, clock, over) is None
}

/// The tick keeps the toast in this slot animating.
pub open spec fn slot_animates(slot: Option<ToastTimer>, frame: u64, clock: u64, over: Option<bool>) -> bool {
    slot is Some && over is Some && step_slot(slot, frame, clock, over) is Some
}

/// What the caller must do after a tick.
#[derive(Debug, Clone)]
pub struct TickOutcome {
    /// Indices whose fade-out completed, ascending: publish `on_close(i)`
    /// for each.
    pub closed: Vec<usize>,
    /// Instant of the next requested redraw, when any toast still animates.
    pub redraw_at: Option<u64>,
}

fn step_timer_exec(t: ToastTimer, frame: u64, clock: u64, over: bool) -> (r: Option<ToastTimer>)
    requires
        frame >= FADE_IN_MS,
    ensures
        r == step_timer(t, frame, clock, over),
{
    let mut cur = t;
    cur.hovered = over;
    if over {
        cur.dismissing = None;
        cur.created = frame - FADE_IN_MS;
    }
    let since_created = if clock >= cur.created { clock - cur.created } else { 0 };
    if cur.dismissing.is_none() && since_created >= FADE_IN_MS + TIMEOUT_MS {
        cur.dismissing = Some(frame);
    }
    match cur.dismissing {
        Some(start) => {
            let fading = if frame >= start { frame - start } else { 0 };
            if fading >= FADE_OUT_MS {
                None
            } else {
                Some(cur)
            }
        },
        None => Some(cur),
    }
}

/// Drive every toast's timer one redraw tick (appearing → visible →
/// dismissing → dropped). `over[i]` tells whether the cursor is over the row
/// of toast `i`; slots past `over.len()` have no row this frame and are
/// skipped.
pub fn tick_timers(timers: &mut Vec<Option<ToastTimer>>, frame: u64, clock: u64, over: &Vec<bool>) -> (out: TickOutcome)
    requires
        frame >= FADE_IN_MS,
        frame <= u64::MAX - ANIMATION_TICK_MS,
    ensures
        final(timers)@.len() == old(timers)@.len(),
        forall|i: int| 0 <= i < old(timers)@.len() ==>
            #[trigger] final(timers)@[i] == step_slot(old(timers)@[i], frame, clock, over_at(over@, i)),
        forall|k: int, l: int| 0 <= k < l < out.closed@.len() ==> out.closed@[k] < out.closed@[l],
        forall|i: int| 0 <= i < old(timers)@.len() ==>
            (out.closed@.contains(i as usize) <==> slot_closes(old(timers)@[i], frame, clock, over_at(over@, i))),
        forall|k: int| 0 <= k < out.closed@.len() ==> out.closed@[k] < old(timers)@.len(),
        out.redraw_at == (if exists|i: int| 0 <= i < old(timers)@.len()
            && #[trigger] slot_animates(old(timers)@[i], frame, clock, over_at(over@, i)) {
            Some((frame + ANIMATION_TICK_MS) as u64)
        } else {
            None
        }),
{
    let ghost start = timers@;
    let n = timers.len();
    let mut closed: Vec<usize> = Vec::new();
    let mut animating = false;
    let mut i: usize = 0;
    while i < n
        invariant
            n == start.len(),
            timers@.len() == n,
            i <= n,
            frame >= FADE_IN_MS,
            forall|j: int| 0 <= j < i ==> #[trigger] timers@[j] == step_slot(start[j], frame, clock, over_at(over@, j)),
            forall|j: int| i <= j < n ==> #[trigger] timers@[j] == start[j],
            forall|k: int, l: int| 0 <= k < l < closed@.len() ==> closed@[k] < closed@[l],
            forall|k: int| 0 <= k < closed@.len() ==> closed@[k] < i,
            forall|j: int| 0 <= j < n ==>
                (closed@.contains(j as usize) <==> (j < i && slot_closes(start[j], frame, clock, over_at(over@, j)))),
            animating == exists|j: int| 0 <= j < i && #[trigger] slot_animates(start[j], frame, clock, over_at(over@, j)),
        decreases n - i,
    {
        let ghost prev = closed@;
        if i < over.len() {
            if let Some(t) = timers[i] {
                let next = step_timer_exec(t, frame, clock, over[i]);
                timers.set(i, next);
                if next.is_none() {
                    closed.push(i);
                } else {
                    animating = true;
                }
                assert(over_at(over@, i as int) == Some(over@[i as int]));
            }
        }
        proof {
            assert(timers@[i as int] == step_slot(start[i as int], frame, clock, over_at(over@, i as int)));
            assert forall|j: int| 0 <= j < n implies
                (closed@.contains(j as usize) <==> (j < i + 1 && slot_closes(start[j], frame, clock, over_at(over@, j)))) by {
                if j == i as int {
                    if slot_closes(start[j], frame, clock, over_at(over@, j)) {
                        assert(closed@[closed@.len() - 1] == i);
                    } else {
                        assert(closed@ == prev);
                    }
                } else {
                    if prev.contains(j as usize) {
                        let k = choose|k: int| 0 <= k < prev.len() && prev[k] == j as usize;
                        assert(closed@[k] == j as usize);
                    }
                    if closed@.contains(j as usize) {
                        let k = choose|k: int| 0 <= k < closed@.len() && closed@[k] == j as usize;
                        assert(k < prev.len());
                        assert(prev[k] == j as usize);
                    }
                }
            }
            if animating {
                if !slot_animates(start[i as int], frame, clock, over_at(over@, i as int)) {
                }
            }
        }
        i = i + 1;
    }
    let redraw_at = if animating { Some(frame + ANIMATION_TICK_MS) } else { None };
    TickOutcome { closed, redraw_at }
}

/// The slots still holding a live timer, in order.
pub open spec fn live_slots(s: Seq<Option<ToastTimer>>) -> Seq<Option<ToastTimer>>
    decreases s.len(),
{
    if s.len() == 0 {
        Seq::empty()
    } else {
        let prev = live_slots(s.drop_last());
        if s.last() is Some {
            prev.push(s.last())
        } else {
            prev
        }
    }
}

/// The timer list after re-syncing with a list of `count` toasts at `now`:
/// dismissed slots are dropped, surplus timers truncated, and each new
/// toast gets a fresh timer.
pub open spec fn synced(s: Seq<Option<ToastTimer>>, count: nat, now: u64) -> Seq<Option<ToastTimer>> {
    let live = live_slots(s);
    Seq::new(count, |i: int| if i < live.len() { live[i] } else { Some(fresh_timer(now)) })
}

/// Re-sync the persisted timers with the current toast list.
pub fn sync_timers(timers: &mut Vec<Option<ToastTimer>>, toast_count: usize, now: u64)
    ensures
        final(timers)@ == synced(old(timers)@, toast_count as nat, now),
{
    let ghost start = timers@;
    let mut live: Vec<Option<ToastTimer>> = Vec::new();
    let n = timers.len();
    let mut i: usize = 0;
    while i < n
        invariant
            n == start.len(),
            timers@ == start,
            i <= n,
            live@ == live_slots(start.take(i as int)),
        decreases n - i,
    {
        let slot = timers[i];
        assert(start.take(i + 1).drop_last() =~= start.take(i as int));
        if slot.is_some() {
            live.push(slot);
        }
        i = i + 1;
    }
    assert(start.take(n as int) =~= start);
    let mut out: Vec<Option<ToastTimer>> = Vec::new();
    let mut j: usize = 0;
    while j < toast_count
        invariant
            j <= toast_count,
            live@ == live_slots(start),
            out@.len() == j,
            forall|k: int| 0 <= k < j ==> #[trigger] out@[k] == synced(start, toast_count as nat, now)[k],
        decreases toast_count - j,
    {
        if j < live.len() {
            out.push(live[j]);
        } else {
            out.push(Some(ToastTimer { created: now, dismissing: None, hovered: false }));
        }
        j = j + 1;
    }
    assert(out@ =~= synced(start, toast_count as nat, now));
    *timers = out;
}

/// A toast closed explicitly (close button): drop its timer so the next
/// tick does not close it a second time.
pub fn dismiss_slot(timers: &mut Vec<Option<ToastTimer>>, index: usize)
    ensures
        final(timers)@ == (if index < old(timers)@.len() {
            old(timers)@.update(index as int, None)
        } else {
            old(timers)@
        }),
{
    if index < timers.len() {
        timers.set(index, None);
    }
}

// ── Laws ───────────────────────────────────────────────────────────────────

/// Hovering pins a toast to fully visible: it stays open, any in-flight
/// dismissal is cancelled, and its countdown restarts just past the fade-in
/// (holds while the clock reading lags the frame by less than the visible
/// budget).
pub proof fn lemma_hover_pins_toast(t: ToastTimer, frame: u64, clock: u64)
    requires
        frame >= FADE_IN_MS,
        clock < frame + TIMEOUT_MS,
    ensures
        step_timer(t, frame, clock, true) == Some(
            ToastTimer { created: (frame - FADE_IN_MS) as u64, dismissing: None, hovered: true },
        ),
{
}

/// A toast the cursor is not over stays fully visible for `TIMEOUT_MS`
/// after its fade-in: its dismissal starts on the first tick whose clock is
/// at least `FADE_IN_MS + TIMEOUT_MS` past its creation, and not before.
pub proof fn lemma_visible_for_timeout_after_fade_in(t: ToastTimer, frame: u64, clock: u64)
    requires
        frame >= FADE_IN_MS,
        t.dismissing is None,
        clock >= t.created,
    ensures
        clock < t.created + FADE_IN_MS + TIMEOUT_MS ==> step_timer(t, frame, clock, false) == Some(
            ToastTimer { hovered: false, ..t },
        ),
        clock >= t.created + FADE_IN_MS + TIMEOUT_MS ==> step_timer(t, frame, clock, false) == Some(
            ToastTimer { dismissing: Some(frame), hovered: false, ..t },
        ),
{
}

/// Auto-dismiss is two-phase: a tick that starts a toast's dismissal never
/// also closes it; the close comes only after the fade-out.
pub proof fn lemma_dismissal_is_two_phase(t: ToastTimer, frame: u64, clock: u64, over: bool)
    requires
        frame >= FADE_IN_MS,
        t.dismissing is None,
    ensures
        step_timer(t, frame, clock, over) is Some,
{
}

/// A toast closes only once it has been fading out for `FADE_OUT_MS`.
pub proof fn lemma_close_follows_fade_out(t: ToastTimer, frame: u64, clock: u64, over: bool)
    requires
        frame >= FADE_IN_MS,
        step_timer(t, frame, clock, over) is None,
    ensures
        !over,
        t.dismissing matches Some(start) && elapsed_ms(frame, start) >= FADE_OUT_MS,
{
}

/// A dismissed slot stays dismissed.
pub proof fn lemma_dismissed_slot_stays(frame: u64, clock: u64, over: Option<bool>)
    ensures
        step_slot(None, frame, clock, over) is None,
{
}

/// Re-syncing leaves exactly one timer per toast, keeps the live timers in
/// order at the front, and drops every dismissed slot.
pub proof fn lemma_sync_keeps_live_order(s: Seq<Option<ToastTimer>>, count: nat, now: u64)
    ensures
        synced(s, count, now).len() == count,
        forall|i: int| 0 <= i < count && i < live_slots(s).len() ==>
            #[trigger] synced(s, count, now)[i] == live_slots(s)[i],
        forall|i: int| 0 <= i < count ==> #[trigger] synced(s, count, now)[i] is Some,
{
    lemma_live_slots_are_some(s);
}

proof fn lemma_live_slots_are_some(s: Seq<Option<ToastTimer>>)
    ensures
        forall|i: int| 0 <= i < live_slots(s).len() ==> #[trigger] live_slots(s)[i] is Some,
        live_slots(s).len() <= s.len(),
    decreases s.len(),
{
    if s.len() > 0 {
        lemma_live_slots_are_some(s.drop_last());
    }
}

} // verus!
