//! The reconciliation core: the state owned across poll ticks, the decision
//! whether the displayed track changed, the push-throttle policy, and the
//! per-tick composition of the two with the payload construction.
//!
//! Wall-clock time and monotonic time are handed in by the caller as
//! millisecond counts; the library never reads a clock itself.

use vstd::prelude::*;

use crate::payload::PresenceUpdate;
use crate::payload::UpdateView;
use crate::payload::spec_payload;
use crate::track::Track;
use crate::track::TrackView;
use crate::track::same_display;

verus! {

/// A pushed presence is refreshed at most this often while nothing changes.
pub const MIN_PUSH_INTERVAL_MS: u64 = 20000;

/// The fixed delay between two poll ticks.
pub const TICK_DELAY_MS: u64 = 2000;

/// The outcome of one fetch from the listening-history service.
pub enum PollResult {
    /// The service reports this track as actively playing.
    Playing(Track),
    /// Nothing is playing; a past scrobble does not count.
    Absent,
    /// The fetch failed; the tick must leave all state untouched.
    FetchError,
}

/// Ghost model of a poll outcome.
pub enum PollView {
    Playing(TrackView),
    Absent,
    FetchError,
}

impl View for PollResult {
    type V = PollView;

    open spec fn view(&self) -> PollView {
        match self {
            PollResult::Playing(t) => PollView::Playing(t@),
            PollResult::Absent => PollView::Absent,
            PollResult::FetchError => PollView::FetchError,
        }
    }
}

/// Ghost model of the reconciler state.
pub struct StateView {
    pub current: Option<TrackView>,
    pub started_at: u64,
    pub timer_active: bool,
    pub last_push_at: u64,
}

/// The state the reconciler owns for the process lifetime.
pub struct DisplayState {
    /// The track currently on display, if any.
    pub current: Option<Track>,
    /// Wall-clock epoch milliseconds at which the current track was first
    /// observed as playing; meaningful only while `current` is present.
    pub started_at: u64,
    /// Whether a push has happened since the last change of `current`.
    pub timer_active: bool,
    /// Monotonic milliseconds of the most recent push; meaningful only
    /// while `timer_active` holds.
    pub last_push_at: u64,
}

pub open spec fn opt_track_view(o: Option<Track>) -> Option<TrackView> {
    match o {
        Some(t) => Some(t@),
        None => None,
    }
}

impl View for DisplayState {
    type V = StateView;

    open spec fn view(&self) -> StateView {
        StateView {
            current: opt_track_view(self.current),
            started_at: self.started_at,
            timer_active: self.timer_active,
            last_push_at: self.last_push_at,
        }
    }
}

/// Whether this tick's poll outcome changes the displayed track: a fetch
/// error never does, absence does exactly when a track was displayed, and a
/// track does exactly when none was displayed or the display fields differ.
pub open spec fn spec_dirty(s: StateView, poll: PollView) -> bool {
    match poll {
        PollView::FetchError => false,
        PollView::Absent => s.current is Some,
        PollView::Playing(t) => !(s.current matches Some(c) && same_display(c, t)),
    }
}

/// The state after folding one poll outcome in. A change of the displayed
/// track clears the throttle, so the push is immediate on that tick, and a
/// change to a new track resets the start timestamp to this tick's
/// wall-clock time; everything else is left as it was.
pub open spec fn spec_reconcile(s: StateView, poll: PollView, now_wall: u64) -> StateView {
    match poll {
        PollView::FetchError => s,
        PollView::Absent => if s.current is Some {
            StateView { current: None, timer_active: false, ..s }
        } else {
            s
        },
        PollView::Playing(t) => if s.current matches Some(c) && same_display(c, t) {
            s
        } else {
            StateView { current: Some(t), started_at: now_wall, timer_active: false, ..s }
        },
    }
}

/// The push policy: push when the track changed this tick, when nothing has
/// been pushed since the last change, or when the minimum interval since the
/// last push has elapsed; otherwise suppress.
pub open spec fn spec_should_push(s: StateView, dirty: bool, now_mono: u64, min_interval: u64) -> bool {
    ||| dirty
    ||| !s.timer_active
    ||| now_mono - s.last_push_at > min_interval
}

/// The throttle state after a push at `now_mono`.
pub open spec fn spec_after_push(s: StateView, now_mono: u64) -> StateView {
    StateView { timer_active: true, last_push_at: now_mono, ..s }
}

impl DisplayState {
    /// The state at process start: nothing displayed, nothing pushed yet.
    pub fn new() -> (s: DisplayState)
        ensures
            s@ == (StateView {
                current: None,
                started_at: 0,
                timer_active: false,
                last_push_at: 0,
            }),
    {
        DisplayState { current: None, started_at: 0, timer_active: false, last_push_at: 0 }
    }

    /// Folds one poll outcome into the state and reports whether the
    /// displayed track changed this tick.
    pub fn reconcile(&mut self, poll: PollResult, now_wall_ms: u64) -> (dirty: bool)
        ensures
            final(self)@ == spec_reconcile(old(self)@, poll@, now_wall_ms),
            dirty == spec_dirty(old(self)@, poll@),
    {
        match poll {
            PollResult::FetchError => false,
            PollResult::Absent => {
                if self.current.is_some() {
                    self.current = None;
                    self.timer_active = false;
                    true
                } else {
                    false
                }
            },
            PollResult::Playing(t) => {
                let unchanged = match &self.current {
                    Some(c) => c.same_display_as(&t),
                    None => false,
                };
                if unchanged {
                    false
                } else {
                    self.current = Some(t);
                    self.started_at = now_wall_ms;
                    self.timer_active = false;
                    true
                }
            },
        }
    }

    /// Decides whether to push this tick and, when pushing, arms the
    /// throttle; a suppressed tick leaves the state untouched.
    pub fn should_push(&mut self, dirty: bool, now_mono_ms: u64, min_interval_ms: u64) -> (push:
        bool)
        requires
            old(self).last_push_at <= now_mono_ms,
        ensures
            push == spec_should_push(old(self)@, dirty, now_mono_ms, min_interval_ms),
            final(self)@ == if push {
                spec_after_push(old(self)@, now_mono_ms)
            } else {
                old(self)@
            },
    {
        let push = dirty || !self.timer_active || now_mono_ms - self.last_push_at
            > min_interval_ms;
        if push {
            self.timer_active = true;
            self.last_push_at = now_mono_ms;
        }
        push
    }

    /// Runs one full tick: folds the poll outcome in, applies the push
    /// policy, and when a push is due returns the update to perform.
    pub fn tick(&mut self, poll: PollResult, now_wall_ms: u64, now_mono_ms: u64, min_interval_ms:
        u64) -> (r: Option<PresenceUpdate>)
        requires
            old(self).last_push_at <= now_mono_ms,
        ensures
            final(self)@ == spec_tick(old(self)@, poll@, now_wall_ms, now_mono_ms, min_interval_ms).0,
            opt_update_view(r) == spec_tick(
                old(self)@,
                poll@,
                now_wall_ms,
                now_mono_ms,
                min_interval_ms,
            ).1,
    {
        let dirty = self.reconcile(poll, now_wall_ms);
        let payload = self.build_payload();
        let push = self.should_push(dirty, now_mono_ms, min_interval_ms);
        if push {
            Some(payload)
        } else {
            None
        }
    }
}

pub open spec fn opt_update_view(r: Option<PresenceUpdate>) -> Option<UpdateView> {
    match r {
        Some(u) => Some(u@),
        None => None,
    }
}

/// One tick of the reconciliation loop over the ghost model: the new state
/// and, when a push is due, the update that is pushed. The push decision is
/// taken on the reconciled state, so a change this tick always pushes; the
/// payload is built from the reconciled state as well, so a pushed start
/// timestamp is always the one set for the track being pushed.
pub open spec fn spec_tick(
    s: StateView,
    poll: PollView,
    now_wall: u64,
    now_mono: u64,
    min_interval: u64,
) -> (StateView, Option<UpdateView>) {
    let dirty = spec_dirty(s, poll);
    let reconciled = spec_reconcile(s, poll, now_wall);
    if spec_should_push(reconciled, dirty, now_mono, min_interval) {
        (spec_after_push(reconciled, now_mono), Some(spec_payload(reconciled)))
    } else {
        (reconciled, None)
    }
}

} // verus!
