//! The behavioural laws of the reconciliation loop, stated over the ghost
//! model that every executable contract is pinned to.

use vstd::prelude::*;

use crate::payload::UpdateView;
use crate::payload::fallback_asset_view;
use crate::payload::spec_payload;
use crate::reconcile::PollView;
use crate::reconcile::StateView;
use crate::reconcile::spec_after_push;
use crate::reconcile::spec_dirty;
use crate::reconcile::spec_reconcile;
use crate::reconcile::spec_tick;
use crate::text::contains_seq;
use crate::track::ImageSetView;
use crate::track::TrackView;
use crate::track::chosen_art;
use crate::track::same_display;
use crate::track::sentinel_view;

verus! {

/// Law: while the same track keeps playing and the minimum interval since
/// the last push has not elapsed, a tick changes nothing — no push goes
/// out and the start timestamp is left exactly as it was.
pub proof fn lemma_no_op_stability(
    s: StateView,
    t: TrackView,
    now_wall: u64,
    now_mono: u64,
    min_interval: u64,
)
    requires
        s.current matches Some(c) && same_display(c, t),
        s.timer_active,
        now_mono - s.last_push_at <= min_interval,
    ensures
        !spec_dirty(s, PollView::Playing(t)),
        spec_tick(s, PollView::Playing(t), now_wall, now_mono, min_interval).0 == s,
        spec_tick(s, PollView::Playing(t), now_wall, now_mono, min_interval).1 is None,
{
}

/// Law: any structural change of the displayed track — a differing title,
/// artist, art or link, or nothing displayed before — makes the tick dirty,
/// resets the start timestamp to this tick's wall-clock time, and pushes
/// the new track's payload whatever the throttle state was.
pub proof fn lemma_change_forces_push(
    s: StateView,
    t: TrackView,
    now_wall: u64,
    now_mono: u64,
    min_interval: u64,
)
    requires
        !(s.current matches Some(c) && same_display(c, t)),
    ensures
        spec_dirty(s, PollView::Playing(t)),
        spec_reconcile(s, PollView::Playing(t), now_wall).current == Some(t),
        spec_reconcile(s, PollView::Playing(t), now_wall).started_at == now_wall,
        spec_tick(s, PollView::Playing(t), now_wall, now_mono, min_interval).1 == Some(
            spec_payload(spec_reconcile(s, PollView::Playing(t), now_wall)),
        ),
        spec_tick(s, PollView::Playing(t), now_wall, now_mono, min_interval).0 == spec_after_push(
            spec_reconcile(s, PollView::Playing(t), now_wall),
            now_mono,
        ),
{
}

/// Law: even with the track unchanged, once more than the minimum interval
/// has passed since the last push the next tick pushes again, with the
/// payload built from the unchanged state — the start timestamp stays put,
/// so the displayed elapsed time keeps growing.
pub proof fn lemma_periodic_refresh(
    s: StateView,
    t: TrackView,
    now_wall: u64,
    now_mono: u64,
    min_interval: u64,
)
    requires
        s.current matches Some(c) && same_display(c, t),
        now_mono - s.last_push_at > min_interval,
    ensures
        !spec_dirty(s, PollView::Playing(t)),
        spec_tick(s, PollView::Playing(t), now_wall, now_mono, min_interval).1 == Some(
            spec_payload(s),
        ),
        spec_tick(s, PollView::Playing(t), now_wall, now_mono, min_interval).0 == spec_after_push(
            s,
            now_mono,
        ),
{
}

/// Law: when a displayed track goes absent, that tick pushes the clear
/// signal, and the state it leaves shows nothing with the throttle armed
/// at this tick's time — the preconditions of `lemma_absent_steady_state`,
/// so the clear is pushed exactly once.
pub proof fn lemma_absence_clears(s: StateView, now_wall: u64, now_mono: u64, min_interval: u64)
    requires
        s.current is Some,
    ensures
        spec_dirty(s, PollView::Absent),
        spec_tick(s, PollView::Absent, now_wall, now_mono, min_interval).1 == Some(
            UpdateView::Clear,
        ),
        spec_tick(s, PollView::Absent, now_wall, now_mono, min_interval).0.current is None,
        spec_tick(s, PollView::Absent, now_wall, now_mono, min_interval).0.timer_active,
        spec_tick(s, PollView::Absent, now_wall, now_mono, min_interval).0.last_push_at
            == now_mono,
{
}

/// Law: with nothing displayed, further absent results are not dirty, and
/// within the minimum interval since the last push they push nothing — a
/// standing absence re-clears at most once per interval.
pub proof fn lemma_absent_steady_state(
    s: StateView,
    now_wall: u64,
    now_mono: u64,
    min_interval: u64,
)
    requires
        s.current is None,
        s.timer_active,
        now_mono - s.last_push_at <= min_interval,
    ensures
        !spec_dirty(s, PollView::Absent),
        spec_tick(s, PollView::Absent, now_wall, now_mono, min_interval).0 == s,
        spec_tick(s, PollView::Absent, now_wall, now_mono, min_interval).1 is None,
{
}

/// Every present art slot carries the service's placeholder checksum.
pub open spec fn art_all_placeholder(v: ImageSetView) -> bool {
    &&& (v.small matches Some(u) ==> contains_seq(u, sentinel_view()))
    &&& (v.medium matches Some(u) ==> contains_seq(u, sentinel_view()))
    &&& (v.large matches Some(u) ==> contains_seq(u, sentinel_view()))
    &&& (v.extralarge matches Some(u) ==> contains_seq(u, sentinel_view()))
}

/// Law: a track whose only art URLs are the placeholder yields the local
/// fallback asset in the payload, never the placeholder URL itself.
pub proof fn lemma_art_fallback(s: StateView, t: TrackView)
    requires
        s.current == Some(t),
        art_all_placeholder(t.art),
    ensures
        chosen_art(t.art) is None,
        spec_payload(s) matches UpdateView::SetActivity(p) && p.large_image
            == fallback_asset_view(),
{
}

/// Law: a failed fetch leaves the state — the displayed track and both
/// throttle fields — exactly as it was, is never dirty, and does not
/// itself trigger a push: while the throttle holds, nothing goes out.
pub proof fn lemma_fetch_error_isolation(
    s: StateView,
    now_wall: u64,
    now_mono: u64,
    min_interval: u64,
)
    ensures
        !spec_dirty(s, PollView::FetchError),
        spec_reconcile(s, PollView::FetchError, now_wall) == s,
        (s.timer_active && now_mono - s.last_push_at <= min_interval) ==> spec_tick(
            s,
            PollView::FetchError,
            now_wall,
            now_mono,
            min_interval,
        ).1 is None,
        (s.timer_active && now_mono - s.last_push_at <= min_interval) ==> spec_tick(
            s,
            PollView::FetchError,
            now_wall,
            now_mono,
            min_interval,
        ).0 == s,
{
}

/// Law: a push never goes out with a stale start: whenever a tick pushes an
/// activity, that activity is built from the reconciled state, so its start
/// timestamp, title and link are exactly those recorded for the track on
/// display at push time.
pub proof fn lemma_push_matches_displayed_track(
    s: StateView,
    poll: PollView,
    now_wall: u64,
    now_mono: u64,
    min_interval: u64,
)
    requires
        spec_tick(s, poll, now_wall, now_mono, min_interval).1 matches Some(
            UpdateView::SetActivity(p),
        ),
    ensures
        spec_reconcile(s, poll, now_wall).current is Some,
        spec_tick(s, poll, now_wall, now_mono, min_interval).1 matches Some(
            UpdateView::SetActivity(p),
        ) && p.start_timestamp == spec_reconcile(s, poll, now_wall).started_at && p.details
            == spec_reconcile(s, poll, now_wall).current->0.title && p.button_url
            == spec_reconcile(s, poll, now_wall).current->0.link,
        spec_tick(s, poll, now_wall, now_mono, min_interval).0.started_at == spec_reconcile(
            s,
            poll,
            now_wall,
        ).started_at,
{
}

} // verus!
