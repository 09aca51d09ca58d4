use lastfm_presence::payload::PresenceUpdate;
use lastfm_presence::reconcile::DisplayState;
use lastfm_presence::reconcile::PollResult;
use lastfm_presence::reconcile::MIN_PUSH_INTERVAL_MS;
use lastfm_presence::track::LFMImageSet;
use lastfm_presence::track::Track;

const SENTINEL_URL: &str =
    "https://lastfm.freetls.fastly.net/i/u/300x300/2a96cbd8b46e442fc41c2b86b821562f.png";

fn no_art() -> LFMImageSet {
    LFMImageSet { small: None, medium: None, large: None, extralarge: None }
}

fn track(name: &str, artist: &str, album: &str, url: &str, image: LFMImageSet) -> Track {
    Track {
        now_playing: true,
        name: name.to_string(),
        artist_name: artist.to_string(),
        album_name: album.to_string(),
        url: url.to_string(),
        image,
    }
}

fn song_a() -> Track {
    let image = LFMImageSet {
        small: Some(SENTINEL_URL.to_string()),
        medium: None,
        large: None,
        extralarge: Some(SENTINEL_URL.to_string()),
    };
    track("Song A", "Artist A", "Album A", "l1", image)
}

#[test]
fn scenario_five_ticks() {
    let mut state = DisplayState::new();

    // Tick 1: a track flagged playing appears; its only art is the
    // placeholder, so the payload falls back to the local asset.
    let r1 = state.tick(PollResult::Playing(song_a()), 100, 100, MIN_PUSH_INTERVAL_MS);
    match r1 {
        Some(PresenceUpdate::SetActivity(p)) => {
            assert_eq!(p.details, "Song A");
            assert_eq!(p.state, "by Artist A");
            assert_eq!(p.large_image, "blank_art");
            assert_eq!(p.start_timestamp, 100);
            assert_eq!(p.button_url, "l1");
        }
        _ => panic!("tick 1 must push an activity"),
    }

    // Tick 2, one second later, same track: no push.
    let r2 = state.tick(PollResult::Playing(song_a()), 1100, 1100, MIN_PUSH_INTERVAL_MS);
    assert!(r2.is_none());

    // Tick 3, 21 s after the start: pushed again, start timestamp unchanged.
    let r3 = state.tick(PollResult::Playing(song_a()), 21100, 21100, MIN_PUSH_INTERVAL_MS);
    match r3 {
        Some(PresenceUpdate::SetActivity(p)) => {
            assert_eq!(p.start_timestamp, 100);
            assert_eq!(p.details, "Song A");
        }
        _ => panic!("tick 3 must push the refreshed activity"),
    }

    // Tick 4: nothing playing any more: the clear signal goes out.
    let r4 = state.tick(PollResult::Absent, 23100, 23100, MIN_PUSH_INTERVAL_MS);
    assert!(matches!(r4, Some(PresenceUpdate::Clear)));

    // Tick 5: the fetch fails: no push, and the state stays absent.
    let r5 = state.tick(PollResult::FetchError, 25100, 25100, MIN_PUSH_INTERVAL_MS);
    assert!(r5.is_none());
    assert!(state.current.is_none());
}

#[test]
fn no_op_within_interval() {
    let mut state = DisplayState::new();
    state.tick(PollResult::Playing(song_a()), 500, 500, MIN_PUSH_INTERVAL_MS);
    let started = state.started_at;
    let r = state.tick(PollResult::Playing(song_a()), 5500, 5500, MIN_PUSH_INTERVAL_MS);
    assert!(r.is_none());
    assert_eq!(state.started_at, started);
}

#[test]
fn change_forces_push_and_resets_start() {
    let mut state = DisplayState::new();
    state.tick(PollResult::Playing(song_a()), 100, 100, MIN_PUSH_INTERVAL_MS);
    // One second later the artist differs: dirty, pushed, start reset.
    let other = track("Song A", "Artist B", "Album A", "l1", no_art());
    let r = state.tick(PollResult::Playing(other), 1100, 1100, MIN_PUSH_INTERVAL_MS);
    match r {
        Some(PresenceUpdate::SetActivity(p)) => {
            assert_eq!(p.state, "by Artist B");
            assert_eq!(p.start_timestamp, 1100);
        }
        _ => panic!("a structural change must push on that tick"),
    }
    assert_eq!(state.started_at, 1100);
}

#[test]
fn link_change_alone_is_structural() {
    let mut state = DisplayState::new();
    state.tick(PollResult::Playing(song_a()), 100, 100, MIN_PUSH_INTERVAL_MS);
    let mut relinked = song_a();
    relinked.url = "l2".to_string();
    let r = state.tick(PollResult::Playing(relinked), 1100, 1100, MIN_PUSH_INTERVAL_MS);
    assert!(matches!(r, Some(PresenceUpdate::SetActivity(_))));
    assert_eq!(state.started_at, 1100);
}

#[test]
fn album_change_alone_is_not_structural() {
    let mut state = DisplayState::new();
    state.tick(PollResult::Playing(song_a()), 100, 100, MIN_PUSH_INTERVAL_MS);
    let mut retagged = song_a();
    retagged.album_name = "Album B".to_string();
    let r = state.tick(PollResult::Playing(retagged), 1100, 1100, MIN_PUSH_INTERVAL_MS);
    assert!(r.is_none());
    assert_eq!(state.started_at, 100);
}

#[test]
fn periodic_refresh_after_interval() {
    let mut state = DisplayState::new();
    state.tick(PollResult::Playing(song_a()), 100, 100, MIN_PUSH_INTERVAL_MS);
    // Exactly at the interval: still suppressed (strictly greater is needed).
    let at_edge = state.tick(
        PollResult::Playing(song_a()),
        100 + MIN_PUSH_INTERVAL_MS,
        100 + MIN_PUSH_INTERVAL_MS,
        MIN_PUSH_INTERVAL_MS,
    );
    assert!(at_edge.is_none());
    // One past the interval: pushed again.
    let past_edge = state.tick(
        PollResult::Playing(song_a()),
        101 + MIN_PUSH_INTERVAL_MS,
        101 + MIN_PUSH_INTERVAL_MS,
        MIN_PUSH_INTERVAL_MS,
    );
    assert!(matches!(past_edge, Some(PresenceUpdate::SetActivity(_))));
}

#[test]
fn absence_clears_once_then_throttles() {
    let mut state = DisplayState::new();
    state.tick(PollResult::Playing(song_a()), 100, 100, MIN_PUSH_INTERVAL_MS);
    let r1 = state.tick(PollResult::Absent, 2100, 2100, MIN_PUSH_INTERVAL_MS);
    assert!(matches!(r1, Some(PresenceUpdate::Clear)));
    // Further absent results within the interval push nothing.
    let r2 = state.tick(PollResult::Absent, 4100, 4100, MIN_PUSH_INTERVAL_MS);
    assert!(r2.is_none());
    let r3 = state.tick(PollResult::Absent, 6100, 6100, MIN_PUSH_INTERVAL_MS);
    assert!(r3.is_none());
    // Past the interval the clear is refreshed, no more often than that.
    let r4 = state.tick(PollResult::Absent, 23000, 23000, MIN_PUSH_INTERVAL_MS);
    assert!(matches!(r4, Some(PresenceUpdate::Clear)));
}

#[test]
fn fetch_error_leaves_everything_unchanged() {
    let mut state = DisplayState::new();
    state.tick(PollResult::Playing(song_a()), 100, 100, MIN_PUSH_INTERVAL_MS);
    let started = state.started_at;
    let timer = state.timer_active;
    let pushed = state.last_push_at;
    let r = state.tick(PollResult::FetchError, 5100, 5100, MIN_PUSH_INTERVAL_MS);
    assert!(r.is_none());
    assert_eq!(state.started_at, started);
    assert_eq!(state.timer_active, timer);
    assert_eq!(state.last_push_at, pushed);
    assert!(state.current.is_some());
}

#[test]
fn first_tick_pushes_even_without_dirt() {
    // A fresh state has never pushed; even an absent poll pushes the clear
    // because the throttle has never been armed.
    let mut state = DisplayState::new();
    let r = state.tick(PollResult::Absent, 100, 100, MIN_PUSH_INTERVAL_MS);
    assert!(matches!(r, Some(PresenceUpdate::Clear)));
}

#[test]
fn payload_prefers_largest_usable_art() {
    let image = LFMImageSet {
        small: Some("small-url".to_string()),
        medium: Some("medium-url".to_string()),
        large: Some("large-url".to_string()),
        extralarge: Some(SENTINEL_URL.to_string()),
    };
    let mut state = DisplayState::new();
    let r = state.tick(
        PollResult::Playing(track("T", "A", "B", "l", image)),
        100,
        100,
        MIN_PUSH_INTERVAL_MS,
    );
    match r {
        Some(PresenceUpdate::SetActivity(p)) => {
            assert_eq!(p.large_image, "large-url");
            assert_eq!(p.large_text, "on B");
            assert_eq!(p.small_image, "lastfm");
            assert_eq!(p.small_text, "Last.fm");
            assert_eq!(p.button_label, "Listen on Last.fm");
        }
        _ => panic!("expected an activity push"),
    }
}
