//! Construction of the presence payload from the reconciler state: either a
//! full activity description or the signal to clear the displayed presence.

use vstd::prelude::*;
use vstd::string::StringExecFns;

use crate::reconcile::DisplayState;
use crate::reconcile::StateView;
use crate::track::chosen_art;

verus! {

/// Ghost model of an activity payload.
pub struct PayloadView {
    pub details: Seq<char>,
    pub state: Seq<char>,
    pub large_image: Seq<char>,
    pub large_text: Seq<char>,
    pub small_image: Seq<char>,
    pub small_text: Seq<char>,
    pub start_timestamp: u64,
    pub button_label: Seq<char>,
    pub button_url: Seq<char>,
}

/// Everything the presence surface shows for a playing track.
pub struct ActivityPayload {
    /// The track title, shown as the first line.
    pub details: String,
    /// The by-line under the title.
    pub state: String,
    /// The chosen album art URL, or the local fallback asset identifier.
    pub large_image: String,
    /// The on-album line shown with the art.
    pub large_text: String,
    pub small_image: String,
    pub small_text: String,
    /// Wall-clock epoch milliseconds the track started at; the surface
    /// renders the elapsed time from it.
    pub start_timestamp: u64,
    pub button_label: String,
    /// The link the button opens.
    pub button_url: String,
}

impl View for ActivityPayload {
    type V = PayloadView;

    open spec fn view(&self) -> PayloadView {
        PayloadView {
            details: self.details@,
            state: self.state@,
            large_image: self.large_image@,
            large_text: self.large_text@,
            small_image: self.small_image@,
            small_text: self.small_text@,
            start_timestamp: self.start_timestamp,
            button_label: self.button_label@,
            button_url: self.button_url@,
        }
    }
}

/// What one pushed tick tells the presence surface to do.
pub enum PresenceUpdate {
    /// Show this activity.
    SetActivity(ActivityPayload),
    /// Clear the displayed presence: nothing is playing.
    Clear,
}

/// Ghost model of a presence update.
pub enum UpdateView {
    SetActivity(PayloadView),
    Clear,
}

impl View for PresenceUpdate {
    type V = UpdateView;

    open spec fn view(&self) -> UpdateView {
        match self {
            PresenceUpdate::SetActivity(p) => UpdateView::SetActivity(p@),
            PresenceUpdate::Clear => UpdateView::Clear,
        }
    }
}

/// The local asset shown when no usable album art remains.
pub open spec fn fallback_asset_view() -> Seq<char> {
    "blank_art"@
}

/// The local fallback asset identifier.
pub fn fallback_asset() -> (s: &'static str)
    ensures
        s@ == fallback_asset_view(),
{
    "blank_art"
}

/// The payload a given state yields: a clear when nothing is displayed,
/// else the track's fields mapped onto the presence surface, with the
/// start timestamp taken unchanged from the state.
pub open spec fn spec_payload(s: StateView) -> UpdateView {
    match s.current {
        None => UpdateView::Clear,
        Some(t) => UpdateView::SetActivity(
            PayloadView {
                details: t.title,
                state: "by "@ + t.artist,
                large_image: match chosen_art(t.art) {
                    Some(u) => u,
                    None => fallback_asset_view(),
                },
                large_text: "on "@ + t.album,
                small_image: "lastfm"@,
                small_text: "Last.fm"@,
                start_timestamp: s.started_at,
                button_label: "Listen on Last.fm"@,
                button_url: t.link,
            },
        ),
    }
}

impl DisplayState {
    /// Builds what this tick would push: the current track's activity, or
    /// the clear signal when nothing is displayed.
    pub fn build_payload(&self) -> (r: PresenceUpdate)
        ensures
            r@ == spec_payload(self@),
    {
        match &self.current {
            None => PresenceUpdate::Clear,
            Some(track) => {
                let large_image = match track.image.pick_art() {
                    Some(u) => u.to_owned(),
                    None => fallback_asset().to_owned(),
                };
                PresenceUpdate::SetActivity(
                    ActivityPayload {
                        details: track.name.clone(),
                        state: "by ".to_owned().concat(track.artist_name.as_str()),
                        large_image,
                        large_text: "on ".to_owned().concat(track.album_name.as_str()),
                        small_image: "lastfm".to_owned(),
                        small_text: "Last.fm".to_owned(),
                        start_timestamp: self.started_at,
                        button_label: "Listen on Last.fm".to_owned(),
                        button_url: track.url.clone(),
                    },
                )
            },
        }
    }
}

} // verus!
