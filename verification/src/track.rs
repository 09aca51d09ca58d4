//! The canonical track value handed in by the listening-history adapter, and
//! the album-art selection policy.
//!
//! A track is immutable once constructed and has no identity beyond
//! structural equality; only the fields that affect the display (title,
//! artist, art, link) take part in that equality.

use vstd::prelude::*;

use crate::text::contains_seq;
use crate::text::contains_substr;

verus! {

/// Ghost model of an image set: one optional URL per resolution slot.
pub struct ImageSetView {
    pub small: Option<Seq<char>>,
    pub medium: Option<Seq<char>>,
    pub large: Option<Seq<char>>,
    pub extralarge: Option<Seq<char>>,
}

/// Album art URLs by resolution, smallest to largest, as the listening
/// service reports them.
pub struct LFMImageSet {
    pub small: Option<String>,
    pub medium: Option<String>,
    pub large: Option<String>,
    pub extralarge: Option<String>,
}

pub open spec fn opt_string_view(o: Option<String>) -> Option<Seq<char>> {
    match o {
        Some(s) => Some(s@),
        None => None,
    }
}

pub open spec fn opt_str_view(o: Option<&str>) -> Option<Seq<char>> {
    match o {
        Some(s) => Some(s@),
        None => None,
    }
}

impl View for LFMImageSet {
    type V = ImageSetView;

    open spec fn view(&self) -> ImageSetView {
        ImageSetView {
            small: opt_string_view(self.small),
            medium: opt_string_view(self.medium),
            large: opt_string_view(self.large),
            extralarge: opt_string_view(self.extralarge),
        }
    }
}

fn clone_opt_string(o: &Option<String>) -> (r: Option<String>)
    ensures
        r == *o,
{
    match o {
        Some(s) => Some(s.clone()),
        None => None,
    }
}

impl Clone for LFMImageSet {
    fn clone(&self) -> (r: Self)
        ensures
            r == *self,
    {
        LFMImageSet {
            small: clone_opt_string(&self.small),
            medium: clone_opt_string(&self.medium),
            large: clone_opt_string(&self.large),
            extralarge: clone_opt_string(&self.extralarge),
        }
    }
}

/// The URL list contributed by one slot: empty when absent.
pub open spec fn opt_art(o: Option<Seq<char>>) -> Seq<Seq<char>> {
    match o {
        Some(u) => seq![u],
        None => Seq::empty(),
    }
}

/// Every present art URL, smallest resolution first.
pub open spec fn art_list(v: ImageSetView) -> Seq<Seq<char>> {
    opt_art(v.small) + opt_art(v.medium) + opt_art(v.large) + opt_art(v.extralarge)
}

/// The checksum the listening service embeds in an art URL to mean
/// "no artwork": such a URL must be treated as absent.
pub open spec fn sentinel_view() -> Seq<char> {
    "2a96cbd8b46e442fc41c2b86b821562f"@
}

/// The placeholder checksum as a string, for callers that filter URLs.
pub fn placeholder_sentinel() -> (s: &'static str)
    ensures
        s@ == sentinel_view(),
{
    "2a96cbd8b46e442fc41c2b86b821562f"
}

/// A slot holds a real URL: present and free of the placeholder checksum.
pub open spec fn usable_art(o: Option<Seq<char>>) -> bool {
    &&& o is Some
    &&& !contains_seq(o->0, sentinel_view())
}

/// The art the payload should show: the largest usable resolution, or
/// nothing when every slot is absent or a placeholder.
pub open spec fn chosen_art(v: ImageSetView) -> Option<Seq<char>> {
    if usable_art(v.extralarge) {
        v.extralarge
    } else if usable_art(v.large) {
        v.large
    } else if usable_art(v.medium) {
        v.medium
    } else if usable_art(v.small) {
        v.small
    } else {
        None
    }
}

impl LFMImageSet {
    /// Every present URL, smallest resolution first.
    pub fn to_vec(&self) -> (r: Vec<&str>)
        ensures
            r.deep_view() == art_list(self@),
    {
        let mut images: Vec<&str> = Vec::new();

        if let Some(small) = &self.small {
            images.push(small.as_str());
        }

        if let Some(medium) = &self.medium {
            images.push(medium.as_str());
        }

        if let Some(large) = &self.large {
            images.push(large.as_str());
        }

        if let Some(extralarge) = &self.extralarge {
            images.push(extralarge.as_str());
        }

        proof {
            assert(images.deep_view() =~= art_list(self@));
        }
        images
    }

    /// The largest present URL that is not the placeholder, if any.
    pub fn pick_art(&self) -> (r: Option<&str>)
        ensures
            opt_str_view(r) == chosen_art(self@),
    {
        if let Some(u) = &self.extralarge {
            if !contains_substr(u.as_str(), placeholder_sentinel()) {
                return Some(u.as_str());
            }
        }
        if let Some(u) = &self.large {
            if !contains_substr(u.as_str(), placeholder_sentinel()) {
                return Some(u.as_str());
            }
        }
        if let Some(u) = &self.medium {
            if !contains_substr(u.as_str(), placeholder_sentinel()) {
                return Some(u.as_str());
            }
        }
        if let Some(u) = &self.small {
            if !contains_substr(u.as_str(), placeholder_sentinel()) {
                return Some(u.as_str());
            }
        }
        None
    }
}

/// Ghost model of one raw image entry.
pub struct ImageEntryView {
    pub size: Seq<char>,
    pub url: Seq<char>,
}

/// One raw image entry as the listening service lists them: a resolution
/// name and a URL.
pub struct ImageEntry {
    pub size: String,
    pub url: String,
}

impl View for ImageEntry {
    type V = ImageEntryView;

    open spec fn view(&self) -> ImageEntryView {
        ImageEntryView { size: self.size@, url: self.url@ }
    }
}

impl DeepView for ImageEntry {
    type V = ImageEntryView;

    open spec fn deep_view(&self) -> ImageEntryView {
        self.view()
    }
}

/// What a named slot holds after folding the raw entries in, in order: the
/// last entry with that resolution name wins, and a placeholder URL clears
/// the slot rather than filling it.
pub open spec fn spec_slot(entries: Seq<ImageEntryView>, name: Seq<char>) -> Option<Seq<char>>
    decreases entries.len(),
{
    if entries.len() == 0 {
        None
    } else if entries.last().size == name {
        if contains_seq(entries.last().url, sentinel_view()) {
            None
        } else {
            Some(entries.last().url)
        }
    } else {
        spec_slot(entries.drop_last(), name)
    }
}

proof fn lemma_slot_step(entries: Seq<ImageEntryView>, i: int, name: Seq<char>)
    requires
        0 <= i < entries.len(),
    ensures
        spec_slot(entries.subrange(0, i + 1), name) == (if entries[i].size == name {
            if contains_seq(entries[i].url, sentinel_view()) {
                None
            } else {
                Some(entries[i].url)
            }
        } else {
            spec_slot(entries.subrange(0, i), name)
        }),
{
    let extended = entries.subrange(0, i + 1);
    assert(extended.last() == entries[i]);
    assert(extended.drop_last() =~= entries.subrange(0, i));
}

/// Builds the image set from the raw entries: each of the four known
/// resolution names takes the last entry bearing it, placeholder URLs count
/// as absent, and entries under any other name are ignored.
pub fn image_set_from_entries(entries: &Vec<ImageEntry>) -> (r: LFMImageSet)
    ensures
        r@.small == spec_slot(entries.deep_view(), "small"@),
        r@.medium == spec_slot(entries.deep_view(), "medium"@),
        r@.large == spec_slot(entries.deep_view(), "large"@),
        r@.extralarge == spec_slot(entries.deep_view(), "extralarge"@),
{
    let mut set = LFMImageSet { small: None, medium: None, large: None, extralarge: None };
    let n = entries.len();
    let mut i: usize = 0;
    while i < n
        invariant
            n == entries@.len(),
            i <= n,
            set@.small == spec_slot(entries.deep_view().subrange(0, i as int), "small"@),
            set@.medium == spec_slot(entries.deep_view().subrange(0, i as int), "medium"@),
            set@.large == spec_slot(entries.deep_view().subrange(0, i as int), "large"@),
            set@.extralarge == spec_slot(entries.deep_view().subrange(0, i as int), "extralarge"@),
        decreases n - i,
    {
        let entry = &entries[i];
        let filtered: Option<String> = if contains_substr(
            entry.url.as_str(),
            placeholder_sentinel(),
        ) {
            None
        } else {
            Some(entry.url.clone())
        };
        proof {
            lemma_slot_step(entries.deep_view(), i as int, "small"@);
            lemma_slot_step(entries.deep_view(), i as int, "medium"@);
            lemma_slot_step(entries.deep_view(), i as int, "large"@);
            lemma_slot_step(entries.deep_view(), i as int, "extralarge"@);
            assert(entries.deep_view()[i as int] == entry@);
        }
        if str_eq(entry.size.as_str(), "small") {
            set.small = clone_opt_string(&filtered);
        }
        if str_eq(entry.size.as_str(), "medium") {
            set.medium = clone_opt_string(&filtered);
        }
        if str_eq(entry.size.as_str(), "large") {
            set.large = clone_opt_string(&filtered);
        }
        if str_eq(entry.size.as_str(), "extralarge") {
            set.extralarge = clone_opt_string(&filtered);
        }
        i += 1;
    }
    proof {
        assert(entries.deep_view().subrange(0, n as int) =~= entries.deep_view());
    }
    set
}

/// Whether two strings hold the same characters.
pub fn str_eq(a: &str, b: &str) -> (r: bool)
    ensures
        r == (a@ == b@),
{
    let a_owned: String = a.to_owned();
    let b_owned: String = b.to_owned();
    a_owned == b_owned
}

/// Ghost model of a track.
pub struct TrackView {
    pub now_playing: bool,
    pub title: Seq<char>,
    pub artist: Seq<char>,
    pub album: Seq<char>,
    pub link: Seq<char>,
    pub art: ImageSetView,
}

/// One listening event: what is (or was) playing.
pub struct Track {
    /// The service's flag that this entry is actively playing, used only
    /// for filtering, never for display equality.
    pub now_playing: bool,
    pub name: String,
    pub artist_name: String,
    pub album_name: String,
    pub url: String,
    pub image: LFMImageSet,
}

impl View for Track {
    type V = TrackView;

    open spec fn view(&self) -> TrackView {
        TrackView {
            now_playing: self.now_playing,
            title: self.name@,
            artist: self.artist_name@,
            album: self.album_name@,
            link: self.url@,
            art: self.image@,
        }
    }
}

impl Clone for Track {
    fn clone(&self) -> (r: Self)
        ensures
            r == *self,
    {
        Track {
            now_playing: self.now_playing,
            name: self.name.clone(),
            artist_name: self.artist_name.clone(),
            album_name: self.album_name.clone(),
            url: self.url.clone(),
            image: self.image.clone(),
        }
    }
}

/// Structural equality over the fields that affect the display: title,
/// artist, art and link. The now-playing flag and the album name are
/// deliberately left out.
pub open spec fn same_display(a: TrackView, b: TrackView) -> bool {
    &&& a.title == b.title
    &&& a.artist == b.artist
    &&& a.art == b.art
    &&& a.link == b.link
}

fn opt_string_eq(a: &Option<String>, b: &Option<String>) -> (r: bool)
    ensures
        r == (opt_string_view(*a) == opt_string_view(*b)),
{
    match (a, b) {
        (Some(x), Some(y)) => *x == *y,
        (None, None) => true,
        _ => {
            proof {
                assert(opt_string_view(*a) != opt_string_view(*b));
            }
            false
        },
    }
}

impl Track {
    /// Whether the two tracks display identically (title, artist, art, link).
    pub fn same_display_as(&self, other: &Track) -> (r: bool)
        ensures
            r == same_display(self@, other@),
    {
        let arts_equal = opt_string_eq(&self.image.small, &other.image.small)
            && opt_string_eq(&self.image.medium, &other.image.medium) && opt_string_eq(
            &self.image.large,
            &other.image.large,
        ) && opt_string_eq(&self.image.extralarge, &other.image.extralarge);
        self.name == other.name && self.artist_name == other.artist_name && arts_equal && self.url
            == other.url
    }
}

/// The first track the service flags as now playing, if any: a past
/// scrobble is never selected in its place.
pub fn select_now_playing(tracks: &Vec<Track>) -> (r: Option<Track>)
    ensures
        r is None <==> (forall|i: int| 0 <= i < tracks@.len() ==> !tracks@[i]@.now_playing),
        r matches Some(t) ==> exists|i: int|
            0 <= i < tracks@.len() && tracks@[i] == t && t@.now_playing && (forall|j: int|
                0 <= j < i ==> !tracks@[j]@.now_playing),
{
    let n = tracks.len();
    let mut i: usize = 0;
    while i < n
        invariant
            n == tracks@.len(),
            i <= n,
            forall|j: int| 0 <= j < i ==> !tracks@[j]@.now_playing,
        decreases n - i,
    {
        if tracks[i].now_playing {
            return Some(tracks[i].clone());
        }
        i += 1;
    }
    None
}

} // verus!
