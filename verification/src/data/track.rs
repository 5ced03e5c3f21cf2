//! The track a media player reports, and how far into it playback is.

use crate::text::{has_prefix, has_suffix, join, joined, strip_prefix, texts, ends_with};
use vstd::prelude::*;
use vstd::std_specs::cmp::PartialEqSpec;
use vstd::std_specs::cmp::PartialEqSpecImpl;

verus! {

/// What a player publishes about its current track. Every entry may be
/// absent; each field is named after the entry it is read from.
#[derive(Debug)]
pub struct Metadata {
    /// The entry [`TRACK_ID_ENTRY`].
    pub track_id: Option<String>,
    /// The entry [`ARTIST_ENTRY`].
    pub artists: Option<Vec<String>>,
    /// The entry [`TITLE_ENTRY`].
    pub title: Option<String>,
    /// The entry [`ALBUM_ENTRY`].
    pub album: Option<String>,
    /// The entry [`ART_URL_ENTRY`].
    pub art_url: Option<String>,
    /// The entry [`LENGTH_ENTRY`].
    pub length: Option<i64>,
}

pub const TRACK_ID_ENTRY: &'static str = "mpris:trackid";

pub const ARTIST_ENTRY: &'static str = "xesam:artist";

pub const TITLE_ENTRY: &'static str = "xesam:title";

pub const ALBUM_ENTRY: &'static str = "xesam:album";

pub const ART_URL_ENTRY: &'static str = "mpris:artUrl";

pub const LENGTH_ENTRY: &'static str = "mpris:length";

/// A track as the bar shows it.
#[derive(Debug)]
pub struct Track {
    pub id: String,
    pub artist: String,
    pub title: String,
    pub album: String,
    pub image: Option<String>,
    pub position: i64,
    pub duration: i64,
}

/// The mathematical content of a [`Track`].
pub struct TrackView {
    pub id: Seq<char>,
    pub artist: Seq<char>,
    pub title: Seq<char>,
    pub album: Seq<char>,
    pub image: Option<Seq<char>>,
    pub position: int,
    pub duration: int,
}

impl TrackView {
    /// Two views describe the same track when they agree on everything but
    /// the playback position.
    pub open spec fn same_track(self, other: TrackView) -> bool {
        &&& self.id == other.id
        &&& self.artist == other.artist
        &&& self.title == other.title
        &&& self.album == other.album
        &&& self.image == other.image
        &&& self.duration == other.duration
    }

    /// A track is real when it has a length and its identifier is not the
    /// one players use for "nothing is loaded".
    pub open spec fn is_real(self) -> bool {
        self.duration != 0 && !has_suffix(self.id, NO_TRACK_SUFFIX@)
    }
}

/// Text of an optional string.
pub open spec fn opt_text(s: Option<String>) -> Option<Seq<char>> {
    match s {
        Some(s) => Some(s@),
        None => None,
    }
}

impl View for Track {
    type V = TrackView;

    open spec fn view(&self) -> TrackView {
        TrackView {
            id: self.id@,
            artist: self.artist@,
            title: self.title@,
            album: self.album@,
            image: opt_text(self.image),
            position: self.position as int,
            duration: self.duration as int,
        }
    }
}

pub const UNKNOWN_ID: &'static str = "UNKNOWN";

pub const UNKNOWN_ARTIST: &'static str = "Unknown artist";

pub const UNKNOWN_TITLE: &'static str = "Unknown title";

pub const UNKNOWN_ALBUM: &'static str = "Unknown album";

pub const ARTIST_SEPARATOR: &'static str = ", ";

pub const FILE_SCHEME: &'static str = "file://";

pub const NO_TRACK_SUFFIX: &'static str = "NoTrack";

/// The artist line: the artists separated by commas, or a placeholder.
pub open spec fn artist_text(artists: Option<Vec<String>>) -> Seq<char> {
    match artists {
        Some(list) => joined(texts(list@), ARTIST_SEPARATOR@),
        None => UNKNOWN_ARTIST@,
    }
}

/// The text of an optional string, or `fallback` when it is absent.
pub open spec fn text_or(s: Option<String>, fallback: Seq<char>) -> Seq<char> {
    match s {
        Some(s) => s@,
        None => fallback,
    }
}

/// The local path an artwork address names: what follows `file://`, and
/// nothing for an address of any other kind.
pub open spec fn local_path(art_url: Option<String>) -> Option<Seq<char>> {
    match art_url {
        Some(url) => if has_prefix(url@, FILE_SCHEME@) {
            Some(url@.skip(FILE_SCHEME@.len() as int))
        } else {
            None
        },
        None => None,
    }
}

/// The track that `metadata` and `position` describe, given the length
/// `duration` that the metadata carried.
pub open spec fn track_of(metadata: Metadata, position: i64, duration: i64) -> TrackView {
    TrackView {
        id: text_or(metadata.track_id, UNKNOWN_ID@),
        artist: artist_text(metadata.artists),
        title: text_or(metadata.title, UNKNOWN_TITLE@),
        album: text_or(metadata.album, UNKNOWN_ALBUM@),
        image: local_path(metadata.art_url),
        position: position as int,
        duration: duration as int,
    }
}

impl Metadata {
    /// Metadata with no entry at all.
    pub open spec fn spec_is_empty(&self) -> bool {
        &&& self.track_id is None
        &&& self.artists is None
        &&& self.title is None
        &&& self.album is None
        &&& self.art_url is None
        &&& self.length is None
    }

    /// Whether the player published nothing.
    #[verifier::when_used_as_spec(spec_is_empty)]
    pub fn is_empty(&self) -> (r: bool)
        ensures
            r == self.spec_is_empty(),
    {
        self.track_id.is_none() && self.artists.is_none() && self.title.is_none()
            && self.album.is_none() && self.art_url.is_none() && self.length.is_none()
    }
}

fn owned_or(s: Option<String>, fallback: &str) -> (r: String)
    ensures
        r@ == text_or(s, fallback@),
{
    match s {
        Some(s) => s,
        None => fallback.to_owned(),
    }
}

impl Track {
    /// Builds the track that a player's metadata describes.
    ///
    /// Metadata without a length describes no track. Absent texts are
    /// replaced by placeholders, and the artwork is kept only when it is a
    /// local file.
    #[must_use]
    pub fn new(metadata: Metadata, position: i64) -> (r: Option<Track>)
        ensures
            metadata.length is None ==> r is None,
            metadata.length is Some ==> r is Some && r->0@ == track_of(
                metadata,
                position,
                metadata.length->0,
            ),
    {
        let Metadata { track_id, artists, title, album, art_url, length } = metadata;
        let artist = match artists {
            Some(list) => join(&list, ARTIST_SEPARATOR),
            None => UNKNOWN_ARTIST.to_owned(),
        };
        let title = owned_or(title, UNKNOWN_TITLE);
        let album = owned_or(album, UNKNOWN_ALBUM);
        let duration = match length {
            Some(d) => d,
            None => {
                return None;
            },
        };
        let image = match art_url {
            Some(url) => strip_prefix(url.as_str(), FILE_SCHEME),
            None => None,
        };
        let id = owned_or(track_id, UNKNOWN_ID);
        Some(Track { id, artist, title, album, image, position, duration })
    }

    /// How far playback is into this track.
    pub fn fraction(&self) -> (r: Fraction)
        ensures
            r.wf(),
            (r.part as int, r.whole as int) == progress(self@.position, self@.duration),
            self.duration == 0 ==> r.part == 0,
    {
        Fraction::of(self.position, self.duration)
    }

    /// Whether this is a track a player is really playing.
    pub fn is_real(&self) -> (r: bool)
        ensures
            r == self@.is_real(),
    {
        self.duration != 0 && !ends_with(self.id.as_str(), NO_TRACK_SUFFIX)
    }
}

impl Clone for Track {
    fn clone(&self) -> (r: Self)
        ensures
            r@ == self@,
    {
        let image = match &self.image {
            Some(path) => Some(path.clone()),
            None => None,
        };
        Track {
            id: self.id.clone(),
            artist: self.artist.clone(),
            title: self.title.clone(),
            album: self.album.clone(),
            image,
            position: self.position,
            duration: self.duration,
        }
    }
}

impl PartialEq for Track {
    /// Compares everything but the playback position.
    fn eq(&self, other: &Self) -> (r: bool) {
        self.id == other.id && self.artist == other.artist && self.title == other.title
            && self.album == other.album && same_text(&self.image, &other.image)
            && self.duration == other.duration
    }
}

impl PartialEqSpecImpl for Track {
    open spec fn obeys_eq_spec() -> bool {
        true
    }

    open spec fn eq_spec(&self, other: &Self) -> bool {
        self@.same_track(other@)
    }
}

/// How far playback is into a track, as the exact ratio `part / whole`.
#[derive(Debug, Clone, Copy, PartialEq, Eq, Structural)]
pub struct Fraction {
    pub part: u64,
    pub whole: u64,
}

/// `x` limited to the range from `low` to `high`.
pub open spec fn clamped(x: int, low: int, high: int) -> int {
    if x < low {
        low
    } else if x > high {
        high
    } else {
        x
    }
}

/// The ratio `position / duration` limited to the range from 0 to 1, as a
/// numerator and a positive denominator. A track without length is at 0.
pub open spec fn progress(position: int, duration: int) -> (int, int) {
    if duration == 0 {
        (0, 1)
    } else if duration > 0 {
        (clamped(position, 0, duration), duration)
    } else {
        (clamped(-position, 0, -duration), -duration)
    }
}

/// The size of `x` without its sign.
fn magnitude(x: i64) -> (r: u64)
    ensures
        r == if x < 0 {
            -x
        } else {
            x as int
        },
{
    if x < 0 {
        ((-(x + 1)) as u64) + 1
    } else {
        x as u64
    }
}

impl Fraction {
    /// A fraction is well formed when it lies between 0 and 1.
    pub open spec fn wf(self) -> bool {
        self.part <= self.whole && self.whole > 0
    }

    /// The fraction of a track of length `duration` that lies before
    /// `position`.
    pub fn of(position: i64, duration: i64) -> (r: Fraction)
        ensures
            r.wf(),
            (r.part as int, r.whole as int) == progress(position as int, duration as int),
            duration == 0 ==> r.part == 0,
    {
        if duration == 0 {
            return Fraction { part: 0, whole: 1 };
        }
        let whole = magnitude(duration);
        let forward = (position >= 0) == (duration > 0);
        let part = if !forward {
            0
        } else {
            let p = magnitude(position);
            if p > whole {
                whole
            } else {
                p
            }
        };
        Fraction { part, whole }
    }

    /// Whether playback has not started.
    pub fn is_zero(&self) -> (r: bool)
        ensures
            r == (self.part == 0),
    {
        self.part == 0
    }
}

/// The fraction is the exact ratio wherever the ratio lies between 0 and 1,
/// and the nearer end of that range elsewhere.
pub proof fn fraction_is_clamped_ratio(position: int, duration: int)
    requires
        duration != 0,
    ensures
        ({
            let (part, whole) = progress(position, duration);
            &&& 0 <= part <= whole
            &&& 0 < whole
            &&& (0 <= position * duration && position * position <= position * duration)
                ==> part * duration == position * whole
            &&& position * duration < 0 ==> part == 0
            &&& (0 <= position * duration && position * position > position * duration)
                ==> part == whole
        }),
{
    assert(position > 0 && duration > 0 ==> position * duration > 0) by (nonlinear_arith);
    assert(position < 0 && duration < 0 ==> position * duration > 0) by (nonlinear_arith);
    assert(position > 0 && duration < 0 ==> position * duration < 0) by (nonlinear_arith);
    assert(position < 0 && duration > 0 ==> position * duration < 0) by (nonlinear_arith);
    assert(position > 0 ==> (position * position <= position * duration <==> position
        <= duration)) by (nonlinear_arith);
    assert(position < 0 ==> (position * position <= position * duration <==> position
        >= duration)) by (nonlinear_arith);
    assert((-position) * duration == position * (-duration)) by (nonlinear_arith);
}

/// Equality of tracks does not look at the position: two tracks are equal
/// exactly when setting one's position to the other's makes them the same
/// in every field. So a change of position alone keeps a track equal to
/// itself, and a change of any other field does not.
pub proof fn equality_ignores_position(a: Track, b: Track, position: int)
    ensures
        PartialEqSpec::eq_spec(&a, &b) <==> a@ == (TrackView { position: a@.position, ..b@ }),
        a@.same_track(TrackView { position, ..a@ }),
{
    let moved = TrackView { position: a@.position, ..b@ };
    if a@.same_track(b@) {
        assert(a@.id == moved.id);
        assert(a@.image == moved.image);
    }
}

fn same_text(a: &Option<String>, b: &Option<String>) -> (r: bool)
    ensures
        r == (opt_text(*a) == opt_text(*b)),
{
    match (a, b) {
        (Some(x), Some(y)) => *x == *y,
        (None, None) => true,
        _ => false,
    }
}

} // verus!
