//! What the bar shows of the current track.
//!
//! The component keeps the last two tracks it was told of and decides, for
//! each message, what becomes of its widgets: nothing, hidden, shown with
//! new contents, or only the progress moved.

use crate::data::track::{opt_text, progress, Fraction, Track, TrackView};
use material_colors::scheme::Scheme;
use vstd::prelude::*;

verus! {

/// The colour scheme derived from a track's artwork. Nothing is known of
/// its contents here; it is handed on as it came.
#[verifier::external_type_specification]
#[verifier::external_body]
pub struct ExScheme(Scheme);

/// What the tracker tells the component.
#[derive(Debug)]
pub enum CurrentTrackMessage {
    /// The player's track, or none, and the scheme of its artwork, if one
    /// could be derived.
    GotTrack(Box<(Option<Scheme>, Option<Track>)>),
    /// Playback is at this position now.
    PositionChanged(i64),
    /// The observed player is gone.
    PlayerRemoved,
}

/// The tracks the component remembers.
#[derive(Debug)]
pub struct CurrentTrack {
    pub previous_track: Option<Track>,
    pub track: Option<Track>,
}

/// What is shown of a track.
#[derive(Debug)]
pub struct Shown {
    pub scheme: Option<Scheme>,
    pub fraction: Fraction,
    pub artist: String,
    pub title: String,
    pub image: Option<String>,
}

/// What becomes of the widgets after a message.
#[derive(Debug)]
pub enum ViewChange {
    /// They stay as they are.
    Keep,
    /// They are hidden.
    Hide,
    /// They are shown with these contents.
    Show(Shown),
    /// Only the progress moves.
    Progress(Fraction),
}

/// The content of an optional track.
pub open spec fn opt_track(t: Option<Track>) -> Option<TrackView> {
    match t {
        Some(t) => Some(t@),
        None => None,
    }
}

/// Whether two optional tracks are both absent or describe the same track.
pub open spec fn same_tracks(a: Option<TrackView>, b: Option<TrackView>) -> bool {
    match (a, b) {
        (Some(x), Some(y)) => x.same_track(y),
        (None, None) => true,
        _ => false,
    }
}

/// The three things that can become of the widgets when a track arrives.
pub enum Verdict {
    Keep,
    Hide,
    Show,
}

/// What becomes of the widgets when `track` arrives while `current` and
/// `previous` are remembered: a track that is not real hides visible
/// widgets; a real track is shown, and so is one with a title that arrives
/// when the two remembered tracks differ.
pub open spec fn verdict(
    visible: bool,
    previous: Option<TrackView>,
    current: Option<TrackView>,
    track: Option<TrackView>,
) -> Verdict {
    match track {
        Some(t) => if visible && !t.is_real() {
            Verdict::Hide
        } else if t.is_real() || (!same_tracks(current, previous) && t.title.len() > 0) {
            Verdict::Show
        } else {
            Verdict::Keep
        },
        None => if visible {
            Verdict::Hide
        } else {
            Verdict::Keep
        },
    }
}

/// The fraction that `progress` gives.
pub open spec fn fraction_at(f: Fraction, position: int, duration: int) -> bool {
    f.wf() && (f.part as int, f.whole as int) == progress(position, duration)
}

impl Shown {
    /// Whether this is what is shown of `track` under `scheme`.
    pub open spec fn shows(self, scheme: Option<Scheme>, track: TrackView) -> bool {
        &&& self.scheme == scheme
        &&& fraction_at(self.fraction, track.position, track.duration)
        &&& self.artist@ == track.artist
        &&& self.title@ == track.title
        &&& opt_text(self.image) == track.image
    }
}

fn tracks_agree(a: &Option<Track>, b: &Option<Track>) -> (r: bool)
    ensures
        r == same_tracks(opt_track(*a), opt_track(*b)),
{
    match (a, b) {
        (Some(x), Some(y)) => *x == *y,
        (None, None) => true,
        _ => false,
    }
}

fn shown(scheme: Option<Scheme>, track: &Track) -> (r: Shown)
    ensures
        r.shows(scheme, track@),
{
    let image = match &track.image {
        Some(path) => Some(path.clone()),
        None => None,
    };
    Shown {
        scheme,
        fraction: track.fraction(),
        artist: track.artist.clone(),
        title: track.title.clone(),
        image,
    }
}

/// The local file that holds a track's artwork, if it has one.
pub fn artwork(track: &Option<Track>) -> (r: Option<String>)
    ensures
        opt_text(r) == match opt_track(*track) {
            Some(t) => t.image,
            None => None,
        },
{
    match track {
        Some(t) => match &t.image {
            Some(path) => Some(path.clone()),
            None => None,
        },
        None => None,
    }
}

impl CurrentTrack {
    /// A component that has not been told of any track.
    pub fn new() -> (r: CurrentTrack)
        ensures
            r.previous_track is None,
            r.track is None,
    {
        CurrentTrack { previous_track: None, track: None }
    }

    /// Takes in a message and says what becomes of the widgets, which are
    /// visible or not as `visible` says.
    ///
    /// A track that arrives replaces the current one, which becomes the
    /// previous one. A new position moves the progress of the current
    /// track, if there is one. When the player is gone the widgets are
    /// hidden.
    pub fn update(&mut self, visible: bool, message: CurrentTrackMessage) -> (r: ViewChange)
        ensures
            match message {
                CurrentTrackMessage::GotTrack(pair) => {
                    &&& opt_track(final(self).previous_track) == opt_track(old(self).track)
                    &&& opt_track(final(self).track) == opt_track(pair.1)
                    &&& match verdict(
                        visible,
                        opt_track(old(self).previous_track),
                        opt_track(old(self).track),
                        opt_track(pair.1),
                    ) {
                        Verdict::Keep => r is Keep,
                        Verdict::Hide => r is Hide,
                        Verdict::Show => r is Show && r->Show_0.shows(pair.0, pair.1->0@),
                    }
                },
                CurrentTrackMessage::PositionChanged(position) => {
                    &&& opt_track(final(self).previous_track) == opt_track(
                        old(self).previous_track,
                    )
                    &&& match opt_track(old(self).track) {
                        Some(t) => {
                            &&& opt_track(final(self).track) == Some(
                                TrackView { position: position as int, ..t },
                            )
                            &&& r is Progress
                            &&& fraction_at(r->Progress_0, position as int, t.duration)
                        },
                        None => final(self).track is None && r is Keep,
                    }
                },
                CurrentTrackMessage::PlayerRemoved => {
                    &&& opt_track(final(self).previous_track) == opt_track(
                        old(self).previous_track,
                    )
                    &&& opt_track(final(self).track) == opt_track(old(self).track)
                    &&& r is Hide
                },
            },
    {
        match message {
            CurrentTrackMessage::GotTrack(pair) => {
                let (scheme, track) = *pair;
                let change = match &track {
                    Some(t) => {
                        let genuine = t.is_real();
                        if visible && !genuine {
                            ViewChange::Hide
                        } else if genuine || (!tracks_agree(&self.track, &self.previous_track)
                            && t.title.as_str().unicode_len() > 0) {
                            ViewChange::Show(shown(scheme, t))
                        } else {
                            ViewChange::Keep
                        }
                    },
                    None => if visible {
                        ViewChange::Hide
                    } else {
                        ViewChange::Keep
                    },
                };
                self.previous_track = self.track.take();
                self.track = track;
                change
            },
            CurrentTrackMessage::PositionChanged(position) => {
                match self.track.take() {
                    Some(track) => {
                        let fraction = Fraction::of(position, track.duration);
                        self.track = Some(Track { position, ..track });
                        ViewChange::Progress(fraction)
                    },
                    None => ViewChange::Keep,
                }
            },
            CurrentTrackMessage::PlayerRemoved => ViewChange::Hide,
        }
    }
}

} // verus!
