use material_colors::color::Argb;
use material_colors::scheme::Scheme;
use material_colors::theme::ThemeBuilder;
use status_bar::components::current_track::{
    artwork, CurrentTrack, CurrentTrackMessage, ViewChange,
};
use status_bar::data::track::{Fraction, Track};

fn track(id: &str, title: &str, position: i64, duration: i64) -> Track {
    Track {
        id: id.to_string(),
        artist: "Artist".to_string(),
        title: title.to_string(),
        album: "Album".to_string(),
        image: Some("/tmp/cover.png".to_string()),
        position,
        duration,
    }
}

fn scheme() -> Scheme {
    ThemeBuilder::with_source(Argb::from_u32(0x2C563E)).build().schemes.dark
}

fn got(scheme: Option<Scheme>, track: Option<Track>) -> CurrentTrackMessage {
    CurrentTrackMessage::GotTrack(Box::new((scheme, track)))
}

#[test]
fn a_new_component_remembers_nothing() {
    let model = CurrentTrack::new();
    assert!(model.track.is_none());
    assert!(model.previous_track.is_none());
}

#[test]
fn a_real_track_is_shown() {
    let mut model = CurrentTrack::new();
    let change = model.update(false, got(Some(scheme()), Some(track("/t/1", "Song", 90000, 180000))));
    match change {
        ViewChange::Show(shown) => {
            assert_eq!(shown.scheme, Some(scheme()));
            assert_eq!(shown.fraction, Fraction { part: 90000, whole: 180000 });
            assert_eq!(shown.artist, "Artist");
            assert_eq!(shown.title, "Song");
            assert_eq!(shown.image, Some("/tmp/cover.png".to_string()));
        }
        other => panic!("expected the track to be shown, got {other:?}"),
    }
    assert_eq!(model.track.as_ref().unwrap().title, "Song");
    assert!(model.previous_track.is_none());
}

#[test]
fn a_track_without_scheme_is_shown_without() {
    let mut model = CurrentTrack::new();
    match model.update(true, got(None, Some(track("/t/1", "Song", 0, 10)))) {
        ViewChange::Show(shown) => assert!(shown.scheme.is_none()),
        other => panic!("expected the track to be shown, got {other:?}"),
    }
}

#[test]
fn an_unreal_track_hides_visible_widgets() {
    let mut model = CurrentTrack::new();
    let change = model.update(true, got(None, Some(track("/t/1", "Song", 0, 0))));
    assert!(matches!(change, ViewChange::Hide));
    let change = model.update(true, got(None, Some(track("/org/mpris/MediaPlayer2/TrackList/NoTrack", "", 0, 5))));
    assert!(matches!(change, ViewChange::Hide));
    assert_eq!(model.previous_track.as_ref().unwrap().id, "/t/1");
}

#[test]
fn an_unreal_track_with_a_title_is_shown_after_a_change() {
    let mut model = CurrentTrack::new();
    model.update(false, got(None, Some(track("/t/1", "Song", 0, 10))));
    // The remembered tracks differ now: one is present, the other is not.
    let change = model.update(false, got(None, Some(track("/t/2", "Stream", 5, 0))));
    match change {
        ViewChange::Show(shown) => {
            assert_eq!(shown.title, "Stream");
            assert_eq!(shown.fraction, Fraction { part: 0, whole: 1 });
        }
        other => panic!("expected the track to be shown, got {other:?}"),
    }
}

#[test]
fn an_unreal_track_is_left_alone_when_nothing_changed() {
    let mut model = CurrentTrack::new();
    let change = model.update(false, got(None, Some(track("/t/2", "Stream", 5, 0))));
    assert!(matches!(change, ViewChange::Keep));
    let mut model = CurrentTrack::new();
    model.update(false, got(None, Some(track("/t/1", "Song", 0, 10))));
    let change = model.update(false, got(None, Some(track("/t/2", "", 5, 0))));
    assert!(matches!(change, ViewChange::Keep));
    let mut model = CurrentTrack::new();
    model.update(false, got(None, Some(track("/t/1", "Song", 0, 10))));
    model.update(false, got(None, Some(track("/t/1", "Song", 7, 10))));
    // Both remembered tracks are the same but for the position.
    let change = model.update(false, got(None, Some(track("/t/2", "Stream", 5, 0))));
    assert!(matches!(change, ViewChange::Keep));
}

#[test]
fn no_track_hides_visible_widgets() {
    let mut model = CurrentTrack::new();
    model.update(false, got(None, Some(track("/t/1", "Song", 0, 10))));
    assert!(matches!(model.update(true, got(Some(scheme()), None)), ViewChange::Hide));
    assert!(model.track.is_none());
    assert_eq!(model.previous_track.as_ref().unwrap().id, "/t/1");
    assert!(matches!(model.update(false, got(None, None)), ViewChange::Keep));
    assert!(model.previous_track.is_none());
}

#[test]
fn a_new_position_moves_the_progress() {
    let mut model = CurrentTrack::new();
    model.update(false, got(None, Some(track("/t/1", "Song", 0, 180000))));
    match model.update(true, CurrentTrackMessage::PositionChanged(90000)) {
        ViewChange::Progress(fraction) => {
            assert_eq!(fraction, Fraction { part: 90000, whole: 180000 });
            assert_eq!(fraction.part as f64 / fraction.whole as f64, 0.5);
        }
        other => panic!("expected the progress to move, got {other:?}"),
    }
    let current = model.track.as_ref().unwrap();
    assert_eq!(current.position, 90000);
    assert_eq!(current.id, "/t/1");
    assert_eq!(current.artist, "Artist");
    assert_eq!(current.title, "Song");
    assert_eq!(current.album, "Album");
    assert_eq!(current.image, Some("/tmp/cover.png".to_string()));
    assert_eq!(current.duration, 180000);
    assert!(model.previous_track.is_none());
}

#[test]
fn a_position_without_track_changes_nothing() {
    let mut model = CurrentTrack::new();
    assert!(matches!(model.update(true, CurrentTrackMessage::PositionChanged(5)), ViewChange::Keep));
    assert!(model.track.is_none());
}

#[test]
fn a_removed_player_hides_the_widgets() {
    let mut model = CurrentTrack::new();
    model.update(false, got(None, Some(track("/t/1", "Song", 0, 10))));
    assert!(matches!(model.update(true, CurrentTrackMessage::PlayerRemoved), ViewChange::Hide));
    assert!(matches!(model.update(false, CurrentTrackMessage::PlayerRemoved), ViewChange::Hide));
    assert_eq!(model.track.as_ref().unwrap().id, "/t/1");
}

#[test]
fn the_artwork_is_the_image_of_the_track() {
    assert_eq!(artwork(&None), None);
    assert_eq!(artwork(&Some(track("/t/1", "Song", 0, 10))), Some("/tmp/cover.png".to_string()));
    let mut plain = track("/t/1", "Song", 0, 10);
    plain.image = None;
    assert_eq!(artwork(&Some(plain)), None);
}
