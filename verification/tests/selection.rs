use status_bar::mpris::directory::Player;
use status_bar::mpris::selection::{select, Observation, PlaybackStatus, Selector};

fn seen(status: Option<PlaybackStatus>, has_track: Option<bool>) -> Observation {
    Observation { status, has_track }
}

const PLAYING: Option<PlaybackStatus> = Some(PlaybackStatus::Playing);
const PAUSED: Option<PlaybackStatus> = Some(PlaybackStatus::Paused);
const STOPPED: Option<PlaybackStatus> = Some(PlaybackStatus::Stopped);

#[test]
fn nothing_is_chosen_among_no_candidates() {
    assert_eq!(select(&vec![]), None);
    assert!(Player::find_active(vec![]).is_none());
    assert_eq!(Selector::new().choice(), None);
}

#[test]
fn paused_with_track_beats_stopped_without() {
    let candidates = vec![seen(PAUSED, Some(true)), seen(STOPPED, Some(false))];
    assert_eq!(select(&candidates), Some(0));
    let reversed = vec![seen(STOPPED, Some(false)), seen(PAUSED, Some(true))];
    assert_eq!(select(&reversed), Some(1));
}

#[test]
fn playing_beats_everything() {
    let candidates = vec![
        seen(STOPPED, Some(false)),
        seen(STOPPED, Some(true)),
        seen(PAUSED, Some(true)),
        seen(PLAYING, Some(false)),
        seen(PLAYING, Some(true)),
    ];
    assert_eq!(select(&candidates), Some(3));
}

#[test]
fn paused_beats_stopped_with_track() {
    let candidates = vec![seen(STOPPED, Some(true)), seen(PAUSED, Some(false)), seen(PAUSED, Some(true))];
    assert_eq!(select(&candidates), Some(1));
}

#[test]
fn a_track_beats_none_among_stopped() {
    let candidates = vec![seen(STOPPED, Some(false)), seen(STOPPED, Some(true)), seen(STOPPED, Some(true))];
    assert_eq!(select(&candidates), Some(1));
}

#[test]
fn the_first_found_is_the_last_resort() {
    let candidates = vec![seen(None, Some(true)), seen(STOPPED, Some(false)), seen(STOPPED, Some(false))];
    assert_eq!(select(&candidates), Some(1));
}

#[test]
fn failed_queries_exclude_a_candidate() {
    assert_eq!(select(&vec![seen(None, None)]), None);
    assert_eq!(select(&vec![seen(None, Some(true))]), None);
    assert_eq!(select(&vec![seen(STOPPED, None)]), None);
    assert_eq!(select(&vec![seen(STOPPED, None), seen(STOPPED, Some(false))]), Some(1));
    assert_eq!(select(&vec![seen(None, None), seen(PLAYING, None)]), Some(1));
    assert_eq!(select(&vec![seen(None, None), seen(PAUSED, None)]), Some(1));
}

#[test]
fn ties_go_to_the_earlier_candidate() {
    assert_eq!(select(&vec![seen(PLAYING, None), seen(PLAYING, None)]), Some(0));
    assert_eq!(select(&vec![seen(PAUSED, None), seen(PAUSED, None)]), Some(0));
    assert_eq!(select(&vec![seen(STOPPED, Some(true)), seen(STOPPED, Some(true))]), Some(0));
    assert_eq!(select(&vec![seen(STOPPED, Some(false)), seen(STOPPED, Some(false))]), Some(0));
}

#[test]
fn selection_is_repeatable() {
    let candidates = vec![seen(STOPPED, Some(true)), seen(PAUSED, None), seen(None, None)];
    let first = select(&candidates);
    for _ in 0..10 {
        assert_eq!(select(&candidates), first);
    }
    assert_eq!(first, Some(1));
}

#[test]
fn every_mix_of_two_follows_the_priority() {
    let kinds = [
        (seen(PLAYING, None), 4),
        (seen(PAUSED, None), 3),
        (seen(STOPPED, Some(true)), 2),
        (seen(STOPPED, Some(false)), 1),
        (seen(STOPPED, None), 0),
        (seen(None, None), 0),
    ];
    for (a, ra) in kinds {
        for (b, rb) in kinds {
            let expected = if ra == 0 && rb == 0 {
                None
            } else if ra >= rb {
                Some(0)
            } else {
                Some(1)
            };
            assert_eq!(select(&vec![a, b]), expected);
        }
    }
}

#[test]
fn the_selector_counts_and_fills_its_slots() {
    let mut selector = Selector::new();
    assert_eq!(selector.seen, 0);
    selector.observe(seen(STOPPED, Some(false)));
    selector.observe(seen(STOPPED, Some(true)));
    selector.observe(seen(PAUSED, None));
    selector.observe(seen(PAUSED, None));
    assert_eq!(selector.seen, 4);
    assert_eq!(selector.found, Some(0));
    assert_eq!(selector.with_track, Some(1));
    assert_eq!(selector.paused, Some(2));
    assert_eq!(selector.playing, None);
    assert!(!selector.is_decided());
    assert_eq!(selector.choice(), Some(2));
    selector.observe(seen(PLAYING, None));
    assert!(selector.is_decided());
    assert_eq!(selector.choice(), Some(4));
}

#[test]
fn metadata_is_wanted_only_where_it_can_matter() {
    let mut selector = Selector::new();
    assert!(selector.wants_metadata(STOPPED));
    assert!(!selector.wants_metadata(PAUSED));
    assert!(!selector.wants_metadata(PLAYING));
    assert!(!selector.wants_metadata(None));
    selector.observe(seen(STOPPED, Some(false)));
    assert!(selector.wants_metadata(STOPPED));
    selector.observe(seen(STOPPED, Some(true)));
    assert!(!selector.wants_metadata(STOPPED));
    let mut selector = Selector::new();
    selector.observe(seen(PAUSED, None));
    assert!(!selector.wants_metadata(STOPPED));
    let mut selector = Selector::new();
    selector.observe(seen(PLAYING, None));
    assert!(!selector.wants_metadata(STOPPED));
}

#[test]
fn asking_only_when_wanted_gives_the_same_choice() {
    let full = vec![
        seen(STOPPED, Some(false)),
        seen(STOPPED, Some(true)),
        seen(STOPPED, Some(true)),
        seen(PAUSED, Some(true)),
        seen(STOPPED, Some(false)),
    ];
    let mut selector = Selector::new();
    for candidate in &full {
        let has_track = if selector.wants_metadata(candidate.status) { candidate.has_track } else { None };
        selector.observe(seen(candidate.status, has_track));
    }
    assert_eq!(selector.choice(), select(&full));
    assert_eq!(selector.choice(), Some(3));
}

fn player(name: &str, status: Option<PlaybackStatus>, has_track: Option<bool>) -> Player {
    Player { name: name.to_string(), status, has_track }
}

#[test]
fn the_active_player_is_handed_out() {
    let players = vec![
        player("org.mpris.MediaPlayer2.a", STOPPED, Some(false)),
        player("org.mpris.MediaPlayer2.b", PAUSED, Some(true)),
        player("org.mpris.MediaPlayer2.c", STOPPED, Some(true)),
    ];
    let active = Player::find_active(players).unwrap();
    assert_eq!(active.name, "org.mpris.MediaPlayer2.b");
    assert_eq!(active.status, PAUSED);
    assert_eq!(active.has_track, Some(true));
    let nobody = vec![player("org.mpris.MediaPlayer2.a", None, None)];
    assert!(Player::find_active(nobody).is_none());
}

#[test]
fn a_status_is_read_from_its_exact_name() {
    assert_eq!(PlaybackStatus::parse("Playing"), PLAYING);
    assert_eq!(PlaybackStatus::parse("Paused"), PAUSED);
    assert_eq!(PlaybackStatus::parse("Stopped"), STOPPED);
    assert_eq!(PlaybackStatus::parse("playing"), None);
    assert_eq!(PlaybackStatus::parse("Playing "), None);
    assert_eq!(PlaybackStatus::parse(""), None);
    assert_eq!(PlaybackStatus::parse("Buffering"), None);
}
