use status_bar::components::session::{Reaction, Tracker};
use status_bar::data::track::Metadata;

const VLC: &str = "org.mpris.MediaPlayer2.vlc";
const MPV: &str = "org.mpris.MediaPlayer2.mpv";

fn metadata(length: Option<i64>) -> Metadata {
    Metadata {
        track_id: Some("/track/1".to_string()),
        artists: None,
        title: Some("Song".to_string()),
        album: None,
        art_url: None,
        length,
    }
}

#[test]
fn a_new_tracker_is_idle() {
    let tracker = Tracker::new();
    assert!(!tracker.is_active());
    assert!(tracker.session.is_none());
    assert_eq!(tracker.started, 0);
    assert!(!tracker.is_current(0));
}

#[test]
fn an_empty_bus_leads_to_silence() {
    let mut tracker = Tracker::new();
    assert_eq!(tracker.adopt(None), Reaction::Ignore);
    assert!(!tracker.is_active());
    assert_eq!(tracker.position_tick(0, Some(5)), None);
    assert!(tracker.track_update(0, metadata(Some(1)), Some(0)).is_none());
}

#[test]
fn a_selected_player_is_observed() {
    let mut tracker = Tracker::new();
    assert_eq!(tracker.adopt(Some(VLC.to_string())), Reaction::Observe(0));
    assert!(tracker.is_active());
    assert!(tracker.is_current(0));
    assert_eq!(tracker.session.as_ref().unwrap().name, VLC);
    assert_eq!(tracker.started, 1);
}

#[test]
fn a_second_selection_is_ignored_while_active() {
    let mut tracker = Tracker::new();
    tracker.adopt(Some(VLC.to_string()));
    assert_eq!(tracker.adopt(Some(MPV.to_string())), Reaction::Ignore);
    assert_eq!(tracker.session.as_ref().unwrap().name, VLC);
    assert_eq!(tracker.started, 1);
}

#[test]
fn losing_the_active_player_removes_it_once() {
    let mut tracker = Tracker::new();
    tracker.adopt(Some(VLC.to_string()));
    assert_eq!(tracker.position_tick(0, Some(10)), Some(10));
    assert_eq!(tracker.owner_changed(VLC, None), Reaction::Remove(0));
    assert!(!tracker.is_active());
    assert_eq!(tracker.owner_changed(VLC, None), Reaction::Ignore);
    assert_eq!(tracker.position_tick(0, Some(11)), None);
    assert_eq!(tracker.position_tick(0, Some(12)), None);
    assert!(tracker.track_update(0, metadata(Some(1)), Some(0)).is_none());
}

#[test]
fn an_empty_owner_counts_as_departure() {
    let mut tracker = Tracker::new();
    tracker.adopt(Some(VLC.to_string()));
    assert_eq!(tracker.owner_changed(VLC, Some("")), Reaction::Remove(0));
    assert!(!tracker.is_active());
}

#[test]
fn the_departure_of_another_player_changes_nothing() {
    let mut tracker = Tracker::new();
    tracker.adopt(Some(VLC.to_string()));
    assert_eq!(tracker.owner_changed(MPV, None), Reaction::Ignore);
    assert!(tracker.is_active());
    assert_eq!(tracker.position_tick(0, Some(10)), Some(10));
}

#[test]
fn a_departure_while_idle_is_ignored() {
    let mut tracker = Tracker::new();
    assert_eq!(tracker.owner_changed(VLC, None), Reaction::Ignore);
    assert!(!tracker.is_active());
}

#[test]
fn a_new_player_while_idle_asks_for_a_rescan() {
    let mut tracker = Tracker::new();
    assert_eq!(tracker.owner_changed(VLC, Some(":1.42")), Reaction::Rescan);
    assert!(!tracker.is_active());
    assert_eq!(tracker.adopt(Some(VLC.to_string())), Reaction::Observe(0));
}

#[test]
fn a_new_player_while_active_is_ignored() {
    let mut tracker = Tracker::new();
    tracker.adopt(Some(VLC.to_string()));
    assert_eq!(tracker.owner_changed(MPV, Some(":1.42")), Reaction::Ignore);
    assert_eq!(tracker.owner_changed(VLC, Some(":1.43")), Reaction::Ignore);
    assert_eq!(tracker.session.as_ref().unwrap().name, VLC);
}

#[test]
fn names_outside_the_namespace_are_ignored() {
    let mut tracker = Tracker::new();
    assert_eq!(tracker.owner_changed("org.freedesktop.Notifications", Some(":1.1")), Reaction::Ignore);
    tracker.adopt(Some("org.example.Player".to_string()));
    assert_eq!(tracker.owner_changed("org.example.Player", None), Reaction::Ignore);
    assert!(tracker.is_active());
}

#[test]
fn the_old_session_is_removed_before_the_next_starts() {
    let mut tracker = Tracker::new();
    let mut reactions = vec![];
    reactions.push(tracker.adopt(Some(VLC.to_string())));
    reactions.push(tracker.owner_changed(MPV, Some(":1.9")));
    reactions.push(tracker.adopt(Some(MPV.to_string())));
    reactions.push(tracker.owner_changed(VLC, None));
    reactions.push(tracker.owner_changed(MPV, Some(":1.9")));
    reactions.push(tracker.adopt(Some(MPV.to_string())));
    assert_eq!(
        reactions,
        vec![
            Reaction::Observe(0),
            Reaction::Ignore,
            Reaction::Ignore,
            Reaction::Remove(0),
            Reaction::Rescan,
            Reaction::Observe(1),
        ]
    );
    assert_eq!(tracker.position_tick(0, Some(1)), None);
    assert_eq!(tracker.position_tick(1, Some(1)), Some(1));
    assert!(tracker.track_update(0, metadata(Some(5)), None).is_none());
}

#[test]
fn at_most_one_task_runs_whatever_happens() {
    let mut tracker = Tracker::new();
    let mut running: Option<u64> = None;
    let script: [(&str, Option<&str>, Option<&str>); 9] = [
        (VLC, Some(":1.1"), Some(VLC)),
        (MPV, Some(":1.2"), Some(MPV)),
        (MPV, None, None),
        (VLC, None, None),
        (VLC, None, None),
        (MPV, Some(":1.2"), Some(MPV)),
        (MPV, Some(""), None),
        (VLC, Some(":1.3"), None),
        (VLC, Some(":1.3"), Some(VLC)),
    ];
    for (name, owner, found) in script {
        let mut reaction = tracker.owner_changed(name, owner);
        if reaction == Reaction::Rescan {
            reaction = tracker.adopt(found.map(|f| f.to_string()));
        }
        match reaction {
            Reaction::Observe(id) => {
                assert_eq!(running, None);
                running = Some(id);
            }
            Reaction::Remove(id) => {
                assert_eq!(running, Some(id));
                running = None;
            }
            Reaction::Ignore => {}
            Reaction::Rescan => panic!("a rescan was answered by a rescan"),
        }
        assert_eq!(running.is_some(), tracker.is_active());
    }
    assert_eq!(tracker.started, 3);
}

#[test]
fn a_failed_read_skips_the_tick() {
    let mut tracker = Tracker::new();
    tracker.adopt(Some(VLC.to_string()));
    assert_eq!(tracker.position_tick(0, None), None);
    assert_eq!(tracker.position_tick(0, Some(-3)), Some(-3));
    assert_eq!(tracker.position_tick(1, Some(4)), None);
}

#[test]
fn the_current_session_reports_its_track() {
    let mut tracker = Tracker::new();
    tracker.adopt(Some(VLC.to_string()));
    let track = tracker.track_update(0, metadata(Some(180000)), Some(90000)).unwrap().unwrap();
    assert_eq!(track.title, "Song");
    assert_eq!(track.position, 90000);
    assert_eq!(track.duration, 180000);
    let track = tracker.track_update(0, metadata(Some(180000)), None).unwrap().unwrap();
    assert_eq!(track.position, 0);
    assert_eq!(tracker.track_update(0, metadata(None), Some(3)), Some(None));
}

#[test]
fn no_session_starts_once_the_numbers_ran_out() {
    let mut tracker = Tracker::new();
    tracker.started = u64::MAX;
    assert_eq!(tracker.adopt(Some(VLC.to_string())), Reaction::Ignore);
    assert!(!tracker.is_active());
    tracker.started = u64::MAX - 1;
    assert_eq!(tracker.adopt(Some(VLC.to_string())), Reaction::Observe(u64::MAX - 1));
    assert_eq!(tracker.started, u64::MAX);
}
