//! Which player is being observed, and what to do when the bus changes.
//!
//! The tracker is idle or observes exactly one player. It reacts to two
//! things: a change of ownership of a bus name, and the outcome of a
//! discovery pass. Its reactions tell the caller which observation task to
//! start or to cancel, so that a new one starts only after the previous one
//! was cancelled. Each session has a number of its own, and what an
//! observation task reports is passed on only while its session is the
//! current one.

use crate::data::track::{opt_text, track_of, Metadata, Track};
use crate::mpris::directory::{is_player, is_player_name};
use crate::text::same_text;
use vstd::prelude::*;

verus! {

/// The position of the observed player is read once in so many seconds.
pub const POSITION_INTERVAL_SECONDS: u64 = 1;

/// One period of observing one player.
#[derive(Debug)]
pub struct Session {
    pub id: u64,
    pub name: String,
}

/// The state of the tracker.
#[derive(Debug)]
pub struct Tracker {
    pub session: Option<Session>,
    pub started: u64,
}

/// What the caller has to do after an event.
#[derive(Debug, Clone, Copy, PartialEq, Eq, Structural)]
pub enum Reaction {
    /// Nothing.
    Ignore,
    /// Run a discovery pass and hand its outcome to [`Tracker::adopt`].
    Rescan,
    /// Start observing the adopted player, as the session of this number.
    Observe(u64),
    /// Cancel the observation task of this session, then report that the
    /// player is gone.
    Remove(u64),
}

/// The mathematical content of a [`Tracker`]: the current session, if any,
/// and the number of sessions started so far.
pub struct TrackerView {
    pub session: Option<SessionView>,
    pub started: int,
}

/// The mathematical content of a [`Session`].
pub struct SessionView {
    pub id: int,
    pub name: Seq<char>,
}

/// What can happen to the tracker.
pub enum Input {
    /// A discovery pass ended with this player, or with none.
    Adopt(Option<Seq<char>>),
    /// The bus reported that a name has this new owner, or none.
    OwnerChanged(Seq<char>, Option<Seq<char>>),
}

/// The most sessions a tracker ever starts.
pub open spec fn session_limit() -> int {
    u64::MAX as int
}

/// Whether the owner field of a change says that the peer is gone: it is
/// absent or empty.
pub open spec fn departed(new_owner: Option<Seq<char>>) -> bool {
    match new_owner {
        Some(owner) => owner.len() == 0,
        None => true,
    }
}

impl TrackerView {
    /// The tracker before anything happened.
    pub open spec fn initial() -> TrackerView {
        TrackerView { session: None, started: 0 }
    }

    /// The state after `input`.
    pub open spec fn next(self, input: Input) -> TrackerView {
        match input {
            Input::Adopt(Some(name)) => if self.session is None && self.started
                < session_limit() {
                TrackerView {
                    session: Some(SessionView { id: self.started, name }),
                    started: self.started + 1,
                }
            } else {
                self
            },
            Input::Adopt(None) => self,
            Input::OwnerChanged(name, new_owner) => if is_player(name) && departed(new_owner)
                && self.session is Some && self.session->0.name == name {
                TrackerView { session: None, started: self.started }
            } else {
                self
            },
        }
    }

    /// What the caller is told to do on `input`.
    pub open spec fn reaction(self, input: Input) -> Reaction {
        match input {
            Input::Adopt(Some(name)) => if self.session is None && self.started
                < session_limit() {
                Reaction::Observe(self.started as u64)
            } else {
                Reaction::Ignore
            },
            Input::Adopt(None) => Reaction::Ignore,
            Input::OwnerChanged(name, new_owner) => if !is_player(name) {
                Reaction::Ignore
            } else if departed(new_owner) {
                if self.session is Some && self.session->0.name == name {
                    Reaction::Remove(self.session->0.id as u64)
                } else {
                    Reaction::Ignore
                }
            } else if self.session is None {
                Reaction::Rescan
            } else {
                Reaction::Ignore
            },
        }
    }

    /// The state after all of `inputs`, in order.
    pub open spec fn after(inputs: Seq<Input>) -> TrackerView
        decreases inputs.len(),
    {
        if inputs.len() == 0 {
            TrackerView::initial()
        } else {
            TrackerView::after(inputs.drop_last()).next(inputs.last())
        }
    }

    /// The reactions to `inputs`, one for each.
    pub open spec fn reactions(inputs: Seq<Input>) -> Seq<Reaction>
        decreases inputs.len(),
    {
        if inputs.len() == 0 {
            Seq::empty()
        } else {
            TrackerView::reactions(inputs.drop_last()).push(
                TrackerView::after(inputs.drop_last()).reaction(inputs.last()),
            )
        }
    }
}

/// The session whose observation task runs after the caller carried out
/// `reactions`, where `None` also stands for a sequence that started a task
/// beside a running one or cancelled one that did not run.
pub open spec fn running(reactions: Seq<Reaction>) -> Option<Option<int>>
    decreases reactions.len(),
{
    if reactions.len() == 0 {
        Some(None)
    } else {
        match running(reactions.drop_last()) {
            None => None,
            Some(task) => match reactions.last() {
                Reaction::Ignore => Some(task),
                Reaction::Rescan => Some(task),
                Reaction::Observe(id) => if task is None {
                    Some(Some(id as int))
                } else {
                    None
                },
                Reaction::Remove(id) => if task == Some(id as int) {
                    Some(None)
                } else {
                    None
                },
            },
        }
    }
}

/// The number of the current session, if there is one.
pub open spec fn session_id(state: TrackerView) -> Option<int> {
    match state.session {
        Some(session) => Some(session.id),
        None => None,
    }
}

/// Whatever happens, at most one observation task runs, and it is the one
/// of the current session: a task is started only while none runs, and
/// only the running one is cancelled.
pub proof fn one_session_at_a_time(inputs: Seq<Input>)
    ensures
        running(TrackerView::reactions(inputs)) == Some(session_id(TrackerView::after(inputs))),
        0 <= TrackerView::after(inputs).started <= session_limit(),
        TrackerView::after(inputs).session is Some ==> 0 <= TrackerView::after(
            inputs,
        ).session->0.id < TrackerView::after(inputs).started,
    decreases inputs.len(),
{
    if inputs.len() > 0 {
        let front = inputs.drop_last();
        one_session_at_a_time(front);
        let all = TrackerView::reactions(inputs);
        assert(all.drop_last() == TrackerView::reactions(front));
        assert(all.last() == TrackerView::after(front).reaction(inputs.last()));
    }
}

/// Between the starts of two observation tasks the first one is cancelled.
pub proof fn cancelled_before_next_start(inputs: Seq<Input>, i: int, j: int)
    requires
        0 <= i < j < inputs.len(),
        TrackerView::reactions(inputs)[i] is Observe,
        TrackerView::reactions(inputs)[j] is Observe,
    ensures
        exists|k: int|
            i < k < j && #[trigger] TrackerView::reactions(inputs)[k] == Reaction::Remove(
                TrackerView::reactions(inputs)[i]->Observe_0,
            ),
    decreases inputs.len(),
{
    let all = TrackerView::reactions(inputs);
    let front = inputs.drop_last();
    assert(all.drop_last() == TrackerView::reactions(front));
    lemma_reactions_len(inputs);
    lemma_reactions_len(front);
    if j < inputs.len() - 1 {
        cancelled_before_next_start(front, i, j);
        let k = choose|k: int|
            i < k < j && #[trigger] TrackerView::reactions(front)[k] == Reaction::Remove(
                TrackerView::reactions(front)[i]->Observe_0,
            );
        assert(all[k] == TrackerView::reactions(front)[k]);
        assert(all[i] == TrackerView::reactions(front)[i]);
    } else {
        // The last reaction starts a task, so none ran before it; the task
        // started at `i` was therefore cancelled in between.
        one_session_at_a_time(front);
        lemma_cancelled_by(front, i);
        let k = choose|k: int|
            i < k < front.len() && #[trigger] TrackerView::reactions(front)[k]
                == Reaction::Remove(TrackerView::reactions(front)[i]->Observe_0);
        assert(all[k] == TrackerView::reactions(front)[k]);
        assert(all[i] == TrackerView::reactions(front)[i]);
    }
}

/// Session numbers are handed out in rising order, so that no two sessions
/// share one.
pub proof fn session_numbers_rise(inputs: Seq<Input>, i: int, j: int)
    requires
        0 <= i < j < inputs.len(),
        TrackerView::reactions(inputs)[i] is Observe,
        TrackerView::reactions(inputs)[j] is Observe,
    ensures
        TrackerView::reactions(inputs)[i]->Observe_0 < TrackerView::reactions(
            inputs,
        )[j]->Observe_0,
    decreases inputs.len(),
{
    let all = TrackerView::reactions(inputs);
    let front = inputs.drop_last();
    assert(all.drop_last() == TrackerView::reactions(front));
    lemma_reactions_len(inputs);
    lemma_reactions_len(front);
    if j < inputs.len() - 1 {
        session_numbers_rise(front, i, j);
        assert(all[i] == TrackerView::reactions(front)[i]);
        assert(all[j] == TrackerView::reactions(front)[j]);
    } else {
        one_session_at_a_time(front);
        lemma_started_bounds(front, i);
        assert(all[i] == TrackerView::reactions(front)[i]);
    }
}

/// The number of a session that was started is below the count of
/// sessions started.
proof fn lemma_started_bounds(inputs: Seq<Input>, i: int)
    requires
        0 <= i < inputs.len(),
        TrackerView::reactions(inputs)[i] is Observe,
    ensures
        TrackerView::reactions(inputs)[i]->Observe_0 < TrackerView::after(inputs).started,
    decreases inputs.len(),
{
    let all = TrackerView::reactions(inputs);
    let front = inputs.drop_last();
    assert(all.drop_last() == TrackerView::reactions(front));
    lemma_reactions_len(inputs);
    lemma_reactions_len(front);
    one_session_at_a_time(front);
    if i < inputs.len() - 1 {
        lemma_started_bounds(front, i);
        assert(all[i] == TrackerView::reactions(front)[i]);
    }
}

/// There is one reaction for each input.
pub proof fn lemma_reactions_len(inputs: Seq<Input>)
    ensures
        TrackerView::reactions(inputs).len() == inputs.len(),
    decreases inputs.len(),
{
    if inputs.len() > 0 {
        lemma_reactions_len(inputs.drop_last());
    }
}

/// A task that was started and does not run any more was cancelled.
proof fn lemma_cancelled_by(inputs: Seq<Input>, i: int)
    requires
        0 <= i < inputs.len(),
        TrackerView::reactions(inputs)[i] is Observe,
        TrackerView::after(inputs).session is None || TrackerView::after(inputs).session->0.id
            != TrackerView::reactions(inputs)[i]->Observe_0,
    ensures
        exists|k: int|
            i < k < inputs.len() && #[trigger] TrackerView::reactions(inputs)[k]
                == Reaction::Remove(TrackerView::reactions(inputs)[i]->Observe_0),
    decreases inputs.len(),
{
    let all = TrackerView::reactions(inputs);
    let front = inputs.drop_last();
    let last = inputs.len() - 1;
    assert(all.drop_last() == TrackerView::reactions(front));
    lemma_reactions_len(inputs);
    lemma_reactions_len(front);
    one_session_at_a_time(front);
    one_session_at_a_time(inputs);
    let id = all[i]->Observe_0;
    if i == last {
        // Just started: it is the current session.
        assert(false);
    } else {
        assert(all[i] == TrackerView::reactions(front)[i]);
        let before = TrackerView::after(front);
        if before.session is Some && before.session->0.id == id {
            // It ran until the last input, which must have cancelled it.
            assert(all[last] == Reaction::Remove(id));
        } else {
            lemma_cancelled_by(front, i);
            let k = choose|k: int|
                i < k < front.len() && #[trigger] TrackerView::reactions(front)[k]
                    == Reaction::Remove(id);
            assert(all[k] == TrackerView::reactions(front)[k]);
        }
    }
}

impl View for Tracker {
    type V = TrackerView;

    open spec fn view(&self) -> TrackerView {
        TrackerView {
            session: match self.session {
                Some(session) => Some(SessionView { id: session.id as int, name: session.name@ }),
                None => None,
            },
            started: self.started as int,
        }
    }
}

/// The text of an optional string slice.
pub open spec fn slice_text(s: Option<&str>) -> Option<Seq<char>> {
    match s {
        Some(s) => Some(s@),
        None => None,
    }
}

impl Tracker {
    /// A tracker that observes nothing yet.
    pub fn new() -> (r: Tracker)
        ensures
            r@ == TrackerView::initial(),
    {
        Tracker { session: None, started: 0 }
    }

    /// Whether a player is being observed.
    pub fn is_active(&self) -> (r: bool)
        ensures
            r == (self@.session is Some),
    {
        self.session.is_some()
    }

    /// Whether `id` is the number of the current session.
    pub fn is_current(&self, id: u64) -> (r: bool)
        ensures
            r == (session_id(self@) == Some(id as int)),
    {
        match &self.session {
            Some(session) => session.id == id,
            None => false,
        }
    }

    /// Takes in the outcome of a discovery pass: the bus name of the player
    /// that was selected, if one was. While idle, a selected player becomes
    /// the current session and is to be observed; otherwise nothing changes.
    pub fn adopt(&mut self, selected: Option<String>) -> (r: Reaction)
        ensures
            final(self)@ == old(self)@.next(Input::Adopt(opt_text(selected))),
            r == old(self)@.reaction(Input::Adopt(opt_text(selected))),
    {
        match selected {
            Some(name) => {
                if self.session.is_none() && self.started < u64::MAX {
                    let id = self.started;
                    self.session = Some(Session { id, name });
                    self.started = id + 1;
                    Reaction::Observe(id)
                } else {
                    Reaction::Ignore
                }
            },
            None => Reaction::Ignore,
        }
    }

    /// Takes in a change of ownership of a bus name. Names outside the
    /// media-player namespace are ignored. When the observed player is
    /// gone, its session ends and is to be removed; when a player appeared
    /// while idle, a discovery pass is due.
    pub fn owner_changed(&mut self, name: &str, new_owner: Option<&str>) -> (r: Reaction)
        ensures
            final(self)@ == old(self)@.next(Input::OwnerChanged(name@, slice_text(new_owner))),
            r == old(self)@.reaction(Input::OwnerChanged(name@, slice_text(new_owner))),
    {
        if !is_player_name(name) {
            return Reaction::Ignore;
        }
        let gone = match new_owner {
            Some(owner) => owner.unicode_len() == 0,
            None => true,
        };
        if gone {
            let ended = match &self.session {
                Some(session) => if same_text(session.name.as_str(), name) {
                    Some(session.id)
                } else {
                    None
                },
                None => None,
            };
            match ended {
                Some(id) => {
                    self.session = None;
                    Reaction::Remove(id)
                },
                None => Reaction::Ignore,
            }
        } else if self.session.is_none() {
            Reaction::Rescan
        } else {
            Reaction::Ignore
        }
    }

    /// The position to report for a tick of the session `id`: the position
    /// that was read, unless the read failed or the session is over.
    pub fn position_tick(&self, id: u64, position: Option<i64>) -> (r: Option<i64>)
        ensures
            r == if session_id(self@) == Some(id as int) {
                position
            } else {
                None
            },
    {
        if self.is_current(id) {
            position
        } else {
            None
        }
    }

    /// The track to report when the session `id` read its player's
    /// metadata, at first or after a change: the outer option is empty when
    /// the session is over, the inner one when the metadata describes no
    /// track. A position that could not be read counts as 0.
    pub fn track_update(&self, id: u64, metadata: Metadata, position: Option<i64>) -> (r: Option<
        Option<Track>,
    >)
        ensures
            session_id(self@) != Some(id as int) ==> r is None,
            session_id(self@) == Some(id as int) ==> r is Some && match metadata.length {
                Some(duration) => r->0 is Some && r->0->0@ == track_of(
                    metadata,
                    position_or_start(position),
                    duration,
                ),
                None => r->0 is None,
            },
    {
        if self.is_current(id) {
            let position = match position {
                Some(p) => p,
                None => 0,
            };
            Some(Track::new(metadata, position))
        } else {
            None
        }
    }
}

/// The position that was read, or the start of the track.
pub open spec fn position_or_start(position: Option<i64>) -> i64 {
    match position {
        Some(p) => p,
        None => 0,
    }
}

} // verus!
