//! Choosing the active player among the candidates of one discovery pass.
//!
//! A playing candidate wins over a paused one, a paused one over a stopped
//! one that reports a track, and that one over a stopped one that reports
//! none. Among candidates of one rank the earliest wins. A candidate whose
//! queries failed is never chosen.

use crate::text::same_text;
use vstd::prelude::*;

verus! {

/// What a player says it is doing.
#[derive(Debug, Clone, Copy, PartialEq, Eq, Structural)]
pub enum PlaybackStatus {
    Playing,
    Paused,
    Stopped,
}

impl PlaybackStatus {
    /// The status that a player's answer names: `Playing`, `Paused` or
    /// `Stopped`, spelled exactly so. Any other answer names none.
    pub open spec fn named(answer: Seq<char>) -> Option<PlaybackStatus> {
        if answer == "Playing"@ {
            Some(PlaybackStatus::Playing)
        } else if answer == "Paused"@ {
            Some(PlaybackStatus::Paused)
        } else if answer == "Stopped"@ {
            Some(PlaybackStatus::Stopped)
        } else {
            None
        }
    }

    /// Reads the status from a player's answer.
    pub fn parse(answer: &str) -> (r: Option<PlaybackStatus>)
        ensures
            r == PlaybackStatus::named(answer@),
    {
        if same_text(answer, "Playing") {
            Some(PlaybackStatus::Playing)
        } else if same_text(answer, "Paused") {
            Some(PlaybackStatus::Paused)
        } else if same_text(answer, "Stopped") {
            Some(PlaybackStatus::Stopped)
        } else {
            None
        }
    }
}

/// What the queries to one candidate returned. `None` stands for a query
/// that failed or was not made.
#[derive(Debug, Clone, Copy, PartialEq, Eq, Structural)]
pub struct Observation {
    pub status: Option<PlaybackStatus>,
    pub has_track: Option<bool>,
}

/// The four grounds on which a candidate can be chosen, best first.
#[derive(Debug, Clone, Copy, PartialEq, Eq, Structural)]
pub enum Rank {
    Playing,
    Paused,
    WithTrack,
    Found,
}

impl Observation {
    /// Whether the candidate is eligible on the ground `rank`.
    pub open spec fn has_rank(self, rank: Rank) -> bool {
        match rank {
            Rank::Playing => self.status == Some(PlaybackStatus::Playing),
            Rank::Paused => self.status == Some(PlaybackStatus::Paused),
            Rank::WithTrack => self.status == Some(PlaybackStatus::Stopped) && self.has_track
                == Some(true),
            Rank::Found => self.status == Some(PlaybackStatus::Stopped) && self.has_track
                == Some(false),
        }
    }

    /// The candidate's standing as a number: 4 for playing down to 1 for a
    /// stopped player without a track, and 0 for one that cannot be chosen.
    pub open spec fn standing(self) -> int {
        if self.has_rank(Rank::Playing) {
            4
        } else if self.has_rank(Rank::Paused) {
            3
        } else if self.has_rank(Rank::WithTrack) {
            2
        } else if self.has_rank(Rank::Found) {
            1
        } else {
            0
        }
    }
}

/// The index of the earliest candidate that is eligible on the ground `rank`.
pub open spec fn first_of(candidates: Seq<Observation>, rank: Rank) -> Option<int>
    decreases candidates.len(),
{
    if candidates.len() == 0 {
        None
    } else {
        match first_of(candidates.drop_last(), rank) {
            Some(i) => Some(i),
            None => if candidates.last().has_rank(rank) {
                Some(candidates.len() - 1)
            } else {
                None
            },
        }
    }
}

/// The first of two options that holds a value.
pub open spec fn or_else(a: Option<int>, b: Option<int>) -> Option<int> {
    match a {
        Some(_) => a,
        None => b,
    }
}

/// The index of the candidate to show, if any can be chosen.
pub open spec fn chosen(candidates: Seq<Observation>) -> Option<int> {
    or_else(
        first_of(candidates, Rank::Playing),
        or_else(
            first_of(candidates, Rank::Paused),
            or_else(first_of(candidates, Rank::WithTrack), first_of(candidates, Rank::Found)),
        ),
    )
}

/// The running state of a selection: how many candidates were seen, and
/// the earliest one found on each ground.
#[derive(Debug, Clone, Copy, PartialEq, Eq, Structural)]
pub struct Selector {
    pub seen: usize,
    pub playing: Option<usize>,
    pub paused: Option<usize>,
    pub with_track: Option<usize>,
    pub found: Option<usize>,
}

/// `slot`, or `index` where `slot` is empty and `hit` holds.
pub open spec fn filled(slot: Option<usize>, hit: bool, index: usize) -> Option<usize> {
    if slot is None && hit {
        Some(index)
    } else {
        slot
    }
}

/// An index of the machine's width as a mathematical one.
pub open spec fn as_index(slot: Option<usize>) -> Option<int> {
    match slot {
        Some(i) => Some(i as int),
        None => None,
    }
}

impl Selector {
    /// The state before any candidate was seen.
    pub open spec fn start() -> Selector {
        Selector { seen: 0, playing: None, paused: None, with_track: None, found: None }
    }

    /// The state after one more candidate.
    pub open spec fn step(self, candidate: Observation) -> Selector {
        Selector {
            seen: (self.seen + 1) as usize,
            playing: filled(self.playing, candidate.has_rank(Rank::Playing), self.seen),
            paused: filled(self.paused, candidate.has_rank(Rank::Paused), self.seen),
            with_track: filled(self.with_track, candidate.has_rank(Rank::WithTrack), self.seen),
            found: filled(self.found, candidate.has_rank(Rank::Found), self.seen),
        }
    }

    /// The state after all of `candidates`, in order.
    pub open spec fn run(candidates: Seq<Observation>) -> Selector
        decreases candidates.len(),
    {
        if candidates.len() == 0 {
            Selector::start()
        } else {
            Selector::run(candidates.drop_last()).step(candidates.last())
        }
    }

    /// The candidate this state settles on.
    pub open spec fn outcome(self) -> Option<int> {
        or_else(
            as_index(self.playing),
            or_else(
                as_index(self.paused),
                or_else(as_index(self.with_track), as_index(self.found)),
            ),
        )
    }

    /// Whether a candidate with this status has to be asked for its
    /// metadata: only a stopped one, and only while neither a paused
    /// candidate nor a stopped one with a track has been seen.
    pub open spec fn needs_track(self, status: Option<PlaybackStatus>) -> bool {
        &&& status == Some(PlaybackStatus::Stopped)
        &&& self.playing is None
        &&& self.paused is None
        &&& self.with_track is None
    }

    /// Starts a selection.
    pub fn new() -> (r: Selector)
        ensures
            r == Selector::start(),
    {
        Selector { seen: 0, playing: None, paused: None, with_track: None, found: None }
    }

    /// Whether the metadata of a candidate with this status can change the
    /// outcome.
    pub fn wants_metadata(&self, status: Option<PlaybackStatus>) -> (r: bool)
        ensures
            r == self.needs_track(status),
    {
        match status {
            Some(PlaybackStatus::Stopped) => self.playing.is_none() && self.paused.is_none()
                && self.with_track.is_none(),
            _ => false,
        }
    }

    /// Takes in the next candidate.
    pub fn observe(&mut self, candidate: Observation)
        requires
            old(self).seen < usize::MAX,
        ensures
            *final(self) == old(self).step(candidate),
    {
        let index = self.seen;
        match candidate.status {
            Some(PlaybackStatus::Playing) => {
                if self.playing.is_none() {
                    self.playing = Some(index);
                }
            },
            Some(PlaybackStatus::Paused) => {
                if self.paused.is_none() {
                    self.paused = Some(index);
                }
            },
            Some(PlaybackStatus::Stopped) => {
                match candidate.has_track {
                    Some(true) => {
                        if self.with_track.is_none() {
                            self.with_track = Some(index);
                        }
                    },
                    Some(false) => {
                        if self.found.is_none() {
                            self.found = Some(index);
                        }
                    },
                    None => {},
                }
            },
            None => {},
        }
        self.seen = index + 1;
    }

    /// Whether a playing candidate was seen, so that no later candidate can
    /// change the outcome.
    pub fn is_decided(&self) -> (r: bool)
        ensures
            r == (self.playing is Some),
    {
        self.playing.is_some()
    }

    /// The candidate the selection settles on.
    pub fn choice(&self) -> (r: Option<usize>)
        ensures
            as_index(r) == self.outcome(),
    {
        if self.playing.is_some() {
            self.playing
        } else if self.paused.is_some() {
            self.paused
        } else if self.with_track.is_some() {
            self.with_track
        } else {
            self.found
        }
    }
}

/// Running the selector over a list finds, on each ground, the earliest
/// eligible candidate, and so settles on the chosen one.
pub proof fn lemma_run_finds_first(candidates: Seq<Observation>)
    requires
        candidates.len() <= usize::MAX,
    ensures
        Selector::run(candidates).seen == candidates.len(),
        as_index(Selector::run(candidates).playing) == first_of(candidates, Rank::Playing),
        as_index(Selector::run(candidates).paused) == first_of(candidates, Rank::Paused),
        as_index(Selector::run(candidates).with_track) == first_of(candidates, Rank::WithTrack),
        as_index(Selector::run(candidates).found) == first_of(candidates, Rank::Found),
        Selector::run(candidates).outcome() == chosen(candidates),
    decreases candidates.len(),
{
    if candidates.len() > 0 {
        lemma_run_finds_first(candidates.drop_last());
    }
}

/// `first_of` names an eligible candidate before which none is eligible on
/// the same ground, and names none only where none is eligible.
pub proof fn lemma_first_of(candidates: Seq<Observation>, rank: Rank)
    ensures
        match first_of(candidates, rank) {
            Some(i) => {
                &&& 0 <= i < candidates.len()
                &&& candidates[i].has_rank(rank)
                &&& forall|j: int| 0 <= j < i ==> !(#[trigger] candidates[j]).has_rank(rank)
            },
            None => forall|j: int|
                0 <= j < candidates.len() ==> !(#[trigger] candidates[j]).has_rank(rank),
        },
    decreases candidates.len(),
{
    if candidates.len() > 0 {
        let front = candidates.drop_last();
        lemma_first_of(front, rank);
        assert(forall|j: int| 0 <= j < front.len() ==> front[j] == candidates[j]);
    }
}

/// The selection is the earliest candidate of the best standing present:
/// nobody stands higher than the chosen one, nobody before it stands as
/// high, and nothing is chosen only where nobody can be.
pub proof fn chosen_obeys_priority(candidates: Seq<Observation>)
    ensures
        match chosen(candidates) {
            Some(i) => {
                &&& 0 <= i < candidates.len()
                &&& candidates[i].standing() > 0
                &&& forall|j: int|
                    0 <= j < candidates.len() ==> (#[trigger] candidates[j]).standing()
                        <= candidates[i].standing()
                &&& forall|j: int|
                    0 <= j < i ==> (#[trigger] candidates[j]).standing()
                        < candidates[i].standing()
            },
            None => forall|j: int|
                0 <= j < candidates.len() ==> (#[trigger] candidates[j]).standing() == 0,
        },
{
    lemma_first_of(candidates, Rank::Playing);
    lemma_first_of(candidates, Rank::Paused);
    lemma_first_of(candidates, Rank::WithTrack);
    lemma_first_of(candidates, Rank::Found);
}

/// With no candidate there is nothing to choose.
pub proof fn chosen_of_none()
    ensures
        chosen(Seq::<Observation>::empty()) is None,
{
}

/// Metadata that the selector did not ask for cannot change the outcome:
/// a candidate seen without it leads to the same choice as the same
/// candidate seen with it.
pub proof fn unasked_metadata_is_irrelevant(
    before: Seq<Observation>,
    status: Option<PlaybackStatus>,
    has_track: Option<bool>,
    after: Seq<Observation>,
)
    requires
        !Selector::run(before).needs_track(status),
        before.len() < usize::MAX,
    ensures
        chosen(before.push(Observation { status, has_track }) + after) == chosen(
            before.push(Observation { status, has_track: None }) + after,
        ),
{
    let with = before.push(Observation { status, has_track }) + after;
    let without = before.push(Observation { status, has_track: None }) + after;
    let k = before.len() as int;
    lemma_run_finds_first(before);
    lemma_first_of(before, Rank::Playing);
    lemma_first_of(before, Rank::Paused);
    lemma_first_of(before, Rank::WithTrack);
    assert(forall|j: int| 0 <= j < k ==> with[j] == before[j] && without[j] == before[j]);
    assert(forall|j: int| k < j < with.len() ==> with[j] == without[j]);
    assert(with[k].status == status && without[k].status == status);
    lemma_first_is_unique(with, without, Rank::Playing);
    lemma_first_is_unique(with, without, Rank::Paused);
    if with[k].standing() != without[k].standing() {
        // Only a stopped candidate stands differently with its metadata, and
        // then an earlier candidate already outranks or precedes it.
        lemma_first_of(with, Rank::Playing);
        lemma_first_of(with, Rank::Paused);
        lemma_first_of(with, Rank::WithTrack);
        lemma_first_of(with, Rank::Found);
        lemma_first_of(without, Rank::Playing);
        lemma_first_of(without, Rank::Paused);
        lemma_first_of(without, Rank::WithTrack);
        lemma_first_of(without, Rank::Found);
        chosen_obeys_priority(with);
        chosen_obeys_priority(without);
        let early = if first_of(before, Rank::Playing) is Some {
            first_of(before, Rank::Playing)->0
        } else if first_of(before, Rank::Paused) is Some {
            first_of(before, Rank::Paused)->0
        } else {
            first_of(before, Rank::WithTrack)->0
        };
        assert(0 <= early < k);
        assert(with[early] == before[early] && without[early] == before[early]);
        assert(with[early].standing() >= 2);
    } else {
        lemma_first_is_unique(with, without, Rank::WithTrack);
        lemma_first_is_unique(with, without, Rank::Found);
    }
}

/// Two lists whose candidates agree on a ground have the same first
/// candidate on it.
proof fn lemma_first_is_unique(a: Seq<Observation>, b: Seq<Observation>, rank: Rank)
    requires
        a.len() == b.len(),
        forall|j: int| 0 <= j < a.len() ==> a[j].has_rank(rank) == b[j].has_rank(rank),
    ensures
        first_of(a, rank) == first_of(b, rank),
    decreases a.len(),
{
    if a.len() > 0 {
        assert(forall|j: int| 0 <= j < a.len() - 1 ==> a.drop_last()[j] == a[j]);
        assert(forall|j: int| 0 <= j < a.len() - 1 ==> b.drop_last()[j] == b[j]);
        lemma_first_is_unique(a.drop_last(), b.drop_last(), rank);
    }
}

/// Chooses among fully observed candidates.
pub fn select(candidates: &Vec<Observation>) -> (r: Option<usize>)
    ensures
        as_index(r) == chosen(candidates@),
{
    let mut selector = Selector::new();
    let mut i: usize = 0;
    while i < candidates.len()
        invariant
            i <= candidates.len(),
            selector == Selector::run(candidates@.take(i as int)),
            selector.seen == i,
        decreases candidates.len() - i,
    {
        proof {
            assert(candidates@.take(i + 1).drop_last() == candidates@.take(i as int));
        }
        selector.observe(candidates[i]);
        i = i + 1;
    }
    proof {
        assert(candidates@.take(candidates.len() as int) == candidates@);
        lemma_run_finds_first(candidates@);
    }
    selector.choice()
}

} // verus!
