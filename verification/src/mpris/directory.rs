//! Which bus peers are media players, and in which order they are tried.

use crate::mpris::selection::{
    chosen, chosen_obeys_priority, select, Observation, PlaybackStatus,
};
use crate::text::{has_prefix, starts_with, texts};
use vstd::prelude::*;
use vstd::utf8::encode_utf8;

verus! {

/// Bus names of media players begin with this.
pub const PLAYER_NAMESPACE: &'static str = "org.mpris.MediaPlayer2.";

/// Whether a bus name lies in the media-player namespace.
pub open spec fn is_player(name: Seq<char>) -> bool {
    has_prefix(name, PLAYER_NAMESPACE@)
}

/// Tests whether a bus name lies in the media-player namespace.
pub fn is_player_name(name: &str) -> (r: bool)
    ensures
        r == is_player(name@),
{
    starts_with(name, PLAYER_NAMESPACE)
}

/// The lower-case form of a text, as the standard library computes it from
/// the Unicode character tables.
pub uninterp spec fn lowercase(s: Seq<char>) -> Seq<char>;

/// `str::to_lowercase` of the standard library. The result is taken to be
/// a function of the text alone; nothing else is claimed of it.
#[verifier::external_body]
fn to_lowercase(s: &str) -> (r: String)
    ensures
        r@ == lowercase(s@),
{
    s.to_lowercase()
}

/// Whether `a` comes strictly before `b` when both are read byte by byte:
/// at the first difference the smaller byte decides, and a proper prefix
/// comes first.
pub open spec fn lex_lt(a: Seq<u8>, b: Seq<u8>) -> bool
    decreases a.len(),
{
    if b.len() == 0 {
        false
    } else if a.len() == 0 {
        true
    } else if a[0] != b[0] {
        a[0] < b[0]
    } else {
        lex_lt(a.skip(1), b.skip(1))
    }
}

/// The bytes by which a bus name is ordered: its lower-case form in UTF-8.
pub open spec fn sort_key(name: Seq<char>) -> Seq<u8> {
    encode_utf8(lowercase(name))
}

/// Whether the name at position `a` of `names` is tried before the one at
/// position `b`: the smaller key first, and of two equal keys the one that
/// stood first.
pub open spec fn tried_before(names: Seq<Seq<char>>, a: int, b: int) -> bool {
    ||| lex_lt(sort_key(names[a]), sort_key(names[b]))
    ||| (!lex_lt(sort_key(names[b]), sort_key(names[a])) && a < b)
}

/// Whether `listing` is the players among `names` in the order of trial,
/// where `origin` gives for each listed name its position in `names`.
pub open spec fn is_listing_by(
    names: Seq<Seq<char>>,
    listing: Seq<Seq<char>>,
    origin: Seq<int>,
) -> bool {
    &&& origin.len() == listing.len()
    &&& forall|i: int|
        0 <= i < listing.len() ==> 0 <= #[trigger] origin[i] < names.len() && listing[i]
            == names[origin[i]] && is_player(listing[i])
    &&& forall|k: int|
        0 <= k < names.len() && is_player(#[trigger] names[k]) ==> origin.contains(k)
    &&& forall|i: int, j: int|
        0 <= i < j < listing.len() ==> tried_before(names, #[trigger] origin[i], #[trigger] origin[j])
}

/// Whether `listing` holds exactly the players among `names`, each once for
/// each time it occurs, ordered by lower-case name without regard to case,
/// names of equal key in the order in which they stood.
pub open spec fn is_listing(names: Seq<Seq<char>>, listing: Seq<Seq<char>>) -> bool {
    exists|origin: Seq<int>| is_listing_by(names, listing, origin)
}

/// Among listed candidates of equal standing the one whose name is tried
/// first is chosen: whoever stands as high as the chosen candidate comes
/// after it in the order of names.
pub proof fn ties_go_to_the_earlier_name(
    names: Seq<Seq<char>>,
    listing: Seq<Seq<char>>,
    origin: Seq<int>,
    candidates: Seq<Observation>,
    other: int,
)
    requires
        is_listing_by(names, listing, origin),
        candidates.len() == listing.len(),
        chosen(candidates) is Some,
        0 <= other < candidates.len(),
        other != chosen(candidates)->0,
        candidates[other].standing() == candidates[chosen(candidates)->0].standing(),
    ensures
        chosen(candidates)->0 < other,
        tried_before(names, origin[chosen(candidates)->0], origin[other]),
{
    chosen_obeys_priority(candidates);
}

/// No text comes before itself, and of two texts at most one comes before
/// the other.
pub proof fn lemma_lex_asymmetric(a: Seq<u8>, b: Seq<u8>)
    ensures
        !(lex_lt(a, b) && lex_lt(b, a)),
    decreases a.len(),
{
    if a.len() > 0 && b.len() > 0 && a[0] == b[0] {
        lemma_lex_asymmetric(a.skip(1), b.skip(1));
    }
}

/// If `c` comes before `a`, then any `b` has `c` before it or comes before
/// `a`: "not after" is transitive.
pub proof fn lemma_lex_transitive(a: Seq<u8>, b: Seq<u8>, c: Seq<u8>)
    requires
        lex_lt(c, a),
    ensures
        lex_lt(c, b) || lex_lt(b, a),
    decreases a.len(),
{
    if c.len() > 0 && b.len() > 0 && a[0] == b[0] && b[0] == c[0] {
        lemma_lex_transitive(a.skip(1), b.skip(1), c.skip(1));
    }
}

/// The order of trial is a strict total order on the positions of a list
/// of names.
pub proof fn lemma_order_of_trial(names: Seq<Seq<char>>, a: int, b: int, c: int)
    ensures
        !tried_before(names, a, a),
        a != b ==> tried_before(names, a, b) || tried_before(names, b, a),
        !(tried_before(names, a, b) && tried_before(names, b, a)),
        tried_before(names, a, b) && tried_before(names, b, c) ==> tried_before(names, a, c),
{
    let ka = sort_key(names[a]);
    let kb = sort_key(names[b]);
    let kc = sort_key(names[c]);
    lemma_lex_asymmetric(ka, ka);
    lemma_lex_asymmetric(ka, kb);
    lemma_lex_asymmetric(kb, kc);
    lemma_lex_asymmetric(ka, kc);
    if tried_before(names, a, b) && tried_before(names, b, c) {
        if lex_lt(kc, ka) {
            lemma_lex_transitive(ka, kb, kc);
        }
        if lex_lt(ka, kb) {
            lemma_lex_transitive(kb, kc, ka);
        }
        if lex_lt(kb, kc) {
            lemma_lex_transitive(kc, ka, kb);
        }
    }
}

/// Two listings of the same names agree on their first `n` places.
proof fn lemma_listings_agree(
    names: Seq<Seq<char>>,
    first: Seq<Seq<char>>,
    first_origin: Seq<int>,
    second: Seq<Seq<char>>,
    second_origin: Seq<int>,
    n: int,
)
    requires
        is_listing_by(names, first, first_origin),
        is_listing_by(names, second, second_origin),
        0 <= n <= first.len(),
        n <= second.len(),
    ensures
        forall|i: int| 0 <= i < n ==> first_origin[i] == second_origin[i],
    decreases n,
{
    if n > 0 {
        let m = n - 1;
        lemma_listings_agree(names, first, first_origin, second, second_origin, m);
        let x = first_origin[m];
        let y = second_origin[m];
        assert(first[m] == names[x] && is_player(first[m]));
        assert(second[m] == names[y] && is_player(second[m]));
        assert(second_origin.contains(x));
        assert(first_origin.contains(y));
        let j = choose|j: int| 0 <= j < second_origin.len() && second_origin[j] == x;
        let k = choose|k: int| 0 <= k < first_origin.len() && first_origin[k] == y;
        lemma_order_of_trial(names, x, y, x);
        if j < m {
            assert(first_origin[j] == second_origin[j]);
            assert(tried_before(names, first_origin[j], first_origin[m]));
        } else if j > m {
            assert(tried_before(names, second_origin[m], second_origin[j]));
            if k < m {
                assert(first_origin[k] == second_origin[k]);
                assert(tried_before(names, second_origin[k], second_origin[m]));
                lemma_order_of_trial(names, y, y, y);
            } else if k > m {
                assert(tried_before(names, first_origin[m], first_origin[k]));
            }
        }
    }
}

/// There is only one listing of a list of names: what [`Player::all`]
/// returns is determined by the names and their lower-case forms.
pub proof fn listing_is_unique(
    names: Seq<Seq<char>>,
    first: Seq<Seq<char>>,
    first_origin: Seq<int>,
    second: Seq<Seq<char>>,
    second_origin: Seq<int>,
)
    requires
        is_listing_by(names, first, first_origin),
        is_listing_by(names, second, second_origin),
    ensures
        first == second,
        first_origin == second_origin,
{
    let shorter = if first.len() <= second.len() {
        first.len() as int
    } else {
        second.len() as int
    };
    lemma_listings_agree(names, first, first_origin, second, second_origin, shorter);
    if first.len() < second.len() {
        let y = second_origin[shorter];
        assert(second[shorter] == names[y] && is_player(second[shorter]));
        assert(first_origin.contains(y));
        let k = choose|k: int| 0 <= k < first_origin.len() && first_origin[k] == y;
        assert(first_origin[k] == second_origin[k]);
        assert(tried_before(names, second_origin[k], second_origin[shorter]));
        lemma_order_of_trial(names, y, y, y);
    } else if second.len() < first.len() {
        let x = first_origin[shorter];
        assert(first[shorter] == names[x] && is_player(first[shorter]));
        assert(second_origin.contains(x));
        let j = choose|j: int| 0 <= j < second_origin.len() && second_origin[j] == x;
        assert(first_origin[j] == second_origin[j]);
        assert(tried_before(names, first_origin[j], first_origin[shorter]));
        lemma_order_of_trial(names, x, x, x);
    }
    assert(first_origin =~= second_origin);
    assert forall|i: int| 0 <= i < first.len() implies first[i] == second[i] by {
        assert(first[i] == names[first_origin[i]]);
        assert(second[i] == names[second_origin[i]]);
    }
    assert(first =~= second);
}

/// Compares two byte strings.
fn bytes_lt(a: &[u8], b: &[u8]) -> (r: bool)
    ensures
        r == lex_lt(a@, b@),
{
    let mut i: usize = 0;
    assert(a@.skip(0) == a@ && b@.skip(0) == b@);
    loop
        invariant
            i <= a.len(),
            i <= b.len(),
            lex_lt(a@, b@) == lex_lt(a@.skip(i as int), b@.skip(i as int)),
        decreases a.len() - i,
    {
        if i == b.len() {
            return false;
        }
        if i == a.len() {
            return true;
        }
        if a[i] != b[i] {
            return a[i] < b[i];
        }
        proof {
            assert(a@.skip(i as int).skip(1) == a@.skip(i + 1));
            assert(b@.skip(i as int).skip(1) == b@.skip(i + 1));
        }
        i = i + 1;
    }
}

/// A candidate player: its bus name, and what it answered when asked.
/// `None` stands for a query that failed or has not been made.
#[derive(Debug)]
pub struct Player {
    pub name: String,
    pub status: Option<PlaybackStatus>,
    pub has_track: Option<bool>,
}

impl Player {
    /// What is known of the candidate's state.
    pub open spec fn observation(self) -> Observation {
        Observation { status: self.status, has_track: self.has_track }
    }
}

/// The names of a list of candidates.
pub open spec fn names_of(players: Seq<Player>) -> Seq<Seq<char>> {
    Seq::new(players.len(), |i: int| players[i].name@)
}

/// What is known of each of a list of candidates.
pub open spec fn observations_of(players: Seq<Player>) -> Seq<Observation> {
    Seq::new(players.len(), |i: int| players[i].observation())
}

/// Where a key goes among keys that are in order: behind every key that
/// is not after it.
fn place_of(keys: &Vec<String>, key: &String) -> (p: usize)
    ensures
        p <= keys.len(),
        forall|i: int|
            p <= i < keys.len() ==> lex_lt(encode_utf8(key@), #[trigger] key_bytes(keys@)[i]),
        p > 0 ==> !lex_lt(encode_utf8(key@), key_bytes(keys@)[p - 1]),
{
    let mut p: usize = keys.len();
    while p > 0 && bytes_lt(key.as_str().as_bytes(), keys[p - 1].as_str().as_bytes())
        invariant
            p <= keys.len(),
            forall|i: int|
                p <= i < keys.len() ==> lex_lt(encode_utf8(key@), #[trigger] key_bytes(keys@)[i]),
        decreases p,
    {
        p = p - 1;
    }
    p
}

/// The key bytes of a list of lower-cased names.
pub open spec fn key_bytes(keys: Seq<String>) -> Seq<Seq<u8>> {
    Seq::new(keys.len(), |i: int| encode_utf8(keys[i]@))
}

/// The state of the listing after the first `k` names were gone through:
/// `listing` holds the players among them in the order of trial, `keys`
/// their sort keys and `origin` their positions.
pub open spec fn listed_upto(
    names: Seq<Seq<char>>,
    listing: Seq<Seq<char>>,
    keys: Seq<Seq<u8>>,
    origin: Seq<int>,
    k: int,
) -> bool {
    &&& origin.len() == listing.len()
    &&& keys.len() == listing.len()
    &&& 0 <= k <= names.len()
    &&& forall|i: int|
        0 <= i < listing.len() ==> 0 <= #[trigger] origin[i] < k && listing[i]
            == names[origin[i]] && is_player(listing[i]) && keys[i] == sort_key(listing[i])
    &&& forall|m: int| 0 <= m < k && is_player(#[trigger] names[m]) ==> origin.contains(m)
    &&& forall|i: int, j: int|
        0 <= i < j < listing.len() ==> tried_before(names, #[trigger] origin[i], #[trigger] origin[j])
}

/// Going past a name that is no player leaves the listing as it is.
proof fn lemma_pass(
    names: Seq<Seq<char>>,
    listing: Seq<Seq<char>>,
    keys: Seq<Seq<u8>>,
    origin: Seq<int>,
    k: int,
)
    requires
        listed_upto(names, listing, keys, origin, k),
        k < names.len(),
        !is_player(names[k]),
    ensures
        listed_upto(names, listing, keys, origin, k + 1),
{
}

/// Putting the next name behind everything that is not after it, and
/// before everything that is, keeps the listing in the order of trial.
proof fn lemma_place(
    names: Seq<Seq<char>>,
    listing: Seq<Seq<char>>,
    keys: Seq<Seq<u8>>,
    origin: Seq<int>,
    k: int,
    p: int,
)
    requires
        listed_upto(names, listing, keys, origin, k),
        k < names.len(),
        is_player(names[k]),
        0 <= p <= listing.len(),
        forall|i: int| p <= i < listing.len() ==> lex_lt(sort_key(names[k]), #[trigger] keys[i]),
        p > 0 ==> !lex_lt(sort_key(names[k]), keys[p - 1]),
    ensures
        listed_upto(
            names,
            listing.insert(p, names[k]),
            keys.insert(p, sort_key(names[k])),
            origin.insert(p, k),
            k + 1,
        ),
{
    let kx = sort_key(names[k]);
    let listing2 = listing.insert(p, names[k]);
    let keys2 = keys.insert(p, kx);
    let origin2 = origin.insert(p, k);
    // Whatever stands before the place found is not after the new name.
    assert forall|i: int| 0 <= i < p implies !lex_lt(kx, #[trigger] keys[i]) by {
        if i < p - 1 {
            assert(tried_before(names, origin[i], origin[p - 1]));
            lemma_lex_asymmetric(keys[i], keys[p - 1]);
            if lex_lt(kx, keys[i]) {
                lemma_lex_transitive(keys[i], keys[p - 1], kx);
            }
        }
    }
    assert forall|i: int| 0 <= i < listing2.len() implies 0 <= #[trigger] origin2[i] < k + 1
        && listing2[i] == names[origin2[i]] && is_player(listing2[i]) && keys2[i] == sort_key(
        listing2[i],
    ) by {
        if i < p {
            assert(origin2[i] == origin[i]);
        } else if i > p {
            assert(origin2[i] == origin[i - 1]);
        }
    }
    assert forall|m: int| 0 <= m < k + 1 && is_player(#[trigger] names[m]) implies origin2.contains(
        m,
    ) by {
        if m == k {
            assert(origin2[p] == m);
        } else {
            let w = choose|w: int| 0 <= w < origin.len() && origin[w] == m;
            if w < p {
                assert(origin2[w] == m);
            } else {
                assert(origin2[w + 1] == m);
            }
        }
    }
    assert forall|i: int, j: int| 0 <= i < j < listing2.len() implies tried_before(
        names,
        #[trigger] origin2[i],
        #[trigger] origin2[j],
    ) by {
        let oi = if i < p {
            i
        } else {
            i - 1
        };
        let oj = if j < p {
            j
        } else {
            j - 1
        };
        if i == p {
            assert(origin2[j] == origin[oj]);
            assert(keys[oj] == sort_key(names[origin[oj]]));
        } else if j == p {
            assert(origin2[i] == origin[oi]);
            assert(keys[oi] == sort_key(names[origin[oi]]));
        } else {
            assert(origin2[i] == origin[oi]);
            assert(origin2[j] == origin[oj]);
            assert(tried_before(names, origin[oi], origin[oj]));
        }
    }
}

impl Player {
    /// The candidates among the names registered on the bus, in the order
    /// in which they are to be tried. None has been asked anything yet.
    pub fn all(names: &Vec<String>) -> (players: Vec<Player>)
        ensures
            is_listing(texts(names@), names_of(players@)),
            forall|i: int|
                0 <= i < players.len() ==> (#[trigger] players[i]).status is None
                    && players[i].has_track is None,
    {
        let mut players: Vec<Player> = Vec::new();
        let mut keys: Vec<String> = Vec::new();
        let ghost all_names = texts(names@);
        let ghost mut origin: Seq<int> = Seq::empty();
        let mut k: usize = 0;
        while k < names.len()
            invariant
                k <= names.len(),
                all_names == texts(names@),
                listed_upto(all_names, names_of(players@), key_bytes(keys@), origin, k as int),
                forall|i: int|
                    0 <= i < players.len() ==> (#[trigger] players[i]).status is None
                        && players[i].has_track is None,
            decreases names.len() - k,
        {
            let name = &names[k];
            assert(name@ == all_names[k as int]);
            if is_player_name(name.as_str()) {
                let key = to_lowercase(name.as_str());
                let p = place_of(&keys, &key);
                let ghost old_players = players@;
                let ghost old_keys = keys@;
                proof {
                    lemma_place(
                        all_names,
                        names_of(old_players),
                        key_bytes(old_keys),
                        origin,
                        k as int,
                        p as int,
                    );
                    origin = origin.insert(p as int, k as int);
                }
                players.insert(p, Player { name: name.clone(), status: None, has_track: None });
                keys.insert(p, key);
                assert(names_of(players@) == names_of(old_players).insert(
                    p as int,
                    all_names[k as int],
                ));
                assert(key_bytes(keys@) == key_bytes(old_keys).insert(
                    p as int,
                    sort_key(all_names[k as int]),
                ));
            } else {
                proof {
                    lemma_pass(all_names, names_of(players@), key_bytes(keys@), origin, k as int);
                }
            }
            k = k + 1;
        }
        proof {
            assert(is_listing_by(all_names, names_of(players@), origin));
        }
        players
    }

    /// The candidate to show among those of one discovery pass, by the
    /// priority of the selection.
    pub fn find_active(players: Vec<Player>) -> (r: Option<Player>)
        ensures
            match chosen(observations_of(players@)) {
                Some(i) => r == Some(players@[i]),
                None => r is None,
            },
    {
        let mut players = players;
        let mut seen: Vec<Observation> = Vec::new();
        let mut i: usize = 0;
        while i < players.len()
            invariant
                i <= players.len(),
                seen@ == observations_of(players@).take(i as int),
            decreases players.len() - i,
        {
            seen.push(Observation { status: players[i].status, has_track: players[i].has_track });
            assert(seen@ == observations_of(players@).take(i + 1));
            i = i + 1;
        }
        assert(seen@ == observations_of(players@));
        match select(&seen) {
            Some(at) => {
                proof {
                    chosen_obeys_priority(seen@);
                }
                Some(players.remove(at))
            },
            None => None,
        }
    }
}

} // verus!
