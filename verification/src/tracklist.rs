//! The track list of a playlist, and how adding and removing tracks edits it.
use vstd::prelude::*;

use crate::models::Track;

verus! {

/// The URNs of the tracks of a playlist, skipping tracks without one.
pub open spec fn track_urns(tracks: Seq<Track>) -> Seq<Seq<char>>
    decreases tracks.len(),
{
    if tracks.len() == 0 {
        seq![]
    } else {
        let rest = track_urns(tracks.drop_last());
        match tracks.last().urn {
            Some(u) => rest.push(u@),
            None => rest,
        }
    }
}

/// The URNs of the tracks of a playlist; none where it has no track list.
pub open spec fn playlist_urns(tracks: Option<Vec<Track>>) -> Seq<Seq<char>> {
    match tracks {
        Some(t) => track_urns(t@),
        None => seq![],
    }
}

/// Whether every track of a playlist has a URN, by which a track list names it.
pub open spec fn all_have_urns(tracks: Option<Vec<Track>>) -> bool {
    match tracks {
        Some(t) => forall|i: int| 0 <= i < t@.len() ==> (#[trigger] t@[i]).urn is Some,
        None => true,
    }
}

/// The URN of each track, where each track has one.
pub proof fn lemma_urns_of_named_tracks(tracks: Seq<Track>)
    requires
        forall|i: int| 0 <= i < tracks.len() ==> (#[trigger] tracks[i]).urn is Some,
    ensures
        track_urns(tracks).len() == tracks.len(),
        forall|i: int| 0 <= i < tracks.len() ==> #[trigger] track_urns(tracks)[i] == tracks[i].urn.unwrap()@,
    decreases tracks.len(),
{
    if tracks.len() > 0 {
        assert forall|i: int| 0 <= i < tracks.drop_last().len() implies (#[trigger] tracks.drop_last()[i]).urn is Some by {
            assert(tracks.drop_last()[i] == tracks[i]);
        }
        lemma_urns_of_named_tracks(tracks.drop_last());
        assert(tracks[tracks.len() - 1].urn is Some);
        assert forall|i: int| 0 <= i < tracks.len() implies #[trigger] track_urns(tracks)[i] == tracks[i].urn.unwrap()@ by {
            if i < tracks.len() - 1 {
                assert(tracks.drop_last()[i] == tracks[i]);
            }
        }
    }
}

/// Whether every track of a playlist has a URN.
pub fn tracks_have_urns(tracks: &Option<Vec<Track>>) -> (b: bool)
    ensures
        b == all_have_urns(*tracks),
{
    match tracks {
        None => true,
        Some(ts) => {
            let mut i: usize = 0;
            while i < ts.len()
                invariant
                    *tracks == Some(*ts),
                    i <= ts@.len(),
                    forall|k: int| 0 <= k < i ==> (#[trigger] ts@[k]).urn is Some,
                decreases ts@.len() - i,
            {
                match &ts[i].urn {
                    None => {
                        proof {
                            assert(ts@[i as int].urn is None);
                        }
                        return false;
                    },
                    Some(_) => {},
                }
                i = i + 1;
            }
            true
        },
    }
}

/// `existing` with each of `added` appended in turn, unless it is there already.
pub open spec fn merge_urns(existing: Seq<Seq<char>>, added: Seq<Seq<char>>) -> Seq<Seq<char>>
    decreases added.len(),
{
    if added.len() == 0 {
        existing
    } else {
        let m = merge_urns(existing, added.drop_last());
        if m.contains(added.last()) {
            m
        } else {
            m.push(added.last())
        }
    }
}

/// `existing` without any URN of `removed`, in the same order.
pub open spec fn keep_urns(existing: Seq<Seq<char>>, removed: Seq<Seq<char>>) -> Seq<Seq<char>>
    decreases existing.len(),
{
    if existing.len() == 0 {
        seq![]
    } else {
        let k = keep_urns(existing.drop_last(), removed);
        if removed.contains(existing.last()) {
            k
        } else {
            k.push(existing.last())
        }
    }
}

/// The views of a list of text slices.
pub open spec fn strs_view(v: Seq<&str>) -> Seq<Seq<char>> {
    v.map_values(|s: &str| s@)
}

/// The views of a list of strings.
pub open spec fn owned_view(v: Seq<String>) -> Seq<Seq<char>> {
    v.map_values(|s: String| s@)
}

fn vec_contains(v: &Vec<String>, s: &str) -> (b: bool)
    ensures
        b == owned_view(v@).contains(s@),
{
    let target = String::from_str(s);
    let mut i: usize = 0;
    while i < v.len()
        invariant
            i <= v@.len(),
            target@ == s@,
            forall|k: int| 0 <= k < i ==> owned_view(v@)[k] != s@,
        decreases v@.len() - i,
    {
        if v[i] == target {
            proof {
                assert(owned_view(v@)[i as int] == s@);
            }
            return true;
        }
        i = i + 1;
    }
    proof {
        if owned_view(v@).contains(s@) {
            let k = choose|k: int| 0 <= k < owned_view(v@).len() && owned_view(v@)[k] == s@;
            assert(owned_view(v@)[k] != s@);
        }
    }
    false
}

fn slice_contains(v: &[&str], s: &str) -> (b: bool)
    ensures
        b == strs_view(v@).contains(s@),
{
    let target = String::from_str(s);
    let mut i: usize = 0;
    while i < v.len()
        invariant
            i <= v@.len(),
            target@ == s@,
            forall|k: int| 0 <= k < i ==> strs_view(v@)[k] != s@,
        decreases v@.len() - i,
    {
        let here = String::from_str(v[i]);
        if here == target {
            proof {
                assert(strs_view(v@)[i as int] == s@);
            }
            return true;
        }
        i = i + 1;
    }
    proof {
        if strs_view(v@).contains(s@) {
            let k = choose|k: int| 0 <= k < strs_view(v@).len() && strs_view(v@)[k] == s@;
            assert(strs_view(v@)[k] != s@);
        }
    }
    false
}

/// The URNs of the tracks of a playlist, in order, skipping tracks without one.
pub fn existing_urns(tracks: &Option<Vec<Track>>) -> (r: Vec<String>)
    ensures
        owned_view(r@) == playlist_urns(*tracks),
{
    let mut out: Vec<String> = Vec::new();
    match tracks {
        None => {
            proof {
                assert(owned_view(out@) =~= Seq::<Seq<char>>::empty());
            }
        },
        Some(ts) => {
            let mut i: usize = 0;
            while i < ts.len()
                invariant
                    i <= ts@.len(),
                    owned_view(out@) == track_urns(ts@.take(i as int)),
                decreases ts@.len() - i,
            {
                proof {
                    assert(ts@.take(i + 1).drop_last() =~= ts@.take(i as int));
                }
                match &ts[i].urn {
                    Some(u) => {
                        out.push(u.clone());
                        proof {
                            assert(owned_view(out@) =~= track_urns(ts@.take(i as int)).push(u@));
                        }
                    },
                    None => {},
                }
                i = i + 1;
            }
            proof {
                assert(ts@.take(i as int) =~= ts@);
            }
        },
    }
    out
}

/// The track list of a playlist after adding `added`: the current URNs,
/// then each added URN that is not there yet, in the order given.
pub fn merged_urns(tracks: &Option<Vec<Track>>, added: &[&str]) -> (r: Vec<String>)
    ensures
        owned_view(r@) == merge_urns(playlist_urns(*tracks), strs_view(added@)),
        is_merge_of(playlist_urns(*tracks), strs_view(added@), owned_view(r@)),
{
    let mut out = existing_urns(tracks);
    let mut i: usize = 0;
    while i < added.len()
        invariant
            i <= added@.len(),
            owned_view(out@) == merge_urns(playlist_urns(*tracks), strs_view(added@).take(i as int)),
        decreases added@.len() - i,
    {
        proof {
            assert(strs_view(added@).take(i + 1).drop_last() =~= strs_view(added@).take(i as int));
            assert(strs_view(added@).take(i + 1).last() == added@[i as int]@);
        }
        let ghost before = owned_view(out@);
        if !vec_contains(&out, added[i]) {
            out.push(String::from_str(added[i]));
            proof {
                assert(owned_view(out@) =~= before.push(added@[i as int]@));
            }
        }
        i = i + 1;
    }
    proof {
        assert(strs_view(added@).take(i as int) =~= strs_view(added@));
        merge_is_merge_of(playlist_urns(*tracks), strs_view(added@));
    }
    out
}

/// Adding tracks keeps the current list first, in its order.
pub proof fn merge_keeps_existing(existing: Seq<Seq<char>>, added: Seq<Seq<char>>)
    ensures
        merge_urns(existing, added).len() >= existing.len(),
        merge_urns(existing, added).take(existing.len() as int) == existing,
    decreases added.len(),
{
    if added.len() > 0 {
        merge_keeps_existing(existing, added.drop_last());
        let m = merge_urns(existing, added.drop_last());
        assert(m.push(added.last()).take(existing.len() as int) =~= m.take(existing.len() as int));
    }
}

/// After adding tracks, each added URN is in the list.
pub proof fn merge_holds_added(existing: Seq<Seq<char>>, added: Seq<Seq<char>>)
    ensures
        forall|i: int| 0 <= i < added.len() ==> merge_urns(existing, added).contains(#[trigger] added[i]),
    decreases added.len(),
{
    if added.len() > 0 {
        merge_holds_added(existing, added.drop_last());
        let m = merge_urns(existing, added.drop_last());
        assert forall|i: int| 0 <= i < added.len() implies merge_urns(existing, added).contains(
            #[trigger] added[i],
        ) by {
            if i < added.len() - 1 {
                assert(added.drop_last()[i] == added[i]);
                assert(m.contains(added[i]));
                if !m.contains(added.last()) {
                    let k = choose|k: int| 0 <= k < m.len() && m[k] == added[i];
                    assert(m.push(added.last())[k] == added[i]);
                }
            } else {
                if !m.contains(added.last()) {
                    assert(m.push(added.last())[m.len() as int] == added.last());
                }
            }
        }
    }
}

/// What adding tracks appends after the current list is made of added URNs only.
pub proof fn merge_appends_only_added(existing: Seq<Seq<char>>, added: Seq<Seq<char>>)
    ensures
        forall|i: int|
            existing.len() <= i < merge_urns(existing, added).len() ==> added.contains(
                #[trigger] merge_urns(existing, added)[i],
            ),
    decreases added.len(),
{
    if added.len() > 0 {
        merge_appends_only_added(existing, added.drop_last());
        merge_keeps_existing(existing, added.drop_last());
        let m = merge_urns(existing, added.drop_last());
        assert forall|i: int| existing.len() <= i < merge_urns(existing, added).len() implies added.contains(
            #[trigger] merge_urns(existing, added)[i],
        ) by {
            if i < m.len() {
                assert(merge_urns(existing, added)[i] == m[i]);
                let k = choose|k: int| 0 <= k < added.drop_last().len() && added.drop_last()[k] == m[i];
                assert(added[k] == m[i]);
            } else {
                assert(merge_urns(existing, added)[i] == added.last());
                assert(added[added.len() - 1] == added.last());
            }
        }
    }
}

/// Whether `result` holds, after `existing`, the added URNs that are new in
/// the order in which they were first given: of two added URNs, both new, the
/// one given first comes first.
pub open spec fn added_in_given_order(existing: Seq<Seq<char>>, added: Seq<Seq<char>>, result: Seq<Seq<char>>) -> bool {
    forall|i: int, j: int, p: int, q: int|
        0 <= i < j < added.len() && !existing.contains(#[trigger] added[i]) && !existing.contains(#[trigger] added[j])
            && (forall|k: int| 0 <= k < j ==> added[k] != added[j]) && existing.len() <= p < result.len()
            && existing.len() <= q < result.len() && #[trigger] result[p] == added[i] && #[trigger] result[q]
            == added[j] ==> p < q
}

/// Whether what `result` holds after `existing` is new: no URN of `existing`,
/// and none twice.
pub open spec fn appended_once(existing: Seq<Seq<char>>, result: Seq<Seq<char>>) -> bool {
    &&& forall|p: int| existing.len() <= p < result.len() ==> !existing.contains(#[trigger] result[p])
    &&& forall|p: int, q: int| existing.len() <= p < q < result.len() ==> #[trigger] result[p] != #[trigger] result[q]
}

/// Each URN in the list after adding tracks was there before or was added.
proof fn merge_holds_only(existing: Seq<Seq<char>>, added: Seq<Seq<char>>, x: Seq<char>)
    requires
        merge_urns(existing, added).contains(x),
    ensures
        existing.contains(x) || added.contains(x),
{
    merge_keeps_existing(existing, added);
    merge_appends_only_added(existing, added);
    let m = merge_urns(existing, added);
    let p = choose|p: int| 0 <= p < m.len() && m[p] == x;
    if p < existing.len() {
        assert(m.take(existing.len() as int)[p] == x);
    }
}

/// Adding tracks appends only URNs that are new, each once.
pub proof fn merge_appends_each_once(existing: Seq<Seq<char>>, added: Seq<Seq<char>>)
    ensures
        appended_once(existing, merge_urns(existing, added)),
    decreases added.len(),
{
    if added.len() > 0 {
        merge_appends_each_once(existing, added.drop_last());
        merge_keeps_existing(existing, added.drop_last());
        let m = merge_urns(existing, added.drop_last());
        let x = added.last();
        if !m.contains(x) {
            let r = m.push(x);
            assert(r == merge_urns(existing, added));
            assert forall|p: int| existing.len() <= p < r.len() implies !existing.contains(#[trigger] r[p]) by {
                if p == m.len() {
                    if existing.contains(x) {
                        let k = choose|k: int| 0 <= k < existing.len() && existing[k] == x;
                        assert(m.take(existing.len() as int)[k] == x);
                        assert(m[k] == x);
                    }
                } else {
                    assert(r[p] == m[p]);
                }
            }
            assert forall|p: int, q: int| existing.len() <= p < q < r.len() implies #[trigger] r[p]
                != #[trigger] r[q] by {
                if q == m.len() {
                    assert(r[p] == m[p]);
                } else {
                    assert(r[p] == m[p]);
                    assert(r[q] == m[q]);
                }
            }
        }
    }
}

/// Adding tracks appends the new URNs in the order in which they were given.
pub proof fn merge_keeps_given_order(existing: Seq<Seq<char>>, added: Seq<Seq<char>>)
    ensures
        added_in_given_order(existing, added, merge_urns(existing, added)),
    decreases added.len(),
{
    if added.len() > 0 {
        let a = added.drop_last();
        let x = added.last();
        merge_keeps_given_order(existing, a);
        merge_holds_added(existing, a);
        let m = merge_urns(existing, a);
        let r = merge_urns(existing, added);
        assert forall|i: int, j: int, p: int, q: int|
            0 <= i < j < added.len() && !existing.contains(#[trigger] added[i]) && !existing.contains(
                #[trigger] added[j],
            ) && (forall|k: int| 0 <= k < j ==> added[k] != added[j]) && existing.len() <= p < r.len()
                && existing.len() <= q < r.len() && #[trigger] r[p] == added[i] && #[trigger] r[q] == added[j]
            implies p < q by {
            assert(a[i] == added[i]);
            assert(m.contains(a[i]));
            if j < added.len() - 1 {
                assert(a[j] == added[j]);
                assert(m.contains(a[j]));
                if !m.contains(x) {
                    assert(r == m.push(x));
                    if p == m.len() {
                        assert(r[p] == x);
                    }
                    if q == m.len() {
                        assert(r[q] == x);
                    }
                    assert(r[p] == m[p] && r[q] == m[q]);
                }
                assert(forall|k: int| 0 <= k < j ==> a[k] != a[j]);
                assert(!existing.contains(a[i]) && !existing.contains(a[j]));
                assert(m[p] == a[i] && m[q] == a[j]);
            } else {
                assert(added[j] == x);
                if m.contains(x) {
                    merge_holds_only(existing, a, x);
                    let k = choose|k: int| 0 <= k < a.len() && a[k] == x;
                    assert(added[k] == x);
                }
                assert(r == m.push(x));
                if q < m.len() {
                    assert(m[q] == x);
                    assert(m.contains(x));
                }
                if p == m.len() {
                    assert(r[p] == x);
                    assert(added[i] == x);
                }
            }
        }
    }
}

/// What adding `added` to `existing` must give: `existing` first, as it is;
/// then only added URNs, each new and once, in the order first given; and
/// every added URN is in the result.
pub open spec fn is_merge_of(existing: Seq<Seq<char>>, added: Seq<Seq<char>>, result: Seq<Seq<char>>) -> bool {
    &&& result.len() >= existing.len()
    &&& result.take(existing.len() as int) == existing
    &&& forall|i: int| 0 <= i < added.len() ==> result.contains(#[trigger] added[i])
    &&& forall|p: int| existing.len() <= p < result.len() ==> added.contains(#[trigger] result[p])
    &&& appended_once(existing, result)
    &&& added_in_given_order(existing, added, result)
}

/// Adding tracks gives the current list followed by the new added URNs, each
/// once, in the order given.
pub proof fn merge_is_merge_of(existing: Seq<Seq<char>>, added: Seq<Seq<char>>)
    ensures
        is_merge_of(existing, added, merge_urns(existing, added)),
{
    merge_keeps_existing(existing, added);
    merge_holds_added(existing, added);
    merge_appends_only_added(existing, added);
    merge_appends_each_once(existing, added);
    merge_keeps_given_order(existing, added);
}

/// Adding URNs that are all in the list already leaves it as it is.
proof fn merge_of_present(list: Seq<Seq<char>>, added: Seq<Seq<char>>)
    requires
        forall|i: int| 0 <= i < added.len() ==> list.contains(#[trigger] added[i]),
    ensures
        merge_urns(list, added) == list,
    decreases added.len(),
{
    if added.len() > 0 {
        assert forall|i: int| 0 <= i < added.drop_last().len() implies list.contains(
            #[trigger] added.drop_last()[i],
        ) by {
            assert(added.drop_last()[i] == added[i]);
        }
        merge_of_present(list, added.drop_last());
        assert(list.contains(added[added.len() - 1]));
    }
}

/// Adding the same tracks twice gives the list that adding them once gives.
pub proof fn merge_is_idempotent(existing: Seq<Seq<char>>, added: Seq<Seq<char>>)
    ensures
        merge_urns(merge_urns(existing, added), added) == merge_urns(existing, added),
{
    merge_holds_added(existing, added);
    merge_of_present(merge_urns(existing, added), added);
}

/// After removing tracks, no removed URN is in the list, and every URN left
/// was in the list before.
pub proof fn keep_drops_removed(existing: Seq<Seq<char>>, removed: Seq<Seq<char>>)
    ensures
        forall|i: int|
            0 <= i < keep_urns(existing, removed).len() ==> !removed.contains(
                #[trigger] keep_urns(existing, removed)[i],
            ) && existing.contains(keep_urns(existing, removed)[i]),
        keep_urns(existing, removed).len() <= existing.len(),
    decreases existing.len(),
{
    if existing.len() > 0 {
        keep_drops_removed(existing.drop_last(), removed);
        let k = keep_urns(existing.drop_last(), removed);
        assert forall|i: int| 0 <= i < keep_urns(existing, removed).len() implies !removed.contains(
            #[trigger] keep_urns(existing, removed)[i],
        ) && existing.contains(keep_urns(existing, removed)[i]) by {
            if i < k.len() {
                assert(keep_urns(existing, removed)[i] == k[i]);
                let j = choose|j: int| 0 <= j < existing.drop_last().len() && existing.drop_last()[j] == k[i];
                assert(existing[j] == k[i]);
            } else {
                assert(keep_urns(existing, removed)[i] == existing.last());
                assert(existing[existing.len() - 1] == existing.last());
            }
        }
    }
}

/// The test of a URN that removing `removed` keeps: it is not among them.
pub open spec fn kept_by(removed: Seq<Seq<char>>) -> spec_fn(Seq<char>) -> bool {
    |x: Seq<char>| !removed.contains(x)
}

/// Removing tracks keeps exactly the current URNs that are not removed, in
/// their order, each as often as it was there.
pub proof fn keep_is_filter(existing: Seq<Seq<char>>, removed: Seq<Seq<char>>)
    ensures
        keep_urns(existing, removed) == existing.filter(kept_by(removed)),
    decreases existing.len(),
{
    reveal(Seq::filter);
    if existing.len() > 0 {
        keep_is_filter(existing.drop_last(), removed);
    }
}

/// Removing URNs that are not in the list leaves it as it is.
pub proof fn keep_of_absent(existing: Seq<Seq<char>>, removed: Seq<Seq<char>>)
    requires
        forall|i: int| 0 <= i < existing.len() ==> !removed.contains(#[trigger] existing[i]),
    ensures
        keep_urns(existing, removed) == existing,
    decreases existing.len(),
{
    if existing.len() > 0 {
        assert forall|i: int| 0 <= i < existing.drop_last().len() implies !removed.contains(
            #[trigger] existing.drop_last()[i],
        ) by {
            assert(existing.drop_last()[i] == existing[i]);
        }
        keep_of_absent(existing.drop_last(), removed);
        assert(!removed.contains(existing[existing.len() - 1]));
        assert(existing.drop_last().push(existing.last()) =~= existing);
    }
}

proof fn keep_of_concat(a: Seq<Seq<char>>, b: Seq<Seq<char>>, removed: Seq<Seq<char>>)
    ensures
        keep_urns(a + b, removed) == keep_urns(a, removed) + keep_urns(b, removed),
    decreases b.len(),
{
    if b.len() == 0 {
        assert(a + b =~= a);
        assert(keep_urns(a, removed) + keep_urns(b, removed) =~= keep_urns(a, removed));
    } else {
        assert((a + b).drop_last() =~= a + b.drop_last());
        assert((a + b).last() == b.last());
        keep_of_concat(a, b.drop_last(), removed);
        if !removed.contains(b.last()) {
            assert(keep_urns(a, removed) + keep_urns(b.drop_last(), removed).push(b.last()) =~= (keep_urns(
                a,
                removed,
            ) + keep_urns(b.drop_last(), removed)).push(b.last()));
        }
    }
}

proof fn keep_of_all_removed(b: Seq<Seq<char>>, removed: Seq<Seq<char>>)
    requires
        forall|i: int| 0 <= i < b.len() ==> removed.contains(#[trigger] b[i]),
    ensures
        keep_urns(b, removed) == Seq::<Seq<char>>::empty(),
    decreases b.len(),
{
    if b.len() > 0 {
        assert forall|i: int| 0 <= i < b.drop_last().len() implies removed.contains(#[trigger] b.drop_last()[i]) by {
            assert(b.drop_last()[i] == b[i]);
        }
        keep_of_all_removed(b.drop_last(), removed);
        assert(removed.contains(b[b.len() - 1]));
    }
}

/// Adding tracks and then removing the same tracks gives the list that
/// removing them alone gives.
pub proof fn remove_undoes_add(existing: Seq<Seq<char>>, added: Seq<Seq<char>>)
    ensures
        keep_urns(merge_urns(existing, added), added) == keep_urns(existing, added),
{
    let m = merge_urns(existing, added);
    merge_keeps_existing(existing, added);
    merge_appends_only_added(existing, added);
    let tail = m.skip(existing.len() as int);
    assert(m =~= existing + tail);
    assert forall|i: int| 0 <= i < tail.len() implies added.contains(#[trigger] tail[i]) by {
        assert(tail[i] == m[i + existing.len()]);
    }
    keep_of_concat(existing, tail, added);
    keep_of_all_removed(tail, added);
    assert(keep_urns(existing, added) + Seq::<Seq<char>>::empty() =~= keep_urns(existing, added));
}

/// The track list of a playlist after removing `removed`: the current URNs
/// that are not among them, in the same order.
pub fn kept_urns(tracks: &Option<Vec<Track>>, removed: &[&str]) -> (r: Vec<String>)
    ensures
        owned_view(r@) == keep_urns(playlist_urns(*tracks), strs_view(removed@)),
        owned_view(r@) == playlist_urns(*tracks).filter(kept_by(strs_view(removed@))),
{
    let existing = existing_urns(tracks);
    let mut out: Vec<String> = Vec::new();
    let mut i: usize = 0;
    while i < existing.len()
        invariant
            i <= existing@.len(),
            owned_view(out@) == keep_urns(owned_view(existing@).take(i as int), strs_view(removed@)),
        decreases existing@.len() - i,
    {
        proof {
            assert(owned_view(existing@).take(i + 1).drop_last() =~= owned_view(existing@).take(i as int));
        }
        let ghost before = owned_view(out@);
        if !slice_contains(removed, existing[i].as_str()) {
            out.push(existing[i].clone());
            proof {
                assert(owned_view(out@) =~= before.push(existing@[i as int]@));
            }
        }
        i = i + 1;
    }
    proof {
        assert(owned_view(existing@).take(i as int) =~= owned_view(existing@));
        keep_is_filter(playlist_urns(*tracks), strs_view(removed@));
    }
    out
}

} // verus!
