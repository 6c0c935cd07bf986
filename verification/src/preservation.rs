//! Proofs that every operation on the shared state keeps the invariant.

use vstd::prelude::*;

use crate::handle::{PublicationRef, TrackRef};
use crate::id;
use crate::info::{PublicationEvents, PublicationInfoView};
use crate::proto::TrackInfoView;
use crate::state;
use crate::state::{PublicationState, RegistryState};

verus! {

/// The publications that have a track are finitely many, if all publications are.
pub(crate) proof fn lemma_holding_finite<H>(publications: Map<u64, PublicationState<H>>, track: u64)
    requires
        publications.dom().finite(),
    ensures
        state::holding(publications, track).finite(),
        state::holding(publications, track).len() <= publications.dom().len(),
{
    publications.dom().lemma_len_filter(|p: u64| publications[p].has_track(track));
}

/// Taking out a publication takes it out of those that have its track.
pub(crate) proof fn lemma_holding_remove<H>(
    publications: Map<u64, PublicationState<H>>,
    key: u64,
    track: u64,
)
    requires
        publications.dom().finite(),
        publications.contains_key(key),
    ensures
        state::holding(publications.remove(key), track).len() == state::holding(
            publications,
            track,
        ).len() - (if publications[key].has_track(track) {
            1int
        } else {
            0
        }),
{
    lemma_holding_finite(publications, track);
    let before = state::holding(publications, track);
    let after = state::holding(publications.remove(key), track);
    if publications[key].has_track(track) {
        assert(after =~= before.remove(key));
    } else {
        assert(after =~= before);
    }
}

/// Putting in a new publication puts it among those that have its track.
pub(crate) proof fn lemma_holding_add<H>(
    publications: Map<u64, PublicationState<H>>,
    key: u64,
    p: PublicationState<H>,
    track: u64,
)
    requires
        publications.dom().finite(),
        !publications.contains_key(key),
    ensures
        state::holding(publications.insert(key, p), track).len() == state::holding(
            publications,
            track,
        ).len() + (if p.has_track(track) {
            1int
        } else {
            0
        }),
{
    lemma_holding_finite(publications, track);
    let before = state::holding(publications, track);
    let after = state::holding(publications.insert(key, p), track);
    if p.has_track(track) {
        assert(after =~= before.insert(key));
    } else {
        assert(after =~= before);
    }
}

/// Putting a publication in the place of another one changes who has which track accordingly.
pub(crate) proof fn lemma_holding_replace<H>(
    publications: Map<u64, PublicationState<H>>,
    key: u64,
    p: PublicationState<H>,
    track: u64,
)
    requires
        publications.dom().finite(),
        publications.contains_key(key),
    ensures
        state::holding(publications.insert(key, p), track).len() == state::holding(
            publications,
            track,
        ).len() - (if publications[key].has_track(track) {
            1int
        } else {
            0
        }) + (if p.has_track(track) {
            1int
        } else {
            0
        }),
{
    lemma_holding_remove(publications, key, track);
    lemma_holding_add(publications.remove(key), key, p, track);
    assert(publications.remove(key).insert(key, p) =~= publications.insert(key, p));
}

/// A track has fewer holders than there are keys, one of which is its own.
pub(crate) proof fn lemma_holders_bounded<H>(s: RegistryState<H>, key: u64)
    requires
        s.inv(),
        s.tracks.contains_key(key),
    ensures
        s.tracks[key].holders < s.next,
{
    assert(s.track_inv(key));
    lemma_holding_finite(s.publications, key);
    let used = s.publications.dom();
    let all = Set::<u64>::range(0u64, s.next);
    vstd::set_lib::range_set_properties::<u64>(0u64, s.next);
    let keys = all.remove(key);
    assert forall|k: u64| used.contains(k) implies keys.contains(k) by {
        assert(s.publications.contains_key(k));
        assert(s.publication_inv(k));
    }
    vstd::set_lib::lemma_len_subset(used, keys);
}

/// A new track keeps the invariant.
pub(crate) proof fn lemma_added_track_inv<H>(s: RegistryState<H>, remote: bool, sid: Seq<char>)
    requires
        s.inv(),
        s.next < u64::MAX,
        id::valid_track_sid(sid),
    ensures
        s.added_track(remote, sid).inv(),
{
    let after = s.added_track(remote, sid);
    lemma_holding_finite(s.publications, s.next);
    assert(state::holding(s.publications, s.next) =~= Set::empty()) by {
        assert forall|p: u64| !state::holding(s.publications, s.next).contains(p) by {
            if state::holding(s.publications, s.next).contains(p) {
                assert(s.publications.contains_key(p));
                assert(s.publication_inv(p));
                assert(s.track_inv(s.next));
            }
        }
    }
    assert forall|key: u64| #[trigger]
        after.publications.contains_key(key) implies after.publication_inv(key) by {
        assert(s.publication_inv(key));
        if s.publications[key].info.track is Some {
            assert(s.track_inv(s.publications[key].info.track->0.key));
        }
    }
    assert forall|key: u64| #[trigger] after.tracks.contains_key(key) implies after.track_inv(
        key,
    ) by {
        if key != s.next {
            assert(s.track_inv(key));
        }
    }
}

/// One more handle on a track keeps the invariant.
pub(crate) proof fn lemma_cloned_track_inv<H>(s: RegistryState<H>, t: TrackRef)
    requires
        s.inv(),
        s.track_alive(t),
    ensures
        s.cloned_track(t).inv(),
{
    let after = s.cloned_track(t);
    assert forall|key: u64| #[trigger]
        after.publications.contains_key(key) implies after.publication_inv(key) by {
        assert(s.publication_inv(key));
    }
    assert forall|key: u64| #[trigger] after.tracks.contains_key(key) implies after.track_inv(
        key,
    ) by {
        assert(s.track_inv(key));
    }
}

/// One handle less on a track keeps the invariant.
pub(crate) proof fn lemma_dropped_track_inv<H>(s: RegistryState<H>, t: TrackRef)
    requires
        s.inv(),
        s.track_held(t),
    ensures
        s.dropped_track(t).inv(),
{
    let after = s.dropped_track(t);
    assert(s.track_inv(t.key));
    assert forall|key: u64| #[trigger]
        after.publications.contains_key(key) implies after.publication_inv(key) by {
        assert(s.publication_inv(key));
        if s.publications[key].has_track(t.key) {
            lemma_holding_finite(s.publications, t.key);
            assert(state::holding(s.publications, t.key).contains(key));
        }
    }
    assert forall|key: u64| #[trigger] after.tracks.contains_key(key) implies after.track_inv(
        key,
    ) by {
        assert(s.track_inv(key));
    }
}

/// A new publication keeps the invariant.
pub(crate) proof fn lemma_added_publication_inv<H>(
    s: RegistryState<H>,
    remote: bool,
    info: PublicationInfoView,
)
    requires
        s.inv(),
        s.next < u64::MAX,
        id::valid_track_sid(info.sid),
        info.track is Some ==> s.track_held(info.track->0),
        info.track is Some && remote ==> info.track->0.remote,
    ensures
        s.added_publication(remote, info).inv(),
{
    let after = s.added_publication(remote, info);
    let p = PublicationState::<H> {
        remote,
        handles: 1,
        info,
        events: PublicationEvents { muted: None, unmuted: None },
    };
    if s.publications.contains_key(s.next) {
        assert(s.publication_inv(s.next));
    }
    assert(after.publications == s.publications.insert(s.next, p));
    assert forall|key: u64| #[trigger]
        after.publications.contains_key(key) implies after.publication_inv(key) by {
        if key != s.next {
            assert(s.publication_inv(key));
        }
    }
    assert forall|key: u64| #[trigger] after.tracks.contains_key(key) implies after.track_inv(
        key,
    ) by {
        assert(s.track_inv(key));
        lemma_holding_add(s.publications, s.next, p, key);
    }
}

/// Replacing a publication by one with the same side and track keeps the invariant, if the new
/// one has a handle and a valid identifier.
pub(crate) proof fn lemma_with_publication_inv<H>(
    s: RegistryState<H>,
    key: u64,
    p: PublicationState<H>,
)
    requires
        s.inv(),
        s.publications.contains_key(key),
        p.remote == s.publications[key].remote,
        p.info.track == s.publications[key].info.track,
        p.handles >= 1,
        id::valid_track_sid(p.info.sid),
    ensures
        s.with_publication(key, p).inv(),
{
    let after = s.with_publication(key, p);
    assert forall|k: u64| #[trigger]
        after.publications.contains_key(k) implies after.publication_inv(k) by {
        assert(s.publication_inv(k));
    }
    assert forall|k: u64| #[trigger] after.tracks.contains_key(k) implies after.track_inv(k) by {
        assert(s.track_inv(k));
        lemma_holding_replace(s.publications, key, p, k);
    }
}

/// One handle less on a publication keeps the invariant.
pub(crate) proof fn lemma_dropped_publication_inv<H>(s: RegistryState<H>, p: PublicationRef)
    requires
        s.inv(),
        s.alive(p),
    ensures
        s.dropped_publication(p).inv(),
{
    let after = s.dropped_publication(p);
    let publication = s.publications[p.key];
    assert(s.publication_inv(p.key));
    if publication.handles > 1 {
        lemma_with_publication_inv(
            s,
            p.key,
            PublicationState { handles: (publication.handles - 1) as nat, ..publication },
        );
    } else {
        assert(after.publications == s.publications.remove(p.key));
        if publication.info.track is Some {
            let t = publication.info.track->0.key;
            assert(s.track_inv(t));
            lemma_holding_remove(s.publications, p.key, t);
        }
        assert forall|k: u64| #[trigger]
            after.publications.contains_key(k) implies after.publication_inv(k) by {
            assert(s.publication_inv(k));
            if publication.info.track is Some {
                let t = publication.info.track->0.key;
                if s.publications[k].has_track(t) {
                    lemma_holding_finite(after.publications, t);
                    assert(state::holding(after.publications, t).contains(k));
                }
            }
        }
        assert forall|k: u64| #[trigger] after.tracks.contains_key(k) implies after.track_inv(
            k,
        ) by {
            assert(s.track_inv(k));
            lemma_holding_remove(s.publications, p.key, k);
        }
    }
}

/// Giving a publication a track, or none, keeps the invariant.
pub(crate) proof fn lemma_set_track_inv<H>(
    s: RegistryState<H>,
    p: PublicationRef,
    track: Option<TrackRef>,
)
    requires
        s.inv(),
        s.alive(p),
        track is Some ==> s.track_held(track->0),
        track is Some && p.remote ==> track->0.remote,
    ensures
        s.set_track(p, track).inv(),
{
    let after = s.set_track(p, track);
    let publication = s.publications[p.key];
    let previous = publication.info.track;
    assert(s.publication_inv(p.key));
    if track is Some {
        assert(s.track_inv(track->0.key));
    }
    let new = after.publications[p.key];
    assert(after.publications == s.publications.insert(p.key, new));
    assert(new.info.track == track);
    if previous is Some {
        assert(s.track_inv(previous->0.key));
        lemma_holding_replace(s.publications, p.key, new, previous->0.key);
    }
    assert forall|k: u64| #[trigger]
        after.publications.contains_key(k) implies after.publication_inv(k) by {
        assert(s.publication_inv(k));
        if after.publications[k].info.track is Some && previous is Some {
            let t = previous->0.key;
            if after.publications[k].has_track(t) {
                lemma_holding_finite(after.publications, t);
                assert(state::holding(after.publications, t).contains(k));
            }
        }
    }
    assert forall|k: u64| #[trigger] after.tracks.contains_key(k) implies after.track_inv(k) by {
        assert(s.track_inv(k));
        lemma_holding_replace(s.publications, p.key, new, k);
    }
}

/// A new description of a publication keeps the invariant.
pub(crate) proof fn lemma_updated_info_inv<H>(s: RegistryState<H>, p: PublicationRef, info: TrackInfoView)
    requires
        s.inv(),
        s.alive(p),
        info.publishable(),
    ensures
        s.updated_info(p, info).inv(),
{
    let publication = s.publications[p.key];
    assert(s.publication_inv(p.key));
    lemma_with_publication_inv(
        s,
        p.key,
        PublicationState { info: publication.info.redescribed(info), ..publication },
    );
}

/// On the way through `set_track` no count is exhausted.
pub(crate) proof fn lemma_set_track_counts<H>(
    s: RegistryState<H>,
    p: PublicationRef,
    track: Option<TrackRef>,
)
    requires
        s.inv(),
        s.alive(p),
        track is Some ==> s.track_held(track->0),
    ensures
        s.publications[p.key].info.track matches Some(t) ==> s.tracks.contains_key(t.key)
            && s.tracks[t.key].holders >= 1,
        track matches Some(t) ==> s.tracks[t.key].holders < u64::MAX,
{
    assert(s.publication_inv(p.key));
    if let Some(t) = s.publications[p.key].info.track {
        assert(s.track_inv(t.key));
        lemma_holding_finite(s.publications, t.key);
        assert(state::holding(s.publications, t.key).contains(p.key));
    }
    if let Some(t) = track {
        lemma_holders_bounded(s, t.key);
    }
}

} // verus!
