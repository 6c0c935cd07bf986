//! What each call does to what handles share.
//!
//! A track is held by its handles and by the publications that have it. The laws say of every call
//! who holds what afterwards, who is told of a mute, and that everything else stays as it was.

use vstd::prelude::*;

use crate::handle::{
    LocalTrack, LocalTrackPublication, PublicationRef, RemoteTrack, RemoteTrackPublication, Track,
    TrackPublication, TrackRef, WeakLocalTrackPublication, WeakRemoteTrackPublication,
    WeakTrackPublication,
};
use crate::id;
use crate::info;
use crate::info::{PublicationEvents, PublicationInfoView};
use crate::preservation;
use crate::proto::TrackInfoView;
use crate::publication;
use crate::registry;
use crate::state;
use crate::state::{PublicationState, RegistryState, TrackState};

verus! {

/// A handle that may be on either side is on what the handle in it is on, and its side is that of
/// the handle in it.
pub proof fn law_handles_keep_their_side(
    local_track: LocalTrack,
    remote_track: RemoteTrack,
    local: LocalTrackPublication,
    remote: RemoteTrackPublication,
    weak_local: WeakLocalTrackPublication,
    weak_remote: WeakRemoteTrackPublication,
)
    ensures
        Track::Local(local_track)@ == local_track@ && !local_track@.remote,
        Track::Remote(remote_track)@ == remote_track@ && remote_track@.remote,
        TrackPublication::Local(local)@ == local@ && !local@.remote,
        TrackPublication::Remote(remote)@ == remote@ && remote@.remote,
        WeakTrackPublication::Local(weak_local)@ == weak_local@ && !weak_local@.remote,
        WeakTrackPublication::Remote(weak_remote)@ == weak_remote@ && weak_remote@.remote,
{
}

/// An optional handle is on what the handle is on, and on nothing if there is none.
pub proof fn law_optional_handles_are_on_what_they_hold(
    track: Track,
    remote_track: RemoteTrack,
    weak: WeakTrackPublication,
)
    ensures
        info::track_view(Some(track)) == Some(track@),
        info::track_view(None) == None::<TrackRef>,
        publication::remote_track_view(Some(remote_track)) == Some(remote_track@),
        publication::remote_track_view(None) == None::<TrackRef>,
        registry::weak_view(Some(weak)) == Some(weak@),
        registry::weak_view(None) == None::<PublicationRef>,
{
}

/// Of the handles that there may be, exactly those of this registry are alive that are on a
/// publication or track which is there and is on the side that the handle says.
pub proof fn law_who_is_alive<H>(s: RegistryState<H>, p: PublicationRef, t: TrackRef)
    ensures
        s.alive(p) <==> p.home == s.home && s.publications.dom().contains(p.key) && (p.remote
            <==> s.publications[p.key].remote),
        s.track_alive(t) <==> t.home == s.home && s.tracks.dom().contains(t.key) && (t.remote
            <==> s.tracks[t.key].remote),
        s.track_held(t) <==> s.track_alive(t) && s.tracks[t.key].handles > 0,
        s.upgraded(p) is Some <==> s.alive(p),
        s.upgraded(p) matches Some(q) ==> q == p,
{
}

/// A new registry has its home and nothing in it, and has given no key.
pub proof fn law_a_new_registry_is_empty<H>(home: u64, key: u64)
    ensures
        RegistryState::<H>::empty(home).home == home,
        RegistryState::<H>::empty(home).next == 0,
        !RegistryState::<H>::empty(home).publications.dom().contains(key),
        !RegistryState::<H>::empty(home).tracks.dom().contains(key),
{
}

/// A publication has the track it knows of, and is among those that have it.
pub proof fn law_who_has_a_track<H>(s: RegistryState<H>, p: u64, track: u64)
    requires
        s.publications.contains_key(p),
    ensures
        s.publications[p].has_track(track) <==> (s.publications[p].info.track matches Some(t)
            && t.key == track),
        state::holding(s.publications, track).contains(p) <==> s.publications[p].has_track(track),
        state::holding(s.publications, track).subset_of(s.publications.dom()),
{
}

/// At all times a publication has a handle, a valid identifier and, if it has a track, a live one
/// that a publication of its side may have; and no key is in use that is still to be given.
pub proof fn law_publications_are_sound<H>(s: RegistryState<H>, key: u64)
    requires
        s.inv(),
        s.publications.contains_key(key),
    ensures
        key < s.next,
        s.publications[key].handles > 0,
        id::valid_track_sid(s.publications[key].info.sid),
        s.publications[key].info.track matches Some(t) ==> {
            &&& t.home == s.home
            &&& s.tracks.contains_key(t.key)
            &&& s.tracks[t.key].remote == t.remote
            &&& s.tracks[t.key].holders > 0
            &&& s.publications[key].remote ==> t.remote
        },
{
    assert(s.publication_inv(key));
    if let Some(t) = s.publications[key].info.track {
        assert(s.track_inv(t.key));
        preservation::lemma_holding_finite(s.publications, t.key);
        assert(state::holding(s.publications, t.key).contains(key));
    }
}

/// At all times a track is held by a handle or by a publication that has it, counts those
/// publications, has a valid identifier, and tells of a mute and of an unmute the same publication,
/// which has it while it is alive.
pub proof fn law_tracks_are_sound<H>(s: RegistryState<H>, key: u64)
    requires
        s.inv(),
        s.tracks.contains_key(key),
    ensures
        key < s.next,
        s.tracks[key].handles > 0 || exists|p: u64|
            #![trigger s.publications[p]]
            s.publications.contains_key(p) && s.publications[p].info.track is Some
                && s.publications[p].info.track->0.key == key,
        s.tracks[key].holders == state::holding(s.publications, key).len(),
        id::valid_track_sid(s.tracks[key].sid),
        s.tracks[key].muted == s.tracks[key].unmuted,
        s.tracks[key].muted matches Some(p) ==> {
            &&& p.home == s.home
            &&& p.key < s.next
            &&& s.alive(p) ==> s.publications[p.key].info.track is Some
                && s.publications[p.key].info.track->0.key == key
            &&& s.alive(p) <==> s.tracks[key].kept is None
        },
        s.tracks[key].muted is None ==> s.tracks[key].kept is None,
{
    assert(s.track_inv(key));
    preservation::lemma_holding_finite(s.publications, key);
    if s.tracks[key].handles == 0 {
        let p = state::holding(s.publications, key).choose();
        assert(state::holding(s.publications, key).contains(p));
        assert(s.publications[p].has_track(key));
    }
}

/// A new track is none of those before, has one handle, belongs to no publication and tells
/// nobody; it has the side and the identifier it was given. Nothing else changes, and its key is
/// not given again.
pub proof fn law_a_new_track_belongs_to_nobody<H>(s: RegistryState<H>, remote: bool, sid: Seq<char>)
    requires
        s.inv(),
        s.next < u64::MAX,
    ensures
        ({
            let after = s.added_track(remote, sid);
            let track = after.tracks[s.next];
            &&& !s.tracks.contains_key(s.next)
            &&& after.tracks.contains_key(s.next)
            &&& track.remote == remote
            &&& track.sid == sid
            &&& track.handles == 1
            &&& track.holders == 0
            &&& track.muted is None
            &&& track.unmuted is None
            &&& track.kept is None
            &&& after.tracks.remove(s.next) == s.tracks
            &&& after.publications == s.publications
            &&& after.home == s.home
            &&& after.next == s.next + 1
        }),
{
    if s.tracks.contains_key(s.next) {
        assert(s.track_inv(s.next));
    }
    assert(s.added_track(remote, sid).tracks.remove(s.next) =~= s.tracks);
}

/// One more handle on a track is one more handle on that track, and nothing else changes.
pub proof fn law_cloning_a_track_adds_one_handle<H>(s: RegistryState<H>, t: TrackRef)
    requires
        s.track_alive(t),
    ensures
        ({
            let after = s.cloned_track(t);
            &&& after.track_alive(t)
            &&& after.tracks[t.key].handles == s.tracks[t.key].handles + 1
            &&& after.tracks[t.key] == TrackState {
                handles: after.tracks[t.key].handles,
                ..s.tracks[t.key]
            }
            &&& after.tracks.remove(t.key) == s.tracks.remove(t.key)
            &&& after.publications == s.publications
            &&& after.home == s.home
            &&& after.next == s.next
        }),
{
    assert(s.cloned_track(t).tracks.remove(t.key) =~= s.tracks.remove(t.key));
}

/// A handle that is taken back is one handle less on that track. The track lives on if there is
/// another handle or a publication that has it, and else is gone; nothing else changes.
pub proof fn law_dropping_a_track_takes_one_handle<H>(s: RegistryState<H>, t: TrackRef)
    requires
        s.inv(),
        s.track_held(t),
    ensures
        ({
            let after = s.dropped_track(t);
            &&& after.track_alive(t) <==> s.tracks[t.key].handles > 1 || exists|p: u64|
                #![trigger s.publications[p]]
                s.publications.contains_key(p) && s.publications[p].info.track == Some(t)
            &&& after.tracks.contains_key(t.key) ==> after.track_alive(t)
            &&& after.track_alive(t) ==> {
                &&& after.tracks[t.key].handles == s.tracks[t.key].handles - 1
                &&& after.tracks[t.key] == TrackState {
                    handles: after.tracks[t.key].handles,
                    ..s.tracks[t.key]
                }
            }
            &&& after.tracks.remove(t.key) == s.tracks.remove(t.key)
            &&& after.publications == s.publications
            &&& after.home == s.home
            &&& after.next == s.next
        }),
{
    let after = s.dropped_track(t);
    assert(after.tracks.remove(t.key) =~= s.tracks.remove(t.key));
    assert(s.track_inv(t.key));
    preservation::lemma_holding_finite(s.publications, t.key);
    if s.tracks[t.key].holders > 0 {
        let p = state::holding(s.publications, t.key).choose();
        assert(state::holding(s.publications, t.key).contains(p));
        assert(s.publication_inv(p));
        assert(s.publications[p].info.track == Some(t));
    }
    assert forall|p: u64| #![trigger s.publications[p]]
        s.publications.contains_key(p) && s.publications[p].info.track == Some(t) implies
        s.tracks[t.key].holders > 0 by {
        assert(state::holding(s.publications, t.key).contains(p));
    }
}

/// Giving a publication a track, or none, moves one handle: the track that it is given has one
/// handle less and one holder more, the track that it had has one holder less. A track is there
/// afterwards exactly if a handle or a holder is left. The track it is given tells it, and it
/// alone; one that it merely had tells nobody; any other tells whom it told.
pub proof fn law_set_track_moves_one_handle<H>(
    s: RegistryState<H>,
    p: PublicationRef,
    track: Option<TrackRef>,
    key: u64,
)
    requires
        s.inv(),
        s.alive(p),
        track is Some ==> s.track_held(track->0),
    ensures
        ({
            let after = s.set_track(p, track);
            let before = s.tracks[key];
            let is_given = track is Some && track->0.key == key;
            let was_had = s.publications[p.key].info.track is Some
                && s.publications[p.key].info.track->0.key == key;
            let taken = if is_given {
                1int
            } else {
                0
            };
            let given_up = if was_had {
                1int
            } else {
                0
            };
            &&& !s.tracks.contains_key(key) ==> !after.tracks.contains_key(key)
            &&& s.tracks.contains_key(key) ==> {
                &&& after.tracks.contains_key(key) <==> before.handles + before.holders - given_up
                    >= 1
                &&& after.tracks.contains_key(key) ==> {
                    &&& after.tracks[key].handles == before.handles - taken
                    &&& after.tracks[key].holders == before.holders + taken - given_up
                    &&& after.tracks[key].remote == before.remote
                    &&& after.tracks[key].sid == before.sid
                    &&& is_given ==> {
                        &&& after.tracks[key].muted == Some(p)
                        &&& after.tracks[key].unmuted == Some(p)
                        &&& after.tracks[key].kept is None
                    }
                    &&& was_had && !is_given ==> {
                        &&& after.tracks[key].muted is None
                        &&& after.tracks[key].unmuted is None
                        &&& after.tracks[key].kept is None
                    }
                    &&& !was_had && !is_given ==> {
                        &&& after.tracks[key].muted == before.muted
                        &&& after.tracks[key].unmuted == before.unmuted
                        &&& after.tracks[key].kept == before.kept
                    }
                }
            }
            &&& after.home == s.home
            &&& after.next == s.next
        }),
{
    preservation::lemma_set_track_counts(s, p, track);
    if s.tracks.contains_key(key) {
        assert(s.track_inv(key));
    }
}

/// Giving a publication a track, or none, gives up no more than its own hold on the track that it
/// had: a track with a handle other than the one handed over, or with another publication that has
/// it, stays alive, and so does the track that it is given.
pub proof fn law_set_track_spares_what_others_hold<H>(
    s: RegistryState<H>,
    p: PublicationRef,
    track: Option<TrackRef>,
    t: TrackRef,
)
    requires
        s.inv(),
        s.alive(p),
        track is Some ==> s.track_held(track->0),
        s.track_alive(t),
    ensures
        ({
            let after = s.set_track(p, track);
            let others = s.tracks[t.key].handles - (if track == Some(t) {
                1int
            } else {
                0
            });
            let with_others = exists|q: u64|
                #![trigger s.publications[q]]
                q != p.key && s.publications.contains_key(q) && s.publications[q].info.track
                    == Some(t);
            &&& after.track_alive(t) <==> others > 0 || with_others || track == Some(t)
            &&& after.track_alive(t) ==> after.tracks[t.key].handles == others
            &&& others > 0 ==> after.track_held(t)
        }),
{
    let after = s.set_track(p, track);
    law_set_track_moves_one_handle(s, p, track, t.key);
    assert(s.track_inv(t.key));
    assert(s.publication_inv(p.key));
    let holding = state::holding(s.publications, t.key);
    preservation::lemma_holding_finite(s.publications, t.key);
    let had = s.publications[p.key].has_track(t.key);
    if had {
        assert(holding.contains(p.key));
    }
    let rest = holding.remove(p.key);
    assert forall|q: u64| #![trigger s.publications[q]]
        q != p.key && s.publications.contains_key(q) && s.publications[q].info.track == Some(
            t,
        ) implies rest.len() > 0 by {
        assert(rest.contains(q));
    }
    if rest.len() > 0 {
        let q = rest.choose();
        assert(rest.contains(q));
        assert(s.publication_inv(q));
        assert(s.publications[q].info.track == Some(t));
    }
    assert(track is Some && track->0.key == t.key ==> track->0 == t);
}

/// A publication that is given a track, or none, has just that; it is known by the identifier of
/// the track, and keeps its own if it is given none. Its side, its handles, its callbacks and all
/// else that is known of it stay, and so does every other publication.
pub proof fn law_set_track_changes_track_and_identifier<H>(
    s: RegistryState<H>,
    p: PublicationRef,
    track: Option<TrackRef>,
)
    requires
        s.inv(),
        s.alive(p),
        track is Some ==> s.track_held(track->0),
    ensures
        ({
            let before = s.publications[p.key];
            let after = s.set_track(p, track);
            let now = after.publications[p.key];
            &&& after.alive(p)
            &&& now.info.track == track
            &&& track matches Some(t) ==> now.info.sid == s.tracks[t.key].sid
            &&& track is None ==> now.info.sid == before.info.sid
            &&& now.remote == before.remote
            &&& now.handles == before.handles
            &&& now.events == before.events
            &&& now.info == PublicationInfoView {
                track: now.info.track,
                sid: now.info.sid,
                ..before.info
            }
            &&& after.publications.remove(p.key) == s.publications.remove(p.key)
        }),
{
    assert(s.publication_inv(p.key));
    assert(s.set_track(p, track).publications.remove(p.key) =~= s.publications.remove(p.key));
}

/// Giving a publication its own track once more, by another handle, takes that handle and changes
/// nothing of who has the track.
pub proof fn law_the_same_track_again_takes_the_handle<H>(
    s: RegistryState<H>,
    p: PublicationRef,
    t: TrackRef,
)
    requires
        s.inv(),
        s.alive(p),
        s.publications[p.key].info.track == Some(t),
        s.track_held(t),
    ensures
        ({
            let after = s.set_track(p, Some(t));
            &&& after.track_alive(t)
            &&& after.tracks[t.key].holders == s.tracks[t.key].holders
            &&& after.tracks[t.key].handles == s.tracks[t.key].handles - 1
            &&& after.publications[p.key].info.track == Some(t)
        }),
{
    law_set_track_moves_one_handle(s, p, Some(t), t.key);
    law_set_track_spares_what_others_hold(s, p, Some(t), t);
}

/// A new publication has one handle and no callbacks, is on the side it was given and is known by
/// its description and track, and its key is not given again. No other publication changes.
pub proof fn law_a_new_publication_starts_with_its_description<H>(
    s: RegistryState<H>,
    remote: bool,
    description: TrackInfoView,
    track: Option<TrackRef>,
)
    requires
        s.inv(),
        s.next < u64::MAX,
        description.publishable(),
    ensures
        ({
            let after = s.added_publication(
                remote,
                PublicationInfoView::described(description, track),
            );
            let now = after.publications[s.next];
            &&& !s.publications.contains_key(s.next)
            &&& after.publications.contains_key(s.next)
            &&& now.remote == remote
            &&& now.handles == 1
            &&& now.events.muted is None
            &&& now.events.unmuted is None
            &&& now.info.track == track
            &&& now.info.name == description.name
            &&& now.info.sid == description.sid
            &&& now.info.mime_type == description.mime_type
            &&& now.info.muted == description.muted
            &&& now.info.proto_info == description
            &&& now.info.dimension.0 == description.width
            &&& now.info.dimension.1 == description.height
            &&& now.info.kind is Video <==> description.track_type == 1
            &&& now.info.source is Camera <==> description.source == 1
            &&& now.info.source is Microphone <==> description.source == 2
            &&& now.info.source is Screenshare <==> description.source == 3
            &&& now.info.source is ScreenshareAudio <==> description.source == 4
            &&& now.info.encryption_type is Gcm <==> description.encryption == 1
            &&& now.info.encryption_type is Custom <==> description.encryption == 2
            &&& now.info.simulcasted <==> description.simulcast || description.layers.len() > 1
                || exists|i: int|
                0 <= i < description.codecs.len() && (
                #[trigger] description.codecs[i]).layers.len() > 1
            &&& now.info == PublicationInfoView::described(description, track)
            &&& after.publications.remove(s.next) == s.publications
            &&& after.home == s.home
            &&& after.next == s.next + 1
        }),
{
    let after = s.added_publication(remote, PublicationInfoView::described(description, track));
    if s.publications.contains_key(s.next) {
        assert(s.publication_inv(s.next));
    }
    assert(after.publications.remove(s.next) =~= s.publications);
}

/// A new publication takes over the handle on its track, which from then on has one holder more
/// and one handle less, and still tells whom it told. Other tracks stay as they are.
pub proof fn law_a_new_publication_takes_over_the_handle<H>(
    s: RegistryState<H>,
    remote: bool,
    known: PublicationInfoView,
    key: u64,
)
    requires
        known.track is Some ==> s.track_held(known.track->0),
    ensures
        ({
            let after = s.added_publication(remote, known);
            let is_given = known.track is Some && known.track->0.key == key;
            &&& after.tracks.contains_key(key) <==> s.tracks.contains_key(key)
            &&& s.tracks.contains_key(key) && !is_given ==> after.tracks[key] == s.tracks[key]
            &&& is_given ==> {
                &&& after.tracks[key].handles == s.tracks[key].handles - 1
                &&& after.tracks[key].holders == s.tracks[key].holders + 1
                &&& after.tracks[key] == TrackState {
                    handles: after.tracks[key].handles,
                    holders: after.tracks[key].holders,
                    ..s.tracks[key]
                }
            }
        }),
{
}

/// One more handle on a publication is one more handle on that publication, and nothing else
/// changes.
pub proof fn law_cloning_a_publication_adds_one_handle<H>(s: RegistryState<H>, p: PublicationRef)
    requires
        s.alive(p),
    ensures
        ({
            let after = s.cloned_publication(p);
            &&& after.alive(p)
            &&& after.publications[p.key].handles == s.publications[p.key].handles + 1
            &&& after.publications[p.key] == PublicationState {
                handles: after.publications[p.key].handles,
                ..s.publications[p.key]
            }
            &&& after.publications.remove(p.key) == s.publications.remove(p.key)
            &&& after.tracks == s.tracks
            &&& after.home == s.home
            &&& after.next == s.next
        }),
{
    assert(s.cloned_publication(p).publications.remove(p.key) =~= s.publications.remove(p.key));
}

/// A handle on a publication that is taken back is one handle less on it. While another one is
/// left nothing else changes; with the last one the publication is gone. No other publication
/// changes.
pub proof fn law_dropping_a_publication_takes_one_handle<H>(s: RegistryState<H>, p: PublicationRef)
    requires
        s.inv(),
        s.alive(p),
    ensures
        ({
            let after = s.dropped_publication(p);
            &&& after.publications.contains_key(p.key) <==> s.publications[p.key].handles > 1
            &&& s.publications[p.key].handles > 1 ==> {
                &&& after.publications[p.key].handles == s.publications[p.key].handles - 1
                &&& after.publications[p.key] == PublicationState {
                    handles: after.publications[p.key].handles,
                    ..s.publications[p.key]
                }
                &&& after.tracks == s.tracks
            }
            &&& after.publications.remove(p.key) == s.publications.remove(p.key)
            &&& after.home == s.home
            &&& after.next == s.next
        }),
{
    assert(s.publication_inv(p.key));
    assert(s.dropped_publication(p).publications.remove(p.key) =~= s.publications.remove(p.key));
}

/// A publication that goes with its last handle gives up its own hold on its track and no more:
/// the track has one holder less and is there afterwards exactly if a handle or a holder is left.
/// If it told the publication, it keeps the callbacks. Other tracks stay as they are.
pub proof fn law_the_last_handle_gives_up_one_hold<H>(
    s: RegistryState<H>,
    p: PublicationRef,
    key: u64,
)
    requires
        s.inv(),
        s.alive(p),
        s.publications[p.key].handles == 1,
    ensures
        ({
            let after = s.dropped_publication(p);
            let before = s.tracks[key];
            let was_had = s.publications[p.key].info.track is Some
                && s.publications[p.key].info.track->0.key == key;
            &&& !was_had ==> {
                &&& after.tracks.contains_key(key) <==> s.tracks.contains_key(key)
                &&& s.tracks.contains_key(key) ==> after.tracks[key] == before
            }
            &&& was_had ==> {
                &&& after.tracks.contains_key(key) <==> before.handles > 0 || exists|q: u64|
                    #![trigger s.publications[q]]
                    q != p.key && s.publications.contains_key(q)
                        && s.publications[q].info.track is Some
                        && s.publications[q].info.track->0.key == key
                &&& after.tracks.contains_key(key) ==> {
                    &&& after.tracks[key].handles == before.handles
                    &&& after.tracks[key].holders == before.holders - 1
                    &&& after.tracks[key].remote == before.remote
                    &&& after.tracks[key].sid == before.sid
                    &&& after.tracks[key].muted == before.muted
                    &&& after.tracks[key].unmuted == before.unmuted
                    &&& before.muted == Some(p) ==> after.tracks[key].kept == Some(
                        s.publications[p.key].events,
                    )
                    &&& before.muted != Some(p) ==> after.tracks[key].kept == before.kept
                }
            }
        }),
{
    preservation::lemma_set_track_counts(s, p, None);
    if s.publications[p.key].has_track(key) {
        assert(s.track_inv(key));
        let holding = state::holding(s.publications, key);
        preservation::lemma_holding_finite(s.publications, key);
        assert(holding.contains(p.key));
        let rest = holding.remove(p.key);
        assert forall|q: u64| #![trigger s.publications[q]]
            q != p.key && s.publications.contains_key(q) && s.publications[q].info.track is Some
                && s.publications[q].info.track->0.key == key implies rest.len() > 0 by {
            assert(rest.contains(q));
        }
        if rest.len() > 0 {
            let q = rest.choose();
            assert(rest.contains(q));
            assert(s.publications[q].has_track(key));
        }
    }
}

/// After a new description a publication is known by that, whether or not it has a track, but for
/// the track and the mute flag, which stay; and so do its side, its handles and its callbacks, and
/// everything else that is shared.
pub proof fn law_a_new_description_replaces_the_old_one<H>(
    s: RegistryState<H>,
    p: PublicationRef,
    description: TrackInfoView,
)
    requires
        s.alive(p),
        description.publishable(),
    ensures
        ({
            let before = s.publications[p.key];
            let after = s.updated_info(p, description);
            let now = after.publications[p.key];
            &&& after.alive(p)
            &&& now.remote == before.remote
            &&& now.handles == before.handles
            &&& now.events == before.events
            &&& now.info.track == before.info.track
            &&& now.info.muted == before.info.muted
            &&& now.info.name == description.name
            &&& now.info.sid == description.sid
            &&& now.info.mime_type == description.mime_type
            &&& now.info.proto_info == description
            &&& now.info.dimension.0 == description.width
            &&& now.info.dimension.1 == description.height
            &&& now.info.kind is Video <==> description.track_type == 1
            &&& now.info.source is Camera <==> description.source == 1
            &&& now.info.source is Microphone <==> description.source == 2
            &&& now.info.source is Screenshare <==> description.source == 3
            &&& now.info.source is ScreenshareAudio <==> description.source == 4
            &&& now.info.encryption_type is Gcm <==> description.encryption == 1
            &&& now.info.encryption_type is Custom <==> description.encryption == 2
            &&& now.info.simulcasted <==> description.simulcast || description.layers.len() > 1
                || exists|i: int|
                0 <= i < description.codecs.len() && (
                #[trigger] description.codecs[i]).layers.len() > 1
            &&& now.info == before.info.redescribed(description)
            &&& after.publications.remove(p.key) == s.publications.remove(p.key)
            &&& after.tracks == s.tracks
            &&& after.home == s.home
            &&& after.next == s.next
        }),
{
    let after = s.updated_info(p, description);
    assert(after.publications.remove(p.key) =~= s.publications.remove(p.key));
}

/// A callback for a mute takes the place of the one before and of nothing else: the callback for
/// an unmute stays, and what is known of the publication, its handles and everything else too.
pub proof fn law_a_mute_callback_replaces_only_its_like<H>(
    s: RegistryState<H>,
    p: PublicationRef,
    handler: H,
)
    requires
        s.alive(p),
    ensures
        ({
            let before = s.publications[p.key];
            let after = s.with_muted_handler(p, handler);
            let now = after.publications[p.key];
            &&& after.alive(p)
            &&& now.events.muted == Some(handler)
            &&& now.events.unmuted == before.events.unmuted
            &&& now.info == before.info
            &&& now.handles == before.handles
            &&& now.remote == before.remote
            &&& after.publications.remove(p.key) == s.publications.remove(p.key)
            &&& after.tracks == s.tracks
            &&& after.home == s.home
            &&& after.next == s.next
        }),
{
    let after = s.with_muted_handler(p, handler);
    assert(after.publications.remove(p.key) =~= s.publications.remove(p.key));
}

/// A callback for an unmute takes the place of the one before and of nothing else: the callback
/// for a mute stays, and what is known of the publication, its handles and everything else too.
pub proof fn law_an_unmute_callback_replaces_only_its_like<H>(
    s: RegistryState<H>,
    p: PublicationRef,
    handler: H,
)
    requires
        s.alive(p),
    ensures
        ({
            let before = s.publications[p.key];
            let after = s.with_unmuted_handler(p, handler);
            let now = after.publications[p.key];
            &&& after.alive(p)
            &&& now.events.unmuted == Some(handler)
            &&& now.events.muted == before.events.muted
            &&& now.info == before.info
            &&& now.handles == before.handles
            &&& now.remote == before.remote
            &&& after.publications.remove(p.key) == s.publications.remove(p.key)
            &&& after.tracks == s.tracks
            &&& after.home == s.home
            &&& after.next == s.next
        }),
{
    let after = s.with_unmuted_handler(p, handler);
    assert(after.publications.remove(p.key) =~= s.publications.remove(p.key));
}

/// The two callbacks may be left in either order.
pub proof fn law_callbacks_may_be_left_in_either_order<H>(
    s: RegistryState<H>,
    p: PublicationRef,
    on_mute: H,
    on_unmute: H,
)
    requires
        s.alive(p),
    ensures
        ({
            let one = s.with_muted_handler(p, on_mute).with_unmuted_handler(p, on_unmute);
            let other = s.with_unmuted_handler(p, on_unmute).with_muted_handler(p, on_mute);
            &&& one == other
            &&& one.publications[p.key].events == PublicationEvents {
                muted: Some(on_mute),
                unmuted: Some(on_unmute),
            }
        }),
{
    let one = s.with_muted_handler(p, on_mute).with_unmuted_handler(p, on_unmute);
    let other = s.with_unmuted_handler(p, on_unmute).with_muted_handler(p, on_mute);
    assert(one =~= other);
}

/// On a mute a publication is called exactly if the track tells it of one, it is alive and it has
/// a callback for that; on an unmute likewise. Neither depends on the other's callback.
pub proof fn law_who_is_called<H>(s: RegistryState<H>, t: TrackRef, p: PublicationRef)
    requires
        s.track_alive(t),
    ensures
        s.due_muted(t) == Some(p) <==> {
            &&& s.tracks[t.key].muted == Some(p)
            &&& s.alive(p)
            &&& s.publications[p.key].events.muted is Some
        },
        s.due_unmuted(t) == Some(p) <==> {
            &&& s.tracks[t.key].unmuted == Some(p)
            &&& s.alive(p)
            &&& s.publications[p.key].events.unmuted is Some
        },
{
}

/// From when a publication has been given a track, and until it is given another one, the track
/// calls it on a mute exactly if a callback for a mute has been left with it, and on an unmute
/// exactly if one for an unmute has; it does not matter which came first, callback or track.
pub proof fn law_callback_and_track_may_come_in_either_order<H>(
    s: RegistryState<H>,
    p: PublicationRef,
    t: TrackRef,
    handler: H,
)
    requires
        s.inv(),
        s.alive(p),
        s.track_held(t),
        p.remote ==> t.remote,
    ensures
        s.set_track(p, Some(t)).with_muted_handler(p, handler) == s.with_muted_handler(
            p,
            handler,
        ).set_track(p, Some(t)),
        s.set_track(p, Some(t)).with_unmuted_handler(p, handler) == s.with_unmuted_handler(
            p,
            handler,
        ).set_track(p, Some(t)),
        s.set_track(p, Some(t)).with_muted_handler(p, handler).due_muted(t) == Some(p),
        s.set_track(p, Some(t)).with_unmuted_handler(p, handler).due_unmuted(t) == Some(p),
        s.set_track(p, Some(t)).with_muted_handler(p, handler).due_unmuted(t) == s.set_track(
            p,
            Some(t),
        ).due_unmuted(t),
        s.set_track(p, Some(t)).with_unmuted_handler(p, handler).due_muted(t) == s.set_track(
            p,
            Some(t),
        ).due_muted(t),
{
    let set = s.set_track(p, Some(t));
    law_set_track_moves_one_handle(s, p, Some(t), t.key);
    law_set_track_spares_what_others_hold(s, p, Some(t), t);
    law_set_track_changes_track_and_identifier(s, p, Some(t));
    assert(set.with_muted_handler(p, handler) =~= s.with_muted_handler(p, handler).set_track(
        p,
        Some(t),
    ));
    assert(set.with_unmuted_handler(p, handler) =~= s.with_unmuted_handler(p, handler).set_track(
        p,
        Some(t),
    ));
}

} // verus!
