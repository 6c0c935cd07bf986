//! The owner of what handles share.

use std::collections::HashMap;

use vstd::prelude::*;

use crate::handle::{PublicationRef, Track, TrackPublication, TrackRef, WeakTrackPublication};
use crate::id;
use crate::id::TrackSid;
use crate::info;
use crate::info::{PublicationEvents, PublicationInfo, PublicationInfoView};
use crate::preservation;
use crate::proto::TrackInfo;
use crate::state::{PublicationState, RegistryState, TrackState};

verus! {

/// What the handles on a publication share.
struct TrackPublicationInner<H> {
    remote: bool,
    handles: u64,
    info: PublicationInfo,
    events: PublicationEvents<H>,
}

/// What the handles on a track share.
struct TrackInner<H> {
    remote: bool,
    sid: TrackSid,
    handles: u64,
    holders: u64,
    muted: Option<WeakTrackPublication>,
    unmuted: Option<WeakTrackPublication>,
    kept: Option<PublicationEvents<H>>,
}

/// Which publication an optional weak handle is on.
pub open spec fn weak_view(weak: Option<WeakTrackPublication>) -> Option<PublicationRef> {
    match weak {
        Some(weak) => Some(weak@),
        None => None,
    }
}

impl<H> TrackPublicationInner<H> {
    spec fn state(self) -> PublicationState<H> {
        PublicationState {
            remote: self.remote,
            handles: self.handles as nat,
            info: self.info@,
            events: self.events,
        }
    }
}

impl<H> TrackInner<H> {
    spec fn state(self) -> TrackState<H> {
        TrackState {
            remote: self.remote,
            sid: self.sid@,
            handles: self.handles as nat,
            holders: self.holders as nat,
            muted: weak_view(self.muted),
            unmuted: weak_view(self.unmuted),
            kept: self.kept,
        }
    }
}

/// Owns what the handles on tracks and publications share, and releases it with the last holder.
///
/// `H` is what a user leaves with a publication to be called on a mute or unmute.
///
/// A registry is told from others by its home, which its handles carry; it accepts no handle of
/// another home. No two registries of a program are to have the same home.
pub struct Registry<H> {
    home: u64,
    publications: HashMap<u64, TrackPublicationInner<H>>,
    tracks: HashMap<u64, TrackInner<H>>,
    next: u64,
}

impl<H> View for Registry<H> {
    type V = RegistryState<H>;

    closed spec fn view(&self) -> RegistryState<H> {
        RegistryState {
            home: self.home,
            publications: self.publications@.map_values(
                |inner: TrackPublicationInner<H>| inner.state(),
            ),
            tracks: self.tracks@.map_values(|inner: TrackInner<H>| inner.state()),
            next: self.next,
        }
    }
}

impl<H> Registry<H> {
    /// A registry of nothing, with the home `home`.
    pub fn new(home: u64) -> (r: Registry<H>)
        ensures
            r@ == RegistryState::<H>::empty(home),
            r@.inv(),
    {
        let r = Registry { home, publications: HashMap::new(), tracks: HashMap::new(), next: 0 };
        assert(r@ =~= RegistryState::<H>::empty(home));
        r
    }

    /// Puts what is shared of a publication under its key.
    fn put_publication(&mut self, key: u64, inner: TrackPublicationInner<H>)
        ensures
            final(self)@ == old(self)@.with_publication(key, inner.state()),
    {
        self.publications.insert(key, inner);
        assert(self@ =~= old(self)@.with_publication(key, inner.state()));
    }

    /// Takes out what is shared of a publication.
    fn take_publication(&mut self, key: u64) -> (r: TrackPublicationInner<H>)
        requires
            old(self)@.publications.contains_key(key),
        ensures
            r.state() == old(self)@.publications[key],
            final(self)@ == (RegistryState {
                publications: old(self)@.publications.remove(key),
                ..old(self)@
            }),
    {
        let r = self.publications.remove(&key).unwrap();
        assert(self@ =~= (RegistryState {
            publications: old(self)@.publications.remove(key),
            ..old(self)@
        }));
        r
    }

    /// Puts what is shared of a track under its key.
    fn put_track(&mut self, key: u64, inner: TrackInner<H>)
        ensures
            final(self)@ == old(self)@.with_track(key, inner.state()),
    {
        self.tracks.insert(key, inner);
        assert(self@ =~= old(self)@.with_track(key, inner.state()));
    }

    /// Takes out what is shared of a track.
    fn take_track(&mut self, key: u64) -> (r: TrackInner<H>)
        requires
            old(self)@.tracks.contains_key(key),
        ensures
            r.state() == old(self)@.tracks[key],
            final(self)@ == (RegistryState { tracks: old(self)@.tracks.remove(key), ..old(self)@ }),
    {
        let r = self.tracks.remove(&key).unwrap();
        assert(self@ =~= (RegistryState { tracks: old(self)@.tracks.remove(key), ..old(self)@ }));
        r
    }

    /// What is shared of a publication.
    fn publication(&self, key: u64) -> (r: &TrackPublicationInner<H>)
        requires
            self@.publications.contains_key(key),
        ensures
            r.state() == self@.publications[key],
    {
        self.publications.get(&key).unwrap()
    }

    /// What is shared of a track.
    fn track(&self, key: u64) -> (r: &TrackInner<H>)
        requires
            self@.tracks.contains_key(key),
        ensures
            r.state() == self@.tracks[key],
    {
        self.tracks.get(&key).unwrap()
    }
}

impl<H> Registry<H> {
    /// Adds a track and gives out a handle on it. Nobody hears of a mute yet.
    pub fn add_track(&mut self, remote: bool, sid: TrackSid) -> (r: Track)
        requires
            old(self)@.inv(),
            old(self)@.next < u64::MAX,
        ensures
            r@ == (TrackRef { home: old(self)@.home, remote, key: old(self)@.next }),
            final(self)@ == old(self)@.added_track(remote, sid@),
            final(self)@.inv(),
    {
        let key = self.next;
        let text = sid.as_str();
        assert(id::valid_track_sid(text@));
        proof {
            preservation::lemma_added_track_inv(self@, remote, sid@);
        }
        self.put_track(
            key,
            TrackInner {
                remote,
                sid,
                handles: 1,
                holders: 0,
                muted: None,
                unmuted: None,
                kept: None,
            },
        );
        self.next = key + 1;
        assert(self@ =~= old(self)@.added_track(remote, sid@));
        Track::on(TrackRef { home: self.home, remote, key })
    }

    /// One more handle on a track.
    fn clone_track_on(&mut self, which: TrackRef) -> (r: Track)
        requires
            old(self)@.inv(),
            old(self)@.track_alive(which),
            old(self)@.tracks[which.key].handles < u64::MAX,
        ensures
            r@ == which,
            final(self)@ == old(self)@.cloned_track(which),
            final(self)@.inv(),
    {
        proof {
            preservation::lemma_cloned_track_inv(self@, which);
        }
        let mut inner = self.take_track(which.key);
        inner.handles = inner.handles + 1;
        self.put_track(which.key, inner);
        assert(self@ =~= old(self)@.cloned_track(which));
        Track::on(which)
    }

    /// Gives out one more handle on a track.
    pub fn clone_track(&mut self, track: &Track) -> (r: Track)
        requires
            old(self)@.inv(),
            old(self)@.track_alive(track@),
            old(self)@.tracks[track@.key].handles < u64::MAX,
        ensures
            r@ == track@,
            final(self)@ == old(self)@.cloned_track(track@),
            final(self)@.inv(),
    {
        self.clone_track_on(track.which())
    }

    /// Takes back a handle on a track and releases the track if nothing holds it any more.
    pub fn drop_track(&mut self, track: Track)
        requires
            old(self)@.inv(),
            old(self)@.track_held(track@),
        ensures
            final(self)@ == old(self)@.dropped_track(track@),
            final(self)@.inv(),
    {
        let key = track.which().key;
        proof {
            preservation::lemma_dropped_track_inv(self@, track@);
        }
        let mut inner = self.take_track(key);
        if inner.handles > 1 || inner.holders > 0 {
            inner.handles = inner.handles - 1;
            self.put_track(key, inner);
        }
        assert(self@ =~= old(self)@.dropped_track(track@));
    }

    /// Takes a publication off the holders of a track and releases the track if nothing holds it
    /// any more.
    fn release_track(&mut self, track: Track)
        requires
            old(self)@.tracks.contains_key(track@.key),
            old(self)@.tracks[track@.key].holders >= 1,
        ensures
            final(self)@ == old(self)@.released_track(track@),
    {
        let key = track.which().key;
        let mut inner = self.take_track(key);
        if inner.handles > 0 || inner.holders > 1 {
            inner.holders = inner.holders - 1;
            self.put_track(key, inner);
        }
        assert(self@ =~= old(self)@.released_track(track@));
    }

    /// Adds a publication that the server describes by `info` and that takes over the handle on
    /// `track`, and gives out a handle on it. It has no callbacks yet.
    pub fn new_inner(
        &mut self,
        remote: bool,
        info: TrackInfo,
        track: Option<Track>,
    ) -> (r: TrackPublication)
        requires
            old(self)@.inv(),
            old(self)@.next < u64::MAX,
            info@.publishable(),
            track matches Some(t) ==> old(self)@.track_held(t@) && (remote ==> t@.remote),
        ensures
            r@ == (PublicationRef { home: old(self)@.home, remote, key: old(self)@.next }),
            final(self)@ == old(self)@.added_publication(
                remote,
                PublicationInfoView::described(info@, info::track_view(track)),
            ),
            final(self)@.inv(),
    {
        let ghost described = PublicationInfoView::described(info@, info::track_view(track));
        let key = self.next;
        proof {
            preservation::lemma_added_publication_inv(self@, remote, described);
        }
        if let Some(t) = &track {
            let t = t.which().key;
            proof {
                preservation::lemma_holders_bounded(self@, t);
            }
            let mut inner = self.take_track(t);
            inner.handles = inner.handles - 1;
            inner.holders = inner.holders + 1;
            self.put_track(t, inner);
        }
        let inner = TrackPublicationInner {
            remote,
            handles: 1,
            info: PublicationInfo::new(info, track),
            events: PublicationEvents { muted: None, unmuted: None },
        };
        self.put_publication(key, inner);
        self.next = key + 1;
        assert(self@ =~= old(self)@.added_publication(remote, described));
        TrackPublication::on(PublicationRef { home: self.home, remote, key })
    }
}

impl<H> Registry<H> {
    /// The track tells nobody of a mute any more.
    fn silence_track(&mut self, which: TrackRef)
        requires
            old(self)@.tracks.contains_key(which.key),
        ensures
            final(self)@ == old(self)@.silenced_track(which),
    {
        let mut inner = self.take_track(which.key);
        inner.muted = None;
        inner.unmuted = None;
        inner.kept = None;
        self.put_track(which.key, inner);
        assert(self@ =~= old(self)@.silenced_track(which));
    }

    /// The track keeps the callbacks of a publication, if that is the one it tells of a mute.
    fn keep_callbacks(
        &mut self,
        which: TrackRef,
        publication: PublicationRef,
        events: PublicationEvents<H>,
    )
        requires
            old(self)@.tracks.contains_key(which.key),
        ensures
            final(self)@ == old(self)@.keeping_callbacks(which, publication, events),
    {
        if let Some(weak) = self.track(which.key).muted {
            if weak.which() == publication {
                let mut inner = self.take_track(which.key);
                inner.kept = Some(events);
                self.put_track(which.key, inner);
            }
        }
        assert(self@ =~= old(self)@.keeping_callbacks(which, publication, events));
    }

    /// A handle on the track goes over to a publication, which the track then tells of a mute.
    fn hand_track(&mut self, which: TrackRef, publication: WeakTrackPublication)
        requires
            old(self)@.tracks.contains_key(which.key),
            old(self)@.tracks[which.key].handles >= 1,
            old(self)@.tracks[which.key].holders < u64::MAX,
        ensures
            final(self)@ == old(self)@.handed_track(which, publication@),
    {
        let mut inner = self.take_track(which.key);
        inner.handles = inner.handles - 1;
        inner.holders = inner.holders + 1;
        inner.muted = Some(publication);
        inner.unmuted = Some(publication);
        inner.kept = None;
        self.put_track(which.key, inner);
        assert(self@ =~= old(self)@.handed_track(which, publication@));
    }

    /// Puts a handle on a track, or none, in the place of the one that a publication has, and
    /// hands out the latter.
    fn replace_track(&mut self, which: PublicationRef, track: Option<Track>) -> (r: Option<Track>)
        requires
            old(self)@.publications.contains_key(which.key),
            track matches Some(t) ==> old(self)@.tracks.contains_key(t@.key),
        ensures
            info::track_view(r) == old(self)@.publications[which.key].info.track,
            final(self)@ == old(self)@.with_publication_track(which, info::track_view(track)),
    {
        let mut inner = self.take_publication(which.key);
        if let Some(t) = &track {
            inner.info.sid = self.track(t.which().key).sid.clone();
        }
        let previous = inner.info.track.take();
        inner.info.track = track;
        self.put_publication(which.key, inner);
        assert(self@ =~= old(self)@.with_publication_track(which, info::track_view(track)));
        previous
    }

    /// Which track a publication has.
    fn track_of(&self, which: PublicationRef) -> (r: Option<TrackRef>)
        requires
            self@.publications.contains_key(which.key),
        ensures
            r == self@.publications[which.key].info.track,
    {
        match &self.publication(which.key).info.track {
            Some(t) => Some(t.which()),
            None => None,
        }
    }

    /// A new handle on the track that a publication has.
    pub(crate) fn clone_track_of(&mut self, which: PublicationRef) -> (r: Option<Track>)
        requires
            old(self)@.inv(),
            old(self)@.alive(which),
            old(self)@.publications[which.key].info.track matches Some(t) ==> old(
                self,
            )@.tracks[t.key].handles < u64::MAX,
        ensures
            info::track_view(r) == old(self)@.publications[which.key].info.track,
            final(self)@ == (match old(self)@.publications[which.key].info.track {
                Some(t) => old(self)@.cloned_track(t),
                None => old(self)@,
            }),
            final(self)@.inv(),
    {
        assert(self@.publication_inv(which.key));
        match self.track_of(which) {
            Some(t) => Some(self.clone_track_on(t)),
            None => None,
        }
    }

    /// Gives a publication the track `track`, whose handle it takes over, or none.
    ///
    /// The track it had tells nobody of a mute any more and is released if nothing else holds it.
    /// The new one gives the publication its identifier and tells it of a mute, and knows it only
    /// weakly for that: the publication holds the track, so a strong handle would keep both alive
    /// forever.
    pub(crate) fn set_track(&mut self, which: PublicationRef, track: Option<Track>)
        requires
            old(self)@.inv(),
            old(self)@.alive(which),
            track matches Some(t) ==> old(self)@.track_held(t@) && (which.remote ==> t@.remote),
        ensures
            final(self)@ == old(self)@.set_track(which, info::track_view(track)),
            final(self)@.inv(),
    {
        let ghost before = self@;
        let new_track = match &track {
            Some(t) => Some(t.which()),
            None => None,
        };
        proof {
            preservation::lemma_set_track_inv(before, which, new_track);
            preservation::lemma_set_track_counts(before, which, new_track);
        }
        if let Some(t) = self.track_of(which) {
            self.silence_track(t);
        }
        let previous = self.replace_track(which, track);
        if let Some(t) = new_track {
            self.hand_track(t, WeakTrackPublication::on(which));
        }
        if let Some(t) = previous {
            self.release_track(t);
        }
    }
}

/// What is noted of a publication when it is released.
#[derive(Debug)]
pub struct ReleasedPublication {
    pub sid: TrackSid,
    pub has_track: bool,
}

impl ReleasedPublication {
    /// The line that a leak probe prints.
    pub fn probe_line(&self) -> (r: String)
        ensures
            r@ == "LK_LEAK_PROBE TrackPublicationInner::drop sid="@ + self.sid@ + " has_track="@
                + (if self.has_track {
                "true"@
            } else {
                "false"@
            }),
    {
        let mut line = "LK_LEAK_PROBE TrackPublicationInner::drop sid=".to_owned();
        line.append(self.sid.as_str());
        line.append(" has_track=");
        line.append(
            if self.has_track {
                "true"
            } else {
                "false"
            },
        );
        line
    }
}

impl<H> Registry<H> {
    /// Whether a publication is alive.
    pub fn is_alive(&self, publication: &WeakTrackPublication) -> (r: bool)
        ensures
            r == self@.alive(publication@),
    {
        let which = publication.which();
        match self.publications.get(&which.key) {
            Some(inner) => {
                assert(inner.state() == self@.publications[which.key]);
                which.home == self.home && inner.remote == which.remote
            },
            None => false,
        }
    }

    /// Whether there is a handle on a track outside of publications.
    pub fn is_track_held(&self, track: &Track) -> (r: bool)
        ensures
            r == self@.track_held(track@),
    {
        let which = track.which();
        match self.tracks.get(&which.key) {
            Some(inner) => {
                assert(inner.state() == self@.tracks[which.key]);
                which.home == self.home && inner.remote == which.remote && inner.handles >= 1
            },
            None => false,
        }
    }

    /// Number of keys that have been given.
    pub fn keys_given(&self) -> (r: u64)
        ensures
            r == self@.next,
    {
        self.next
    }

    /// Number of strong handles on a publication.
    pub fn handle_count(&self, publication: &TrackPublication) -> (r: u64)
        requires
            self@.alive(publication@),
        ensures
            r == self@.publications[publication@.key].handles,
    {
        self.publication(publication.which().key).handles
    }

    /// Number of strong handles on a track outside of publications.
    pub fn track_handle_count(&self, track: &Track) -> (r: u64)
        requires
            self@.track_alive(track@),
        ensures
            r == self@.tracks[track@.key].handles,
    {
        self.track(track.which().key).handles
    }

    /// Whether the number of handles on a publication, if that is alive, leaves room for one more.
    pub fn may_clone(&self, publication: &WeakTrackPublication) -> (r: bool)
        ensures
            r <==> (self@.alive(publication@) ==> self@.publications[publication@.key].handles
                < u64::MAX),
    {
        !self.is_alive(publication) || self.publication(publication.which().key).handles
            < u64::MAX
    }

    /// Whether a track is alive and the number of handles on it leaves room for one more.
    pub fn may_clone_track(&self, track: &Track) -> (r: bool)
        ensures
            r <==> self@.track_alive(track@) && self@.tracks[track@.key].handles < u64::MAX,
    {
        let which = track.which();
        match self.tracks.get(&which.key) {
            Some(inner) => {
                assert(inner.state() == self@.tracks[which.key]);
                which.home == self.home && inner.remote == which.remote && inner.handles < u64::MAX
            },
            None => false,
        }
    }

    /// Whether the number of handles on the track of a publication, if that has one, leaves room
    /// for one more.
    pub(crate) fn may_clone_track_of(&self, which: PublicationRef) -> (r: bool)
        requires
            self@.inv(),
            self@.alive(which),
        ensures
            r <==> (self@.publications[which.key].info.track matches Some(t)
                ==> self@.tracks[t.key].handles < u64::MAX),
    {
        assert(self@.publication_inv(which.key));
        match self.track_of(which) {
            Some(t) => self.track(t.key).handles < u64::MAX,
            None => true,
        }
    }

    /// The publication that hears of a mute or unmute of a track, dead or alive.
    pub fn listener(&self, track: &Track) -> (r: Option<WeakTrackPublication>)
        requires
            self@.inv(),
            self@.track_alive(track@),
        ensures
            weak_view(r) == self@.tracks[track@.key].muted,
            weak_view(r) == self@.tracks[track@.key].unmuted,
    {
        assert(self@.track_inv(track@.key));
        self.track(track.which().key).muted
    }

    /// What is known of a publication.
    pub(crate) fn info(&self, which: PublicationRef) -> (r: &PublicationInfo)
        requires
            self@.alive(which),
        ensures
            r@ == self@.publications[which.key].info,
    {
        &self.publication(which.key).info
    }

    /// One more handle on a publication.
    pub(crate) fn clone_on(&mut self, which: PublicationRef) -> (r: TrackPublication)
        requires
            old(self)@.inv(),
            old(self)@.alive(which),
            old(self)@.publications[which.key].handles < u64::MAX,
        ensures
            r@ == which,
            final(self)@ == old(self)@.cloned_publication(which),
            final(self)@.inv(),
    {
        let mut inner = self.take_publication(which.key);
        inner.handles = inner.handles + 1;
        self.put_publication(which.key, inner);
        assert(self@ =~= old(self)@.cloned_publication(which));
        proof {
            assert(old(self)@.publication_inv(which.key));
            preservation::lemma_with_publication_inv(old(self)@, which.key, inner.state());
        }
        TrackPublication::on(which)
    }

    /// Gives out one more handle on a publication.
    pub fn clone_publication(&mut self, publication: &TrackPublication) -> (r: TrackPublication)
        requires
            old(self)@.inv(),
            old(self)@.alive(publication@),
            old(self)@.publications[publication@.key].handles < u64::MAX,
        ensures
            r@ == publication@,
            final(self)@ == old(self)@.cloned_publication(publication@),
            final(self)@.inv(),
    {
        self.clone_on(publication.which())
    }

    /// Takes back a handle on a publication. With the last one the publication is released and
    /// gives up its track; what is noted of it then is returned.
    pub fn drop_publication(&mut self, publication: TrackPublication) -> (r: Option<
        ReleasedPublication,
    >)
        requires
            old(self)@.inv(),
            old(self)@.alive(publication@),
        ensures
            final(self)@ == old(self)@.dropped_publication(publication@),
            final(self)@.inv(),
            ({
                let p = old(self)@.publications[publication@.key];
                &&& r is Some <==> p.handles == 1
                &&& r matches Some(released) ==> released.sid@ == p.info.sid && released.has_track
                    == (p.info.track is Some)
            }),
    {
        let ghost before = self@;
        let key = publication.which().key;
        proof {
            preservation::lemma_dropped_publication_inv(before, publication@);
            preservation::lemma_set_track_counts(before, publication@, None);
        }
        let mut inner = self.take_publication(key);
        if inner.handles == 1 {
            let released = ReleasedPublication {
                has_track: inner.info.track.is_some(),
                sid: inner.info.sid,
            };
            if let Some(t) = inner.info.track {
                self.keep_callbacks(t.which(), publication.which(), inner.events);
                self.release_track(t);
            }
            Some(released)
        } else {
            assert(before.publication_inv(key));
            inner.handles = inner.handles - 1;
            self.put_publication(key, inner);
            assert(self@ =~= before.dropped_publication(publication@));
            None
        }
    }

    /// Takes over a new description of a publication.
    pub(crate) fn update_info(&mut self, which: PublicationRef, new_info: TrackInfo)
        requires
            old(self)@.inv(),
            old(self)@.alive(which),
            new_info@.publishable(),
        ensures
            final(self)@ == old(self)@.updated_info(which, new_info@),
            final(self)@.inv(),
    {
        let ghost before = self@;
        let key = which.key;
        proof {
            preservation::lemma_updated_info_inv(before, which, new_info@);
        }
        let mut inner = self.take_publication(key);
        inner.info.update(new_info);
        self.put_publication(key, inner);
        assert(self@ =~= before.updated_info(which, new_info@));
    }

    /// Leaves `handler` with a publication to be called when its track is muted, in the place of
    /// the one before.
    pub(crate) fn on_muted(&mut self, which: PublicationRef, handler: H)
        requires
            old(self)@.inv(),
            old(self)@.alive(which),
        ensures
            final(self)@ == old(self)@.with_muted_handler(which, handler),
            final(self)@.inv(),
    {
        let ghost before = self@;
        let key = which.key;
        let mut inner = self.take_publication(key);
        inner.events.muted = Some(handler);
        self.put_publication(key, inner);
        assert(self@ =~= before.with_muted_handler(which, handler));
        proof {
            assert(before.publication_inv(key));
            preservation::lemma_with_publication_inv(before, key, inner.state());
        }
    }

    /// Leaves `handler` with a publication to be called when its track is unmuted, in the place
    /// of the one before.
    pub(crate) fn on_unmuted(&mut self, which: PublicationRef, handler: H)
        requires
            old(self)@.inv(),
            old(self)@.alive(which),
        ensures
            final(self)@ == old(self)@.with_unmuted_handler(which, handler),
            final(self)@.inv(),
    {
        let ghost before = self@;
        let key = which.key;
        let mut inner = self.take_publication(key);
        inner.events.unmuted = Some(handler);
        self.put_publication(key, inner);
        assert(self@ =~= before.with_unmuted_handler(which, handler));
        proof {
            assert(before.publication_inv(key));
            preservation::lemma_with_publication_inv(before, key, inner.state());
        }
    }

    /// What a publication calls when its track is muted.
    pub(crate) fn muted_handler(&self, which: PublicationRef) -> (r: Option<&H>)
        requires
            self@.alive(which),
        ensures
            r == (match self@.publications[which.key].events.muted {
                Some(handler) => Some(&handler),
                None => None,
            }),
    {
        self.publication(which.key).events.muted.as_ref()
    }

    /// What a publication calls when its track is unmuted.
    pub(crate) fn unmuted_handler(&self, which: PublicationRef) -> (r: Option<&H>)
        requires
            self@.alive(which),
        ensures
            r == (match self@.publications[which.key].events.unmuted {
                Some(handler) => Some(&handler),
                None => None,
            }),
    {
        self.publication(which.key).events.unmuted.as_ref()
    }

    /// A track has been muted. If a live publication is to hear of it and has a callback, hands
    /// out a handle on that publication, with which the callback is to be called.
    pub fn track_muted(&mut self, track: &Track) -> (r: Option<TrackPublication>)
        requires
            old(self)@.inv(),
            old(self)@.track_alive(track@),
            old(self)@.due_muted(track@) matches Some(p) ==> old(
                self,
            )@.publications[p.key].handles < u64::MAX,
        ensures
            match old(self)@.due_muted(track@) {
                Some(p) => {
                    &&& r matches Some(publication) && publication@ == p
                    &&& final(self)@ == old(self)@.cloned_publication(p)
                },
                None => r is None && final(self)@ == old(self)@,
            },
            final(self)@.inv(),
    {
        match self.track(track.which().key).muted {
            Some(weak) => if self.is_alive(&weak) && self.publication(
                weak.which().key,
            ).events.muted.is_some() {
                Some(self.clone_on(weak.which()))
            } else {
                None
            },
            None => None,
        }
    }

    /// A track has been unmuted. If a live publication is to hear of it and has a callback, hands
    /// out a handle on that publication, with which the callback is to be called.
    pub fn track_unmuted(&mut self, track: &Track) -> (r: Option<TrackPublication>)
        requires
            old(self)@.inv(),
            old(self)@.track_alive(track@),
            old(self)@.due_unmuted(track@) matches Some(p) ==> old(
                self,
            )@.publications[p.key].handles < u64::MAX,
        ensures
            match old(self)@.due_unmuted(track@) {
                Some(p) => {
                    &&& r matches Some(publication) && publication@ == p
                    &&& final(self)@ == old(self)@.cloned_publication(p)
                },
                None => r is None && final(self)@ == old(self)@,
            },
            final(self)@.inv(),
    {
        match self.track(track.which().key).unmuted {
            Some(weak) => if self.is_alive(&weak) && self.publication(
                weak.which().key,
            ).events.unmuted.is_some() {
                Some(self.clone_on(weak.which()))
            } else {
                None
            },
            None => None,
        }
    }
}

} // verus!
