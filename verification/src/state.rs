//! The state that handles share, as a mathematical value, and what each operation makes of it.

use vstd::prelude::*;

use crate::handle::{PublicationRef, TrackRef};
use crate::id;
use crate::info::{PublicationEvents, PublicationInfoView};
use crate::proto::TrackInfoView;

verus! {

/// A live publication.
#[verifier::ext_equal]
pub struct PublicationState<H> {
    pub remote: bool,
    /// Number of strong handles. Nothing but a handle keeps a publication alive.
    pub handles: nat,
    pub info: PublicationInfoView,
    pub events: PublicationEvents<H>,
}

/// A live track.
#[verifier::ext_equal]
pub struct TrackState<H> {
    pub remote: bool,
    pub sid: Seq<char>,
    /// Number of strong handles outside of publications.
    pub handles: nat,
    /// Number of publications that have the track.
    pub holders: nat,
    /// The publication that hears of a mute, known weakly.
    pub muted: Option<PublicationRef>,
    /// The publication that hears of an unmute, known weakly.
    pub unmuted: Option<PublicationRef>,
    /// The callbacks of that publication, once it has been released. What the track calls on a
    /// mute holds them, so they are given up only with it, though they are not called any more.
    pub kept: Option<PublicationEvents<H>>,
}

/// Everything that handles share.
#[verifier::ext_equal]
pub struct RegistryState<H> {
    /// What tells this registry from others.
    pub home: u64,
    pub publications: Map<u64, PublicationState<H>>,
    pub tracks: Map<u64, TrackState<H>>,
    /// The key that is given next; larger than all keys in use, now or before.
    pub next: u64,
}

impl<H> PublicationState<H> {
    /// Whether the publication has the track with the key `track`.
    pub open spec fn has_track(self, track: u64) -> bool {
        self.info.track is Some && self.info.track->0.key == track
    }
}

/// The publications that have the track with the key `track`.
pub open spec fn holding<H>(publications: Map<u64, PublicationState<H>>, track: u64) -> Set<u64> {
    publications.dom().filter(|p: u64| publications[p].has_track(track))
}

impl<H> RegistryState<H> {
    /// No publications, no tracks.
    pub open spec fn empty(home: u64) -> Self {
        RegistryState { home, publications: Map::empty(), tracks: Map::empty(), next: 0 }
    }

    /// Whether the publication is alive.
    pub open spec fn alive(self, p: PublicationRef) -> bool {
        &&& p.home == self.home
        &&& self.publications.contains_key(p.key)
        &&& self.publications[p.key].remote == p.remote
    }

    /// Whether the track is alive.
    pub open spec fn track_alive(self, t: TrackRef) -> bool {
        &&& t.home == self.home
        &&& self.tracks.contains_key(t.key)
        &&& self.tracks[t.key].remote == t.remote
    }

    /// Whether there is a strong handle on the track outside of publications.
    pub open spec fn track_held(self, t: TrackRef) -> bool {
        self.track_alive(t) && self.tracks[t.key].handles >= 1
    }

    /// What holds of a single publication.
    pub open spec fn publication_inv(self, key: u64) -> bool {
        let p = self.publications[key];
        &&& key < self.next
        &&& !self.tracks.contains_key(key)
        &&& p.handles >= 1
        &&& id::valid_track_sid(p.info.sid)
        &&& p.info.track is Some ==> self.track_alive(p.info.track->0)
        &&& p.info.track is Some && p.remote ==> p.info.track->0.remote
    }

    /// What holds of a single track.
    pub open spec fn track_inv(self, key: u64) -> bool {
        let t = self.tracks[key];
        &&& key < self.next
        &&& t.handles + t.holders >= 1
        &&& t.holders == holding(self.publications, key).len()
        &&& id::valid_track_sid(t.sid)
        &&& t.muted == t.unmuted
        &&& t.muted is Some ==> t.muted->0.home == self.home && t.muted->0.key < self.next
        &&& t.muted is Some && self.alive(t.muted->0) ==> self.publications[t.muted->0.key].has_track(
            key,
        )
        &&& t.kept is Some <==> t.muted is Some && !self.alive(t.muted->0)
    }

    /// What holds at all times: no two things have the same key, nothing is alive without a holder,
    /// what a publication has is alive, a track counts the publications that have it, a track tells
    /// of a mute only a publication that has it, and it keeps the callbacks of that publication
    /// exactly when the latter has been released.
    pub open spec fn inv(self) -> bool {
        &&& self.publications.dom().finite()
        &&& forall|key: u64| #[trigger]
            self.publications.contains_key(key) ==> self.publication_inv(key)
        &&& forall|key: u64| #[trigger] self.tracks.contains_key(key) ==> self.track_inv(key)
    }

    /// The publication `weak` is on, while it is alive.
    pub open spec fn upgraded(self, weak: PublicationRef) -> Option<PublicationRef> {
        if self.alive(weak) {
            Some(weak)
        } else {
            None
        }
    }

    /// The publication whose callback is due when the track is muted.
    pub open spec fn due_muted(self, t: TrackRef) -> Option<PublicationRef> {
        match self.tracks[t.key].muted {
            Some(p) => if self.alive(p) && self.publications[p.key].events.muted is Some {
                Some(p)
            } else {
                None
            },
            None => None,
        }
    }

    /// The publication whose callback is due when the track is unmuted.
    pub open spec fn due_unmuted(self, t: TrackRef) -> Option<PublicationRef> {
        match self.tracks[t.key].unmuted {
            Some(p) => if self.alive(p) && self.publications[p.key].events.unmuted is Some {
                Some(p)
            } else {
                None
            },
            None => None,
        }
    }

    /// `p` under the key `key`, and everything else as it is.
    pub open spec fn with_publication(self, key: u64, p: PublicationState<H>) -> Self {
        RegistryState { publications: self.publications.insert(key, p), ..self }
    }

    /// `t` under the key `key`, and everything else as it is.
    pub open spec fn with_track(self, key: u64, t: TrackState<H>) -> Self {
        RegistryState { tracks: self.tracks.insert(key, t), ..self }
    }

    /// A new track, with one handle on it and nobody to tell of a mute.
    pub open spec fn added_track(self, remote: bool, sid: Seq<char>) -> Self {
        RegistryState {
            next: (self.next + 1) as u64,
            ..self.with_track(
                self.next,
                TrackState {
                    remote,
                    sid,
                    handles: 1,
                    holders: 0,
                    muted: None,
                    unmuted: None,
                    kept: None,
                },
            )
        }
    }

    /// One more handle on the track.
    pub open spec fn cloned_track(self, t: TrackRef) -> Self {
        let track = self.tracks[t.key];
        self.with_track(t.key, TrackState { handles: track.handles + 1, ..track })
    }

    /// One handle less on the track, which is gone with the last of its handles and holders.
    pub open spec fn dropped_track(self, t: TrackRef) -> Self {
        let track = self.tracks[t.key];
        if track.handles + track.holders == 1 {
            RegistryState { tracks: self.tracks.remove(t.key), ..self }
        } else {
            self.with_track(t.key, TrackState { handles: (track.handles - 1) as nat, ..track })
        }
    }

    /// One publication less that has the track, which is gone with the last of its handles and
    /// holders.
    pub open spec fn released_track(self, t: TrackRef) -> Self {
        let track = self.tracks[t.key];
        if track.handles + track.holders == 1 {
            RegistryState { tracks: self.tracks.remove(t.key), ..self }
        } else {
            self.with_track(t.key, TrackState { holders: (track.holders - 1) as nat, ..track })
        }
    }

    /// The track tells nobody of a mute.
    pub open spec fn silenced_track(self, t: TrackRef) -> Self {
        let track = self.tracks[t.key];
        self.with_track(t.key, TrackState { muted: None, unmuted: None, kept: None, ..track })
    }

    /// The track keeps the callbacks of the publication, if that is the one it tells of a mute.
    pub open spec fn keeping_callbacks(
        self,
        t: TrackRef,
        p: PublicationRef,
        events: PublicationEvents<H>,
    ) -> Self {
        let track = self.tracks[t.key];
        if track.muted == Some(p) {
            self.with_track(t.key, TrackState { kept: Some(events), ..track })
        } else {
            self
        }
    }

    /// A handle on the track goes over to the publication, which the track then tells of a mute.
    pub open spec fn handed_track(self, t: TrackRef, p: PublicationRef) -> Self {
        let track = self.tracks[t.key];
        self.with_track(
            t.key,
            TrackState {
                handles: (track.handles - 1) as nat,
                holders: track.holders + 1,
                muted: Some(p),
                unmuted: Some(p),
                kept: None,
                ..track
            },
        )
    }

    /// The publication has the track, or none; its identifier is that of the track.
    pub open spec fn with_publication_track(self, p: PublicationRef, track: Option<TrackRef>) -> Self {
        let publication = self.publications[p.key];
        let sid = match track {
            Some(t) => self.tracks[t.key].sid,
            None => publication.info.sid,
        };
        self.with_publication(
            p.key,
            PublicationState {
                info: PublicationInfoView { track, sid, ..publication.info },
                ..publication
            },
        )
    }

    /// The publication gives up the track it has and takes over the handle on `track`, if any.
    /// The one it had tells nobody of a mute any more, the new one tells the publication.
    pub open spec fn set_track(self, p: PublicationRef, track: Option<TrackRef>) -> Self {
        let previous = self.publications[p.key].info.track;
        let silenced = match previous {
            Some(t) => self.silenced_track(t),
            None => self,
        };
        let published = silenced.with_publication_track(p, track);
        let handed = match track {
            Some(t) => published.handed_track(t, p),
            None => published,
        };
        match previous {
            Some(t) => handed.released_track(t),
            None => handed,
        }
    }

    /// A new publication, with one handle on it. It takes over the handle on its track.
    pub open spec fn added_publication(self, remote: bool, info: PublicationInfoView) -> Self {
        let held = match info.track {
            Some(t) => {
                let track = self.tracks[t.key];
                self.with_track(
                    t.key,
                    TrackState {
                        handles: (track.handles - 1) as nat,
                        holders: track.holders + 1,
                        ..track
                    },
                )
            },
            None => self,
        };
        RegistryState {
            next: (self.next + 1) as u64,
            ..held.with_publication(
                self.next,
                PublicationState {
                    remote,
                    handles: 1,
                    info,
                    events: PublicationEvents { muted: None, unmuted: None },
                },
            )
        }
    }

    /// One more handle on the publication.
    pub open spec fn cloned_publication(self, p: PublicationRef) -> Self {
        let publication = self.publications[p.key];
        self.with_publication(
            p.key,
            PublicationState { handles: publication.handles + 1, ..publication },
        )
    }

    /// One handle less on the publication, which is gone with the last one and then gives up its
    /// track. A track that lives on and would have told it of a mute keeps its callbacks.
    pub open spec fn dropped_publication(self, p: PublicationRef) -> Self {
        let publication = self.publications[p.key];
        if publication.handles == 1 {
            let without = RegistryState { publications: self.publications.remove(p.key), ..self };
            match publication.info.track {
                Some(t) => without.keeping_callbacks(t, p, publication.events).released_track(t),
                None => without,
            }
        } else {
            self.with_publication(
                p.key,
                PublicationState { handles: (publication.handles - 1) as nat, ..publication },
            )
        }
    }

    /// The publication is described anew.
    pub open spec fn updated_info(self, p: PublicationRef, info: TrackInfoView) -> Self {
        let publication = self.publications[p.key];
        self.with_publication(
            p.key,
            PublicationState { info: publication.info.redescribed(info), ..publication },
        )
    }

    /// The publication calls `handler` when its track is muted.
    pub open spec fn with_muted_handler(self, p: PublicationRef, handler: H) -> Self {
        let publication = self.publications[p.key];
        let events = PublicationEvents { muted: Some(handler), ..publication.events };
        self.with_publication(p.key, PublicationState { events, ..publication })
    }

    /// The publication calls `handler` when its track is unmuted.
    pub open spec fn with_unmuted_handler(self, p: PublicationRef, handler: H) -> Self {
        let publication = self.publications[p.key];
        let events = PublicationEvents { unmuted: Some(handler), ..publication.events };
        self.with_publication(p.key, PublicationState { events, ..publication })
    }
}

} // verus!
