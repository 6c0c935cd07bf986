//! Handles on tracks and publications.
//!
//! What a track or a publication consists of is shared by all handles on it and is kept in a
//! [`Registry`](crate::registry::Registry). A strong handle keeps it alive until it is given back
//! to the registry; a weak one does not.
//!
//! A handle carries the home of the registry that has given it out, and no registry of another home
//! accepts it. Within a registry a key is never given twice.

use vstd::prelude::*;

verus! {

/// Which track a handle is on.
#[derive(Debug, Clone, Copy, PartialEq, Eq, Structural)]
pub struct TrackRef {
    /// The registry that the track is in.
    pub home: u64,
    pub remote: bool,
    pub key: u64,
}

/// Which publication a handle is on.
#[derive(Debug, Clone, Copy, PartialEq, Eq, Structural)]
pub struct PublicationRef {
    /// The registry that the publication is in.
    pub home: u64,
    pub remote: bool,
    pub key: u64,
}

/// Strong handle on a track of the local participant.
#[derive(Debug)]
pub struct LocalTrack {
    home: u64,
    key: u64,
}

/// Strong handle on a track of a remote participant.
#[derive(Debug)]
pub struct RemoteTrack {
    home: u64,
    key: u64,
}

/// Strong handle on a track.
#[derive(Debug)]
pub enum Track {
    Local(LocalTrack),
    Remote(RemoteTrack),
}

impl LocalTrack {
    /// The registry that the handle is of.
    pub closed spec fn home(self) -> u64 {
        self.home
    }

    /// The key in the handle.
    pub closed spec fn key(self) -> u64 {
        self.key
    }
}

impl View for LocalTrack {
    type V = TrackRef;

    open spec fn view(&self) -> TrackRef {
        TrackRef { home: self.home(), remote: false, key: self.key() }
    }
}

impl RemoteTrack {
    /// The registry that the handle is of.
    pub closed spec fn home(self) -> u64 {
        self.home
    }

    /// The key in the handle.
    pub closed spec fn key(self) -> u64 {
        self.key
    }
}

impl View for RemoteTrack {
    type V = TrackRef;

    open spec fn view(&self) -> TrackRef {
        TrackRef { home: self.home(), remote: true, key: self.key() }
    }
}

impl View for Track {
    type V = TrackRef;

    open spec fn view(&self) -> TrackRef {
        match self {
            Track::Local(track) => track@,
            Track::Remote(track) => track@,
        }
    }
}

impl RemoteTrack {
    /// Takes a handle on a remote track as such, or hands it back if it is on a local one.
    pub fn try_from(track: Track) -> (r: Result<RemoteTrack, Track>)
        ensures
            r is Ok <==> track@.remote,
            r matches Ok(remote) ==> remote@ == track@,
            r matches Err(back) ==> back == track,
    {
        match track {
            Track::Local(local) => Err(Track::Local(local)),
            Track::Remote(remote) => Ok(remote),
        }
    }

    /// This handle as one that may be on any track.
    pub fn into_track(self) -> (r: Track)
        ensures
            r@ == self@,
    {
        Track::Remote(self)
    }
}

impl Track {
    /// A new strong handle on the track `which`.
    pub(crate) fn on(which: TrackRef) -> (r: Track)
        ensures
            r@ == which,
    {
        if which.remote {
            Track::Remote(RemoteTrack { home: which.home, key: which.key })
        } else {
            Track::Local(LocalTrack { home: which.home, key: which.key })
        }
    }

    /// Which track this handle is on.
    pub fn which(&self) -> (r: TrackRef)
        ensures
            r == self@,
    {
        match self {
            Track::Local(track) => TrackRef { home: track.home, remote: false, key: track.key },
            Track::Remote(track) => TrackRef { home: track.home, remote: true, key: track.key },
        }
    }
}

/// Strong handle on a publication of the local participant.
#[derive(Debug)]
pub struct LocalTrackPublication {
    home: u64,
    key: u64,
}

/// Strong handle on a publication of a remote participant.
#[derive(Debug)]
pub struct RemoteTrackPublication {
    home: u64,
    key: u64,
}

/// Strong handle on a publication.
#[derive(Debug)]
pub enum TrackPublication {
    Local(LocalTrackPublication),
    Remote(RemoteTrackPublication),
}

/// Weak counterpart of [`LocalTrackPublication`].
#[derive(Debug, Clone, Copy)]
pub struct WeakLocalTrackPublication {
    home: u64,
    key: u64,
}

/// Weak counterpart of [`RemoteTrackPublication`].
#[derive(Debug, Clone, Copy)]
pub struct WeakRemoteTrackPublication {
    home: u64,
    key: u64,
}

/// Weak counterpart of [`TrackPublication`], for the callbacks that a publication leaves with its
/// own track: a strong handle there would close a ring publication, track, callback, publication,
/// and none of the three would ever be released.
#[derive(Debug, Clone, Copy)]
pub enum WeakTrackPublication {
    Local(WeakLocalTrackPublication),
    Remote(WeakRemoteTrackPublication),
}

impl LocalTrackPublication {
    /// The registry that the handle is of.
    pub closed spec fn home(self) -> u64 {
        self.home
    }

    /// The key in the handle.
    pub closed spec fn key(self) -> u64 {
        self.key
    }
}

impl View for LocalTrackPublication {
    type V = PublicationRef;

    open spec fn view(&self) -> PublicationRef {
        PublicationRef { home: self.home(), remote: false, key: self.key() }
    }
}

impl RemoteTrackPublication {
    /// The registry that the handle is of.
    pub closed spec fn home(self) -> u64 {
        self.home
    }

    /// The key in the handle.
    pub closed spec fn key(self) -> u64 {
        self.key
    }
}

impl View for RemoteTrackPublication {
    type V = PublicationRef;

    open spec fn view(&self) -> PublicationRef {
        PublicationRef { home: self.home(), remote: true, key: self.key() }
    }
}

impl View for TrackPublication {
    type V = PublicationRef;

    open spec fn view(&self) -> PublicationRef {
        match self {
            TrackPublication::Local(publication) => publication@,
            TrackPublication::Remote(publication) => publication@,
        }
    }
}

impl WeakLocalTrackPublication {
    /// The registry that the handle is of.
    pub closed spec fn home(self) -> u64 {
        self.home
    }

    /// The key in the handle.
    pub closed spec fn key(self) -> u64 {
        self.key
    }
}

impl View for WeakLocalTrackPublication {
    type V = PublicationRef;

    open spec fn view(&self) -> PublicationRef {
        PublicationRef { home: self.home(), remote: false, key: self.key() }
    }
}

impl WeakRemoteTrackPublication {
    /// The registry that the handle is of.
    pub closed spec fn home(self) -> u64 {
        self.home
    }

    /// The key in the handle.
    pub closed spec fn key(self) -> u64 {
        self.key
    }
}

impl View for WeakRemoteTrackPublication {
    type V = PublicationRef;

    open spec fn view(&self) -> PublicationRef {
        PublicationRef { home: self.home(), remote: true, key: self.key() }
    }
}

impl View for WeakTrackPublication {
    type V = PublicationRef;

    open spec fn view(&self) -> PublicationRef {
        match self {
            WeakTrackPublication::Local(weak) => weak@,
            WeakTrackPublication::Remote(weak) => weak@,
        }
    }
}

impl LocalTrackPublication {
    /// A weak handle on the same publication.
    pub fn downgrade(&self) -> (r: WeakLocalTrackPublication)
        ensures
            r@ == self@,
    {
        WeakLocalTrackPublication { home: self.home, key: self.key }
    }
}

impl RemoteTrackPublication {
    /// A weak handle on the same publication.
    pub fn downgrade(&self) -> (r: WeakRemoteTrackPublication)
        ensures
            r@ == self@,
    {
        WeakRemoteTrackPublication { home: self.home, key: self.key }
    }
}

impl TrackPublication {
    /// A new strong handle on the publication `which`.
    pub(crate) fn on(which: PublicationRef) -> (r: TrackPublication)
        ensures
            r@ == which,
    {
        if which.remote {
            TrackPublication::Remote(RemoteTrackPublication { home: which.home, key: which.key })
        } else {
            TrackPublication::Local(LocalTrackPublication { home: which.home, key: which.key })
        }
    }

    /// Which publication this handle is on.
    pub fn which(&self) -> (r: PublicationRef)
        ensures
            r == self@,
    {
        match self {
            TrackPublication::Local(p) => PublicationRef { home: p.home, remote: false, key: p.key },
            TrackPublication::Remote(p) => PublicationRef { home: p.home, remote: true, key: p.key },
        }
    }

    /// A weak handle on the same publication.
    pub fn downgrade(&self) -> (r: WeakTrackPublication)
        ensures
            r@ == self@,
    {
        match self {
            TrackPublication::Local(p) => WeakTrackPublication::Local(p.downgrade()),
            TrackPublication::Remote(p) => WeakTrackPublication::Remote(p.downgrade()),
        }
    }
}

impl WeakTrackPublication {
    /// A weak handle on the publication `which`.
    pub(crate) fn on(which: PublicationRef) -> (r: WeakTrackPublication)
        ensures
            r@ == which,
    {
        if which.remote {
            WeakTrackPublication::Remote(WeakRemoteTrackPublication { home: which.home, key: which.key })
        } else {
            WeakTrackPublication::Local(WeakLocalTrackPublication { home: which.home, key: which.key })
        }
    }

    /// Which publication this handle is on.
    pub fn which(&self) -> (r: PublicationRef)
        ensures
            r == self@,
    {
        match self {
            WeakTrackPublication::Local(p) => PublicationRef { home: p.home, remote: false, key: p.key },
            WeakTrackPublication::Remote(p) => PublicationRef { home: p.home, remote: true, key: p.key },
        }
    }
}

} // verus!
