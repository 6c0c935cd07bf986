//! Publications.

use vstd::prelude::*;

use crate::handle::{
    LocalTrackPublication, RemoteTrack, RemoteTrackPublication, Track, TrackPublication, TrackRef,
    WeakTrackPublication,
};
use crate::id::TrackSid;
use crate::info;
use crate::media::{EncryptionType, TrackDimension, TrackKind, TrackSource};
use crate::proto::{AudioTrackFeature, PacketTrailerFeature, TrackInfo};
use crate::registry::Registry;

verus! {

/// Which track an optional handle on a remote track is on.
pub open spec fn remote_track_view(track: Option<RemoteTrack>) -> Option<TrackRef> {
    match track {
        Some(track) => Some(track@),
        None => None,
    }
}

impl LocalTrackPublication {
    /// Gives the publication the track `track`, or none.
    pub fn set_track<H>(&self, registry: &mut Registry<H>, track: Option<Track>)
        requires
            old(registry)@.inv(),
            old(registry)@.alive(self@),
            track matches Some(t) ==> old(registry)@.track_held(t@),
        ensures
            final(registry)@ == old(registry)@.set_track(self@, info::track_view(track)),
            final(registry)@.inv(),
    {
        registry.set_track(WeakTrackPublication::Local(self.downgrade()).which(), track)
    }

    /// A new handle on the track that the publication has.
    pub fn track<H>(&self, registry: &mut Registry<H>) -> (r: Option<Track>)
        requires
            old(registry)@.inv(),
            old(registry)@.alive(self@),
            old(registry)@.publications[self@.key].info.track matches Some(t) ==> old(
                registry,
            )@.tracks[t.key].handles < u64::MAX,
        ensures
            info::track_view(r) == old(registry)@.publications[self@.key].info.track,
            final(registry)@ == (match old(registry)@.publications[self@.key].info.track {
                Some(t) => old(registry)@.cloned_track(t),
                None => old(registry)@,
            }),
            final(registry)@.inv(),
    {
        registry.clone_track_of(WeakTrackPublication::Local(self.downgrade()).which())
    }
}

impl RemoteTrackPublication {
    /// Gives the publication the track `track`, or none.
    pub fn set_track<H>(&self, registry: &mut Registry<H>, track: Option<RemoteTrack>)
        requires
            old(registry)@.inv(),
            old(registry)@.alive(self@),
            track matches Some(t) ==> old(registry)@.track_held(t@),
        ensures
            final(registry)@ == old(registry)@.set_track(self@, remote_track_view(track)),
            final(registry)@.inv(),
    {
        let track = match track {
            Some(t) => Some(t.into_track()),
            None => None,
        };
        registry.set_track(WeakTrackPublication::Remote(self.downgrade()).which(), track)
    }

    /// A new handle on the track that the publication has.
    pub fn track<H>(&self, registry: &mut Registry<H>) -> (r: Option<RemoteTrack>)
        requires
            old(registry)@.inv(),
            old(registry)@.alive(self@),
            old(registry)@.publications[self@.key].info.track matches Some(t) ==> old(
                registry,
            )@.tracks[t.key].handles < u64::MAX,
        ensures
            remote_track_view(r) == old(registry)@.publications[self@.key].info.track,
            final(registry)@ == (match old(registry)@.publications[self@.key].info.track {
                Some(t) => old(registry)@.cloned_track(t),
                None => old(registry)@,
            }),
            final(registry)@.inv(),
    {
        assert(registry@.publication_inv(self@.key));
        match registry.clone_track_of(WeakTrackPublication::Remote(self.downgrade()).which()) {
            Some(t) => Some(RemoteTrack::try_from(t).unwrap()),
            None => None,
        }
    }
}

impl WeakTrackPublication {
    /// A strong handle on the publication, while that is alive.
    pub fn upgrade<H>(&self, registry: &mut Registry<H>) -> (r: Option<TrackPublication>)
        requires
            old(registry)@.inv(),
            old(registry)@.alive(self@) ==> old(registry)@.publications[self@.key].handles
                < u64::MAX,
        ensures
            match old(registry)@.upgraded(self@) {
                Some(p) => {
                    &&& r matches Some(publication) && publication@ == p
                    &&& final(registry)@ == old(registry)@.cloned_publication(p)
                },
                None => r is None && final(registry)@ == old(registry)@,
            },
            final(registry)@.inv(),
    {
        if registry.is_alive(self) {
            Some(registry.clone_on(self.which()))
        } else {
            None
        }
    }
}

impl TrackPublication {
    /// Gives the publication the track `track`, or none. A remote publication has only remote
    /// tracks.
    pub fn set_track<H>(&self, registry: &mut Registry<H>, track: Option<Track>)
        requires
            old(registry)@.inv(),
            old(registry)@.alive(self@),
            track matches Some(t) ==> old(registry)@.track_held(t@) && (self is Remote
                ==> t@.remote),
        ensures
            final(registry)@ == old(registry)@.set_track(self@, info::track_view(track)),
            final(registry)@.inv(),
    {
        match self {
            TrackPublication::Local(p) => p.set_track(registry, track),
            TrackPublication::Remote(p) => {
                let track = match track {
                    Some(t) => Some(RemoteTrack::try_from(t).unwrap()),
                    None => None,
                };
                p.set_track(registry, track)
            },
        }
    }

    /// A new handle on the track that the publication has.
    pub fn track<H>(&self, registry: &mut Registry<H>) -> (r: Option<Track>)
        requires
            old(registry)@.inv(),
            old(registry)@.alive(self@),
            old(registry)@.publications[self@.key].info.track matches Some(t) ==> old(
                registry,
            )@.tracks[t.key].handles < u64::MAX,
        ensures
            info::track_view(r) == old(registry)@.publications[self@.key].info.track,
            final(registry)@ == (match old(registry)@.publications[self@.key].info.track {
                Some(t) => old(registry)@.cloned_track(t),
                None => old(registry)@,
            }),
            final(registry)@.inv(),
    {
        match self {
            TrackPublication::Local(p) => p.track(registry),
            TrackPublication::Remote(p) => match p.track(registry) {
                Some(t) => Some(t.into_track()),
                None => None,
            },
        }
    }

    /// Whether the number of handles on the publication's track, if it has one, leaves room for
    /// one more.
    pub fn may_clone_track<H>(&self, registry: &Registry<H>) -> (r: bool)
        requires
            registry@.inv(),
            registry@.alive(self@),
        ensures
            r <==> (registry@.publications[self@.key].info.track matches Some(t)
                ==> registry@.tracks[t.key].handles < u64::MAX),
    {
        registry.may_clone_track_of(self.which())
    }

    /// The identifier of the publication.
    pub fn sid<H>(&self, registry: &Registry<H>) -> (r: TrackSid)
        requires
            registry@.alive(self@),
        ensures
            r@ == registry@.publications[self@.key].info.sid,
    {
        registry.info(self.which()).sid.clone()
    }

    /// The name of the publication.
    pub fn name<H>(&self, registry: &Registry<H>) -> (r: String)
        requires
            registry@.alive(self@),
        ensures
            r@ == registry@.publications[self@.key].info.name,
    {
        registry.info(self.which()).name.clone()
    }

    /// The medium of the publication.
    pub fn kind<H>(&self, registry: &Registry<H>) -> (r: TrackKind)
        requires
            registry@.alive(self@),
        ensures
            r == registry@.publications[self@.key].info.kind,
    {
        registry.info(self.which()).kind
    }

    /// Where the media comes from.
    pub fn source<H>(&self, registry: &Registry<H>) -> (r: TrackSource)
        requires
            registry@.alive(self@),
        ensures
            r == registry@.publications[self@.key].info.source,
    {
        registry.info(self.which()).source
    }

    /// Whether the media is published in several layers.
    pub fn simulcasted<H>(&self, registry: &Registry<H>) -> (r: bool)
        requires
            registry@.alive(self@),
        ensures
            r == registry@.publications[self@.key].info.simulcasted,
    {
        registry.info(self.which()).simulcasted
    }

    /// Size of the video.
    pub fn dimension<H>(&self, registry: &Registry<H>) -> (r: TrackDimension)
        requires
            registry@.alive(self@),
        ensures
            r == registry@.publications[self@.key].info.dimension,
    {
        registry.info(self.which()).dimension
    }

    /// The codec of the media.
    pub fn mime_type<H>(&self, registry: &Registry<H>) -> (r: String)
        requires
            registry@.alive(self@),
        ensures
            r@ == registry@.publications[self@.key].info.mime_type,
    {
        registry.info(self.which()).mime_type.clone()
    }

    /// Whether the publication is muted.
    pub fn is_muted<H>(&self, registry: &Registry<H>) -> (r: bool)
        requires
            registry@.alive(self@),
        ensures
            r == registry@.publications[self@.key].info.muted,
    {
        registry.info(self.which()).muted
    }

    /// Whether the publication is of a remote participant.
    pub fn is_remote(&self) -> (r: bool)
        ensures
            r == self@.remote,
            r <==> self is Remote,
    {
        match self {
            TrackPublication::Local(_) => false,
            TrackPublication::Remote(_) => true,
        }
    }

    /// How the media is encrypted end to end.
    pub fn encryption_type<H>(&self, registry: &Registry<H>) -> (r: EncryptionType)
        requires
            registry@.alive(self@),
        ensures
            r == registry@.publications[self@.key].info.encryption_type,
    {
        registry.info(self.which()).encryption_type
    }

    /// The audio features of the publication.
    pub fn audio_features<H>(&self, registry: &Registry<H>) -> (r: Vec<AudioTrackFeature>)
        requires
            registry@.alive(self@),
        ensures
            r@ == registry@.publications[self@.key].info.audio_features,
    {
        let features = registry.info(self.which()).audio_features.clone();
        assert(features@ =~= registry@.publications[self@.key].info.audio_features);
        features
    }

    /// What is appended to the packets of the publication.
    pub fn packet_trailer_features<H>(&self, registry: &Registry<H>) -> (r: Vec<PacketTrailerFeature>)
        requires
            registry@.alive(self@),
        ensures
            r@ == registry@.publications[self@.key].info.packet_trailer_features,
    {
        let features = registry.info(self.which()).packet_trailer_features.clone();
        assert(features@ =~= registry@.publications[self@.key].info.packet_trailer_features);
        features
    }

    /// The latest description of the publication by the server.
    pub fn proto_info<H>(&self, registry: &Registry<H>) -> (r: TrackInfo)
        requires
            registry@.alive(self@),
        ensures
            r@ == registry@.publications[self@.key].info.proto_info,
    {
        registry.info(self.which()).proto_info.clone()
    }

    /// Takes over a new description of the publication.
    pub fn update_info<H>(&self, registry: &mut Registry<H>, info: TrackInfo)
        requires
            old(registry)@.inv(),
            old(registry)@.alive(self@),
            info@.publishable(),
        ensures
            final(registry)@ == old(registry)@.updated_info(self@, info@),
            final(registry)@.inv(),
    {
        registry.update_info(self.which(), info)
    }

    /// Leaves `on_mute` with the publication to be called when its track is muted, in the place
    /// of what was left before.
    pub fn on_muted<H>(&self, registry: &mut Registry<H>, on_mute: H)
        requires
            old(registry)@.inv(),
            old(registry)@.alive(self@),
        ensures
            final(registry)@ == old(registry)@.with_muted_handler(self@, on_mute),
            final(registry)@.inv(),
    {
        registry.on_muted(self.which(), on_mute)
    }

    /// Leaves `on_unmute` with the publication to be called when its track is unmuted, in the
    /// place of what was left before.
    pub fn on_unmuted<H>(&self, registry: &mut Registry<H>, on_unmute: H)
        requires
            old(registry)@.inv(),
            old(registry)@.alive(self@),
        ensures
            final(registry)@ == old(registry)@.with_unmuted_handler(self@, on_unmute),
            final(registry)@.inv(),
    {
        registry.on_unmuted(self.which(), on_unmute)
    }

    /// What is to be called when the publication's track is muted.
    pub fn muted_handler<'a, H>(&self, registry: &'a Registry<H>) -> (r: Option<&'a H>)
        requires
            registry@.alive(self@),
        ensures
            r == (match registry@.publications[self@.key].events.muted {
                Some(handler) => Some(&handler),
                None => None,
            }),
    {
        registry.muted_handler(self.which())
    }

    /// What is to be called when the publication's track is unmuted.
    pub fn unmuted_handler<'a, H>(&self, registry: &'a Registry<H>) -> (r: Option<&'a H>)
        requires
            registry@.alive(self@),
        ensures
            r == (match registry@.publications[self@.key].events.unmuted {
                Some(handler) => Some(&handler),
                None => None,
            }),
    {
        registry.unmuted_handler(self.which())
    }
}

} // verus!
