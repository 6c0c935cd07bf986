//! Properties of a track and of a publication.

use vstd::prelude::*;
use vstd::std_specs::convert::FromSpecImpl;

use crate::proto;

verus! {

/// How far the subscription to a remote publication has come.
#[derive(Debug, Clone, Copy, PartialEq, Eq, Structural)]
pub enum SubscriptionStatus {
    Desired,
    Subscribed,
    Unsubscribed,
}

/// Whether the local participant may subscribe to a remote publication.
#[derive(Debug, Clone, Copy, PartialEq, Eq, Structural)]
pub enum PermissionStatus {
    Allowed,
    NotAllowed,
}

/// The medium of a track.
#[derive(Debug, Clone, Copy, PartialEq, Eq, Structural)]
pub enum TrackKind {
    Audio,
    Video,
}

/// Where the media of a track comes from.
#[derive(Debug, Clone, Copy, PartialEq, Eq, Structural)]
pub enum TrackSource {
    Unknown,
    Camera,
    Microphone,
    Screenshare,
    ScreenshareAudio,
}

/// Width and height of a video track in pixels.
#[derive(Debug, Clone, Copy, PartialEq, Eq, Structural)]
pub struct TrackDimension(pub u32, pub u32);

/// How the media of a track is encrypted end to end.
#[derive(Debug, Clone, Copy, PartialEq, Eq, Structural)]
pub enum EncryptionType {
    Unencrypted,
    Gcm,
    Custom,
}

/// The medium of a track of type `track_type`; a data track has none.
pub open spec fn kind_of(track_type: proto::TrackType) -> Option<TrackKind> {
    match track_type {
        proto::TrackType::Audio => Some(TrackKind::Audio),
        proto::TrackType::Video => Some(TrackKind::Video),
        proto::TrackType::Data => None,
    }
}

impl TrackKind {
    /// The medium of a track of type `track_type`.
    pub fn try_from(track_type: proto::TrackType) -> (r: Result<TrackKind, proto::TrackType>)
        ensures
            match kind_of(track_type) {
                Some(kind) => r == Ok::<TrackKind, proto::TrackType>(kind),
                None => r == Err::<TrackKind, proto::TrackType>(track_type),
            },
    {
        match track_type {
            proto::TrackType::Audio => Ok(TrackKind::Audio),
            proto::TrackType::Video => Ok(TrackKind::Video),
            proto::TrackType::Data => Err(track_type),
        }
    }
}

/// The library's name of a source in the protocol.
pub open spec fn source_of(source: proto::TrackSource) -> TrackSource {
    match source {
        proto::TrackSource::Unknown => TrackSource::Unknown,
        proto::TrackSource::Camera => TrackSource::Camera,
        proto::TrackSource::Microphone => TrackSource::Microphone,
        proto::TrackSource::ScreenShare => TrackSource::Screenshare,
        proto::TrackSource::ScreenShareAudio => TrackSource::ScreenshareAudio,
    }
}

impl From<proto::TrackSource> for TrackSource {
    fn from(source: proto::TrackSource) -> (r: TrackSource) {
        match source {
            proto::TrackSource::Unknown => TrackSource::Unknown,
            proto::TrackSource::Camera => TrackSource::Camera,
            proto::TrackSource::Microphone => TrackSource::Microphone,
            proto::TrackSource::ScreenShare => TrackSource::Screenshare,
            proto::TrackSource::ScreenShareAudio => TrackSource::ScreenshareAudio,
        }
    }
}

impl FromSpecImpl<proto::TrackSource> for TrackSource {
    open spec fn obeys_from_spec() -> bool {
        true
    }

    open spec fn from_spec(source: proto::TrackSource) -> TrackSource {
        source_of(source)
    }
}

/// The library's name of an encryption in the protocol.
pub open spec fn encryption_of(encryption: proto::Encryption) -> EncryptionType {
    match encryption {
        proto::Encryption::Unencrypted => EncryptionType::Unencrypted,
        proto::Encryption::Gcm => EncryptionType::Gcm,
        proto::Encryption::Custom => EncryptionType::Custom,
    }
}

impl From<proto::Encryption> for EncryptionType {
    fn from(encryption: proto::Encryption) -> (r: EncryptionType) {
        match encryption {
            proto::Encryption::Unencrypted => EncryptionType::Unencrypted,
            proto::Encryption::Gcm => EncryptionType::Gcm,
            proto::Encryption::Custom => EncryptionType::Custom,
        }
    }
}

impl FromSpecImpl<proto::Encryption> for EncryptionType {
    open spec fn obeys_from_spec() -> bool {
        true
    }

    open spec fn from_spec(encryption: proto::Encryption) -> EncryptionType {
        encryption_of(encryption)
    }
}

} // verus!
