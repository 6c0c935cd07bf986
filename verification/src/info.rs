//! What is known of a publication.

use vstd::prelude::*;

use crate::handle::{Track, TrackRef};
use crate::id::TrackSid;
use crate::media;
use crate::media::{EncryptionType, TrackDimension, TrackKind, TrackSource};
use crate::proto;
use crate::proto::{AudioTrackFeature, PacketTrailerFeature, TrackInfo, TrackInfoView};

verus! {

/// What is known of a publication: its track while it has one, and what the server said of it.
pub struct PublicationInfo {
    pub track: Option<Track>,
    pub name: String,
    pub sid: TrackSid,
    pub kind: TrackKind,
    pub source: TrackSource,
    pub simulcasted: bool,
    pub dimension: TrackDimension,
    pub mime_type: String,
    pub muted: bool,
    pub proto_info: TrackInfo,
    pub encryption_type: EncryptionType,
    pub audio_features: Vec<AudioTrackFeature>,
    pub packet_trailer_features: Vec<PacketTrailerFeature>,
}

/// What a [`PublicationInfo`] says.
#[verifier::ext_equal]
pub struct PublicationInfoView {
    pub track: Option<TrackRef>,
    pub name: Seq<char>,
    pub sid: Seq<char>,
    pub kind: TrackKind,
    pub source: TrackSource,
    pub simulcasted: bool,
    pub dimension: TrackDimension,
    pub mime_type: Seq<char>,
    pub muted: bool,
    pub proto_info: TrackInfoView,
    pub encryption_type: EncryptionType,
    pub audio_features: Seq<AudioTrackFeature>,
    pub packet_trailer_features: Seq<PacketTrailerFeature>,
}

/// The callbacks of a publication: what is to be called when its track is muted or unmuted.
pub struct PublicationEvents<H> {
    pub muted: Option<H>,
    pub unmuted: Option<H>,
}

/// Which track an optional handle is on.
pub open spec fn track_view(track: Option<Track>) -> Option<TrackRef> {
    match track {
        Some(track) => Some(track@),
        None => None,
    }
}

impl View for PublicationInfo {
    type V = PublicationInfoView;

    open spec fn view(&self) -> PublicationInfoView {
        PublicationInfoView {
            track: track_view(self.track),
            name: self.name@,
            sid: self.sid@,
            kind: self.kind,
            source: self.source,
            simulcasted: self.simulcasted,
            dimension: self.dimension,
            mime_type: self.mime_type@,
            muted: self.muted,
            proto_info: self.proto_info@,
            encryption_type: self.encryption_type,
            audio_features: self.audio_features@,
            packet_trailer_features: self.packet_trailer_features@,
        }
    }
}

impl TrackInfoView {
    /// Whether the description is of a simulcasted track. Some codec of it has several layers, or
    /// an older server has said so in one of the two deprecated fields.
    pub open spec fn simulcasted(self) -> bool {
        ||| self.simulcast
        ||| self.layers.len() > 1
        ||| exists|i: int| 0 <= i < self.codecs.len() && (#[trigger] self.codecs[i]).layers.len() > 1
    }
}

impl PublicationInfoView {
    /// What is known of a publication that the server describes by `info`.
    pub open spec fn described(info: TrackInfoView, track: Option<TrackRef>) -> Self
        recommends
            info.publishable(),
    {
        PublicationInfoView {
            track,
            name: info.name,
            sid: info.sid,
            kind: media::kind_of(info.decoded_type())->0,
            source: media::source_of(info.decoded_source()),
            simulcasted: info.simulcasted(),
            dimension: TrackDimension(info.width, info.height),
            mime_type: info.mime_type,
            muted: info.muted,
            proto_info: info,
            encryption_type: media::encryption_of(info.decoded_encryption()),
            audio_features: proto::known_audio_features(info.audio_features),
            packet_trailer_features: proto::known_packet_trailer_features(
                info.packet_trailer_features,
            ),
        }
    }

    /// What is known after the server has described the publication anew: everything that the
    /// description holds but whether it is muted.
    pub open spec fn redescribed(self, info: TrackInfoView) -> Self
        recommends
            info.publishable(),
    {
        PublicationInfoView { muted: self.muted, ..Self::described(info, self.track) }
    }
}

/// Returns whether a `TrackInfo` represents a simulcasted publication.
///
/// `TrackInfo.simulcast` and `TrackInfo.layers` are deprecated and current servers no longer
/// populate them; the authoritative source is the layers of `TrackInfo.codecs`. The deprecated
/// fields are still consulted so that older servers continue to work.
pub fn is_simulcasted(info: &TrackInfo) -> (r: bool)
    ensures
        r == info@.simulcasted(),
{
    if info.simulcast || info.layers.len() > 1 {
        return true;
    }
    let mut i: usize = 0;
    while i < info.codecs.len()
        invariant
            i <= info.codecs.len(),
            forall|j: int|
                0 <= j < i ==> (#[trigger] info@.codecs[j]).layers.len() <= 1,
        decreases info.codecs.len() - i,
    {
        assert(info@.codecs[i as int] == info.codecs@[i as int]@);
        if info.codecs[i].layers.len() > 1 {
            return true;
        }
        i = i + 1;
    }
    false
}

impl PublicationInfo {
    /// What is known of a publication that the server describes by `info` and that has the track
    /// `track`.
    pub fn new(info: TrackInfo, track: Option<Track>) -> (r: PublicationInfo)
        requires
            info@.publishable(),
        ensures
            r@ == PublicationInfoView::described(info@, track_view(track)),
    {
        PublicationInfo {
            track,
            simulcasted: is_simulcasted(&info),
            source: TrackSource::from(info.decoded_source()),
            kind: TrackKind::try_from(info.decoded_type()).unwrap(),
            encryption_type: EncryptionType::from(info.decoded_encryption()),
            name: info.name.clone(),
            sid: TrackSid::try_from(info.sid.clone()).unwrap(),
            dimension: TrackDimension(info.width, info.height),
            mime_type: info.mime_type.clone(),
            muted: info.muted,
            audio_features: info.decoded_audio_features(),
            packet_trailer_features: info.decoded_packet_trailer_features(),
            proto_info: info,
        }
    }

    /// Takes over a new description of the publication.
    pub fn update(&mut self, new_info: TrackInfo)
        requires
            new_info@.publishable(),
        ensures
            final(self)@ == old(self)@.redescribed(new_info@),
    {
        self.kind = TrackKind::try_from(new_info.decoded_type()).unwrap();
        self.source = TrackSource::from(new_info.decoded_source());
        self.encryption_type = EncryptionType::from(new_info.decoded_encryption());
        self.name = new_info.name.clone();
        self.sid = TrackSid::try_from(new_info.sid.clone()).unwrap();
        self.dimension = TrackDimension(new_info.width, new_info.height);
        self.mime_type = new_info.mime_type.clone();
        self.simulcasted = is_simulcasted(&new_info);
        self.audio_features = new_info.decoded_audio_features();
        self.packet_trailer_features = new_info.decoded_packet_trailer_features();
        self.proto_info = new_info;
    }
}

} // verus!
