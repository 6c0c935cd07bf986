//! The part of the signalling protocol that describes a published track.
//!
//! Enumerations travel as plain integers. A receiver that does not know a number reads a single
//! field as the enumeration's zero value, and leaves the number out of a repeated field.

use vstd::prelude::*;

use crate::id;

verus! {

/// What a track carries.
#[derive(Debug, Clone, Copy, PartialEq, Eq, Structural)]
pub enum TrackType {
    Audio,
    Video,
    Data,
}

/// The track type that the number `raw` stands for, if it stands for one.
pub open spec fn known_track_type(raw: i32) -> Option<TrackType> {
    if raw == 0 {
        Some(TrackType::Audio)
    } else if raw == 1 {
        Some(TrackType::Video)
    } else if raw == 2 {
        Some(TrackType::Data)
    } else {
        None
    }
}

/// Where the media of a track comes from.
#[derive(Debug, Clone, Copy, PartialEq, Eq, Structural)]
pub enum TrackSource {
    Unknown,
    Camera,
    Microphone,
    ScreenShare,
    ScreenShareAudio,
}

/// The source that the number `raw` stands for, if it stands for one.
pub open spec fn known_track_source(raw: i32) -> Option<TrackSource> {
    if raw == 0 {
        Some(TrackSource::Unknown)
    } else if raw == 1 {
        Some(TrackSource::Camera)
    } else if raw == 2 {
        Some(TrackSource::Microphone)
    } else if raw == 3 {
        Some(TrackSource::ScreenShare)
    } else if raw == 4 {
        Some(TrackSource::ScreenShareAudio)
    } else {
        None
    }
}

/// How the media of a track is encrypted end to end.
#[derive(Debug, Clone, Copy, PartialEq, Eq, Structural)]
pub enum Encryption {
    Unencrypted,
    Gcm,
    Custom,
}

/// The encryption that the number `raw` stands for, if it stands for one.
pub open spec fn known_encryption(raw: i32) -> Option<Encryption> {
    if raw == 0 {
        Some(Encryption::Unencrypted)
    } else if raw == 1 {
        Some(Encryption::Gcm)
    } else if raw == 2 {
        Some(Encryption::Custom)
    } else {
        None
    }
}

/// A feature of an audio track.
#[derive(Debug, Clone, Copy, PartialEq, Eq, Structural)]
pub enum AudioTrackFeature {
    TfStereo,
    TfNoDtx,
    TfAutoGainControl,
    TfEchoCancellation,
    TfNoiseSuppression,
    TfEnhancedNoiseCancellation,
    TfPreconnectBuffer,
}

/// The audio feature that the number `raw` stands for, if it stands for one.
pub open spec fn known_audio_feature(raw: i32) -> Option<AudioTrackFeature> {
    if raw == 0 {
        Some(AudioTrackFeature::TfStereo)
    } else if raw == 1 {
        Some(AudioTrackFeature::TfNoDtx)
    } else if raw == 2 {
        Some(AudioTrackFeature::TfAutoGainControl)
    } else if raw == 3 {
        Some(AudioTrackFeature::TfEchoCancellation)
    } else if raw == 4 {
        Some(AudioTrackFeature::TfNoiseSuppression)
    } else if raw == 5 {
        Some(AudioTrackFeature::TfEnhancedNoiseCancellation)
    } else if raw == 6 {
        Some(AudioTrackFeature::TfPreconnectBuffer)
    } else {
        None
    }
}

/// What a publisher appends to the packets of a track.
#[derive(Debug, Clone, Copy, PartialEq, Eq, Structural)]
pub enum PacketTrailerFeature {
    PtfUserTimestamp,
    PtfFrameId,
    PtfUserData,
}

/// The packet trailer feature that the number `raw` stands for, if it stands for one.
pub open spec fn known_packet_trailer_feature(raw: i32) -> Option<PacketTrailerFeature> {
    if raw == 0 {
        Some(PacketTrailerFeature::PtfUserTimestamp)
    } else if raw == 1 {
        Some(PacketTrailerFeature::PtfFrameId)
    } else if raw == 2 {
        Some(PacketTrailerFeature::PtfUserData)
    } else {
        None
    }
}

/// The audio features among the numbers `raw`, in their order.
pub open spec fn known_audio_features(raw: Seq<i32>) -> Seq<AudioTrackFeature> {
    raw.filter_map(|number: i32| known_audio_feature(number))
}

/// The packet trailer features among the numbers `raw`, in their order.
pub open spec fn known_packet_trailer_features(raw: Seq<i32>) -> Seq<PacketTrailerFeature> {
    raw.filter_map(|number: i32| known_packet_trailer_feature(number))
}

impl TrackType {
    /// The track type with the number `raw`.
    pub fn try_from(raw: i32) -> (r: Option<TrackType>)
        ensures
            r == known_track_type(raw),
    {
        match raw {
            0 => Some(TrackType::Audio),
            1 => Some(TrackType::Video),
            2 => Some(TrackType::Data),
            _ => None,
        }
    }
}

impl TrackSource {
    /// The source with the number `raw`.
    pub fn try_from(raw: i32) -> (r: Option<TrackSource>)
        ensures
            r == known_track_source(raw),
    {
        match raw {
            0 => Some(TrackSource::Unknown),
            1 => Some(TrackSource::Camera),
            2 => Some(TrackSource::Microphone),
            3 => Some(TrackSource::ScreenShare),
            4 => Some(TrackSource::ScreenShareAudio),
            _ => None,
        }
    }
}

impl Encryption {
    /// The encryption with the number `raw`.
    pub fn try_from(raw: i32) -> (r: Option<Encryption>)
        ensures
            r == known_encryption(raw),
    {
        match raw {
            0 => Some(Encryption::Unencrypted),
            1 => Some(Encryption::Gcm),
            2 => Some(Encryption::Custom),
            _ => None,
        }
    }
}

impl AudioTrackFeature {
    /// The audio feature with the number `raw`.
    pub fn try_from(raw: i32) -> (r: Option<AudioTrackFeature>)
        ensures
            r == known_audio_feature(raw),
    {
        match raw {
            0 => Some(AudioTrackFeature::TfStereo),
            1 => Some(AudioTrackFeature::TfNoDtx),
            2 => Some(AudioTrackFeature::TfAutoGainControl),
            3 => Some(AudioTrackFeature::TfEchoCancellation),
            4 => Some(AudioTrackFeature::TfNoiseSuppression),
            5 => Some(AudioTrackFeature::TfEnhancedNoiseCancellation),
            6 => Some(AudioTrackFeature::TfPreconnectBuffer),
            _ => None,
        }
    }
}

impl PacketTrailerFeature {
    /// The packet trailer feature with the number `raw`.
    pub fn try_from(raw: i32) -> (r: Option<PacketTrailerFeature>)
        ensures
            r == known_packet_trailer_feature(raw),
    {
        match raw {
            0 => Some(PacketTrailerFeature::PtfUserTimestamp),
            1 => Some(PacketTrailerFeature::PtfFrameId),
            2 => Some(PacketTrailerFeature::PtfUserData),
            _ => None,
        }
    }
}

/// One encoding of a video track.
#[derive(Debug, PartialEq, Eq)]
pub struct VideoLayer {
    pub quality: i32,
    pub width: u32,
    pub height: u32,
    pub bitrate: u32,
    pub ssrc: u32,
    pub spatial_layer: i32,
    pub rid: String,
    pub repair_ssrc: u32,
}

/// What a [`VideoLayer`] says.
pub struct VideoLayerView {
    pub quality: i32,
    pub width: u32,
    pub height: u32,
    pub bitrate: u32,
    pub ssrc: u32,
    pub spatial_layer: i32,
    pub rid: Seq<char>,
    pub repair_ssrc: u32,
}

impl View for VideoLayer {
    type V = VideoLayerView;

    open spec fn view(&self) -> VideoLayerView {
        VideoLayerView {
            quality: self.quality,
            width: self.width,
            height: self.height,
            bitrate: self.bitrate,
            ssrc: self.ssrc,
            spatial_layer: self.spatial_layer,
            rid: self.rid@,
            repair_ssrc: self.repair_ssrc,
        }
    }
}

impl Clone for VideoLayer {
    fn clone(&self) -> (r: VideoLayer)
        ensures
            r@ == self@,
    {
        VideoLayer {
            quality: self.quality,
            width: self.width,
            height: self.height,
            bitrate: self.bitrate,
            ssrc: self.ssrc,
            spatial_layer: self.spatial_layer,
            rid: self.rid.clone(),
            repair_ssrc: self.repair_ssrc,
        }
    }
}

/// What a list of layers says.
pub open spec fn layers_view(layers: Seq<VideoLayer>) -> Seq<VideoLayerView> {
    layers.map_values(|layer: VideoLayer| layer@)
}

/// One codec of a track, with the layers that are encoded with it.
#[derive(Debug, PartialEq, Eq)]
pub struct SimulcastCodecInfo {
    pub mime_type: String,
    pub mid: String,
    pub cid: String,
    pub layers: Vec<VideoLayer>,
    pub video_layer_mode: i32,
    pub sdp_cid: String,
}

/// What a [`SimulcastCodecInfo`] says.
pub struct SimulcastCodecInfoView {
    pub mime_type: Seq<char>,
    pub mid: Seq<char>,
    pub cid: Seq<char>,
    pub layers: Seq<VideoLayerView>,
    pub video_layer_mode: i32,
    pub sdp_cid: Seq<char>,
}

impl View for SimulcastCodecInfo {
    type V = SimulcastCodecInfoView;

    open spec fn view(&self) -> SimulcastCodecInfoView {
        SimulcastCodecInfoView {
            mime_type: self.mime_type@,
            mid: self.mid@,
            cid: self.cid@,
            layers: layers_view(self.layers@),
            video_layer_mode: self.video_layer_mode,
            sdp_cid: self.sdp_cid@,
        }
    }
}

impl Clone for SimulcastCodecInfo {
    fn clone(&self) -> (r: SimulcastCodecInfo)
        ensures
            r@ == self@,
    {
        let r = SimulcastCodecInfo {
            mime_type: self.mime_type.clone(),
            mid: self.mid.clone(),
            cid: self.cid.clone(),
            layers: self.layers.clone(),
            video_layer_mode: self.video_layer_mode,
            sdp_cid: self.sdp_cid.clone(),
        };
        assert(layers_view(r.layers@) =~= layers_view(self.layers@));
        r
    }
}

/// What a list of codecs says.
pub open spec fn codecs_view(codecs: Seq<SimulcastCodecInfo>) -> Seq<SimulcastCodecInfoView> {
    codecs.map_values(|codec: SimulcastCodecInfo| codec@)
}

/// Orders the descriptions of one track.
#[derive(Debug, Clone, Copy, PartialEq, Eq, Structural)]
pub struct TimedVersion {
    pub unix_micro: i64,
    pub ticks: i32,
}

/// The server's description of a published track.
///
/// `simulcast` and `layers` are deprecated: current servers leave them unset and list the layers
/// under `codecs`.
#[derive(Debug, PartialEq, Eq)]
pub struct TrackInfo {
    pub sid: String,
    /// Number of a [`TrackType`].
    pub track_type: i32,
    pub name: String,
    pub muted: bool,
    pub width: u32,
    pub height: u32,
    pub simulcast: bool,
    pub disable_dtx: bool,
    /// Number of a [`TrackSource`].
    pub source: i32,
    pub layers: Vec<VideoLayer>,
    pub mime_type: String,
    pub mid: String,
    pub codecs: Vec<SimulcastCodecInfo>,
    pub stereo: bool,
    pub disable_red: bool,
    /// Number of an [`Encryption`].
    pub encryption: i32,
    pub stream: String,
    pub version: Option<TimedVersion>,
    /// Numbers of [`AudioTrackFeature`]s.
    pub audio_features: Vec<i32>,
    pub backup_codec_policy: i32,
    /// Numbers of [`PacketTrailerFeature`]s.
    pub packet_trailer_features: Vec<i32>,
}

/// What a [`TrackInfo`] says.
#[verifier::ext_equal]
pub struct TrackInfoView {
    pub sid: Seq<char>,
    pub track_type: i32,
    pub name: Seq<char>,
    pub muted: bool,
    pub width: u32,
    pub height: u32,
    pub simulcast: bool,
    pub disable_dtx: bool,
    pub source: i32,
    pub layers: Seq<VideoLayerView>,
    pub mime_type: Seq<char>,
    pub mid: Seq<char>,
    pub codecs: Seq<SimulcastCodecInfoView>,
    pub stereo: bool,
    pub disable_red: bool,
    pub encryption: i32,
    pub stream: Seq<char>,
    pub version: Option<TimedVersion>,
    pub audio_features: Seq<i32>,
    pub backup_codec_policy: i32,
    pub packet_trailer_features: Seq<i32>,
}

impl View for TrackInfo {
    type V = TrackInfoView;

    open spec fn view(&self) -> TrackInfoView {
        TrackInfoView {
            sid: self.sid@,
            track_type: self.track_type,
            name: self.name@,
            muted: self.muted,
            width: self.width,
            height: self.height,
            simulcast: self.simulcast,
            disable_dtx: self.disable_dtx,
            source: self.source,
            layers: layers_view(self.layers@),
            mime_type: self.mime_type@,
            mid: self.mid@,
            codecs: codecs_view(self.codecs@),
            stereo: self.stereo,
            disable_red: self.disable_red,
            encryption: self.encryption,
            stream: self.stream@,
            version: self.version,
            audio_features: self.audio_features@,
            backup_codec_policy: self.backup_codec_policy,
            packet_trailer_features: self.packet_trailer_features@,
        }
    }
}

impl TrackInfoView {
    /// The type of the track; a number that stands for none reads as audio.
    pub open spec fn decoded_type(self) -> TrackType {
        match known_track_type(self.track_type) {
            Some(track_type) => track_type,
            None => TrackType::Audio,
        }
    }

    /// The source of the track; a number that stands for none reads as unknown.
    pub open spec fn decoded_source(self) -> TrackSource {
        match known_track_source(self.source) {
            Some(source) => source,
            None => TrackSource::Unknown,
        }
    }

    /// The encryption of the track; a number that stands for none reads as unencrypted.
    pub open spec fn decoded_encryption(self) -> Encryption {
        match known_encryption(self.encryption) {
            Some(encryption) => encryption,
            None => Encryption::Unencrypted,
        }
    }

    /// A media track with a track identifier: what a publication can be made of.
    pub open spec fn publishable(self) -> bool {
        self.decoded_type() != TrackType::Data && id::valid_track_sid(self.sid)
    }
}

impl TrackInfo {
    /// The type of the track.
    pub fn decoded_type(&self) -> (r: TrackType)
        ensures
            r == self@.decoded_type(),
    {
        match TrackType::try_from(self.track_type) {
            Some(track_type) => track_type,
            None => TrackType::Audio,
        }
    }

    /// The source of the track.
    pub fn decoded_source(&self) -> (r: TrackSource)
        ensures
            r == self@.decoded_source(),
    {
        match TrackSource::try_from(self.source) {
            Some(source) => source,
            None => TrackSource::Unknown,
        }
    }

    /// The encryption of the track.
    pub fn decoded_encryption(&self) -> (r: Encryption)
        ensures
            r == self@.decoded_encryption(),
    {
        match Encryption::try_from(self.encryption) {
            Some(encryption) => encryption,
            None => Encryption::Unencrypted,
        }
    }

    /// The audio features that are known here, in the order of the message.
    pub fn decoded_audio_features(&self) -> (r: Vec<AudioTrackFeature>)
        ensures
            r@ == known_audio_features(self@.audio_features),
    {
        let raw = &self.audio_features;
        let mut known: Vec<AudioTrackFeature> = Vec::new();
        let mut i: usize = 0;
        while i < raw.len()
            invariant
                i <= raw.len(),
                known@ == known_audio_features(raw@.take(i as int)),
            decreases raw.len() - i,
        {
            assert(raw@.take(i + 1).drop_last() =~= raw@.take(i as int));
            if let Some(feature) = AudioTrackFeature::try_from(raw[i]) {
                known.push(feature);
            }
            i = i + 1;
        }
        assert(raw@.take(i as int) =~= raw@);
        known
    }

    /// The packet trailer features that are known here, in the order of the message.
    pub fn decoded_packet_trailer_features(&self) -> (r: Vec<PacketTrailerFeature>)
        ensures
            r@ == known_packet_trailer_features(self@.packet_trailer_features),
    {
        let raw = &self.packet_trailer_features;
        let mut known: Vec<PacketTrailerFeature> = Vec::new();
        let mut i: usize = 0;
        while i < raw.len()
            invariant
                i <= raw.len(),
                known@ == known_packet_trailer_features(raw@.take(i as int)),
            decreases raw.len() - i,
        {
            assert(raw@.take(i + 1).drop_last() =~= raw@.take(i as int));
            if let Some(feature) = PacketTrailerFeature::try_from(raw[i]) {
                known.push(feature);
            }
            i = i + 1;
        }
        assert(raw@.take(i as int) =~= raw@);
        known
    }

    /// Whether a publication can be made of this description: it is of an audio or video track
    /// and has a track identifier.
    pub fn publishable(&self) -> (r: bool)
        ensures
            r == self@.publishable(),
    {
        self.decoded_type() != TrackType::Data && id::is_track_sid(self.sid.as_str())
    }
}

impl Clone for TrackInfo {
    fn clone(&self) -> (r: TrackInfo)
        ensures
            r@ == self@,
    {
        let r = TrackInfo {
            sid: self.sid.clone(),
            track_type: self.track_type,
            name: self.name.clone(),
            muted: self.muted,
            width: self.width,
            height: self.height,
            simulcast: self.simulcast,
            disable_dtx: self.disable_dtx,
            source: self.source,
            layers: self.layers.clone(),
            mime_type: self.mime_type.clone(),
            mid: self.mid.clone(),
            codecs: self.codecs.clone(),
            stereo: self.stereo,
            disable_red: self.disable_red,
            encryption: self.encryption,
            stream: self.stream.clone(),
            version: self.version,
            audio_features: self.audio_features.clone(),
            backup_codec_policy: self.backup_codec_policy,
            packet_trailer_features: self.packet_trailer_features.clone(),
        };
        assert(layers_view(r.layers@) =~= layers_view(self.layers@));
        assert(codecs_view(r.codecs@) =~= codecs_view(self.codecs@));
        assert(r.audio_features@ =~= self.audio_features@);
        assert(r.packet_trailer_features@ =~= self.packet_trailer_features@);
        r
    }
}

impl Default for TrackInfo {
    /// The message with every field unset.
    fn default() -> (r: TrackInfo)
        ensures
            r@ == (TrackInfoView {
                sid: Seq::empty(),
                track_type: 0,
                name: Seq::empty(),
                muted: false,
                width: 0,
                height: 0,
                simulcast: false,
                disable_dtx: false,
                source: 0,
                layers: Seq::empty(),
                mime_type: Seq::empty(),
                mid: Seq::empty(),
                codecs: Seq::empty(),
                stereo: false,
                disable_red: false,
                encryption: 0,
                stream: Seq::empty(),
                version: None,
                audio_features: Seq::empty(),
                backup_codec_policy: 0,
                packet_trailer_features: Seq::empty(),
            }),
    {
        let r = TrackInfo {
            sid: String::new(),
            track_type: 0,
            name: String::new(),
            muted: false,
            width: 0,
            height: 0,
            simulcast: false,
            disable_dtx: false,
            source: 0,
            layers: Vec::new(),
            mime_type: String::new(),
            mid: String::new(),
            codecs: Vec::new(),
            stereo: false,
            disable_red: false,
            encryption: 0,
            stream: String::new(),
            version: None,
            audio_features: Vec::new(),
            backup_codec_policy: 0,
            packet_trailer_features: Vec::new(),
        };
        assert(layers_view(r.layers@) =~= Seq::empty());
        assert(codecs_view(r.codecs@) =~= Seq::empty());
        r
    }
}

} // verus!
