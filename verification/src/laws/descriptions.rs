//! What is read out of the server's description of a track.

use vstd::prelude::*;
use vstd::std_specs::convert::FromSpec;

use crate::handle::TrackRef;
use crate::id;
use crate::info::{PublicationInfo, PublicationInfoView};
use crate::media;
use crate::media::{EncryptionType, TrackKind, TrackSource};
use crate::proto;
use crate::proto::{
    AudioTrackFeature, PacketTrailerFeature, SimulcastCodecInfo, TrackInfo, TrackInfoView,
    VideoLayer,
};

verus! {

/// A description says what its fields hold, each field for itself.
pub proof fn law_a_description_says_what_it_holds(info: TrackInfo)
    ensures
        info@.sid == info.sid@,
        info@.track_type == info.track_type,
        info@.name == info.name@,
        info@.muted == info.muted,
        info@.width == info.width,
        info@.height == info.height,
        info@.simulcast == info.simulcast,
        info@.disable_dtx == info.disable_dtx,
        info@.source == info.source,
        info@.mime_type == info.mime_type@,
        info@.mid == info.mid@,
        info@.stereo == info.stereo,
        info@.disable_red == info.disable_red,
        info@.encryption == info.encryption,
        info@.stream == info.stream@,
        info@.version == info.version,
        info@.audio_features == info.audio_features@,
        info@.backup_codec_policy == info.backup_codec_policy,
        info@.packet_trailer_features == info.packet_trailer_features@,
        info@.layers.len() == info.layers@.len(),
        forall|i: int| 0 <= i < info.layers@.len() ==> #[trigger] info@.layers[i] == info.layers@[i]@,
        info@.codecs.len() == info.codecs@.len(),
        forall|i: int| 0 <= i < info.codecs@.len() ==> #[trigger] info@.codecs[i] == info.codecs@[i]@,
{
}

/// A codec and a layer say what their fields hold, each field for itself.
pub proof fn law_codecs_and_layers_say_what_they_hold(codec: SimulcastCodecInfo, layer: VideoLayer)
    ensures
        codec@.mime_type == codec.mime_type@,
        codec@.mid == codec.mid@,
        codec@.cid == codec.cid@,
        codec@.video_layer_mode == codec.video_layer_mode,
        codec@.sdp_cid == codec.sdp_cid@,
        codec@.layers.len() == codec.layers@.len(),
        forall|i: int|
            0 <= i < codec.layers@.len() ==> #[trigger] codec@.layers[i] == codec.layers@[i]@,
        layer@.quality == layer.quality,
        layer@.width == layer.width,
        layer@.height == layer.height,
        layer@.bitrate == layer.bitrate,
        layer@.ssrc == layer.ssrc,
        layer@.spatial_layer == layer.spatial_layer,
        layer@.rid == layer.rid@,
        layer@.repair_ssrc == layer.repair_ssrc,
{
}

/// What is known of a publication is what the fields hold, each field for itself.
pub proof fn law_known_is_what_the_fields_hold(known: PublicationInfo)
    ensures
        known@.track is Some <==> known.track is Some,
        known.track matches Some(track) ==> known@.track == Some(track@),
        known@.name == known.name@,
        known@.sid == known.sid@,
        known@.kind == known.kind,
        known@.source == known.source,
        known@.simulcasted == known.simulcasted,
        known@.dimension == known.dimension,
        known@.mime_type == known.mime_type@,
        known@.muted == known.muted,
        known@.proto_info == known.proto_info@,
        known@.encryption_type == known.encryption_type,
        known@.audio_features == known.audio_features@,
        known@.packet_trailer_features == known.packet_trailer_features@,
{
}

/// A track identifier is any text that goes on after `TR_`, and nothing else.
pub proof fn law_track_identifiers_start_with_their_prefix(s: Seq<char>)
    ensures
        id::valid_track_sid("TR_"@ + s),
        id::valid_track_sid(s) ==> s == "TR_"@ + s.skip(3),
{
    reveal_strlit("TR_");
    if id::valid_track_sid(s) {
        assert(s =~= "TR_"@ + s.skip(3));
    }
}

/// Each value of an enumeration has one number, and each number that is none of these stands for
/// nothing.
pub proof fn law_every_value_has_one_number(raw: i32)
    ensures
        proto::known_track_type(raw) == Some(proto::TrackType::Audio) <==> raw == 0,
        proto::known_track_type(raw) == Some(proto::TrackType::Video) <==> raw == 1,
        proto::known_track_type(raw) == Some(proto::TrackType::Data) <==> raw == 2,
        proto::known_track_source(raw) == Some(proto::TrackSource::Unknown) <==> raw == 0,
        proto::known_track_source(raw) == Some(proto::TrackSource::Camera) <==> raw == 1,
        proto::known_track_source(raw) == Some(proto::TrackSource::Microphone) <==> raw == 2,
        proto::known_track_source(raw) == Some(proto::TrackSource::ScreenShare) <==> raw == 3,
        proto::known_track_source(raw) == Some(proto::TrackSource::ScreenShareAudio) <==> raw == 4,
        proto::known_encryption(raw) == Some(proto::Encryption::Unencrypted) <==> raw == 0,
        proto::known_encryption(raw) == Some(proto::Encryption::Gcm) <==> raw == 1,
        proto::known_encryption(raw) == Some(proto::Encryption::Custom) <==> raw == 2,
        proto::known_audio_feature(raw) == Some(AudioTrackFeature::TfStereo) <==> raw == 0,
        proto::known_audio_feature(raw) == Some(AudioTrackFeature::TfNoDtx) <==> raw == 1,
        proto::known_audio_feature(raw) == Some(AudioTrackFeature::TfAutoGainControl) <==> raw == 2,
        proto::known_audio_feature(raw) == Some(AudioTrackFeature::TfEchoCancellation) <==> raw
            == 3,
        proto::known_audio_feature(raw) == Some(AudioTrackFeature::TfNoiseSuppression) <==> raw
            == 4,
        proto::known_audio_feature(raw) == Some(AudioTrackFeature::TfEnhancedNoiseCancellation)
            <==> raw == 5,
        proto::known_audio_feature(raw) == Some(AudioTrackFeature::TfPreconnectBuffer) <==> raw
            == 6,
        proto::known_packet_trailer_feature(raw) == Some(PacketTrailerFeature::PtfUserTimestamp)
            <==> raw == 0,
        proto::known_packet_trailer_feature(raw) == Some(PacketTrailerFeature::PtfFrameId) <==> raw
            == 1,
        proto::known_packet_trailer_feature(raw) == Some(PacketTrailerFeature::PtfUserData)
            <==> raw == 2,
{
}

/// A field whose number stands for nothing reads as the value zero stands for; any other reads as
/// what its number stands for. The other fields have no part in it.
pub proof fn law_unknown_numbers_read_as_zero(info: TrackInfoView)
    ensures
        info.decoded_type() is Video <==> info.track_type == 1,
        info.decoded_type() is Data <==> info.track_type == 2,
        info.decoded_type() is Audio <==> info.track_type != 1 && info.track_type != 2,
        info.decoded_source() is Camera <==> info.source == 1,
        info.decoded_source() is Microphone <==> info.source == 2,
        info.decoded_source() is ScreenShare <==> info.source == 3,
        info.decoded_source() is ScreenShareAudio <==> info.source == 4,
        info.decoded_source() is Unknown <==> !(1 <= info.source <= 4),
        info.decoded_encryption() is Gcm <==> info.encryption == 1,
        info.decoded_encryption() is Custom <==> info.encryption == 2,
        info.decoded_encryption() is Unencrypted <==> info.encryption != 1 && info.encryption != 2,
{
}

/// The library's values and those of the protocol go by the same names, one for one; a data track
/// alone has no kind.
pub proof fn law_values_keep_their_names(
    track_type: proto::TrackType,
    source: proto::TrackSource,
    encryption: proto::Encryption,
)
    ensures
        media::kind_of(track_type) == Some(TrackKind::Audio) <==> track_type is Audio,
        media::kind_of(track_type) == Some(TrackKind::Video) <==> track_type is Video,
        media::kind_of(track_type) is None <==> track_type is Data,
        media::source_of(source) is Unknown <==> source is Unknown,
        media::source_of(source) is Camera <==> source is Camera,
        media::source_of(source) is Microphone <==> source is Microphone,
        media::source_of(source) is Screenshare <==> source is ScreenShare,
        media::source_of(source) is ScreenshareAudio <==> source is ScreenShareAudio,
        media::encryption_of(encryption) is Unencrypted <==> encryption is Unencrypted,
        media::encryption_of(encryption) is Gcm <==> encryption is Gcm,
        media::encryption_of(encryption) is Custom <==> encryption is Custom,
{
}

/// Converting a value of the protocol into one of the library keeps its name.
pub proof fn law_conversions_keep_names(source: proto::TrackSource, encryption: proto::Encryption)
    ensures
        <TrackSource as FromSpec<proto::TrackSource>>::obeys_from_spec(),
        ({
            let r = <TrackSource as FromSpec<proto::TrackSource>>::from_spec(source);
            &&& r is Unknown <==> source is Unknown
            &&& r is Camera <==> source is Camera
            &&& r is Microphone <==> source is Microphone
            &&& r is Screenshare <==> source is ScreenShare
            &&& r is ScreenshareAudio <==> source is ScreenShareAudio
        }),
        <EncryptionType as FromSpec<proto::Encryption>>::obeys_from_spec(),
        ({
            let r = <EncryptionType as FromSpec<proto::Encryption>>::from_spec(encryption);
            &&& r is Unencrypted <==> encryption is Unencrypted
            &&& r is Gcm <==> encryption is Gcm
            &&& r is Custom <==> encryption is Custom
        }),
{
}

/// A publication can be made of a description exactly when that is not of a data track and its
/// identifier starts as that of a track does; nothing else in it matters.
pub proof fn law_what_can_be_published(info: TrackInfoView)
    ensures
        info.publishable() <==> info.track_type != 2 && "TR_"@.is_prefix_of(info.sid),
{
    reveal_strlit("TR_");
    if "TR_"@.is_prefix_of(info.sid) {
        assert(info.sid[0] == info.sid.subrange(0, 3)[0]);
        assert(info.sid[1] == info.sid.subrange(0, 3)[1]);
        assert(info.sid[2] == info.sid.subrange(0, 3)[2]);
    }
    if id::valid_track_sid(info.sid) {
        assert("TR_"@ =~= info.sid.subrange(0, 3));
    }
}

/// The deprecated flag alone, several deprecated layers alone, or several layers of a single codec
/// alone make a track simulcasted, whatever the other fields hold; nothing else does.
pub proof fn law_any_of_three_fields_tells_of_simulcast(info: TrackInfoView)
    ensures
        info.simulcast ==> info.simulcasted(),
        info.layers.len() > 1 ==> info.simulcasted(),
        forall|i: int|
            0 <= i < info.codecs.len() && (#[trigger] info.codecs[i]).layers.len() > 1
                ==> info.simulcasted(),
        !info.simulcast && info.layers.len() <= 1 && (forall|i: int|
            0 <= i < info.codecs.len() ==> (#[trigger] info.codecs[i]).layers.len() <= 1)
            ==> !info.simulcasted(),
{
}

/// A description that says at least as much of simulcast as another one is of a simulcasted track
/// if the other one is.
pub proof fn law_saying_more_never_takes_simulcast_back(less: TrackInfoView, more: TrackInfoView)
    requires
        less.simulcast ==> more.simulcast,
        less.layers.len() <= more.layers.len(),
        less.codecs.len() <= more.codecs.len(),
        forall|i: int|
            0 <= i < less.codecs.len() ==> (#[trigger] less.codecs[i]).layers.len()
                <= more.codecs[i].layers.len(),
    ensures
        less.simulcasted() ==> more.simulcasted(),
{
    if less.simulcasted() && !less.simulcast && less.layers.len() <= 1 {
        let i = choose|i: int|
            0 <= i < less.codecs.len() && (#[trigger] less.codecs[i]).layers.len() > 1;
        assert(more.codecs[i].layers.len() > 1);
    }
}

/// A publication is known by its description, field by field: size as width and height, texts and
/// the mute flag as they are, enumerations by their numbers, simulcast by any of its three fields.
pub proof fn law_a_publication_is_known_by_its_description(
    info: TrackInfoView,
    track: Option<TrackRef>,
)
    ensures
        ({
            let known = PublicationInfoView::described(info, track);
            &&& known.track == track
            &&& known.name == info.name
            &&& known.sid == info.sid
            &&& known.mime_type == info.mime_type
            &&& known.muted == info.muted
            &&& known.proto_info == info
            &&& known.dimension.0 == info.width
            &&& known.dimension.1 == info.height
            &&& info.track_type == 1 ==> known.kind is Video
            &&& info.track_type != 1 && info.track_type != 2 ==> known.kind is Audio
            &&& known.source is Camera <==> info.source == 1
            &&& known.source is Microphone <==> info.source == 2
            &&& known.source is Screenshare <==> info.source == 3
            &&& known.source is ScreenshareAudio <==> info.source == 4
            &&& known.source is Unknown <==> !(1 <= info.source <= 4)
            &&& known.encryption_type is Gcm <==> info.encryption == 1
            &&& known.encryption_type is Custom <==> info.encryption == 2
            &&& known.encryption_type is Unencrypted <==> info.encryption != 1 && info.encryption
                != 2
            &&& known.simulcasted <==> info.simulcast || info.layers.len() > 1 || exists|i: int|
                0 <= i < info.codecs.len() && (#[trigger] info.codecs[i]).layers.len() > 1
        }),
{
}

/// A publication that is described anew is known by the new description, field by field, whatever
/// was known before and whether or not it has a track; only the track and the mute flag stay.
pub proof fn law_a_publication_is_known_by_its_latest_description(
    before: PublicationInfoView,
    info: TrackInfoView,
)
    ensures
        ({
            let known = before.redescribed(info);
            &&& known.track == before.track
            &&& known.muted == before.muted
            &&& known.name == info.name
            &&& known.sid == info.sid
            &&& known.mime_type == info.mime_type
            &&& known.proto_info == info
            &&& known.dimension.0 == info.width
            &&& known.dimension.1 == info.height
            &&& info.track_type == 1 ==> known.kind is Video
            &&& info.track_type != 1 && info.track_type != 2 ==> known.kind is Audio
            &&& known.source is Camera <==> info.source == 1
            &&& known.source is Microphone <==> info.source == 2
            &&& known.source is Screenshare <==> info.source == 3
            &&& known.source is ScreenshareAudio <==> info.source == 4
            &&& known.source is Unknown <==> !(1 <= info.source <= 4)
            &&& known.encryption_type is Gcm <==> info.encryption == 1
            &&& known.encryption_type is Custom <==> info.encryption == 2
            &&& known.encryption_type is Unencrypted <==> info.encryption != 1 && info.encryption
                != 2
            &&& known.simulcasted <==> info.simulcast || info.layers.len() > 1 || exists|i: int|
                0 <= i < info.codecs.len() && (#[trigger] info.codecs[i]).layers.len() > 1
        }),
{
}

/// What is known of a publication but for its track does not depend on the track.
pub proof fn law_the_track_has_no_part_in_the_description(
    info: TrackInfoView,
    one: Option<TrackRef>,
    other: Option<TrackRef>,
)
    ensures
        (PublicationInfoView { track: other, ..PublicationInfoView::described(info, one) })
            == PublicationInfoView::described(info, other),
{
}

/// What is known after a new description does not depend on what was known before, but for the
/// track and the mute flag.
pub proof fn law_nothing_of_an_earlier_description_stays(
    one: PublicationInfoView,
    other: PublicationInfoView,
    info: TrackInfoView,
)
    ensures
        (PublicationInfoView { track: other.track, muted: other.muted, ..one.redescribed(info) })
            == other.redescribed(info),
{
}

/// A description with one more number in its list of audio features gives one more feature, at
/// the end, if that number stands for one, and else the same; an empty list gives none. The other
/// fields have no part in it.
pub proof fn law_audio_features_follow_their_numbers(
    info: TrackInfoView,
    before: PublicationInfoView,
    track: Option<TrackRef>,
    raw: Seq<i32>,
    number: i32,
)
    ensures
        ({
            let short = TrackInfoView { audio_features: raw, ..info };
            let long = TrackInfoView { audio_features: raw.push(number), ..info };
            let features = PublicationInfoView::described(short, track).audio_features;
            let longer = PublicationInfoView::described(long, track).audio_features;
            &&& raw.len() == 0 ==> features.len() == 0
            &&& number == 0 ==> longer == features.push(AudioTrackFeature::TfStereo)
            &&& number == 1 ==> longer == features.push(AudioTrackFeature::TfNoDtx)
            &&& number == 2 ==> longer == features.push(AudioTrackFeature::TfAutoGainControl)
            &&& number == 3 ==> longer == features.push(AudioTrackFeature::TfEchoCancellation)
            &&& number == 4 ==> longer == features.push(AudioTrackFeature::TfNoiseSuppression)
            &&& number == 5 ==> longer == features.push(
                AudioTrackFeature::TfEnhancedNoiseCancellation,
            )
            &&& number == 6 ==> longer == features.push(AudioTrackFeature::TfPreconnectBuffer)
            &&& !(0 <= number <= 6) ==> longer == features
            &&& proto::known_audio_features(raw) == features
            &&& proto::known_audio_features(raw.push(number)) == longer
            &&& before.redescribed(short).audio_features == features
            &&& before.redescribed(long).audio_features == longer
        }),
{
    assert(raw.push(number).drop_last() =~= raw);
}

/// A description with one more number in its list of packet trailer features gives one more
/// feature, at the end, if that number stands for one, and else the same; an empty list gives
/// none. The other fields have no part in it.
pub proof fn law_packet_trailer_features_follow_their_numbers(
    info: TrackInfoView,
    before: PublicationInfoView,
    track: Option<TrackRef>,
    raw: Seq<i32>,
    number: i32,
)
    ensures
        ({
            let short = TrackInfoView { packet_trailer_features: raw, ..info };
            let long = TrackInfoView { packet_trailer_features: raw.push(number), ..info };
            let features = PublicationInfoView::described(short, track).packet_trailer_features;
            let longer = PublicationInfoView::described(long, track).packet_trailer_features;
            &&& raw.len() == 0 ==> features.len() == 0
            &&& number == 0 ==> longer == features.push(PacketTrailerFeature::PtfUserTimestamp)
            &&& number == 1 ==> longer == features.push(PacketTrailerFeature::PtfFrameId)
            &&& number == 2 ==> longer == features.push(PacketTrailerFeature::PtfUserData)
            &&& !(0 <= number <= 2) ==> longer == features
            &&& proto::known_packet_trailer_features(raw) == features
            &&& proto::known_packet_trailer_features(raw.push(number)) == longer
            &&& before.redescribed(short).packet_trailer_features == features
            &&& before.redescribed(long).packet_trailer_features == longer
        }),
{
    assert(raw.push(number).drop_last() =~= raw);
}

} // verus!
