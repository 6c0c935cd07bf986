use livekit_publication::id::TrackSid;
use livekit_publication::info::{is_simulcasted, PublicationInfo};
use livekit_publication::media::{EncryptionType, TrackDimension, TrackKind, TrackSource};
use livekit_publication::proto::{
    self, AudioTrackFeature, Encryption, PacketTrailerFeature, SimulcastCodecInfo, TimedVersion,
    TrackInfo, TrackType, VideoLayer,
};

fn layer(rid: &str) -> VideoLayer {
    VideoLayer {
        quality: 2,
        width: 640,
        height: 360,
        bitrate: 500_000,
        ssrc: 11,
        spatial_layer: 1,
        rid: rid.to_string(),
        repair_ssrc: 12,
    }
}

fn codec(layers: Vec<VideoLayer>) -> SimulcastCodecInfo {
    SimulcastCodecInfo {
        mime_type: "video/VP8".to_string(),
        mid: "1".to_string(),
        cid: "c".to_string(),
        layers,
        video_layer_mode: 1,
        sdp_cid: "s".to_string(),
    }
}

fn camera() -> TrackInfo {
    TrackInfo {
        sid: "TR_camera".to_string(),
        track_type: 1,
        name: "front".to_string(),
        muted: true,
        width: 1280,
        height: 720,
        source: 1,
        mime_type: "video/H264".to_string(),
        encryption: 1,
        codecs: vec![codec(vec![layer("q"), layer("h"), layer("f")])],
        version: Some(TimedVersion { unix_micro: 5, ticks: 6 }),
        audio_features: vec![6, 0, 99, -1, 3],
        packet_trailer_features: vec![1, 7, 0, 2, 2],
        ..TrackInfo::default()
    }
}

fn microphone() -> TrackInfo {
    TrackInfo {
        sid: "TR_microphone".to_string(),
        name: "mic".to_string(),
        source: 2,
        mime_type: "audio/opus".to_string(),
        encryption: 2,
        audio_features: vec![4],
        ..TrackInfo::default()
    }
}

#[test]
fn track_sid_needs_its_prefix() {
    let sid = TrackSid::try_from("TR_abc".to_string()).unwrap();
    assert_eq!(sid.as_str(), "TR_abc");
    assert_eq!(sid.clone(), sid);
    assert_eq!(TrackSid::try_from("TR_".to_string()).unwrap().as_str(), "TR_");
    assert_eq!(TrackSid::try_from("PA_abc".to_string()), Err("PA_abc".to_string()));
    assert_eq!(TrackSid::try_from("TR".to_string()), Err("TR".to_string()));
    assert_eq!(TrackSid::try_from(String::new()), Err(String::new()));
    assert_eq!(TrackSid::try_from("tr_abc".to_string()), Err("tr_abc".to_string()));
    assert_eq!(TrackSid::try_from(" TR_a".to_string()), Err(" TR_a".to_string()));
}

#[test]
fn numbers_stand_for_enumeration_values() {
    assert_eq!(TrackType::try_from(0), Some(TrackType::Audio));
    assert_eq!(TrackType::try_from(1), Some(TrackType::Video));
    assert_eq!(TrackType::try_from(2), Some(TrackType::Data));
    assert_eq!(TrackType::try_from(3), None);
    let sources = [
        proto::TrackSource::Unknown,
        proto::TrackSource::Camera,
        proto::TrackSource::Microphone,
        proto::TrackSource::ScreenShare,
        proto::TrackSource::ScreenShareAudio,
    ];
    for (raw, source) in sources.into_iter().enumerate() {
        assert_eq!(proto::TrackSource::try_from(raw as i32), Some(source));
    }
    assert_eq!(proto::TrackSource::try_from(5), None);
    assert_eq!(proto::TrackSource::try_from(-1), None);
    assert_eq!(Encryption::try_from(0), Some(Encryption::Unencrypted));
    assert_eq!(Encryption::try_from(1), Some(Encryption::Gcm));
    assert_eq!(Encryption::try_from(2), Some(Encryption::Custom));
    assert_eq!(Encryption::try_from(3), None);
    let audio = [
        AudioTrackFeature::TfStereo,
        AudioTrackFeature::TfNoDtx,
        AudioTrackFeature::TfAutoGainControl,
        AudioTrackFeature::TfEchoCancellation,
        AudioTrackFeature::TfNoiseSuppression,
        AudioTrackFeature::TfEnhancedNoiseCancellation,
        AudioTrackFeature::TfPreconnectBuffer,
    ];
    for (raw, feature) in audio.into_iter().enumerate() {
        assert_eq!(AudioTrackFeature::try_from(raw as i32), Some(feature));
    }
    assert_eq!(AudioTrackFeature::try_from(7), None);
    assert_eq!(PacketTrailerFeature::try_from(0), Some(PacketTrailerFeature::PtfUserTimestamp));
    assert_eq!(PacketTrailerFeature::try_from(1), Some(PacketTrailerFeature::PtfFrameId));
    assert_eq!(PacketTrailerFeature::try_from(2), Some(PacketTrailerFeature::PtfUserData));
    assert_eq!(PacketTrailerFeature::try_from(3), None);
    assert_eq!(PacketTrailerFeature::try_from(i32::MIN), None);
}

#[test]
fn unknown_numbers_read_as_the_zero_value() {
    let info =
        TrackInfo { track_type: 9, source: -3, encryption: 77, ..TrackInfo::default() };
    assert_eq!(info.decoded_type(), TrackType::Audio);
    assert_eq!(info.decoded_source(), proto::TrackSource::Unknown);
    assert_eq!(info.decoded_encryption(), Encryption::Unencrypted);
}

#[test]
fn data_tracks_have_no_kind() {
    assert_eq!(TrackKind::try_from(TrackType::Audio), Ok(TrackKind::Audio));
    assert_eq!(TrackKind::try_from(TrackType::Video), Ok(TrackKind::Video));
    assert_eq!(TrackKind::try_from(TrackType::Data), Err(TrackType::Data));
}

#[test]
fn sources_and_encryptions_convert() {
    assert_eq!(TrackSource::from(proto::TrackSource::Unknown), TrackSource::Unknown);
    assert_eq!(TrackSource::from(proto::TrackSource::Camera), TrackSource::Camera);
    assert_eq!(TrackSource::from(proto::TrackSource::Microphone), TrackSource::Microphone);
    assert_eq!(TrackSource::from(proto::TrackSource::ScreenShare), TrackSource::Screenshare);
    assert_eq!(
        TrackSource::from(proto::TrackSource::ScreenShareAudio),
        TrackSource::ScreenshareAudio
    );
    assert_eq!(EncryptionType::from(Encryption::Unencrypted), EncryptionType::Unencrypted);
    assert_eq!(EncryptionType::from(Encryption::Gcm), EncryptionType::Gcm);
    assert_eq!(EncryptionType::from(Encryption::Custom), EncryptionType::Custom);
}

#[test]
fn publishable_needs_media_and_identifier() {
    assert!(camera().publishable());
    assert!(microphone().publishable());
    assert!(!TrackInfo { track_type: 2, ..camera() }.publishable());
    assert!(!TrackInfo { sid: "RM_room".to_string(), ..camera() }.publishable());
    assert!(!TrackInfo::default().publishable());
    assert!(TrackInfo { track_type: 50, ..camera() }.publishable());
}

#[test]
fn known_features_keep_their_order_and_unknown_ones_are_left_out() {
    assert_eq!(
        camera().decoded_audio_features(),
        vec![
            AudioTrackFeature::TfPreconnectBuffer,
            AudioTrackFeature::TfStereo,
            AudioTrackFeature::TfEchoCancellation,
        ]
    );
    assert_eq!(
        camera().decoded_packet_trailer_features(),
        vec![
            PacketTrailerFeature::PtfFrameId,
            PacketTrailerFeature::PtfUserTimestamp,
            PacketTrailerFeature::PtfUserData,
            PacketTrailerFeature::PtfUserData,
        ]
    );
    assert!(TrackInfo::default().decoded_audio_features().is_empty());
    let none = TrackInfo { packet_trailer_features: vec![3, 4], ..TrackInfo::default() };
    assert!(none.decoded_packet_trailer_features().is_empty());
}

#[test]
fn features_of_two_lists_follow_each_other() {
    let first = TrackInfo { audio_features: vec![6, 50], ..TrackInfo::default() };
    let second = TrackInfo { audio_features: vec![-2, 1], ..TrackInfo::default() };
    let both = TrackInfo { audio_features: vec![6, 50, -2, 1], ..TrackInfo::default() };
    let mut expected = first.decoded_audio_features();
    expected.extend(second.decoded_audio_features());
    assert_eq!(both.decoded_audio_features(), expected);
}

#[test]
fn clone_of_a_description_says_the_same() {
    let info = TrackInfo { layers: vec![layer("a")], stereo: true, ..camera() };
    assert_eq!(info.clone(), info);
}

#[test]
fn simulcast_of_current_servers_is_in_the_codecs() {
    let plain = TrackInfo::default();
    assert!(!is_simulcasted(&plain));
    assert!(is_simulcasted(&camera()));
    let single = TrackInfo { codecs: vec![codec(vec![layer("f")])], ..TrackInfo::default() };
    assert!(!is_simulcasted(&single));
    let single_codecs = TrackInfo {
        codecs: vec![codec(vec![layer("f")]), codec(vec![layer("f")]), codec(vec![])],
        ..TrackInfo::default()
    };
    assert!(!is_simulcasted(&single_codecs));
    let backup = TrackInfo {
        codecs: vec![codec(vec![layer("f")]), codec(vec![layer("h"), layer("f")])],
        ..TrackInfo::default()
    };
    assert!(is_simulcasted(&backup));
}

#[test]
fn simulcast_of_older_servers_is_in_the_deprecated_fields() {
    let flag = TrackInfo { simulcast: true, ..TrackInfo::default() };
    assert!(is_simulcasted(&flag));
    let one = TrackInfo { layers: vec![layer("f")], ..TrackInfo::default() };
    assert!(!is_simulcasted(&one));
    let two = TrackInfo { layers: vec![layer("h"), layer("f")], ..TrackInfo::default() };
    assert!(is_simulcasted(&two));
}

#[test]
fn new_information_follows_the_description() {
    let known = PublicationInfo::new(camera(), None);
    assert!(known.track.is_none());
    assert_eq!(known.name, "front");
    assert_eq!(known.sid.as_str(), "TR_camera");
    assert_eq!(known.kind, TrackKind::Video);
    assert_eq!(known.source, TrackSource::Camera);
    assert!(known.simulcasted);
    assert_eq!(known.dimension, TrackDimension(1280, 720));
    assert_eq!(known.mime_type, "video/H264");
    assert!(known.muted);
    assert_eq!(known.proto_info, camera());
    assert_eq!(known.encryption_type, EncryptionType::Gcm);
    assert_eq!(known.audio_features, camera().decoded_audio_features());
    assert_eq!(known.packet_trailer_features, camera().decoded_packet_trailer_features());
}

#[test]
fn update_takes_over_everything_but_the_mute() {
    let mut known = PublicationInfo::new(camera(), None);
    known.update(microphone());
    assert_eq!(known.name, "mic");
    assert_eq!(known.sid.as_str(), "TR_microphone");
    assert_eq!(known.kind, TrackKind::Audio);
    assert_eq!(known.source, TrackSource::Microphone);
    assert!(!known.simulcasted);
    assert_eq!(known.dimension, TrackDimension(0, 0));
    assert_eq!(known.mime_type, "audio/opus");
    assert!(known.muted);
    assert_eq!(known.proto_info, microphone());
    assert_eq!(known.encryption_type, EncryptionType::Custom);
    assert_eq!(known.audio_features, vec![AudioTrackFeature::TfNoiseSuppression]);
    assert!(known.packet_trailer_features.is_empty());
}

#[test]
fn last_update_counts() {
    let mut twice = PublicationInfo::new(microphone(), None);
    twice.update(TrackInfo { name: "other".to_string(), ..camera() });
    twice.update(camera());
    let mut once = PublicationInfo::new(microphone(), None);
    once.update(camera());
    assert_eq!(twice.name, once.name);
    assert_eq!(twice.sid, once.sid);
    assert_eq!(twice.proto_info, once.proto_info);
    assert!(!twice.muted);
    assert!(!once.muted);
}
