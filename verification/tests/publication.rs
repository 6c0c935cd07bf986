use std::sync::Arc;

use livekit_publication::handle::{
    RemoteTrack, Track, TrackPublication, TrackRef, WeakTrackPublication,
};
use livekit_publication::id::TrackSid;
use livekit_publication::media::{
    EncryptionType, PermissionStatus, SubscriptionStatus, TrackDimension, TrackKind, TrackSource,
};
use livekit_publication::proto::{AudioTrackFeature, PacketTrailerFeature, TrackInfo};
use livekit_publication::registry::Registry;

type Calls = Registry<&'static str>;

fn sid(text: &str) -> TrackSid {
    TrackSid::try_from(text.to_string()).unwrap()
}

fn described(text: &str) -> TrackInfo {
    TrackInfo { sid: text.to_string(), track_type: 1, ..TrackInfo::default() }
}

fn local(registry: &mut Calls, text: &str) -> TrackPublication {
    registry.new_inner(false, described(text), None)
}

fn remote(registry: &mut Calls, text: &str) -> TrackPublication {
    registry.new_inner(true, described(text), None)
}

#[test]
fn statuses_differ() {
    assert_ne!(SubscriptionStatus::Desired, SubscriptionStatus::Subscribed);
    assert_ne!(SubscriptionStatus::Subscribed, SubscriptionStatus::Unsubscribed);
    assert_ne!(PermissionStatus::Allowed, PermissionStatus::NotAllowed);
}

#[test]
fn getters_report_the_description() {
    let mut registry = Calls::new(1);
    let info = TrackInfo {
        name: "front".to_string(),
        source: 3,
        muted: true,
        width: 640,
        height: 480,
        simulcast: true,
        mime_type: "video/VP9".to_string(),
        encryption: 2,
        audio_features: vec![1, 8],
        packet_trailer_features: vec![9, 2],
        ..described("TR_a")
    };
    let p = registry.new_inner(false, info.clone(), None);
    assert_eq!(p.sid(&registry).as_str(), "TR_a");
    assert_eq!(p.name(&registry), "front");
    assert_eq!(p.kind(&registry), TrackKind::Video);
    assert_eq!(p.source(&registry), TrackSource::Screenshare);
    assert!(p.simulcasted(&registry));
    assert_eq!(p.dimension(&registry), TrackDimension(640, 480));
    assert_eq!(p.mime_type(&registry), "video/VP9");
    assert!(p.is_muted(&registry));
    assert!(!p.is_remote());
    assert_eq!(p.encryption_type(&registry), EncryptionType::Custom);
    assert_eq!(p.audio_features(&registry), vec![AudioTrackFeature::TfNoDtx]);
    assert_eq!(p.packet_trailer_features(&registry), vec![PacketTrailerFeature::PtfUserData]);
    assert_eq!(p.proto_info(&registry), info);
    assert!(p.muted_handler(&registry).is_none());
    assert!(p.unmuted_handler(&registry).is_none());
    let q = remote(&mut registry, "TR_b");
    assert!(q.is_remote());
    assert_ne!(q.which(), p.which());
}

#[test]
fn update_info_keeps_track_mute_and_callbacks() {
    let mut registry = Calls::new(1);
    let p = registry.new_inner(false, TrackInfo { muted: true, ..described("TR_a") }, None);
    let t = registry.add_track(false, sid("TR_t"));
    let which = t.which();
    p.on_muted(&mut registry, "muted");
    p.set_track(&mut registry, Some(t));
    let other = TrackInfo { name: "new".to_string(), ..described("TR_b") };
    p.update_info(&mut registry, other.clone());
    assert_eq!(p.sid(&registry).as_str(), "TR_b");
    assert_eq!(p.name(&registry), "new");
    assert!(p.is_muted(&registry));
    assert_eq!(p.proto_info(&registry), other);
    assert_eq!(p.muted_handler(&registry), Some(&"muted"));
    let t = p.track(&mut registry).unwrap();
    assert_eq!(t.which(), which);
    assert_eq!(registry.track_muted(&t).unwrap().which(), p.which());
    assert_eq!(registry.handle_count(&p), 2);
}

#[test]
fn set_track_is_read_back_and_gives_the_identifier() {
    let mut registry = Calls::new(1);
    let p = local(&mut registry, "TR_a");
    assert!(p.track(&mut registry).is_none());
    let t = registry.add_track(false, sid("TR_t"));
    let which = t.which();
    p.set_track(&mut registry, Some(t));
    assert_eq!(p.sid(&registry).as_str(), "TR_t");
    assert_eq!(p.track(&mut registry).unwrap().which(), which);
    p.set_track(&mut registry, None);
    assert!(p.track(&mut registry).is_none());
    assert_eq!(p.sid(&registry).as_str(), "TR_t");
}

#[test]
fn new_publication_with_a_track_keeps_its_own_identifier_and_is_not_told() {
    let mut registry = Calls::new(1);
    let t = registry.add_track(false, sid("TR_t"));
    let held = registry.clone_track(&t);
    let p = registry.new_inner(false, described("TR_a"), Some(t));
    p.on_muted(&mut registry, "muted");
    assert_eq!(p.sid(&registry).as_str(), "TR_a");
    assert_eq!(p.track(&mut registry).unwrap().which(), held.which());
    assert!(registry.listener(&held).is_none());
    assert!(registry.track_muted(&held).is_none());
}

#[test]
fn remote_publication_takes_remote_tracks() {
    let mut registry = Calls::new(1);
    let p = remote(&mut registry, "TR_a");
    let t = registry.add_track(true, sid("TR_t"));
    let which = t.which();
    p.set_track(&mut registry, Some(t));
    let t = p.track(&mut registry).unwrap();
    assert!(matches!(t, Track::Remote(_)));
    assert_eq!(t.which(), which);
    let t = RemoteTrack::try_from(t).unwrap();
    assert_eq!(t.into_track().which(), which);
    let l = registry.add_track(false, sid("TR_l"));
    let which = l.which();
    assert_eq!(which, TrackRef { home: 1, remote: false, key: which.key });
    assert_eq!(RemoteTrack::try_from(l).unwrap_err().which(), which);
}

#[test]
fn muting_calls_back_the_publication_with_its_callback() {
    let mut registry = Calls::new(1);
    let p = local(&mut registry, "TR_a");
    let t = registry.add_track(false, sid("TR_t"));
    let held = registry.clone_track(&t);
    p.set_track(&mut registry, Some(t));
    assert!(registry.track_muted(&held).is_none());
    p.on_muted(&mut registry, "first");
    p.on_muted(&mut registry, "muted");
    assert!(registry.track_unmuted(&held).is_none());
    let told = registry.track_muted(&held).unwrap();
    assert_eq!(told.which(), p.which());
    assert_eq!(told.muted_handler(&registry), Some(&"muted"));
    assert_eq!(registry.handle_count(&p), 2);
    assert!(registry.drop_publication(told).is_none());
    p.on_unmuted(&mut registry, "unmuted");
    let told = registry.track_unmuted(&held).unwrap();
    assert_eq!(told.unmuted_handler(&registry), Some(&"unmuted"));
    assert_eq!(told.muted_handler(&registry), Some(&"muted"));
}

#[test]
fn replaced_track_tells_nobody() {
    let mut registry = Calls::new(1);
    let p = local(&mut registry, "TR_a");
    p.on_muted(&mut registry, "muted");
    p.on_unmuted(&mut registry, "unmuted");
    let first = registry.add_track(false, sid("TR_1"));
    let second = registry.add_track(false, sid("TR_2"));
    let first_held = registry.clone_track(&first);
    let second_held = registry.clone_track(&second);
    p.set_track(&mut registry, Some(first));
    p.set_track(&mut registry, Some(second));
    assert!(registry.listener(&first_held).is_none());
    assert!(registry.track_muted(&first_held).is_none());
    assert!(registry.track_unmuted(&first_held).is_none());
    assert_eq!(registry.track_muted(&second_held).unwrap().which(), p.which());
    p.set_track(&mut registry, None);
    assert!(registry.track_muted(&second_held).is_none());
    assert!(registry.track_unmuted(&second_held).is_none());
}

#[test]
fn same_track_again_still_tells() {
    let mut registry = Calls::new(1);
    let p = local(&mut registry, "TR_a");
    p.on_muted(&mut registry, "muted");
    let t = registry.add_track(false, sid("TR_t"));
    p.set_track(&mut registry, Some(t));
    let again = p.track(&mut registry).unwrap();
    let held = p.track(&mut registry).unwrap();
    assert_eq!(registry.track_handle_count(&held), 2);
    p.set_track(&mut registry, Some(again));
    assert_eq!(registry.track_handle_count(&held), 1);
    assert_eq!(registry.track_muted(&held).unwrap().which(), p.which());
}

#[test]
fn track_of_two_publications_tells_the_later_one() {
    let mut registry = Calls::new(1);
    let p = local(&mut registry, "TR_a");
    let q = local(&mut registry, "TR_b");
    p.on_muted(&mut registry, "p");
    q.on_muted(&mut registry, "q");
    let t = registry.add_track(false, sid("TR_t"));
    let for_q = registry.clone_track(&t);
    let held = registry.clone_track(&t);
    p.set_track(&mut registry, Some(t));
    q.set_track(&mut registry, Some(for_q));
    assert_eq!(registry.track_muted(&held).unwrap().which(), q.which());
    p.set_track(&mut registry, None);
    assert!(registry.track_muted(&held).is_none());
    assert_eq!(q.track(&mut registry).unwrap().which(), held.which());
}

#[test]
fn weak_handle_leads_back_while_the_publication_lives() {
    let mut registry = Calls::new(1);
    let p = remote(&mut registry, "TR_a");
    let weak = p.downgrade();
    assert!(matches!(weak, WeakTrackPublication::Remote(_)));
    assert_eq!(weak.which(), p.which());
    let again = weak.upgrade(&mut registry).unwrap();
    assert!(matches!(again, TrackPublication::Remote(_)));
    assert_eq!(again.which(), p.which());
    assert_eq!(registry.handle_count(&p), 2);
    assert!(registry.drop_publication(p).is_none());
    assert!(registry.is_alive(&weak));
    assert!(registry.drop_publication(again).is_some());
    assert!(!registry.is_alive(&weak));
    assert!(weak.upgrade(&mut registry).is_none());
    let q = local(&mut registry, "TR_b");
    assert!(matches!(q.downgrade(), WeakTrackPublication::Local(_)));
    assert!(q.downgrade().upgrade(&mut registry).is_some());
}

#[test]
fn released_publication_stays_released() {
    let mut registry = Calls::new(1);
    let p = local(&mut registry, "TR_a");
    let weak = p.downgrade();
    registry.drop_publication(p);
    for _ in 0..10 {
        let q = local(&mut registry, "TR_a");
        assert!(weak.upgrade(&mut registry).is_none());
        assert_ne!(q.downgrade().which(), weak.which());
    }
    assert_eq!(registry.keys_given(), 11);
}

#[test]
fn track_does_not_keep_its_publication_alive() {
    let mut registry = Calls::new(1);
    let p = remote(&mut registry, "TR_a");
    p.on_muted(&mut registry, "muted");
    p.on_unmuted(&mut registry, "unmuted");
    let weak = p.downgrade();
    let t = registry.add_track(true, sid("TR_t"));
    let held = registry.clone_track(&t);
    p.set_track(&mut registry, Some(t));
    assert_eq!(registry.handle_count(&p), 1);
    let released = registry.drop_publication(p).unwrap();
    assert_eq!(released.sid.as_str(), "TR_t");
    assert!(released.has_track);
    assert!(weak.upgrade(&mut registry).is_none());
    assert_eq!(registry.listener(&held).unwrap().which(), weak.which());
    assert!(registry.track_muted(&held).is_none());
    assert!(registry.track_unmuted(&held).is_none());
    assert!(registry.is_track_held(&held));
}

#[test]
fn callbacks_stay_with_a_track_that_outlives_the_publication() {
    let mut registry: Registry<Arc<()>> = Registry::new(1);
    let callback = Arc::new(());
    let p = registry.new_inner(false, described("TR_a"), None);
    let t = registry.add_track(false, sid("TR_t"));
    let held = registry.clone_track(&t);
    p.on_muted(&mut registry, callback.clone());
    p.on_unmuted(&mut registry, callback.clone());
    p.set_track(&mut registry, Some(t));
    assert!(registry.drop_publication(p).is_some());
    assert_eq!(Arc::strong_count(&callback), 3);
    assert!(registry.track_muted(&held).is_none());
    assert!(registry.track_unmuted(&held).is_none());
    let q = registry.new_inner(false, described("TR_b"), None);
    let given = registry.clone_track(&held);
    q.set_track(&mut registry, Some(given));
    assert_eq!(Arc::strong_count(&callback), 1);
    assert_eq!(registry.listener(&held).unwrap().which(), q.which());
}

#[test]
fn last_holder_releases_the_track_and_what_it_keeps() {
    let mut registry: Registry<Arc<()>> = Registry::new(1);
    let callback = Arc::new(());
    let p = registry.new_inner(false, described("TR_a"), None);
    let t = registry.add_track(false, sid("TR_t"));
    let first = registry.clone_track(&t);
    let second = registry.clone_track(&t);
    p.on_muted(&mut registry, callback.clone());
    p.set_track(&mut registry, Some(t));
    assert!(registry.drop_publication(p).is_some());
    registry.drop_track(first);
    assert!(registry.is_track_held(&second));
    assert_eq!(Arc::strong_count(&callback), 2);
    registry.drop_track(second);
    assert_eq!(Arc::strong_count(&callback), 1);
}

#[test]
fn publication_and_track_are_released_together() {
    let mut registry: Registry<Arc<()>> = Registry::new(1);
    let callback = Arc::new(());
    let p = registry.new_inner(false, described("TR_a"), None);
    let t = registry.add_track(false, sid("TR_t"));
    p.on_muted(&mut registry, callback.clone());
    p.set_track(&mut registry, Some(t));
    let q = registry.clone_publication(&p);
    assert!(registry.drop_publication(q).is_none());
    assert_eq!(Arc::strong_count(&callback), 2);
    assert!(registry.drop_publication(p).unwrap().has_track);
    assert_eq!(Arc::strong_count(&callback), 1);
}

#[test]
fn track_of_another_publication_keeps_no_callbacks_of_this_one() {
    let mut registry: Registry<Arc<()>> = Registry::new(1);
    let callback = Arc::new(());
    let t = registry.add_track(false, sid("TR_t"));
    let held = registry.clone_track(&t);
    let p = registry.new_inner(false, described("TR_a"), Some(t));
    p.on_muted(&mut registry, callback.clone());
    assert!(registry.drop_publication(p).is_some());
    assert!(registry.is_track_held(&held));
    assert_eq!(Arc::strong_count(&callback), 1);
}

#[test]
fn handles_of_another_registry_are_refused() {
    let mut registry = Calls::new(1);
    let mut other = Calls::new(2);
    let p = local(&mut registry, "TR_a");
    let q = local(&mut other, "TR_a");
    assert_eq!(p.which().key, q.which().key);
    assert_ne!(p.which(), q.which());
    assert!(registry.is_alive(&p.downgrade()));
    assert!(!registry.is_alive(&q.downgrade()));
    assert!(q.downgrade().upgrade(&mut registry).is_none());
    assert_eq!(registry.handle_count(&p), 1);
    let t = registry.add_track(false, sid("TR_t"));
    let u = other.add_track(false, sid("TR_t"));
    assert!(registry.is_track_held(&t));
    assert!(!registry.is_track_held(&u));
    assert!(!registry.may_clone_track(&u));
    assert!(other.may_clone_track(&u));
}

#[test]
fn handles_on_one_publication_share_it() {
    let mut registry = Calls::new(1);
    let p = local(&mut registry, "TR_a");
    let q = p.downgrade().upgrade(&mut registry).unwrap();
    let r = registry.clone_publication(&p);
    let t = registry.add_track(false, sid("TR_t"));
    let which = t.which();
    q.set_track(&mut registry, Some(t));
    q.on_muted(&mut registry, "muted");
    assert_eq!(p.track(&mut registry).unwrap().which(), which);
    assert_eq!(r.track(&mut registry).unwrap().which(), which);
    assert_eq!(p.sid(&registry), r.sid(&registry));
    assert_eq!(p.muted_handler(&registry), Some(&"muted"));
}

#[test]
fn set_track_leaves_other_tracks_and_publications_alone() {
    let mut registry = Calls::new(1);
    let p = local(&mut registry, "TR_a");
    let q = local(&mut registry, "TR_b");
    q.on_muted(&mut registry, "q");
    let other = registry.add_track(false, sid("TR_o"));
    let held = registry.clone_track(&other);
    q.set_track(&mut registry, Some(other));
    let t = registry.add_track(false, sid("TR_t"));
    p.set_track(&mut registry, Some(t));
    p.set_track(&mut registry, None);
    assert_eq!(registry.track_handle_count(&held), 1);
    assert_eq!(registry.track_muted(&held).unwrap().which(), q.which());
    assert_eq!(q.sid(&registry).as_str(), "TR_o");
    assert_eq!(q.track(&mut registry).unwrap().which(), held.which());
}

#[test]
fn publication_keeps_its_track_alive() {
    let mut registry = Calls::new(1);
    let p = local(&mut registry, "TR_a");
    let t = registry.add_track(false, sid("TR_t"));
    let held = registry.clone_track(&t);
    let which = held.which();
    p.set_track(&mut registry, Some(t));
    registry.drop_track(held);
    let back = p.track(&mut registry).unwrap();
    assert_eq!(back.which(), which);
    assert_eq!(registry.track_handle_count(&back), 1);
}

#[test]
fn drop_undoes_clone() {
    let mut registry = Calls::new(1);
    let p = local(&mut registry, "TR_a");
    let t = registry.add_track(false, sid("TR_t"));
    let q = registry.clone_publication(&p);
    assert_eq!(q.which(), p.which());
    assert_eq!(registry.handle_count(&p), 2);
    assert!(registry.drop_publication(q).is_none());
    assert_eq!(registry.handle_count(&p), 1);
    let u = registry.clone_track(&t);
    assert_eq!(registry.track_handle_count(&t), 2);
    registry.drop_track(u);
    assert_eq!(registry.track_handle_count(&t), 1);
    assert!(registry.may_clone(&p.downgrade()));
    assert!(p.may_clone_track(&registry));
}

#[test]
fn release_is_noted_for_the_leak_probe() {
    let mut registry = Calls::new(1);
    let p = local(&mut registry, "TR_a");
    let q = registry.clone_publication(&p);
    assert!(registry.drop_publication(q).is_none());
    let released = registry.drop_publication(p).unwrap();
    assert!(!released.has_track);
    assert_eq!(
        released.probe_line(),
        "LK_LEAK_PROBE TrackPublicationInner::drop sid=TR_a has_track=false"
    );
    let t = registry.add_track(true, sid("TR_t"));
    let r = registry.new_inner(true, described("TR_b"), Some(t));
    assert_eq!(
        registry.drop_publication(r).unwrap().probe_line(),
        "LK_LEAK_PROBE TrackPublicationInner::drop sid=TR_b has_track=true"
    );
}

#[test]
fn side_handles_set_and_report_tracks() {
    let mut registry = Calls::new(1);
    let t = registry.add_track(true, sid("TR_t"));
    let which = t.which();
    match remote(&mut registry, "TR_a") {
        TrackPublication::Remote(p) => {
            let t = RemoteTrack::try_from(t).unwrap();
            p.set_track(&mut registry, Some(t));
            assert_eq!(p.track(&mut registry).unwrap().into_track().which(), which);
            p.set_track(&mut registry, None);
            assert!(p.track(&mut registry).is_none());
            assert_eq!(WeakTrackPublication::Remote(p.downgrade()).which().key, 1);
        }
        TrackPublication::Local(_) => panic!("not a remote publication"),
    }
    let l = registry.add_track(false, sid("TR_l"));
    let which = l.which();
    match local(&mut registry, "TR_b") {
        TrackPublication::Local(p) => {
            p.set_track(&mut registry, Some(l));
            let back = p.track(&mut registry).unwrap();
            assert_eq!(back.which(), which);
            assert!(matches!(back, Track::Local(_)));
        }
        TrackPublication::Remote(_) => panic!("not a local publication"),
    }
}
