use streamhub::auth::{basic_auth_accepts, check_credentials};
use streamhub::config::{canonical_stream_name, delete_stream_entry, save_stream_entry, stream_path, Config, StreamEditError, Streams};
use streamhub::define::{BroadcastEvent, FrameData, PacketData, PubDataType};
use streamhub::errors::{StreamHubError, StreamHubErrorValue};
use streamhub::relay::{HlsRemuxer, PullClient, PushClient, RtmpRemuxer};
use streamhub::route::{route, HttpRoute};
use streamhub::session::SessionId;
use streamhub::stream::{has_app_part, split_stream_name, Protocol};

fn entry(name: &str, max_sessions: Option<usize>) -> Streams {
    Streams { name: name.to_string(), disabled: None, max_bitrate: None, on_publish_url: None, max_sessions }
}

#[test]
fn config_new_with_ports() {
    let c = Config::new(vec![1935], vec![8080, 8081], "info".to_string());
    let rtmp = c.rtmp.as_ref().unwrap();
    assert!(rtmp.enabled);
    assert_eq!(rtmp.port, vec![1935]);
    assert!(rtmp.pull.is_none() && rtmp.push.is_none() && rtmp.auth.is_none() && rtmp.gop_num.is_none());
    let http = c.http.as_ref().unwrap();
    assert_eq!(http.port, vec![8080, 8081]);
    assert!(!http.need_record);
    let streams = c.streams.as_ref().unwrap();
    assert_eq!(streams.len(), 1);
    assert_eq!(streams[0].name, "live/live");
    assert_eq!(streams[0].disabled, Some(false));
    assert_eq!(c.log.as_ref().unwrap().level, "info");
    assert!(c.api.is_none() && c.httpnotify.is_none());
    assert_eq!(c.edit_auth.username, "");
    assert_eq!(c.authsecret.key, "");
}

#[test]
fn config_new_without_ports() {
    let c = Config::new(Vec::new(), Vec::new(), "warn".to_string());
    assert!(c.rtmp.is_none());
    assert!(c.http.is_none());
}

#[test]
fn bare_stream_names_go_under_static() {
    assert_eq!(canonical_stream_name("cam1"), "static/cam1");
    assert_eq!(canonical_stream_name("live/cam1"), "live/cam1");
    assert_eq!(stream_path("live", "cam1"), "live/cam1");
}

#[test]
fn saving_an_entry_adds_then_replaces() {
    let mut c = Config::new(vec![1935], Vec::new(), "info".to_string());
    save_stream_entry(&mut c, entry("cam1", Some(3)));
    save_stream_entry(&mut c, entry("static/cam1", Some(8)));
    let streams = c.streams.as_ref().unwrap();
    assert_eq!(streams.len(), 2);
    assert_eq!(streams[1].name, "static/cam1");
    assert_eq!(streams[1].max_sessions, Some(8));
    let mut empty = Config::new(Vec::new(), Vec::new(), "info".to_string());
    empty.streams = None;
    save_stream_entry(&mut empty, entry("a/b", None));
    assert_eq!(empty.streams.as_ref().unwrap().len(), 1);
}

#[test]
fn deleting_entries() {
    let mut c = Config::new(vec![1935], Vec::new(), "info".to_string());
    save_stream_entry(&mut c, entry("cam1", None));
    assert_eq!(delete_stream_entry(&mut c, "cam2"), Err(StreamEditError::NotFound));
    assert_eq!(c.streams.as_ref().unwrap().len(), 2);
    assert_eq!(delete_stream_entry(&mut c, "cam1"), Ok(()));
    assert_eq!(c.streams.as_ref().unwrap().len(), 1);
    assert_eq!(c.streams.as_ref().unwrap()[0].name, "live/live");
    c.streams = None;
    assert_eq!(delete_stream_entry(&mut c, "live/live"), Err(StreamEditError::NoStreams));
}

#[test]
fn basic_auth_accepts_matching_credentials() {
    // "user:pass" in standard base64
    assert!(basic_auth_accepts(b"Basic dXNlcjpwYXNz", "user", "pass"));
    assert!(!basic_auth_accepts(b"Basic dXNlcjpwYXNz", "user", "other"));
    assert!(!basic_auth_accepts(b"Basic dXNlcjpwYXNz", "usr", "pass"));
    assert!(!basic_auth_accepts(b"Bearer dXNlcjpwYXNz", "user", "pass"));
    assert!(!basic_auth_accepts(b"Basic !!!", "user", "pass"));
    assert!(!basic_auth_accepts(b"Basic", "user", "pass"));
    // "user:pass" itself, not encoded
    assert!(!basic_auth_accepts(b"Basic user:pass", "user", "pass"));
    // "admin" with no colon: the password is empty
    assert!(basic_auth_accepts(b"Basic YWRtaW4=", "admin", ""));
}

#[test]
fn credentials_split_at_first_colon() {
    assert!(check_credentials(b"a:b:c", "a", "b:c"));
    assert!(!check_credentials(b"a:b:c", "a:b", "c"));
    assert!(check_credentials(b"a", "a", ""));
    assert!(check_credentials(b":", "", ""));
}

#[test]
fn session_ids_read_from_hex() {
    let id = SessionId::from_str2("0000000000000000000000000000002a").unwrap();
    assert_eq!(id.value, 42);
    let id = SessionId::from_str2("FFFFFFFFFFFFFFFFFFFFFFFFFFFFFFFF").unwrap();
    assert_eq!(id.value, u128::MAX);
    assert!(SessionId::from_str2("2a").is_none());
    assert!(SessionId::from_str2("0000000000000000000000000000002g").is_none());
    assert!(SessionId::from_str2("").is_none());
}

#[test]
fn session_ids_read_from_uuid_layout() {
    let id = SessionId::from_str2("00000000-0000-0000-0000-00000000002A").unwrap();
    assert_eq!(id.value, 42);
    let id = SessionId::from_str2("67e55044-10b1-426f-9247-bb680e5fe0c8").unwrap();
    assert_eq!(id.value, 0x67e5504410b1426f9247bb680e5fe0c8);
    assert!(SessionId::from_str2("67e55044-10b1-426f-9247-bb680e5fe0cz").is_none());
    assert!(SessionId::from_str2("67e5504410b1-426f-9247-bb680e5fe0c8").is_none());
}

#[test]
fn stream_names_split_into_app_and_stream() {
    assert_eq!(split_stream_name("live/test"), ("live".to_string(), "test".to_string()));
    assert_eq!(split_stream_name("live"), ("live".to_string(), String::new()));
    assert_eq!(split_stream_name("a/b/c"), ("a".to_string(), "b".to_string()));
    assert!(has_app_part("a/b"));
    assert!(!has_app_part("ab"));
}

#[test]
fn relays_pick_their_streams() {
    let push = PushClient::new("remote:1935".to_string(), 0u8, 0u8);
    assert_eq!(push.address, "remote:1935");
    let published = BroadcastEvent::Publish { protocol: Protocol::Rtmp, name: "live/a".to_string() };
    let wanted = BroadcastEvent::Subscribe { protocol: Protocol::Rtmp, name: "live/b".to_string() };
    let other = BroadcastEvent::Publish { protocol: Protocol::WebRTC, name: "live/c".to_string() };
    assert_eq!(push.target(&published), Some(("live".to_string(), "a".to_string())));
    assert_eq!(push.target(&wanted), None);
    assert_eq!(push.target(&other), None);
    let pull = PullClient::new("remote:1935".to_string(), 0u8, 0u8);
    assert_eq!(pull.target(&wanted), Some(("live".to_string(), "b".to_string())));
    assert_eq!(pull.target(&published), None);
    let hls = HlsRemuxer::new(0u8, 0u8, true);
    assert!(hls.need_record);
    assert_eq!(hls.target(&published), Some(("live".to_string(), "a".to_string())));
    let remuxer = RtmpRemuxer::new(1u8, 2u8);
    assert_eq!((remuxer.receiver, remuxer.event_producer), (1, 2));
}

#[test]
fn http_paths_route() {
    match route("/live/test.m3u8") {
        HttpRoute::Playlist { app_name, stream_name } => assert_eq!((app_name.as_str(), stream_name.as_str()), ("live", "test")),
        other => panic!("unexpected {:?}", other),
    }
    let seg = route("/live/test/seg7.ts");
    assert_eq!(seg.file_path(), "./live/test/seg7.ts");
    match seg {
        HttpRoute::Segment { ts_name, .. } => assert_eq!(ts_name, "seg7"),
        other => panic!("unexpected {:?}", other),
    }
    assert_eq!(route("/live/test.m3u8").file_path(), "./live/test/index.m3u8");
    assert!(matches!(route("/live/test.flv"), HttpRoute::Flv { .. }));
    assert!(matches!(route("/x.m3u8"), HttpRoute::NotFound));
    assert!(matches!(route(".flv"), HttpRoute::NotFound));
    assert!(matches!(route("/live/test.mp4"), HttpRoute::NotFound));
    assert_eq!(route("/live/test.flv").file_path(), "");
}

#[test]
fn error_messages_and_frame_kinds() {
    assert_eq!(StreamHubError::new(StreamHubErrorValue::Exists).message(), "stream exists");
    assert_eq!(StreamHubError::new(StreamHubErrorValue::NoSession).message(), "no session");
    assert_eq!(FrameData::MetaData { timestamp: 0, data: vec![] }.send_error(), StreamHubErrorValue::SendVideoError);
    assert_eq!(FrameData::Audio { timestamp: 0, data: vec![] }.send_error(), StreamHubErrorValue::SendAudioError);
    assert_eq!(FrameData::MediaInfo { media_info: vec![] }.send_error(), StreamHubErrorValue::SendVideoError);
    assert_eq!(PacketData::Video { timestamp: 0, data: vec![] }.send_error(), StreamHubErrorValue::SendVideoError);
    assert!(PubDataType::Both.has_frames() && PubDataType::Both.has_packets());
    assert!(!PubDataType::Packet.has_frames());
    assert!(!PubDataType::Frame.has_packets());
}
