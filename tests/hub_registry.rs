use streamhub::define::{PubDataType, PublishType, SubDataType, SubscribeType, SubscriberInfo, PublisherInfo};
use streamhub::errors::StreamHubErrorValue;
use streamhub::hub::{StreamsHub, TeardownEvent};
use streamhub::session::SessionId;
use streamhub::stream::{Protocol, StreamKey};
use streamhub::transceiver::{DataSender, StreamDataTransceiver};

fn publisher(id: u128) -> PublisherInfo {
    PublisherInfo { id: SessionId { value: id }, pub_type: PublishType::PushRtmp, pub_data_type: PubDataType::Frame }
}

fn player(id: u128) -> SubscriberInfo {
    SubscriberInfo { id: SessionId { value: id }, sub_type: SubscribeType::PlayerRtmp, sub_data_type: SubDataType::Frame }
}

fn name(s: &str) -> String {
    s.to_string()
}

#[test]
fn publish_twice_fails_with_exists() {
    let mut hub: StreamsHub<u32> = StreamsHub::new();
    assert_eq!(hub.publish(Protocol::Rtmp, name("live/a"), publisher(1), 10), Ok(false));
    let second = hub.publish(Protocol::Rtmp, name("live/a"), publisher(2), 11);
    assert_eq!(second.unwrap_err().value, StreamHubErrorValue::Exists);
    assert_eq!(hub.stream_count(), 1);
    assert_eq!(*hub.handle_at(0), 10);
}

#[test]
fn publish_again_after_unpublish_succeeds() {
    let mut hub: StreamsHub<u32> = StreamsHub::new();
    assert!(hub.publish(Protocol::Rtmp, name("live/a"), publisher(1), 10).is_ok());
    assert_eq!(hub.unpublish(Protocol::Rtmp, name("live/a")), Ok(10));
    assert_eq!(hub.stream_count(), 0);
    assert!(hub.publish(Protocol::Rtmp, name("live/a"), publisher(3), 12).is_ok());
    assert_eq!(*hub.handle_at(0), 12);
}

#[test]
fn same_name_under_other_protocol_is_another_stream() {
    let mut hub: StreamsHub<u32> = StreamsHub::new();
    assert!(hub.publish(Protocol::Rtmp, name("live/a"), publisher(1), 10).is_ok());
    assert!(hub.publish(Protocol::WebRTC, name("live/a"), publisher(2), 11).is_ok());
    assert_eq!(hub.stream_count(), 2);
}

#[test]
fn unpublish_unknown_key_fails_with_no_app_name() {
    let mut hub: StreamsHub<u32> = StreamsHub::new();
    let r = hub.unpublish(Protocol::Rtmp, name("live/none"));
    assert_eq!(r.unwrap_err().value, StreamHubErrorValue::NoAppName);
}

#[test]
fn publish_is_announced_only_when_a_consumer_is_enabled() {
    let mut hub: StreamsHub<u32> = StreamsHub::new();
    hub.set_rtmp_push_enabled(true);
    assert_eq!(hub.publish(Protocol::Rtmp, name("live/a"), publisher(1), 1), Ok(true));
    let mut hub2: StreamsHub<u32> = StreamsHub::new();
    hub2.set_hls_enabled(true);
    assert_eq!(hub2.publish(Protocol::Rtmp, name("live/a"), publisher(1), 1), Ok(true));
    let mut hub3: StreamsHub<u32> = StreamsHub::new();
    hub3.set_rtmp_remuxer_enabled(true);
    assert_eq!(hub3.publish(Protocol::Rtmp, name("live/a"), publisher(1), 1), Ok(true));
    let mut hub4: StreamsHub<u32> = StreamsHub::new();
    hub4.set_rtmp_pull_enabled(true);
    assert_eq!(hub4.publish(Protocol::Rtmp, name("live/a"), publisher(1), 1), Ok(false));
}

#[test]
fn subscribe_to_missing_stream_without_pull() {
    let mut hub: StreamsHub<u32> = StreamsHub::new();
    let r = hub.subscribe(Protocol::Rtmp, name("live/x"), player(5));
    assert_eq!(r.unwrap_err().value, StreamHubErrorValue::NoAppOrStreamName);
}

#[test]
fn subscribe_to_missing_stream_with_pull_asks_relays() {
    let mut hub: StreamsHub<u32> = StreamsHub::new();
    hub.set_rtmp_pull_enabled(true);
    let r = hub.subscribe(Protocol::Rtmp, name("live/x"), player(5));
    assert_eq!(r.unwrap_err().value, StreamHubErrorValue::NoAppName);
}

#[test]
fn subscribe_routes_to_the_live_stream() {
    let mut hub: StreamsHub<u32> = StreamsHub::new();
    assert!(hub.publish(Protocol::Rtmp, name("live/a"), publisher(1), 10).is_ok());
    assert!(hub.publish(Protocol::Rtmp, name("live/b"), publisher(2), 20).is_ok());
    let i = hub.subscribe(Protocol::Rtmp, name("live/b"), player(5)).unwrap();
    assert_eq!(*hub.handle_at(i), 20);
    assert_eq!(hub.key_at(i).name, "live/b");
}

#[test]
fn unsubscribe_from_missing_stream_fails() {
    let mut hub: StreamsHub<u32> = StreamsHub::new();
    let r = hub.unsubscribe(Protocol::Rtmp, name("live/x"), player(5));
    assert_eq!(r.unwrap_err().value, StreamHubErrorValue::NoAppName);
}

#[test]
fn kick_unknown_session_fails_with_no_session() {
    let hub: StreamsHub<u32> = StreamsHub::new();
    let r = hub.api_kick_off_client(SessionId { value: 77 });
    assert_eq!(r.unwrap_err().value, StreamHubErrorValue::NoSession);
}

#[test]
fn kick_publisher_twice_tears_down_once() {
    let mut hub: StreamsHub<u32> = StreamsHub::new();
    assert!(hub.publish(Protocol::Rtmp, name("live/a"), publisher(1), 10).is_ok());
    let first = hub.api_kick_off_client(SessionId { value: 1 }).unwrap();
    let second = hub.api_kick_off_client(SessionId { value: 1 }).unwrap();
    for ev in [first, second] {
        if let TeardownEvent::UnPublish { key, info } = ev {
            let _ = (hub.unpublish(key.protocol, key.name), info);
        } else {
            panic!("a publisher's teardown is an unpublish");
        }
    }
    assert_eq!(hub.stream_count(), 0);
    let third = hub.api_kick_off_client(SessionId { value: 1 });
    assert_eq!(third.unwrap_err().value, StreamHubErrorValue::NoSession);
}

#[test]
fn kick_subscriber_replays_its_unsubscribe() {
    let mut hub: StreamsHub<u32> = StreamsHub::new();
    assert!(hub.publish(Protocol::Rtmp, name("live/a"), publisher(1), 10).is_ok());
    assert!(hub.subscribe(Protocol::Rtmp, name("live/a"), player(5)).is_ok());
    match hub.api_kick_off_client(SessionId { value: 5 }).unwrap() {
        TeardownEvent::UnSubscribe { key, info } => {
            assert_eq!(key.name, "live/a");
            assert_eq!(info.id, SessionId { value: 5 });
            assert!(hub.unsubscribe(key.protocol, key.name, info).is_ok());
        },
        _ => panic!("a subscriber's teardown is an unsubscribe"),
    }
    assert_eq!(hub.api_kick_off_client(SessionId { value: 5 }).unwrap_err().value, StreamHubErrorValue::NoSession);
    assert_eq!(hub.stream_count(), 1);
}

#[test]
fn statistics_query_without_streams_is_empty() {
    let hub: StreamsHub<u32> = StreamsHub::new();
    assert!(hub.api_statistic_targets(None).is_empty());
    let key = StreamKey::new(Protocol::Rtmp, name("live/a"));
    assert!(hub.api_statistic_targets(Some(&key)).is_empty());
}

#[test]
fn statistics_query_targets_all_or_one() {
    let mut hub: StreamsHub<u32> = StreamsHub::new();
    assert!(hub.publish(Protocol::Rtmp, name("live/a"), publisher(1), 10).is_ok());
    assert!(hub.publish(Protocol::Rtmp, name("live/b"), publisher(2), 20).is_ok());
    assert_eq!(hub.api_statistic_targets(None), vec![0, 1]);
    let key = StreamKey::new(Protocol::Rtmp, name("live/b"));
    assert_eq!(hub.api_statistic_targets(Some(&key)), vec![1]);
    let missing = StreamKey::new(Protocol::Rtmp, name("live/c"));
    assert!(hub.api_statistic_targets(Some(&missing)).is_empty());
}

#[test]
fn request_finds_live_stream_only() {
    let mut hub: StreamsHub<u32> = StreamsHub::new();
    assert!(hub.publish(Protocol::Rtmp, name("live/a"), publisher(1), 10).is_ok());
    assert_eq!(hub.request(Protocol::Rtmp, name("live/a")), Some(0));
    assert_eq!(hub.request(Protocol::Rtmp, name("live/b")), None);
}

#[test]
fn end_to_end_publish_subscribe_query_unpublish() {
    let mut hub: StreamsHub<u32> = StreamsHub::new();
    let key = StreamKey::new(Protocol::Rtmp, name("live/a"));
    let mut streams: Vec<StreamDataTransceiver<u32, u32>> = Vec::new();
    assert!(hub.publish(Protocol::Rtmp, name("live/a"), publisher(1), 0).is_ok());
    streams.push(StreamDataTransceiver::new(key.clone(), PubDataType::Frame));

    for id in [11u128, 12u128] {
        let i = hub.subscribe(Protocol::Rtmp, name("live/a"), player(id)).unwrap();
        let t = *hub.handle_at(i) as usize;
        streams[t].subscribe(player(id), DataSender::Frame { sender: id as u32 });
    }
    let targets = hub.api_statistic_targets(Some(&key));
    assert_eq!(targets.len(), 1);
    let t = *hub.handle_at(targets[0]) as usize;
    assert_eq!(streams[t].query(None).subscriber_count, 2);

    let i = hub.unsubscribe(Protocol::Rtmp, name("live/a"), player(11)).unwrap();
    let t = *hub.handle_at(i) as usize;
    assert!(streams[t].unsubscribe(player(11)));
    assert_eq!(streams[t].query(None).subscriber_count, 1);

    assert_eq!(hub.unpublish(Protocol::Rtmp, name("live/a")), Ok(0));
    let r = hub.subscribe(Protocol::Rtmp, name("live/a"), player(13));
    assert_eq!(r.unwrap_err().value, StreamHubErrorValue::NoAppOrStreamName);
    hub.set_rtmp_pull_enabled(true);
    let r = hub.subscribe(Protocol::Rtmp, name("live/a"), player(13));
    assert_eq!(r.unwrap_err().value, StreamHubErrorValue::NoAppName);
}

#[test]
fn failed_unsubscribe_keeps_kick_record() {
    let mut hub: StreamsHub<u32> = StreamsHub::new();
    assert!(hub.publish(Protocol::Rtmp, name("live/a"), publisher(1), 10).is_ok());
    assert!(hub.subscribe(Protocol::Rtmp, name("live/a"), player(5)).is_ok());
    let r = hub.unsubscribe(Protocol::Rtmp, name("live/b"), player(5));
    assert_eq!(r.unwrap_err().value, StreamHubErrorValue::NoAppName);
    assert!(hub.api_kick_off_client(SessionId { value: 5 }).is_ok());
}

#[test]
fn failed_unpublish_keeps_kick_record() {
    let mut hub: StreamsHub<u32> = StreamsHub::new();
    assert!(hub.publish(Protocol::Rtmp, name("live/a"), publisher(1), 10).is_ok());
    assert!(hub.unpublish(Protocol::Rtmp, name("live/b")).is_err());
    assert_eq!(hub.stream_count(), 1);
    assert!(hub.api_kick_off_client(SessionId { value: 1 }).is_ok());
}

#[test]
fn unsubscribe_from_other_stream_keeps_record() {
    let mut hub: StreamsHub<u32> = StreamsHub::new();
    assert!(hub.publish(Protocol::Rtmp, name("live/a"), publisher(1), 10).is_ok());
    assert!(hub.publish(Protocol::Rtmp, name("live/b"), publisher(2), 20).is_ok());
    assert!(hub.subscribe(Protocol::Rtmp, name("live/a"), player(5)).is_ok());
    assert!(hub.unsubscribe(Protocol::Rtmp, name("live/b"), player(5)).is_ok());
    assert!(hub.api_kick_off_client(SessionId { value: 5 }).is_ok());
}

#[test]
fn unpublish_drops_the_records_of_its_sessions() {
    let mut hub: StreamsHub<u32> = StreamsHub::new();
    assert!(hub.publish(Protocol::Rtmp, name("live/a"), publisher(1), 10).is_ok());
    assert!(hub.publish(Protocol::Rtmp, name("live/b"), publisher(2), 20).is_ok());
    assert!(hub.subscribe(Protocol::Rtmp, name("live/a"), player(5)).is_ok());
    assert!(hub.subscribe(Protocol::Rtmp, name("live/b"), player(6)).is_ok());
    assert_eq!(hub.unpublish(Protocol::Rtmp, name("live/a")), Ok(10));
    assert_eq!(hub.api_kick_off_client(SessionId { value: 1 }).unwrap_err().value, StreamHubErrorValue::NoSession);
    assert_eq!(hub.api_kick_off_client(SessionId { value: 5 }).unwrap_err().value, StreamHubErrorValue::NoSession);
    assert!(hub.api_kick_off_client(SessionId { value: 2 }).is_ok());
    assert!(hub.api_kick_off_client(SessionId { value: 6 }).is_ok());
}
