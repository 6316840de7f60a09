use streamhub::define::{PubDataType, SubDataType, SubscribeType, SubscriberInfo};
use streamhub::ranking::{select_top, sort_by_subscriber_count};
use streamhub::session::SessionId;
use streamhub::statistics::{StatisticData, StatisticsStream};
use streamhub::stream::{Protocol, StreamKey};
use streamhub::transceiver::{ControlAction, ControlEvent, DataSender, StreamDataTransceiver};

fn key(name: &str) -> StreamKey {
    StreamKey::new(Protocol::Rtmp, name.to_string())
}

fn video(uuid: Option<u128>, size: usize, key_frame: Option<bool>) -> StatisticData {
    StatisticData::Video {
        uuid: uuid.map(|v| SessionId { value: v }),
        data_size: size,
        frame_count: 1,
        is_key_frame: key_frame,
        duration: 0,
    }
}

fn with_subscribers(name: &str, n: u128) -> StatisticsStream {
    let mut s = StatisticsStream::new(key(name));
    for id in 0..n {
        s.enroll(SessionId { value: id + 1 }, SubscribeType::PlayerRtmp);
    }
    s
}

#[test]
fn gop_scenario_follows_accumulate_reset_rule() {
    let mut s = StatisticsStream::new(key("live/a"));
    let flags = [false, false, false, true, false, false, true];
    let mut gops = Vec::new();
    for f in flags {
        s.apply(video(None, 100, Some(f)));
        gops.push(s.publisher.video.gop);
    }
    // The first key frame closes a group of the three frames before it; the second
    // closes the group that began with the first key frame: that key frame and the
    // two frames after it.
    assert_eq!(gops, vec![0, 0, 0, 3, 3, 3, 3]);
    assert_eq!(s.publisher.video.recv_frame_count_for_gop, 1);
    assert_eq!(s.publisher.video.recv_frame_count, 7);
    assert_eq!(s.total_recv_bytes, 700);
    assert_eq!(s.publisher.recv_bytes, 700);
}

#[test]
fn frames_without_key_flag_leave_gop_alone() {
    let mut s = StatisticsStream::new(key("live/a"));
    s.apply(video(None, 10, None));
    assert_eq!(s.publisher.video.recv_frame_count_for_gop, 0);
    assert_eq!(s.publisher.video.recv_frame_count, 1);
}

#[test]
fn audio_raw_and_header_bytes() {
    let mut s = StatisticsStream::new(key("live/a"));
    s.apply(StatisticData::Audio { uuid: None, data_size: 40, aac_packet_type: 1, duration: 0 });
    s.apply(StatisticData::Audio { uuid: None, data_size: 7, aac_packet_type: 0, duration: 0 });
    assert_eq!(s.publisher.audio.recv_bytes, 40);
    assert_eq!(s.total_recv_bytes, 47);
}

#[test]
fn subscriber_bytes_are_counted() {
    let mut s = with_subscribers("live/a", 1);
    s.apply(video(Some(1), 300, None));
    s.apply(StatisticData::Audio { uuid: Some(SessionId { value: 1 }), data_size: 20, aac_packet_type: 1, duration: 0 });
    s.apply(video(Some(99), 5, None));
    assert_eq!(s.subscribers[0].send_bytes, 320);
    assert_eq!(s.subscribers[0].total_send_bytes, 320);
    assert_eq!(s.total_send_bytes, 325);
}

#[test]
fn totals_saturate_instead_of_wrapping() {
    let mut s = StatisticsStream::new(key("live/a"));
    s.apply(video(None, usize::MAX - 1, None));
    s.apply(video(None, 10, None));
    assert_eq!(s.total_recv_bytes, usize::MAX);
}

#[test]
fn codec_and_publisher_details_are_recorded() {
    let mut s = StatisticsStream::new(key("live/a"));
    s.apply(StatisticData::VideoCodec { codec: 7, profile: 100, level: 31, width: 1280, height: 720 });
    s.apply(StatisticData::AudioCodec { sound_format: 10, profile: 1, sample_rate: 44100, channels: 2 });
    s.apply(StatisticData::Publisher { id: SessionId { value: 9 }, remote_addr: "10.0.0.1:5000".to_string(), start_time: 1234 });
    assert_eq!((s.publisher.video.codec, s.publisher.video.width, s.publisher.video.height), (7, 1280, 720));
    assert_eq!((s.publisher.audio.sample_rate, s.publisher.audio.channels), (44100, 2));
    assert_eq!(s.publisher.id, SessionId { value: 9 });
    assert_eq!(s.publisher.remote_address, "10.0.0.1:5000");
    assert_eq!(s.publisher.start_time, 1234);
}

#[test]
fn subscriber_report_updates_one_record() {
    let mut s = with_subscribers("live/a", 1);
    s.apply(StatisticData::Subscriber {
        id: SessionId { value: 1 },
        remote_addr: "1.2.3.4:80".to_string(),
        sub_type: SubscribeType::PlayerHttpFlv,
        start_time: 5,
    });
    assert_eq!(s.subscribers.len(), 1);
    assert_eq!(s.subscriber_count, 1);
    assert_eq!(s.subscribers[0].remote_address, "1.2.3.4:80");
    s.apply(StatisticData::Subscriber {
        id: SessionId { value: 2 },
        remote_addr: "5.6.7.8:80".to_string(),
        sub_type: SubscribeType::PlayerHls,
        start_time: 6,
    });
    assert_eq!(s.subscriber_count, 2);
}

#[test]
fn window_rates_and_reset() {
    let mut s = with_subscribers("live/a", 1);
    s.apply(StatisticData::Video { uuid: None, data_size: 625_000, frame_count: 150, is_key_frame: None, duration: 0 });
    s.apply(StatisticData::Audio { uuid: None, data_size: 62_500, aac_packet_type: 1, duration: 0 });
    s.apply(video(Some(1), 1_250_000, None));
    s.calculate();
    assert_eq!(s.publisher.video.bitrate, 1000);
    assert_eq!(s.publisher.video.frame_rate, 30);
    assert_eq!(s.publisher.audio.bitrate, 100);
    assert_eq!(s.publisher.recv_bitrate, 1000);
    assert_eq!(s.subscribers[0].send_bitrate, 2000);
    assert_eq!(s.publisher.video.recv_bytes, 0);
    assert_eq!(s.subscribers[0].send_bytes, 0);
    let recv_total = s.total_recv_bytes;
    let send_total = s.total_send_bytes;
    s.calculate();
    assert_eq!(s.publisher.video.bitrate, 0);
    assert_eq!(s.publisher.video.frame_rate, 0);
    assert_eq!(s.publisher.audio.bitrate, 0);
    assert_eq!(s.publisher.recv_bitrate, 0);
    assert_eq!(s.subscribers[0].send_bitrate, 0);
    assert_eq!(s.total_recv_bytes, recv_total);
    assert_eq!(s.total_send_bytes, send_total);
}

#[test]
fn query_by_publisher_drops_subscriber_records() {
    let mut s = with_subscribers("live/a", 2);
    s.apply(StatisticData::Publisher { id: SessionId { value: 50 }, remote_addr: String::new(), start_time: 0 });
    let q = s.query_by_uuid(SessionId { value: 50 });
    assert!(q.subscribers.is_empty());
    assert_eq!(q.subscriber_count, 0);
}

#[test]
fn query_by_subscriber_keeps_its_record() {
    let s = with_subscribers("live/a", 3);
    let q = s.query_by_uuid(SessionId { value: 2 });
    assert_eq!(q.subscribers.len(), 1);
    assert_eq!(q.subscribers[0].id, SessionId { value: 2 });
    assert_eq!(q.subscriber_count, 1);
    let none = s.query_by_uuid(SessionId { value: 40 });
    assert_eq!(none.subscriber_count, 0);
}

#[test]
fn remove_subscriber_updates_count() {
    let mut s = with_subscribers("live/a", 2);
    assert!(s.remove_subscriber(SessionId { value: 1 }));
    assert!(!s.remove_subscriber(SessionId { value: 1 }));
    assert_eq!(s.subscriber_count, 1);
    assert_eq!(s.subscribers[0].id, SessionId { value: 2 });
}

#[test]
fn top_one_of_five_two_nine_is_nine() {
    let data = vec![with_subscribers("live/a", 5), with_subscribers("live/b", 2), with_subscribers("live/c", 9)];
    let top = select_top(data, Some(1));
    assert_eq!(top.len(), 1);
    assert_eq!(top[0].subscriber_count, 9);
    assert_eq!(top[0].publisher.identifier.name, "live/c");
}

#[test]
fn sort_by_count_is_stable() {
    let data = vec![
        with_subscribers("live/a", 1),
        with_subscribers("live/b", 3),
        with_subscribers("live/c", 1),
        with_subscribers("live/d", 3),
    ];
    let sorted = sort_by_subscriber_count(&data);
    let names: Vec<String> = sorted.iter().map(|s| s.publisher.identifier.name.clone()).collect();
    assert_eq!(names, vec!["live/b", "live/d", "live/a", "live/c"]);
}

#[test]
fn select_without_top_keeps_order_and_large_top_keeps_all() {
    let data = vec![with_subscribers("live/a", 1), with_subscribers("live/b", 3)];
    let all = select_top(data, None);
    assert_eq!(all[0].publisher.identifier.name, "live/a");
    let data = vec![with_subscribers("live/a", 1), with_subscribers("live/b", 3)];
    let top = select_top(data, Some(10));
    assert_eq!(top.len(), 2);
    assert_eq!(top[0].publisher.identifier.name, "live/b");
    let none = select_top(Vec::new(), Some(1));
    assert!(none.is_empty());
}

fn player(id: u128, shape: SubDataType) -> SubscriberInfo {
    SubscriberInfo { id: SessionId { value: id }, sub_type: SubscribeType::PlayerRtmp, sub_data_type: shape }
}

#[test]
fn fan_out_reaches_every_subscriber_of_the_stream_only() {
    let mut a: StreamDataTransceiver<&str, &str> = StreamDataTransceiver::new(key("live/a"), PubDataType::Both);
    let mut b: StreamDataTransceiver<&str, &str> = StreamDataTransceiver::new(key("live/b"), PubDataType::Frame);
    a.subscribe(player(1, SubDataType::Frame), DataSender::Frame { sender: "a1" });
    a.subscribe(player(2, SubDataType::Frame), DataSender::Frame { sender: "a2" });
    a.subscribe(player(3, SubDataType::Packet), DataSender::Packet { sender: "a3" });
    b.subscribe(player(4, SubDataType::Frame), DataSender::Frame { sender: "b4" });
    let a_frames: Vec<&str> = a.frame_senders.iter().map(|e| e.1).collect();
    let a_packets: Vec<&str> = a.packet_senders.iter().map(|e| e.1).collect();
    let b_frames: Vec<&str> = b.frame_senders.iter().map(|e| e.1).collect();
    assert_eq!(a_frames, vec!["a1", "a2"]);
    assert_eq!(a_packets, vec!["a3"]);
    assert_eq!(b_frames, vec!["b4"]);
    assert_eq!(a.query(None).subscriber_count, 3);
}

#[test]
fn resubscribe_replaces_sender_and_unsubscribe_removes_it() {
    let mut a: StreamDataTransceiver<&str, &str> = StreamDataTransceiver::new(key("live/a"), PubDataType::Frame);
    assert!(a.frame_senders.is_empty());
    a.subscribe(player(1, SubDataType::Frame), DataSender::Frame { sender: "old" });
    a.subscribe(player(1, SubDataType::Frame), DataSender::Frame { sender: "new" });
    assert_eq!(a.frame_senders.len(), 1);
    assert_eq!(a.frame_senders[0].1, "new");
    assert_eq!(a.statistics.subscriber_count, 1);
    assert!(a.unsubscribe(player(1, SubDataType::Frame)));
    assert!(a.frame_senders.is_empty());
    assert_eq!(a.statistics.subscriber_count, 0);
    assert!(!a.unsubscribe(player(1, SubDataType::Frame)));
}

#[test]
fn transceiver_statistics_and_query() {
    let mut a: StreamDataTransceiver<u8, u8> = StreamDataTransceiver::new(key("live/a"), PubDataType::Frame);
    a.subscribe(player(1, SubDataType::Frame), DataSender::Frame { sender: 0 });
    a.receive_statistics_data(video(Some(1), 50, None));
    a.receive_statistics_data(video(None, 80, Some(true)));
    assert_eq!(a.query(None).total_send_bytes, 50);
    assert_eq!(a.query(Some(SessionId { value: 1 })).subscribers[0].send_bytes, 50);
    a.calculate();
    assert_eq!(a.query(None).publisher.video.recv_bytes, 0);
    assert_eq!(a.query(None).total_recv_bytes, 80);
}

#[test]
fn control_events_drive_the_stream() {
    let mut a: StreamDataTransceiver<u8, u8> = StreamDataTransceiver::new(key("live/a"), PubDataType::Frame);
    let r = a.handle_control(ControlEvent::Subscribe { info: player(1, SubDataType::Frame), sender: DataSender::Frame { sender: 9 } });
    assert!(matches!(r, ControlAction::Subscribed));
    assert_eq!(a.frame_senders, vec![(SessionId { value: 1 }, 9)]);
    match a.handle_control(ControlEvent::Api { uuid: None }) {
        ControlAction::Reply { statistics } => assert_eq!(statistics.subscriber_count, 1),
        _ => panic!("a query is answered"),
    }
    assert!(matches!(a.handle_control(ControlEvent::Request), ControlAction::SendInformation));
    assert!(matches!(a.handle_control(ControlEvent::UnSubscribe { info: player(1, SubDataType::Frame) }), ControlAction::Done));
    assert!(a.frame_senders.is_empty());
    assert!(matches!(a.handle_control(ControlEvent::UnPublish), ControlAction::Stop));
}
