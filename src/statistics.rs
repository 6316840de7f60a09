use vstd::prelude::*;
use crate::define::SubscribeType;
use crate::session::SessionId;
use crate::stream::{StreamKey, StreamKeyView};

verus! {

/// Length in seconds of the window over which rates are computed.
pub const WINDOW_SECONDS: usize = 5;

/// The AAC packet type of raw audio frames (as opposed to sequence headers).
pub const AAC_RAW: u8 = 1;

/// `a + b`, held at `usize::MAX` when it does not fit.
pub open spec fn sat_add(a: usize, b: usize) -> usize {
    if a + b > usize::MAX {
        usize::MAX
    } else {
        (a + b) as usize
    }
}

/// Kilobits per second for `bytes` received over one window.
pub open spec fn kbps(bytes: usize) -> usize {
    ((bytes * 8) / 5000) as usize
}

/// Video track parameters and counters of a publisher.
#[derive(Clone, Copy, Debug, PartialEq, Eq, Structural, Default)]
pub struct VideoInfo {
    pub codec: u8,
    pub profile: u8,
    pub level: u8,
    pub width: u32,
    pub height: u32,
    /// Bytes received in the current window.
    pub recv_bytes: usize,
    /// Kilobits per second over the last window.
    pub bitrate: usize,
    /// Frames received in the current window.
    pub recv_frame_count: usize,
    pub frame_rate: usize,
    /// Frames counted since the last key frame.
    pub recv_frame_count_for_gop: usize,
    pub gop: usize,
}

/// Audio track parameters and counters of a publisher.
#[derive(Clone, Copy, Debug, PartialEq, Eq, Structural, Default)]
pub struct AudioInfo {
    pub sound_format: u8,
    pub profile: u8,
    pub sample_rate: u32,
    pub channels: u8,
    /// Bytes received in the current window.
    pub recv_bytes: usize,
    /// Kilobits per second over the last window.
    pub bitrate: usize,
}

#[derive(Debug)]
pub struct StatisticPublisher {
    pub id: SessionId,
    pub identifier: StreamKey,
    /// Milliseconds since the Unix epoch.
    pub start_time: i64,
    pub video: VideoInfo,
    pub audio: AudioInfo,
    pub remote_address: String,
    /// Bytes received in the current window.
    pub recv_bytes: usize,
    /// Kilobits per second at which the server received data over the last window.
    pub recv_bitrate: usize,
}

#[derive(Debug)]
pub struct StatisticSubscriber {
    pub id: SessionId,
    /// Milliseconds since the Unix epoch.
    pub start_time: i64,
    pub remote_address: String,
    pub sub_type: SubscribeType,
    /// Bytes sent in the current window.
    pub send_bytes: usize,
    /// Kilobits per second sent over the last window.
    pub send_bitrate: usize,
    /// Bytes sent since the subscription began.
    pub total_send_bytes: usize,
}

/// The statistics of one stream: its publisher and its subscribers.
#[derive(Debug)]
pub struct StatisticsStream {
    pub publisher: StatisticPublisher,
    /// At most one record per session id.
    pub subscribers: Vec<StatisticSubscriber>,
    pub subscriber_count: usize,
    /// Bytes received from the publisher since the stream began.
    pub total_recv_bytes: usize,
    /// Bytes sent to subscribers since the stream began.
    pub total_send_bytes: usize,
}

pub struct PublisherModel {
    pub id: SessionId,
    pub identifier: StreamKeyView,
    pub start_time: i64,
    pub video: VideoInfo,
    pub audio: AudioInfo,
    pub remote_address: Seq<char>,
    pub recv_bytes: usize,
    pub recv_bitrate: usize,
}

pub struct SubscriberModel {
    pub id: SessionId,
    pub start_time: i64,
    pub remote_address: Seq<char>,
    pub sub_type: SubscribeType,
    pub send_bytes: usize,
    pub send_bitrate: usize,
    pub total_send_bytes: usize,
}

pub struct StreamStatsModel {
    pub publisher: PublisherModel,
    pub subscribers: Seq<SubscriberModel>,
    pub subscriber_count: usize,
    pub total_recv_bytes: usize,
    pub total_send_bytes: usize,
}

impl View for StatisticPublisher {
    type V = PublisherModel;

    open spec fn view(&self) -> PublisherModel {
        PublisherModel {
            id: self.id,
            identifier: self.identifier@,
            start_time: self.start_time,
            video: self.video,
            audio: self.audio,
            remote_address: self.remote_address@,
            recv_bytes: self.recv_bytes,
            recv_bitrate: self.recv_bitrate,
        }
    }
}

impl View for StatisticSubscriber {
    type V = SubscriberModel;

    open spec fn view(&self) -> SubscriberModel {
        SubscriberModel {
            id: self.id,
            start_time: self.start_time,
            remote_address: self.remote_address@,
            sub_type: self.sub_type,
            send_bytes: self.send_bytes,
            send_bitrate: self.send_bitrate,
            total_send_bytes: self.total_send_bytes,
        }
    }
}

pub open spec fn subscriber_models(v: Seq<StatisticSubscriber>) -> Seq<SubscriberModel> {
    v.map_values(|s: StatisticSubscriber| s@)
}

impl View for StatisticsStream {
    type V = StreamStatsModel;

    open spec fn view(&self) -> StreamStatsModel {
        StreamStatsModel {
            publisher: self.publisher@,
            subscribers: subscriber_models(self.subscribers@),
            subscriber_count: self.subscriber_count,
            total_recv_bytes: self.total_recv_bytes,
            total_send_bytes: self.total_send_bytes,
        }
    }
}

impl Clone for StatisticPublisher {
    fn clone(&self) -> (r: Self)
        ensures
            r@ == self@,
    {
        StatisticPublisher {
            id: self.id,
            identifier: self.identifier.clone(),
            start_time: self.start_time,
            video: self.video,
            audio: self.audio,
            remote_address: self.remote_address.clone(),
            recv_bytes: self.recv_bytes,
            recv_bitrate: self.recv_bitrate,
        }
    }
}

impl Clone for StatisticSubscriber {
    fn clone(&self) -> (r: Self)
        ensures
            r@ == self@,
    {
        StatisticSubscriber {
            id: self.id,
            start_time: self.start_time,
            remote_address: self.remote_address.clone(),
            sub_type: self.sub_type,
            send_bytes: self.send_bytes,
            send_bitrate: self.send_bitrate,
            total_send_bytes: self.total_send_bytes,
        }
    }
}

fn clone_subscribers(v: &Vec<StatisticSubscriber>) -> (r: Vec<StatisticSubscriber>)
    ensures
        subscriber_models(r@) == subscriber_models(v@),
{
    let mut r: Vec<StatisticSubscriber> = Vec::new();
    let mut i: usize = 0;
    while i < v.len()
        invariant
            0 <= i <= v@.len(),
            r@.len() == i,
            forall|k: int| 0 <= k < i ==> (#[trigger] r@[k])@ == v@[k]@,
        decreases v@.len() - i,
    {
        r.push(v[i].clone());
        i = i + 1;
    }
    proof {
        assert(subscriber_models(r@) =~= subscriber_models(v@));
    }
    r
}

impl Clone for StatisticsStream {
    fn clone(&self) -> (r: Self)
        ensures
            r@ == self@,
    {
        StatisticsStream {
            publisher: self.publisher.clone(),
            subscribers: clone_subscribers(&self.subscribers),
            subscriber_count: self.subscriber_count,
            total_recv_bytes: self.total_recv_bytes,
            total_send_bytes: self.total_send_bytes,
        }
    }
}


/// A statistics delta reported by a publisher or subscriber session.
#[derive(Debug)]
pub enum StatisticData {
    /// Audio bytes: received from the publisher (`uuid` is `None`) or sent to a subscriber.
    Audio { uuid: Option<SessionId>, data_size: usize, aac_packet_type: u8, duration: usize },
    /// Video bytes and frames: received from the publisher (`uuid` is `None`) or sent to a subscriber.
    Video {
        uuid: Option<SessionId>,
        data_size: usize,
        frame_count: usize,
        is_key_frame: Option<bool>,
        duration: usize,
    },
    AudioCodec { sound_format: u8, profile: u8, sample_rate: u32, channels: u8 },
    VideoCodec { codec: u8, profile: u8, level: u8, width: u32, height: u32 },
    Publisher { id: SessionId, remote_addr: String, start_time: i64 },
    Subscriber { id: SessionId, remote_addr: String, sub_type: SubscribeType, start_time: i64 },
}

pub open spec fn ids_unique(s: Seq<SubscriberModel>) -> bool {
    forall|i: int, j: int| 0 <= i < s.len() && 0 <= j < s.len() && #[trigger] s[i].id == #[trigger] s[j].id ==> i == j
}

/// The position of the record of session `id`, or -1 when there is none.
pub open spec fn index_of_id(s: Seq<SubscriberModel>, id: SessionId) -> int {
    if exists|i: int| 0 <= i < s.len() && s[i].id == id {
        choose|i: int| 0 <= i < s.len() && s[i].id == id
    } else {
        -1
    }
}

/// Adds `size` sent bytes to the record of subscriber `id`, if there is one.
pub open spec fn add_sent(s: Seq<SubscriberModel>, id: SessionId, size: usize, to_total: bool) -> Seq<SubscriberModel> {
    let i = index_of_id(s, id);
    if i < 0 {
        s
    } else {
        s.update(
            i,
            SubscriberModel {
                send_bytes: sat_add(s[i].send_bytes, size),
                total_send_bytes: if to_total {
                    sat_add(s[i].total_send_bytes, size)
                } else {
                    s[i].total_send_bytes
                },
                ..s[i]
            },
        )
    }
}

/// The video track after a received video item: counters grow, and a key frame
/// closes the current group of pictures.
pub open spec fn video_after(v: VideoInfo, size: usize, frames: usize, key: Option<bool>) -> VideoInfo {
    VideoInfo {
        recv_bytes: sat_add(v.recv_bytes, size),
        recv_frame_count: sat_add(v.recv_frame_count, frames),
        gop: if key == Some(true) {
            v.recv_frame_count_for_gop
        } else {
            v.gop
        },
        recv_frame_count_for_gop: match key {
            Some(true) => 1,
            Some(false) => sat_add(v.recv_frame_count_for_gop, frames),
            None => v.recv_frame_count_for_gop,
        },
        ..v
    }
}

/// The subscriber records after session `id` reports its address, kind and start time.
pub open spec fn upsert_subscriber(
    s: Seq<SubscriberModel>,
    id: SessionId,
    remote: Seq<char>,
    sub_type: SubscribeType,
    start_time: i64,
) -> Seq<SubscriberModel> {
    let i = index_of_id(s, id);
    if i < 0 {
        s.push(
            SubscriberModel {
                id,
                start_time,
                remote_address: remote,
                sub_type,
                send_bytes: 0,
                send_bitrate: 0,
                total_send_bytes: 0,
            },
        )
    } else {
        s.update(i, SubscriberModel { start_time, remote_address: remote, sub_type, ..s[i] })
    }
}

/// The statistics of a stream after one delta.
pub open spec fn stats_after(o: StreamStatsModel, d: StatisticData) -> StreamStatsModel {
    match d {
        StatisticData::Audio { uuid: Some(id), data_size, .. } => StreamStatsModel {
            subscribers: add_sent(o.subscribers, id, data_size, true),
            total_send_bytes: sat_add(o.total_send_bytes, data_size),
            ..o
        },
        StatisticData::Audio { uuid: None, data_size, aac_packet_type, .. } => StreamStatsModel {
            publisher: if aac_packet_type == AAC_RAW {
                PublisherModel {
                    audio: AudioInfo {
                        recv_bytes: sat_add(o.publisher.audio.recv_bytes, data_size),
                        ..o.publisher.audio
                    },
                    ..o.publisher
                }
            } else {
                o.publisher
            },
            total_recv_bytes: sat_add(o.total_recv_bytes, data_size),
            ..o
        },
        StatisticData::Video { uuid: Some(id), data_size, .. } => StreamStatsModel {
            subscribers: add_sent(o.subscribers, id, data_size, true),
            total_send_bytes: sat_add(o.total_send_bytes, data_size),
            ..o
        },
        StatisticData::Video { uuid: None, data_size, frame_count, is_key_frame, .. } => StreamStatsModel {
            publisher: PublisherModel {
                video: video_after(o.publisher.video, data_size, frame_count, is_key_frame),
                recv_bytes: sat_add(o.publisher.recv_bytes, data_size),
                ..o.publisher
            },
            total_recv_bytes: sat_add(o.total_recv_bytes, data_size),
            ..o
        },
        StatisticData::AudioCodec { sound_format, profile, sample_rate, channels } => StreamStatsModel {
            publisher: PublisherModel {
                audio: AudioInfo { sound_format, profile, sample_rate, channels, ..o.publisher.audio },
                ..o.publisher
            },
            ..o
        },
        StatisticData::VideoCodec { codec, profile, level, width, height } => StreamStatsModel {
            publisher: PublisherModel {
                video: VideoInfo { codec, profile, level, width, height, ..o.publisher.video },
                ..o.publisher
            },
            ..o
        },
        StatisticData::Publisher { id, remote_addr, start_time } => StreamStatsModel {
            publisher: PublisherModel { id, remote_address: remote_addr@, start_time, ..o.publisher },
            ..o
        },
        StatisticData::Subscriber { id, remote_addr, sub_type, start_time } => {
            let subs = upsert_subscriber(o.subscribers, id, remote_addr@, sub_type, start_time);
            StreamStatsModel { subscribers: subs, subscriber_count: subs.len() as usize, ..o }
        },
    }
}

pub open spec fn subscriber_after_tick(s: SubscriberModel) -> SubscriberModel {
    SubscriberModel { send_bitrate: kbps(s.send_bytes), send_bytes: 0, ..s }
}

/// The statistics of a stream after a window closes: each rate takes the value of
/// the window just ended and each window counter starts again from zero.
pub open spec fn stats_after_tick(o: StreamStatsModel) -> StreamStatsModel {
    StreamStatsModel {
        publisher: PublisherModel {
            video: VideoInfo {
                bitrate: kbps(o.publisher.video.recv_bytes),
                recv_bytes: 0,
                frame_rate: (o.publisher.video.recv_frame_count / 5) as usize,
                recv_frame_count: 0,
                ..o.publisher.video
            },
            audio: AudioInfo {
                bitrate: kbps(o.publisher.audio.recv_bytes),
                recv_bytes: 0,
                ..o.publisher.audio
            },
            recv_bitrate: kbps(o.publisher.recv_bytes),
            recv_bytes: 0,
            ..o.publisher
        },
        subscribers: o.subscribers.map_values(|s: SubscriberModel| subscriber_after_tick(s)),
        ..o
    }
}

/// What a query for session `id` reports of a stream: the publisher part alone (no
/// subscriber records, a count of zero) when
/// `id` is the publisher, else the records of that subscriber.
pub open spec fn query_view(o: StreamStatsModel, id: SessionId) -> StreamStatsModel {
    if id == o.publisher.id {
        StreamStatsModel { subscribers: Seq::empty(), subscriber_count: 0, ..o }
    } else {
        let found = o.subscribers.filter(|s: SubscriberModel| s.id == id);
        StreamStatsModel { subscribers: found, subscriber_count: found.len() as usize, ..o }
    }
}

fn kbps_of(bytes: usize) -> (r: usize)
    ensures
        r == kbps(bytes),
{
    assert((bytes * 8) / 5000 == bytes / 625) by (nonlinear_arith);
    bytes / 625
}

impl StatisticPublisher {
    /// A publisher record for stream `identifier` with nothing measured yet.
    pub fn new(identifier: StreamKey) -> (r: StatisticPublisher)
        ensures
            r@.identifier == identifier@,
            r@.id == (SessionId { value: 0 }),
            r@.video == VideoInfo::spec_zero(),
            r@.audio == AudioInfo::spec_zero(),
            r@.remote_address.len() == 0,
            r@.start_time == 0,
            r@.recv_bytes == 0,
            r@.recv_bitrate == 0,
    {
        StatisticPublisher {
            id: SessionId { value: 0 },
            identifier,
            start_time: 0,
            video: VideoInfo::zero(),
            audio: AudioInfo::zero(),
            remote_address: String::new(),
            recv_bytes: 0,
            recv_bitrate: 0,
        }
    }
}

impl StatisticsStream {
    /// Well-formed: one record per subscriber, and the count is the number of records.
    pub open spec fn wf(&self) -> bool {
        &&& ids_unique(self@.subscribers)
        &&& self.subscriber_count == self.subscribers@.len()
    }

    /// The statistics of a new stream `identifier`: no subscriber, nothing measured.
    pub fn new(identifier: StreamKey) -> (r: StatisticsStream)
        ensures
            r.wf(),
            r@.publisher.identifier == identifier@,
            r@.publisher.id == (SessionId { value: 0 }),
            r@.publisher.video == VideoInfo::spec_zero(),
            r@.publisher.audio == AudioInfo::spec_zero(),
            r@.publisher.remote_address.len() == 0,
            r@.publisher.start_time == 0,
            r@.publisher.recv_bytes == 0,
            r@.publisher.recv_bitrate == 0,
            r@.subscribers.len() == 0,
            r@.subscriber_count == 0,
            r@.total_recv_bytes == 0,
            r@.total_send_bytes == 0,
    {
        let r = StatisticsStream {
            publisher: StatisticPublisher::new(identifier),
            subscribers: Vec::new(),
            subscriber_count: 0,
            total_recv_bytes: 0,
            total_send_bytes: 0,
        };
        proof {
            assert(r@.subscribers =~= Seq::<SubscriberModel>::empty());
        }
        r
    }

    /// Finds the record of subscriber `id`.
    pub fn find_subscriber(&self, id: SessionId) -> (r: Option<usize>)
        requires
            ids_unique(self@.subscribers),
        ensures
            match r {
                Some(i) => i as int == index_of_id(self@.subscribers, id) && 0 <= i < self.subscribers@.len(),
                None => index_of_id(self@.subscribers, id) == -1,
            },
    {
        let ghost s = self@.subscribers;
        let mut i: usize = 0;
        while i < self.subscribers.len()
            invariant
                s == self@.subscribers,
                ids_unique(s),
                s.len() == self.subscribers@.len(),
                0 <= i <= s.len(),
                forall|k: int| 0 <= k < i ==> (#[trigger] s[k]).id != id,
            decreases s.len() - i,
        {
            if self.subscribers[i].id == id {
                proof {
                    assert(s[i as int].id == id);
                    let j = index_of_id(s, id);
                    assert(s[j].id == s[i as int].id);
                }
                return Some(i);
            }
            assert(s[i as int].id != id);
            i = i + 1;
        }
        None
    }
}

impl StatisticsStream {
    fn add_sent_bytes(&mut self, id: SessionId, size: usize, to_total: bool)
        requires
            old(self).wf(),
        ensures
            final(self).wf(),
            final(self)@ == (StreamStatsModel {
                subscribers: add_sent(old(self)@.subscribers, id, size, to_total),
                ..old(self)@
            }),
    {
        match self.find_subscriber(id) {
            Some(i) => {
                let ghost o = self@.subscribers;
                let sent = self.subscribers[i].send_bytes.saturating_add(size);
                self.subscribers[i].send_bytes = sent;
                if to_total {
                    let total = self.subscribers[i].total_send_bytes.saturating_add(size);
                    self.subscribers[i].total_send_bytes = total;
                }
                proof {
                    assert(self@.subscribers =~= add_sent(o, id, size, to_total));
                    assert forall|a: int, b: int|
                        0 <= a < self@.subscribers.len() && 0 <= b < self@.subscribers.len()
                            && #[trigger] self@.subscribers[a].id == #[trigger] self@.subscribers[b].id implies a == b by {
                        assert(self@.subscribers[a].id == o[a].id);
                        assert(self@.subscribers[b].id == o[b].id);
                    }
                }
            },
            None => {},
        }
    }

    /// Records a subscriber session's address, kind and start time, adding a
    /// record with zero counters when the session has none yet.
    pub fn put_subscriber(&mut self, id: SessionId, remote_addr: String, sub_type: SubscribeType, start_time: i64)
        requires
            old(self).wf(),
        ensures
            final(self).wf(),
            final(self)@ == (StreamStatsModel {
                subscribers: upsert_subscriber(old(self)@.subscribers, id, remote_addr@, sub_type, start_time),
                subscriber_count: upsert_subscriber(old(self)@.subscribers, id, remote_addr@, sub_type, start_time).len() as usize,
                ..old(self)@
            }),
    {
        let ghost o = self@.subscribers;
        let ghost remote = remote_addr@;
        match self.find_subscriber(id) {
            Some(i) => {
                self.subscribers[i].remote_address = remote_addr;
                self.subscribers[i].sub_type = sub_type;
                self.subscribers[i].start_time = start_time;
                proof {
                    assert(self@.subscribers =~= upsert_subscriber(o, id, remote, sub_type, start_time));
                    assert forall|a: int, b: int|
                        0 <= a < self@.subscribers.len() && 0 <= b < self@.subscribers.len()
                            && #[trigger] self@.subscribers[a].id == #[trigger] self@.subscribers[b].id implies a == b by {
                        assert(self@.subscribers[a].id == o[a].id);
                        assert(self@.subscribers[b].id == o[b].id);
                    }
                }
            },
            None => {
                self.subscribers.push(
                    StatisticSubscriber {
                        id,
                        start_time,
                        remote_address: remote_addr,
                        sub_type,
                        send_bytes: 0,
                        send_bitrate: 0,
                        total_send_bytes: 0,
                    },
                );
                proof {
                    assert(self@.subscribers =~= upsert_subscriber(o, id, remote, sub_type, start_time));
                    assert forall|a: int, b: int|
                        0 <= a < self@.subscribers.len() && 0 <= b < self@.subscribers.len()
                            && #[trigger] self@.subscribers[a].id == #[trigger] self@.subscribers[b].id implies a == b by {
                        if a < o.len() {
                            assert(self@.subscribers[a].id == o[a].id);
                        }
                        if b < o.len() {
                            assert(self@.subscribers[b].id == o[b].id);
                        }
                    }
                }
            },
        }
        self.subscriber_count = self.subscribers.len();
    }

    /// Removes the record of subscriber `id`; returns whether there was one.
    pub fn remove_subscriber(&mut self, id: SessionId) -> (r: bool)
        requires
            old(self).wf(),
        ensures
            final(self).wf(),
            r == (index_of_id(old(self)@.subscribers, id) >= 0),
            final(self)@ == (StreamStatsModel {
                subscribers: if r {
                    old(self)@.subscribers.remove(index_of_id(old(self)@.subscribers, id))
                } else {
                    old(self)@.subscribers
                },
                subscriber_count: if r {
                    (old(self).subscriber_count - 1) as usize
                } else {
                    old(self).subscriber_count
                },
                ..old(self)@
            }),
    {
        let ghost o = self@.subscribers;
        match self.find_subscriber(id) {
            Some(i) => {
                self.subscribers.remove(i);
                self.subscriber_count = self.subscriber_count - 1;
                proof {
                    assert(self@.subscribers =~= o.remove(i as int));
                    assert forall|a: int, b: int|
                        0 <= a < self@.subscribers.len() && 0 <= b < self@.subscribers.len()
                            && #[trigger] self@.subscribers[a].id == #[trigger] self@.subscribers[b].id implies a == b by {
                        let a2 = if a < i { a } else { a + 1 };
                        let b2 = if b < i { b } else { b + 1 };
                        assert(self@.subscribers[a].id == o[a2].id);
                        assert(self@.subscribers[b].id == o[b2].id);
                    }
                }
                true
            },
            None => false,
        }
    }

    /// Applies one statistics delta.
    pub fn apply(&mut self, data: StatisticData)
        requires
            old(self).wf(),
        ensures
            final(self).wf(),
            final(self)@ == stats_after(old(self)@, data),
    {
        match data {
            StatisticData::Audio { uuid, data_size, aac_packet_type, duration: _ } => {
                match uuid {
                    Some(id) => {
                        self.add_sent_bytes(id, data_size, true);
                        self.total_send_bytes = self.total_send_bytes.saturating_add(data_size);
                    },
                    None => {
                        if aac_packet_type == AAC_RAW {
                            self.publisher.audio.recv_bytes = self.publisher.audio.recv_bytes.saturating_add(data_size);
                        }
                        self.total_recv_bytes = self.total_recv_bytes.saturating_add(data_size);
                    },
                }
            },
            StatisticData::Video { uuid, data_size, frame_count, is_key_frame, duration: _ } => {
                match uuid {
                    Some(id) => {
                        self.add_sent_bytes(id, data_size, true);
                        self.total_send_bytes = self.total_send_bytes.saturating_add(data_size);
                    },
                    None => {
                        self.total_recv_bytes = self.total_recv_bytes.saturating_add(data_size);
                        let video = &mut self.publisher.video;
                        video.recv_bytes = video.recv_bytes.saturating_add(data_size);
                        video.recv_frame_count = video.recv_frame_count.saturating_add(frame_count);
                        match is_key_frame {
                            Some(true) => {
                                video.gop = video.recv_frame_count_for_gop;
                                video.recv_frame_count_for_gop = 1;
                            },
                            Some(false) => {
                                video.recv_frame_count_for_gop = video.recv_frame_count_for_gop.saturating_add(frame_count);
                            },
                            None => {},
                        }
                        self.publisher.recv_bytes = self.publisher.recv_bytes.saturating_add(data_size);
                    },
                }
            },
            StatisticData::AudioCodec { sound_format, profile, sample_rate, channels } => {
                self.publisher.audio.sound_format = sound_format;
                self.publisher.audio.profile = profile;
                self.publisher.audio.sample_rate = sample_rate;
                self.publisher.audio.channels = channels;
            },
            StatisticData::VideoCodec { codec, profile, level, width, height } => {
                self.publisher.video.codec = codec;
                self.publisher.video.profile = profile;
                self.publisher.video.level = level;
                self.publisher.video.width = width;
                self.publisher.video.height = height;
            },
            StatisticData::Publisher { id, remote_addr, start_time } => {
                self.publisher.id = id;
                self.publisher.remote_address = remote_addr;
                self.publisher.start_time = start_time;
            },
            StatisticData::Subscriber { id, remote_addr, sub_type, start_time } => {
                self.put_subscriber(id, remote_addr, sub_type, start_time);
            },
        }
    }
}

impl StatisticsStream {
    /// Closes a rate window: each rate takes the value of the window just ended
    /// and each window counter starts again from zero.
    pub fn calculate(&mut self)
        requires
            old(self).wf(),
        ensures
            final(self).wf(),
            final(self)@ == stats_after_tick(old(self)@),
    {
        let ghost o = self@;
        let video = &mut self.publisher.video;
        video.bitrate = kbps_of(video.recv_bytes);
        video.recv_bytes = 0;
        video.frame_rate = video.recv_frame_count / WINDOW_SECONDS;
        video.recv_frame_count = 0;
        let audio = &mut self.publisher.audio;
        audio.bitrate = kbps_of(audio.recv_bytes);
        audio.recv_bytes = 0;
        self.publisher.recv_bitrate = kbps_of(self.publisher.recv_bytes);
        self.publisher.recv_bytes = 0;
        let mut i: usize = 0;
        while i < self.subscribers.len()
            invariant
                0 <= i <= self.subscribers@.len(),
                self.subscribers@.len() == o.subscribers.len(),
                forall|k: int| 0 <= k < i ==> (#[trigger] self.subscribers@[k])@ == subscriber_after_tick(o.subscribers[k]),
                forall|k: int| i <= k < self.subscribers@.len() ==> (#[trigger] self.subscribers@[k])@ == o.subscribers[k],
                self.publisher@ == stats_after_tick(o).publisher,
                self.subscriber_count == o.subscriber_count,
                self.total_recv_bytes == o.total_recv_bytes,
                self.total_send_bytes == o.total_send_bytes,
            decreases self.subscribers@.len() - i,
        {
            let rate = kbps_of(self.subscribers[i].send_bytes);
            self.subscribers[i].send_bitrate = rate;
            self.subscribers[i].send_bytes = 0;
            i = i + 1;
        }
        proof {
            assert(self@.subscribers =~= stats_after_tick(o).subscribers);
            assert forall|a: int, b: int|
                0 <= a < self@.subscribers.len() && 0 <= b < self@.subscribers.len()
                    && #[trigger] self@.subscribers[a].id == #[trigger] self@.subscribers[b].id implies a == b by {
                assert(self@.subscribers[a].id == o.subscribers[a].id);
                assert(self@.subscribers[b].id == o.subscribers[b].id);
            }
        }
    }

    /// The publisher part alone: a copy without subscriber records, counting none.
    pub fn get_publisher(&self) -> (r: StatisticsStream)
        ensures
            r@ == (StreamStatsModel { subscribers: Seq::empty(), subscriber_count: 0, ..self@ }),
    {
        let mut r = self.clone();
        r.subscribers.clear();
        r.subscriber_count = 0;
        proof {
            assert(r@.subscribers =~= Seq::<SubscriberModel>::empty());
        }
        r
    }

    /// A copy that keeps only the records of subscriber `id`.
    pub fn get_subscriber(&self, id: SessionId) -> (r: StatisticsStream)
        ensures
            r@ == (StreamStatsModel {
                subscribers: self@.subscribers.filter(|s: SubscriberModel| s.id == id),
                subscriber_count: self@.subscribers.filter(|s: SubscriberModel| s.id == id).len() as usize,
                ..self@
            }),
    {
        let ghost pred = |s: SubscriberModel| s.id == id;
        let ghost all = self@.subscribers;
        let mut found: Vec<StatisticSubscriber> = Vec::new();
        let mut i: usize = 0;
        while i < self.subscribers.len()
            invariant
                0 <= i <= self.subscribers@.len(),
                all == self@.subscribers,
                pred == (|s: SubscriberModel| s.id == id),
                subscriber_models(found@) == all.subrange(0, i as int).filter(pred),
            decreases self.subscribers@.len() - i,
        {
            proof {
                reveal(Seq::filter);
                assert(all.subrange(0, i as int + 1).drop_last() =~= all.subrange(0, i as int));
            }
            if self.subscribers[i].id == id {
                let ghost before = found@;
                found.push(self.subscribers[i].clone());
                proof {
                    assert(subscriber_models(found@) =~= subscriber_models(before).push(all[i as int]));
                }
            }
            i = i + 1;
        }
        proof {
            assert(all.subrange(0, i as int) =~= all);
            assert(subscriber_models(found@).len() == found@.len());
        }
        let count = found.len();
        StatisticsStream {
            publisher: self.publisher.clone(),
            subscribers: found,
            subscriber_count: count,
            total_recv_bytes: self.total_recv_bytes,
            total_send_bytes: self.total_send_bytes,
        }
    }

    /// What a statistics query narrowed to session `id` reports of this stream.
    pub fn query_by_uuid(&self, id: SessionId) -> (r: StatisticsStream)
        ensures
            r@ == query_view(self@, id),
    {
        if id == self.publisher.id {
            self.get_publisher()
        } else {
            self.get_subscriber(id)
        }
    }
}

/// The subscriber records after session `id` subscribes: a record with zero
/// counters is added when the session has none.
pub open spec fn enroll_subscriber(s: Seq<SubscriberModel>, id: SessionId, sub_type: SubscribeType) -> Seq<SubscriberModel> {
    if index_of_id(s, id) < 0 {
        s.push(
            SubscriberModel {
                id,
                start_time: 0,
                remote_address: Seq::empty(),
                sub_type,
                send_bytes: 0,
                send_bitrate: 0,
                total_send_bytes: 0,
            },
        )
    } else {
        s
    }
}

impl StatisticsStream {
    /// Makes sure that subscriber `id` has a record, adding one with zero counters.
    pub fn enroll(&mut self, id: SessionId, sub_type: SubscribeType)
        requires
            old(self).wf(),
        ensures
            final(self).wf(),
            final(self)@ == (StreamStatsModel {
                subscribers: enroll_subscriber(old(self)@.subscribers, id, sub_type),
                subscriber_count: enroll_subscriber(old(self)@.subscribers, id, sub_type).len() as usize,
                ..old(self)@
            }),
    {
        let ghost o = self@.subscribers;
        match self.find_subscriber(id) {
            Some(_) => {},
            None => {
                self.subscribers.push(
                    StatisticSubscriber {
                        id,
                        start_time: 0,
                        remote_address: String::new(),
                        sub_type,
                        send_bytes: 0,
                        send_bitrate: 0,
                        total_send_bytes: 0,
                    },
                );
                proof {
                    assert(self@.subscribers =~= enroll_subscriber(o, id, sub_type));
                    assert forall|a: int, b: int|
                        0 <= a < self@.subscribers.len() && 0 <= b < self@.subscribers.len()
                            && #[trigger] self@.subscribers[a].id == #[trigger] self@.subscribers[b].id implies a == b by {
                        if a < o.len() {
                            assert(self@.subscribers[a].id == o[a].id);
                        }
                        if b < o.len() {
                            assert(self@.subscribers[b].id == o[b].id);
                        }
                    }
                }
                self.subscriber_count = self.subscribers.len();
            },
        }
    }
}

impl VideoInfo {
    pub open spec fn spec_zero() -> VideoInfo {
        VideoInfo {
            codec: 0,
            profile: 0,
            level: 0,
            width: 0,
            height: 0,
            recv_bytes: 0,
            bitrate: 0,
            recv_frame_count: 0,
            frame_rate: 0,
            recv_frame_count_for_gop: 0,
            gop: 0,
        }
    }

    pub fn zero() -> (r: VideoInfo)
        ensures
            r == VideoInfo::spec_zero(),
    {
        VideoInfo {
            codec: 0,
            profile: 0,
            level: 0,
            width: 0,
            height: 0,
            recv_bytes: 0,
            bitrate: 0,
            recv_frame_count: 0,
            frame_rate: 0,
            recv_frame_count_for_gop: 0,
            gop: 0,
        }
    }
}

impl AudioInfo {
    pub open spec fn spec_zero() -> AudioInfo {
        AudioInfo { sound_format: 0, profile: 0, sample_rate: 0, channels: 0, recv_bytes: 0, bitrate: 0 }
    }

    pub fn zero() -> (r: AudioInfo)
        ensures
            r == AudioInfo::spec_zero(),
    {
        AudioInfo { sound_format: 0, profile: 0, sample_rate: 0, channels: 0, recv_bytes: 0, bitrate: 0 }
    }
}


/// The stream's byte totals never decrease: no delta lowers them, and closing a
/// window leaves them as they are.
pub proof fn totals_never_decrease(o: StreamStatsModel, d: StatisticData)
    ensures
        stats_after(o, d).total_recv_bytes >= o.total_recv_bytes,
        stats_after(o, d).total_send_bytes >= o.total_send_bytes,
        stats_after_tick(o).total_recv_bytes == o.total_recv_bytes,
        stats_after_tick(o).total_send_bytes == o.total_send_bytes,
{
}

/// Closing a window starts every window counter again from zero, so that the
/// next window with no traffic reports every rate as zero.
pub proof fn rates_reset_each_window(o: StreamStatsModel)
    ensures
        stats_after_tick(o).publisher.recv_bytes == 0,
        stats_after_tick(o).publisher.video.recv_bytes == 0,
        stats_after_tick(o).publisher.video.recv_frame_count == 0,
        stats_after_tick(o).publisher.audio.recv_bytes == 0,
        forall|i: int| 0 <= i < o.subscribers.len() ==> (#[trigger] stats_after_tick(o).subscribers[i]).send_bytes == 0,
        stats_after_tick(stats_after_tick(o)).publisher.recv_bitrate == 0,
        stats_after_tick(stats_after_tick(o)).publisher.video.bitrate == 0,
        stats_after_tick(stats_after_tick(o)).publisher.video.frame_rate == 0,
        stats_after_tick(stats_after_tick(o)).publisher.audio.bitrate == 0,
        forall|i: int|
            0 <= i < o.subscribers.len() ==> (#[trigger] stats_after_tick(stats_after_tick(o)).subscribers[i]).send_bitrate == 0,
{
    assert forall|i: int| 0 <= i < o.subscribers.len() implies (#[trigger] stats_after_tick(stats_after_tick(o)).subscribers[i]).send_bitrate == 0 by {
        assert(stats_after_tick(o).subscribers[i].send_bytes == 0);
    }
}

} // verus!
