use vstd::prelude::*;
use crate::define::{PublisherInfo, SubscriberInfo};
use crate::errors::{StreamHubError, StreamHubErrorValue};
use crate::session::SessionId;
use crate::stream::{Protocol, StreamKey, StreamKeyView};
use crate::table::{
    entry_ids_unique, has_entry, lemma_map_unique, lemma_map_with_entry, map_entries,
    lemma_filter_subset, lemma_filter_unique, lemma_without_entry_lacks, put_entry, with_entry, without_entry,
};

verus! {

/// The event that tears a session down, recorded when the session starts so that
/// the session can be kicked off later.
#[derive(Debug)]
#[allow(inconsistent_fields)]
pub enum TeardownEvent {
    UnPublish { key: StreamKey, info: PublisherInfo },
    UnSubscribe { key: StreamKey, info: SubscriberInfo },
}

#[allow(inconsistent_fields)]
pub enum TeardownModel {
    UnPublish { key: StreamKeyView, info: PublisherInfo },
    UnSubscribe { key: StreamKeyView, info: SubscriberInfo },
}

impl View for TeardownEvent {
    type V = TeardownModel;

    open spec fn view(&self) -> TeardownModel {
        match self {
            TeardownEvent::UnPublish { key, info } => TeardownModel::UnPublish { key: key@, info: *info },
            TeardownEvent::UnSubscribe { key, info } => TeardownModel::UnSubscribe { key: key@, info: *info },
        }
    }
}

impl Clone for TeardownEvent {
    fn clone(&self) -> (r: Self)
        ensures
            r@ == self@,
    {
        match self {
            TeardownEvent::UnPublish { key, info } => TeardownEvent::UnPublish { key: key.clone(), info: *info },
            TeardownEvent::UnSubscribe { key, info } => TeardownEvent::UnSubscribe { key: key.clone(), info: *info },
        }
    }
}

impl TeardownEvent {
    /// The stream that the event ends or leaves.
    pub fn key(&self) -> (r: &StreamKey)
        ensures
            r@ == teardown_key(self@),
    {
        match self {
            TeardownEvent::UnPublish { key, .. } => key,
            TeardownEvent::UnSubscribe { key, .. } => key,
        }
    }
}

/// The registry's state: live streams with the handle of each one's transceiver,
/// the recorded teardown events, and the relay switches.
pub struct HubModel<T> {
    pub streams: Seq<(StreamKeyView, T)>,
    pub teardowns: Seq<(SessionId, TeardownModel)>,
    pub rtmp_push_enabled: bool,
    pub rtmp_remuxer_enabled: bool,
    pub rtmp_pull_enabled: bool,
    pub hls_enabled: bool,
}

/// The registry of live streams. `T` is the handle through which a stream's
/// transceiver is reached.
pub struct StreamsHub<T> {
    streams: Vec<(StreamKey, T)>,
    un_pub_sub_events: Vec<(SessionId, TeardownEvent)>,
    rtmp_push_enabled: bool,
    rtmp_remuxer_enabled: bool,
    rtmp_pull_enabled: bool,
    hls_enabled: bool,
}

pub open spec fn stream_models<T>(s: Seq<(StreamKey, T)>) -> Seq<(StreamKeyView, T)> {
    s.map_values(|e: (StreamKey, T)| (e.0@, e.1))
}

pub open spec fn teardown_view(e: TeardownEvent) -> TeardownModel {
    e@
}

pub open spec fn teardown_models(s: Seq<(SessionId, TeardownEvent)>) -> Seq<(SessionId, TeardownModel)> {
    map_entries(s, |e: TeardownEvent| teardown_view(e))
}

impl<T> View for StreamsHub<T> {
    type V = HubModel<T>;

    closed spec fn view(&self) -> HubModel<T> {
        HubModel {
            streams: stream_models(self.streams@),
            teardowns: teardown_models(self.un_pub_sub_events@),
            rtmp_push_enabled: self.rtmp_push_enabled,
            rtmp_remuxer_enabled: self.rtmp_remuxer_enabled,
            rtmp_pull_enabled: self.rtmp_pull_enabled,
            hls_enabled: self.hls_enabled,
        }
    }
}

pub open spec fn keys_unique<T>(s: Seq<(StreamKeyView, T)>) -> bool {
    forall|i: int, j: int| 0 <= i < s.len() && 0 <= j < s.len() && #[trigger] s[i].0 == #[trigger] s[j].0 ==> i == j
}

/// The position of stream `k`, or -1 when it is not registered.
pub open spec fn key_index<T>(s: Seq<(StreamKeyView, T)>, k: StreamKeyView) -> int {
    if exists|i: int| 0 <= i < s.len() && s[i].0 == k {
        choose|i: int| 0 <= i < s.len() && s[i].0 == k
    } else {
        -1
    }
}

pub open spec fn is_live<T>(h: HubModel<T>, k: StreamKeyView) -> bool {
    key_index(h.streams, k) >= 0
}

/// The session that a teardown event ends.
pub open spec fn teardown_owner(ev: TeardownModel) -> SessionId {
    match ev {
        TeardownModel::UnPublish { info, .. } => info.id,
        TeardownModel::UnSubscribe { info, .. } => info.id,
    }
}

pub open spec fn owners_match(s: Seq<(SessionId, TeardownModel)>) -> bool {
    forall|e: (SessionId, TeardownModel)| #[trigger] s.contains(e) ==> teardown_owner(e.1) == e.0
}

/// The stream that a teardown event ends or leaves.
pub open spec fn teardown_key(ev: TeardownModel) -> StreamKeyView {
    match ev {
        TeardownModel::UnPublish { key, .. } => key,
        TeardownModel::UnSubscribe { key, .. } => key,
    }
}

/// Every recorded teardown event names a live stream.
pub open spec fn records_live<T>(h: HubModel<T>) -> bool {
    forall|e: (SessionId, TeardownModel)| #[trigger] h.teardowns.contains(e) ==> is_live(h, teardown_key(e.1))
}

pub open spec fn hub_wf<T>(h: HubModel<T>) -> bool {
    &&& keys_unique(h.streams)
    &&& entry_ids_unique(h.teardowns)
    &&& owners_match(h.teardowns)
    &&& records_live(h)
}

/// Keeps the teardown records that do not name stream `k` (when `only` is `None`),
/// or all but the record of session `only` when it names stream `k`.
pub open spec fn keeps(k: StreamKeyView, only: Option<SessionId>) -> spec_fn((SessionId, TeardownModel)) -> bool {
    |e: (SessionId, TeardownModel)|
        !(teardown_key(e.1) == k && match only {
            Some(id) => e.0 == id,
            None => true,
        })
}

/// Whether a new stream is announced to the relays and remuxers.
pub open spec fn announces_publish<T>(h: HubModel<T>) -> bool {
    h.rtmp_push_enabled || h.hls_enabled || h.rtmp_remuxer_enabled
}

pub open spec fn err(v: StreamHubErrorValue) -> StreamHubError {
    StreamHubError { value: v }
}

pub open spec fn publish_result<T>(h: HubModel<T>, k: StreamKeyView) -> Result<bool, StreamHubError> {
    if is_live(h, k) {
        Err(err(StreamHubErrorValue::Exists))
    } else {
        Ok(announces_publish(h))
    }
}

pub open spec fn after_publish<T>(h: HubModel<T>, k: StreamKeyView, info: PublisherInfo, handle: T) -> HubModel<T> {
    if is_live(h, k) {
        h
    } else {
        HubModel {
            streams: h.streams.push((k, handle)),
            teardowns: with_entry(h.teardowns, info.id, TeardownModel::UnPublish { key: k, info }),
            ..h
        }
    }
}

pub open spec fn unpublish_result<T>(h: HubModel<T>, k: StreamKeyView) -> Result<T, StreamHubError> {
    if is_live(h, k) {
        Ok(h.streams[key_index(h.streams, k)].1)
    } else {
        Err(err(StreamHubErrorValue::NoAppName))
    }
}

/// The registry after stream `k` is unpublished: the stream and every teardown
/// record naming it are gone. Nothing changes when `k` is not live.
pub open spec fn after_unpublish<T>(h: HubModel<T>, k: StreamKeyView) -> HubModel<T> {
    if is_live(h, k) {
        HubModel {
            streams: h.streams.remove(key_index(h.streams, k)),
            teardowns: h.teardowns.filter(keeps(k, None)),
            ..h
        }
    } else {
        h
    }
}

pub open spec fn subscribe_result<T>(h: HubModel<T>, k: StreamKeyView) -> Result<usize, StreamHubError> {
    if is_live(h, k) {
        Ok(key_index(h.streams, k) as usize)
    } else if h.rtmp_pull_enabled {
        Err(err(StreamHubErrorValue::NoAppName))
    } else {
        Err(err(StreamHubErrorValue::NoAppOrStreamName))
    }
}

pub open spec fn after_subscribe<T>(h: HubModel<T>, k: StreamKeyView, info: SubscriberInfo) -> HubModel<T> {
    if is_live(h, k) {
        HubModel { teardowns: with_entry(h.teardowns, info.id, TeardownModel::UnSubscribe { key: k, info }), ..h }
    } else {
        h
    }
}

pub open spec fn unsubscribe_result<T>(h: HubModel<T>, k: StreamKeyView) -> Result<usize, StreamHubError> {
    if is_live(h, k) {
        Ok(key_index(h.streams, k) as usize)
    } else {
        Err(err(StreamHubErrorValue::NoAppName))
    }
}

/// The registry after session `info.id` leaves stream `k`: its teardown record is
/// gone if it names `k`. Nothing changes when `k` is not live.
pub open spec fn after_unsubscribe<T>(h: HubModel<T>, k: StreamKeyView, info: SubscriberInfo) -> HubModel<T> {
    if is_live(h, k) {
        HubModel { teardowns: h.teardowns.filter(keeps(k, Some(info.id))), ..h }
    } else {
        h
    }
}

/// The registry after a teardown event is processed.
pub open spec fn after_teardown<T>(h: HubModel<T>, ev: TeardownModel) -> HubModel<T> {
    match ev {
        TeardownModel::UnPublish { key, info: _ } => after_unpublish(h, key),
        TeardownModel::UnSubscribe { key, info } => after_unsubscribe(h, key, info),
    }
}

/// The teardown event recorded for session `id`.
pub open spec fn kick_result<T>(h: HubModel<T>, id: SessionId) -> Result<TeardownModel, StreamHubError> {
    if has_entry(h.teardowns, id) {
        Ok(h.teardowns[choose|i: int| 0 <= i < h.teardowns.len() && #[trigger] h.teardowns[i].0 == id].1)
    } else {
        Err(err(StreamHubErrorValue::NoSession))
    }
}

/// The streams a statistics query asks: all of them, or the one named.
pub open spec fn statistic_targets<T>(h: HubModel<T>, k: Option<StreamKeyView>) -> Seq<usize> {
    match k {
        None => Seq::new(h.streams.len(), |i: int| i as usize),
        Some(k) => if is_live(h, k) {
            seq![key_index(h.streams, k) as usize]
        } else {
            Seq::empty()
        },
    }
}

proof fn lemma_live_after_push<T>(s: Seq<(StreamKeyView, T)>, e: (StreamKeyView, T), k: StreamKeyView)
    requires
        key_index(s, k) >= 0,
    ensures
        key_index(s.push(e), k) >= 0,
{
    let i = key_index(s, k);
    assert(s.push(e)[i].0 == k);
}

proof fn lemma_live_after_remove<T>(s: Seq<(StreamKeyView, T)>, i: int, k: StreamKeyView)
    requires
        0 <= i < s.len(),
        key_index(s, k) >= 0,
        s[i].0 != k,
    ensures
        key_index(s.remove(i), k) >= 0,
{
    let j = key_index(s, k);
    let j2 = if j < i { j } else { j - 1 };
    assert(s.remove(i)[j2].0 == k);
}

impl<T> StreamsHub<T> {
    pub open spec fn wf(&self) -> bool {
        hub_wf(self@)
    }

    /// An empty registry with every relay switch off.
    pub fn new() -> (r: Self)
        ensures
            r.wf(),
            r@.streams.len() == 0,
            r@.teardowns.len() == 0,
            !r@.rtmp_push_enabled,
            !r@.rtmp_remuxer_enabled,
            !r@.rtmp_pull_enabled,
            !r@.hls_enabled,
    {
        let r = StreamsHub {
            streams: Vec::new(),
            un_pub_sub_events: Vec::new(),
            rtmp_push_enabled: false,
            rtmp_remuxer_enabled: false,
            rtmp_pull_enabled: false,
            hls_enabled: false,
        };
        proof {
            assert(r@.streams =~= Seq::<(StreamKeyView, T)>::empty());
            assert(r@.teardowns =~= Seq::<(SessionId, TeardownModel)>::empty());
        }
        r
    }

    pub fn set_rtmp_push_enabled(&mut self, enabled: bool)
        requires
            old(self).wf(),
        ensures
            final(self).wf(),
            final(self)@ == (HubModel { rtmp_push_enabled: enabled, ..old(self)@ }),
    {
        self.rtmp_push_enabled = enabled;
    }

    pub fn set_rtmp_pull_enabled(&mut self, enabled: bool)
        requires
            old(self).wf(),
        ensures
            final(self).wf(),
            final(self)@ == (HubModel { rtmp_pull_enabled: enabled, ..old(self)@ }),
    {
        self.rtmp_pull_enabled = enabled;
    }

    pub fn set_rtmp_remuxer_enabled(&mut self, enabled: bool)
        requires
            old(self).wf(),
        ensures
            final(self).wf(),
            final(self)@ == (HubModel { rtmp_remuxer_enabled: enabled, ..old(self)@ }),
    {
        self.rtmp_remuxer_enabled = enabled;
    }

    pub fn set_hls_enabled(&mut self, enabled: bool)
        requires
            old(self).wf(),
        ensures
            final(self).wf(),
            final(self)@ == (HubModel { hls_enabled: enabled, ..old(self)@ }),
    {
        self.hls_enabled = enabled;
    }

    /// Number of live streams.
    pub fn stream_count(&self) -> (r: usize)
        ensures
            r == self@.streams.len(),
    {
        self.streams.len()
    }

    /// The handle of the `i`-th live stream.
    pub fn handle_at(&self, i: usize) -> (r: &T)
        requires
            i < self@.streams.len(),
        ensures
            *r == self@.streams[i as int].1,
    {
        &self.streams[i].1
    }

    /// The key of the `i`-th live stream.
    pub fn key_at(&self, i: usize) -> (r: &StreamKey)
        requires
            i < self@.streams.len(),
        ensures
            r@ == self@.streams[i as int].0,
    {
        &self.streams[i].0
    }

    /// Finds the live stream named `key`.
    pub fn find_stream(&self, key: &StreamKey) -> (r: Option<usize>)
        requires
            self.wf(),
        ensures
            match r {
                Some(i) => i as int == key_index(self@.streams, key@) && i < self@.streams.len(),
                None => key_index(self@.streams, key@) == -1,
            },
    {
        let ghost s = self@.streams;
        let mut i: usize = 0;
        while i < self.streams.len()
            invariant
                s == self@.streams,
                keys_unique(s),
                s.len() == self.streams@.len(),
                0 <= i <= s.len(),
                forall|k: int| 0 <= k < i ==> (#[trigger] s[k]).0 != key@,
            decreases s.len() - i,
        {
            if self.streams[i].0.same_as(key) {
                proof {
                    assert(s[i as int].0 == key@);
                    let j = key_index(s, key@);
                    assert(s[j].0 == s[i as int].0);
                }
                return Some(i);
            }
            assert(s[i as int].0 != key@);
            i = i + 1;
        }
        None
    }
}


impl<T> StreamsHub<T> {
    fn record_teardown(&mut self, id: SessionId, ev: TeardownEvent)
        requires
            old(self).wf(),
            teardown_owner(ev@) == id,
            is_live(old(self)@, teardown_key(ev@)),
        ensures
            final(self).wf(),
            final(self)@ == (HubModel { teardowns: with_entry(old(self)@.teardowns, id, ev@), ..old(self)@ }),
    {
        let ghost v = self.un_pub_sub_events@;
        proof {
            lemma_map_unique(v, |e: TeardownEvent| teardown_view(e));
        }
        let ghost evm = ev@;
        put_entry(&mut self.un_pub_sub_events, id, ev);
        proof {
            lemma_map_with_entry(v, id, ev, |e: TeardownEvent| teardown_view(e));
            lemma_map_unique(self.un_pub_sub_events@, |e: TeardownEvent| teardown_view(e));
            let m = teardown_models(v);
            lemma_without_entry_lacks(m, id);
            let w = without_entry(m, id);
            let n = w.push((id, evm));
            assert forall|e: (SessionId, TeardownModel)| #[trigger] n.contains(e) implies teardown_owner(e.1) == e.0
                && is_live(self@, teardown_key(e.1)) by {
                let k = choose|k: int| 0 <= k < n.len() && n[k] == e;
                if k < w.len() {
                    assert(w.contains(e)) by { assert(w[k] == e); }
                }
            }
        }
    }

    /// Drops the teardown records that `keeps(key@, only)` does not keep.
    fn drop_teardowns(&mut self, key: &StreamKey, only: Option<SessionId>)
        requires
            old(self).wf(),
        ensures
            final(self).wf(),
            final(self)@ == (HubModel { teardowns: old(self)@.teardowns.filter(keeps(key@, only)), ..old(self)@ }),
    {
        let ghost h0 = self@;
        let ghost m = h0.teardowns;
        let ghost p = keeps(key@, only);
        let mut i: usize = 0;
        let ghost mut j: int = 0;
        while i < self.un_pub_sub_events.len()
            invariant
                0 <= j <= m.len(),
                p == keeps(key@, only),
                self@ == (HubModel { teardowns: teardown_models(self.un_pub_sub_events@), ..h0 }),
                teardown_models(self.un_pub_sub_events@) == m.take(j).filter(p) + m.subrange(j, m.len() as int),
                i as int == m.take(j).filter(p).len(),
            decreases m.len() - j,
        {
            let ghost cur = teardown_models(self.un_pub_sub_events@);
            proof {
                reveal(Seq::filter);
                assert(m.take(j + 1).drop_last() =~= m.take(j));
                assert(cur[i as int] == m[j]);
            }
            let names = self.un_pub_sub_events[i].1.key().same_as(key);
            let drop = names && match only {
                Some(id) => self.un_pub_sub_events[i].0 == id,
                None => true,
            };
            assert(drop == !p(m[j]));
            if drop {
                self.un_pub_sub_events.remove(i);
                proof {
                    assert(teardown_models(self.un_pub_sub_events@) =~= cur.remove(i as int));
                    assert(m.take(j + 1).filter(p) == m.take(j).filter(p));
                    assert(cur.remove(i as int) =~= m.take(j + 1).filter(p) + m.subrange(j + 1, m.len() as int));
                }
            } else {
                proof {
                    assert(m.take(j + 1).filter(p) == m.take(j).filter(p).push(m[j]));
                    assert(cur =~= m.take(j + 1).filter(p) + m.subrange(j + 1, m.len() as int));
                }
                i = i + 1;
            }
            proof {
                j = j + 1;
            }
        }
        proof {
            assert(m.take(j) =~= m) by {
                if j < m.len() {
                    assert(teardown_models(self.un_pub_sub_events@).len() == i + (m.len() - j));
                }
            }
            assert(teardown_models(self.un_pub_sub_events@) =~= m.filter(p));
            lemma_filter_unique(m, p);
            assert forall|e: (SessionId, TeardownModel)| #[trigger] m.filter(p).contains(e) implies teardown_owner(e.1) == e.0
                && is_live(self@, teardown_key(e.1)) by {
                lemma_filter_subset(m, p, e);
            }
        }
    }

    /// Registers a newly published stream under `protocol` and `name`, with the
    /// handle of its transceiver, and records the publisher's teardown event.
    /// Fails with `Exists` when the key is live. On success, says whether the new
    /// stream is to be announced to relays and remuxers.
    pub fn publish(&mut self, protocol: Protocol, name: String, info: PublisherInfo, handle: T) -> (r: Result<bool, StreamHubError>)
        requires
            old(self).wf(),
        ensures
            final(self).wf(),
            r == publish_result(old(self)@, StreamKeyView { protocol, name: name@ }),
            final(self)@ == after_publish(old(self)@, StreamKeyView { protocol, name: name@ }, info, handle),
    {
        let key = StreamKey::new(protocol, name);
        if self.find_stream(&key).is_some() {
            return Err(StreamHubError::new(StreamHubErrorValue::Exists));
        }
        let ghost old_streams = self.streams@;
        let ghost k = key@;
        let recorded_key = key.clone();
        self.streams.push((key, handle));
        proof {
            assert(stream_models(self.streams@) =~= stream_models(old_streams).push((k, handle)));
            let s = stream_models(self.streams@);
            assert forall|a: int, b: int| 0 <= a < s.len() && 0 <= b < s.len() && #[trigger] s[a].0 == #[trigger] s[b].0 implies a == b by {
                if a < old_streams.len() && b == old_streams.len() {
                    assert(stream_models(old_streams)[a].0 == k);
                }
                if b < old_streams.len() && a == old_streams.len() {
                    assert(stream_models(old_streams)[b].0 == k);
                }
                if a < old_streams.len() && b < old_streams.len() {
                    assert(stream_models(old_streams)[a].0 == s[a].0);
                    assert(stream_models(old_streams)[b].0 == s[b].0);
                }
            }
            assert forall|e: (SessionId, TeardownModel)| #[trigger] self@.teardowns.contains(e) implies is_live(self@, teardown_key(e.1)) by {
                lemma_live_after_push(stream_models(old_streams), (k, handle), teardown_key(e.1));
            }
            assert(s[old_streams.len() as int].0 == k);
        }
        self.record_teardown(info.id, TeardownEvent::UnPublish { key: recorded_key, info });
        Ok(self.rtmp_push_enabled || self.hls_enabled || self.rtmp_remuxer_enabled)
    }

    /// Takes the stream named by `protocol` and `name` out of the registry, with
    /// every teardown record that names it, and hands back its transceiver's
    /// handle, so that the transceiver can be told to stop. Fails with `NoAppName`,
    /// changing nothing, when the key is not live.
    pub fn unpublish(&mut self, protocol: Protocol, name: String) -> (r: Result<T, StreamHubError>)
        requires
            old(self).wf(),
        ensures
            final(self).wf(),
            r == unpublish_result(old(self)@, StreamKeyView { protocol, name: name@ }),
            final(self)@ == after_unpublish(old(self)@, StreamKeyView { protocol, name: name@ }),
    {
        let key = StreamKey::new(protocol, name);
        match self.find_stream(&key) {
            None => Err(StreamHubError::new(StreamHubErrorValue::NoAppName)),
            Some(i) => {
                self.drop_teardowns(&key, None);
                let ghost old_streams = self.streams@;
                let ghost h1 = self@;
                let entry = self.streams.remove(i);
                proof {
                    assert(stream_models(self.streams@) =~= stream_models(old_streams).remove(i as int));
                    let s = stream_models(self.streams@);
                    let o = stream_models(old_streams);
                    assert forall|a: int, b: int| 0 <= a < s.len() && 0 <= b < s.len() && #[trigger] s[a].0 == #[trigger] s[b].0 implies a == b by {
                        let a2 = if a < i { a } else { a + 1 };
                        let b2 = if b < i { b } else { b + 1 };
                        assert(s[a] == o[a2]);
                        assert(s[b] == o[b2]);
                    }
                    assert(o[i as int].1 == entry.1);
                    assert(o[i as int].0 == key@);
                    assert forall|e: (SessionId, TeardownModel)| #[trigger] self@.teardowns.contains(e) implies is_live(self@, teardown_key(e.1)) by {
                        assert(h1.teardowns.contains(e));
                        lemma_filter_subset(old(self)@.teardowns, keeps(key@, None), e);
                        lemma_live_after_remove(o, i as int, teardown_key(e.1));
                    }
                }
                Ok(entry.1)
            },
        }
    }

    /// Routes a subscription: the position of the live stream named by `protocol`
    /// and `name`, after recording the subscriber's teardown event. When the key is
    /// not live, fails with `NoAppName` if relays may pull the stream (the caller
    /// then asks them to), else with `NoAppOrStreamName`.
    pub fn subscribe(&mut self, protocol: Protocol, name: String, info: SubscriberInfo) -> (r: Result<usize, StreamHubError>)
        requires
            old(self).wf(),
        ensures
            final(self).wf(),
            r == subscribe_result(old(self)@, StreamKeyView { protocol, name: name@ }),
            final(self)@ == after_subscribe(old(self)@, StreamKeyView { protocol, name: name@ }, info),
            r is Ok ==> r->Ok_0 < final(self)@.streams.len(),
    {
        let key = StreamKey::new(protocol, name);
        match self.find_stream(&key) {
            Some(i) => {
                self.record_teardown(info.id, TeardownEvent::UnSubscribe { key, info });
                Ok(i)
            },
            None => {
                if self.rtmp_pull_enabled {
                    Err(StreamHubError::new(StreamHubErrorValue::NoAppName))
                } else {
                    Err(StreamHubError::new(StreamHubErrorValue::NoAppOrStreamName))
                }
            },
        }
    }

    /// Routes an unsubscription: the position of the live stream named by
    /// `protocol` and `name`, after dropping the subscriber's teardown record if it
    /// names that stream. Fails with `NoAppName`, changing nothing, when the key is
    /// not live.
    pub fn unsubscribe(&mut self, protocol: Protocol, name: String, sub_info: SubscriberInfo) -> (r: Result<usize, StreamHubError>)
        requires
            old(self).wf(),
        ensures
            final(self).wf(),
            r == unsubscribe_result(old(self)@, StreamKeyView { protocol, name: name@ }),
            final(self)@ == after_unsubscribe(old(self)@, StreamKeyView { protocol, name: name@ }, sub_info),
            r is Ok ==> r->Ok_0 < final(self)@.streams.len(),
    {
        let key = StreamKey::new(protocol, name);
        match self.find_stream(&key) {
            Some(i) => {
                self.drop_teardowns(&key, Some(sub_info.id));
                Ok(i)
            },
            None => Err(StreamHubError::new(StreamHubErrorValue::NoAppName)),
        }
    }

    /// The teardown event recorded for session `uid`, to be submitted again so that
    /// the session is torn down as if it had left; `NoSession` when none is recorded.
    pub fn api_kick_off_client(&self, uid: SessionId) -> (r: Result<TeardownEvent, StreamHubError>)
        requires
            self.wf(),
        ensures
            match r {
                Ok(ev) => kick_result(self@, uid) == Ok::<TeardownModel, StreamHubError>(ev@),
                Err(e) => kick_result(self@, uid) == Err::<TeardownModel, StreamHubError>(e),
            },
    {
        let ghost m = self@.teardowns;
        proof {
            lemma_map_unique(self.un_pub_sub_events@, |e: TeardownEvent| teardown_view(e));
        }
        let mut i: usize = 0;
        while i < self.un_pub_sub_events.len()
            invariant
                m == self@.teardowns,
                entry_ids_unique(m),
                m.len() == self.un_pub_sub_events@.len(),
                0 <= i <= m.len(),
                forall|k: int| 0 <= k < i ==> (#[trigger] m[k]).0 != uid,
            decreases m.len() - i,
        {
            if self.un_pub_sub_events[i].0 == uid {
                proof {
                    assert(m[i as int].0 == uid);
                    assert(has_entry(m, uid));
                    let j = choose|j: int| 0 <= j < m.len() && #[trigger] m[j].0 == uid;
                    assert(m[j].0 == m[i as int].0);
                    assert(m[i as int].1 == self.un_pub_sub_events@[i as int].1@);
                }
                return Ok(self.un_pub_sub_events[i].1.clone());
            }
            assert(m[i as int].0 != uid);
            i = i + 1;
        }
        Err(StreamHubError::new(StreamHubErrorValue::NoSession))
    }

    /// Routes a request for a stream's static information: the position of the
    /// live stream, or `None` (the request is dropped).
    pub fn request(&self, protocol: Protocol, name: String) -> (r: Option<usize>)
        requires
            self.wf(),
        ensures
            match r {
                Some(i) => i as int == key_index(self@.streams, StreamKeyView { protocol, name: name@ }) && i < self@.streams.len(),
                None => !is_live(self@, StreamKeyView { protocol, name: name@ }),
            },
    {
        let key = StreamKey::new(protocol, name);
        self.find_stream(&key)
    }

    /// The positions of the streams that a statistics query asks: every live stream
    /// when no key is given, else the named one if it is live. With no live stream
    /// the answer is empty, and the query is answered at once.
    pub fn api_statistic_targets(&self, key: Option<&StreamKey>) -> (r: Vec<usize>)
        requires
            self.wf(),
        ensures
            r@ == statistic_targets(self@, match key { Some(k) => Some(k@), None => None }),
            self@.streams.len() == 0 ==> r@.len() == 0,
            forall|j: int| 0 <= j < r@.len() ==> r@[j] < self@.streams.len(),
    {
        match key {
            None => {
                let mut r: Vec<usize> = Vec::new();
                let mut i: usize = 0;
                while i < self.streams.len()
                    invariant
                        0 <= i <= self@.streams.len(),
                        self@.streams.len() == self.streams@.len(),
                        r@ =~= Seq::new(i as nat, |j: int| j as usize),
                    decreases self@.streams.len() - i,
                {
                    r.push(i);
                    i = i + 1;
                }
                r
            },
            Some(k) => match self.find_stream(k) {
                Some(i) => {
                    let r = vec![i];
                    proof {
                        assert(r@ =~= seq![i]);
                    }
                    r
                },
                None => {
                    let r: Vec<usize> = Vec::new();
                    proof {
                        assert(r@ =~= Seq::<usize>::empty());
                    }
                    r
                },
            },
        }
    }
}


/// Publishing a key that is live fails with `Exists`: after any publish of `k`,
/// a second publish of `k` fails.
pub proof fn publish_twice_fails<T>(h: HubModel<T>, k: StreamKeyView, info: PublisherInfo, handle: T)
    requires
        hub_wf(h),
    ensures
        publish_result(after_publish(h, k, info, handle), k) == Err::<bool, StreamHubError>(err(StreamHubErrorValue::Exists)),
{
    let h1 = after_publish(h, k, info, handle);
    if !is_live(h, k) {
        assert(h1.streams[h.streams.len() as int].0 == k);
    }
}

/// Unpublishing `k` frees the key: it is no longer live, and a publish of it succeeds.
pub proof fn unpublish_frees_key<T>(h: HubModel<T>, k: StreamKeyView)
    requires
        hub_wf(h),
    ensures
        !is_live(after_unpublish(h, k), k),
        publish_result(after_unpublish(h, k), k) is Ok,
{
    let h1 = after_unpublish(h, k);
    if is_live(h, k) {
        let i = key_index(h.streams, k);
        if is_live(h1, k) {
            let j = choose|j: int| 0 <= j < h1.streams.len() && h1.streams[j].0 == k;
            let j2 = if j < i { j } else { j + 1 };
            assert(h1.streams[j] == h.streams[j2]);
            assert(h.streams[j2].0 == h.streams[i].0);
        }
    }
}

/// A failed unpublish or unsubscribe leaves the registry as it was.
pub proof fn failed_teardown_changes_nothing<T>(h: HubModel<T>, k: StreamKeyView, info: SubscriberInfo)
    requires
        !is_live(h, k),
    ensures
        unpublish_result(h, k) is Err,
        after_unpublish(h, k) == h,
        unsubscribe_result(h, k) is Err,
        after_unsubscribe(h, k, info) == h,
{
}

/// Kicking a session off twice tears it down once: processing the teardown event
/// recorded for `id` drops the record, so that a later kick finds `NoSession`,
/// and processing the same event a second time changes no stream.
pub proof fn kick_is_idempotent<T>(h: HubModel<T>, id: SessionId)
    requires
        hub_wf(h),
        kick_result(h, id) is Ok,
    ensures
        kick_result(after_teardown(h, kick_result(h, id)->Ok_0), id) == Err::<TeardownModel, StreamHubError>(
            err(StreamHubErrorValue::NoSession),
        ),
        after_teardown(after_teardown(h, kick_result(h, id)->Ok_0), kick_result(h, id)->Ok_0).streams
            == after_teardown(h, kick_result(h, id)->Ok_0).streams,
{
    let i = choose|i: int| 0 <= i < h.teardowns.len() && #[trigger] h.teardowns[i].0 == id;
    let ev = h.teardowns[i].1;
    assert(h.teardowns.contains(h.teardowns[i]));
    assert(teardown_owner(ev) == id);
    let k = teardown_key(ev);
    assert(is_live(h, k));
    let only = match ev {
        TeardownModel::UnPublish { .. } => None,
        TeardownModel::UnSubscribe { info, .. } => Some(info.id),
    };
    let p = keeps(k, only);
    let h1 = after_teardown(h, ev);
    assert(h1.teardowns == h.teardowns.filter(p));
    if has_entry(h1.teardowns, id) {
        let j = choose|j: int| 0 <= j < h1.teardowns.len() && #[trigger] h1.teardowns[j].0 == id;
        let e = h1.teardowns[j];
        assert(h1.teardowns.contains(e));
        lemma_filter_subset(h.teardowns, p, e);
        let j2 = choose|j2: int| 0 <= j2 < h.teardowns.len() && h.teardowns[j2] == e;
        assert(h.teardowns[j2].0 == h.teardowns[i].0);
        assert(e == h.teardowns[i]);
    }
    match ev {
        TeardownModel::UnPublish { key, .. } => {
            unpublish_frees_key(h, key);
        },
        TeardownModel::UnSubscribe { .. } => {},
    }
}

/// Each live key reaches its own transceiver: distinct live keys stand at distinct
/// positions of the registry, and the position of a key holds that key.
pub proof fn keys_reach_their_own_stream<T>(h: HubModel<T>, k1: StreamKeyView, k2: StreamKeyView)
    requires
        hub_wf(h),
        is_live(h, k1),
        is_live(h, k2),
        k1 != k2,
    ensures
        key_index(h.streams, k1) != key_index(h.streams, k2),
        h.streams[key_index(h.streams, k1)].0 == k1,
        h.streams[key_index(h.streams, k2)].0 == k2,
{
}

} // verus!
