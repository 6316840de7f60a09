use vstd::prelude::*;
use crate::define::{PubDataType, SubscriberInfo};
use crate::session::SessionId;
use crate::table::{
    entry_ids_unique, has_entry, lemma_without_entry_lacks, put_entry, remove_entry, with_entry, without_entry,
};
use crate::statistics::{
    enroll_subscriber, index_of_id, StatisticData, StatisticsStream, StreamStatsModel,
};
use crate::stream::StreamKey;

verus! {

/// Where a subscriber wants its data: a channel of decoded frames or of container packets.
#[allow(inconsistent_fields)]
pub enum DataSender<F, P> {
    Frame { sender: F },
    Packet { sender: P },
}

/// The state of one published stream: the subscribers that its media is fanned
/// out to, and its statistics.
pub struct StreamDataTransceiver<F, P> {
    /// The shapes of data that the publisher produces, fixed at publish time.
    pub data_type: PubDataType,
    /// Where decoded frames go, one sender per subscriber session.
    pub frame_senders: Vec<(SessionId, F)>,
    /// Where container packets go, one sender per subscriber session.
    pub packet_senders: Vec<(SessionId, P)>,
    pub statistics: StatisticsStream,
}

/// Fan-out reaches a session exactly when it is subscribed: after session `id`
/// subscribes with `sender`, its sender is among the targets, and every other
/// session's senders are as they were.
pub proof fn subscribe_adds_target<S>(s: Seq<(SessionId, S)>, id: SessionId, sender: S)
    ensures
        with_entry(s, id, sender).contains((id, sender)),
        forall|e: (SessionId, S)| e.0 != id ==> (#[trigger] with_entry(s, id, sender).contains(e) <==> s.contains(e)),
{
    lemma_without_entry_lacks(s, id);
    let w = without_entry(s, id);
    assert(w.push((id, sender))[w.len() as int] == (id, sender));
    assert forall|e: (SessionId, S)| e.0 != id implies (#[trigger] with_entry(s, id, sender).contains(e) <==> s.contains(e)) by {
        if with_entry(s, id, sender).contains(e) {
            let i = choose|i: int| 0 <= i < w.len() + 1 && w.push((id, sender))[i] == e;
            assert(w.contains(e)) by {
                assert(w[i] == e);
            }
        }
        if s.contains(e) {
            assert(w.contains(e));
            let i = choose|i: int| 0 <= i < w.len() && w[i] == e;
            assert(w.push((id, sender))[i] == e);
        }
    }
}

/// After session `id` unsubscribes, fan-out no longer reaches it, and every other
/// session's senders are as they were.
pub proof fn unsubscribe_removes_target<S>(s: Seq<(SessionId, S)>, id: SessionId)
    ensures
        !has_entry(without_entry(s, id), id),
        forall|e: (SessionId, S)| e.0 != id ==> (#[trigger] without_entry(s, id).contains(e) <==> s.contains(e)),
{
    lemma_without_entry_lacks(s, id);
    let w = without_entry(s, id);
    if has_entry(w, id) {
        let i = choose|i: int| 0 <= i < w.len() && #[trigger] w[i].0 == id;
        assert(w.contains(w[i]));
    }
}

impl<F, P> StreamDataTransceiver<F, P> {
    pub open spec fn wf(&self) -> bool {
        &&& entry_ids_unique(self.frame_senders@)
        &&& entry_ids_unique(self.packet_senders@)
        &&& self.statistics.wf()
    }

    /// The state of a newly published stream `identifier` of shape `data_type`:
    /// no subscriber yet.
    pub fn new(identifier: StreamKey, data_type: PubDataType) -> (r: Self)
        ensures
            r.wf(),
            r.data_type == data_type,
            r.frame_senders@.len() == 0,
            r.packet_senders@.len() == 0,
            r.statistics@.publisher.identifier == identifier@,
            r.statistics@.subscribers.len() == 0,
            r.statistics@.total_recv_bytes == 0,
            r.statistics@.total_send_bytes == 0,
    {
        StreamDataTransceiver {
            data_type,
            frame_senders: Vec::new(),
            packet_senders: Vec::new(),
            statistics: StatisticsStream::new(identifier),
        }
    }

    /// Registers a subscriber: its sender joins the fan-out of its data shape, in
    /// place of any earlier sender of the same session, and it gets a statistics
    /// record. Data buffered for new subscribers must be sent to it before this call.
    pub fn subscribe(&mut self, info: SubscriberInfo, sender: DataSender<F, P>)
        requires
            old(self).wf(),
        ensures
            final(self).wf(),
            final(self).data_type == old(self).data_type,
            match sender {
                DataSender::Frame { sender } => {
                    &&& final(self).frame_senders@ == with_entry(old(self).frame_senders@, info.id, sender)
                    &&& final(self).packet_senders@ == old(self).packet_senders@
                },
                DataSender::Packet { sender } => {
                    &&& final(self).packet_senders@ == with_entry(old(self).packet_senders@, info.id, sender)
                    &&& final(self).frame_senders@ == old(self).frame_senders@
                },
            },
            final(self).statistics@ == (StreamStatsModel {
                subscribers: enroll_subscriber(old(self).statistics@.subscribers, info.id, info.sub_type),
                subscriber_count: enroll_subscriber(old(self).statistics@.subscribers, info.id, info.sub_type).len() as usize,
                ..old(self).statistics@
            }),
    {
        match sender {
            DataSender::Frame { sender } => put_entry(&mut self.frame_senders, info.id, sender),
            DataSender::Packet { sender } => put_entry(&mut self.packet_senders, info.id, sender),
        }
        self.statistics.enroll(info.id, info.sub_type);
    }

    /// Removes a subscriber from both fan-outs and drops its statistics record;
    /// returns whether it had a record.
    pub fn unsubscribe(&mut self, info: SubscriberInfo) -> (r: bool)
        requires
            old(self).wf(),
        ensures
            final(self).wf(),
            final(self).data_type == old(self).data_type,
            final(self).frame_senders@ == without_entry(old(self).frame_senders@, info.id),
            final(self).packet_senders@ == without_entry(old(self).packet_senders@, info.id),
            r == (index_of_id(old(self).statistics@.subscribers, info.id) >= 0),
            final(self).statistics@ == (StreamStatsModel {
                subscribers: if r {
                    old(self).statistics@.subscribers.remove(index_of_id(old(self).statistics@.subscribers, info.id))
                } else {
                    old(self).statistics@.subscribers
                },
                subscriber_count: if r {
                    (old(self).statistics.subscriber_count - 1) as usize
                } else {
                    old(self).statistics.subscriber_count
                },
                ..old(self).statistics@
            }),
    {
        remove_entry(&mut self.frame_senders, info.id);
        remove_entry(&mut self.packet_senders, info.id);
        self.statistics.remove_subscriber(info.id)
    }

    /// A snapshot of the statistics: the whole stream, or only what concerns session `uuid`.
    pub fn query(&self, uuid: Option<SessionId>) -> (r: StatisticsStream)
        ensures
            r@ == match uuid {
                Some(id) => crate::statistics::query_view(self.statistics@, id),
                None => self.statistics@,
            },
    {
        match uuid {
            Some(id) => self.statistics.query_by_uuid(id),
            None => self.statistics.clone(),
        }
    }

    /// Applies one statistics delta reported by the publisher or a subscriber.
    pub fn receive_statistics_data(&mut self, data: StatisticData)
        requires
            old(self).wf(),
        ensures
            final(self).wf(),
            final(self).frame_senders@ == old(self).frame_senders@,
            final(self).packet_senders@ == old(self).packet_senders@,
            final(self).data_type == old(self).data_type,
            final(self).statistics@ == crate::statistics::stats_after(old(self).statistics@, data),
    {
        self.statistics.apply(data);
    }

    /// Closes a rate window of the statistics.
    pub fn calculate(&mut self)
        requires
            old(self).wf(),
        ensures
            final(self).wf(),
            final(self).frame_senders@ == old(self).frame_senders@,
            final(self).packet_senders@ == old(self).packet_senders@,
            final(self).data_type == old(self).data_type,
            final(self).statistics@ == crate::statistics::stats_after_tick(old(self).statistics@),
    {
        self.statistics.calculate();
    }
}

/// A control event for one stream, in the order its control loop receives them.
pub enum ControlEvent<F, P> {
    /// A subscriber to register; data buffered for new subscribers has already been sent to it.
    Subscribe { info: SubscriberInfo, sender: DataSender<F, P> },
    UnSubscribe { info: SubscriberInfo },
    /// The stream is unpublished: every loop of the stream stops.
    UnPublish,
    /// A statistics query, narrowed to one session when `uuid` is given.
    Api { uuid: Option<SessionId> },
    /// A request for the stream's static information.
    Request,
}

/// What the control loop does after an event.
pub enum ControlAction {
    /// Acknowledge a subscription.
    Subscribed,
    /// Nothing more to do.
    Done,
    /// Signal every loop of the stream to stop, and end the control loop.
    Stop,
    /// Answer a statistics query.
    Reply { statistics: StatisticsStream },
    /// Have the protocol handler send the stream's information.
    SendInformation,
}

impl<F, P> StreamDataTransceiver<F, P> {
    /// Handles one control event.
    pub fn handle_control(&mut self, event: ControlEvent<F, P>) -> (r: ControlAction)
        requires
            old(self).wf(),
        ensures
            final(self).wf(),
            final(self).data_type == old(self).data_type,
            match event {
                ControlEvent::Subscribe { info, sender } => {
                    &&& r is Subscribed
                    &&& match sender {
                        DataSender::Frame { sender } => {
                            &&& final(self).frame_senders@ == with_entry(old(self).frame_senders@, info.id, sender)
                            &&& final(self).packet_senders@ == old(self).packet_senders@
                        },
                        DataSender::Packet { sender } => {
                            &&& final(self).packet_senders@ == with_entry(old(self).packet_senders@, info.id, sender)
                            &&& final(self).frame_senders@ == old(self).frame_senders@
                        },
                    }
                    &&& final(self).statistics@ == (StreamStatsModel {
                        subscribers: enroll_subscriber(old(self).statistics@.subscribers, info.id, info.sub_type),
                        subscriber_count: enroll_subscriber(old(self).statistics@.subscribers, info.id, info.sub_type).len() as usize,
                        ..old(self).statistics@
                    })
                },
                ControlEvent::UnSubscribe { info } => {
                    &&& r is Done
                    &&& final(self).frame_senders@ == without_entry(old(self).frame_senders@, info.id)
                    &&& final(self).packet_senders@ == without_entry(old(self).packet_senders@, info.id)
                    &&& final(self).statistics@ == (StreamStatsModel {
                        subscribers: if index_of_id(old(self).statistics@.subscribers, info.id) >= 0 {
                            old(self).statistics@.subscribers.remove(index_of_id(old(self).statistics@.subscribers, info.id))
                        } else {
                            old(self).statistics@.subscribers
                        },
                        subscriber_count: if index_of_id(old(self).statistics@.subscribers, info.id) >= 0 {
                            (old(self).statistics.subscriber_count - 1) as usize
                        } else {
                            old(self).statistics.subscriber_count
                        },
                        ..old(self).statistics@
                    })
                },
                ControlEvent::UnPublish => r is Stop && *final(self) == *old(self),
                ControlEvent::Api { uuid } => {
                    &&& *final(self) == *old(self)
                    &&& r matches ControlAction::Reply { statistics } && statistics@ == match uuid {
                        Some(id) => crate::statistics::query_view(old(self).statistics@, id),
                        None => old(self).statistics@,
                    }
                },
                ControlEvent::Request => r is SendInformation && *final(self) == *old(self),
            },
    {
        match event {
            ControlEvent::Subscribe { info, sender } => {
                self.subscribe(info, sender);
                ControlAction::Subscribed
            },
            ControlEvent::UnSubscribe { info } => {
                self.unsubscribe(info);
                ControlAction::Done
            },
            ControlEvent::UnPublish => ControlAction::Stop,
            ControlEvent::Api { uuid } => ControlAction::Reply { statistics: self.query(uuid) },
            ControlEvent::Request => ControlAction::SendInformation,
        }
    }
}

} // verus!
