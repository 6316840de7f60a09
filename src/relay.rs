use vstd::prelude::*;
use crate::define::BroadcastEvent;
use crate::stream::{app_part, split_stream_name, stream_part, Protocol};

verus! {

/// The application and stream names of an RTMP stream that was published, for
/// the components that act on new RTMP streams.
pub open spec fn published_rtmp(ev: BroadcastEvent) -> Option<(Seq<char>, Seq<char>)> {
    match ev {
        BroadcastEvent::Publish { protocol: Protocol::Rtmp, name } => Some((app_part(name@), stream_part(name@))),
        _ => None,
    }
}

/// The application and stream names of an RTMP stream that was asked for and is
/// not live, for the component that pulls streams from a remote server.
pub open spec fn wanted_rtmp(ev: BroadcastEvent) -> Option<(Seq<char>, Seq<char>)> {
    match ev {
        BroadcastEvent::Subscribe { protocol: Protocol::Rtmp, name } => Some((app_part(name@), stream_part(name@))),
        _ => None,
    }
}

pub open spec fn names_view(r: Option<(String, String)>) -> Option<(Seq<char>, Seq<char>)> {
    match r {
        Some((a, s)) => Some((a@, s@)),
        None => None,
    }
}

/// The stream that a lifecycle notice asks to push to the remote server, if any.
pub fn rtmp_publish_target(ev: &BroadcastEvent) -> (r: Option<(String, String)>)
    ensures
        names_view(r) == published_rtmp(*ev),
{
    match ev {
        BroadcastEvent::Publish { protocol: Protocol::Rtmp, name } => Some(split_stream_name(name.as_str())),
        _ => None,
    }
}

/// The stream that a lifecycle notice asks to pull from the remote server, if any.
pub fn rtmp_pull_target(ev: &BroadcastEvent) -> (r: Option<(String, String)>)
    ensures
        names_view(r) == wanted_rtmp(*ev),
{
    match ev {
        BroadcastEvent::Subscribe { protocol: Protocol::Rtmp, name } => Some(split_stream_name(name.as_str())),
        _ => None,
    }
}

/// Pushes each newly published RTMP stream to a remote server. `C` receives the
/// lifecycle notices; `P` submits events to the registry.
pub struct PushClient<C, P> {
    pub address: String,
    pub client_event_consumer: C,
    pub channel_event_producer: P,
}

impl<C, P> PushClient<C, P> {
    pub fn new(address: String, consumer: C, producer: P) -> (r: Self)
        ensures
            r.address@ == address@,
            r.client_event_consumer == consumer,
            r.channel_event_producer == producer,
    {
        PushClient { address, client_event_consumer: consumer, channel_event_producer: producer }
    }

    /// The application and stream names to push for a notice, if it asks for a push.
    pub fn target(&self, ev: &BroadcastEvent) -> (r: Option<(String, String)>)
        ensures
            names_view(r) == published_rtmp(*ev),
    {
        rtmp_publish_target(ev)
    }
}

/// Pulls RTMP streams that are asked for but not live from a remote server.
pub struct PullClient<C, P> {
    pub address: String,
    pub client_event_consumer: C,
    pub channel_event_producer: P,
}

impl<C, P> PullClient<C, P> {
    pub fn new(address: String, consumer: C, producer: P) -> (r: Self)
        ensures
            r.address@ == address@,
            r.client_event_consumer == consumer,
            r.channel_event_producer == producer,
    {
        PullClient { address, client_event_consumer: consumer, channel_event_producer: producer }
    }

    /// The application and stream names to pull for a notice, if it asks for a pull.
    pub fn target(&self, ev: &BroadcastEvent) -> (r: Option<(String, String)>)
        ensures
            names_view(r) == wanted_rtmp(*ev),
    {
        rtmp_pull_target(ev)
    }
}

/// Starts HLS segmenting for each newly published RTMP stream.
pub struct HlsRemuxer<C, P> {
    pub client_event_consumer: C,
    pub event_producer: P,
    /// Whether segments are kept on disk.
    pub need_record: bool,
}

impl<C, P> HlsRemuxer<C, P> {
    pub fn new(consumer: C, event_producer: P, need_record: bool) -> (r: Self)
        ensures
            r.client_event_consumer == consumer,
            r.event_producer == event_producer,
            r.need_record == need_record,
    {
        HlsRemuxer { client_event_consumer: consumer, event_producer, need_record }
    }

    /// The application and stream names to segment for a notice, if it announces an RTMP stream.
    pub fn target(&self, ev: &BroadcastEvent) -> (r: Option<(String, String)>)
        ensures
            names_view(r) == published_rtmp(*ev),
    {
        rtmp_publish_target(ev)
    }
}

/// Remuxes streams of other protocols to RTMP.
pub struct RtmpRemuxer<C, P> {
    pub receiver: C,
    pub event_producer: P,
}

impl<C, P> RtmpRemuxer<C, P> {
    pub fn new(receiver: C, event_producer: P) -> (r: Self)
        ensures
            r.receiver == receiver,
            r.event_producer == event_producer,
    {
        RtmpRemuxer { receiver, event_producer }
    }
}

} // verus!
