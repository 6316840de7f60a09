use vstd::prelude::*;
use crate::session::SessionId;
use crate::stream::Protocol;
use crate::errors::StreamHubErrorValue;

verus! {

/// What kind of consumer a subscriber is.
#[derive(Clone, Copy, Debug, PartialEq, Eq, Structural)]
pub enum SubscribeType {
    PlayerRtmp,
    PlayerHttpFlv,
    PlayerHls,
    PlayerWebrtc,
    PlayerRtsp,
    PushRtmp,
    GenerateHls,
    RemuxRtmp,
}

/// The shape of data that a subscriber consumes.
#[derive(Clone, Copy, Debug, PartialEq, Eq, Structural)]
pub enum SubDataType {
    Frame,
    Packet,
}

/// The shapes of data that a publisher produces, fixed for the life of the stream.
#[derive(Clone, Copy, Debug, PartialEq, Eq, Structural)]
pub enum PubDataType {
    Frame,
    Packet,
    Both,
}

/// What kind of producer a publisher is.
#[derive(Clone, Copy, Debug, PartialEq, Eq, Structural)]
pub enum PublishType {
    PushRtmp,
    PullRtmp,
    PushWebrtc,
    PushRtsp,
    RelayRtmp,
}

#[derive(Clone, Copy, Debug, PartialEq, Eq, Structural)]
pub struct SubscriberInfo {
    pub id: SessionId,
    pub sub_type: SubscribeType,
    pub sub_data_type: SubDataType,
}

#[derive(Clone, Copy, Debug, PartialEq, Eq, Structural)]
pub struct PublisherInfo {
    pub id: SessionId,
    pub pub_type: PublishType,
    pub pub_data_type: PubDataType,
}

impl PubDataType {
    /// Whether a stream of this shape carries decoded frames.
    pub fn has_frames(&self) -> (r: bool)
        ensures
            r == (*self != PubDataType::Packet),
    {
        !matches!(self, PubDataType::Packet)
    }

    /// Whether a stream of this shape carries container packets.
    pub fn has_packets(&self) -> (r: bool)
        ensures
            r == (*self != PubDataType::Frame),
    {
        !matches!(self, PubDataType::Frame)
    }
}

/// A lifecycle notice for relays and remuxers.
#[derive(Debug, Clone)]
pub enum BroadcastEvent {
    /// A stream was published.
    Publish { protocol: Protocol, name: String },
    /// A stream was asked for that is not live here.
    Subscribe { protocol: Protocol, name: String },
}

/// A decoded media item from a publisher.
#[derive(Debug, Clone)]
pub enum FrameData {
    Video { timestamp: u32, data: Vec<u8> },
    Audio { timestamp: u32, data: Vec<u8> },
    MetaData { timestamp: u32, data: Vec<u8> },
    MediaInfo { media_info: Vec<u8> },
}

/// A container-level media chunk from a publisher.
#[derive(Debug, Clone)]
pub enum PacketData {
    Video { timestamp: u32, data: Vec<u8> },
    Audio { timestamp: u32, data: Vec<u8> },
}

impl FrameData {
    /// The error reported when forwarding this item to a subscriber fails.
    pub fn send_error(&self) -> (r: StreamHubErrorValue)
        ensures
            r == (if self is Audio {
                StreamHubErrorValue::SendAudioError
            } else {
                StreamHubErrorValue::SendVideoError
            }),
    {
        match self {
            FrameData::Audio { .. } => StreamHubErrorValue::SendAudioError,
            _ => StreamHubErrorValue::SendVideoError,
        }
    }
}

impl PacketData {
    /// The error reported when forwarding this chunk to a subscriber fails.
    pub fn send_error(&self) -> (r: StreamHubErrorValue)
        ensures
            r == (if self is Audio {
                StreamHubErrorValue::SendAudioError
            } else {
                StreamHubErrorValue::SendVideoError
            }),
    {
        match self {
            PacketData::Audio { .. } => StreamHubErrorValue::SendAudioError,
            PacketData::Video { .. } => StreamHubErrorValue::SendVideoError,
        }
    }
}

} // verus!
