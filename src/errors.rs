use vstd::prelude::*;

verus! {

/// The kinds of failure that registry and transceiver operations report.
#[derive(Clone, Copy, Debug, PartialEq, Eq, Structural)]
pub enum StreamHubErrorValue {
    /// A stream is already published under the key.
    Exists,
    /// No stream is published under the key.
    NoAppName,
    /// Nothing is published under the key and no relay was asked to pull it.
    NoAppOrStreamName,
    /// No teardown event is recorded for the session.
    NoSession,
    /// The peer of a channel has gone away.
    SendError,
    /// Forwarding an audio item to a subscriber failed.
    SendAudioError,
    /// Forwarding a video item to a subscriber failed.
    SendVideoError,
    /// The caller of a request went away before the reply arrived.
    ReceiverDropped,
}

/// A failure of a registry or transceiver operation.
#[derive(Clone, Copy, Debug, PartialEq, Eq, Structural)]
pub struct StreamHubError {
    pub value: StreamHubErrorValue,
}

impl StreamHubError {
    pub fn new(value: StreamHubErrorValue) -> (r: StreamHubError)
        ensures
            r.value == value,
    {
        StreamHubError { value }
    }

    /// The message shown to API callers for this error.
    pub fn message(&self) -> (r: String)
        ensures
            r@ == error_message(self.value),
    {
        match self.value {
            StreamHubErrorValue::Exists => String::from_str("stream exists"),
            StreamHubErrorValue::NoAppName => String::from_str("no app name"),
            StreamHubErrorValue::NoAppOrStreamName => String::from_str("no app or stream name"),
            StreamHubErrorValue::NoSession => String::from_str("no session"),
            StreamHubErrorValue::SendError => String::from_str("send error"),
            StreamHubErrorValue::SendAudioError => String::from_str("send audio error"),
            StreamHubErrorValue::SendVideoError => String::from_str("send video error"),
            StreamHubErrorValue::ReceiverDropped => String::from_str("receiver dropped"),
        }
    }
}

pub open spec fn error_message(v: StreamHubErrorValue) -> Seq<char> {
    match v {
        StreamHubErrorValue::Exists => "stream exists"@,
        StreamHubErrorValue::NoAppName => "no app name"@,
        StreamHubErrorValue::NoAppOrStreamName => "no app or stream name"@,
        StreamHubErrorValue::NoSession => "no session"@,
        StreamHubErrorValue::SendError => "send error"@,
        StreamHubErrorValue::SendAudioError => "send audio error"@,
        StreamHubErrorValue::SendVideoError => "send video error"@,
        StreamHubErrorValue::ReceiverDropped => "receiver dropped"@,
    }
}

} // verus!
