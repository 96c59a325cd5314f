use vstd::prelude::*;

verus! {

/// Why a frame did not yield a tick.
#[derive(PartialEq, Eq, Structural, Clone, Copy, Debug)]
pub enum DecodeFailure {
    /// The frame is not a JSON document.
    NotJson,
    /// The document has neither a `data` member nor a `type` string.
    MissingData,
    /// `data` holds a session credential, which the stream never carries.
    CredentialPayload,
    MissingPrice,
    BadPrice,
    MissingVolume,
    BadVolume,
    MissingTimestamp,
    BadTimestamp,
    MissingMarket,
    BadMarket,
}

/// The errors of the client.
#[derive(PartialEq, Eq, Structural, Clone, Copy, Debug)]
pub enum ClientError {
    /// The auth endpoint answered with a status other than 200.
    AuthTransportFailed(u16),
    /// The auth answer carried no usable token.
    AuthPayloadInvalid,
    /// The streaming transport could not be opened.
    StreamConnectFailed,
    /// The welcome or the subscription acknowledgment did not arrive in time.
    StreamHandshakeTimeout,
    /// The transport failed after the session was established.
    StreamReadFailed,
    /// A frame could not be decoded; the session goes on.
    DecodeFailed(DecodeFailure),
    /// A tick with a price or volume that is not above zero; skipped.
    DecodeDropped,
    /// Reconnection attempts are exhausted.
    Terminated,
}

} // verus!
