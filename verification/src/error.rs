use vstd::prelude::*;

verus! {

/// A membership query that the messaging service did not answer: the bot or
/// the user is no member, or the chat is unknown.
#[derive(Clone, Debug, PartialEq, Eq)]
pub struct RemoteLookupError {
    pub reason: String,
}

/// A file that could not be fetched from the messaging service or stored.
#[derive(Clone, Debug, PartialEq, Eq)]
pub struct DownloadError {
    pub reason: String,
}

/// Bytes that are no raster image in any known format.
#[derive(Clone, Debug, PartialEq, Eq)]
pub struct DecodeError {
    pub reason: String,
}

/// A text extraction that the engine could not carry out on the image.
#[derive(Clone, Debug, PartialEq, Eq)]
pub struct OcrEngineError {
    pub reason: String,
}

/// A restriction or a notification that the messaging service refused.
#[derive(Clone, Debug, PartialEq, Eq)]
pub struct RemoteActionError {
    pub reason: String,
}

/// Why the detector gave no verdict on an image.
#[derive(Clone, Debug, PartialEq, Eq)]
pub enum DetectError {
    Decode(DecodeError),
    OcrEngine(OcrEngineError),
}

/// Why the handling of one message ended without completing.
#[derive(Clone, Debug, PartialEq, Eq)]
pub enum HandlerError {
    RemoteLookup(RemoteLookupError),
    Download(DownloadError),
    RemoteAction(RemoteActionError),
}

} // verus!
