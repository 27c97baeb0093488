//! The error record that both adapters hand to the pipeline.

use vstd::prelude::*;
use vstd::string::*;

verus! {

/// What went wrong, by the side of the adapter on which it happened.
#[derive(Clone, Copy, Debug, PartialEq, Eq, Structural)]
pub enum ErrorKind {
    /// The compressed input is malformed or unsupported, or libwebp refused to decode it.
    ImageDecodingError,
    /// libwebp produced no output for a frame.
    ImageEncodingError,
    /// The stream that the decoder reads from failed.
    DecodingIoError,
    /// The stream that the encoder writes to failed.
    EncodingIoError,
    /// The pipeline could not provide the bitmap that a decode needs.
    AllocationFailed,
    /// The caller asked an adapter for something that it does not do.
    InvalidArgument,
}

/// A failure of the stream bound to an adapter, as the caller observed it.
#[derive(Clone, Debug, PartialEq, Eq)]
pub struct IoError {
    pub message: String,
}

impl View for IoError {
    type V = Seq<char>;

    open spec fn view(&self) -> Seq<char> {
        self.message@
    }
}

/// An error of the pipeline: a kind and a diagnostic message.
#[derive(Clone, Debug, PartialEq, Eq)]
pub struct FlowError {
    pub kind: ErrorKind,
    pub message: String,
}

/// The mathematical content of a [`FlowError`].
pub struct FlowErrorView {
    pub kind: ErrorKind,
    pub message: Seq<char>,
}

impl View for FlowError {
    type V = FlowErrorView;

    open spec fn view(&self) -> FlowErrorView {
        FlowErrorView { kind: self.kind, message: self.message@ }
    }
}

impl FlowErrorView {
    /// The error that wraps a failure of the source stream.
    pub open spec fn from_decoder(e: Seq<char>) -> FlowErrorView {
        FlowErrorView { kind: ErrorKind::DecodingIoError, message: e }
    }

    /// The error that wraps a failure of the destination stream.
    pub open spec fn from_encoder(e: Seq<char>) -> FlowErrorView {
        FlowErrorView { kind: ErrorKind::EncodingIoError, message: e }
    }
}

impl FlowError {
    /// An error of the given kind with the given message.
    pub fn new(kind: ErrorKind, message: &str) -> (e: FlowError)
        ensures
            e@ == (FlowErrorView { kind, message: message@ }),
    {
        FlowError { kind, message: message.to_owned() }
    }

    /// Wraps a failure of the stream that a decoder reads from. The message is kept;
    /// the kind says that the source failed.
    pub fn from_decoder(e: IoError) -> (r: FlowError)
        ensures
            r@ == FlowErrorView::from_decoder(e@),
    {
        FlowError { kind: ErrorKind::DecodingIoError, message: e.message }
    }

    /// Wraps a failure of the stream that an encoder writes to. The message is kept;
    /// the kind says that the destination failed.
    pub fn from_encoder(e: IoError) -> (r: FlowError)
        ensures
            r@ == FlowErrorView::from_encoder(e@),
    {
        FlowError { kind: ErrorKind::EncodingIoError, message: e.message }
    }
}

} // verus!
