//! The errors that crossing this client's boundary can produce.
use vstd::prelude::*;

verus! {

/// `http::uri::InvalidUri`: why an endpoint failed to parse.
#[verifier::external_type_specification]
#[verifier::external_body]
pub struct ExInvalidUri(http::uri::InvalidUri);

/// `tonic::transport::Error`: a channel or encryption setup failure.
#[verifier::external_type_specification]
#[verifier::external_body]
pub struct ExTransportError(tonic::transport::Error);

/// `tonic::Status`: a call-level failure reported by the peer.
#[verifier::external_type_specification]
#[verifier::external_body]
pub struct ExStatus(tonic::Status);

/// `futures::channel::mpsc::SendError`: a send into a closed request sink.
#[verifier::external_type_specification]
#[verifier::external_body]
pub struct ExSendError(futures::channel::mpsc::SendError);

/// Where a credential leaves printable ASCII: the first offending byte of its
/// UTF-8 encoding and that byte's position.
#[derive(Debug, Clone, Copy, PartialEq, Eq, Structural)]
pub struct CredentialFormatError {
    pub index: usize,
    pub byte: u8,
}

/// Every failure that a client operation reports to its caller.
#[derive(Debug)]
pub enum GeyserGrpcClientError {
    /// The endpoint does not parse as a URI.
    InvalidUri(http::uri::InvalidUri),
    /// The credential holds a byte outside printable ASCII.
    MetadataValueError(CredentialFormatError),
    /// The credential is present but has the given (zero) length.
    InvalidXTokenLength(usize),
    /// No async runtime was entered on the calling thread, so the channel's
    /// background worker could not be started.
    NoAsyncRuntime,
    /// Channel or encryption setup failed, or the transport failed during a call.
    TonicError(tonic::transport::Error),
    /// The remote peer reported a call-level failure.
    TonicStatus(tonic::Status),
    /// The request sink's receiver was gone when a request was sent.
    SubscribeSendError(futures::channel::mpsc::SendError),
}

pub type GeyserGrpcClientResult<T> = Result<T, GeyserGrpcClientError>;

} // verus!
