//! The error kinds of the archive writer and of the engine client.
use vstd::prelude::*;

verus! {

/// Declares `std::io::Error`, which file operations hand to the archive writer.
#[verifier::external_type_specification]
#[verifier::external_body]
pub struct ExIoError(std::io::Error);

/// Declares `std::str::Utf8Error`, which a failed UTF-8 decode hands back.
#[verifier::external_type_specification]
#[verifier::external_body]
pub struct ExUtf8Error(std::str::Utf8Error);

/// What can end an archive stream early.
#[derive(Debug)]
pub enum TarError {
    /// Opening, inspecting or reading a file failed.
    IOFailed(std::io::Error),
    /// The writer asked for bytes outside of a chunk or a header.
    MemoryAccess(String),
}

impl TarError {
    pub fn memory_access(info: &str) -> (r: TarError)
        ensures
            r is MemoryAccess,
            r->MemoryAccess_0@ == info@,
    {
        TarError::MemoryAccess(info.to_owned())
    }
}

/// Declares `hyper::Error`, the failure of an HTTP connection, request or body.
#[verifier::external_type_specification]
#[verifier::external_body]
pub struct ExHyperError(hyper::Error);

/// Declares `hyper::http::Error`, the failure to build a request.
#[verifier::external_type_specification]
#[verifier::external_body]
pub struct ExHttpError(hyper::http::Error);

/// Declares `tokio::task::JoinError`, a connection driver task that panicked or
/// was cancelled.
#[verifier::external_type_specification]
#[verifier::external_body]
pub struct ExJoinError(tokio::task::JoinError);

/// Declares `serde_json::Error`, a payload that is not the expected JSON.
#[verifier::external_type_specification]
#[verifier::external_body]
pub struct ExJsonError(serde_json::Error);

/// What a call to the engine or an item of one of its streams can fail with.
#[derive(Debug)]
pub enum DockerError {
    /// The socket at this path could not be connected.
    UnixSocketConnect(String, std::io::Error),
    /// The HTTP/1.1 handshake on the socket at this path failed.
    HandshakeFailed(String, hyper::Error),
    /// The request to this URL could not be built.
    BuilderFailed(String, hyper::http::Error),
    /// The connection driver for this URL ended with an error.
    ConnectionFailed(String, hyper::Error),
    /// The connection driver task for this URL panicked or was cancelled.
    JoinFailed(String, tokio::task::JoinError),
    /// The request to this URL could not be sent.
    RequestFailed(String, hyper::Error),
    /// The engine answered this URL with a status that the endpoint does not expect.
    StatusFailed(String, u16),
    /// The response body from this URL could not be read.
    ResponseFailed(String, hyper::Error),
    /// A frame of the streamed body from this URL could not be read.
    HttpFrameFailed(String, hyper::Error),
    /// A frame of the streamed body from this URL carried no data.
    HttpFrameUnrecognized(String),
    /// A payload, received with this status if any, is not the expected JSON;
    /// the bytes are kept for diagnostics.
    DeserializationFailed(Option<u16>, serde_json::Error, Vec<u8>),
    /// A log frame is not UTF-8.
    Utf8ParsingFailed(std::str::Utf8Error),
    /// A file of an uploaded archive could not be read.
    TarIOFailed(std::io::Error),
    /// The archive writer went out of bounds.
    TarMemoryAccess(String),
}

/// The result of a call to the engine.
pub type DockerResult<T> = Result<T, DockerError>;

impl DockerError {
    /// The error that a failed archive stream becomes in an upload.
    pub fn from_tar(error: TarError) -> (r: DockerError)
        ensures
            error is IOFailed ==> r == DockerError::TarIOFailed(error->IOFailed_0),
            error is MemoryAccess ==> r is TarMemoryAccess && r->TarMemoryAccess_0@ == error->MemoryAccess_0@,
    {
        match error {
            TarError::IOFailed(e) => DockerError::TarIOFailed(e),
            TarError::MemoryAccess(info) => DockerError::TarMemoryAccess(info),
        }
    }
}

} // verus!
