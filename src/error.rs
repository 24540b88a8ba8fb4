use vstd::prelude::*;

verus! {

/// The TLS file that a certificate-path error refers to.
#[derive(Debug, Clone, Copy, PartialEq, Eq, Structural)]
pub enum CertFile {
    CaCert,
    ClientCert,
    ClientKey,
}

#[verifier::external_type_specification]
#[verifier::external_body]
pub struct ExIoError(std::io::Error);

/// Errors reported by the client.
#[derive(Debug)]
pub enum Error {
    /// The engine could not create a client handle.
    InvalidMosqClient,
    /// The engine reported a failed connect, immediately or in the handshake.
    ConnectionError(i32),
    /// A handshake is already in progress on this session.
    AlreadyConnected,
    /// The operation is not allowed in the session's current state.
    UnsupportedFeature,
    UnrecognizedPacket,
    ConnectionAbort,
    HandshakeFailed,
    ProtocolViolation,
    Disconnected,
    /// No handshake result arrived in time.
    Timeout,
    ConnectionRefused(i32),
    /// TLS material is incomplete or a file does not exist.
    InvalidCertPath(CertFile),
    /// The engine refused the TLS settings.
    TlsError(i32),
    /// The engine refused the will or the credentials.
    InvalidOption(i32),
    /// The engine refused a subscribe request.
    SubscribeError(i32),
    /// The engine refused a publish request.
    PublishError(i32),
    /// The engine's global initialisation failed.
    EngineUnavailable,
    /// A topic holds a NUL character, which the engine cannot take.
    InvalidTopic,
    /// A payload is longer than the engine's length field can express.
    PayloadTooLarge,
    Io(std::io::Error),
}

pub type Result<T> = core::result::Result<T, Error>;

impl From<std::io::Error> for Error {
    fn from(err: std::io::Error) -> (r: Error)
        ensures
            r == Error::Io(err),
    {
        Error::Io(err)
    }
}

impl vstd::std_specs::convert::FromSpecImpl<std::io::Error> for Error {
    open spec fn obeys_from_spec() -> bool {
        true
    }

    open spec fn from_spec(v: std::io::Error) -> Error {
        Error::Io(v)
    }
}

} // verus!
