//! The error kinds the library surfaces: transport faults, protocol faults,
//! stylesheet-registry faults, manifest-registration faults, watcher faults
//! and screenshot faults. Each carries what a caller needs to print a
//! one-line diagnostic.

use vstd::prelude::*;

verus! {

/// A fault of the byte transport under the session.
#[derive(Debug, Clone, PartialEq, Eq, Structural)]
pub enum TransportError {
    /// The TCP connection could not be established.
    ConnectFailed,
    /// A read or write deadline expired; the session is poisoned.
    Timeout,
    /// A write did not complete.
    WriteFailed,
    /// A read did not complete.
    ReadFailed,
    /// The inbound bytes are not a frame: missing colon, non-decimal prefix,
    /// empty payload, or a declared length longer than the body.
    Malformed,
}

/// A fault of the protocol session layered on the transport.
#[derive(Debug, Clone)]
pub enum ProtocolError {
    /// The handshake could not be parsed or named an unexpected application.
    HandshakeInvalid,
    /// The handshake declared a protocol version other than the supported one.
    VersionMismatch,
    /// The server answered with an error object; the rendering is preserved
    /// verbatim.
    RemoteError(String),
    /// A response frame held no JSON object, or a value of an unusable shape.
    DecodeError,
    /// The transport failed underneath the session.
    Transport(TransportError),
}

/// A fault of a stylesheet operation.
#[derive(Debug, Clone)]
pub enum CssError {
    /// A load named an identifier the registry already holds; an explicit
    /// unload must come first.
    IdCollision(String),
    /// An identifier cannot stand in a script: it holds a quote, a backslash
    /// or a control character.
    Escaping(String),
    /// The client registry held an identifier the remote did not.
    RegistryMismatch(String),
    /// The protocol session failed underneath the operation.
    Protocol(ProtocolError),
}

/// A fault while registering a chrome-manifest file.
#[derive(Debug, Clone)]
pub enum RegisterError {
    /// The path does not name an existing file.
    NotFound,
    /// The path cannot be carried in a script body.
    PathEncoding,
    /// The remote registrar reported a failure; its text is preserved.
    RemoteFailure(String),
    /// The protocol session failed underneath the operation.
    Protocol(ProtocolError),
}

/// A fault of the file watcher.
#[derive(Debug, Clone, PartialEq, Eq, Structural)]
pub enum WatcherError {
    /// The watched path did not exist at startup.
    FileMissing,
    /// The event channel disconnected; the loop cannot continue.
    ChannelDisconnected,
}

/// A fault while capturing or saving a screenshot.
#[derive(Debug, Clone)]
pub enum ScreenshotError {
    /// The data URL holds no comma, so no payload can be split off.
    InvalidDataUrl,
    /// The payload of the data URL is not valid base64.
    DecodeFailed,
    /// The capture script returned a value that is not a string.
    NotAString,
    /// The protocol session failed underneath the operation.
    Protocol(ProtocolError),
}

} // verus!
