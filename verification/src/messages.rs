//! Typed wire messages of the frontend/backend protocol.
//!
//! The state machine works over these typed messages; framing them to and
//! from raw bytes is the transport's job and stays outside the library.
use crate::strmap::StrMap;
use vstd::prelude::*;

verus! {

/// A startup packet whose declared major version equals this sentinel is an
/// SSL/TLS negotiation request, not a real startup.
pub const SSL_REQUEST_PROTOCOL: u16 = 1234;

/// The object identifier of the generic text type; every result column is
/// reported with it.
pub const TEXT_TYPE_OID: u32 = 25;

#[derive(Clone, Copy, PartialEq, Eq, Structural, Debug)]
pub struct ProtocolVersion {
    pub major: u16,
    pub minor: u16,
}

/// The first, untagged message of a connection: protocol version and the
/// startup parameters (at minimum `user`, optionally `database`).
pub struct StartupMessage {
    pub protocol_version: ProtocolVersion,
    pub parameters: StrMap<String>,
}

pub struct PasswordMessage {
    pub password: String,
}

pub struct Query {
    pub query: String,
}

pub struct Parse {
    pub name: String,
    pub query: String,
}

/// Binds a prepared statement to a portal. The parameter values are
/// carried as the client sent them; substituting them into the statement
/// is a known limitation and binding currently uses an empty list.
pub struct Bind {
    pub statement: String,
    pub portal: String,
    pub params: Vec<Option<Vec<u8>>>,
}

pub struct Execute {
    pub portal: String,
}

pub struct Describe {
    pub name: String,
}

/// Tagged frontend messages read after startup. `Unsupported` carries the
/// tag byte of a message kind the server does not handle.
pub enum FrontendMessage {
    PasswordMessage(PasswordMessage),
    Query(Query),
    Parse(Parse),
    Bind(Bind),
    Execute(Execute),
    Describe(Describe),
    Sync,
    Terminate,
    Unsupported(u8),
}

#[derive(Clone, Copy, PartialEq, Eq, Structural, Debug)]
pub enum ErrorSeverity {
    Error,
    Fatal,
}

#[derive(Clone, Copy, PartialEq, Eq, Structural, Debug)]
pub enum ErrorCode {
    FeatureNotSupported,
    InvalidAuthorizationSpecification,
    InvalidPassword,
    InternalError,
}

#[derive(Clone, Copy, PartialEq, Eq, Structural, Debug)]
pub enum TransactionStatus {
    Idle,
}

#[derive(Clone, Copy, PartialEq, Eq, Structural, Debug)]
pub enum CommandCompleteTag {
    Select,
}

#[derive(Clone, Copy, PartialEq, Eq, Structural, Debug)]
pub enum AuthenticationRequest {
    CleartextPassword,
    Success,
}

pub struct RowDescriptionField {
    pub name: String,
    pub type_oid: u32,
}

/// Backend (server to client) messages.
pub enum BackendMessage {
    SslResponse,
    Authentication(AuthenticationRequest),
    ParameterStatus(String, String),
    ReadyForQuery(TransactionStatus),
    ErrorResponse(ErrorSeverity, ErrorCode, String),
    RowDescription(Vec<RowDescriptionField>),
    DataRow(Vec<Option<String>>),
    CommandComplete(CommandCompleteTag, u32),
    ParseComplete,
    BindComplete,
}

#[derive(Clone, Copy, PartialEq, Eq, Structural, Debug)]
pub enum ErrorKind {
    UnexpectedEof,
    Unsupported,
    Other,
}

/// A connection-ending failure, as the transport reports it or as the state
/// machine raises it.
#[derive(Debug)]
pub struct ConnectionError {
    pub kind: ErrorKind,
    pub message: String,
}

} // verus!
