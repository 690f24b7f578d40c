//! The engine's records and its error type.
use vstd::prelude::*;

verus! {

/// Everything that can go wrong in the engine. The variants that wrap an
/// error of another crate carry that error unchanged.
#[derive(Debug)]
pub enum EngineError {
    RequestError(reqwest::Error),
    DatabaseError(redb::Error),
    TransactionError(redb::TransactionError),
    TableError(redb::TableError),
    StorageError(redb::StorageError),
    CommitError(redb::CommitError),
    DbOpenError(redb::DatabaseError),
    SerdeError(serde_json::Error),
    X509SpkiError(x509_parser::nom::Err<x509_parser::error::X509Error>),
    GenerateSelfSignedCertificateError(rcgen::Error),
    IOError(std::io::Error),
    HandleMessageToStunError(rtc_shared::error::Error),
    StunNoResponse,
    PortAlreadySet,
    PortNotSet,
    TlsSetupError(String),
    TlsHandshakeError(String),
    ConnectionError(String),
    RoomNotFound,
    InvalidPasscode,
    NotFound(String),
}

/// A room as the host keeps it: who may join (the passcode), where the
/// host listens, the file being offered and the transfer progress.
#[derive(Debug)]
pub struct Room {
    pub room_id: String,
    pub passcode: String,
    pub peer_ip: String,
    pub peer_port: u16,
    pub file_name: String,
    pub file_hash: String,
    pub sent: u32,
    pub total: u32,
    pub created_at: std::time::SystemTime,
    pub connected: bool,
}

/// The body of a request to join a room.
#[derive(Debug)]
pub struct JoinRoomRequestBody {
    pub passcode: String,
}

/// The answer to a join request: where the room's host can be reached.
#[derive(Debug, Clone)]
pub struct JoinRoomResponseBody {
    pub peer_ip: String,
    pub peer_port: u16,
}

/// A self-signed certificate with its private key, both in PEM, and the
/// certificate in DER.
#[derive(Debug, Clone)]
pub struct SelfSignedIdentity {
    pub cert_pem: String,
    pub key_pem: String,
    pub cert_der: Vec<u8>,
}

} // verus!
