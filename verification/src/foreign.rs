//! Declarations that let verified code carry values of types defined by
//! other crates (and by parts of std that vstd does not describe).
//! Each of them is opaque: Verus sees nothing inside such a value.
use vstd::prelude::*;

verus! {

/// `std::io::Error`, carried by `EngineError::IOError`.
#[verifier::external_type_specification]
#[verifier::external_body]
pub struct ExIoError(std::io::Error);

/// `std::string::FromUtf8Error`, the error of decoding bytes as UTF-8.
#[verifier::external_type_specification]
#[verifier::external_body]
pub struct ExFromUtf8Error(std::string::FromUtf8Error);

/// `std::time::SystemTime`, the creation time of a room.
#[verifier::external_type_specification]
#[verifier::external_body]
pub struct ExSystemTime(std::time::SystemTime);

/// `reqwest::Error`, carried by `EngineError::RequestError`.
#[verifier::external_type_specification]
#[verifier::external_body]
pub struct ExRequestError(reqwest::Error);

/// `redb::Error`.
#[verifier::external_type_specification]
#[verifier::external_body]
pub struct ExDbError(redb::Error);

/// `redb::TransactionError`.
#[verifier::external_type_specification]
#[verifier::external_body]
pub struct ExDbTransactionError(redb::TransactionError);

/// `redb::TableError`.
#[verifier::external_type_specification]
#[verifier::external_body]
pub struct ExDbTableError(redb::TableError);

/// `redb::StorageError`.
#[verifier::external_type_specification]
#[verifier::external_body]
pub struct ExDbStorageError(redb::StorageError);

/// `redb::CommitError`.
#[verifier::external_type_specification]
#[verifier::external_body]
pub struct ExDbCommitError(redb::CommitError);

/// `redb::DatabaseError`.
#[verifier::external_type_specification]
#[verifier::external_body]
pub struct ExDbOpenError(redb::DatabaseError);

/// `serde_json::Error`.
#[verifier::external_type_specification]
#[verifier::external_body]
pub struct ExJsonError(serde_json::Error);

/// `nom::Err<E>` as re-exported by x509-parser: the error of a DER parse.
#[verifier::external_type_specification]
#[verifier::external_body]
#[verifier::reject_recursive_types(E)]
pub struct ExNomErr<E>(x509_parser::nom::Err<E>);

/// `x509_parser::error::X509Error`.
#[verifier::external_type_specification]
#[verifier::external_body]
pub struct ExX509Error(x509_parser::error::X509Error);

/// `rcgen::Error`.
#[verifier::external_type_specification]
#[verifier::external_body]
pub struct ExRcgenError(rcgen::Error);

/// `rtc_shared::error::Error`, the error of the STUN client.
#[verifier::external_type_specification]
#[verifier::external_body]
pub struct ExStunError(rtc_shared::error::Error);

} // verus!
