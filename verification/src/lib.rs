//! Peer-to-peer room engine: room records, the passcode exchange between a
//! room's host and a joining peer, certificate pinning and identity
//! generation, the STUN probe for the public address, and the engine's
//! port configuration.
use vstd::prelude::*;

pub mod foreign;
pub mod types;
pub mod config;
pub mod text;
pub mod crypto;
pub mod handshake;
pub mod host;
pub mod rooms;
pub mod stun;

pub use types::{EngineError, Room, JoinRoomRequestBody, JoinRoomResponseBody, SelfSignedIdentity};
pub use config::{set_port, get_port};
pub use crypto::{
    generate_self_signed_identity, identity_from_parts, extract_spki_der, sha256_hex,
    load_private_key, FingerprintPinningVerifier,
};

verus! {
} // verus!
