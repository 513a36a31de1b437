//! Client side of Seismic's shielded transactions: deciding when a request's
//! calldata is encrypted, encrypting it for the network's TEE key, and decrypting
//! the output of a shielded call.
//!
//! - `tx`: the transaction request as the layer reads and writes it, and
//!   `build_seismic_tx`;
//! - `crypto`: key material and the ECDH + AES-GCM encryption of calldata;
//! - `flow`: the decisions of a shielded call or send, as a state machine;
//! - `provider`: the provider and the layer that wraps an inner provider;
//! - `laws`: what holds across those operations.
pub mod crypto;
pub mod error;
pub mod flow;
pub mod laws;
pub mod provider;
pub mod tx;

pub use error::SeismicError;
pub use flow::{EncryptionMaterial, EncryptionSession, Operation, SeismicAction, SeismicEvent, SeismicState};
pub use provider::{SeismicLayer, SeismicProvider};
pub use tx::{build_seismic_tx, Address, SendableTx, TransactionInput, TransactionRequest, TxKind, TxSeismicElements};
