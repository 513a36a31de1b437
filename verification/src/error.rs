//! Errors of the Seismic layer.
use vstd::prelude::*;

verus! {

/// Why a shielded request could not be completed. Where an outside call
/// failed, its error's message is kept.
#[derive(Clone, Debug)]
pub enum SeismicError {
    /// The network's TEE public key could not be fetched; the inner provider's message.
    TeePubkey(String),
    /// The network answered with bytes that are not a compressed secp256k1
    /// public key; why.
    InvalidTeePubkey(String),
    /// The calldata could not be encrypted; the cipher's message.
    Encryption(String),
    /// The output of a shielded call could not be decrypted; the cipher's message.
    Decryption(String),
    /// An event came that the flow does not expect in its current state.
    OutOfOrder,
}

/// What contracts say of an error: its kind, and its message where that is
/// known (the inner provider's, or why a TEE key was refused). The messages of
/// the cipher's errors are not stated.
pub enum ErrorModel {
    TeePubkey(Seq<char>),
    InvalidTeePubkey(Seq<char>),
    Encryption,
    Decryption,
    OutOfOrder,
}

impl View for SeismicError {
    type V = ErrorModel;

    open spec fn view(&self) -> ErrorModel {
        match self {
            SeismicError::TeePubkey(m) => ErrorModel::TeePubkey(m@),
            SeismicError::InvalidTeePubkey(m) => ErrorModel::InvalidTeePubkey(m@),
            SeismicError::Encryption(_) => ErrorModel::Encryption,
            SeismicError::Decryption(_) => ErrorModel::Decryption,
            SeismicError::OutOfOrder => ErrorModel::OutOfOrder,
        }
    }
}

} // verus!
