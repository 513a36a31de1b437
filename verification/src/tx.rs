//! The transaction request that the Seismic layer reads and rewrites.
use vstd::prelude::*;

verus! {

/// The EIP-2718 type byte of a Seismic transaction (`0x4a`, 74).
pub const TX_SEISMIC_TYPE: u8 = 0x4a;

/// The message version of a transaction sent as raw signed bytes.
pub const MESSAGE_VERSION_RAW: u8 = 0;

/// A 20-byte account address.
pub type Address = [u8; 20];

/// The destination of a transaction: contract creation or a call to an address.
#[derive(Clone, Copy, Debug)]
pub enum TxKind {
    Create,
    Call(Address),
}

/// The calldata of a request. It has two places, `input` and `data`; the
/// `input` one takes precedence.
#[derive(Clone, Debug)]
pub struct TransactionInput {
    pub input: Option<Vec<u8>>,
    pub data: Option<Vec<u8>>,
}

/// The fields that a Seismic transaction adds to a request.
#[derive(Clone, Debug)]
pub struct TxSeismicElements {
    /// The compressed (33-byte) public key of the client's ephemeral key pair.
    pub encryption_pubkey: Vec<u8>,
    /// The 96-bit AES-GCM nonce, as 12 big-endian bytes.
    pub encryption_nonce: Vec<u8>,
    /// How the transaction is sent: 0 for raw signed bytes, 2 for EIP-712 typed data.
    pub message_version: u8,
}

/// A 32-byte word: a hash, or a 256-bit number in big-endian order.
pub type B256 = [u8; 32];

/// An entry of an EIP-2930 access list.
#[derive(Clone, Debug)]
pub struct AccessListItem {
    pub address: Address,
    pub storage_keys: Vec<B256>,
}

/// The blobs of an EIP-4844 transaction, with their commitments and proofs.
#[derive(Clone, Debug)]
pub struct BlobTransactionSidecar {
    pub blobs: Vec<Vec<u8>>,
    pub commitments: Vec<[u8; 48]>,
    pub proofs: Vec<[u8; 48]>,
}

/// A signed EIP-7702 authorization.
#[derive(Clone, Debug)]
pub struct SignedAuthorization {
    pub chain_id: B256,
    pub address: Address,
    pub nonce: u64,
    pub y_parity: u8,
    pub r: B256,
    pub s: B256,
}

/// A transaction request. The Seismic layer reads its calldata, its nonce and
/// its type, and writes its calldata and its Seismic elements; every other
/// field goes through as it is.
#[derive(Clone, Debug)]
pub struct TransactionRequest {
    pub from: Option<Address>,
    pub to: Option<TxKind>,
    pub gas_price: Option<u128>,
    pub max_fee_per_gas: Option<u128>,
    pub max_priority_fee_per_gas: Option<u128>,
    pub max_fee_per_blob_gas: Option<u128>,
    pub gas: Option<u64>,
    /// The value transferred, in wei (big-endian).
    pub value: Option<B256>,
    pub input: TransactionInput,
    pub nonce: Option<u64>,
    pub chain_id: Option<u64>,
    pub access_list: Option<Vec<AccessListItem>>,
    pub transaction_type: Option<u8>,
    pub blob_versioned_hashes: Option<Vec<B256>>,
    pub sidecar: Option<BlobTransactionSidecar>,
    pub authorization_list: Option<Vec<SignedAuthorization>>,
    pub seismic_elements: Option<TxSeismicElements>,
}

/// What a provider sends: a request still to be filled and signed, or an
/// already signed envelope (its encoded bytes).
#[derive(Clone, Debug)]
pub enum SendableTx {
    Builder(TransactionRequest),
    Envelope(Vec<u8>),
}

/// The value of a request's calldata.
pub struct InputModel {
    pub input: Option<Seq<u8>>,
    pub data: Option<Seq<u8>>,
}

/// The value of a request's Seismic elements.
pub struct ElementsModel {
    pub encryption_pubkey: Seq<u8>,
    pub encryption_nonce: Seq<u8>,
    pub message_version: u8,
}

/// The value of a transaction request. The fields that the layer passes
/// through are held as they are.
pub struct RequestModel {
    pub from: Option<Address>,
    pub to: Option<TxKind>,
    pub gas_price: Option<u128>,
    pub max_fee_per_gas: Option<u128>,
    pub max_priority_fee_per_gas: Option<u128>,
    pub max_fee_per_blob_gas: Option<u128>,
    pub gas: Option<u64>,
    pub value: Option<B256>,
    pub input: InputModel,
    pub nonce: Option<u64>,
    pub chain_id: Option<u64>,
    pub access_list: Option<Vec<AccessListItem>>,
    pub transaction_type: Option<u8>,
    pub blob_versioned_hashes: Option<Vec<B256>>,
    pub sidecar: Option<BlobTransactionSidecar>,
    pub authorization_list: Option<Vec<SignedAuthorization>>,
    pub seismic_elements: Option<ElementsModel>,
}

/// The value of a sendable transaction.
pub enum SendableModel {
    Builder(RequestModel),
    Envelope(Seq<u8>),
}

pub open spec fn opt_bytes_model(o: Option<Vec<u8>>) -> Option<Seq<u8>> {
    match o {
        Some(v) => Some(v@),
        None => None,
    }
}

impl View for TransactionInput {
    type V = InputModel;

    open spec fn view(&self) -> InputModel {
        InputModel { input: opt_bytes_model(self.input), data: opt_bytes_model(self.data) }
    }
}

impl View for TxSeismicElements {
    type V = ElementsModel;

    open spec fn view(&self) -> ElementsModel {
        ElementsModel {
            encryption_pubkey: self.encryption_pubkey@,
            encryption_nonce: self.encryption_nonce@,
            message_version: self.message_version,
        }
    }
}

impl View for TransactionRequest {
    type V = RequestModel;

    open spec fn view(&self) -> RequestModel {
        RequestModel {
            from: self.from,
            to: self.to,
            gas_price: self.gas_price,
            max_fee_per_gas: self.max_fee_per_gas,
            max_priority_fee_per_gas: self.max_priority_fee_per_gas,
            max_fee_per_blob_gas: self.max_fee_per_blob_gas,
            gas: self.gas,
            value: self.value,
            input: self.input@,
            nonce: self.nonce,
            chain_id: self.chain_id,
            access_list: self.access_list,
            transaction_type: self.transaction_type,
            blob_versioned_hashes: self.blob_versioned_hashes,
            sidecar: self.sidecar,
            authorization_list: self.authorization_list,
            seismic_elements: match self.seismic_elements {
                Some(e) => Some(e@),
                None => None,
            },
        }
    }
}

impl View for SendableTx {
    type V = SendableModel;

    open spec fn view(&self) -> SendableModel {
        match self {
            SendableTx::Builder(r) => SendableModel::Builder(r@),
            SendableTx::Envelope(b) => SendableModel::Envelope(b@),
        }
    }
}

/// The calldata of a request: the `input` place if it is set, else the `data` place.
pub open spec fn spec_input(r: RequestModel) -> Option<Seq<u8>> {
    match r.input.input {
        Some(i) => Some(i),
        None => r.input.data,
    }
}

/// A request whose calldata is replaced: the new bytes go to the `input` place
/// and the `data` place is cleared, so that the request holds no other
/// calldata; everything else stays as it was.
pub open spec fn spec_with_input(r: RequestModel, input: Seq<u8>) -> RequestModel {
    RequestModel { input: InputModel { input: Some(input), data: None }, ..r }
}

/// A request that carries the given Seismic elements, everything else as it was.
pub open spec fn spec_with_elements(r: RequestModel, e: ElementsModel) -> RequestModel {
    RequestModel { seismic_elements: Some(e), ..r }
}

/// Whether a request has calldata: the `input` or `data` place holds a
/// non-empty byte string.
pub open spec fn spec_has_calldata(r: RequestModel) -> bool {
    spec_input(r) matches Some(i) && i.len() > 0
}

/// Whether the calldata of a request is to be encrypted before it leaves the
/// client: it has calldata, and it is a Seismic transaction or its nonce is set.
pub open spec fn spec_should_encrypt(r: RequestModel) -> bool {
    &&& spec_has_calldata(r)
    &&& (r.transaction_type == Some(TX_SEISMIC_TYPE) || r.nonce is Some)
}

/// The request that `build_seismic_tx` makes.
pub open spec fn spec_seismic_request(plaintext: Seq<u8>, to: TxKind, from: Address) -> RequestModel {
    RequestModel {
        from: Some(from),
        to: Some(to),
        gas_price: None,
        max_fee_per_gas: None,
        max_priority_fee_per_gas: None,
        max_fee_per_blob_gas: None,
        gas: None,
        value: None,
        input: InputModel { input: Some(plaintext), data: None },
        nonce: None,
        chain_id: None,
        access_list: None,
        transaction_type: Some(TX_SEISMIC_TYPE),
        blob_versioned_hashes: None,
        sidecar: None,
        authorization_list: None,
        seismic_elements: None,
    }
}

impl TransactionInput {
    /// The calldata: the `input` place if it is set, else the `data` place.
    pub fn input(&self) -> (r: Option<&Vec<u8>>)
        ensures
            match r {
                Some(v) => self@.input == Some(v@) || (self@.input is None && self@.data == Some(v@)),
                None => self@.input is None && self@.data is None,
            },
    {
        match &self.input {
            Some(i) => Some(i),
            None => match &self.data {
                Some(d) => Some(d),
                None => None,
            },
        }
    }
}

impl TransactionRequest {
    /// The calldata of the request.
    pub fn input(&self) -> (r: Option<&Vec<u8>>)
        ensures
            opt_bytes_model(match r { Some(v) => Some(*v), None => None }) == spec_input(self@),
    {
        self.input.input()
    }

    /// Sets the calldata: the new bytes go to the `input` place, and the `data`
    /// place is cleared.
    pub fn set_input(&mut self, input: Vec<u8>)
        ensures
            final(self)@ == spec_with_input(old(self)@, input@),
    {
        self.input = TransactionInput { input: Some(input), data: None };
    }

    /// Attaches the Seismic elements.
    pub fn set_seismic_elements(&mut self, elements: TxSeismicElements)
        ensures
            final(self)@ == spec_with_elements(old(self)@, elements@),
    {
        self.seismic_elements = Some(elements);
    }

    /// Whether the calldata is to be encrypted before the request leaves the client.
    pub fn should_encrypt_input(&self) -> (b: bool)
        ensures
            b == spec_should_encrypt(self@),
    {
        let has_input = match self.input() {
            Some(i) => i.len() > 0,
            None => false,
        };
        let is_seismic = match self.transaction_type {
            Some(t) => t == TX_SEISMIC_TYPE,
            None => false,
        };
        has_input && (is_seismic || self.nonce.is_some())
    }
}

/// Builds a Seismic transaction request: the given calldata, destination and
/// sender, the Seismic transaction type, and nothing else set.
pub fn build_seismic_tx(plaintext: Vec<u8>, to: TxKind, from: Address) -> (r: TransactionRequest)
    ensures
        r@ == spec_seismic_request(plaintext@, to, from),
{
    TransactionRequest {
        from: Some(from),
        to: Some(to),
        gas_price: None,
        max_fee_per_gas: None,
        max_priority_fee_per_gas: None,
        max_fee_per_blob_gas: None,
        gas: None,
        value: None,
        input: TransactionInput { input: Some(plaintext), data: None },
        nonce: None,
        chain_id: None,
        access_list: None,
        transaction_type: Some(TX_SEISMIC_TYPE),
        blob_versioned_hashes: None,
        sidecar: None,
        authorization_list: None,
        seismic_elements: None,
    }
}

} // verus!
