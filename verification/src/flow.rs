//! The decisions of a shielded `eth_call` or `eth_sendTransaction`, as a state
//! machine: a state and an event give the next state and the action to perform.
//!
//! The one who drives it (the async provider) performs each action and answers
//! with the matching event: `FetchTeePubkey` is answered by `TeePubkey`,
//! `Forward` by `InnerReplied`. The other actions end the flow.
use vstd::prelude::*;
use vstd::slice::slice_to_vec;

use crate::crypto::{
    key_length_message, malformed_key_message, ecdh_agrees, ecdh_opened, ecdh_round_trips, is_secret_key, public_key_from_bytes, random_encryption_nonce, secp256k1_public_key,
    secp256k1_public_key_parses, spec_client_decrypt, spec_client_encrypt, EphemeralKeypair,
};
use crate::error::{ErrorModel, SeismicError};
use crate::tx::{
    opt_bytes_model, spec_input, spec_should_encrypt, spec_with_elements, spec_with_input, ElementsModel,
    RequestModel, SendableModel, SendableTx, TransactionRequest, TxSeismicElements, MESSAGE_VERSION_RAW,
};

verus! {

/// Which provider method the flow serves.
#[derive(Clone, Copy, Debug)]
pub enum Operation {
    /// `eth_call`: the output is decrypted when the calldata was encrypted.
    Call,
    /// `eth_sendTransaction`: what the inner provider returns is handed back as is.
    Send,
}

/// What a shielded call keeps between encrypting its calldata and decrypting
/// its output.
pub struct EncryptionSession {
    /// The network's TEE public key (compressed).
    pub network_pubkey: Vec<u8>,
    /// The client's ephemeral secret key.
    pub secret_key: Vec<u8>,
    /// The elements attached to the request: the ephemeral public key and the nonce.
    pub elements: TxSeismicElements,
}

/// Where a flow stands.
pub enum SeismicState {
    /// Nothing has happened yet.
    Idle,
    /// The calldata is to be encrypted; the network's key is awaited.
    AwaitingTeePubkey { op: Operation, request: TransactionRequest },
    /// The (possibly encrypted) transaction went to the inner provider.
    AwaitingInner { op: Operation, session: Option<EncryptionSession> },
    /// The flow has ended.
    Finished,
}

/// What the driver reports.
#[derive(Debug)]
pub enum SeismicEvent {
    /// The provider method was called with this transaction.
    Begin { op: Operation, tx: SendableTx },
    /// The inner provider's answer to the TEE public key request: the key's bytes,
    /// or the message of its error.
    TeePubkey(Result<Vec<u8>, String>),
    /// The inner provider answered the forwarded transaction: with output bytes
    /// (a successful call), or with anything else (an error, or the pending
    /// transaction of a send).
    InnerReplied(Option<Vec<u8>>),
}

/// What the driver is to do.
#[derive(Debug)]
pub enum SeismicAction {
    /// Ask the inner provider for the network's TEE public key.
    FetchTeePubkey,
    /// Hand this transaction to the inner provider.
    Forward(SendableTx),
    /// Return what the inner provider returned, untouched.
    ReturnInnerResult,
    /// Return these bytes: the decrypted output of a shielded call.
    ReturnOutput(Vec<u8>),
    /// Return this error.
    Fail(SeismicError),
}

/// The random material that encrypting a request takes: an ephemeral key pair
/// and a nonce.
pub struct EncryptionMaterial {
    pub keypair: EphemeralKeypair,
    pub nonce: Vec<u8>,
}

pub struct SessionModel {
    pub network_pubkey: Seq<u8>,
    pub secret_key: Seq<u8>,
    pub elements: ElementsModel,
}

pub enum StateModel {
    Idle,
    AwaitingTeePubkey { op: Operation, request: RequestModel },
    AwaitingInner { op: Operation, session: Option<SessionModel> },
    Finished,
}

pub enum EventModel {
    Begin { op: Operation, tx: SendableModel },
    TeePubkey(Result<Seq<u8>, Seq<char>>),
    InnerReplied(Option<Seq<u8>>),
}

pub enum ActionModel {
    FetchTeePubkey,
    Forward(SendableModel),
    ReturnInnerResult,
    ReturnOutput(Seq<u8>),
    Fail(ErrorModel),
}

pub struct MaterialModel {
    pub secret_key: Seq<u8>,
    pub public_key: Seq<u8>,
    pub nonce: Seq<u8>,
}

impl MaterialModel {
    /// Material that a client may encrypt with: a valid key pair and a 12-byte nonce.
    pub open spec fn wf(self) -> bool {
        &&& is_secret_key(self.secret_key)
        &&& self.public_key == secp256k1_public_key(self.secret_key)
        &&& self.public_key.len() == 33
        &&& secp256k1_public_key_parses(self.public_key)
        &&& ecdh_agrees(self.secret_key, self.public_key)
        &&& ecdh_round_trips(self.public_key)
        &&& self.nonce.len() == 12
    }
}

impl View for EncryptionSession {
    type V = SessionModel;

    open spec fn view(&self) -> SessionModel {
        SessionModel {
            network_pubkey: self.network_pubkey@,
            secret_key: self.secret_key@,
            elements: self.elements@,
        }
    }
}

impl View for SeismicState {
    type V = StateModel;

    open spec fn view(&self) -> StateModel {
        match self {
            SeismicState::Idle => StateModel::Idle,
            SeismicState::AwaitingTeePubkey { op, request } => StateModel::AwaitingTeePubkey { op: *op, request: request@ },
            SeismicState::AwaitingInner { op, session } => StateModel::AwaitingInner {
                op: *op,
                session: match session {
                    Some(s) => Some(s@),
                    None => None,
                },
            },
            SeismicState::Finished => StateModel::Finished,
        }
    }
}

impl View for SeismicEvent {
    type V = EventModel;

    open spec fn view(&self) -> EventModel {
        match self {
            SeismicEvent::Begin { op, tx } => EventModel::Begin { op: *op, tx: tx@ },
            SeismicEvent::TeePubkey(r) => EventModel::TeePubkey(
                match r {
                    Ok(k) => Ok(k@),
                    Err(m) => Err(m@),
                },
            ),
            SeismicEvent::InnerReplied(o) => EventModel::InnerReplied(opt_bytes_model(*o)),
        }
    }
}

impl View for SeismicAction {
    type V = ActionModel;

    open spec fn view(&self) -> ActionModel {
        match self {
            SeismicAction::FetchTeePubkey => ActionModel::FetchTeePubkey,
            SeismicAction::Forward(tx) => ActionModel::Forward(tx@),
            SeismicAction::ReturnInnerResult => ActionModel::ReturnInnerResult,
            SeismicAction::ReturnOutput(b) => ActionModel::ReturnOutput(b@),
            SeismicAction::Fail(e) => ActionModel::Fail(e@),
        }
    }
}

impl View for EncryptionMaterial {
    type V = MaterialModel;

    open spec fn view(&self) -> MaterialModel {
        MaterialModel {
            secret_key: self.keypair.secret_key@,
            public_key: self.keypair.public_key@,
            nonce: self.nonce@,
        }
    }
}

/// The calldata to encrypt: the request's calldata (empty where it has none,
/// which no flow reaches: only requests with calldata are encrypted).
pub open spec fn spec_plaintext(r: RequestModel) -> Seq<u8> {
    match spec_input(r) {
        Some(p) => p,
        None => Seq::empty(),
    }
}

/// The Seismic elements that a material gives: its public key, its nonce, and
/// the message version of raw signed transactions.
pub open spec fn spec_elements(m: MaterialModel) -> ElementsModel {
    ElementsModel { encryption_pubkey: m.public_key, encryption_nonce: m.nonce, message_version: MESSAGE_VERSION_RAW }
}

/// The request sent in place of `r`: its calldata encrypted into `ciphertext`
/// and the elements attached.
pub open spec fn spec_shielded_request(r: RequestModel, ciphertext: Seq<u8>, m: MaterialModel) -> RequestModel {
    spec_with_elements(spec_with_input(r, ciphertext), spec_elements(m))
}

/// The answer to a flow's start.
pub open spec fn spec_begin(op: Operation, tx: SendableModel) -> (StateModel, ActionModel) {
    match tx {
        SendableModel::Builder(r) => if spec_should_encrypt(r) {
            (StateModel::AwaitingTeePubkey { op, request: r }, ActionModel::FetchTeePubkey)
        } else {
            (StateModel::AwaitingInner { op, session: None }, ActionModel::Forward(tx))
        },
        SendableModel::Envelope(_) => (StateModel::AwaitingInner { op, session: None }, ActionModel::Forward(tx)),
    }
}

/// The answer to the network's TEE public key.
pub open spec fn spec_on_tee_pubkey(
    op: Operation,
    request: RequestModel,
    key: Result<Seq<u8>, Seq<char>>,
    m: MaterialModel,
) -> (StateModel, ActionModel) {
    match key {
        Err(msg) => (StateModel::Finished, ActionModel::Fail(ErrorModel::TeePubkey(msg))),
        Ok(pk) => if pk.len() != 33 {
            (StateModel::Finished, ActionModel::Fail(ErrorModel::InvalidTeePubkey(key_length_message())))
        } else if !secp256k1_public_key_parses(pk) {
            (StateModel::Finished, ActionModel::Fail(ErrorModel::InvalidTeePubkey(malformed_key_message())))
        } else {
            match spec_client_encrypt(spec_plaintext(request), pk, m.secret_key, m.nonce) {
                Ok(c) => (
                    StateModel::AwaitingInner {
                        op,
                        session: Some(SessionModel { network_pubkey: pk, secret_key: m.secret_key, elements: spec_elements(m) }),
                    },
                    ActionModel::Forward(SendableModel::Builder(spec_shielded_request(request, c, m))),
                ),
                Err(e) => (StateModel::Finished, ActionModel::Fail(e)),
            }
        },
    }
}

/// The answer to the inner provider's reply.
pub open spec fn spec_on_inner_reply(op: Operation, session: Option<SessionModel>, reply: Option<Seq<u8>>) -> (StateModel, ActionModel) {
    match (op, session, reply) {
        (Operation::Call, Some(s), Some(c)) => match spec_client_decrypt(c, s.network_pubkey, s.secret_key, s.elements.encryption_nonce) {
            Ok(p) => (StateModel::Finished, ActionModel::ReturnOutput(p)),
            Err(e) => (StateModel::Finished, ActionModel::Fail(e)),
        },
        _ => (StateModel::Finished, ActionModel::ReturnInnerResult),
    }
}

/// One step of the flow, given the random material that encryption would take.
pub open spec fn spec_step(s: StateModel, e: EventModel, m: MaterialModel) -> (StateModel, ActionModel) {
    match (s, e) {
        (StateModel::Idle, EventModel::Begin { op, tx }) => spec_begin(op, tx),
        (StateModel::AwaitingTeePubkey { op, request }, EventModel::TeePubkey(key)) => spec_on_tee_pubkey(op, request, key, m),
        (StateModel::AwaitingInner { op, session }, EventModel::InnerReplied(reply)) => spec_on_inner_reply(op, session, reply),
        _ => (StateModel::Finished, ActionModel::Fail(ErrorModel::OutOfOrder)),
    }
}

/// Where a step encrypted a request, the calldata it sends decrypts, with the
/// session it keeps, to the calldata of the request it was handed.
pub open spec fn spec_sent_decrypts(before: StateModel, after: StateModel, action: ActionModel) -> bool {
    match (before, after, action) {
        (
            StateModel::AwaitingTeePubkey { request, .. },
            StateModel::AwaitingInner { session: Some(s), .. },
            ActionModel::Forward(SendableModel::Builder(sent)),
        ) => ecdh_opened(s.network_pubkey, s.secret_key, spec_plaintext(sent), s.elements.encryption_nonce)
            == Some(spec_plaintext(request)),
        _ => true,
    }
}

/// Whether a step draws random material: the network's key has come while it
/// was awaited.
pub open spec fn spec_draws_material(s: StateModel, e: EventModel) -> bool {
    s is AwaitingTeePubkey && e is TeePubkey
}

fn copy_bytes(v: &Vec<u8>) -> (r: Vec<u8>)
    ensures
        r@ == v@,
{
    slice_to_vec(v.as_slice())
}

impl TxSeismicElements {
    /// A copy of the elements.
    pub fn duplicate(&self) -> (r: TxSeismicElements)
        ensures
            r@ == self@,
    {
        TxSeismicElements {
            encryption_pubkey: copy_bytes(&self.encryption_pubkey),
            encryption_nonce: copy_bytes(&self.encryption_nonce),
            message_version: self.message_version,
        }
    }
}

impl EncryptionMaterial {
    /// Draws a fresh ephemeral key pair and nonce.
    pub fn random() -> (m: EncryptionMaterial)
        ensures
            m@.wf(),
    {
        EncryptionMaterial { keypair: EphemeralKeypair::random(), nonce: random_encryption_nonce() }
    }

    /// The elements that this material gives.
    pub fn elements(&self) -> (e: TxSeismicElements)
        ensures
            e@ == spec_elements(self@),
    {
        TxSeismicElements {
            encryption_pubkey: copy_bytes(&self.keypair.public_key),
            encryption_nonce: copy_bytes(&self.nonce),
            message_version: MESSAGE_VERSION_RAW,
        }
    }
}

fn out_of_order() -> (r: (SeismicState, SeismicAction))
    ensures
        r.0@ == StateModel::Finished,
        r.1@ == ActionModel::Fail(ErrorModel::OutOfOrder),
{
    (SeismicState::Finished, SeismicAction::Fail(SeismicError::OutOfOrder))
}

/// Starts a flow: a request with calldata that is of the Seismic type or has
/// its nonce set is to be encrypted, so the network's key is fetched first;
/// anything else goes to the inner provider as it is.
fn begin(op: Operation, tx: SendableTx) -> (r: (SeismicState, SeismicAction))
    ensures
        (r.0@, r.1@) == spec_begin(op, tx@),
{
    match tx {
        SendableTx::Builder(request) => {
            if request.should_encrypt_input() {
                (SeismicState::AwaitingTeePubkey { op, request }, SeismicAction::FetchTeePubkey)
            } else {
                (SeismicState::AwaitingInner { op, session: None }, SeismicAction::Forward(SendableTx::Builder(request)))
            }
        },
        SendableTx::Envelope(e) => (SeismicState::AwaitingInner { op, session: None }, SeismicAction::Forward(SendableTx::Envelope(e))),
    }
}

/// Encrypts the request's calldata for the network's key and attaches the elements.
fn on_tee_pubkey(op: Operation, request: TransactionRequest, key: Result<Vec<u8>, String>, material: &EncryptionMaterial) -> (r: (SeismicState, SeismicAction))
    ensures
        (r.0@, r.1@) == spec_on_tee_pubkey(op, request@, match key { Ok(k) => Ok(k@), Err(m) => Err(m@) }, material@),
        spec_sent_decrypts(StateModel::AwaitingTeePubkey { op, request: request@ }, r.0@, r.1@),
{
    let mut request = request;
    match key {
        Err(msg) => (SeismicState::Finished, SeismicAction::Fail(SeismicError::TeePubkey(msg))),
        Ok(bytes) => match public_key_from_bytes(bytes.as_slice()) {
            Err(e) => (SeismicState::Finished, SeismicAction::Fail(e)),
            Ok(network_pubkey) => {
                let elements = material.elements();
                let plaintext = match request.input() {
                    Some(p) => copy_bytes(p),
                    None => Vec::new(),
                };
                match elements.client_encrypt(plaintext.as_slice(), network_pubkey.as_slice(), material.keypair.secret_key.as_slice()) {
                    Err(e) => (SeismicState::Finished, SeismicAction::Fail(e)),
                    Ok(ciphertext) => {
                        request.set_input(ciphertext);
                        request.set_seismic_elements(elements.duplicate());
                        let session = EncryptionSession {
                            network_pubkey,
                            secret_key: copy_bytes(&material.keypair.secret_key),
                            elements,
                        };
                        (
                            SeismicState::AwaitingInner { op, session: Some(session) },
                            SeismicAction::Forward(SendableTx::Builder(request)),
                        )
                    },
                }
            },
        },
    }
}

/// Decrypts the output of a shielded call; everything else is handed back as it came.
fn on_inner_reply(op: Operation, session: Option<EncryptionSession>, reply: Option<Vec<u8>>) -> (r: (SeismicState, SeismicAction))
    ensures
        (r.0@, r.1@) == spec_on_inner_reply(
            op,
            match session { Some(s) => Some(s@), None => None },
            opt_bytes_model(reply),
        ),
{
    match (op, session, reply) {
        (Operation::Call, Some(s), Some(c)) => {
            match s.elements.client_decrypt(c.as_slice(), s.network_pubkey.as_slice(), s.secret_key.as_slice()) {
                Ok(p) => (SeismicState::Finished, SeismicAction::ReturnOutput(p)),
                Err(e) => (SeismicState::Finished, SeismicAction::Fail(e)),
            }
        },
        _ => (SeismicState::Finished, SeismicAction::ReturnInnerResult),
    }
}

/// One step of the flow, with the material that encryption takes given.
/// Where the step encrypts, decrypting the calldata it sends, with the session
/// it keeps, gives back the calldata it was handed.
pub fn step_with_material(state: SeismicState, event: SeismicEvent, material: &EncryptionMaterial) -> (r: (SeismicState, SeismicAction))
    ensures
        (r.0@, r.1@) == spec_step(state@, event@, material@),
        spec_sent_decrypts(state@, r.0@, r.1@),
{
    match state {
        SeismicState::Idle => match event {
            SeismicEvent::Begin { op, tx } => begin(op, tx),
            _ => out_of_order(),
        },
        SeismicState::AwaitingTeePubkey { op, request } => match event {
            SeismicEvent::TeePubkey(key) => on_tee_pubkey(op, request, key, material),
            _ => out_of_order(),
        },
        SeismicState::AwaitingInner { op, session } => match event {
            SeismicEvent::InnerReplied(reply) => on_inner_reply(op, session, reply),
            _ => out_of_order(),
        },
        SeismicState::Finished => out_of_order(),
    }
}

/// One step of the flow. Where the network's key has come, a fresh ephemeral
/// key pair and nonce are drawn; the step is then `spec_step` with that
/// material, whichever it is.
pub fn step(state: SeismicState, event: SeismicEvent) -> (r: (SeismicState, SeismicAction))
    ensures
        exists|m: MaterialModel|
            (spec_draws_material(state@, event@) ==> m.wf()) && (r.0@, r.1@) == #[trigger] spec_step(state@, event@, m),
        spec_sent_decrypts(state@, r.0@, r.1@),
{
    let draws = match (&state, &event) {
        (SeismicState::AwaitingTeePubkey { .. }, SeismicEvent::TeePubkey(_)) => true,
        _ => false,
    };
    let material = if draws {
        EncryptionMaterial::random()
    } else {
        EncryptionMaterial {
            keypair: EphemeralKeypair { secret_key: Vec::new(), public_key: Vec::new() },
            nonce: Vec::new(),
        }
    };
    let ghost s0 = state@;
    let ghost e0 = event@;
    let r = step_with_material(state, event, &material);
    assert((r.0@, r.1@) == spec_step(s0, e0, material@));
    r
}

} // verus!
