//! What holds of the Seismic layer across its operations.
use vstd::prelude::*;

use crate::crypto::{
    aes_gcm_max_plaintext, ecdh_decryptable, ecdh_opened, ecdh_sealed, is_secret_key, secp256k1_public_key,
    secp256k1_public_key_parses,
};
use crate::error::ErrorModel;
use crate::flow::{
    spec_elements, spec_plaintext, spec_shielded_request, spec_step, ActionModel, EventModel,
    MaterialModel, Operation, SessionModel, StateModel,
};
use crate::tx::{
    spec_with_input, spec_has_calldata, spec_input, spec_seismic_request, spec_should_encrypt, Address, InputModel, RequestModel,
    SendableModel, TxKind, TX_SEISMIC_TYPE,
};

verus! {

/// A transaction that is not to be encrypted (a request without calldata, one
/// of another type without a nonce, or a signed envelope) goes to the inner
/// provider unchanged, and whatever the inner provider answers is returned
/// unchanged.
pub proof fn lemma_unshielded_passes_through(op: Operation, tx: SendableModel, reply: Option<Seq<u8>>, m: MaterialModel)
    requires
        !(tx matches SendableModel::Builder(r) && spec_should_encrypt(r)),
    ensures
        spec_step(StateModel::Idle, EventModel::Begin { op, tx }, m)
            == (StateModel::AwaitingInner { op, session: None }, ActionModel::Forward(tx)),
        spec_step(StateModel::AwaitingInner { op, session: None }, EventModel::InnerReplied(reply), m)
            == (StateModel::Finished, ActionModel::ReturnInnerResult),
{
}

/// A shielded `eth_call`: a request that is to be encrypted waits for the
/// network's key; with a valid key it is sent with its calldata encrypted under
/// the key agreed between the network's key and the ephemeral secret, and with
/// the ephemeral public key and the nonce attached, all else unchanged; the
/// call's output is then decrypted with that same agreement and nonce.
pub proof fn lemma_shielded_call(request: RequestModel, network_pk: Seq<u8>, m: MaterialModel, output: Seq<u8>)
    requires
        spec_should_encrypt(request),
        network_pk.len() == 33,
        secp256k1_public_key_parses(network_pk),
        m.wf(),
        spec_plaintext(request).len() <= aes_gcm_max_plaintext(),
    ensures
        ({
            let s0 = StateModel::Idle;
            let (s1, a1) = spec_step(s0, EventModel::Begin { op: Operation::Call, tx: SendableModel::Builder(request) }, m);
            let (s2, a2) = spec_step(s1, EventModel::TeePubkey(Ok(network_pk)), m);
            let (s3, a3) = spec_step(s2, EventModel::InnerReplied(Some(output)), m);
            let sealed = ecdh_sealed(network_pk, m.secret_key, spec_plaintext(request), m.nonce);
            &&& a1 == ActionModel::FetchTeePubkey
            &&& a2 == ActionModel::Forward(SendableModel::Builder(spec_shielded_request(request, sealed, m)))
            &&& s2 == StateModel::AwaitingInner {
                op: Operation::Call,
                session: Some(SessionModel { network_pubkey: network_pk, secret_key: m.secret_key, elements: spec_elements(m) }),
            }
            &&& s3 == StateModel::Finished
            &&& a3 == if ecdh_decryptable(network_pk, m.secret_key, output, m.nonce) {
                ActionModel::ReturnOutput(ecdh_opened(network_pk, m.secret_key, output, m.nonce).unwrap())
            } else {
                ActionModel::Fail(ErrorModel::Decryption)
            }
        }),
{
}

/// A shielded `eth_sendTransaction` encrypts as a call does, and hands back
/// whatever the inner provider answers: nothing is decrypted.
pub proof fn lemma_shielded_send(request: RequestModel, network_pk: Seq<u8>, m: MaterialModel, reply: Option<Seq<u8>>)
    requires
        spec_should_encrypt(request),
        network_pk.len() == 33,
        secp256k1_public_key_parses(network_pk),
        m.wf(),
        spec_plaintext(request).len() <= aes_gcm_max_plaintext(),
    ensures
        ({
            let (s1, a1) = spec_step(StateModel::Idle, EventModel::Begin { op: Operation::Send, tx: SendableModel::Builder(request) }, m);
            let (s2, a2) = spec_step(s1, EventModel::TeePubkey(Ok(network_pk)), m);
            let (s3, a3) = spec_step(s2, EventModel::InnerReplied(reply), m);
            let sealed = ecdh_sealed(network_pk, m.secret_key, spec_plaintext(request), m.nonce);
            &&& a1 == ActionModel::FetchTeePubkey
            &&& a2 == ActionModel::Forward(SendableModel::Builder(spec_shielded_request(request, sealed, m)))
            &&& s3 == StateModel::Finished
            &&& a3 == ActionModel::ReturnInnerResult
        }),
{
}

/// A request that the flow forwards once the network's key has come is the
/// request it was handed with its calldata replaced by the encryption of that
/// calldata (in the `input` place, the `data` place cleared) and the elements
/// attached; all its other fields are those of the request it was handed.
pub proof fn lemma_forwarded_request_is_shielded(
    op: Operation,
    request: RequestModel,
    key: Result<Seq<u8>, Seq<char>>,
    m: MaterialModel,
)
    ensures
        ({
            let (s, a) = spec_step(StateModel::AwaitingTeePubkey { op, request }, EventModel::TeePubkey(key), m);
            a matches ActionModel::Forward(tx) ==> {
                &&& key is Ok
                &&& tx == SendableModel::Builder(spec_shielded_request(
                    request,
                    ecdh_sealed(key->Ok_0, m.secret_key, spec_plaintext(request), m.nonce),
                    m,
                ))
            }
        }),
        ({
            let (s, a) = spec_step(StateModel::AwaitingTeePubkey { op, request }, EventModel::TeePubkey(key), m);
            a matches ActionModel::Forward(SendableModel::Builder(sent)) ==> {
                &&& sent.input.input == Some(ecdh_sealed(key->Ok_0, m.secret_key, spec_plaintext(request), m.nonce))
                &&& sent.input.data is None
                &&& sent.seismic_elements == Some(spec_elements(m))
                &&& sent == RequestModel {
                    input: sent.input,
                    seismic_elements: sent.seismic_elements,
                    ..request
                }
            }
        }),
{
}

/// The calldata of a Seismic transaction leaves the client only encrypted:
/// every request of the Seismic type with calldata, whether or not its nonce
/// is set, is held back until the network's key has come; and whatever the key
/// and the material, a request that the flow then forwards holds, in place of
/// the calldata, only its encryption under that key (the `data` place cleared).
pub proof fn lemma_seismic_calldata_leaves_only_encrypted(
    op: Operation,
    request: RequestModel,
    key: Result<Seq<u8>, Seq<char>>,
    m: MaterialModel,
)
    requires
        request.transaction_type == Some(TX_SEISMIC_TYPE),
        spec_has_calldata(request),
    ensures
        spec_should_encrypt(request),
        spec_step(StateModel::Idle, EventModel::Begin { op, tx: SendableModel::Builder(request) }, m)
            == (StateModel::AwaitingTeePubkey { op, request }, ActionModel::FetchTeePubkey),
        ({
            let (s, a) = spec_step(StateModel::AwaitingTeePubkey { op, request }, EventModel::TeePubkey(key), m);
            a matches ActionModel::Forward(tx) ==> {
                &&& key is Ok
                &&& tx matches SendableModel::Builder(sent)
                &&& sent.input == InputModel {
                    input: Some(ecdh_sealed(key->Ok_0, m.secret_key, spec_plaintext(request), m.nonce)),
                    data: None,
                }
            }
        }),
{
}

/// The ephemeral public key attached to a shielded request is the public key
/// of the secret key that encrypted its calldata and decrypts its output.
pub proof fn lemma_attached_key_matches_secret(op: Operation, request: RequestModel, network_pk: Seq<u8>, m: MaterialModel)
    requires
        m.wf(),
    ensures
        ({
            let (s, a) = spec_step(StateModel::AwaitingTeePubkey { op, request }, EventModel::TeePubkey(Ok(network_pk)), m);
            s matches StateModel::AwaitingInner { session: Some(session), .. } ==> {
                &&& session.elements.encryption_pubkey == secp256k1_public_key(session.secret_key)
                &&& session.secret_key == m.secret_key
                &&& session.network_pubkey == network_pk
            }
        }),
{
}

/// The actions and the states agree: a flow asks for the network's key exactly
/// when it then awaits it, forwards exactly when it then awaits the inner
/// provider, and ends (returns or fails) exactly when it is then finished.
pub proof fn lemma_actions_match_states(s: StateModel, e: EventModel, m: MaterialModel)
    ensures
        ({
            let (s2, a) = spec_step(s, e, m);
            &&& (a is FetchTeePubkey <==> s2 is AwaitingTeePubkey)
            &&& (a is Forward <==> s2 is AwaitingInner)
            &&& ((a is ReturnInnerResult || a is ReturnOutput || a is Fail) <==> s2 is Finished)
        }),
{
}

/// A flow ends after at most three steps: a finished flow answers every further
/// event with `OutOfOrder`, and the inner provider's reply always finishes it.
pub proof fn lemma_flow_ends(op: Operation, session: Option<SessionModel>, reply: Option<Seq<u8>>, e: EventModel, m: MaterialModel)
    ensures
        spec_step(StateModel::Finished, e, m) == (StateModel::Finished, ActionModel::Fail(ErrorModel::OutOfOrder)),
        spec_step(StateModel::AwaitingInner { op, session }, EventModel::InnerReplied(reply), m).0 == StateModel::Finished,
{
}

/// A request from `build_seismic_tx` carries the calldata, the Seismic type and
/// nothing else; it is encrypted before it leaves exactly when its calldata is
/// not empty, nonce or not.
pub proof fn lemma_built_request_is_shielded(plaintext: Seq<u8>, to: TxKind, from: Address)
    ensures
        spec_input(spec_seismic_request(plaintext, to, from)) == Some(plaintext),
        spec_seismic_request(plaintext, to, from).transaction_type == Some(TX_SEISMIC_TYPE),
        spec_should_encrypt(spec_seismic_request(plaintext, to, from)) <==> plaintext.len() > 0,
{
}

/// The network reads what the caller wrote: when the network holds the secret
/// key of the public key it handed out, it decrypts the calldata of the request
/// that the flow sends, using the ephemeral public key and the nonce attached
/// to it, to the caller's calldata.
pub proof fn lemma_network_reads_calldata(op: Operation, request: RequestModel, network_sk: Seq<u8>, m: MaterialModel)
    requires
        is_secret_key(network_sk),
        secp256k1_public_key(network_sk).len() == 33,
        secp256k1_public_key_parses(secp256k1_public_key(network_sk)),
        m.wf(),
        spec_plaintext(request).len() <= aes_gcm_max_plaintext(),
    ensures
        ({
            let network_pk = secp256k1_public_key(network_sk);
            let (s, a) = spec_step(StateModel::AwaitingTeePubkey { op, request }, EventModel::TeePubkey(Ok(network_pk)), m);
            a matches ActionModel::Forward(SendableModel::Builder(sent)) && {
                let elements = sent.seismic_elements.unwrap();
                &&& sent.seismic_elements is Some
                &&& sent.input.input is Some
                &&& ecdh_opened(elements.encryption_pubkey, network_sk, sent.input.input.unwrap(), elements.encryption_nonce)
                    == Some(spec_plaintext(request))
            }
        }),
{
    let network_pk = secp256k1_public_key(network_sk);
    let p = spec_plaintext(request);
    assert(ecdh_sealed(m.public_key, network_sk, p, m.nonce) == ecdh_sealed(network_pk, m.secret_key, p, m.nonce));
    assert(ecdh_opened(m.public_key, network_sk, ecdh_sealed(m.public_key, network_sk, p, m.nonce), m.nonce) == Some(p));
}

/// The caller reads what the network answered: when the network answers a
/// shielded call by encrypting its output for the ephemeral public key and the
/// nonce attached to the request, with the secret key of the public key it
/// handed out, the flow returns that output.
pub proof fn lemma_caller_reads_output(request: RequestModel, network_sk: Seq<u8>, m: MaterialModel, output: Seq<u8>)
    requires
        is_secret_key(network_sk),
        secp256k1_public_key(network_sk).len() == 33,
        secp256k1_public_key_parses(secp256k1_public_key(network_sk)),
        m.wf(),
        spec_plaintext(request).len() <= aes_gcm_max_plaintext(),
        output.len() <= aes_gcm_max_plaintext(),
    ensures
        ({
            let network_pk = secp256k1_public_key(network_sk);
            let (s1, a1) = spec_step(
                StateModel::AwaitingTeePubkey { op: Operation::Call, request },
                EventModel::TeePubkey(Ok(network_pk)),
                m,
            );
            a1 matches ActionModel::Forward(SendableModel::Builder(sent)) && {
                let elements = sent.seismic_elements.unwrap();
                let reply = ecdh_sealed(elements.encryption_pubkey, network_sk, output, elements.encryption_nonce);
                spec_step(s1, EventModel::InnerReplied(Some(reply)), m)
                    == (StateModel::Finished, ActionModel::ReturnOutput(output))
            }
        }),
{
    let network_pk = secp256k1_public_key(network_sk);
    let reply = ecdh_sealed(m.public_key, network_sk, output, m.nonce);
    assert(ecdh_opened(m.public_key, network_sk, reply, m.nonce) == ecdh_opened(network_pk, m.secret_key, reply, m.nonce));
    assert(ecdh_opened(m.public_key, network_sk, reply, m.nonce) == Some(output));
    assert(ecdh_decryptable(network_pk, m.secret_key, reply, m.nonce));
}

/// The calldata of a request is its `input` place where that is set, and its
/// `data` place otherwise: reading it, and the calldata that the flow
/// encrypts, follow that rule for every request, whatever its type, nonce or
/// elements.
pub proof fn lemma_calldata_is_input_else_data(r: RequestModel)
    ensures
        r.input.input is Some ==> spec_input(r) == r.input.input && spec_plaintext(r) == r.input.input.unwrap(),
        r.input.input is None ==> spec_input(r) == r.input.data,
        (r.input.input is None && r.input.data is Some) ==> spec_plaintext(r) == r.input.data.unwrap(),
        (r.input.input is None && r.input.data is None) ==> spec_plaintext(r) == Seq::<u8>::empty(),
{
}

/// Which requests are encrypted: exactly those with non-empty calldata (in
/// the `input` place, or in the `data` place when `input` is unset) that have
/// their nonce set or are of the Seismic type, whatever else they hold.
pub proof fn lemma_which_requests_are_encrypted(r: RequestModel)
    ensures
        (r.input.input is Some && r.input.input.unwrap().len() > 0 && r.nonce is Some) ==> spec_should_encrypt(r),
        (r.input.input is None && r.input.data is Some && r.input.data.unwrap().len() > 0 && r.nonce is Some)
            ==> spec_should_encrypt(r),
        (r.input.input is Some && r.input.input.unwrap().len() > 0 && r.transaction_type == Some(TX_SEISMIC_TYPE))
            ==> spec_should_encrypt(r),
        (r.input.input is None && r.input.data is Some && r.input.data.unwrap().len() > 0
            && r.transaction_type == Some(TX_SEISMIC_TYPE)) ==> spec_should_encrypt(r),
        (r.input.input is Some && r.input.input.unwrap().len() == 0) ==> !spec_should_encrypt(r),
        (r.input.input is None && (r.input.data is None || r.input.data.unwrap().len() == 0))
            ==> !spec_should_encrypt(r),
        (r.nonce is None && r.transaction_type != Some(TX_SEISMIC_TYPE)) ==> !spec_should_encrypt(r),
{
}

/// `build_seismic_tx(plaintext, to, from)` makes a request to `to` from
/// `from`, with `plaintext` as its calldata in the `input` place, of the
/// Seismic type, and with every other field unset.
pub proof fn lemma_built_request_fields(plaintext: Seq<u8>, to: TxKind, from: Address)
    ensures
        ({
            let r = spec_seismic_request(plaintext, to, from);
            &&& r.to == Some(to)
            &&& r.from == Some(from)
            &&& r.input.input == Some(plaintext)
            &&& r.input.data is None
            &&& r.transaction_type == Some(TX_SEISMIC_TYPE)
            &&& r.nonce is None
            &&& r.seismic_elements is None
            &&& r.gas_price is None && r.max_fee_per_gas is None && r.max_priority_fee_per_gas is None
            &&& r.max_fee_per_blob_gas is None && r.gas is None && r.value is None && r.chain_id is None
            &&& r.access_list is None && r.blob_versioned_hashes is None && r.sidecar is None
            &&& r.authorization_list is None
        }),
{
}

/// Replacing the calldata puts the new bytes, whole, in the `input` place,
/// clears the `data` place, and leaves every other field as it was.
pub proof fn lemma_set_input_fields(r: RequestModel, input: Seq<u8>)
    ensures
        ({
            let r2 = spec_with_input(r, input);
            &&& r2.input.input == Some(input)
            &&& r2.input.data is None
            &&& r2.from == r.from && r2.to == r.to && r2.nonce == r.nonce
            &&& r2.transaction_type == r.transaction_type && r2.seismic_elements == r.seismic_elements
            &&& r2.gas_price == r.gas_price && r2.max_fee_per_gas == r.max_fee_per_gas
            &&& r2.max_priority_fee_per_gas == r.max_priority_fee_per_gas
            &&& r2.max_fee_per_blob_gas == r.max_fee_per_blob_gas && r2.gas == r.gas && r2.value == r.value
            &&& r2.chain_id == r.chain_id && r2.access_list == r.access_list
            &&& r2.blob_versioned_hashes == r.blob_versioned_hashes && r2.sidecar == r.sidecar
            &&& r2.authorization_list == r.authorization_list
        }),
{
}

/// The elements attached to a shielded request carry the material's public
/// key and nonce, and the message version of raw signed transactions (0).
pub proof fn lemma_attached_elements(m: MaterialModel)
    ensures
        spec_elements(m).encryption_pubkey == m.public_key,
        spec_elements(m).encryption_nonce == m.nonce,
        spec_elements(m).message_version == 0,
{
}

/// What the inner provider's reply gives: with no output (an error of the
/// inner provider, or the pending transaction of a send), whatever the
/// operation and the session, the inner result is handed back; a send, or a
/// call that was not encrypted, hands back the inner result whatever the
/// reply; only the output of an encrypted call is decrypted.
pub proof fn lemma_inner_reply(
    op: Operation,
    session: Option<SessionModel>,
    reply: Option<Seq<u8>>,
    m: MaterialModel,
)
    ensures
        spec_step(StateModel::AwaitingInner { op, session }, EventModel::InnerReplied(None), m)
            == (StateModel::Finished, ActionModel::ReturnInnerResult),
        op is Send ==> spec_step(StateModel::AwaitingInner { op, session }, EventModel::InnerReplied(reply), m)
            == (StateModel::Finished, ActionModel::ReturnInnerResult),
        session is None ==> spec_step(StateModel::AwaitingInner { op, session }, EventModel::InnerReplied(reply), m)
            == (StateModel::Finished, ActionModel::ReturnInnerResult),
        (op is Call && session is Some && reply is Some) ==> {
            let s = session.unwrap();
            let c = reply.unwrap();
            let a = spec_step(StateModel::AwaitingInner { op, session }, EventModel::InnerReplied(reply), m).1;
            &&& ecdh_decryptable(s.network_pubkey, s.secret_key, c, s.elements.encryption_nonce)
                ==> a == ActionModel::ReturnOutput(
                ecdh_opened(s.network_pubkey, s.secret_key, c, s.elements.encryption_nonce).unwrap(),
            )
            &&& !ecdh_decryptable(s.network_pubkey, s.secret_key, c, s.elements.encryption_nonce)
                ==> a == ActionModel::Fail(ErrorModel::Decryption)
        },
{
}

/// A failure to fetch the network's key ends the flow with that failure's
/// message, and nothing is forwarded.
pub proof fn lemma_tee_pubkey_failure(op: Operation, request: RequestModel, msg: Seq<char>, m: MaterialModel)
    ensures
        spec_step(StateModel::AwaitingTeePubkey { op, request }, EventModel::TeePubkey(Err(msg)), m)
            == (StateModel::Finished, ActionModel::Fail(ErrorModel::TeePubkey(msg))),
{
}

/// The network reads all of the caller's calldata: when the network holds the
/// secret key of the public key it handed out, it decrypts the calldata of the
/// request that the flow sends, with the ephemeral public key and nonce
/// attached to it, to the calldata of the request handed in (its `input`
/// place, or its `data` place when `input` is unset), byte for byte.
pub proof fn lemma_network_reads_the_whole_calldata(
    op: Operation,
    request: RequestModel,
    calldata: Seq<u8>,
    network_sk: Seq<u8>,
    m: MaterialModel,
)
    requires
        request.input.input == Some(calldata) || (request.input.input is None && request.input.data == Some(calldata)),
        is_secret_key(network_sk),
        secp256k1_public_key(network_sk).len() == 33,
        secp256k1_public_key_parses(secp256k1_public_key(network_sk)),
        m.wf(),
        calldata.len() <= aes_gcm_max_plaintext(),
    ensures
        ({
            let network_pk = secp256k1_public_key(network_sk);
            let (s, a) = spec_step(StateModel::AwaitingTeePubkey { op, request }, EventModel::TeePubkey(Ok(network_pk)), m);
            a matches ActionModel::Forward(SendableModel::Builder(sent)) && {
                let elements = sent.seismic_elements.unwrap();
                &&& sent.seismic_elements is Some
                &&& sent.input.input is Some
                &&& sent.input.data is None
                &&& ecdh_opened(elements.encryption_pubkey, network_sk, sent.input.input.unwrap(), elements.encryption_nonce)
                    == Some(calldata)
            }
        }),
{
    lemma_calldata_is_input_else_data(request);
    lemma_network_reads_calldata(op, request, network_sk, m);
}

} // verus!
