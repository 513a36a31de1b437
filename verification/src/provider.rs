//! The Seismic provider: a layer over an inner provider that shields the
//! calldata of the transactions it sends and calls.
use vstd::prelude::*;

use crate::flow::{spec_begin, step, Operation, SeismicAction, SeismicEvent, SeismicState};
use crate::tx::{spec_should_encrypt, SendableTx, TransactionRequest};

verus! {

/// A provider that encrypts calldata before handing transactions to its inner
/// provider, and decrypts the output of shielded calls.
#[derive(Clone, Debug)]
pub struct SeismicProvider<P> {
    inner: P,
}

impl<P> SeismicProvider<P> {
    /// The provider that this one wraps.
    pub closed spec fn inner_provider(&self) -> P {
        self.inner
    }

    /// Wraps an inner provider.
    pub fn new(inner: P) -> (s: Self)
        ensures
            s.inner_provider() == inner,
    {
        SeismicProvider { inner }
    }

    /// The provider that this one wraps.
    pub fn inner(&self) -> (p: &P)
        ensures
            *p == self.inner_provider(),
    {
        &self.inner
    }

    /// Whether the calldata of a request is encrypted before it leaves: it has
    /// non-empty calldata, and it is a Seismic transaction or its nonce is set.
    pub fn should_encrypt_input(&self, tx: &TransactionRequest) -> (b: bool)
        ensures
            b == spec_should_encrypt(tx@),
    {
        tx.should_encrypt_input()
    }

    /// Starts the flow of a shielded `eth_call`.
    pub fn begin_seismic_call(&self, tx: SendableTx) -> (r: (SeismicState, SeismicAction))
        ensures
            (r.0@, r.1@) == spec_begin(Operation::Call, tx@),
    {
        start(Operation::Call, tx)
    }

    /// Starts the flow of a shielded `eth_sendTransaction`.
    pub fn begin_send_transaction(&self, tx: SendableTx) -> (r: (SeismicState, SeismicAction))
        ensures
            (r.0@, r.1@) == spec_begin(Operation::Send, tx@),
    {
        start(Operation::Send, tx)
    }
}

fn start(op: Operation, tx: SendableTx) -> (r: (SeismicState, SeismicAction))
    ensures
        (r.0@, r.1@) == spec_begin(op, tx@),
{
    let ghost t = tx@;
    let r = step(SeismicState::Idle, SeismicEvent::Begin { op, tx });
    assert((r.0@, r.1@) == spec_begin(op, t));
    r
}

/// The layer that wraps a provider into a `SeismicProvider`.
#[derive(Clone, Copy, Debug)]
pub struct SeismicLayer {}

impl SeismicLayer {
    /// Wraps the inner provider.
    pub fn layer<P>(&self, inner: P) -> (s: SeismicProvider<P>)
        ensures
            s.inner_provider() == inner,
    {
        SeismicProvider::new(inner)
    }
}

} // verus!
