# seismic_provider

The client side of Seismic's shielded transactions, verified with Verus.

A Seismic transaction (EIP-2718 type `0x4a`) carries calldata encrypted for the
network's TEE: the client draws an ephemeral secp256k1 key pair and a 96-bit
nonce, agrees on a key with the network's public key by ECDH (HKDF-SHA256),
encrypts the calldata with AES-256-GCM, and attaches its ephemeral public key and
the nonce to the transaction. The output of a shielded `eth_call` comes back
encrypted under the same agreement and nonce, and is decrypted.

Layout:

- `src/tx.rs`: the transaction request as the layer reads and writes it;
  `build_seismic_tx`; when calldata is to be encrypted.
- `src/crypto.rs`: key material and the encryption of calldata, over
  `seismic-enclave` (which re-exports `secp256k1`).
- `src/flow.rs`: the decisions of a shielded call or send, as a state machine
  from a state and an event to the next state and an action.
- `src/provider.rs`: `SeismicProvider` and `SeismicLayer`.
- `src/laws.rs`: what holds across those operations, proved.
- `app/lib.rs`: the async driver of the flow against an inner provider, and the
  serde reader of the TEE public key.
- `tests/`: tests on concrete values, against the real `seismic-enclave`.
