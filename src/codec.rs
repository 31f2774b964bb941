//! Byte layouts of the signed transaction and of the request handed to the
//! signing service, and the outside encoders and digests they rely on.
use vstd::prelude::*;
use vstd::utf8::encode_utf8;
use crate::account::{AccountId, account_id_ok};
use omni_transaction::near::types::{
    Action, BlockHash, ED25519PublicKey, FunctionCallAction, NearGas, NearToken, PublicKey,
};
use omni_transaction::{TransactionBuilder, TxBuilder, NEAR};
use sha2::Digest;

verus! {

/// `n` written in `width` bytes, least significant first.
pub open spec fn le_bytes(n: nat, width: nat) -> Seq<u8>
    decreases width,
{
    if width == 0 {
        Seq::empty()
    } else {
        seq![(n % 256) as u8] + le_bytes(n / 256, (width - 1) as nat)
    }
}

/// A byte string behind its length, as four little-endian bytes.
pub open spec fn framed(b: Seq<u8>) -> Seq<u8> {
    le_bytes(b.len(), 4) + b
}

/// Whether the length of `b` can be written in four bytes.
pub open spec fn fits_u32(b: Seq<u8>) -> bool {
    b.len() <= u32::MAX
}

/// The bytes to sign for an unsigned transaction that carries one function
/// call: signer, ED25519 key (tag 0), nonce, receiver, block hash, then a
/// one-element action list whose action is a function call (tag 2) with its
/// method name, arguments, gas and deposit.
pub open spec fn transaction_encoding(
    signer_id: Seq<char>,
    public_key: Seq<u8>,
    nonce: u64,
    receiver_id: Seq<char>,
    block_hash: Seq<u8>,
    method_name: Seq<char>,
    args: Seq<u8>,
    gas: u64,
    deposit: u128,
) -> Seq<u8> {
    framed(encode_utf8(signer_id)) + seq![0u8] + public_key + le_bytes(nonce as nat, 8) + framed(
        encode_utf8(receiver_id),
    ) + block_hash + le_bytes(1, 4) + seq![2u8] + framed(encode_utf8(method_name)) + framed(args)
        + le_bytes(gas as nat, 8) + le_bytes(deposit as nat, 16)
}

/// The bytes of a signing request: digest, derivation path, key version.
pub open spec fn sign_request_encoding(payload: Seq<u8>, path: Seq<char>, key_version: u32) -> Seq<
    u8,
> {
    framed(payload) + framed(encode_utf8(path)) + le_bytes(key_version as nat, 4)
}

/// The SHA-256 digest of a byte string.
pub uninterp spec fn sha256_of(b: Seq<u8>) -> Seq<u8>;

/// The base58 text (Bitcoin alphabet) of a byte string.
pub uninterp spec fn base58_of(b: Seq<u8>) -> Seq<char>;

/// Relies on omni_transaction's `TransactionBuilder::new::<NEAR>()` and
/// `NearTransaction::build_for_signing`: the borsh encoding of the
/// transaction. Building parses both account identifiers and panics on a
/// malformed one; encoding panics on a length that does not fit in 32 bits.
#[verifier::external_body]
pub(crate) fn near_transaction_bytes(
    signer_id: &AccountId,
    public_key: [u8; 32],
    nonce: u64,
    receiver_id: &AccountId,
    block_hash: [u8; 32],
    method_name: &String,
    args: &Vec<u8>,
    gas: u64,
    deposit: u128,
) -> (r: Vec<u8>)
    requires
        account_id_ok(signer_id@),
        account_id_ok(receiver_id@),
        fits_u32(encode_utf8(signer_id@)),
        fits_u32(encode_utf8(receiver_id@)),
        fits_u32(encode_utf8(method_name@)),
        fits_u32(args@),
    ensures
        r@ == transaction_encoding(
            signer_id@,
            public_key@,
            nonce,
            receiver_id@,
            block_hash@,
            method_name@,
            args@,
            gas,
            deposit,
        ),
{
    let call = Action::FunctionCall(Box::new(FunctionCallAction {
        method_name: method_name.clone(),
        args: args.clone(),
        gas: NearGas::from_gas(gas),
        deposit: NearToken::from_yoctonear(deposit),
    }));
    TransactionBuilder::new::<NEAR>().signer_id(signer_id.to_string()).signer_public_key(
        PublicKey::ED25519(ED25519PublicKey::from(public_key)),
    ).nonce(nonce).receiver_id(receiver_id.to_string()).block_hash(BlockHash(block_hash)).actions(
        vec![call],
    ).build().build_for_signing()
}

/// Relies on `sha2::Sha256::digest`: the SHA-256 digest of the bytes.
#[verifier::external_body]
pub(crate) fn hash_payload(payload: &Vec<u8>) -> (r: [u8; 32])
    ensures
        r@ == sha256_of(payload@),
{
    sha2::Sha256::digest(payload.as_slice()).into()
}

/// A character of the base58 (Bitcoin) alphabet's range: an ASCII digit or letter.
pub open spec fn is_base58_char(c: char) -> bool {
    ('1' <= c && c <= '9') || ('A' <= c && c <= 'Z') || ('a' <= c && c <= 'z')
}

/// Relies on `near_sdk::bs58::encode(..).into_string()`: the base58 text of
/// the bytes, drawn from the Bitcoin alphabet and at most `len + (len + 1) / 2`
/// characters long (bs58's `max_encoded_len`).
#[verifier::external_body]
pub(crate) fn base58(b: &Vec<u8>) -> (r: String)
    ensures
        r@ == base58_of(b@),
        r@.len() <= b@.len() + (b@.len() + 1) / 2,
        forall|i: int| 0 <= i < r@.len() ==> is_base58_char(#[trigger] r@[i]),
{
    near_sdk::bs58::encode(b.as_slice()).into_string()
}

/// A request for a signature over `payload`, with the key derived along `path`.
pub struct SignRequest {
    pub payload: Vec<u8>,
    pub path: String,
    pub key_version: u32,
}

/// Relies on `borsh::to_vec` of the fields in order: each byte string behind
/// its 32-bit length, the version in four little-endian bytes. It fails only
/// when a length does not fit in 32 bits.
#[verifier::external_body]
pub(crate) fn serialize_sign_request(request: &SignRequest) -> (r: Option<Vec<u8>>)
    ensures
        match r {
            Some(b) => b@ == sign_request_encoding(
                request.payload@,
                request.path@,
                request.key_version,
            ) && fits_u32(request.payload@) && fits_u32(encode_utf8(request.path@)),
            None => !(fits_u32(request.payload@) && fits_u32(encode_utf8(request.path@))),
        },
{
    borsh::to_vec(&(&request.payload, &request.path, request.key_version)).ok()
}

} // verus!
