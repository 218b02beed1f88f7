use bech32::ToBase32;
use k256::sha2::Digest;
use vstd::prelude::*;
use vstd::utf8::encode_utf8;

use crate::payload::{
    amino_sign_doc, generate_amino_transaction_string, signed_data_json, SignedData,
    SignedDataModel,
};

verus! {

/// The human-readable part of the address derived from the trusted key.
pub const HRP: &'static str = "CHNGME";

/// The SHA-256 digest of `data`.
pub uninterp spec fn sha256_of(data: Seq<u8>) -> Seq<u8>;

/// The RIPEMD-160 digest of `data`.
pub uninterp spec fn ripemd160_of(data: Seq<u8>) -> Seq<u8>;

/// The Bech32 string (classic checksum) of `data` under the prefix `hrp`.
pub uninterp spec fn bech32_of(hrp: Seq<char>, data: Seq<u8>) -> Seq<char>;

/// Whether the secp256k1 verifier accepts `signature` over `hash` for `pubkey`.
pub uninterp spec fn secp256k1_accepts(hash: Seq<u8>, signature: Seq<u8>, pubkey: Seq<u8>) -> bool;

pub open spec fn is_lower_ascii(c: char) -> bool {
    'a' <= c && c <= 'z'
}

pub open spec fn is_upper_ascii(c: char) -> bool {
    'A' <= c && c <= 'Z'
}

/// A prefix that Bech32 encoding takes: 1 to 83 printable ASCII characters,
/// not mixing lower and upper case.
pub open spec fn valid_hrp(hrp: Seq<char>) -> bool {
    &&& 1 <= hrp.len() <= 83
    &&& forall|i: int| 0 <= i < hrp.len() ==> 33 <= #[trigger] hrp[i] as u32 <= 126
    &&& !((exists|i: int| 0 <= i < hrp.len() && is_lower_ascii(#[trigger] hrp[i])) && (exists|
        i: int,
    | 0 <= i < hrp.len() && is_upper_ascii(#[trigger] hrp[i])))
}

/// Relies on k256's re-export of sha2: `Sha256::digest`, a 32-byte digest.
#[verifier::external_body]
fn sha_256(data: &[u8]) -> (r: [u8; 32])
    ensures
        r@ == sha256_of(data@),
{
    k256::sha2::Sha256::digest(data).into()
}

/// Relies on ripemd's `Ripemd160::digest`.
#[verifier::external_body]
fn ripemd_160(data: &[u8]) -> (r: Vec<u8>)
    ensures
        r@ == ripemd160_of(data@),
{
    ripemd::Ripemd160::digest(data).to_vec()
}

/// Relies on bech32's `encode` with `Variant::Bech32`, on the 5-bit groups
/// of `data`. It fails exactly where `check_hrp` rejects the prefix.
#[verifier::external_body]
fn bech32_encode(hrp: &str, data: &[u8]) -> (r: Option<String>)
    ensures
        r is Some <==> valid_hrp(hrp@),
        r matches Some(s) ==> s@ == bech32_of(hrp@, data@),
{
    bech32::encode(hrp, data.to_base32(), bech32::Variant::Bech32).ok()
}

/// Relies on cosmwasm_crypto's `secp256k1_verify`, the verifier that the host
/// runs: `Ok(true)` when the signature verifies, `Ok(false)` when it does not,
/// an error when the hash is not 32 bytes, the signature not 64 bytes, or the
/// key not a SEC1 encoding. Both of the latter count as not accepted.
#[verifier::external_body]
fn secp256k1_verify(hash: &[u8], signature: &[u8], pubkey: &[u8]) -> (r: bool)
    ensures
        r == secp256k1_accepts(hash@, signature@, pubkey@),
        hash@.len() != 32 ==> !r,
        signature@.len() != 64 ==> !r,
{
    matches!(cosmwasm_crypto::secp256k1_verify(hash, signature, pubkey), Ok(true))
}

/// The canonical address bytes of a public key: RIPEMD-160 of its SHA-256.
pub open spec fn canonical_of(pubkey: Seq<u8>) -> Seq<u8> {
    ripemd160_of(sha256_of(pubkey))
}

/// The account string of a public key under `hrp`.
pub open spec fn account_of(pubkey: Seq<u8>, hrp: Seq<char>) -> Seq<char> {
    bech32_of(hrp, canonical_of(pubkey))
}

/// Derives the canonical address bytes of a public key.
pub fn pubkey_to_canonical(pubkey: &[u8]) -> (r: Vec<u8>)
    ensures
        r@ == canonical_of(pubkey@),
{
    let digest = sha_256(pubkey);
    ripemd_160(digest.as_slice())
}

/// Derives the Bech32 account of a public key under the prefix `hrp`.
pub fn pubkey_to_account(pubkey: &[u8], hrp: &str) -> (r: String)
    requires
        valid_hrp(hrp@),
    ensures
        r@ == account_of(pubkey@, hrp@),
{
    let canonical = pubkey_to_canonical(pubkey);
    match bech32_encode(hrp, canonical.as_slice()) {
        Some(s) => s,
        None => {
            assert(false);
            String::new()
        }
    }
}

/// The bytes that the holder of `pubkey` signs for a voucher: the sign
/// document naming the key's own account as signer, in UTF-8.
pub open spec fn voucher_sign_bytes(pubkey: Seq<u8>, data: SignedDataModel) -> Seq<u8> {
    encode_utf8(amino_sign_doc(account_of(pubkey, HRP@), signed_data_json(data)))
}

/// Whether `signature` is the trusted key's signature of a voucher.
pub open spec fn voucher_signed(pubkey: Seq<u8>, data: SignedDataModel, signature: Seq<u8>) -> bool {
    secp256k1_accepts(sha256_of(voucher_sign_bytes(pubkey, data)), signature, pubkey)
}

proof fn lemma_hrp_valid()
    ensures
        valid_hrp(HRP@),
{
    reveal_strlit("CHNGME");
    assert(HRP@ == "CHNGME"@);
}

/// Checks a voucher's signature against the trusted key.
pub fn verify_arbitrary(pubkey: &[u8], data: &SignedData, signature: &[u8]) -> (r: Result<
    (),
    crate::state::ContractError,
>)
    ensures
        r is Ok <==> voucher_signed(pubkey@, data@, signature@),
        r matches Err(e) ==> e == crate::state::ContractError::InvalidSignature,
{
    proof {
        lemma_hrp_valid();
    }
    let signer = pubkey_to_account(pubkey, HRP);
    let json = data.canonical_json();
    let doc = generate_amino_transaction_string(signer.as_str(), json.as_str());
    let digest = sha_256(doc.as_str().as_bytes());
    if secp256k1_verify(digest.as_slice(), signature, pubkey) {
        Ok(())
    } else {
        Err(crate::state::ContractError::InvalidSignature)
    }
}

} // verus!
