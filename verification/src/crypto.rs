//! The cryptographic and encoding primitives that the contract logic calls:
//! secp256k1 keys and aggregate signatures (grin_util, grin_core), ed25519
//! signatures (ed25519-dalek), blake2b hashing (blake2-rfc), big-endian
//! integer encoding (byteorder), calendar timestamps (chrono) and hex text
//! (grin_util). Each primitive is called through one small function whose
//! contract is trusted; results that take pages to define are given a name.

use blake2_rfc::blake2b::blake2b;
use byteorder::{BigEndian, ByteOrder};
use ed25519_dalek::{Signer, Verifier};
use grin_core::libtx::aggsig;
use grin_core::libtx::proof::create;
use grin_core::libtx::proof::ProofBuilder;
use grin_keychain::{BlindingFactor, ExtKeychain, Identifier, Keychain, SwitchCommitmentType};
use grin_util::secp;
use grin_util::static_secp_instance;
use grin_util::ToHex;

use vstd::prelude::*;

verus! {

// ----------------------------------------------------------------------------
// Big-endian integers
// ----------------------------------------------------------------------------

/// The eight big-endian bytes of `n`.
pub open spec fn be_u64_bytes(n: u64) -> Seq<u8> {
    seq![
        (n / 0x100000000000000) as u8,
        ((n / 0x1000000000000) % 0x100) as u8,
        ((n / 0x10000000000) % 0x100) as u8,
        ((n / 0x100000000) % 0x100) as u8,
        ((n / 0x1000000) % 0x100) as u8,
        ((n / 0x10000) % 0x100) as u8,
        ((n / 0x100) % 0x100) as u8,
        (n % 0x100) as u8,
    ]
}

/// Different numbers have different big-endian bytes.
pub proof fn lemma_be_u64_injective(x: u64, y: u64)
    requires
        be_u64_bytes(x) == be_u64_bytes(y),
    ensures
        x == y,
{
    let (bx, by) = (be_u64_bytes(x), be_u64_bytes(y));
    assert(bx[0] == by[0] && bx[1] == by[1] && bx[2] == by[2] && bx[3] == by[3]);
    assert(bx[4] == by[4] && bx[5] == by[5] && bx[6] == by[6] && bx[7] == by[7]);
    assert(x == y) by (bit_vector)
        requires
            x / 0x100000000000000 == y / 0x100000000000000,
            (x / 0x1000000000000) % 0x100 == (y / 0x1000000000000) % 0x100,
            (x / 0x10000000000) % 0x100 == (y / 0x10000000000) % 0x100,
            (x / 0x100000000) % 0x100 == (y / 0x100000000) % 0x100,
            (x / 0x1000000) % 0x100 == (y / 0x1000000) % 0x100,
            (x / 0x10000) % 0x100 == (y / 0x10000) % 0x100,
            (x / 0x100) % 0x100 == (y / 0x100) % 0x100,
            x % 0x100 == y % 0x100,
    ;
}

/// The eight big-endian bytes of `n` in two's complement.
pub open spec fn be_i64_bytes(n: i64) -> Seq<u8> {
    be_u64_bytes(n as u64)
}

/// `byteorder::BigEndian::write_u64` into a fresh eight-byte buffer: the
/// big-endian bytes of `n`.
#[verifier::external_body]
pub(crate) fn write_u64_be(n: u64) -> (r: [u8; 8])
    ensures
        r@ == be_u64_bytes(n),
{
    let mut buf = [0u8; 8];
    BigEndian::write_u64(&mut buf, n);
    buf
}

/// `byteorder::BigEndian::write_i64` into a fresh eight-byte buffer: the
/// big-endian bytes of `n` in two's complement.
#[verifier::external_body]
pub(crate) fn write_i64_be(n: i64) -> (r: [u8; 8])
    ensures
        r@ == be_i64_bytes(n),
{
    let mut buf = [0u8; 8];
    BigEndian::write_i64(&mut buf, n);
    buf
}

// ----------------------------------------------------------------------------
// blake2b
// ----------------------------------------------------------------------------

/// The unkeyed 32-byte blake2b digest of `data`.
pub uninterp spec fn blake2b_256(data: Seq<u8>) -> Seq<u8>;

/// `blake2_rfc::blake2b::blake2b(32, &[], data)`: the unkeyed 32-byte blake2b digest.
#[verifier::external_body]
pub(crate) fn blake2b_256_digest(data: &[u8]) -> (r: [u8; 32])
    ensures
        r@ == blake2b_256(data@),
{
    let hash = blake2b(32, &[], data);
    let mut out = [0u8; 32];
    out.copy_from_slice(hash.as_bytes());
    out
}

// ----------------------------------------------------------------------------
// ed25519
// ----------------------------------------------------------------------------

/// The ed25519 public key of a 32-byte secret key.
pub uninterp spec fn ed25519_public_key(secret: Seq<u8>) -> Seq<u8>;

/// The ed25519 signature of `msg` under a 32-byte secret key.
pub uninterp spec fn ed25519_signature(secret: Seq<u8>, msg: Seq<u8>) -> Seq<u8>;

/// Whether `sig` verifies for `msg` under the encoded public key `public`
/// (false when `public` does not decode to a curve point).
pub uninterp spec fn ed25519_verifies(public: Seq<u8>, msg: Seq<u8>, sig: Seq<u8>) -> bool;

/// `ed25519_dalek::SigningKey::verifying_key` of the signing key built from
/// `secret` by `SigningKey::from_bytes`, encoded by `to_bytes`.
#[verifier::external_body]
pub(crate) fn ed25519_public(secret: &[u8; 32]) -> (r: [u8; 32])
    ensures
        r@ == ed25519_public_key(secret@),
{
    ed25519_dalek::SigningKey::from_bytes(secret).verifying_key().to_bytes()
}

/// `Signer::sign` of the signing key built from `secret`, encoded by
/// `to_bytes`. As the crate documents, the signature verifies under the
/// verifying key of the same signing key.
#[verifier::external_body]
pub(crate) fn ed25519_sign(secret: &[u8; 32], msg: &[u8]) -> (r: [u8; 64])
    ensures
        r@ == ed25519_signature(secret@, msg@),
        ed25519_verifies(ed25519_public_key(secret@), msg@, r@),
{
    ed25519_dalek::SigningKey::from_bytes(secret).sign(msg).to_bytes()
}

/// `Verifier::verify` of the verifying key decoded from `public` by
/// `VerifyingKey::from_bytes`, on the signature decoded from `sig`; false
/// when `public` does not decode.
#[verifier::external_body]
pub(crate) fn ed25519_verify(public: &[u8; 32], msg: &[u8], sig: &[u8; 64]) -> (r: bool)
    ensures
        r == ed25519_verifies(public@, msg@, sig@),
{
    match ed25519_dalek::VerifyingKey::from_bytes(public) {
        Ok(key) => key.verify(msg, &ed25519_dalek::Signature::from_bytes(sig)).is_ok(),
        Err(_) => false,
    }
}

// ----------------------------------------------------------------------------
// chrono
// ----------------------------------------------------------------------------

/// Whether a count of seconds since the Unix epoch names a representable
/// date: one from the first second of January 1, 262144 BCE to the last of
/// December 31, 262142 CE, the range of chrono's dates.
pub open spec fn chrono_timestamp_in_range(secs: i64) -> bool {
    -8_334_601_228_800 <= secs <= 8_210_266_876_799
}

/// `chrono::DateTime::from_timestamp(secs, 0)`, read back by `timestamp()`:
/// `None` exactly on out-of-range seconds, otherwise the same seconds.
#[verifier::external_body]
pub(crate) fn datetime_from_timestamp(secs: i64) -> (r: Option<i64>)
    ensures
        r is Some <==> chrono_timestamp_in_range(secs),
        r matches Some(t) ==> t == secs,
{
    match chrono::DateTime::from_timestamp(secs, 0) {
        Some(date) => Some(date.timestamp()),
        None => None,
    }
}

// ----------------------------------------------------------------------------
// secp256k1
// ----------------------------------------------------------------------------

/// The compressed public key of the secret key `secret`, if it is a valid secret key.
pub uninterp spec fn secp_public_key(secret: Seq<u8>) -> Option<Seq<u8>>;

/// The compressed encoding of the point decoded from `bytes`, if they encode one.
pub uninterp spec fn secp_public_key_parse(bytes: Seq<u8>) -> Option<Seq<u8>>;

/// The public key of the commitment `commit`, compressed, if it decodes.
pub uninterp spec fn secp_commit_public_key(commit: Seq<u8>) -> Option<Seq<u8>>;

/// Whether the raw partial signature `sig` verifies for message `msg` under
/// the public key `public`, with `nonce_sum` and `key_sum` encoded in the
/// challenge (false when a key does not decode).
pub uninterp spec fn aggsig_partial_verifies(
    sig: Seq<u8>,
    nonce_sum: Seq<u8>,
    public: Seq<u8>,
    key_sum: Seq<u8>,
    msg: Seq<u8>,
) -> bool;

/// The partial signature left after subtracting `partial` from the complete
/// signature `sig`, with the second candidate when two are possible; `None`
/// when the subtraction fails.
pub uninterp spec fn aggsig_subtraction(sig: Seq<u8>, partial: Seq<u8>) -> Option<(Seq<u8>, Option<Seq<u8>>)>;

/// `secp::key::PublicKey::from_secret_key` of the key read by
/// `SecretKey::from_slice`, encoded by `serialize_vec(.., true)`; `None` when
/// the bytes are not a valid secret key.
#[verifier::external_body]
pub(crate) fn public_key_from_secret(secret: &[u8; 32]) -> (r: Option<[u8; 33]>)
    ensures
        r is Some <==> secp_public_key(secret@) is Some,
        r matches Some(k) ==> secp_public_key(secret@) == Some(k@),
{
    let secp = static_secp_instance();
    let secp = secp.lock();
    match secp::key::SecretKey::from_slice(&secp, secret) {
        Ok(key) => match secp::key::PublicKey::from_secret_key(&secp, &key) {
            Ok(public) => {
                let mut out = [0u8; 33];
                out.copy_from_slice(&public.serialize_vec(&secp, true));
                Some(out)
            },
            Err(_) => None,
        },
        Err(_) => None,
    }
}

/// `secp::key::PublicKey::from_slice`, re-encoded by `serialize_vec(.., true)`.
#[verifier::external_body]
pub(crate) fn public_key_parse(bytes: &[u8; 33]) -> (r: Option<[u8; 33]>)
    ensures
        r is Some <==> secp_public_key_parse(bytes@) is Some,
        r matches Some(k) ==> secp_public_key_parse(bytes@) == Some(k@),
{
    let secp = static_secp_instance();
    let secp = secp.lock();
    match secp::key::PublicKey::from_slice(&secp, bytes) {
        Ok(key) => {
            let mut out = [0u8; 33];
            out.copy_from_slice(&key.serialize_vec(&secp, true));
            Some(out)
        },
        Err(_) => None,
    }
}

/// `secp::pedersen::Commitment::to_pubkey`, encoded by `serialize_vec(.., true)`.
#[verifier::external_body]
pub(crate) fn commit_to_public_key(commit: &[u8; 33]) -> (r: Option<[u8; 33]>)
    ensures
        r is Some <==> secp_commit_public_key(commit@) is Some,
        r matches Some(k) ==> secp_commit_public_key(commit@) == Some(k@),
{
    let secp = static_secp_instance();
    let secp = secp.lock();
    match secp::pedersen::Commitment::from_vec(commit.to_vec()).to_pubkey(&secp) {
        Ok(key) => {
            let mut out = [0u8; 33];
            out.copy_from_slice(&key.serialize_vec(&secp, true));
            Some(out)
        },
        Err(_) => None,
    }
}

/// `grin_core::libtx::aggsig::verify_partial_sig` on keys decoded by
/// `PublicKey::from_slice`, the signature taken by `Signature::from_raw_data`
/// and the message by `Message::from_slice`; false when a key does not decode.
#[verifier::external_body]
pub(crate) fn verify_partial_sig(
    sig: &[u8; 64],
    nonce_sum: &[u8; 33],
    public: &[u8; 33],
    key_sum: &[u8; 33],
    msg: &[u8; 32],
) -> (r: bool)
    ensures
        r == aggsig_partial_verifies(sig@, nonce_sum@, public@, key_sum@, msg@),
{
    let secp = static_secp_instance();
    let secp = secp.lock();
    match (
        secp::key::PublicKey::from_slice(&secp, nonce_sum),
        secp::key::PublicKey::from_slice(&secp, public),
        secp::key::PublicKey::from_slice(&secp, key_sum),
        secp::Signature::from_raw_data(sig),
        secp::Message::from_slice(msg),
    ) {
        (Ok(n), Ok(p), Ok(s), Ok(sig), Ok(m)) => {
            aggsig::verify_partial_sig(&secp, &sig, &n, &p, Some(&s), &m).is_ok()
        },
        _ => false,
    }
}

/// `grin_core::libtx::aggsig::subtract_signature` on raw signature data.
#[verifier::external_body]
pub(crate) fn subtract_signature(sig: &[u8; 64], partial: &[u8; 64]) -> (r: Option<([u8; 64], Option<[u8; 64]>)>)
    ensures
        r is Some <==> aggsig_subtraction(sig@, partial@) is Some,
        r matches Some(p) ==> aggsig_subtraction(sig@, partial@) == Some(
            (p.0@, match p.1 { Some(s) => Some(s@), None => None::<Seq<u8>> }),
        ),
{
    let secp = static_secp_instance();
    let secp = secp.lock();
    match (secp::Signature::from_raw_data(sig), secp::Signature::from_raw_data(partial)) {
        (Ok(s), Ok(p)) => match aggsig::subtract_signature(&secp, &s, &p) {
            Ok((a, Some(b))) => Some((a.to_raw_data(), Some(b.to_raw_data()))),
            Ok((a, None)) => Some((a.to_raw_data(), None)),
            Err(_) => None,
        },
        _ => None,
    }
}

/// The sum of the public keys `keys`, compressed, if all decode and the sum exists.
pub uninterp spec fn secp_public_key_sum(keys: Seq<Seq<u8>>) -> Option<Seq<u8>>;

/// The aggregate signature of the partial signatures `sigs` for the nonce sum
/// `nonce_sum`, if it can be formed.
pub uninterp spec fn aggsig_signature_sum(sigs: Seq<Seq<u8>>, nonce_sum: Seq<u8>) -> Option<Seq<u8>>;

/// Whether the complete signature `sig` verifies for `msg` under `public`,
/// with `key_sum` encoded in the challenge (false when a key does not decode).
pub uninterp spec fn aggsig_completed_verifies(sig: Seq<u8>, public: Seq<u8>, key_sum: Seq<u8>, msg: Seq<u8>) -> bool;

/// The commitment to the value `value` with a zero blinding factor.
pub uninterp spec fn secp_value_commitment(value: u64) -> Option<Seq<u8>>;

/// The commitment to `value` with the blinding factor `blind`.
pub uninterp spec fn secp_blind_commitment(value: u64, blind: Seq<u8>) -> Option<Seq<u8>>;

/// The sum of the commitments `positive` less the sum of `negative`.
pub uninterp spec fn secp_commitment_sum(positive: Seq<Seq<u8>>, negative: Seq<Seq<u8>>) -> Option<Seq<u8>>;

/// The sum of two blinding factors (zero factors are skipped).
pub uninterp spec fn blinding_sum(a: Seq<u8>, b: Seq<u8>) -> Option<Seq<u8>>;

/// The byte sequences of a list of keys.
pub open spec fn key_views(keys: Seq<[u8; 33]>) -> Seq<Seq<u8>> {
    Seq::new(keys.len(), |i: int| keys[i]@)
}

/// The byte sequences of a list of signatures.
pub open spec fn sig_views(sigs: Seq<[u8; 64]>) -> Seq<Seq<u8>> {
    Seq::new(sigs.len(), |i: int| sigs[i]@)
}

/// `secp::key::PublicKey::from_combination` of the keys decoded by
/// `PublicKey::from_slice`, encoded by `serialize_vec(.., true)`. The
/// underlying C call aborts the process on an empty list, so the list must
/// hold at least one key.
#[verifier::external_body]
pub(crate) fn public_key_sum(keys: &Vec<[u8; 33]>) -> (r: Option<[u8; 33]>)
    requires
        keys@.len() > 0,
    ensures
        r is Some <==> secp_public_key_sum(key_views(keys@)) is Some,
        r matches Some(k) ==> secp_public_key_sum(key_views(keys@)) == Some(k@),
{
    let secp = static_secp_instance();
    let secp = secp.lock();
    let mut parsed = Vec::with_capacity(keys.len());
    for k in keys {
        parsed.push(secp::key::PublicKey::from_slice(&secp, k).ok()?);
    }
    let sum = secp::key::PublicKey::from_combination(&secp, parsed.iter().collect()).ok()?;
    let mut out = [0u8; 33];
    out.copy_from_slice(&sum.serialize_vec(&secp, true));
    Some(out)
}

/// The partial signature of `msg` made with the secret key `sec_key` and the
/// secret nonce `sec_nonce`, with `nonce_sum` and `key_sum` encoded in the
/// challenge, if it can be made.
pub uninterp spec fn aggsig_partial_signature(
    sec_key: Seq<u8>,
    sec_nonce: Seq<u8>,
    nonce_sum: Seq<u8>,
    key_sum: Seq<u8>,
    msg: Seq<u8>,
) -> Option<Seq<u8>>;

/// `grin_core::libtx::aggsig::calculate_partial_sig` with the secret keys read
/// by `SecretKey::from_slice` and the public keys by `PublicKey::from_slice`;
/// `None` when a key does not decode or signing fails. The secret nonce is
/// given, so the random seed `sign_single` draws is not used and the
/// signature depends on the arguments alone. As the crate's documentation
/// shows, the signature verifies with `verify_partial_sig` under the public
/// key of `sec_key` with the same nonce sum, key sum and message.
#[verifier::external_body]
pub(crate) fn calculate_partial_sig(
    sec_key: &[u8; 32],
    sec_nonce: &[u8; 32],
    nonce_sum: &[u8; 33],
    key_sum: &[u8; 33],
    msg: &[u8; 32],
) -> (r: Option<[u8; 64]>)
    ensures
        r is Some <==> aggsig_partial_signature(sec_key@, sec_nonce@, nonce_sum@, key_sum@, msg@) is Some,
        r matches Some(s) ==> aggsig_partial_signature(sec_key@, sec_nonce@, nonce_sum@, key_sum@, msg@) == Some(s@),
        r matches Some(s) ==> secp_public_key(sec_key@) matches Some(public)
            && aggsig_partial_verifies(s@, nonce_sum@, public, key_sum@, msg@),
{
    let secp = static_secp_instance();
    let secp = secp.lock();
    let k = secp::key::SecretKey::from_slice(&secp, sec_key).ok()?;
    let n = secp::key::SecretKey::from_slice(&secp, sec_nonce).ok()?;
    let ns = secp::key::PublicKey::from_slice(&secp, nonce_sum).ok()?;
    let ks = secp::key::PublicKey::from_slice(&secp, key_sum).ok()?;
    let m = secp::Message::from_slice(msg).ok()?;
    let sig = aggsig::calculate_partial_sig(&secp, &k, &n, &ns, Some(&ks), &m).ok()?;
    Some(sig.to_raw_data())
}

/// `grin_core::libtx::aggsig::add_signatures` on raw signature data and the
/// nonce sum decoded by `PublicKey::from_slice`.
#[verifier::external_body]
pub(crate) fn add_signatures(sigs: &Vec<[u8; 64]>, nonce_sum: &[u8; 33]) -> (r: Option<[u8; 64]>)
    ensures
        r is Some <==> aggsig_signature_sum(sig_views(sigs@), nonce_sum@) is Some,
        r matches Some(s) ==> aggsig_signature_sum(sig_views(sigs@), nonce_sum@) == Some(s@),
{
    let secp = static_secp_instance();
    let secp = secp.lock();
    let mut parsed = Vec::with_capacity(sigs.len());
    for s in sigs {
        parsed.push(secp::Signature::from_raw_data(s).ok()?);
    }
    let n = secp::key::PublicKey::from_slice(&secp, nonce_sum).ok()?;
    let sig = aggsig::add_signatures(&secp, parsed.iter().collect(), &n).ok()?;
    Some(sig.to_raw_data())
}

/// `grin_core::libtx::aggsig::verify_completed_sig` with the keys decoded by
/// `PublicKey::from_slice`; false when a key does not decode.
#[verifier::external_body]
pub(crate) fn verify_completed_sig(sig: &[u8; 64], public: &[u8; 33], key_sum: &[u8; 33], msg: &[u8; 32]) -> (r: bool)
    ensures
        r == aggsig_completed_verifies(sig@, public@, key_sum@, msg@),
{
    let secp = static_secp_instance();
    let secp = secp.lock();
    match (
        secp::Signature::from_raw_data(sig),
        secp::key::PublicKey::from_slice(&secp, public),
        secp::key::PublicKey::from_slice(&secp, key_sum),
        secp::Message::from_slice(msg),
    ) {
        (Ok(s), Ok(p), Ok(k), Ok(m)) => aggsig::verify_completed_sig(&secp, &s, &p, Some(&k), &m).is_ok(),
        _ => false,
    }
}

/// `Secp256k1::commit_value`: the commitment to `value` with a zero blinding factor.
#[verifier::external_body]
pub(crate) fn commit_value(value: u64) -> (r: Option<[u8; 33]>)
    ensures
        r is Some <==> secp_value_commitment(value) is Some,
        r matches Some(c) ==> secp_value_commitment(value) == Some(c@),
{
    let secp = static_secp_instance();
    let secp = secp.lock();
    match secp.commit_value(value) {
        Ok(c) => Some(c.0),
        Err(_) => None,
    }
}

/// `Secp256k1::commit(value, ..)` with the blinding factor's secret key
/// (`BlindingFactor::secret_key`).
#[verifier::external_body]
pub(crate) fn commit_blind(value: u64, blind: &[u8; 32]) -> (r: Option<[u8; 33]>)
    ensures
        r is Some <==> secp_blind_commitment(value, blind@) is Some,
        r matches Some(c) ==> secp_blind_commitment(value, blind@) == Some(c@),
{
    let secp = static_secp_instance();
    let secp = secp.lock();
    match BlindingFactor::from_slice(blind).secret_key(&secp) {
        Ok(key) => match secp.commit(value, key) {
            Ok(c) => Some(c.0),
            Err(_) => None,
        },
        Err(_) => None,
    }
}

/// `Secp256k1::commit_sum`: the sum of `positive` less the sum of `negative`.
#[verifier::external_body]
pub(crate) fn commit_sum(positive: &Vec<[u8; 33]>, negative: &Vec<[u8; 33]>) -> (r: Option<[u8; 33]>)
    ensures
        r is Some <==> secp_commitment_sum(key_views(positive@), key_views(negative@)) is Some,
        r matches Some(c) ==> secp_commitment_sum(key_views(positive@), key_views(negative@)) == Some(c@),
{
    let secp = static_secp_instance();
    let secp = secp.lock();
    let pos = positive.iter().map(|c| secp::pedersen::Commitment(*c)).collect();
    let neg = negative.iter().map(|c| secp::pedersen::Commitment(*c)).collect();
    match secp.commit_sum(pos, neg) {
        Ok(c) => Some(c.0),
        Err(_) => None,
    }
}

/// `grin_keychain::BlindingFactor::add`.
#[verifier::external_body]
pub(crate) fn blinding_factor_add(a: &[u8; 32], b: &[u8; 32]) -> (r: Option<[u8; 32]>)
    ensures
        r is Some <==> blinding_sum(a@, b@) is Some,
        r matches Some(s) ==> blinding_sum(a@, b@) == Some(s@),
{
    let secp = static_secp_instance();
    let secp = secp.lock();
    match BlindingFactor::from_slice(a).add(&BlindingFactor::from_slice(b), &secp) {
        Ok(sum) => {
            let mut out = [0u8; 32];
            out.copy_from_slice(sum.as_ref());
            Some(out)
        },
        Err(_) => None,
    }
}

// ----------------------------------------------------------------------------
// Keychain
// ----------------------------------------------------------------------------

/// The wallet keychain, held by the seed it is derived from and whether it
/// derives keys for a test network.
#[derive(Clone, Debug)]
pub struct KeychainSeed {
    pub seed: Vec<u8>,
    pub is_test: bool,
}

/// The commitment to `value` under the key `key_id` derived from the keychain
/// of `seed`, with a regular switch commitment, if the keychain and the key
/// can be derived.
pub uninterp spec fn keychain_commitment(seed: Seq<u8>, is_test: bool, value: u64, key_id: Seq<u8>) -> Option<Seq<u8>>;

/// The range proof of the output committing to `value` under the key
/// `key_id` of the keychain of `seed`, if it can be built.
pub uninterp spec fn keychain_range_proof_bytes(seed: Seq<u8>, is_test: bool, value: u64, key_id: Seq<u8>) -> Option<Seq<u8>>;

/// `Keychain::commit` of the `ExtKeychain` built by `Keychain::from_seed`,
/// for the key `key_id` with a regular switch commitment. Key derivation
/// indexes the four-level path of the identifier up to its depth, the first
/// byte, and panics beyond four, so the depth must be at most four.
#[verifier::external_body]
pub(crate) fn keychain_commit(keychain: &KeychainSeed, value: u64, key_id: &[u8; 17]) -> (r: Option<[u8; 33]>)
    requires
        key_id@[0] <= 4,
    ensures
        r is Some <==> keychain_commitment(keychain.seed@, keychain.is_test, value, key_id@) is Some,
        r matches Some(c) ==> keychain_commitment(keychain.seed@, keychain.is_test, value, key_id@) == Some(c@),
{
    let k = ExtKeychain::from_seed(&keychain.seed, keychain.is_test).ok()?;
    match k.commit(value, &Identifier::from_bytes(key_id), SwitchCommitmentType::Regular) {
        Ok(c) => Some(c.0),
        Err(_) => None,
    }
}

/// `grin_core::libtx::proof::create` with the `ExtKeychain` built by
/// `Keychain::from_seed` and a `ProofBuilder` of it, for the key `key_id` with
/// a regular switch commitment: the bytes of the range proof. `create`
/// recomputes the commitment and ignores the one passed (`commit`); its
/// nonces derive from the keychain and the commitment, so the proof depends
/// on the seed, the value and the key. The depth of `key_id` must be at most
/// four, as for `keychain_commit`.
#[verifier::external_body]
pub(crate) fn keychain_range_proof(keychain: &KeychainSeed, value: u64, key_id: &[u8; 17], commit: &[u8; 33]) -> (r: Option<Vec<u8>>)
    requires
        key_id@[0] <= 4,
    ensures
        r is Some <==> keychain_range_proof_bytes(keychain.seed@, keychain.is_test, value, key_id@) is Some,
        r matches Some(p) ==> keychain_range_proof_bytes(keychain.seed@, keychain.is_test, value, key_id@) == Some(p@),
{
    let k = ExtKeychain::from_seed(&keychain.seed, keychain.is_test).ok()?;
    let builder = ProofBuilder::new(&k);
    let id = Identifier::from_bytes(key_id);
    match create(&k, &builder, value, &id, SwitchCommitmentType::Regular, secp::pedersen::Commitment(*commit), None) {
        Ok(p) => Some(p.bytes().to_vec()),
        Err(_) => None,
    }
}

// ----------------------------------------------------------------------------
// Hex text
// ----------------------------------------------------------------------------

/// The lowercase hex digit of a value below 16.
pub open spec fn hex_digit(n: int) -> char {
    if n < 10 {
        (48 + n) as char
    } else {
        (87 + n) as char
    }
}

/// The lowercase hex text of `bytes`: two digits per byte, high digit first.
pub open spec fn hex_lower(bytes: Seq<u8>) -> Seq<char>
    decreases bytes.len(),
{
    if bytes.len() == 0 {
        Seq::empty()
    } else {
        hex_lower(bytes.drop_last()) + seq![hex_digit(bytes.last() as int / 16), hex_digit(bytes.last() as int % 16)]
    }
}

/// A lowercase hex digit.
pub open spec fn is_lower_hex_digit(c: char) -> bool {
    ('0' <= c && c <= '9') || ('a' <= c && c <= 'f')
}

/// `text` is lowercase hex: an even number of lowercase hex digits.
pub open spec fn is_lower_hex(text: Seq<char>) -> bool {
    &&& text.len() % 2 == 0
    &&& forall|j: int| 0 <= j < text.len() ==> is_lower_hex_digit(#[trigger] text[j])
}

/// The lowercase hex text of some bytes is lowercase hex, ASCII, and two
/// digits per byte.
pub proof fn lemma_hex_lower_shape(bytes: Seq<u8>)
    ensures
        hex_lower(bytes).len() == 2 * bytes.len(),
        is_lower_hex(hex_lower(bytes)),
        vstd::utf8::is_ascii_chars(hex_lower(bytes)),
    decreases bytes.len(),
{
    if bytes.len() > 0 {
        let b = bytes.last() as int;
        lemma_hex_lower_shape(bytes.drop_last());
        let t = hex_lower(bytes);
        let prev = hex_lower(bytes.drop_last());
        assert(is_lower_hex_digit(hex_digit(b / 16)) && hex_digit(b / 16) <= '\u{7f}');
        assert(is_lower_hex_digit(hex_digit(b % 16)) && hex_digit(b % 16) <= '\u{7f}');
        assert forall|j: int| 0 <= j < t.len() implies is_lower_hex_digit(#[trigger] t[j]) && t[j] <= '\u{7f}' by {
            if j < prev.len() {
                assert(t[j] == prev[j]);
            }
        }
    }
}

/// Different bytes have different lowercase hex texts.
pub proof fn lemma_hex_lower_injective(a: Seq<u8>, b: Seq<u8>)
    requires
        hex_lower(a) == hex_lower(b),
    ensures
        a == b,
    decreases a.len(),
{
    lemma_hex_lower_shape(a);
    lemma_hex_lower_shape(b);
    if a.len() > 0 {
        let (x, y) = (a.last() as int, b.last() as int);
        let (ta, tb) = (hex_lower(a), hex_lower(b));
        assert(ta[ta.len() - 2] == hex_digit(x / 16));
        assert(tb[tb.len() - 2] == hex_digit(y / 16));
        assert(ta[ta.len() - 1] == hex_digit(x % 16));
        assert(tb[tb.len() - 1] == hex_digit(y % 16));
        assert(x / 16 == y / 16);
        assert(x % 16 == y % 16);
        assert(x == y);
        assert(hex_lower(a.drop_last()) =~= ta.subrange(0, ta.len() - 2));
        assert(hex_lower(b.drop_last()) =~= tb.subrange(0, tb.len() - 2));
        lemma_hex_lower_injective(a.drop_last(), b.drop_last());
        assert(a =~= a.drop_last().push(a.last()));
        assert(b =~= b.drop_last().push(b.last()));
    } else {
        assert(a =~= b);
    }
}

/// What `grin_util::from_hex` gives for a text: the bytes, or the text it
/// could not read.
pub uninterp spec fn grin_from_hex(text: Seq<char>) -> Result<Seq<u8>, Seq<char>>;

/// `grin_util::ToHex::to_hex`: the lowercase hex text of `bytes`.
#[verifier::external_body]
pub(crate) fn hex_encode(bytes: &[u8]) -> (r: String)
    ensures
        r@ == hex_lower(bytes@),
{
    bytes.to_hex()
}

/// What `str::trim` leaves of a text: the text without its leading and
/// trailing Unicode whitespace.
pub uninterp spec fn str_trim(text: Seq<char>) -> Seq<char>;

/// `str::trim`. As std documents, it returns a slice of the text with leading
/// and trailing whitespace removed, so the trimmed text of an ASCII text is
/// ASCII.
#[verifier::external_body]
pub(crate) fn trim_whitespace(text: &str) -> (r: &str)
    ensures
        r@ == str_trim(text@),
        vstd::utf8::is_ascii_chars(text@) ==> vstd::utf8::is_ascii_chars(r@),
{
    text.trim()
}

/// `grin_util::from_hex`. Its source trims the text of whitespace and of a
/// leading `0x`, then decodes lowercase hex text, as `to_hex` writes it, back
/// to the bytes it was written from. It slices the trimmed text two bytes at a
/// time, which panics inside a multi-byte character, so the trimmed text must
/// be ASCII.
#[verifier::external_body]
pub(crate) fn hex_decode(text: &str) -> (r: Result<Vec<u8>, String>)
    requires
        vstd::utf8::is_ascii_chars(str_trim(text@)),
    ensures
        r matches Ok(v) ==> grin_from_hex(text@) is Ok && grin_from_hex(text@)->Ok_0 == v@,
        r matches Err(e) ==> grin_from_hex(text@) is Err && grin_from_hex(text@)->Err_0 == e@,
        is_lower_hex(text@) ==> r is Ok,
        r matches Ok(v) ==> (is_lower_hex(text@) ==> hex_lower(v@) == text@),
{
    grin_util::from_hex(text)
}

} // verus!
