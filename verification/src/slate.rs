//! The slate exchanged by the parties of a contract, and the keys, signatures
//! and payment information it carries. Curve points and scalars are held by
//! their byte encodings: a secp256k1 public key by its 33-byte compressed
//! form, a secret key or blinding factor by its 32 bytes, an aggregate
//! signature by its 64 raw bytes, and an ed25519 key or signature by its
//! standard encoding.

use vstd::prelude::*;

use crate::contract::types::Context;
use crate::crypto::{
    add_signatures, aggsig_completed_verifies, blinding_factor_add, blinding_sum, aggsig_signature_sum, be_u64_bytes, blake2b_256,
    aggsig_partial_signature, aggsig_partial_verifies, blake2b_256_digest, calculate_partial_sig, commit_blind, commit_sum, commit_to_public_key,
    commit_value, key_views, public_key_from_secret, public_key_sum, secp_blind_commitment,
    secp_commit_public_key, secp_commitment_sum, secp_public_key, secp_public_key_sum,
    secp_value_commitment, sig_views, verify_completed_sig, write_u64_be,
};
use crate::error::Error;

verus! {

/// Compressed secp256k1 public key.
pub type PublicKey = [u8; 33];
/// secp256k1 secret key.
pub type SecretKey = [u8; 32];
/// Raw aggregate (Schnorr) signature data.
pub type Signature = [u8; 64];
/// ed25519 public key (a payment proof address).
pub type DalekPublicKey = [u8; 32];
/// ed25519 signature.
pub type DalekSignature = [u8; 64];
/// Pedersen commitment.
pub type Commitment = [u8; 33];
/// Blinding factor (kernel offset share).
pub type BlindingFactor = [u8; 32];
/// Keychain identifier of a key.
pub type Identifier = [u8; 17];
/// Message signed by an aggregate signature.
pub type Message = [u8; 32];

/// The step a slate has reached in a standard or invoice flow.
#[derive(Debug, Clone, Copy, PartialEq, Eq, Structural)]
pub enum SlateState {
    /// Unknown, the slate cannot be interpreted.
    Unknown,
    /// Standard flow, freshly created.
    Standard1,
    /// Standard flow, returned by the recipient.
    Standard2,
    /// Standard flow, finalized.
    Standard3,
    /// Invoice flow, freshly created.
    Invoice1,
    /// Invoice flow, paid by the payer.
    Invoice2,
    /// Invoice flow, finalized.
    Invoice3,
}

/// The public contribution of one participant, with its partial signature once signed.
#[derive(Debug, Clone, Copy, PartialEq, Eq)]
pub struct ParticipantData {
    /// Public blinding excess.
    pub public_blind_excess: PublicKey,
    /// Public nonce.
    pub public_nonce: PublicKey,
    /// Partial signature, once the participant has signed.
    pub part_sig: Option<Signature>,
}

/// A vector holding the single byte `b`.
pub(crate) fn one_byte(b: u8) -> (r: Vec<u8>)
    ensures
        r@ == seq![b],
{
    let mut v: Vec<u8> = Vec::new();
    v.push(b);
    v
}

/// Appends `bytes[start..]` to `out`.
pub(crate) fn append_from(out: &mut Vec<u8>, bytes: &[u8], start: usize)
    requires
        start <= bytes@.len(),
    ensures
        final(out)@ == old(out)@ + bytes@.subrange(start as int, bytes@.len() as int),
{
    let ghost init = out@;
    let mut i = start;
    while i < bytes.len()
        invariant
            start <= i <= bytes@.len(),
            out@ == init + bytes@.subrange(start as int, i as int),
        decreases bytes@.len() - i,
    {
        out.push(bytes[i]);
        i = i + 1;
        assert(out@ =~= init + bytes@.subrange(start as int, i as int));
    }
}

/// Whether two public keys are the same.
pub fn keys_equal(a: &PublicKey, b: &PublicKey) -> (r: bool)
    ensures
        r == (a@ == b@),
{
    let mut i: usize = 0;
    while i < 33
        invariant
            i <= 33,
            forall|j: int| 0 <= j < i ==> a@[j] == b@[j],
        decreases 33 - i,
    {
        if a[i] != b[i] {
            return false;
        }
        i = i + 1;
    }
    assert(a@ =~= b@);
    true
}

impl ParticipantData {
    /// A participant is complete once it holds a partial signature.
    pub fn is_complete(&self) -> (r: bool)
        ensures
            r == (self.part_sig is Some),
    {
        self.part_sig.is_some()
    }
}

/// Kind of payment proof.
#[derive(Debug, Clone, Copy, PartialEq, Eq, Structural)]
pub enum PaymentProofType {
    /// Legacy payment proof.
    Legacy,
    /// Invoice (early) payment proof.
    Invoice,
    /// Sender nonce (early) payment proof.
    SenderNonce,
}

impl PaymentProofType {
    /// The byte that identifies the proof type in the binary proof format.
    pub open spec fn spec_as_u8(self) -> u8 {
        match self {
            PaymentProofType::Legacy => 0,
            PaymentProofType::Invoice => 1,
            PaymentProofType::SenderNonce => 2,
        }
    }

    /// The byte that identifies the proof type in the binary proof format.
    pub fn as_u8(&self) -> (r: u8)
        ensures
            r == self.spec_as_u8(),
    {
        match self {
            PaymentProofType::Legacy => 0,
            PaymentProofType::Invoice => 1,
            PaymentProofType::SenderNonce => 2,
        }
    }

    /// Succeeds exactly when the proof is of the expected type.
    pub fn validate(&self, expected: PaymentProofType) -> (r: Result<(), Error>)
        ensures
            r is Ok <==> *self == expected,
            r is Err ==> r == Err::<(), Error>(
                Error::ProofTypeMismatch { expected_type: expected, found_type: *self },
            ),
    {
        if *self == expected {
            Ok(())
        } else {
            Err(Error::ProofTypeMismatch { expected_type: expected, found_type: *self })
        }
    }
}

/// Payment memo: a text of at most `PaymentMemo::MAX_LEN` bytes in UTF-8.
#[derive(Debug, Clone, PartialEq, Eq)]
pub struct PaymentMemo {
    memo: String,
}

impl View for PaymentMemo {
    type V = Seq<char>;

    closed spec fn view(&self) -> Seq<char> {
        self.memo@
    }
}

/// The UTF-8 bytes of a text.
pub open spec fn utf8_bytes(text: Seq<char>) -> Seq<u8> {
    vstd::utf8::encode_utf8(text)
}

impl PaymentMemo {
    /// Largest length in bytes of a memo.
    pub const MAX_LEN: usize = 32;

    /// A memo holding `memo`, if it is no longer than `MAX_LEN` bytes.
    pub fn new(memo: String) -> (r: Result<PaymentMemo, Error>)
        ensures
            r is Ok <==> utf8_bytes(memo@).len() <= Self::MAX_LEN,
            r matches Ok(m) ==> m@ == memo@,
            r matches Err(e) ==> e == (Error::MemoTooLong {
                len: utf8_bytes(memo@).len() as usize,
                max: Self::MAX_LEN,
            }),
    {
        let len = memo.as_str().as_bytes().len();
        if len > Self::MAX_LEN {
            Err(Error::MemoTooLong { len, max: Self::MAX_LEN })
        } else {
            Ok(PaymentMemo { memo })
        }
    }

    /// The text of the memo.
    pub fn as_str(&self) -> (r: &str)
        ensures
            r@ == self@,
    {
        self.memo.as_str()
    }

    /// A copy of the memo.
    pub fn duplicate(&self) -> (r: PaymentMemo)
        ensures
            r@ == self@,
    {
        PaymentMemo { memo: self.memo.clone() }
    }
}

/// A copy of an optional memo.
pub fn duplicate_memo(memo: &Option<PaymentMemo>) -> (r: Option<PaymentMemo>)
    ensures
        r is Some <==> memo is Some,
        r matches Some(m) ==> m@ == memo->0@,
{
    match memo {
        Some(m) => Some(m.duplicate()),
        None => None,
    }
}

/// Payment proof information carried by a slate.
#[derive(Debug, Clone, PartialEq, Eq)]
pub struct PaymentInfo {
    /// Kind of proof.
    pub proof_type: PaymentProofType,
    /// Address of the sender.
    pub sender_address: Option<DalekPublicKey>,
    /// Address of the receiver.
    pub receiver_address: DalekPublicKey,
    /// Time of the receiver's promise, in seconds since the Unix epoch.
    pub timestamp: Option<i64>,
    /// The receiver's signature over the promise.
    pub promise_signature: Option<DalekSignature>,
    /// Optional memo.
    pub memo: Option<PaymentMemo>,
}

/// Features of a transaction output, or of the output an input spends.
#[derive(Debug, Clone, Copy, PartialEq, Eq, Structural)]
pub enum OutputFeatures {
    /// Plain output.
    Plain,
    /// Coinbase output.
    Coinbase,
}

/// A transaction input: the commitment of the output it spends.
#[derive(Debug, Clone, PartialEq, Eq)]
pub struct TxInput {
    /// Features of the spent output.
    pub features: OutputFeatures,
    /// Commitment of the spent output.
    pub commit: Commitment,
}

/// A transaction output with its range proof.
#[derive(Debug, Clone, PartialEq, Eq)]
pub struct TxOutput {
    /// Features of the output.
    pub features: OutputFeatures,
    /// Commitment of the output.
    pub commit: Commitment,
    /// Range proof of the output.
    pub proof: Vec<u8>,
}

/// The kernel of a finalized transaction.
#[derive(Debug, Clone, PartialEq, Eq)]
pub struct TxKernel {
    /// Public excess of the transaction.
    pub excess: Commitment,
    /// Aggregate signature of the excess.
    pub excess_sig: Signature,
}

/// The transaction a slate builds.
#[derive(Debug, Clone, PartialEq, Eq)]
pub struct Transaction {
    /// Kernel offset.
    pub offset: BlindingFactor,
    /// Inputs, in the order of their keys (`element_key`).
    pub inputs: Vec<TxInput>,
    /// Outputs, in the order of their keys (`element_key`).
    pub outputs: Vec<TxOutput>,
    /// Kernel, once the transaction is finalized.
    pub kernel: Option<TxKernel>,
}

impl Transaction {
    /// A transaction without inputs, outputs or kernel, with a zero offset.
    pub fn empty() -> (r: Transaction)
        ensures
            r.offset@ == Seq::new(32, |i: int| 0u8),
            r.inputs@.len() == 0,
            r.outputs@.len() == 0,
            r.kernel is None,
    {
        Transaction { offset: [0u8; 32], inputs: Vec::new(), outputs: Vec::new(), kernel: None }
    }
}

// ----------------------------------------------------------------------------
// The order of inputs and outputs
// ----------------------------------------------------------------------------

/// The byte grin writes for output features.
pub open spec fn features_byte(features: OutputFeatures) -> u8 {
    match features {
        OutputFeatures::Plain => 0u8,
        OutputFeatures::Coinbase => 1u8,
    }
}

/// The key by which grin orders the inputs and the outputs of a transaction
/// body, and by which it tells two of them apart: the hash of the element's
/// features byte and commitment (the blake2b digest of what grin writes for
/// an input or an output identifier).
pub open spec fn element_key(features: OutputFeatures, commit: Commitment) -> Seq<u8> {
    blake2b_256(seq![features_byte(features)] + commit@)
}

/// The order of keys: lexicographic, byte by byte.
pub open spec fn key_lt(a: Seq<u8>, b: Seq<u8>) -> bool {
    exists|i: int| 0 <= i < a.len() && i < b.len() && a.subrange(0, i) == b.subrange(0, i) && #[trigger] a[i] < #[trigger] b[i]
}

/// No key is below itself.
pub proof fn lemma_key_lt_irreflexive(a: Seq<u8>)
    ensures
        !key_lt(a, a),
{
}

/// The order of keys is transitive.
pub proof fn lemma_key_lt_transitive(a: Seq<u8>, b: Seq<u8>, c: Seq<u8>)
    requires
        key_lt(a, b),
        key_lt(b, c),
    ensures
        key_lt(a, c),
{
    let i = choose|i: int| 0 <= i < a.len() && i < b.len() && a.subrange(0, i) == b.subrange(0, i) && #[trigger] a[i] < #[trigger] b[i];
    let j = choose|j: int| 0 <= j < b.len() && j < c.len() && b.subrange(0, j) == c.subrange(0, j) && #[trigger] b[j] < #[trigger] c[j];
    let k = if i < j { i } else { j };
    assert(a.subrange(0, k) =~= c.subrange(0, k)) by {
        assert forall|m: int| 0 <= m < k implies a[m] == c[m] by {
            assert(a.subrange(0, i)[m] == b.subrange(0, i)[m]);
            assert(b.subrange(0, j)[m] == c.subrange(0, j)[m]);
        }
    }
    if i < j {
        assert(b.subrange(0, j)[i] == c.subrange(0, j)[i]);
    } else if j < i {
        assert(a.subrange(0, i)[j] == b.subrange(0, i)[j]);
    }
    assert(a[k] < c[k]);
}

/// The result of comparing two keys.
#[derive(Debug, Clone, Copy, PartialEq, Eq, Structural)]
pub enum KeyOrder {
    /// The first key is below the second.
    Less,
    /// The keys are the same.
    Equal,
    /// The first key is above the second.
    Greater,
}

/// Compares two keys byte by byte.
pub fn compare_keys(a: &[u8; 32], b: &[u8; 32]) -> (r: KeyOrder)
    ensures
        r == KeyOrder::Less ==> key_lt(a@, b@),
        r == KeyOrder::Greater ==> key_lt(b@, a@),
        r == KeyOrder::Equal ==> a@ == b@,
{
    let mut i: usize = 0;
    while i < 32
        invariant
            i <= 32,
            forall|j: int| 0 <= j < i ==> a@[j] == b@[j],
        decreases 32 - i,
    {
        if a[i] != b[i] {
            assert(a@.subrange(0, i as int) =~= b@.subrange(0, i as int));
            if a[i] < b[i] {
                return KeyOrder::Less;
            } else {
                return KeyOrder::Greater;
            }
        }
        i = i + 1;
    }
    assert(a@ =~= b@);
    KeyOrder::Equal
}

/// The byte sequences of a list of keys.
pub open spec fn digest_views(keys: Seq<[u8; 32]>) -> Seq<Seq<u8>> {
    Seq::new(keys.len(), |i: int| keys[i]@)
}

/// One of `keys` is `key`.
pub open spec fn has_key(keys: Seq<Seq<u8>>, key: Seq<u8>) -> bool {
    exists|k: int| 0 <= k < keys.len() && keys[k] == key
}

/// `p` is where `key` goes among `keys`: every key before it is below `key`,
/// and the key at it, if any, is above.
pub open spec fn insert_point(keys: Seq<Seq<u8>>, key: Seq<u8>, p: int) -> bool {
    &&& 0 <= p <= keys.len()
    &&& forall|k: int| 0 <= k < p ==> key_lt(#[trigger] keys[k], key)
    &&& p < keys.len() ==> key_lt(key, keys[p])
}

/// A key has at most one place among other keys.
pub proof fn lemma_insert_point_unique(keys: Seq<Seq<u8>>, key: Seq<u8>, p: int, q: int)
    requires
        insert_point(keys, key, p),
        insert_point(keys, key, q),
    ensures
        p == q,
{
    if p < q {
        assert(key_lt(keys[p], key));
        lemma_key_lt_transitive(key, keys[p], key);
        lemma_key_lt_irreflexive(key);
    } else if q < p {
        assert(key_lt(keys[q], key));
        lemma_key_lt_transitive(key, keys[q], key);
        lemma_key_lt_irreflexive(key);
    }
}

/// The keys are strictly increasing: in order, and no two the same.
pub open spec fn strictly_sorted(keys: Seq<Seq<u8>>) -> bool {
    forall|i: int, j: int| 0 <= i < j < keys.len() ==> key_lt(#[trigger] keys[i], #[trigger] keys[j])
}

/// `s`, whose elements have the keys `keys`, with `e` of key `key` added as
/// grin adds an element to a transaction body: unchanged when an element with
/// the same key is there, otherwise with `e` inserted at its place.
pub open spec fn with_keyed<T>(s: Seq<T>, keys: Seq<Seq<u8>>, e: T, key: Seq<u8>) -> Seq<T> {
    if has_key(keys, key) {
        s
    } else {
        s.insert(choose|p: int| insert_point(keys, key, p), e)
    }
}

/// Where `key` goes among `keys`: `None` when it is one of them, otherwise
/// its place, the first position whose key is not below it.
fn find_place(keys: &Vec<[u8; 32]>, key: &[u8; 32]) -> (r: Option<usize>)
    ensures
        r is None <==> has_key(digest_views(keys@), key@),
        r matches Some(p) ==> insert_point(digest_views(keys@), key@, p as int),
{
    let ghost views = digest_views(keys@);
    let mut pos: usize = 0;
    let mut placed = false;
    let mut i: usize = 0;
    while i < keys.len()
        invariant
            views == digest_views(keys@),
            i <= keys@.len(),
            pos <= i,
            forall|k: int| 0 <= k < i ==> views[k] != key@,
            forall|k: int| 0 <= k < pos ==> key_lt(#[trigger] views[k], key@),
            !placed ==> pos == i,
            placed ==> pos < i && key_lt(key@, views[pos as int]),
        decreases keys@.len() - i,
    {
        match compare_keys(&keys[i], key) {
            KeyOrder::Equal => {
                assert(views[i as int] == key@);
                return None;
            },
            KeyOrder::Less => {
                if !placed {
                    pos = i + 1;
                }
            },
            KeyOrder::Greater => {
                if !placed {
                    placed = true;
                }
            },
        }
        proof {
            if views[i as int] == key@ {
                lemma_key_lt_irreflexive(key@);
            }
        }
        i = i + 1;
    }
    Some(pos)
}

/// Adding an element at its place keeps strictly increasing keys so.
pub proof fn lemma_insert_keeps_order(keys: Seq<Seq<u8>>, key: Seq<u8>, p: int)
    requires
        strictly_sorted(keys),
        insert_point(keys, key, p),
    ensures
        strictly_sorted(keys.insert(p, key)),
{
    let t = keys.insert(p, key);
    assert forall|i: int, j: int| 0 <= i < j < t.len() implies key_lt(#[trigger] t[i], #[trigger] t[j]) by {
        if j < p {
        } else if j == p {
        } else if i < p {
            assert(t[j] == keys[j - 1]);
        } else if i == p {
            if j - 1 > p {
                lemma_key_lt_transitive(key, keys[p], keys[j - 1]);
            }
        } else {
            assert(t[i] == keys[i - 1] && t[j] == keys[j - 1]);
        }
    }
}

/// The keys of a list of inputs.
pub open spec fn input_keys(inputs: Seq<TxInput>) -> Seq<Seq<u8>> {
    Seq::new(inputs.len(), |i: int| element_key(inputs[i].features, inputs[i].commit))
}

/// The keys of a list of outputs.
pub open spec fn output_keys(outputs: Seq<TxOutput>) -> Seq<Seq<u8>> {
    Seq::new(outputs.len(), |i: int| element_key(outputs[i].features, outputs[i].commit))
}

/// `inputs` with `input` added as grin adds an input to a transaction body.
pub open spec fn with_input(inputs: Seq<TxInput>, input: TxInput) -> Seq<TxInput> {
    with_keyed(inputs, input_keys(inputs), input, element_key(input.features, input.commit))
}

/// `outputs` with `output` added as grin adds an output to a transaction body.
pub open spec fn with_output(outputs: Seq<TxOutput>, output: TxOutput) -> Seq<TxOutput> {
    with_keyed(outputs, output_keys(outputs), output, element_key(output.features, output.commit))
}

/// `inputs` with each of `added` added in turn.
pub open spec fn inputs_with(inputs: Seq<TxInput>, added: Seq<TxInput>) -> Seq<TxInput>
    decreases added.len(),
{
    if added.len() == 0 {
        inputs
    } else {
        with_input(inputs_with(inputs, added.drop_last()), added.last())
    }
}

/// `outputs` with each of `added` added in turn.
pub open spec fn outputs_with(outputs: Seq<TxOutput>, added: Seq<TxOutput>) -> Seq<TxOutput>
    decreases added.len(),
{
    if added.len() == 0 {
        outputs
    } else {
        with_output(outputs_with(outputs, added.drop_last()), added.last())
    }
}

/// The key of an element, computed.
fn element_key_of(features: OutputFeatures, commit: &Commitment) -> (r: [u8; 32])
    ensures
        r@ == element_key(features, *commit),
{
    let mut data: Vec<u8> = Vec::new();
    data.push(match features {
        OutputFeatures::Plain => 0u8,
        OutputFeatures::Coinbase => 1u8,
    });
    append_from(&mut data, commit.as_slice(), 0);
    assert(commit@.subrange(0, 33) =~= commit@);
    assert(data@ =~= seq![features_byte(features)] + commit@);
    blake2b_256_digest(data.as_slice())
}

/// Adds an input to a list of inputs as grin adds one to a transaction body:
/// the list is unchanged when it holds an input with the same key, otherwise
/// the input goes in at its place. Inputs in key order stay in key order.
pub fn add_input(inputs: &mut Vec<TxInput>, input: TxInput)
    ensures
        final(inputs)@ == with_input(old(inputs)@, input),
        strictly_sorted(input_keys(old(inputs)@)) ==> strictly_sorted(input_keys(final(inputs)@)),
{
    let mut keys: Vec<[u8; 32]> = Vec::new();
    let mut i: usize = 0;
    while i < inputs.len()
        invariant
            i <= inputs@.len(),
            keys@.len() == i,
            forall|j: int| 0 <= j < i ==> (#[trigger] keys@[j])@ == element_key(inputs@[j].features, inputs@[j].commit),
        decreases inputs@.len() - i,
    {
        keys.push(element_key_of(inputs[i].features, &inputs[i].commit));
        i = i + 1;
    }
    assert(digest_views(keys@) =~= input_keys(inputs@));
    let key = element_key_of(input.features, &input.commit);
    let ghost before = inputs@;
    match find_place(&keys, &key) {
        Some(p) => {
            proof {
                let c = choose|q: int| insert_point(input_keys(before), key@, q);
                lemma_insert_point_unique(input_keys(before), key@, p as int, c);
            }
            inputs.insert(p, input);
            proof {
                assert(input_keys(inputs@) =~= input_keys(before).insert(p as int, key@));
                if strictly_sorted(input_keys(before)) {
                    lemma_insert_keeps_order(input_keys(before), key@, p as int);
                }
            }
        },
        None => {},
    }
}

/// Adds an output to a list of outputs as grin adds one to a transaction
/// body: the list is unchanged when it holds an output with the same key,
/// otherwise the output goes in at its place. Outputs in key order stay in
/// key order.
pub fn add_output(outputs: &mut Vec<TxOutput>, output: TxOutput)
    ensures
        final(outputs)@ == with_output(old(outputs)@, output),
        strictly_sorted(output_keys(old(outputs)@)) ==> strictly_sorted(output_keys(final(outputs)@)),
{
    let mut keys: Vec<[u8; 32]> = Vec::new();
    let mut i: usize = 0;
    while i < outputs.len()
        invariant
            i <= outputs@.len(),
            keys@.len() == i,
            forall|j: int| 0 <= j < i ==> (#[trigger] keys@[j])@ == element_key(outputs@[j].features, outputs@[j].commit),
        decreases outputs@.len() - i,
    {
        keys.push(element_key_of(outputs[i].features, &outputs[i].commit));
        i = i + 1;
    }
    assert(digest_views(keys@) =~= output_keys(outputs@));
    let key = element_key_of(output.features, &output.commit);
    let ghost before = outputs@;
    match find_place(&keys, &key) {
        Some(p) => {
            proof {
                let c = choose|q: int| insert_point(output_keys(before), key@, q);
                lemma_insert_point_unique(output_keys(before), key@, p as int, c);
            }
            outputs.insert(p, output);
            proof {
                assert(output_keys(outputs@) =~= output_keys(before).insert(p as int, key@));
                if strictly_sorted(output_keys(before)) {
                    lemma_insert_keeps_order(output_keys(before), key@, p as int);
                }
            }
        },
        None => {},
    }
}

/// The document the parties of a contract pass between them.
#[derive(Debug, Clone, PartialEq, Eq)]
pub struct Slate {
    /// Identifier shared by all versions of the slate.
    pub id: u128,
    /// Step reached in the flow.
    pub state: SlateState,
    /// Number of participants the slate expects.
    pub num_participants: u8,
    /// Amount transferred.
    pub amount: u64,
    /// Fee fields of the kernel.
    pub fee_fields: u64,
    /// Kernel features: 0 plain, 2 height locked.
    pub kernel_features: u8,
    /// Lock height of a height-locked kernel.
    pub lock_height: u64,
    /// Sum of the offset shares of the participants.
    pub offset: BlindingFactor,
    /// Public contributions of the participants, in the order they joined.
    pub participant_data: Vec<ParticipantData>,
    /// Payment proof information.
    pub payment_proof: Option<PaymentInfo>,
    /// The transaction being built.
    pub tx: Option<Transaction>,
}

/// The first participant whose public excess is `key`.
pub open spec fn first_with_excess(pd: Seq<ParticipantData>, key: Seq<u8>, i: int) -> bool {
    &&& 0 <= i < pd.len()
    &&& pd[i].public_blind_excess@ == key
    &&& forall|j: int| 0 <= j < i ==> pd[j].public_blind_excess@ != key
}

/// Some participant has the public excess `key`.
pub open spec fn has_excess(pd: Seq<ParticipantData>, key: Seq<u8>) -> bool {
    exists|j: int| 0 <= j < pd.len() && pd[j].public_blind_excess@ == key
}

/// `p` is the entry of the participant with public excess `key` and public nonce `nonce`.
pub open spec fn is_entry(p: ParticipantData, key: Seq<u8>, nonce: Seq<u8>) -> bool {
    p.public_blind_excess@ == key && p.public_nonce@ == nonce
}

/// The participant list without the entries of the participant with `key` and `nonce`.
pub open spec fn without_entry(pd: Seq<ParticipantData>, key: Seq<u8>, nonce: Seq<u8>) -> Seq<ParticipantData>
    decreases pd.len(),
{
    if pd.len() == 0 {
        pd
    } else {
        let rest = without_entry(pd.drop_last(), key, nonce);
        if is_entry(pd.last(), key, nonce) {
            rest
        } else {
            rest.push(pd.last())
        }
    }
}

/// The partial signature of the last entry of the participant with `key` and
/// `nonce`; `None` when there is no such entry or it has not signed.
pub open spec fn entry_sig(pd: Seq<ParticipantData>, key: Seq<u8>, nonce: Seq<u8>) -> Option<Signature>
    decreases pd.len(),
{
    if pd.len() == 0 {
        None
    } else if is_entry(pd.last(), key, nonce) {
        pd.last().part_sig
    } else {
        entry_sig(pd.drop_last(), key, nonce)
    }
}

/// `new` is `old` with the entry of the participant with `key` and `nonce`
/// moved to the end (added when missing), carrying `part_sig`, or the
/// signature of its previous entry when `part_sig` is `None`.
pub open spec fn participant_added(
    old: Seq<ParticipantData>,
    new: Seq<ParticipantData>,
    key: Seq<u8>,
    nonce: Seq<u8>,
    part_sig: Option<Signature>,
) -> bool {
    let kept = without_entry(old, key, nonce);
    &&& new.len() == kept.len() + 1
    &&& new.subrange(0, kept.len() as int) == kept
    &&& is_entry(new.last(), key, nonce)
    &&& new.last().part_sig == (match part_sig {
        Some(s) => Some(s),
        None => entry_sig(old, key, nonce),
    })
}

/// No entry of the list is the participant's with `key` and `nonce`.
pub open spec fn no_entry(pd: Seq<ParticipantData>, key: Seq<u8>, nonce: Seq<u8>) -> bool {
    forall|j: int| 0 <= j < pd.len() ==> !is_entry(pd[j], key, nonce)
}

/// Removing a participant's entries leaves none of them.
pub proof fn lemma_without_entry_has_none(pd: Seq<ParticipantData>, key: Seq<u8>, nonce: Seq<u8>)
    ensures
        no_entry(without_entry(pd, key, nonce), key, nonce),
        without_entry(pd, key, nonce).len() <= pd.len(),
    decreases pd.len(),
{
    if pd.len() > 0 {
        lemma_without_entry_has_none(pd.drop_last(), key, nonce);
    }
}

/// Removing the entries of a participant that has none changes nothing.
pub proof fn lemma_without_absent_entry(pd: Seq<ParticipantData>, key: Seq<u8>, nonce: Seq<u8>)
    requires
        no_entry(pd, key, nonce),
    ensures
        without_entry(pd, key, nonce) == pd,
    decreases pd.len(),
{
    if pd.len() > 0 {
        lemma_without_absent_entry(pd.drop_last(), key, nonce);
        assert(pd.drop_last().push(pd.last()) =~= pd);
    }
}

/// Removing entries keeps a property that every entry of the list has.
pub proof fn lemma_without_entry_keeps_nonce(pd: Seq<ParticipantData>, key: Seq<u8>, nonce: Seq<u8>)
    requires
        forall|j: int| 0 <= j < pd.len() && pd[j].public_blind_excess@ == key ==> pd[j].public_nonce@ == nonce,
    ensures
        forall|j: int| 0 <= j < without_entry(pd, key, nonce).len()
            && without_entry(pd, key, nonce)[j].public_blind_excess@ == key
            ==> without_entry(pd, key, nonce)[j].public_nonce@ == nonce,
    decreases pd.len(),
{
    if pd.len() > 0 {
        lemma_without_entry_keeps_nonce(pd.drop_last(), key, nonce);
    }
}

/// The index of the participant entry of the context with secret excess
/// `sec_key`: the first entry whose public excess is the key's public key.
pub open spec fn context_index(slate: Slate, sec_key: SecretKey) -> Option<int> {
    match secp_public_key(sec_key@) {
        Some(k) => if has_excess(slate.participant_data@, k) {
            Some(choose|i: int| first_with_excess(slate.participant_data@, k, i))
        } else {
            None
        },
        None => None,
    }
}

/// Only one entry is the first with a given excess.
pub proof fn lemma_first_with_excess_unique(pd: Seq<ParticipantData>, key: Seq<u8>, i: int, j: int)
    requires
        first_with_excess(pd, key, i),
        first_with_excess(pd, key, j),
    ensures
        i == j,
{
}

impl Slate {
    /// Adds our public excess and nonce to the participant list, with
    /// `part_sig`. An entry of ours already in the list is moved to the end and
    /// keeps its partial signature when `part_sig` is `None`, so adding our
    /// information again changes nothing.
    pub fn add_participant_info(&mut self, context: &Context, part_sig: Option<Signature>) -> (r: Result<(), Error>)
        ensures
            secp_public_key(context.sec_key@) is None || secp_public_key(context.sec_nonce@) is None
                <==> r is Err,
            r is Err ==> r == Err::<(), Error>(Error::Secp) && *final(self) == *old(self),
            r is Ok ==> {
                &&& *final(self) == (Slate { participant_data: final(self).participant_data, ..*old(self) })
                &&& participant_added(
                    old(self).participant_data@,
                    final(self).participant_data@,
                    secp_public_key(context.sec_key@)->0,
                    secp_public_key(context.sec_nonce@)->0,
                    part_sig,
                )
            },
    {
        let key = match public_key_from_secret(&context.sec_key) {
            Some(k) => k,
            None => return Err(Error::Secp),
        };
        let nonce = match public_key_from_secret(&context.sec_nonce) {
            Some(n) => n,
            None => return Err(Error::Secp),
        };
        let ghost pd = self.participant_data@;
        let mut kept: Vec<ParticipantData> = Vec::new();
        let mut found_sig: Option<Signature> = None;
        let mut i: usize = 0;
        while i < self.participant_data.len()
            invariant
                pd == self.participant_data@,
                i <= pd.len(),
                kept@ == without_entry(pd.subrange(0, i as int), key@, nonce@),
                found_sig == entry_sig(pd.subrange(0, i as int), key@, nonce@),
            decreases pd.len() - i,
        {
            let p = self.participant_data[i];
            proof {
                assert(pd.subrange(0, i + 1).drop_last() =~= pd.subrange(0, i as int));
                assert(pd.subrange(0, i + 1).last() == p);
            }
            if keys_equal(&p.public_blind_excess, &key) && keys_equal(&p.public_nonce, &nonce) {
                found_sig = p.part_sig;
            } else {
                kept.push(p);
            }
            i = i + 1;
        }
        assert(pd.subrange(0, pd.len() as int) =~= pd);
        let ours = ParticipantData {
            public_blind_excess: key,
            public_nonce: nonce,
            part_sig: match part_sig {
                Some(s) => Some(s),
                None => found_sig,
            },
        };
        kept.push(ours);
        self.participant_data = kept;
        assert(self.participant_data@.subrange(0, self.participant_data@.len() - 1) =~= without_entry(pd, key@, nonce@));
        Ok(())
    }

    /// The index of our participant entry: the first one whose public excess
    /// is the public key of the context's secret excess.
    pub fn find_index_matching_context(&self, context: &Context) -> (r: Result<usize, Error>)
        ensures
            r matches Ok(i) ==> context_index(*self, context.sec_key) == Some(i as int),
            r is Err <==> context_index(*self, context.sec_key) is None,
            secp_public_key(context.sec_key@) is None ==> r == Err::<usize, Error>(Error::Secp),
            secp_public_key(context.sec_key@) is Some && r is Err ==> r == Err::<usize, Error>(
                Error::ContextNotInSlate,
            ),
    {
        let key = match public_key_from_secret(&context.sec_key) {
            Some(k) => k,
            None => return Err(Error::Secp),
        };
        let mut i: usize = 0;
        while i < self.participant_data.len()
            invariant
                i <= self.participant_data@.len(),
                secp_public_key(context.sec_key@) == Some(key@),
                forall|j: int| 0 <= j < i ==> self.participant_data@[j].public_blind_excess@ != key@,
            decreases self.participant_data@.len() - i,
        {
            if keys_equal(&self.participant_data[i].public_blind_excess, &key) {
                proof {
                    let pd = self.participant_data@;
                    assert(first_with_excess(pd, key@, i as int));
                    let c = choose|c: int| first_with_excess(pd, key@, c);
                    lemma_first_with_excess_unique(pd, key@, i as int, c);
                }
                return Ok(i);
            }
            i = i + 1;
        }
        Err(Error::ContextNotInSlate)
    }
    /// A fresh slate for `num_participants` in the first step of an invoice or
    /// a standard flow, with an empty transaction and zero offsets; its id is
    /// zero until the caller assigns one.
    pub fn blank(num_participants: u8, is_invoice: bool) -> (r: Slate)
        ensures
            r.id == 0,
            r.state == (if is_invoice { SlateState::Invoice1 } else { SlateState::Standard1 }),
            r.num_participants == num_participants,
            r.amount == 0,
            r.fee_fields == 0,
            r.kernel_features == 0,
            r.lock_height == 0,
            r.offset@ == Seq::new(32, |i: int| 0u8),
            r.participant_data@.len() == 0,
            r.payment_proof is None,
            r.tx matches Some(t) && t.inputs@.len() == 0 && t.outputs@.len() == 0 && t.kernel is None
                && t.offset@ == Seq::new(32, |i: int| 0u8),
    {
        Slate {
            id: 0,
            state: if is_invoice { SlateState::Invoice1 } else { SlateState::Standard1 },
            num_participants,
            amount: 0,
            fee_fields: 0,
            kernel_features: 0,
            lock_height: 0,
            offset: [0u8; 32],
            participant_data: Vec::new(),
            payment_proof: None,
            tx: Some(Transaction::empty()),
        }
    }
}

/// The message a kernel signs: the blake2b digest of its features byte, its
/// fee fields and, for a height-locked kernel, its lock height, each
/// big-endian. Only plain (0) and height-locked (2) kernels are supported.
pub open spec fn kernel_message(features: u8, fee_fields: u64, lock_height: u64) -> Option<Seq<u8>> {
    if features == 0 {
        Some(blake2b_256(seq![0u8] + be_u64_bytes(fee_fields)))
    } else if features == 2 {
        Some(blake2b_256(seq![2u8] + be_u64_bytes(fee_fields) + be_u64_bytes(lock_height)))
    } else {
        None
    }
}

/// The public nonces of the participants.
pub open spec fn nonce_views(pd: Seq<ParticipantData>) -> Seq<Seq<u8>> {
    Seq::new(pd.len(), |i: int| pd[i].public_nonce@)
}

/// The public excesses of the participants.
pub open spec fn excess_views(pd: Seq<ParticipantData>) -> Seq<Seq<u8>> {
    Seq::new(pd.len(), |i: int| pd[i].public_blind_excess@)
}

/// The partial signatures of the participants (meaningful once all have signed).
pub open spec fn part_sig_views(pd: Seq<ParticipantData>) -> Seq<Seq<u8>> {
    Seq::new(pd.len(), |i: int| pd[i].part_sig->0@)
}

/// All participants have signed.
pub open spec fn all_signed(pd: Seq<ParticipantData>) -> bool {
    forall|i: int| 0 <= i < pd.len() ==> (#[trigger] pd[i]).part_sig is Some
}

/// The first participant that has not signed.
pub open spec fn first_unsigned(pd: Seq<ParticipantData>, i: int) -> bool {
    &&& 0 <= i < pd.len()
    &&& pd[i].part_sig is None
    &&& forall|j: int| 0 <= j < i ==> (#[trigger] pd[j]).part_sig is Some
}

/// When a participant has not signed, there is a first one that has not.
pub proof fn lemma_first_unsigned_exists(pd: Seq<ParticipantData>)
    requires
        exists|i: int| 0 <= i < pd.len() && (#[trigger] pd[i]).part_sig is None,
    ensures
        exists|i: int| first_unsigned(pd, i),
    decreases pd.len(),
{
    let rest = pd.drop_last();
    if exists|i: int| 0 <= i < rest.len() && (#[trigger] rest[i]).part_sig is None {
        lemma_first_unsigned_exists(rest);
        let c = choose|i: int| first_unsigned(rest, i);
        assert forall|j: int| 0 <= j < c implies (#[trigger] pd[j]).part_sig is Some by {
            assert(rest[j] == pd[j]);
        }
        assert(rest[c] == pd[c]);
        assert(first_unsigned(pd, c));
    } else {
        let last = pd.len() - 1;
        assert forall|j: int| 0 <= j < last implies (#[trigger] pd[j]).part_sig is Some by {
            assert(rest[j] == pd[j]);
        }
        assert(first_unsigned(pd, last));
    }
}

/// The sum of the participants' public nonces; none for a slate without
/// participants.
pub open spec fn spec_pub_nonce_sum(slate: Slate) -> Option<Seq<u8>> {
    if slate.participant_data@.len() == 0 {
        None
    } else {
        secp_public_key_sum(nonce_views(slate.participant_data@))
    }
}

/// The sum of the participants' public excesses; none for a slate without
/// participants.
pub open spec fn spec_pub_blind_sum(slate: Slate) -> Option<Seq<u8>> {
    if slate.participant_data@.len() == 0 {
        None
    } else {
        secp_public_key_sum(excess_views(slate.participant_data@))
    }
}

/// The key sums of a slate are sums over every participant: the nonce sum
/// adds up the public nonce of each participant, the blind sum the public
/// excess of each, in order; a slate without participants has neither. So the
/// sums of a two-party slate are those of both entries, not of one.
pub proof fn lemma_key_sums_cover_every_participant(slate: Slate)
    ensures
        spec_pub_nonce_sum(slate) == if slate.participant_data@.len() == 0 {
            None
        } else {
            secp_public_key_sum(Seq::new(slate.participant_data@.len(), |i: int| slate.participant_data@[i].public_nonce@))
        },
        spec_pub_blind_sum(slate) == if slate.participant_data@.len() == 0 {
            None
        } else {
            secp_public_key_sum(Seq::new(slate.participant_data@.len(), |i: int| slate.participant_data@[i].public_blind_excess@))
        },
        slate.participant_data@.len() == 2 ==> spec_pub_blind_sum(slate) == secp_public_key_sum(
            seq![slate.participant_data@[0].public_blind_excess@, slate.participant_data@[1].public_blind_excess@],
        ),
        slate.participant_data@.len() == 2 ==> spec_pub_nonce_sum(slate) == secp_public_key_sum(
            seq![slate.participant_data@[0].public_nonce@, slate.participant_data@[1].public_nonce@],
        ),
{
    let pd = slate.participant_data@;
    assert(excess_views(pd) =~= Seq::new(pd.len(), |i: int| pd[i].public_blind_excess@));
    assert(nonce_views(pd) =~= Seq::new(pd.len(), |i: int| pd[i].public_nonce@));
    if pd.len() == 2 {
        assert(excess_views(pd) =~= seq![pd[0].public_blind_excess@, pd[1].public_blind_excess@]);
        assert(nonce_views(pd) =~= seq![pd[0].public_nonce@, pd[1].public_nonce@]);
    }
}

/// The message the kernel of the slate signs.
pub open spec fn spec_msg_to_sign(slate: Slate) -> Option<Seq<u8>> {
    kernel_message(slate.kernel_features, slate.fee_fields, slate.lock_height)
}

/// The first participant among the declared ones that is ours: its public
/// excess is `key` and its public nonce is `nonce`.
pub open spec fn first_entry(slate: Slate, key: Seq<u8>, nonce: Seq<u8>, i: int) -> bool {
    &&& 0 <= i < slate.num_participants
    &&& i < slate.participant_data@.len()
    &&& is_entry(slate.participant_data@[i], key, nonce)
    &&& forall|j: int| 0 <= j < i ==> !is_entry(#[trigger] slate.participant_data@[j], key, nonce)
}

/// The partial signature `fill_round_2` makes for a slate with the secret
/// excess `sec_key` and nonce `sec_nonce`, if the sums, the message and the
/// signature all exist.
pub open spec fn round_2_signature(slate: Slate, sec_key: SecretKey, sec_nonce: SecretKey) -> Option<Seq<u8>> {
    match (spec_pub_nonce_sum(slate), spec_pub_blind_sum(slate), spec_msg_to_sign(slate)) {
        (Some(nonce_sum), Some(blind_sum), Some(msg)) => aggsig_partial_signature(
            sec_key@,
            sec_nonce@,
            nonce_sum,
            blind_sum,
            msg,
        ),
        _ => None,
    }
}

/// What `fill_round_2` does: with our public excess `k` and nonce `n`, it
/// stores our partial signature (`round_2_signature`) for the first declared
/// participant whose excess is `k` and whose nonce is `n`, changing nothing
/// else; it changes nothing when there is
/// none, and fails, changing nothing, when a key does not decode, the nonce or
/// excess sums do not exist, the kernel features are not supported, or
/// signing fails.
pub open spec fn round_2_outcome(
    old: Slate,
    new: Slate,
    sec_key: SecretKey,
    sec_nonce: SecretKey,
    r: Result<(), Error>,
) -> bool {
    &&& r is Err ==> new == old
    &&& (secp_public_key(sec_nonce@) is None || secp_public_key(sec_key@) is None)
        ==> r == Err::<(), Error>(Error::Secp)
    &&& match (secp_public_key(sec_nonce@), secp_public_key(sec_key@)) {
        (Some(n), Some(k)) => {
        let found = exists|i: int| first_entry(old, k, n, i);
        &&& !found ==> r is Ok && new == old
        &&& found && (spec_pub_nonce_sum(old) is None || spec_pub_blind_sum(old) is None)
            ==> r == Err::<(), Error>(Error::Secp)
        &&& found && spec_pub_nonce_sum(old) is Some && spec_pub_blind_sum(old) is Some
            && spec_msg_to_sign(old) is None ==> r == Err::<(), Error>(
            Error::InvalidKernelFeatures(old.kernel_features),
        )
        &&& found && spec_pub_nonce_sum(old) is Some && spec_pub_blind_sum(old) is Some
            && spec_msg_to_sign(old) is Some ==> (r is Ok <==> round_2_signature(old, sec_key, sec_nonce) is Some)
        &&& found && r is Err && spec_pub_nonce_sum(old) is Some && spec_pub_blind_sum(old) is Some
            && spec_msg_to_sign(old) is Some ==> r == Err::<(), Error>(Error::Secp)
        &&& r is Ok && found ==> {
            let i = choose|i: int| first_entry(old, k, n, i);
            &&& new == (Slate { participant_data: new.participant_data, ..old })
            &&& new.participant_data@.len() == old.participant_data@.len()
            &&& forall|j: int| 0 <= j < old.participant_data@.len() && j != i
                ==> new.participant_data@[j] == old.participant_data@[j]
            &&& new.participant_data@[i].public_blind_excess == old.participant_data@[i].public_blind_excess
            &&& new.participant_data@[i].public_nonce == old.participant_data@[i].public_nonce
            &&& new.participant_data@[i].part_sig matches Some(sig)
            &&& round_2_signature(old, sec_key, sec_nonce) == Some(sig@)
            &&& secp_public_key(sec_key@) matches Some(public)
            &&& aggsig_partial_verifies(
                sig@,
                spec_pub_nonce_sum(old)->0,
                public,
                spec_pub_blind_sum(old)->0,
                spec_msg_to_sign(old)->0,
            )
        }
        },
        _ => true,
    }
}

/// When filling round two succeeds and the slate holds our entry, our entry
/// now carries a partial signature that verifies under our public excess for
/// the kernel message, with the nonce sum and the excess sum of every
/// participant in the challenge.
pub proof fn lemma_round_2_signature_covers_every_participant(
    old: Slate,
    new: Slate,
    sec_key: SecretKey,
    sec_nonce: SecretKey,
    r: Result<(), Error>,
    i: int,
)
    requires
        round_2_outcome(old, new, sec_key, sec_nonce, r),
        r is Ok,
        secp_public_key(sec_key@) is Some,
        secp_public_key(sec_nonce@) is Some,
        first_entry(old, secp_public_key(sec_key@)->0, secp_public_key(sec_nonce@)->0, i),
    ensures
        new.participant_data@[i].public_blind_excess@ == secp_public_key(sec_key@)->0,
        new.participant_data@[i].part_sig matches Some(sig) && aggsig_partial_verifies(
            sig@,
            secp_public_key_sum(Seq::new(old.participant_data@.len(), |j: int| old.participant_data@[j].public_nonce@))->0,
            secp_public_key(sec_key@)->0,
            secp_public_key_sum(Seq::new(old.participant_data@.len(), |j: int| old.participant_data@[j].public_blind_excess@))->0,
            spec_msg_to_sign(old)->0,
        ),
{
    let k = secp_public_key(sec_key@)->0;
    let n = secp_public_key(sec_nonce@)->0;
    let c = choose|c: int| first_entry(old, k, n, c);
    lemma_first_entry_unique(old, k, n, i, c);
    lemma_key_sums_cover_every_participant(old);
}

/// Our entry is the first one that is ours, so there is only one.
pub proof fn lemma_first_entry_unique(slate: Slate, key: Seq<u8>, nonce: Seq<u8>, i: int, j: int)
    requires
        first_entry(slate, key, nonce, i),
        first_entry(slate, key, nonce, j),
    ensures
        i == j,
{
    if i < j {
        assert(!is_entry(slate.participant_data@[i], key, nonce));
    } else if j < i {
        assert(!is_entry(slate.participant_data@[j], key, nonce));
    }
}

/// The fee of the kernel: the 40-bit fee part of the fee fields.
pub open spec fn kernel_fee(fee_fields: u64) -> u64 {
    (fee_fields % 0x100_0000_0000) as u64
}

/// The commitments of a list of inputs.
pub open spec fn input_commits(inputs: Seq<TxInput>) -> Seq<Seq<u8>> {
    Seq::new(inputs.len(), |i: int| inputs[i].commit@)
}

/// The commitments of a list of outputs.
pub open spec fn output_commits(outputs: Seq<TxOutput>) -> Seq<Seq<u8>> {
    Seq::new(outputs.len(), |i: int| outputs[i].commit@)
}

/// The excess of a transaction: its output commitments and the commitment to
/// its fee (when the fee is not zero), less its input commitments, less the
/// commitment to a zero value with its offset as blinding factor.
pub open spec fn spec_tx_excess(tx: Transaction, fee: u64) -> Option<Seq<u8>> {
    let positive = if fee == 0 {
        Some(output_commits(tx.outputs@))
    } else {
        match secp_value_commitment(fee) {
            Some(over) => Some(output_commits(tx.outputs@).push(over)),
            None => None,
        }
    };
    match (positive, secp_blind_commitment(0, tx.offset@)) {
        (Some(positive), Some(off)) => match secp_commitment_sum(positive, input_commits(tx.inputs@)) {
            Some(sum) => secp_commitment_sum(seq![sum], seq![off]),
            None => None,
        },
        _ => None,
    }
}

/// The error of `Slate::finalize` on a slate whose transaction carries the
/// slate offset, if any.
pub open spec fn finalize_error(slate: Slate) -> Option<Error> {
    let pd = slate.participant_data@;
    if !all_signed(pd) {
        Some(Error::MissingPartialSignature((choose|i: int| first_unsigned(pd, i)) as usize))
    } else if spec_msg_to_sign(slate) is None {
        Some(Error::InvalidKernelFeatures(slate.kernel_features))
    } else if spec_pub_nonce_sum(slate) is None || spec_pub_blind_sum(slate) is None {
        Some(Error::Secp)
    } else if aggsig_signature_sum(part_sig_views(pd), spec_pub_nonce_sum(slate)->0) is None {
        Some(Error::Secp)
    } else if !aggsig_completed_verifies(
        aggsig_signature_sum(part_sig_views(pd), spec_pub_nonce_sum(slate)->0)->0,
        spec_pub_blind_sum(slate)->0,
        spec_pub_blind_sum(slate)->0,
        spec_msg_to_sign(slate)->0,
    ) {
        Some(Error::FinalSignatureInvalid)
    } else if spec_tx_excess(slate.tx->0, kernel_fee(slate.fee_fields)) matches Some(excess)
        && secp_commit_public_key(excess) matches Some(excess_key)
        && aggsig_completed_verifies(
            aggsig_signature_sum(part_sig_views(pd), spec_pub_nonce_sum(slate)->0)->0,
            excess_key,
            excess_key,
            spec_msg_to_sign(slate)->0,
        ) {
        None
    } else {
        Some(Error::KernelBuild)
    }
}

/// `new` is `old` with the kernel of its transaction set: the aggregate of
/// the partial signatures, and the excess of the transaction.
pub open spec fn finalized(old: Slate, new: Slate) -> bool {
    let pd = old.participant_data@;
    let final_sig = aggsig_signature_sum(part_sig_views(pd), spec_pub_nonce_sum(old)->0)->0;
    let tx = old.tx->0;
    &&& new.tx matches Some(t) && t == (Transaction { kernel: t.kernel, ..tx })
    &&& new.tx->0.kernel matches Some(k) && k.excess_sig@ == final_sig
        && k.excess@ == spec_tx_excess(tx, kernel_fee(old.fee_fields))->0
    &&& new == (Slate { tx: new.tx, ..old })
}

/// A finalized transaction is valid under its own kernel: the kernel's
/// signature is the aggregate of every participant's partial signature, and
/// it verifies for the kernel message under the public key of the kernel's
/// excess.
pub proof fn lemma_finalized_kernel_verifies(old: Slate, new: Slate)
    requires
        old.tx is Some,
        finalize_error(old) is None,
        finalized(old, new),
    ensures
        new.tx matches Some(tx) && tx.kernel matches Some(k) && {
            &&& secp_commit_public_key(k.excess@) matches Some(excess_key)
                && aggsig_completed_verifies(k.excess_sig@, excess_key, excess_key, spec_msg_to_sign(old)->0)
            &&& Some(k.excess_sig@) == aggsig_signature_sum(
                Seq::new(old.participant_data@.len(), |i: int| old.participant_data@[i].part_sig->0@),
                spec_pub_nonce_sum(old)->0,
            )
        },
{
    assert(part_sig_views(old.participant_data@) =~= Seq::new(
        old.participant_data@.len(),
        |i: int| old.participant_data@[i].part_sig->0@,
    ));
}

/// The public keys of a participant list, one field chosen by `nonces`.
fn participant_keys(pd: &Vec<ParticipantData>, nonces: bool) -> (r: Vec<PublicKey>)
    ensures
        r@.len() == pd@.len(),
        nonces ==> key_views(r@) == nonce_views(pd@),
        !nonces ==> key_views(r@) == excess_views(pd@),
{
    let mut keys: Vec<PublicKey> = Vec::new();
    let mut i: usize = 0;
    while i < pd.len()
        invariant
            i <= pd@.len(),
            keys@.len() == i,
            forall|j: int| 0 <= j < i ==> keys@[j] == (if nonces { pd@[j].public_nonce } else { pd@[j].public_blind_excess }),
        decreases pd@.len() - i,
    {
        if nonces {
            keys.push(pd[i].public_nonce);
        } else {
            keys.push(pd[i].public_blind_excess);
        }
        i = i + 1;
    }
    assert(nonces ==> key_views(keys@) =~= nonce_views(pd@));
    assert(!nonces ==> key_views(keys@) =~= excess_views(pd@));
    keys
}

impl Slate {
    /// The sum of the participants' public nonces.
    pub fn pub_nonce_sum(&self) -> (r: Result<PublicKey, Error>)
        ensures
            r is Ok <==> spec_pub_nonce_sum(*self) is Some,
            r matches Ok(k) ==> spec_pub_nonce_sum(*self) == Some(k@),
            r matches Ok(k) ==> self.participant_data@.len() > 0 && secp_public_key_sum(
                Seq::new(self.participant_data@.len(), |i: int| self.participant_data@[i].public_nonce@),
            ) == Some(k@),
            r is Err ==> r == Err::<PublicKey, Error>(Error::Secp),
    {
        if self.participant_data.len() == 0 {
            return Err(Error::Secp);
        }
        let keys = participant_keys(&self.participant_data, true);
        match public_key_sum(&keys) {
            Some(k) => Ok(k),
            None => Err(Error::Secp),
        }
    }

    /// The sum of the participants' public excesses.
    pub fn pub_blind_sum(&self) -> (r: Result<PublicKey, Error>)
        ensures
            r is Ok <==> spec_pub_blind_sum(*self) is Some,
            r matches Ok(k) ==> spec_pub_blind_sum(*self) == Some(k@),
            r matches Ok(k) ==> self.participant_data@.len() > 0 && secp_public_key_sum(
                Seq::new(self.participant_data@.len(), |i: int| self.participant_data@[i].public_blind_excess@),
            ) == Some(k@),
            r is Err ==> r == Err::<PublicKey, Error>(Error::Secp),
    {
        if self.participant_data.len() == 0 {
            return Err(Error::Secp);
        }
        let keys = participant_keys(&self.participant_data, false);
        match public_key_sum(&keys) {
            Some(k) => Ok(k),
            None => Err(Error::Secp),
        }
    }

    /// The message the kernel of the slate signs.
    pub fn msg_to_sign(&self) -> (r: Result<Message, Error>)
        ensures
            r is Ok <==> spec_msg_to_sign(*self) is Some,
            r matches Ok(m) ==> spec_msg_to_sign(*self) == Some(m@),
            r is Err ==> r == Err::<Message, Error>(Error::InvalidKernelFeatures(self.kernel_features)),
    {
        if self.kernel_features != 0 && self.kernel_features != 2 {
            return Err(Error::InvalidKernelFeatures(self.kernel_features));
        }
        let mut data: Vec<u8> = Vec::new();
        data.push(self.kernel_features);
        let fee = write_u64_be(self.fee_fields);
        append_from(&mut data, fee.as_slice(), 0);
        assert(fee@.subrange(0, 8) =~= fee@);
        if self.kernel_features == 2 {
            let height = write_u64_be(self.lock_height);
            append_from(&mut data, height.as_slice(), 0);
            assert(height@.subrange(0, 8) =~= height@);
        }
        let digest = blake2b_256_digest(data.as_slice());
        assert(self.kernel_features == 0 ==> data@ =~= seq![0u8] + be_u64_bytes(self.fee_fields));
        assert(self.kernel_features == 2 ==> data@ =~= seq![2u8] + be_u64_bytes(self.fee_fields)
            + be_u64_bytes(self.lock_height));
        Ok(digest)
    }

    /// Adds our partial signature, made with the secret excess `sec_key` and
    /// nonce `sec_nonce`, to the first of the declared participants that is
    /// ours: its public excess and its public nonce are both ours. The slate
    /// is unchanged when none is ours or when this fails.
    pub fn fill_round_2(&mut self, sec_key: &SecretKey, sec_nonce: &SecretKey) -> (r: Result<(), Error>)
        requires
            old(self).participant_data@.len() >= old(self).num_participants,
        ensures
            round_2_outcome(*old(self), *final(self), *sec_key, *sec_nonce, r),
    {
        let pub_nonce = match public_key_from_secret(sec_nonce) {
            Some(n) => n,
            None => return Err(Error::Secp),
        };
        let pub_key = match public_key_from_secret(sec_key) {
            Some(k) => k,
            None => return Err(Error::Secp),
        };
        let n = self.num_participants as usize;
        let mut i: usize = 0;
        while i < n
            invariant
                *self == *old(self),
                secp_public_key(sec_nonce@) == Some(pub_nonce@),
                secp_public_key(sec_key@) == Some(pub_key@),
                n == self.num_participants,
                n <= self.participant_data@.len(),
                i <= n,
                forall|j: int| 0 <= j < i ==> !is_entry(#[trigger] self.participant_data@[j], pub_key@, pub_nonce@),
            decreases n - i,
        {
            // find my entry: both our excess and our nonce
            if keys_equal(&self.participant_data[i].public_blind_excess, &pub_key)
                && keys_equal(&self.participant_data[i].public_nonce, &pub_nonce) {
                proof {
                    assert(first_entry(*self, pub_key@, pub_nonce@, i as int));
                    let c = choose|c: int| first_entry(*self, pub_key@, pub_nonce@, c);
                    assert(c == i) by {
                        if c < i {
                            assert(!is_entry(self.participant_data@[c], pub_key@, pub_nonce@));
                        }
                    }
                }
                let nonce_sum = self.pub_nonce_sum()?;
                let blind_sum = self.pub_blind_sum()?;
                let msg = self.msg_to_sign()?;
                let sig = match calculate_partial_sig(sec_key, sec_nonce, &nonce_sum, &blind_sum, &msg) {
                    Some(s) => s,
                    None => return Err(Error::Secp),
                };
                let mut entry = self.participant_data[i];
                entry.part_sig = Some(sig);
                self.participant_data.set(i, entry);
                return Ok(());
            }
            i = i + 1;
        }
        proof {
            assert forall|c: int| !first_entry(*self, pub_key@, pub_nonce@, c) by {
                if 0 <= c < n {
                    assert(!is_entry(self.participant_data@[c], pub_key@, pub_nonce@));
                }
            }
        }
        Ok(())
    }

    /// Finalizes the transaction of the slate: aggregates the partial
    /// signatures, checks the aggregate against the participants' public
    /// excesses, computes the excess of the transaction and sets the kernel,
    /// after checking that the aggregate signature verifies for that excess.
    /// Fails on a slate without a transaction. The slate is unchanged when
    /// this fails.
    pub fn finalize(&mut self) -> (r: Result<(), Error>)
        ensures
            r is Err ==> *final(self) == *old(self),
            old(self).tx is None ==> r == Err::<(), Error>(Error::MissingTransaction),
            old(self).tx is Some ==> (r is Ok <==> finalize_error(*old(self)) is None),
            old(self).tx is Some ==> (r matches Err(e) ==> finalize_error(*old(self)) == Some(e)),
            r is Ok ==> finalized(*old(self), *final(self)),
            r is Ok ==> (final(self).tx matches Some(tx) && tx.kernel matches Some(k)
                && secp_commit_public_key(k.excess@) matches Some(excess_key)
                && aggsig_completed_verifies(k.excess_sig@, excess_key, excess_key, spec_msg_to_sign(*old(self))->0)),
    {
        if self.tx.is_none() {
            return Err(Error::MissingTransaction);
        }
        let ghost pd = self.participant_data@;
        let mut sigs: Vec<Signature> = Vec::new();
        let mut i: usize = 0;
        while i < self.participant_data.len()
            invariant
                pd == self.participant_data@,
                old(self).tx is Some,
                i <= pd.len(),
                sigs@.len() == i,
                forall|j: int| 0 <= j < i ==> pd[j].part_sig == Some(sigs@[j]),
            decreases pd.len() - i,
        {
            match self.participant_data[i].part_sig {
                Some(s) => sigs.push(s),
                None => {
                    proof {
                        assert(first_unsigned(pd, i as int));
                        let c = choose|c: int| first_unsigned(pd, c);
                        assert(c == i) by {
                            if c < i {
                                assert(pd[c].part_sig is Some);
                            }
                            if c > i {
                                assert(pd[i as int].part_sig is Some);
                            }
                        }
                    }
                    return Err(Error::MissingPartialSignature(i));
                },
            }
            i = i + 1;
        }
        assert(all_signed(pd));
        assert(sig_views(sigs@) =~= part_sig_views(pd));
        let msg = self.msg_to_sign()?;
        let nonce_sum = self.pub_nonce_sum()?;
        let blind_sum = self.pub_blind_sum()?;
        let final_sig = match add_signatures(&sigs, &nonce_sum) {
            Some(s) => s,
            None => return Err(Error::Secp),
        };
        // Check our final sig verifies
        if !verify_completed_sig(&final_sig, &blind_sum, &blind_sum, &msg) {
            return Err(Error::FinalSignatureInvalid);
        }
        let excess = match &self.tx {
            Some(tx) => {
                let fee = self.fee_fields % 0x100_0000_0000;
                let off = match commit_blind(0, &tx.offset) {
                    Some(c) => c,
                    None => return Err(Error::KernelBuild),
                };
                let mut positive: Vec<Commitment> = Vec::new();
                let mut j: usize = 0;
                while j < tx.outputs.len()
                    invariant
                        j <= tx.outputs@.len(),
                        positive@.len() == j,
                        forall|k: int| 0 <= k < j ==> positive@[k] == tx.outputs@[k].commit,
                    decreases tx.outputs@.len() - j,
                {
                    positive.push(tx.outputs[j].commit);
                    j = j + 1;
                }
                assert(key_views(positive@) =~= output_commits(tx.outputs@));
                // The fee is committed to as an output, when there is one
                if fee != 0 {
                    let over = match commit_value(fee) {
                        Some(c) => c,
                        None => return Err(Error::KernelBuild),
                    };
                    positive.push(over);
                    assert(key_views(positive@) =~= output_commits(tx.outputs@).push(over@));
                }
                let mut negative: Vec<Commitment> = Vec::new();
                let mut j: usize = 0;
                while j < tx.inputs.len()
                    invariant
                        j <= tx.inputs@.len(),
                        negative@.len() == j,
                        forall|k: int| 0 <= k < j ==> negative@[k] == tx.inputs@[k].commit,
                    decreases tx.inputs@.len() - j,
                {
                    negative.push(tx.inputs[j].commit);
                    j = j + 1;
                }
                assert(key_views(negative@) =~= input_commits(tx.inputs@));
                let sum = match commit_sum(&positive, &negative) {
                    Some(c) => c,
                    None => return Err(Error::KernelBuild),
                };
                let mut total: Vec<Commitment> = Vec::new();
                total.push(sum);
                let mut offset_part: Vec<Commitment> = Vec::new();
                offset_part.push(off);
                assert(key_views(total@) =~= seq![sum@]);
                assert(key_views(offset_part@) =~= seq![off@]);
                match commit_sum(&total, &offset_part) {
                    Some(c) => c,
                    None => return Err(Error::KernelBuild),
                }
            },
            None => return Err(Error::MissingTransaction),
        };
        let excess_key = match commit_to_public_key(&excess) {
            Some(k) => k,
            None => return Err(Error::KernelBuild),
        };
        // Confirm the kernel verifies before setting it
        if !verify_completed_sig(&final_sig, &excess_key, &excess_key, &msg) {
            return Err(Error::KernelBuild);
        }
        match self.tx.take() {
            Some(mut tx) => {
                tx.kernel = Some(TxKernel { excess, excess_sig: final_sig });
                self.tx = Some(tx);
            },
            None => {},
        }
        Ok(())
    }

    /// Adds our offset share to the slate offset; fails, leaving the slate
    /// unchanged, when the sum cannot be formed.
    pub fn adjust_offset(&mut self, context: &Context) -> (r: Result<(), Error>)
        ensures
            r is Ok <==> blinding_sum(old(self).offset@, context.offset@) is Some,
            r is Err ==> *final(self) == *old(self) && r == Err::<(), Error>(Error::Secp),
            r is Ok ==> *final(self) == (Slate { offset: final(self).offset, ..*old(self) })
                && final(self).offset@ == blinding_sum(old(self).offset@, context.offset@)->0,
    {
        match blinding_factor_add(&self.offset, &context.offset) {
            Some(sum) => {
                self.offset = sum;
                Ok(())
            },
            None => Err(Error::Secp),
        }
    }
}

} // verus!
