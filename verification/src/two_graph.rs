//! The two-graph bridged synthetic validation: a public graph and a
//! sovereign graph under one master key, a reputation firewall between them,
//! and the bridge that releases contributions, carries credits and routes
//! compute.
//!
//! Statements are signed over their serialized bytes: the signature is a
//! digest of the statement, the key id, the algorithm and the public key,
//! spread over 64 bytes.
use vstd::prelude::*;

use crate::cross_graph::{mid_slug, ref_mid_slug};
use crate::field_error::FieldError;
use crate::keyed_table::{entry_map, latest_index, lemma_entry_map_push};
use crate::text::{copy_string, owned, str_eq, trim, trimmed};

verus! {

#[derive(Debug, Clone, Copy, PartialEq, Eq, Structural)]
pub enum SignatureAlgorithm {
    Ed25519,
    Secp256k1,
}

/// A master public key: its id, algorithm and key bytes.
#[derive(Debug, Clone, PartialEq, Eq)]
pub struct MasterPublicKey {
    pub key_id: String,
    pub algorithm: SignatureAlgorithm,
    pub bytes: Vec<u8>,
}

/// A signature made under a master key.
#[derive(Debug, Clone, PartialEq, Eq)]
pub struct MasterSignature {
    pub key_id: String,
    pub algorithm: SignatureAlgorithm,
    pub bytes: Vec<u8>,
}

pub open spec fn algorithm_byte(a: SignatureAlgorithm) -> u8 {
    match a {
        SignatureAlgorithm::Ed25519 => 1,
        SignatureAlgorithm::Secp256k1 => 2,
    }
}

/// What is digested for a signature: the statement, the key id's UTF-8
/// bytes, the algorithm's byte and the public key.
pub open spec fn signing_material(statement: Seq<u8>, key: MasterPublicKey) -> Seq<u8> {
    statement + vstd::utf8::encode_utf8(key.key_id@) + seq![algorithm_byte(key.algorithm)] + key.bytes@
}

pub open spec fn digest_start() -> u64 {
    0xA5A5_5A5A_D3C3_B2B2u64
}

/// One step of the digest: rotate left by five, mix in the byte, multiply.
pub open spec fn digest_step(acc: u64, b: u8) -> u64 {
    (((acc << 5u64) | (acc >> 59u64)) ^ (b as u64)).wrapping_mul(0x100_0000_01B3u64)
}

pub open spec fn digest(bytes: Seq<u8>) -> u64
    decreases bytes.len(),
{
    if bytes.len() == 0 {
        digest_start()
    } else {
        digest_step(digest(bytes.drop_last()), bytes.last())
    }
}

/// Byte `k` of `v` in little-endian order.
pub open spec fn le_byte(v: u64, k: int) -> u8 {
    ((v >> ((8 * k) as u64)) & 0xffu64) as u8
}

/// Byte `i` of the signature of digest `d`: eight rounds, each the
/// little-endian bytes of `d` plus the round.
pub open spec fn signature_byte(d: u64, i: int) -> u8 {
    le_byte(d.wrapping_add((i / 8) as u64), i % 8)
}

pub open spec fn signature_of(material: Seq<u8>) -> Seq<u8> {
    Seq::new(64, |i: int| signature_byte(digest(material), i))
}

fn push_bytes(out: &mut Vec<u8>, bytes: &[u8])
    ensures
        final(out)@ == old(out)@ + bytes@,
{
    let mut i: usize = 0;
    while i < bytes.len()
        invariant
            i <= bytes.len(),
            out@ == old(out)@ + bytes@.subrange(0, i as int),
        decreases bytes.len() - i,
    {
        out.push(bytes[i]);
        i = i + 1;
        assert(out@ =~= old(out)@ + bytes@.subrange(0, i as int));
    }
    assert(bytes@.subrange(0, bytes@.len() as int) =~= bytes@);
}

/// The signature bytes of `statement` (its serialized form) under
/// `public_key`.
pub fn statement_signature_bytes(public_key: &MasterPublicKey, statement: &[u8]) -> (r: Vec<u8>)
    ensures
        r@ == signature_of(signing_material(statement@, *public_key)),
{
    let mut material: Vec<u8> = Vec::new();
    push_bytes(&mut material, statement);
    push_bytes(&mut material, public_key.key_id.as_str().as_bytes());
    let alg: u8 = match public_key.algorithm {
        SignatureAlgorithm::Ed25519 => 1,
        SignatureAlgorithm::Secp256k1 => 2,
    };
    material.push(alg);
    push_bytes(&mut material, public_key.bytes.as_slice());
    assert(material@ =~= signing_material(statement@, *public_key));

    let mut acc: u64 = 0xA5A5_5A5A_D3C3_B2B2u64;
    let mut i: usize = 0;
    assert(material@.subrange(0, 0) =~= Seq::<u8>::empty());
    while i < material.len()
        invariant
            i <= material.len(),
            acc == digest(material@.subrange(0, i as int)),
        decreases material.len() - i,
    {
        assert(material@.subrange(0, i + 1).drop_last() =~= material@.subrange(0, i as int));
        acc = (((acc << 5u64) | (acc >> 59u64)) ^ (material[i] as u64)).wrapping_mul(0x100_0000_01B3u64);
        i = i + 1;
    }
    assert(material@.subrange(0, material@.len() as int) =~= material@);

    let mut signature: Vec<u8> = Vec::new();
    let mut j: usize = 0;
    while j < 64
        invariant
            j <= 64,
            acc == digest(material@),
            signature@.len() == j,
            forall|k: int| 0 <= k < j ==> #[trigger] signature@[k] == signature_byte(acc, k),
        decreases 64 - j,
    {
        let v = acc.wrapping_add((j / 8) as u64);
        let b = ((v >> ((8 * (j % 8)) as u64)) & 0xffu64) as u8;
        signature.push(b);
        j = j + 1;
    }
    assert(signature@ =~= signature_of(material@));
    signature
}

fn bytes_equal(a: &Vec<u8>, b: &Vec<u8>) -> (r: bool)
    ensures
        r == (a@ == b@),
{
    if a.len() != b.len() {
        return false;
    }
    let mut i: usize = 0;
    while i < a.len()
        invariant
            a.len() == b.len(),
            i <= a.len(),
            forall|k: int| 0 <= k < i ==> a@[k] == b@[k],
        decreases a.len() - i,
    {
        if a[i] != b[i] {
            return false;
        }
        i = i + 1;
    }
    assert(a@ =~= b@);
    true
}

/// What checking `signature` on `statement` under `public_key` finds.
pub open spec fn verification_outcome(
    public_key: MasterPublicKey,
    statement: Seq<u8>,
    signature: MasterSignature,
) -> Result<(), FieldError> {
    if public_key.key_id@ != signature.key_id@ || public_key.algorithm != signature.algorithm {
        Err(FieldError::InvalidFormat { field: "master_signature" })
    } else if signature.bytes@.len() == 0 {
        Err(FieldError::EmptyField { field: "master_signature" })
    } else if signature.bytes@ != signature_of(signing_material(statement, public_key)) {
        Err(FieldError::InvalidFormat { field: "master_signature" })
    } else {
        Ok(())
    }
}

/// The synthetic master authority: signs and checks statements under one
/// public key.
pub struct SyntheticMasterAuthority {
    pub public_key: MasterPublicKey,
}

impl SyntheticMasterAuthority {
    pub fn new(public_key: MasterPublicKey) -> (r: Self)
        ensures
            r.public_key == public_key,
    {
        SyntheticMasterAuthority { public_key }
    }

    /// Signs a serialized statement.
    pub fn sign(&self, statement: &[u8]) -> (r: Result<MasterSignature, FieldError>)
        ensures
            r matches Ok(s) && s.key_id@ == self.public_key.key_id@ && s.algorithm
                == self.public_key.algorithm && s.bytes@ == signature_of(
                signing_material(statement@, self.public_key),
            ),
    {
        Ok(
            MasterSignature {
                key_id: copy_string(&self.public_key.key_id),
                algorithm: self.public_key.algorithm,
                bytes: statement_signature_bytes(&self.public_key, statement),
            },
        )
    }

    /// Checks a signature on a serialized statement: it must name the key
    /// and algorithm, be non-empty, and be the statement's signature.
    pub fn verify(&self, public_key: &MasterPublicKey, statement: &[u8], signature: &MasterSignature) -> (r:
        Result<(), FieldError>)
        ensures
            r == verification_outcome(*public_key, statement@, *signature),
    {
        if !str_eq(public_key.key_id.as_str(), signature.key_id.as_str())
            || public_key.algorithm != signature.algorithm {
            return Err(FieldError::InvalidFormat { field: "master_signature" });
        }
        if signature.bytes.len() == 0 {
            return Err(FieldError::EmptyField { field: "master_signature" });
        }
        let expected = statement_signature_bytes(public_key, statement);
        if !bytes_equal(&signature.bytes, &expected) {
            return Err(FieldError::InvalidFormat { field: "master_signature" });
        }
        Ok(())
    }
}

/// A statement signed by the authority's key verifies under that key.
pub proof fn signed_statements_verify(key: MasterPublicKey, statement: Seq<u8>, signature: MasterSignature)
    requires
        signature.key_id@ == key.key_id@,
        signature.algorithm == key.algorithm,
        signature.bytes@ == signature_of(signing_material(statement, key)),
    ensures
        verification_outcome(key, statement, signature) == Ok::<(), FieldError>(()),
{
}

// ---------------------------------------------------------------------------
// Graphs.

#[derive(Debug, Clone, Copy, PartialEq, Eq, Structural)]
pub enum GraphKind {
    Public,
    Sovereign,
}

/// A reputation snapshot one graph exports for another: where it came from,
/// its signature and the score it carries.
#[derive(Debug, Clone, PartialEq, Eq)]
pub struct SyntheticReputationSnapshot {
    pub namespace: String,
    pub registry: String,
    pub source_ref: String,
    pub signature: MasterSignature,
    pub score: i64,
}

/// What a snapshot's signature covers: the exporting graph's namespace and
/// registry, the source reference and the score.
#[derive(Debug, Clone, PartialEq, Eq)]
pub struct ReputationSnapshotStatement {
    pub namespace: String,
    pub registry: String,
    pub source_ref: String,
    pub score: i64,
}

impl SyntheticReputationSnapshot {
    /// The statement the snapshot's signature must cover.
    pub fn statement(&self) -> (r: ReputationSnapshotStatement)
        ensures
            r.namespace == self.namespace,
            r.registry == self.registry,
            r.source_ref == self.source_ref,
            r.score == self.score,
    {
        ReputationSnapshotStatement {
            namespace: copy_string(&self.namespace),
            registry: copy_string(&self.registry),
            source_ref: copy_string(&self.source_ref),
            score: self.score,
        }
    }
}

/// A contribution published on a graph.
#[derive(Debug, Clone, PartialEq, Eq)]
pub struct SyntheticContribution {
    pub ref_id: String,
    pub author: String,
    pub body: String,
    pub release_to_mainnet: bool,
    /// The slug of the graph it was bridged from, once bridged.
    pub bridged_from: Option<String>,
}

/// A compute provider on a graph: its handle, its master key and the model
/// it serves.
#[derive(Debug, Clone, PartialEq, Eq)]
pub struct SyntheticProvider {
    pub handle: String,
    pub master_key: MasterPublicKey,
    pub model_id: String,
}

/// A completed compute job.
#[derive(Debug, Clone, PartialEq, Eq)]
pub struct DeliveryReceipt {
    pub job_ref: String,
    pub delivered_to: Option<String>,
    pub result_ref: String,
    pub charged: u128,
}

/// A synthetic graph: its identity, local reputation by key id, the
/// snapshots it imported by key id, its contributions, providers,
/// completions and credit balance in sats.
pub struct SyntheticGraph {
    pub slug: String,
    pub namespace: String,
    pub graph_kind: GraphKind,
    pub reputation_registry: String,
    pub reputation: Vec<(String, i64)>,
    pub imported_snapshots: Vec<(String, SyntheticReputationSnapshot)>,
    pub contributions: Vec<SyntheticContribution>,
    pub providers: Vec<SyntheticProvider>,
    pub completions: Vec<DeliveryReceipt>,
    pub credit_balance: u128,
}

/// The local reputation of a key on a graph; a key never scored has 0.
pub open spec fn score_of(reputation: Seq<(String, i64)>, key_id: Seq<char>) -> i64 {
    if entry_map(reputation).contains_key(key_id) {
        entry_map(reputation)[key_id]
    } else {
        0
    }
}

/// Every part of a graph but its local reputation is as in `g`.
pub open spec fn same_but_reputation(g: SyntheticGraph, h: SyntheticGraph) -> bool {
    &&& h.slug == g.slug
    &&& h.namespace == g.namespace
    &&& h.graph_kind == g.graph_kind
    &&& h.reputation_registry == g.reputation_registry
    &&& entry_map(h.imported_snapshots@) == entry_map(g.imported_snapshots@)
    &&& h.contributions@ == g.contributions@
    &&& h.providers@ == g.providers@
    &&& h.completions@ == g.completions@
    &&& h.credit_balance == g.credit_balance
}

/// Every part of a graph but its imported snapshots is as in `g`.
pub open spec fn same_but_snapshots(g: SyntheticGraph, h: SyntheticGraph) -> bool {
    &&& h.slug == g.slug
    &&& h.namespace == g.namespace
    &&& h.graph_kind == g.graph_kind
    &&& h.reputation_registry == g.reputation_registry
    &&& entry_map(h.reputation@) == entry_map(g.reputation@)
    &&& h.contributions@ == g.contributions@
    &&& h.providers@ == g.providers@
    &&& h.completions@ == g.completions@
    &&& h.credit_balance == g.credit_balance
}

/// Every part of a graph but its credit balance is as in `g`.
pub open spec fn same_but_balance(g: SyntheticGraph, h: SyntheticGraph) -> bool {
    &&& h.slug == g.slug
    &&& h.namespace == g.namespace
    &&& h.graph_kind == g.graph_kind
    &&& h.reputation_registry == g.reputation_registry
    &&& entry_map(h.reputation@) == entry_map(g.reputation@)
    &&& entry_map(h.imported_snapshots@) == entry_map(g.imported_snapshots@)
    &&& h.contributions@ == g.contributions@
    &&& h.providers@ == g.providers@
    &&& h.completions@ == g.completions@
}

/// Every part of a graph but its contributions is as in `g`.
pub open spec fn same_but_contributions(g: SyntheticGraph, h: SyntheticGraph) -> bool {
    &&& h.slug == g.slug
    &&& h.namespace == g.namespace
    &&& h.graph_kind == g.graph_kind
    &&& h.reputation_registry == g.reputation_registry
    &&& entry_map(h.reputation@) == entry_map(g.reputation@)
    &&& entry_map(h.imported_snapshots@) == entry_map(g.imported_snapshots@)
    &&& h.providers@ == g.providers@
    &&& h.completions@ == g.completions@
    &&& h.credit_balance == g.credit_balance
}

/// What importing `snapshot` for `key_id` answers, and the imported
/// snapshots afterwards: one snapshot per key, and only one whose signature
/// verified.
pub open spec fn import_outcome(
    snapshots: Map<Seq<char>, SyntheticReputationSnapshot>,
    key_id: Seq<char>,
    snapshot: SyntheticReputationSnapshot,
    verified: Result<(), FieldError>,
) -> (Result<(), Seq<char>>, Map<Seq<char>, SyntheticReputationSnapshot>) {
    if snapshots.contains_key(key_id) {
        (Err("SnapshotAlreadyImported"@), snapshots)
    } else if verified is Err {
        (Err("SnapshotSignatureInvalid"@), snapshots)
    } else {
        (Ok(()), snapshots.insert(key_id, snapshot))
    }
}

/// The provider a graph picks for `model`: among its providers of that
/// model, one with the highest local reputation, the last of them on a tie.
pub open spec fn best_provider(
    providers: Seq<SyntheticProvider>,
    reputation: Seq<(String, i64)>,
    model: Seq<char>,
) -> Option<int>
    decreases providers.len(),
{
    if providers.len() == 0 {
        None
    } else {
        let b = best_provider(providers.drop_last(), reputation, model);
        let last = providers.last();
        if last.model_id@ == model && (b is None || score_of(
            reputation,
            providers[b->0].master_key.key_id@,
        ) <= score_of(reputation, last.master_key.key_id@)) {
            Some(providers.len() - 1)
        } else {
            b
        }
    }
}

/// `p` is a copy of `q`.
pub open spec fn same_provider(p: SyntheticProvider, q: SyntheticProvider) -> bool {
    &&& p.handle == q.handle
    &&& p.model_id == q.model_id
    &&& p.master_key.key_id == q.master_key.key_id
    &&& p.master_key.algorithm == q.master_key.algorithm
    &&& p.master_key.bytes@ == q.master_key.bytes@
}

/// The first contribution with reference `ref_id`.
pub open spec fn first_contribution(cs: Seq<SyntheticContribution>, ref_id: Seq<char>) -> Option<int>
    decreases cs.len(),
{
    if cs.len() == 0 {
        None
    } else {
        match first_contribution(cs.drop_last(), ref_id) {
            Some(i) => Some(i),
            None => if cs.last().ref_id@ == ref_id {
                Some(cs.len() - 1)
            } else {
                None
            },
        }
    }
}

proof fn lemma_best_provider_bounds(
    providers: Seq<SyntheticProvider>,
    reputation: Seq<(String, i64)>,
    model: Seq<char>,
)
    ensures
        best_provider(providers, reputation, model) matches Some(i) ==> 0 <= i < providers.len()
            && providers[i].model_id@ == model,
    decreases providers.len(),
{
    if providers.len() > 0 {
        lemma_best_provider_bounds(providers.drop_last(), reputation, model);
    }
}

proof fn lemma_first_contribution_bounds(cs: Seq<SyntheticContribution>, ref_id: Seq<char>)
    ensures
        first_contribution(cs, ref_id) matches Some(i) ==> 0 <= i < cs.len() && cs[i].ref_id@ == ref_id,
        first_contribution(cs, ref_id) is None ==> forall|j: int|
            0 <= j < cs.len() ==> #[trigger] cs[j].ref_id@ != ref_id,
    decreases cs.len(),
{
    if cs.len() > 0 {
        lemma_first_contribution_bounds(cs.drop_last(), ref_id);
        assert forall|j: int| 0 <= j < cs.len() - 1 implies #[trigger] cs[j] == cs.drop_last()[j] by {}
    }
}

fn copy_key(k: &MasterPublicKey) -> (r: MasterPublicKey)
    ensures
        r.key_id == k.key_id,
        r.algorithm == k.algorithm,
        r.bytes@ == k.bytes@,
{
    let mut bytes: Vec<u8> = Vec::new();
    push_bytes(&mut bytes, k.bytes.as_slice());
    MasterPublicKey { key_id: copy_string(&k.key_id), algorithm: k.algorithm, bytes }
}

fn copy_provider(p: &SyntheticProvider) -> (r: SyntheticProvider)
    ensures
        same_provider(r, *p),
{
    SyntheticProvider {
        handle: copy_string(&p.handle),
        master_key: copy_key(&p.master_key),
        model_id: copy_string(&p.model_id),
    }
}

fn copy_optional(s: &Option<String>) -> (r: Option<String>)
    ensures
        r == *s,
{
    match s {
        Some(x) => Some(copy_string(x)),
        None => None,
    }
}

fn copy_contribution(c: &SyntheticContribution) -> (r: SyntheticContribution)
    ensures
        r == *c,
{
    SyntheticContribution {
        ref_id: copy_string(&c.ref_id),
        author: copy_string(&c.author),
        body: copy_string(&c.body),
        release_to_mainnet: c.release_to_mainnet,
        bridged_from: copy_optional(&c.bridged_from),
    }
}

fn copy_receipt(d: &DeliveryReceipt) -> (r: DeliveryReceipt)
    ensures
        r == *d,
{
    DeliveryReceipt {
        job_ref: copy_string(&d.job_ref),
        delivered_to: copy_optional(&d.delivered_to),
        result_ref: copy_string(&d.result_ref),
        charged: d.charged,
    }
}

/// The balance a graph starts with, in sats.
pub const STARTING_BALANCE_SATS: u128 = 10_000;

impl SyntheticGraph {
    /// A graph in the `playful` namespace with registry `<slug>_rep`,
    /// nothing recorded yet and the starting balance.
    pub fn new(slug: &str, graph_kind: GraphKind) -> (r: Self)
        ensures
            r.slug@ == slug@,
            r.namespace@ == "playful"@,
            r.graph_kind == graph_kind,
            r.reputation_registry@ == slug@ + "_rep"@,
            r.reputation@.len() == 0,
            r.imported_snapshots@.len() == 0,
            r.contributions@.len() == 0,
            r.providers@.len() == 0,
            r.completions@.len() == 0,
            r.credit_balance == STARTING_BALANCE_SATS,
    {
        let mut registry = owned(slug);
        registry.append("_rep");
        SyntheticGraph {
            slug: owned(slug),
            namespace: owned("playful"),
            graph_kind,
            reputation_registry: registry,
            reputation: Vec::new(),
            imported_snapshots: Vec::new(),
            contributions: Vec::new(),
            providers: Vec::new(),
            completions: Vec::new(),
            credit_balance: STARTING_BALANCE_SATS,
        }
    }

    pub fn set_reputation(&mut self, key: &MasterPublicKey, score: i64)
        ensures
            entry_map(final(self).reputation@) == entry_map(old(self).reputation@).insert(key.key_id@, score),
            same_but_reputation(*old(self), *final(self)),
    {
        let key = copy_string(&key.key_id);
        proof {
            lemma_entry_map_push(self.reputation@, key, score);
        }
        self.reputation.push((key, score));
    }

    /// The local reputation of a key; 0 for a key never scored.
    pub fn reputation_score(&self, key: &MasterPublicKey) -> (r: i64)
        ensures
            r == score_of(self.reputation@, key.key_id@),
    {
        match latest_index(&self.reputation, key.key_id.as_str()) {
            Some(i) => self.reputation[i].1,
            None => 0,
        }
    }

    /// Adds `delta` to a key's local reputation.
    pub fn add_local_reputation(&mut self, key: &MasterPublicKey, delta: i64)
        requires
            i64::MIN <= score_of(old(self).reputation@, key.key_id@) + delta <= i64::MAX,
        ensures
            entry_map(final(self).reputation@) == entry_map(old(self).reputation@).insert(
                key.key_id@,
                (score_of(old(self).reputation@, key.key_id@) + delta) as i64,
            ),
            same_but_reputation(*old(self), *final(self)),
    {
        let current = self.reputation_score(key);
        self.set_reputation(key, current + delta);
    }

    /// The statement a snapshot of `key_id`'s reputation taken from this
    /// graph would carry.
    pub fn reputation_statement(&self, key: &MasterPublicKey, source_ref: &str) -> (r:
        ReputationSnapshotStatement)
        ensures
            r.namespace == self.namespace,
            r.registry == self.reputation_registry,
            r.source_ref@ == source_ref@,
            r.score == score_of(self.reputation@, key.key_id@),
    {
        ReputationSnapshotStatement {
            namespace: copy_string(&self.namespace),
            registry: copy_string(&self.reputation_registry),
            source_ref: owned(source_ref),
            score: self.reputation_score(key),
        }
    }

    /// Exports a snapshot of a key's reputation, signed by `signature`: what
    /// the master signer returned for the snapshot's statement.
    pub fn export_reputation_snapshot(
        &self,
        key: &MasterPublicKey,
        source_ref: &str,
        signature: Result<MasterSignature, FieldError>,
    ) -> (r: Result<SyntheticReputationSnapshot, FieldError>)
        ensures
            match signature {
                Err(e) => r == Err::<SyntheticReputationSnapshot, FieldError>(e),
                Ok(sig) => r matches Ok(snap) && snap.namespace == self.namespace && snap.registry
                    == self.reputation_registry && snap.source_ref@ == source_ref@ && snap.signature
                    == sig && snap.score == score_of(self.reputation@, key.key_id@),
            },
    {
        let signature = match signature {
            Ok(sig) => sig,
            Err(e) => {
                return Err(e);
            },
        };
        let statement = self.reputation_statement(key, source_ref);
        Ok(
            SyntheticReputationSnapshot {
                namespace: statement.namespace,
                registry: statement.registry,
                source_ref: statement.source_ref,
                signature,
                score: statement.score,
            },
        )
    }

    /// Imports a snapshot of a key's reputation once: a second snapshot for
    /// the same key is refused whatever it holds, and a snapshot whose
    /// signature did not verify is refused. `verified` is what the master
    /// verifier found for the snapshot's statement and signature.
    pub fn import_reputation_snapshot(
        &mut self,
        key: &MasterPublicKey,
        snapshot: SyntheticReputationSnapshot,
        verified: Result<(), FieldError>,
    ) -> (r: Result<(), String>)
        ensures
            match r {
                Ok(()) => import_outcome(entry_map(old(self).imported_snapshots@), key.key_id@, snapshot, verified).0
                    == Ok::<(), Seq<char>>(()),
                Err(e) => import_outcome(entry_map(old(self).imported_snapshots@), key.key_id@, snapshot, verified).0
                    == Err::<(), Seq<char>>(e@),
            },
            entry_map(final(self).imported_snapshots@) == import_outcome(
                entry_map(old(self).imported_snapshots@),
                key.key_id@,
                snapshot,
                verified,
            ).1,
            same_but_snapshots(*old(self), *final(self)),
    {
        if latest_index(&self.imported_snapshots, key.key_id.as_str()).is_some() {
            return Err(owned("SnapshotAlreadyImported"));
        }
        if verified.is_err() {
            return Err(owned("SnapshotSignatureInvalid"));
        }
        let key_id = copy_string(&key.key_id);
        proof {
            lemma_entry_map_push(self.imported_snapshots@, key_id, snapshot);
        }
        self.imported_snapshots.push((key_id, snapshot));
        Ok(())
    }

    /// The score of the snapshot imported for a key, if any.
    pub fn snapshot_score(&self, key: &MasterPublicKey) -> (r: Option<i64>)
        ensures
            entry_map(self.imported_snapshots@).contains_key(key.key_id@) ==> r == Some(
                entry_map(self.imported_snapshots@)[key.key_id@].score,
            ),
            !entry_map(self.imported_snapshots@).contains_key(key.key_id@) ==> r is None,
    {
        match latest_index(&self.imported_snapshots, key.key_id.as_str()) {
            Some(i) => Some(self.imported_snapshots[i].1.score),
            None => None,
        }
    }

    pub fn publish_contribution(&mut self, contribution: SyntheticContribution)
        ensures
            final(self).contributions@ == old(self).contributions@.push(contribution),
            same_but_contributions(*old(self), *final(self)),
    {
        self.contributions.push(contribution);
    }

    pub fn has_contribution(&self, ref_id: &str) -> (r: bool)
        ensures
            r == exists|i: int|
                0 <= i < self.contributions@.len() && #[trigger] self.contributions@[i].ref_id@ == ref_id@,
    {
        let mut i: usize = 0;
        while i < self.contributions.len()
            invariant
                i <= self.contributions.len(),
                forall|j: int| 0 <= j < i ==> #[trigger] self.contributions@[j].ref_id@ != ref_id@,
            decreases self.contributions.len() - i,
        {
            if str_eq(self.contributions[i].ref_id.as_str(), ref_id) {
                return true;
            }
            i = i + 1;
        }
        false
    }

    pub fn has_completion(&self, ref_id: &str) -> (r: bool)
        ensures
            r == exists|i: int|
                0 <= i < self.completions@.len() && #[trigger] self.completions@[i].result_ref@ == ref_id@,
    {
        let mut i: usize = 0;
        while i < self.completions.len()
            invariant
                i <= self.completions.len(),
                forall|j: int| 0 <= j < i ==> #[trigger] self.completions@[j].result_ref@ != ref_id@,
            decreases self.completions.len() - i,
        {
            if str_eq(self.completions[i].result_ref.as_str(), ref_id) {
                return true;
            }
            i = i + 1;
        }
        false
    }

    /// The provider of `model_id` with the highest local reputation (the
    /// last of them on a tie); none when no provider serves the model.
    pub fn select_provider_by_local_reputation(&self, model_id: &str) -> (r: Option<SyntheticProvider>)
        ensures
            match best_provider(self.providers@, self.reputation@, model_id@) {
                Some(i) => r matches Some(p) && same_provider(p, self.providers@[i]),
                None => r is None,
            },
    {
        let mut best: Option<usize> = None;
        let mut best_score: i64 = 0;
        let mut i: usize = 0;
        while i < self.providers.len()
            invariant
                i <= self.providers.len(),
                best == match best_provider(self.providers@.subrange(0, i as int), self.reputation@, model_id@) {
                    Some(b) => Some(b as usize),
                    None => None::<usize>,
                },
                best matches Some(b) ==> b < i && best_score == score_of(
                    self.reputation@,
                    self.providers@[b as int].master_key.key_id@,
                ),
            decreases self.providers.len() - i,
        {
            let ghost pre = self.providers@.subrange(0, i as int);
            let ghost next = self.providers@.subrange(0, i + 1);
            proof {
                assert(next.drop_last() =~= pre);
                lemma_best_provider_bounds(pre, self.reputation@, model_id@);
                if let Some(b) = best_provider(pre, self.reputation@, model_id@) {
                    assert(next[b] == self.providers@[b]);
                }
            }
            let p = &self.providers[i];
            if str_eq(p.model_id.as_str(), model_id) {
                let score = self.reputation_score(&p.master_key);
                match best {
                    None => {
                        best = Some(i);
                        best_score = score;
                    },
                    Some(_) => {
                        if best_score <= score {
                            best = Some(i);
                            best_score = score;
                        }
                    },
                }
            }
            i = i + 1;
        }
        assert(self.providers@.subrange(0, self.providers@.len() as int) =~= self.providers@);
        proof {
            lemma_best_provider_bounds(self.providers@, self.reputation@, model_id@);
        }
        match best {
            Some(b) => Some(copy_provider(&self.providers[b])),
            None => None,
        }
    }

    /// Credits the graph; a credit that would overflow the balance is not
    /// applied.
    pub fn credit(&mut self, amount: u128)
        ensures
            final(self).credit_balance == if old(self).credit_balance + amount <= u128::MAX {
                (old(self).credit_balance + amount) as u128
            } else {
                old(self).credit_balance
            },
            same_but_balance(*old(self), *final(self)),
    {
        match self.credit_balance.checked_add(amount) {
            Some(b) => {
                self.credit_balance = b;
            },
            None => {},
        }
    }

    /// Debits the graph; a debit beyond the balance is refused.
    pub fn debit(&mut self, amount: u128) -> (r: Result<(), String>)
        ensures
            amount <= old(self).credit_balance ==> r is Ok && final(self).credit_balance
                == old(self).credit_balance - amount,
            amount > old(self).credit_balance ==> (r matches Err(e) && e@ == "insufficient graph balance"@)
                && final(self).credit_balance == old(self).credit_balance,
            same_but_balance(*old(self), *final(self)),
    {
        match self.credit_balance.checked_sub(amount) {
            Some(b) => {
                self.credit_balance = b;
                Ok(())
            },
            None => Err(owned("insufficient graph balance")),
        }
    }
}

// ---------------------------------------------------------------------------
// The synthetic bridge between two graphs.

/// A bridge between graphs: whether it is connected, its friction in basis
/// points and its exchange rate.
#[derive(Debug, Clone, Copy, PartialEq, Eq)]
pub struct SyntheticBridge {
    pub connected: bool,
    pub friction_bps: u128,
    pub exchange_rate_numerator: u128,
    pub exchange_rate_denominator: u128,
}

/// A credit transfer across the bridge, in sats.
#[derive(Debug, Clone, PartialEq, Eq)]
pub struct BridgeTransfer {
    pub from_graph: String,
    pub to_graph: String,
    pub gross: u128,
    pub bridge_tax: u128,
    pub net: u128,
}

/// The bridge amount after the exchange rate.
pub open spec fn converted_amount(b: SyntheticBridge, amount: u128) -> int {
    amount * b.exchange_rate_numerator / b.exchange_rate_denominator as int
}

/// The bridge's cut of a converted amount.
pub open spec fn bridge_tax_of(b: SyntheticBridge, converted: int) -> int {
    converted * b.friction_bps / 10_000
}

impl SyntheticBridge {
    /// The sovereign-mode bridge: connected, 2 percent friction, at par.
    pub fn sovereign_mode() -> (r: Self)
        ensures
            r.connected,
            r.friction_bps == 200,
            r.exchange_rate_numerator == 1,
            r.exchange_rate_denominator == 1,
    {
        SyntheticBridge {
            connected: true,
            friction_bps: 200,
            exchange_rate_numerator: 1,
            exchange_rate_denominator: 1,
        }
    }

    /// Transfers `amount` sats from one graph to another: the amount is
    /// converted at the exchange rate and the bridge keeps its friction.
    pub fn transfer_credits(&self, from_graph: &str, to_graph: &str, amount: u128) -> (r: Result<
        BridgeTransfer,
        String,
    >)
        requires
            self.exchange_rate_denominator > 0,
            amount * self.exchange_rate_numerator <= u128::MAX,
            converted_amount(*self, amount) * self.friction_bps <= u128::MAX,
        ensures
            !self.connected ==> (r matches Err(e) && e@ == "bridge is disconnected"@),
            self.connected && bridge_tax_of(*self, converted_amount(*self, amount)) > converted_amount(
                *self,
                amount,
            ) ==> (r matches Err(e) && e@ == "bridge tax exceeded converted transfer"@),
            self.connected && bridge_tax_of(*self, converted_amount(*self, amount)) <= converted_amount(
                *self,
                amount,
            ) ==> (r matches Ok(t) && t.from_graph@ == from_graph@ && t.to_graph@ == to_graph@ && t.gross
                == amount && t.bridge_tax == bridge_tax_of(*self, converted_amount(*self, amount))
                && t.net == converted_amount(*self, amount) - t.bridge_tax),
    {
        if !self.connected {
            return Err(owned("bridge is disconnected"));
        }
        let converted = amount * self.exchange_rate_numerator / self.exchange_rate_denominator;
        let bridge_tax = converted * self.friction_bps / 10_000;
        if bridge_tax > converted {
            return Err(owned("bridge tax exceeded converted transfer"));
        }
        Ok(BridgeTransfer {
            from_graph: owned(from_graph),
            to_graph: owned(to_graph),
            gross: amount,
            bridge_tax,
            net: converted - bridge_tax,
        })
    }
}

/// What releasing the contribution `ref_id` of `source` to mainnet answers:
/// the mirrored contribution, or why it is refused.
pub open spec fn release_outcome(
    connected: bool,
    source: SyntheticGraph,
    ref_id: Seq<char>,
) -> Result<SyntheticContribution, Seq<char>> {
    if !connected {
        Err("bridge is disconnected"@)
    } else {
        match first_contribution(source.contributions@, ref_id) {
            None => Err("source contribution not found"@),
            Some(i) => {
                let c = source.contributions@[i];
                if !c.release_to_mainnet {
                    Err("contribution is not releasable to mainnet"@)
                } else if trimmed(c.body@).len() == 0 {
                    Err("released contribution body is empty"@)
                } else if c.author@.len() == 0 {
                    Err("released contribution author is empty"@)
                } else if mid_slug(c.ref_id@) != Some(source.slug@) {
                    Err("released contribution does not use the source graph mid-slug"@)
                } else {
                    Ok(SyntheticContribution { bridged_from: Some(source.slug), ..c })
                }
            },
        }
    }
}

/// The result reference of the echo adapter that fulfils bridged compute.
pub open spec fn bridged_result_ref() -> Seq<char> {
    "playful/123/kitty/21"@
}

/// What a bridged compute job is charged, in sats.
pub const BRIDGED_COMPUTE_CHARGE_SATS: u128 = 64;

impl SyntheticBridge {
    /// Releases a contribution of `source_graph` to mainnet: the bridge must
    /// be connected, and the contribution (the first with `ref_id`) must be
    /// releasable, have a body and an author, and sit under the source
    /// graph's mid slug. Mainnet receives it marked as bridged from the
    /// source graph.
    pub fn release_to_mainnet(
        &self,
        source_graph: &SyntheticGraph,
        mainnet: &mut SyntheticGraph,
        ref_id: &str,
    ) -> (r: Result<SyntheticContribution, String>)
        ensures
            match release_outcome(self.connected, *source_graph, ref_id@) {
                Ok(m) => {
                    &&& r == Ok::<SyntheticContribution, String>(m)
                    &&& final(mainnet).contributions@ == old(mainnet).contributions@.push(m)
                    &&& same_but_contributions(*old(mainnet), *final(mainnet))
                },
                Err(e) => {
                    &&& r matches Err(x) && x@ == e
                    &&& *final(mainnet) == *old(mainnet)
                },
            },
    {
        if !self.connected {
            return Err(owned("bridge is disconnected"));
        }
        let mut found: Option<usize> = None;
        let mut i: usize = 0;
        while i < source_graph.contributions.len()
            invariant
                i <= source_graph.contributions.len(),
                found == match first_contribution(source_graph.contributions@.subrange(0, i as int), ref_id@) {
                    Some(b) => Some(b as usize),
                    None => None::<usize>,
                },
                found matches Some(b) ==> b < i,
            decreases source_graph.contributions.len() - i,
        {
            let ghost pre = source_graph.contributions@.subrange(0, i as int);
            let ghost next = source_graph.contributions@.subrange(0, i + 1);
            proof {
                assert(next.drop_last() =~= pre);
                lemma_first_contribution_bounds(pre, ref_id@);
            }
            if found.is_none() && str_eq(source_graph.contributions[i].ref_id.as_str(), ref_id) {
                found = Some(i);
            }
            i = i + 1;
        }
        assert(source_graph.contributions@.subrange(0, source_graph.contributions@.len() as int)
            =~= source_graph.contributions@);
        proof {
            lemma_first_contribution_bounds(source_graph.contributions@, ref_id@);
        }
        let index = match found {
            Some(k) => k,
            None => {
                return Err(owned("source contribution not found"));
            },
        };
        let contribution = &source_graph.contributions[index];
        if !contribution.release_to_mainnet {
            return Err(owned("contribution is not releasable to mainnet"));
        }
        if trim(contribution.body.as_str()).as_str().unicode_len() == 0 {
            return Err(owned("released contribution body is empty"));
        }
        if contribution.author.as_str().unicode_len() == 0 {
            return Err(owned("released contribution author is empty"));
        }
        let slug_matches = match ref_mid_slug(contribution.ref_id.as_str()) {
            Some(m) => str_eq(m.as_str(), source_graph.slug.as_str()),
            None => false,
        };
        if !slug_matches {
            return Err(owned("released contribution does not use the source graph mid-slug"));
        }
        let mut mirrored = copy_contribution(contribution);
        mirrored.bridged_from = Some(copy_string(&source_graph.slug));
        mainnet.publish_contribution(copy_contribution(&mirrored));
        Ok(mirrored)
    }

    /// Routes a compute job to the sovereign graph: the bridge must be
    /// connected and the graph must have a provider of the job's model (the
    /// one with the highest local reputation serves it). The completion is
    /// recorded on the graph.
    pub fn dispatch_compute_to_kitty(&self, job_ref: &str, model_id: &str, kitty: &mut SyntheticGraph) -> (r:
        Result<DeliveryReceipt, String>)
        ensures
            !self.connected ==> (r matches Err(e) && e@ == "bridge is disconnected"@) && *final(kitty)
                == *old(kitty),
            self.connected && best_provider(old(kitty).providers@, old(kitty).reputation@, model_id@)
                is None ==> (r matches Err(e) && e@ == "no kitty provider can fulfill model"@)
                && *final(kitty) == *old(kitty),
            self.connected && best_provider(old(kitty).providers@, old(kitty).reputation@, model_id@)
                is Some ==> {
                &&& r matches Ok(receipt)
                &&& receipt.job_ref@ == job_ref@
                &&& receipt.delivered_to is None
                &&& receipt.result_ref@ == bridged_result_ref()
                &&& receipt.charged == BRIDGED_COMPUTE_CHARGE_SATS
                &&& final(kitty).completions@ == old(kitty).completions@.push(receipt)
                &&& final(kitty).slug == old(kitty).slug
                &&& final(kitty).namespace == old(kitty).namespace
                &&& final(kitty).graph_kind == old(kitty).graph_kind
                &&& final(kitty).reputation_registry == old(kitty).reputation_registry
                &&& final(kitty).reputation@ == old(kitty).reputation@
                &&& final(kitty).imported_snapshots@ == old(kitty).imported_snapshots@
                &&& final(kitty).contributions@ == old(kitty).contributions@
                &&& final(kitty).providers@ == old(kitty).providers@
                &&& final(kitty).credit_balance == old(kitty).credit_balance
            },
    {
        if !self.connected {
            return Err(owned("bridge is disconnected"));
        }
        if kitty.select_provider_by_local_reputation(model_id).is_none() {
            return Err(owned("no kitty provider can fulfill model"));
        }
        let receipt = DeliveryReceipt {
            job_ref: owned(job_ref),
            delivered_to: None,
            result_ref: owned("playful/123/kitty/21"),
            charged: BRIDGED_COMPUTE_CHARGE_SATS,
        };
        kitty.completions.push(copy_receipt(&receipt));
        Ok(receipt)
    }
}

/// A bridge whose friction is at most 100 percent never refuses a transfer
/// for its tax, and what arrives plus the tax is exactly the converted
/// amount, the tax never exceeding it.
pub proof fn bridge_conserves_credits(b: SyntheticBridge, amount: u128)
    requires
        b.friction_bps <= 10_000,
        b.exchange_rate_denominator > 0,
    ensures
        0 <= bridge_tax_of(b, converted_amount(b, amount)) <= converted_amount(b, amount),
{
    let c = converted_amount(b, amount);
    assert(c >= 0) by (nonlinear_arith)
        requires
            c == amount * b.exchange_rate_numerator / b.exchange_rate_denominator as int,
            b.exchange_rate_denominator > 0,
    ;
    assert(0 <= c * b.friction_bps / 10_000 <= c) by (nonlinear_arith)
        requires
            c >= 0,
            b.friction_bps <= 10_000,
    ;
}

// ---------------------------------------------------------------------------
// Laws of the two-graph bridge.

/// A graph takes one reputation snapshot per key: once a snapshot for a key
/// is imported, every later import for that key is refused, whatever it
/// carries and whether or not it verified, and the imported score stays.
pub proof fn snapshot_import_is_one_shot(
    snapshots: Map<Seq<char>, SyntheticReputationSnapshot>,
    key_id: Seq<char>,
    first: SyntheticReputationSnapshot,
    later: SyntheticReputationSnapshot,
    later_verified: Result<(), FieldError>,
)
    requires
        !snapshots.contains_key(key_id),
    ensures
        ({
            let after = import_outcome(snapshots, key_id, first, Ok(())).1;
            &&& after[key_id].score == first.score
            &&& import_outcome(after, key_id, later, later_verified) == (
                Err::<(), Seq<char>>("SnapshotAlreadyImported"@),
                after,
            )
        }),
{
}

/// A graph dispatches on its own reputation: the provider it picks serves
/// the model and no provider of that model has a higher local reputation;
/// it picks none only when no provider serves the model.
pub proof fn local_selection_prefers_highest_reputation(
    providers: Seq<SyntheticProvider>,
    reputation: Seq<(String, i64)>,
    model: Seq<char>,
)
    ensures
        best_provider(providers, reputation, model) matches Some(i) ==> {
            &&& 0 <= i < providers.len()
            &&& providers[i].model_id@ == model
            &&& forall|j: int|
                0 <= j < providers.len() && #[trigger] providers[j].model_id@ == model ==> score_of(
                    reputation,
                    providers[j].master_key.key_id@,
                ) <= score_of(reputation, providers[i].master_key.key_id@)
        },
        best_provider(providers, reputation, model) is None ==> forall|j: int|
            0 <= j < providers.len() ==> #[trigger] providers[j].model_id@ != model,
    decreases providers.len(),
{
    if providers.len() > 0 {
        let pre = providers.drop_last();
        let n = providers.len() - 1;
        local_selection_prefers_highest_reputation(pre, reputation, model);
        assert forall|j: int| 0 <= j < pre.len() implies #[trigger] pre[j] == providers[j] by {}
        match best_provider(providers, reputation, model) {
            Some(i) => {
                assert forall|j: int|
                    0 <= j < providers.len() && #[trigger] providers[j].model_id@ == model implies score_of(
                    reputation,
                    providers[j].master_key.key_id@,
                ) <= score_of(reputation, providers[i].master_key.key_id@) by {
                    if j < n {
                        assert(pre[j].model_id@ == model);
                    }
                }
            },
            None => {
                assert forall|j: int| 0 <= j < providers.len() implies #[trigger] providers[j].model_id@
                    != model by {
                    if j < n {
                        assert(pre[j] == providers[j]);
                    }
                }
            },
        }
    }
}

/// A severed bridge releases nothing: every release is refused and mainnet
/// is left as it was (see `release_to_mainnet`), so each graph goes on with
/// its own contributions only.
pub proof fn severed_bridge_releases_nothing(source: SyntheticGraph, ref_id: Seq<char>)
    ensures
        release_outcome(false, source, ref_id) == Err::<SyntheticContribution, Seq<char>>(
            "bridge is disconnected"@,
        ),
{
}

/// What a released contribution carries: the source graph as its origin,
/// the source graph's slug as the mid slug of its reference, and otherwise
/// the source contribution unchanged.
pub proof fn released_contribution_names_its_source(source: SyntheticGraph, ref_id: Seq<char>)
    ensures
        release_outcome(true, source, ref_id) matches Ok(m) ==> {
            &&& m.bridged_from == Some(source.slug)
            &&& mid_slug(m.ref_id@) == Some(source.slug@)
            &&& m.ref_id@ == ref_id
            &&& exists|i: int|
                0 <= i < source.contributions@.len() && (SyntheticContribution {
                    bridged_from: Some(source.slug),
                    ..#[trigger] source.contributions@[i]
                }) == m
        },
{
    lemma_first_contribution_bounds(source.contributions@, ref_id);
}

} // verus!
