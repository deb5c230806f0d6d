//! The in-memory storage and relay markets of the single-graph synthetic
//! validation.
//!
//! Each market keeps its entries in keyed tables. Handles and cross-graph
//! references are held as their text; credit amounts as sats.
use vstd::prelude::*;

use crate::field_error::FieldError;
use crate::keyed_table::{entry_map, latest_index, lemma_entry_map_push};
use crate::substrate::{
    HopCapability, PathLeaseId, PinCommitmentId, PrivacyTier, RelayOfferId, ReplicationFactor,
    RetentionPolicy, RetrievalRequestId, RotationPolicy, StorageOfferId,
};
use crate::text::{copy_string, owned};

verus! {

// ---------------------------------------------------------------------------
// Values the markets read.

/// The settlement terms that an offer or a lease carries.
#[derive(Debug, Clone, Copy, PartialEq, Eq, Structural)]
pub struct SettlementIntent {
    pub max_price: u128,
    pub escrow_required: bool,
}

/// Bytes of an offer's capacity reserved for one graph.
#[derive(Debug, Clone, PartialEq, Eq)]
pub struct CapacityAllocation {
    pub graph: String,
    pub reserved_bytes: u64,
}

/// A price: a base and a price per unit, in sats.
#[derive(Debug, Clone, Copy, PartialEq, Eq, Structural)]
pub struct PriceCurve {
    pub base: u128,
    pub per_unit: u128,
}

/// A storage offer: its id, the provider's handle, its capacity and how it
/// is shared between graphs, and its terms.
#[derive(Debug, Clone, PartialEq, Eq)]
pub struct StorageOffer {
    pub offer_id: StorageOfferId,
    pub provider: String,
    pub capacity_bytes: u64,
    pub capacity_allocation: Vec<CapacityAllocation>,
    pub price: PriceCurve,
    pub replication: ReplicationFactor,
    pub retention: RetentionPolicy,
    pub settlement: SettlementIntent,
}

#[derive(Debug, Clone, PartialEq, Eq)]
pub struct PinCommitmentRequest {
    pub offer_id: StorageOfferId,
    pub requester: String,
    pub content_ref: String,
    pub bytes: u64,
    pub replication: ReplicationFactor,
    pub retention: RetentionPolicy,
    pub settlement: SettlementIntent,
}

#[derive(Debug, Clone, PartialEq, Eq)]
pub struct PinCommitment {
    pub commitment_id: PinCommitmentId,
    pub request: PinCommitmentRequest,
    pub provider: String,
}

#[derive(Debug, Clone, PartialEq, Eq)]
pub struct RetrievalRequest {
    pub request_id: RetrievalRequestId,
    pub commitment_id: PinCommitmentId,
    pub requester: String,
    pub content_ref: String,
    pub max_price: u128,
}

#[derive(Debug, Clone, PartialEq, Eq)]
pub struct RetrievalReceipt {
    pub request_id: RetrievalRequestId,
    pub content_ref: String,
    pub served_by: String,
    pub bytes_served: u64,
    pub charged: u128,
}

fn copy_pin_request(r0: &PinCommitmentRequest) -> (r: PinCommitmentRequest)
    ensures
        r == *r0,
{
    PinCommitmentRequest {
        offer_id: StorageOfferId(copy_string(&r0.offer_id.0)),
        requester: copy_string(&r0.requester),
        content_ref: copy_string(&r0.content_ref),
        bytes: r0.bytes,
        replication: r0.replication,
        retention: r0.retention,
        settlement: r0.settlement,
    }
}

fn copy_commitment(c: &PinCommitment) -> (r: PinCommitment)
    ensures
        r == *c,
{
    PinCommitment {
        commitment_id: PinCommitmentId(copy_string(&c.commitment_id.0)),
        request: copy_pin_request(&c.request),
        provider: copy_string(&c.provider),
    }
}

// ---------------------------------------------------------------------------
// The storage market.

/// A storage market that pins blobs in memory under the terms of one default
/// offer.
pub struct SyntheticStorageMarket {
    offers: Vec<StorageOffer>,
    commitments: Vec<(String, PinCommitment)>,
    blobs: Vec<(String, Vec<u8>)>,
    default_offer: StorageOffer,
}

/// What a retrieval is charged, in sats.
pub const RETRIEVAL_PRICE_SATS: u128 = 7;

/// The id of the commitment this market grants.
pub open spec fn storage_commitment_id() -> Seq<char> {
    "pin-l3-1"@
}

impl SyntheticStorageMarket {
    /// The offers published, in order.
    pub closed spec fn offers_view(&self) -> Seq<StorageOffer> {
        self.offers@
    }

    /// The commitments, by id.
    pub closed spec fn commitments_view(&self) -> Map<Seq<char>, PinCommitment> {
        entry_map(self.commitments@)
    }

    /// The blobs written, by content reference.
    pub closed spec fn blobs_view(&self) -> Map<Seq<char>, Vec<u8>> {
        entry_map(self.blobs@)
    }

    pub closed spec fn default_offer_view(&self) -> StorageOffer {
        self.default_offer
    }

    pub fn new(default_offer: StorageOffer) -> (r: Self)
        ensures
            r.offers_view() == Seq::<StorageOffer>::empty(),
            r.commitments_view() == Map::<Seq<char>, PinCommitment>::empty(),
            r.blobs_view() == Map::<Seq<char>, Vec<u8>>::empty(),
            r.default_offer_view() == default_offer,
    {
        let r = SyntheticStorageMarket {
            offers: Vec::new(),
            commitments: Vec::new(),
            blobs: Vec::new(),
            default_offer,
        };
        assert(r.commitments_view() =~= Map::<Seq<char>, PinCommitment>::empty());
        assert(r.blobs_view() =~= Map::<Seq<char>, Vec<u8>>::empty());
        r
    }

    /// Writes a blob under its content reference; a blob larger than the
    /// default offer's capacity is refused.
    pub fn write_blob(&mut self, content_ref: String, blob: Vec<u8>) -> (r: Result<(), FieldError>)
        ensures
            final(self).offers_view() == old(self).offers_view(),
            final(self).commitments_view() == old(self).commitments_view(),
            final(self).default_offer_view() == old(self).default_offer_view(),
            blob.len() > old(self).default_offer_view().capacity_bytes ==> {
                &&& r == Err::<(), FieldError>(FieldError::OutOfRange { field: "storage_blob_bytes" })
                &&& final(self).blobs_view() == old(self).blobs_view()
            },
            blob.len() <= old(self).default_offer_view().capacity_bytes ==> {
                &&& r is Ok
                &&& final(self).blobs_view() == old(self).blobs_view().insert(content_ref@, blob)
            },
    {
        if blob.len() as u64 > self.default_offer.capacity_bytes {
            return Err(FieldError::OutOfRange { field: "storage_blob_bytes" });
        }
        proof {
            lemma_entry_map_push(self.blobs@, content_ref, blob);
        }
        self.blobs.push((content_ref, blob));
        Ok(())
    }

    /// Publishes an offer and returns its id.
    pub fn publish_offer(&mut self, offer: StorageOffer) -> (r: Result<StorageOfferId, FieldError>)
        ensures
            r == Ok::<StorageOfferId, FieldError>(offer.offer_id),
            final(self).offers_view() == old(self).offers_view().push(offer),
            final(self).commitments_view() == old(self).commitments_view(),
            final(self).blobs_view() == old(self).blobs_view(),
            final(self).default_offer_view() == old(self).default_offer_view(),
    {
        let offer_id = StorageOfferId(copy_string(&offer.offer_id.0));
        self.offers.push(offer);
        Ok(offer_id)
    }

    /// Commits to pin the blob that the request names: the blob must have
    /// been written, with exactly the bytes the request states. The
    /// commitment is granted by the default offer's provider.
    pub fn commit_pin(&mut self, request: PinCommitmentRequest) -> (r: Result<PinCommitment, FieldError>)
        ensures
            final(self).offers_view() == old(self).offers_view(),
            final(self).blobs_view() == old(self).blobs_view(),
            final(self).default_offer_view() == old(self).default_offer_view(),
            !old(self).blobs_view().contains_key(request.content_ref@) ==> {
                &&& r == Err::<PinCommitment, FieldError>(FieldError::EmptyField { field: "content_ref" })
                &&& final(self).commitments_view() == old(self).commitments_view()
            },
            old(self).blobs_view().contains_key(request.content_ref@) && old(self).blobs_view()[request.content_ref@].len()
                != request.bytes ==> {
                &&& r == Err::<PinCommitment, FieldError>(
                    FieldError::InvalidFormat { field: "pin_commitment_bytes" },
                )
                &&& final(self).commitments_view() == old(self).commitments_view()
            },
            old(self).blobs_view().contains_key(request.content_ref@) && old(self).blobs_view()[request.content_ref@].len()
                == request.bytes ==> {
                &&& r matches Ok(c)
                &&& c.commitment_id.0@ == storage_commitment_id()
                &&& c.request == request
                &&& c.provider == old(self).default_offer_view().provider
                &&& final(self).commitments_view() == old(self).commitments_view().insert(
                    storage_commitment_id(),
                    c,
                )
            },
    {
        let blob_len = match latest_index(&self.blobs, request.content_ref.as_str()) {
            Some(i) => self.blobs[i].1.len(),
            None => {
                return Err(FieldError::EmptyField { field: "content_ref" });
            },
        };
        if blob_len as u64 != request.bytes {
            return Err(FieldError::InvalidFormat { field: "pin_commitment_bytes" });
        }
        let commitment = PinCommitment {
            commitment_id: PinCommitmentId(owned("pin-l3-1")),
            request,
            provider: copy_string(&self.default_offer.provider),
        };
        let stored = copy_commitment(&commitment);
        let key = owned("pin-l3-1");
        proof {
            lemma_entry_map_push(self.commitments@, key, stored);
        }
        self.commitments.push((key, stored));
        Ok(commitment)
    }

    /// Serves a retrieval through a commitment: the commitment must exist and
    /// the blob the request names must have been written; the fixed price
    /// must be within the request's maximum. The receipt names the committed
    /// content and its provider.
    pub fn retrieve(&self, request: RetrievalRequest) -> (r: Result<RetrievalReceipt, FieldError>)
        ensures
            !self.commitments_view().contains_key(request.commitment_id.0@) ==> r == Err::<
                RetrievalReceipt,
                FieldError,
            >(FieldError::EmptyField { field: "commitment_id" }),
            self.commitments_view().contains_key(request.commitment_id.0@)
                && !self.blobs_view().contains_key(request.content_ref@) ==> r == Err::<
                RetrievalReceipt,
                FieldError,
            >(FieldError::EmptyField { field: "content_ref" }),
            self.commitments_view().contains_key(request.commitment_id.0@)
                && self.blobs_view().contains_key(request.content_ref@) && RETRIEVAL_PRICE_SATS
                > request.max_price ==> r == Err::<RetrievalReceipt, FieldError>(
                FieldError::OutOfRange { field: "retrieval_price" },
            ),
            self.commitments_view().contains_key(request.commitment_id.0@)
                && self.blobs_view().contains_key(request.content_ref@) && RETRIEVAL_PRICE_SATS
                <= request.max_price ==> {
                let c = self.commitments_view()[request.commitment_id.0@];
                &&& r matches Ok(receipt)
                &&& receipt.request_id == request.request_id
                &&& receipt.content_ref == c.request.content_ref
                &&& receipt.served_by == c.provider
                &&& receipt.bytes_served == self.blobs_view()[request.content_ref@].len()
                &&& receipt.charged == RETRIEVAL_PRICE_SATS
            },
    {
        let ci = match latest_index(&self.commitments, request.commitment_id.0.as_str()) {
            Some(i) => i,
            None => {
                return Err(FieldError::EmptyField { field: "commitment_id" });
            },
        };
        let bytes_served = match latest_index(&self.blobs, request.content_ref.as_str()) {
            Some(i) => self.blobs[i].1.len(),
            None => {
                return Err(FieldError::EmptyField { field: "content_ref" });
            },
        };
        let charged = RETRIEVAL_PRICE_SATS;
        if charged > request.max_price {
            return Err(FieldError::OutOfRange { field: "retrieval_price" });
        }
        let commitment = &self.commitments[ci].1;
        Ok(RetrievalReceipt {
            request_id: request.request_id,
            content_ref: copy_string(&commitment.request.content_ref),
            served_by: copy_string(&commitment.provider),
            bytes_served: bytes_served as u64,
            charged,
        })
    }

    /// Replaces the retention policy of a commitment and returns the updated
    /// commitment.
    pub fn renew_retention(&mut self, commitment_id: PinCommitmentId, retention: RetentionPolicy) -> (r:
        Result<PinCommitment, FieldError>)
        ensures
            final(self).offers_view() == old(self).offers_view(),
            final(self).blobs_view() == old(self).blobs_view(),
            final(self).default_offer_view() == old(self).default_offer_view(),
            !old(self).commitments_view().contains_key(commitment_id.0@) ==> {
                &&& r == Err::<PinCommitment, FieldError>(FieldError::EmptyField { field: "commitment_id" })
                &&& final(self).commitments_view() == old(self).commitments_view()
            },
            old(self).commitments_view().contains_key(commitment_id.0@) ==> {
                let c = old(self).commitments_view()[commitment_id.0@];
                let renewed = (PinCommitment {
                    request: (PinCommitmentRequest { retention, ..c.request }),
                    ..c
                });
                &&& r == Ok::<PinCommitment, FieldError>(renewed)
                &&& final(self).commitments_view() == old(self).commitments_view().insert(
                    commitment_id.0@,
                    renewed,
                )
            },
    {
        let i = match latest_index(&self.commitments, commitment_id.0.as_str()) {
            Some(i) => i,
            None => {
                return Err(FieldError::EmptyField { field: "commitment_id" });
            },
        };
        let mut renewed = copy_commitment(&self.commitments[i].1);
        renewed.request.retention = retention;
        let stored = copy_commitment(&renewed);
        proof {
            lemma_entry_map_push(self.commitments@, commitment_id.0, stored);
        }
        self.commitments.push((commitment_id.0, stored));
        Ok(renewed)
    }
}

// ---------------------------------------------------------------------------
// The relay market.

/// A relay offer: its id, the operator's handle, its ingress and egress
/// URLs, what its hops can do, its privacy tiers and its price per hop.
#[derive(Debug, Clone, PartialEq, Eq)]
pub struct RelayOffer {
    pub offer_id: RelayOfferId,
    pub operator: String,
    pub ingress: String,
    pub egress: String,
    pub capabilities: Vec<HopCapability>,
    pub privacy_tiers: Vec<PrivacyTier>,
    pub price_per_hop: u128,
    pub settlement: SettlementIntent,
}

#[derive(Debug, Clone, PartialEq, Eq)]
pub struct PathLeaseRequest {
    pub requester: String,
    pub desired_hops: u8,
    pub required_capabilities: Vec<HopCapability>,
    pub privacy_tier: PrivacyTier,
    pub rotation: RotationPolicy,
    pub max_price: u128,
}

#[derive(Debug, Clone, PartialEq, Eq)]
pub struct RelayHop {
    pub operator: String,
    pub ingress: String,
    pub egress: String,
    pub capabilities: Vec<HopCapability>,
    pub price: u128,
}

#[derive(Debug, Clone, PartialEq, Eq)]
pub struct RelayPathLease {
    pub lease_id: PathLeaseId,
    pub requester: String,
    pub hops: Vec<RelayHop>,
    pub privacy_tier: PrivacyTier,
    pub rotation: RotationPolicy,
    pub settlement: SettlementIntent,
}

/// The mathematical form of a hop.
pub struct RelayHopView {
    pub operator: Seq<char>,
    pub ingress: Seq<char>,
    pub egress: Seq<char>,
    pub capabilities: Seq<HopCapability>,
    pub price: u128,
}

/// The mathematical form of a lease.
pub struct RelayPathLeaseView {
    pub lease_id: Seq<char>,
    pub requester: Seq<char>,
    pub hops: Seq<RelayHopView>,
    pub privacy_tier: PrivacyTier,
    pub rotation: RotationPolicy,
    pub settlement: SettlementIntent,
}

impl View for RelayHop {
    type V = RelayHopView;

    open spec fn view(&self) -> RelayHopView {
        RelayHopView {
            operator: self.operator@,
            ingress: self.ingress@,
            egress: self.egress@,
            capabilities: self.capabilities@,
            price: self.price,
        }
    }
}

impl View for RelayPathLease {
    type V = RelayPathLeaseView;

    open spec fn view(&self) -> RelayPathLeaseView {
        RelayPathLeaseView {
            lease_id: self.lease_id.0@,
            requester: self.requester@,
            hops: self.hops@.map_values(|h: RelayHop| h@),
            privacy_tier: self.privacy_tier,
            rotation: self.rotation,
            settlement: self.settlement,
        }
    }
}

#[derive(Debug, Clone, PartialEq, Eq)]
pub struct PerHopSettlement {
    pub lease_id: PathLeaseId,
    pub hop_index: u16,
    pub payee: String,
    pub amount: u128,
    pub receipt_ref: Option<String>,
}

fn copy_capabilities(v: &Vec<HopCapability>) -> (r: Vec<HopCapability>)
    ensures
        r@ == v@,
{
    let mut r: Vec<HopCapability> = Vec::new();
    let mut i: usize = 0;
    while i < v.len()
        invariant
            i <= v.len(),
            r@ == v@.subrange(0, i as int),
        decreases v.len() - i,
    {
        r.push(v[i]);
        i = i + 1;
        assert(r@ =~= v@.subrange(0, i as int));
    }
    assert(v@.subrange(0, v@.len() as int) =~= v@);
    r
}

fn copy_hop(h: &RelayHop) -> (r: RelayHop)
    ensures
        r@ == h@,
{
    let capabilities = copy_capabilities(&h.capabilities);
    RelayHop {
        operator: copy_string(&h.operator),
        ingress: copy_string(&h.ingress),
        egress: copy_string(&h.egress),
        capabilities,
        price: h.price,
    }
}

fn copy_lease(l: &RelayPathLease) -> (r: RelayPathLease)
    ensures
        r@ == l@,
{
    let mut hops: Vec<RelayHop> = Vec::new();
    let mut i: usize = 0;
    while i < l.hops.len()
        invariant
            i <= l.hops.len(),
            hops@.len() == i,
            forall|j: int| 0 <= j < i ==> #[trigger] hops@[j]@ == l.hops@[j]@,
        decreases l.hops.len() - i,
    {
        hops.push(copy_hop(&l.hops[i]));
        i = i + 1;
    }
    assert(hops@.map_values(|h: RelayHop| h@) =~= l.hops@.map_values(|h: RelayHop| h@));
    RelayPathLease {
        lease_id: PathLeaseId(copy_string(&l.lease_id.0)),
        requester: copy_string(&l.requester),
        hops,
        privacy_tier: l.privacy_tier,
        rotation: l.rotation,
        settlement: l.settlement,
    }
}

fn copy_messages(v: &Vec<String>) -> (r: Vec<String>)
    ensures
        r@ == v@,
{
    let mut r: Vec<String> = Vec::new();
    let mut i: usize = 0;
    while i < v.len()
        invariant
            i <= v.len(),
            r@ == v@.subrange(0, i as int),
        decreases v.len() - i,
    {
        r.push(copy_string(&v[i]));
        i = i + 1;
        assert(r@ =~= v@.subrange(0, i as int));
    }
    assert(v@.subrange(0, v@.len() as int) =~= v@);
    r
}

/// A relay market that leases one-hop paths over its default offer and
/// delivers the messages published on a leased path to its subscribers.
pub struct SyntheticRelayMarket {
    offers: Vec<RelayOffer>,
    leases: Vec<(String, RelayPathLease)>,
    subscriptions: Vec<(String, Vec<String>)>,
    default_offer: RelayOffer,
}

/// The id of the lease this market grants.
pub open spec fn relay_lease_id() -> Seq<char> {
    "relay-l3-1"@
}

/// The messages of a table of subscriptions, by lease id.
pub open spec fn message_map(entries: Seq<(String, Vec<String>)>) -> Map<Seq<char>, Seq<String>> {
    Map::new(
        |k: Seq<char>| entry_map(entries).contains_key(k),
        |k: Seq<char>| entry_map(entries)[k]@,
    )
}

/// The leases of a table, by lease id.
pub open spec fn lease_map(entries: Seq<(String, RelayPathLease)>) -> Map<Seq<char>, RelayPathLeaseView> {
    Map::new(
        |k: Seq<char>| entry_map(entries).contains_key(k),
        |k: Seq<char>| entry_map(entries)[k]@,
    )
}

proof fn lemma_lease_map_push(entries: Seq<(String, RelayPathLease)>, key: String, lease: RelayPathLease)
    ensures
        lease_map(entries.push((key, lease))) == lease_map(entries).insert(key@, lease@),
{
    lemma_entry_map_push(entries, key, lease);
    assert(lease_map(entries.push((key, lease))) =~= lease_map(entries).insert(key@, lease@));
}

/// Every capability the request needs is one the offer's hops have.
pub open spec fn capabilities_offered(required: Seq<HopCapability>, offered: Seq<HopCapability>) -> bool {
    forall|i: int| 0 <= i < required.len() ==> offered.contains(#[trigger] required[i])
}

/// The lease granted over `offer` for `request`: one hop on the offer's
/// operator, with the request's privacy tier and rotation, settled in
/// escrow up to the request's maximum price.
pub open spec fn lease_over(offer: RelayOffer, request: PathLeaseRequest) -> RelayPathLeaseView {
    RelayPathLeaseView {
        lease_id: relay_lease_id(),
        requester: request.requester@,
        hops: seq![
            RelayHopView {
                operator: offer.operator@,
                ingress: offer.ingress@,
                egress: offer.egress@,
                capabilities: offer.capabilities@,
                price: offer.price_per_hop,
            },
        ],
        privacy_tier: request.privacy_tier,
        rotation: request.rotation,
        settlement: SettlementIntent { max_price: request.max_price, escrow_required: true },
    }
}

fn all_offered(required: &Vec<HopCapability>, offered: &Vec<HopCapability>) -> (r: bool)
    ensures
        r == capabilities_offered(required@, offered@),
{
    let mut i: usize = 0;
    while i < required.len()
        invariant
            i <= required.len(),
            forall|j: int| 0 <= j < i ==> offered@.contains(#[trigger] required@[j]),
        decreases required.len() - i,
    {
        if !offers_capability(offered, required[i]) {
            return false;
        }
        i = i + 1;
    }
    true
}

fn offers_capability(offered: &Vec<HopCapability>, c: HopCapability) -> (r: bool)
    ensures
        r == offered@.contains(c),
{
    let mut i: usize = 0;
    while i < offered.len()
        invariant
            i <= offered.len(),
            forall|j: int| 0 <= j < i ==> offered@[j] != c,
        decreases offered.len() - i,
    {
        if offered[i] == c {
            assert(offered@[i as int] == c);
            return true;
        }
        i = i + 1;
    }
    false
}

impl SyntheticRelayMarket {
    pub closed spec fn offers_view(&self) -> Seq<RelayOffer> {
        self.offers@
    }

    /// The leases granted, by lease id.
    pub closed spec fn leases_view(&self) -> Map<Seq<char>, RelayPathLeaseView> {
        lease_map(self.leases@)
    }

    /// The messages delivered on each subscribed lease, in order.
    pub closed spec fn subscriptions_view(&self) -> Map<Seq<char>, Seq<String>> {
        message_map(self.subscriptions@)
    }

    pub closed spec fn default_offer_view(&self) -> RelayOffer {
        self.default_offer
    }

    pub fn new(default_offer: RelayOffer) -> (r: Self)
        ensures
            r.offers_view() == Seq::<RelayOffer>::empty(),
            r.leases_view() == Map::<Seq<char>, RelayPathLeaseView>::empty(),
            r.subscriptions_view() == Map::<Seq<char>, Seq<String>>::empty(),
            r.default_offer_view() == default_offer,
    {
        let r = SyntheticRelayMarket {
            offers: Vec::new(),
            leases: Vec::new(),
            subscriptions: Vec::new(),
            default_offer,
        };
        assert(r.leases_view() =~= Map::<Seq<char>, RelayPathLeaseView>::empty());
        assert(r.subscriptions_view() =~= Map::<Seq<char>, Seq<String>>::empty());
        r
    }

    /// Subscribes to a lease's messages; a lease already subscribed keeps
    /// the messages it has.
    pub fn subscribe(&mut self, lease_id: PathLeaseId)
        ensures
            final(self).offers_view() == old(self).offers_view(),
            final(self).leases_view() == old(self).leases_view(),
            final(self).default_offer_view() == old(self).default_offer_view(),
            old(self).subscriptions_view().contains_key(lease_id.0@) ==> final(self).subscriptions_view()
                == old(self).subscriptions_view(),
            !old(self).subscriptions_view().contains_key(lease_id.0@) ==> final(self).subscriptions_view()
                == old(self).subscriptions_view().insert(lease_id.0@, Seq::<String>::empty()),
    {
        if latest_index(&self.subscriptions, lease_id.0.as_str()).is_none() {
            let empty: Vec<String> = Vec::new();
            proof {
                lemma_entry_map_push(self.subscriptions@, lease_id.0, empty);
                let pushed = self.subscriptions@.push((lease_id.0, empty));
                assert(message_map(pushed) =~= message_map(self.subscriptions@).insert(
                    lease_id.0@,
                    Seq::<String>::empty(),
                ));
            }
            self.subscriptions.push((lease_id.0, empty));
        }
    }

    /// Publishes a message on a subscribed lease; a lease nobody subscribed
    /// to is refused.
    pub fn publish(&mut self, lease_id: PathLeaseId, body: &str) -> (r: Result<(), FieldError>)
        ensures
            final(self).offers_view() == old(self).offers_view(),
            final(self).leases_view() == old(self).leases_view(),
            final(self).default_offer_view() == old(self).default_offer_view(),
            !old(self).subscriptions_view().contains_key(lease_id.0@) ==> {
                &&& r == Err::<(), FieldError>(FieldError::EmptyField { field: "relay_subscription" })
                &&& final(self).subscriptions_view() == old(self).subscriptions_view()
            },
            old(self).subscriptions_view().contains_key(lease_id.0@) ==> {
                &&& r is Ok
                &&& exists|m: String|
                    m@ == body@ && final(self).subscriptions_view() == old(self).subscriptions_view().insert(
                        lease_id.0@,
                        #[trigger] old(self).subscriptions_view()[lease_id.0@].push(m),
                    )
            },
    {
        let i = match latest_index(&self.subscriptions, lease_id.0.as_str()) {
            Some(i) => i,
            None => {
                return Err(FieldError::EmptyField { field: "relay_subscription" });
            },
        };
        let mut messages = copy_messages(&self.subscriptions[i].1);
        let m = owned(body);
        messages.push(m);
        proof {
            lemma_entry_map_push(self.subscriptions@, lease_id.0, messages);
            let pushed = self.subscriptions@.push((lease_id.0, messages));
            assert(message_map(pushed) =~= message_map(self.subscriptions@).insert(
                lease_id.0@,
                message_map(self.subscriptions@)[lease_id.0@].push(m),
            ));
        }
        self.subscriptions.push((lease_id.0, messages));
        Ok(())
    }

    /// The messages delivered on a lease so far; none for a lease nobody
    /// subscribed to.
    pub fn messages_for(&self, lease_id: &PathLeaseId) -> (r: Vec<String>)
        ensures
            self.subscriptions_view().contains_key(lease_id.0@) ==> r@ == self.subscriptions_view()[lease_id.0@],
            !self.subscriptions_view().contains_key(lease_id.0@) ==> r@ == Seq::<String>::empty(),
    {
        match latest_index(&self.subscriptions, lease_id.0.as_str()) {
            Some(i) => copy_messages(&self.subscriptions[i].1),
            None => Vec::new(),
        }
    }

    /// Publishes an offer and returns its id.
    pub fn publish_offer(&mut self, offer: RelayOffer) -> (r: Result<RelayOfferId, FieldError>)
        ensures
            r == Ok::<RelayOfferId, FieldError>(offer.offer_id),
            final(self).offers_view() == old(self).offers_view().push(offer),
            final(self).leases_view() == old(self).leases_view(),
            final(self).subscriptions_view() == old(self).subscriptions_view(),
            final(self).default_offer_view() == old(self).default_offer_view(),
    {
        let offer_id = RelayOfferId(copy_string(&offer.offer_id.0));
        self.offers.push(offer);
        Ok(offer_id)
    }

    /// Leases a one-hop path over the default offer. A request for no hops,
    /// or for a capability the offer lacks, is refused.
    pub fn lease_path(&mut self, request: PathLeaseRequest) -> (r: Result<RelayPathLease, FieldError>)
        ensures
            final(self).offers_view() == old(self).offers_view(),
            final(self).subscriptions_view() == old(self).subscriptions_view(),
            final(self).default_offer_view() == old(self).default_offer_view(),
            request.desired_hops == 0 ==> {
                &&& r == Err::<RelayPathLease, FieldError>(FieldError::OutOfRange { field: "desired_hops" })
                &&& final(self).leases_view() == old(self).leases_view()
            },
            request.desired_hops != 0 && !capabilities_offered(
                request.required_capabilities@,
                old(self).default_offer_view().capabilities@,
            ) ==> {
                &&& r == Err::<RelayPathLease, FieldError>(
                    FieldError::InvalidFormat { field: "required_capabilities" },
                )
                &&& final(self).leases_view() == old(self).leases_view()
            },
            request.desired_hops != 0 && capabilities_offered(
                request.required_capabilities@,
                old(self).default_offer_view().capabilities@,
            ) ==> {
                &&& r matches Ok(lease)
                &&& lease@ == lease_over(old(self).default_offer_view(), request)
                &&& final(self).leases_view() == old(self).leases_view().insert(relay_lease_id(), lease@)
            },
    {
        if request.desired_hops == 0 {
            return Err(FieldError::OutOfRange { field: "desired_hops" });
        }
        if !all_offered(&request.required_capabilities, &self.default_offer.capabilities) {
            return Err(FieldError::InvalidFormat { field: "required_capabilities" });
        }
        let offer = &self.default_offer;
        let mut hops: Vec<RelayHop> = Vec::new();
        let capabilities = copy_capabilities(&offer.capabilities);
        hops.push(
            RelayHop {
                operator: copy_string(&offer.operator),
                ingress: copy_string(&offer.ingress),
                egress: copy_string(&offer.egress),
                capabilities,
                price: offer.price_per_hop,
            },
        );
        let lease = RelayPathLease {
            lease_id: PathLeaseId(owned("relay-l3-1")),
            requester: request.requester,
            hops,
            privacy_tier: request.privacy_tier,
            rotation: request.rotation,
            settlement: SettlementIntent { max_price: request.max_price, escrow_required: true },
        };
        let stored = copy_lease(&lease);
        let key = owned("relay-l3-1");
        proof {
            lemma_lease_map_push(self.leases@, key, stored);
            assert(lease@.hops =~= lease_over(self.default_offer, request).hops);
        }
        self.leases.push((key, stored));
        Ok(lease)
    }

    /// Replaces the rotation policy of a lease and returns the updated lease.
    pub fn rotate_path(&mut self, lease_id: PathLeaseId, policy: RotationPolicy) -> (r: Result<
        RelayPathLease,
        FieldError,
    >)
        ensures
            final(self).offers_view() == old(self).offers_view(),
            final(self).subscriptions_view() == old(self).subscriptions_view(),
            final(self).default_offer_view() == old(self).default_offer_view(),
            !old(self).leases_view().contains_key(lease_id.0@) ==> {
                &&& r == Err::<RelayPathLease, FieldError>(FieldError::EmptyField { field: "lease_id" })
                &&& final(self).leases_view() == old(self).leases_view()
            },
            old(self).leases_view().contains_key(lease_id.0@) ==> {
                let rotated = (RelayPathLeaseView {
                    rotation: policy,
                    ..old(self).leases_view()[lease_id.0@]
                });
                &&& r matches Ok(lease)
                &&& lease@ == rotated
                &&& final(self).leases_view() == old(self).leases_view().insert(lease_id.0@, rotated)
            },
    {
        let i = match latest_index(&self.leases, lease_id.0.as_str()) {
            Some(i) => i,
            None => {
                return Err(FieldError::EmptyField { field: "lease_id" });
            },
        };
        let mut rotated = copy_lease(&self.leases[i].1);
        rotated.rotation = policy;
        let stored = copy_lease(&rotated);
        proof {
            lemma_lease_map_push(self.leases@, lease_id.0, stored);
        }
        self.leases.push((lease_id.0, stored));
        Ok(rotated)
    }

    /// Settles one hop of a lease; a settlement of nothing is refused.
    pub fn settle_hop(&self, settlement: PerHopSettlement) -> (r: Result<(), FieldError>)
        ensures
            settlement.amount == 0 ==> r == Err::<(), FieldError>(
                FieldError::OutOfRange { field: "settlement_amount" },
            ),
            settlement.amount != 0 ==> r is Ok,
    {
        if settlement.amount == 0 {
            return Err(FieldError::OutOfRange { field: "settlement_amount" });
        }
        Ok(())
    }
}

// ---------------------------------------------------------------------------
// Queue admission.

/// How many jobs a provider's queue admits.
#[derive(Debug, Clone, Copy, PartialEq, Eq, Structural)]
pub struct QueueAdmission {
    pub max_depth: u32,
    pub max_concurrent_jobs: u32,
}

/// Admits one more job onto a queue `current_depth` deep: the queue must be
/// below its maximum depth and run at least one job at a time.
pub fn validate_admission(admission: &QueueAdmission, current_depth: u32) -> (r: Result<(), String>)
    ensures
        current_depth >= admission.max_depth ==> (r matches Err(e) && e@
            == "queue depth exceeded admission policy"@),
        current_depth < admission.max_depth && admission.max_concurrent_jobs == 0 ==> (r matches Err(e)
            && e@ == "queue admission allows zero concurrent jobs"@),
        current_depth < admission.max_depth && admission.max_concurrent_jobs != 0 ==> r is Ok,
{
    if current_depth >= admission.max_depth {
        return Err(owned("queue depth exceeded admission policy"));
    }
    if admission.max_concurrent_jobs == 0 {
        return Err(owned("queue admission allows zero concurrent jobs"));
    }
    Ok(())
}

} // verus!
