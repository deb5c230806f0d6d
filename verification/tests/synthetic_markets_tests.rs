use wire_substrate::field_error::FieldError;
use wire_substrate::substrate::{
    HopCapability, PathLeaseId, PinCommitmentId, PrivacyTier, RelayOfferId, ReplicationFactor,
    RetentionPolicy, RetrievalRequestId, RotationPolicy, StorageOfferId,
};
use wire_substrate::synthetic_markets::{
    validate_admission, CapacityAllocation, PathLeaseRequest, PriceCurve, PerHopSettlement, PinCommitmentRequest, QueueAdmission,
    RelayOffer, RetrievalRequest, SettlementIntent, StorageOffer, SyntheticRelayMarket,
    SyntheticStorageMarket,
};

const ONE_MB_DECIMAL: usize = 1_000_000;

fn storage_offer(capacity_bytes: u64) -> StorageOffer {
    StorageOffer {
        offer_id: StorageOfferId("storage-offer-1".to_owned()),
        provider: "agent/playful/storage".to_owned(),
        capacity_bytes,
        capacity_allocation: Vec::new(),
        price: PriceCurve {
            base: 10,
            per_unit: 2,
        },
        replication: ReplicationFactor(3),
        retention: RetentionPolicy {
            minimum_seconds: 86_400,
            renew_before_expiry_seconds: Some(3_600),
        },
        settlement: SettlementIntent {
            max_price: 100,
            escrow_required: true,
        },
    }
}

fn pin_request(content_ref: &str, bytes: u64) -> PinCommitmentRequest {
    PinCommitmentRequest {
        offer_id: StorageOfferId("storage-offer-1".to_owned()),
        requester: "agent/playful/operator".to_owned(),
        content_ref: content_ref.to_owned(),
        bytes,
        replication: ReplicationFactor(3),
        retention: RetentionPolicy {
            minimum_seconds: 86_400,
            renew_before_expiry_seconds: Some(3_600),
        },
        settlement: SettlementIntent {
            max_price: 20,
            escrow_required: true,
        },
    }
}

fn retrieval(commitment_id: &str, content_ref: &str, max_price: u128) -> RetrievalRequest {
    RetrievalRequest {
        request_id: RetrievalRequestId("retrieve-l3-1".to_owned()),
        commitment_id: PinCommitmentId(commitment_id.to_owned()),
        requester: "agent/playful/operator".to_owned(),
        content_ref: content_ref.to_owned(),
        max_price,
    }
}

#[test]
fn storage_one_mb_write_read() {
    let mut market = SyntheticStorageMarket::new(storage_offer(10 * ONE_MB_DECIMAL as u64));
    let content_ref = "playful/122/storage/1";
    market
        .write_blob(content_ref.to_owned(), vec![0xAB; ONE_MB_DECIMAL])
        .unwrap();
    assert_eq!(
        market.publish_offer(storage_offer(10 * ONE_MB_DECIMAL as u64)),
        Ok(StorageOfferId("storage-offer-1".to_owned()))
    );
    let commitment = market
        .commit_pin(pin_request(content_ref, ONE_MB_DECIMAL as u64))
        .unwrap();
    assert_eq!(commitment.commitment_id.0, "pin-l3-1");
    assert_eq!(commitment.provider, "agent/playful/storage");

    let receipt = market
        .retrieve(retrieval("pin-l3-1", content_ref, 20))
        .unwrap();
    assert_eq!(receipt.bytes_served, ONE_MB_DECIMAL as u64);
    assert_eq!(receipt.charged, 7);
    assert_eq!(receipt.content_ref, content_ref);
    assert_eq!(receipt.served_by, "agent/playful/storage");
    assert_eq!(receipt.request_id, RetrievalRequestId("retrieve-l3-1".to_owned()));
}

#[test]
fn storage_refuses_blob_over_capacity() {
    let mut market = SyntheticStorageMarket::new(storage_offer(4));
    assert_eq!(
        market.write_blob("playful/122/storage/2".to_owned(), vec![1, 2, 3, 4, 5]),
        Err(FieldError::OutOfRange {
            field: "storage_blob_bytes"
        })
    );
    assert_eq!(
        market.write_blob("playful/122/storage/2".to_owned(), vec![1, 2, 3, 4]),
        Ok(())
    );
}

#[test]
fn storage_commit_needs_written_blob_of_stated_size() {
    let mut market = SyntheticStorageMarket::new(storage_offer(100));
    assert_eq!(
        market.commit_pin(pin_request("playful/122/storage/3", 3)),
        Err(FieldError::EmptyField {
            field: "content_ref"
        })
    );
    market
        .write_blob("playful/122/storage/3".to_owned(), vec![9, 9, 9])
        .unwrap();
    assert_eq!(
        market.commit_pin(pin_request("playful/122/storage/3", 4)),
        Err(FieldError::InvalidFormat {
            field: "pin_commitment_bytes"
        })
    );
    assert!(market
        .commit_pin(pin_request("playful/122/storage/3", 3))
        .is_ok());
}

#[test]
fn storage_retrieval_errors() {
    let mut market = SyntheticStorageMarket::new(storage_offer(100));
    assert_eq!(
        market.retrieve(retrieval("pin-l3-1", "playful/122/storage/4", 20)),
        Err(FieldError::EmptyField {
            field: "commitment_id"
        })
    );
    market
        .write_blob("playful/122/storage/4".to_owned(), vec![1; 10])
        .unwrap();
    market
        .commit_pin(pin_request("playful/122/storage/4", 10))
        .unwrap();
    assert_eq!(
        market.retrieve(retrieval("pin-l3-1", "playful/122/storage/5", 20)),
        Err(FieldError::EmptyField {
            field: "content_ref"
        })
    );
    assert_eq!(
        market.retrieve(retrieval("pin-l3-1", "playful/122/storage/4", 6)),
        Err(FieldError::OutOfRange {
            field: "retrieval_price"
        })
    );
    assert_eq!(
        market
            .retrieve(retrieval("pin-l3-1", "playful/122/storage/4", 7))
            .unwrap()
            .bytes_served,
        10
    );
}

#[test]
fn storage_rewrite_replaces_blob() {
    let mut market = SyntheticStorageMarket::new(storage_offer(100));
    market
        .write_blob("playful/122/storage/6".to_owned(), vec![1; 10])
        .unwrap();
    market
        .write_blob("playful/122/storage/6".to_owned(), vec![1; 20])
        .unwrap();
    assert!(market
        .commit_pin(pin_request("playful/122/storage/6", 10))
        .is_err());
    assert!(market
        .commit_pin(pin_request("playful/122/storage/6", 20))
        .is_ok());
}

#[test]
fn storage_renew_retention_updates_commitment() {
    let mut market = SyntheticStorageMarket::new(storage_offer(100));
    let renewed_policy = RetentionPolicy {
        minimum_seconds: 172_800,
        renew_before_expiry_seconds: None,
    };
    assert_eq!(
        market.renew_retention(PinCommitmentId("pin-l3-1".to_owned()), renewed_policy),
        Err(FieldError::EmptyField {
            field: "commitment_id"
        })
    );
    market
        .write_blob("playful/122/storage/7".to_owned(), vec![0; 5])
        .unwrap();
    let commitment = market
        .commit_pin(pin_request("playful/122/storage/7", 5))
        .unwrap();
    let renewed = market
        .renew_retention(PinCommitmentId("pin-l3-1".to_owned()), renewed_policy)
        .unwrap();
    assert_eq!(renewed.request.retention, renewed_policy);
    assert_eq!(renewed.request.content_ref, commitment.request.content_ref);
    assert_eq!(renewed.provider, commitment.provider);
}

fn relay_offer() -> RelayOffer {
    RelayOffer {
        offer_id: RelayOfferId("relay-offer-1".to_owned()),
        operator: "agent/playful/relay".to_owned(),
        ingress: "https://relay.example/ingress".to_owned(),
        egress: "https://relay.example/tunnel".to_owned(),
        capabilities: vec![HopCapability::HttpTunnel, HopCapability::EventStream],
        privacy_tiers: vec![PrivacyTier::Shielded, PrivacyTier::Onion],
        price_per_hop: 25,
        settlement: SettlementIntent {
            max_price: 100,
            escrow_required: true,
        },
    }
}

fn lease_request(hops: u8, required: Vec<HopCapability>) -> PathLeaseRequest {
    PathLeaseRequest {
        requester: "agent/playful/operator".to_owned(),
        desired_hops: hops,
        required_capabilities: required,
        privacy_tier: PrivacyTier::Direct,
        rotation: RotationPolicy {
            rotate_after_seconds: 300,
            max_reuses: 10,
        },
        max_price: 12,
    }
}

#[test]
fn relay_subscribe_publish() {
    let mut market = SyntheticRelayMarket::new(relay_offer());
    assert_eq!(
        market.publish_offer(relay_offer()),
        Ok(RelayOfferId("relay-offer-1".to_owned()))
    );
    let lease = market
        .lease_path(lease_request(1, vec![HopCapability::EventStream]))
        .unwrap();
    assert_eq!(lease.lease_id, PathLeaseId("relay-l3-1".to_owned()));
    assert_eq!(lease.hops.len(), 1);
    assert_eq!(lease.hops[0].operator, "agent/playful/relay");
    assert_eq!(lease.hops[0].price, 25);
    assert_eq!(lease.settlement.max_price, 12);
    assert!(lease.settlement.escrow_required);

    market.subscribe(lease.lease_id.clone());
    market
        .publish(lease.lease_id.clone(), "synthetic-relay-ping")
        .unwrap();
    assert_eq!(
        market.messages_for(&lease.lease_id),
        vec!["synthetic-relay-ping".to_owned()]
    );
}

#[test]
fn relay_publish_needs_subscription_and_keeps_order() {
    let mut market = SyntheticRelayMarket::new(relay_offer());
    let lease_id = PathLeaseId("relay-l3-1".to_owned());
    assert_eq!(
        market.publish(lease_id.clone(), "lost"),
        Err(FieldError::EmptyField {
            field: "relay_subscription"
        })
    );
    assert!(market.messages_for(&lease_id).is_empty());
    market.subscribe(lease_id.clone());
    market.publish(lease_id.clone(), "first").unwrap();
    market.subscribe(lease_id.clone());
    market.publish(lease_id.clone(), "second").unwrap();
    assert_eq!(
        market.messages_for(&lease_id),
        vec!["first".to_owned(), "second".to_owned()]
    );
}

#[test]
fn relay_lease_refusals() {
    let mut market = SyntheticRelayMarket::new(relay_offer());
    assert_eq!(
        market.lease_path(lease_request(0, vec![])),
        Err(FieldError::OutOfRange {
            field: "desired_hops"
        })
    );
    assert_eq!(
        market.lease_path(lease_request(
            2,
            vec![HopCapability::EventStream, HopCapability::StoreAndForward]
        )),
        Err(FieldError::InvalidFormat {
            field: "required_capabilities"
        })
    );
}

#[test]
fn relay_rotate_path_replaces_policy() {
    let mut market = SyntheticRelayMarket::new(relay_offer());
    let policy = RotationPolicy {
        rotate_after_seconds: 60,
        max_reuses: 2,
    };
    assert_eq!(
        market.rotate_path(PathLeaseId("relay-l3-1".to_owned()), policy),
        Err(FieldError::EmptyField { field: "lease_id" })
    );
    let lease = market
        .lease_path(lease_request(1, vec![HopCapability::HttpTunnel]))
        .unwrap();
    let rotated = market.rotate_path(lease.lease_id.clone(), policy).unwrap();
    assert_eq!(rotated.rotation, policy);
    assert_eq!(rotated.hops, lease.hops);
    assert_eq!(rotated.requester, lease.requester);
}

#[test]
fn relay_settle_hop_refuses_zero_amount() {
    let market = SyntheticRelayMarket::new(relay_offer());
    let settlement = |amount| PerHopSettlement {
        lease_id: PathLeaseId("lease-1".to_owned()),
        hop_index: 1,
        payee: "agent/playful/relay".to_owned(),
        amount,
        receipt_ref: Some("playful/122/relay/1".to_owned()),
    };
    assert_eq!(
        market.settle_hop(settlement(0)),
        Err(FieldError::OutOfRange {
            field: "settlement_amount"
        })
    );
    assert_eq!(market.settle_hop(settlement(12)), Ok(()));
}

#[test]
fn queue_admission_checks_depth_then_concurrency() {
    let admission = QueueAdmission {
        max_depth: 64,
        max_concurrent_jobs: 4,
    };
    assert_eq!(validate_admission(&admission, 0), Ok(()));
    assert_eq!(
        validate_admission(&admission, 64),
        Err("queue depth exceeded admission policy".to_owned())
    );
    let stalled = QueueAdmission {
        max_depth: 64,
        max_concurrent_jobs: 0,
    };
    assert_eq!(
        validate_admission(&stalled, 1),
        Err("queue admission allows zero concurrent jobs".to_owned())
    );
}

#[test]
fn relay_offer_declares_capabilities_privacy_and_settlement() {
    let offer = RelayOffer {
        offer_id: RelayOfferId("relay-offer-1".to_owned()),
        operator: "agent/playful/relay".to_owned(),
        ingress: "https://relay.example/ingress".to_owned(),
        egress: "https://relay.example/tunnel".to_owned(),
        capabilities: vec![HopCapability::HttpTunnel, HopCapability::EventStream],
        privacy_tiers: vec![PrivacyTier::Shielded, PrivacyTier::Onion],
        price_per_hop: 25,
        settlement: SettlementIntent {
            max_price: 100,
            escrow_required: true,
        },
    };

    assert!(offer.capabilities.contains(&HopCapability::EventStream));
    assert!(offer.privacy_tiers.contains(&PrivacyTier::Onion));
    assert_eq!(offer.price_per_hop, 25);
}

#[test]
fn per_hop_settlement_can_cite_receipt_ref() {
    let settlement = PerHopSettlement {
        lease_id: PathLeaseId("lease-1".to_owned()),
        hop_index: 1,
        payee: "agent/playful/relay".to_owned(),
        amount: 12,
        receipt_ref: Some("playful/122/relay/1".to_owned()),
    };

    assert_eq!(settlement.hop_index, 1);
    assert_eq!(settlement.receipt_ref.unwrap(), "playful/122/relay/1");
}

#[test]
fn storage_offer_carries_capacity_retention_and_settlement() {
    let offer = StorageOffer {
        offer_id: StorageOfferId("offer-1".to_owned()),
        provider: "agent/playful/storage".to_owned(),
        capacity_bytes: 1_000_000,
        capacity_allocation: vec![CapacityAllocation {
            graph: "kitty".to_owned(),
            reserved_bytes: 250_000,
        }],
        price: PriceCurve {
            base: 10,
            per_unit: 2,
        },
        replication: ReplicationFactor(3),
        retention: RetentionPolicy {
            minimum_seconds: 86_400,
            renew_before_expiry_seconds: Some(3_600),
        },
        settlement: SettlementIntent {
            max_price: 1_000,
            escrow_required: true,
        },
    };

    assert_eq!(offer.capacity_allocation[0].graph.as_str(), "kitty");
    assert_eq!(offer.replication, ReplicationFactor(3));
    assert!(offer.settlement.escrow_required);
}

#[test]
fn pin_commitment_request_names_cross_graph_content() {
    let request = PinCommitmentRequest {
        offer_id: StorageOfferId("offer-1".to_owned()),
        requester: "agent/playful/kramer".to_owned(),
        content_ref: "playful/122/storage/1".to_owned(),
        bytes: 512,
        replication: ReplicationFactor(2),
        retention: RetentionPolicy {
            minimum_seconds: 600,
            renew_before_expiry_seconds: None,
        },
        settlement: SettlementIntent {
            max_price: 40,
            escrow_required: false,
        },
    };

    assert_eq!(request.content_ref.to_string(), "playful/122/storage/1");
    assert_eq!(request.bytes, 512);
}
