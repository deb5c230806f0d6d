use wire_substrate::cross_graph::ref_mid_slug;
use wire_substrate::field_error::FieldError;
use wire_substrate::two_graph::{
    statement_signature_bytes, GraphKind, MasterPublicKey, MasterSignature,
    ReputationSnapshotStatement, SignatureAlgorithm, SyntheticBridge, SyntheticContribution,
    SyntheticGraph, SyntheticMasterAuthority, SyntheticProvider,
};

fn master_key() -> MasterPublicKey {
    MasterPublicKey {
        key_id: "master-key-1".to_owned(),
        algorithm: SignatureAlgorithm::Ed25519,
        bytes: vec![7; 32],
    }
}

fn statement_bytes(statement: &ReputationSnapshotStatement) -> Vec<u8> {
    format!(
        "{}|{}|{}|{}",
        statement.namespace, statement.registry, statement.source_ref, statement.score
    )
    .into_bytes()
}

/// The signature algorithm written with the standard library's rotate and
/// byte-order helpers.
fn reference_signature(key: &MasterPublicKey, statement: &[u8]) -> Vec<u8> {
    let mut bytes = statement.to_vec();
    bytes.extend_from_slice(key.key_id.as_bytes());
    bytes.push(match key.algorithm {
        SignatureAlgorithm::Ed25519 => 1,
        SignatureAlgorithm::Secp256k1 => 2,
    });
    bytes.extend_from_slice(&key.bytes);
    let mut acc = 0xA5A5_5A5A_D3C3_B2B2_u64;
    for byte in bytes {
        acc = acc.rotate_left(5) ^ u64::from(byte);
        acc = acc.wrapping_mul(0x100_0000_01B3);
    }
    let mut signature = Vec::with_capacity(64);
    for round in 0..8_u64 {
        signature.extend_from_slice(&acc.wrapping_add(round).to_le_bytes());
    }
    signature
}

fn export(
    graph: &SyntheticGraph,
    signer: &SyntheticMasterAuthority,
    key: &MasterPublicKey,
    source_ref: &str,
) -> wire_substrate::two_graph::SyntheticReputationSnapshot {
    let statement = graph.reputation_statement(key, source_ref);
    let signature = signer.sign(&statement_bytes(&statement));
    graph
        .export_reputation_snapshot(key, source_ref, signature)
        .unwrap()
}

fn verdict(
    signer: &SyntheticMasterAuthority,
    key: &MasterPublicKey,
    snapshot: &wire_substrate::two_graph::SyntheticReputationSnapshot,
) -> Result<(), FieldError> {
    signer.verify(
        key,
        &statement_bytes(&snapshot.statement()),
        &snapshot.signature,
    )
}

#[test]
fn signature_matches_rotate_and_little_endian_layout() {
    let key = master_key();
    let statement = b"{\"handle\":\"agent/playful/kramer\"}";
    let signature = statement_signature_bytes(&key, statement);
    assert_eq!(signature.len(), 64);
    assert_eq!(signature, reference_signature(&key, statement));
    let other = MasterPublicKey {
        algorithm: SignatureAlgorithm::Secp256k1,
        ..master_key()
    };
    assert_eq!(
        statement_signature_bytes(&other, statement),
        reference_signature(&other, statement)
    );
    assert_ne!(statement_signature_bytes(&other, statement), signature);
}

#[test]
fn signature_of_empty_material_is_fixed() {
    let key = MasterPublicKey {
        key_id: String::new(),
        algorithm: SignatureAlgorithm::Ed25519,
        bytes: Vec::new(),
    };
    let signature = statement_signature_bytes(&key, &[]);
    // digest of the single algorithm byte 1
    let acc = 0xA5A5_5A5A_D3C3_B2B2_u64.rotate_left(5) ^ 1;
    let acc = acc.wrapping_mul(0x100_0000_01B3);
    assert_eq!(&signature[0..8], &acc.to_le_bytes());
    assert_eq!(&signature[56..64], &acc.wrapping_add(7).to_le_bytes());
}

#[test]
fn identity_claim_signature_verifies_under_master_key() {
    let key = master_key();
    let signer = SyntheticMasterAuthority::new(key.clone());
    let claim = b"handle=agent/playful/kramer;namespace=playful";
    let signature = signer.sign(claim).unwrap();
    assert_eq!(signature.key_id, "master-key-1");
    assert_eq!(signer.verify(&key, claim, &signature), Ok(()));
}

#[test]
fn verify_refuses_wrong_key_empty_and_forged_signatures() {
    let key = master_key();
    let signer = SyntheticMasterAuthority::new(key.clone());
    let statement = b"statement";
    let good = signer.sign(statement).unwrap();

    let wrong_key = MasterSignature {
        key_id: "other".to_owned(),
        ..good.clone()
    };
    assert_eq!(
        signer.verify(&key, statement, &wrong_key),
        Err(FieldError::InvalidFormat {
            field: "master_signature"
        })
    );
    let wrong_alg = MasterSignature {
        algorithm: SignatureAlgorithm::Secp256k1,
        ..good.clone()
    };
    assert_eq!(
        signer.verify(&key, statement, &wrong_alg),
        Err(FieldError::InvalidFormat {
            field: "master_signature"
        })
    );
    let empty = MasterSignature {
        bytes: Vec::new(),
        ..good.clone()
    };
    assert_eq!(
        signer.verify(&key, statement, &empty),
        Err(FieldError::EmptyField {
            field: "master_signature"
        })
    );
    assert_eq!(
        signer.verify(&key, b"statemenT", &good),
        Err(FieldError::InvalidFormat {
            field: "master_signature"
        })
    );
}

#[test]
fn reputation_snapshot_at_onboarding() {
    let key = master_key();
    let signer = SyntheticMasterAuthority::new(key.clone());
    let mut mainnet = SyntheticGraph::new("mainnet", GraphKind::Public);
    let mut kitty = SyntheticGraph::new("kitty", GraphKind::Sovereign);

    mainnet.set_reputation(&key, 750);
    let snapshot = export(&mainnet, &signer, &key, "playful/123/mainnet/1");
    assert_eq!(snapshot.registry, "mainnet_rep");
    assert_eq!(snapshot.namespace, "playful");
    let verified = verdict(&signer, &key, &snapshot);
    kitty
        .import_reputation_snapshot(&key, snapshot, verified)
        .unwrap();
    assert_eq!(kitty.snapshot_score(&key), Some(750));
}

#[test]
fn reputation_snapshot_import_is_one_shot() {
    let key = master_key();
    let signer = SyntheticMasterAuthority::new(key.clone());
    let mut mainnet = SyntheticGraph::new("mainnet", GraphKind::Public);
    let mut kitty = SyntheticGraph::new("kitty", GraphKind::Sovereign);
    mainnet.set_reputation(&key, 750);
    let first = export(&mainnet, &signer, &key, "playful/123/mainnet/1");
    let verified = verdict(&signer, &key, &first);
    kitty.import_reputation_snapshot(&key, first, verified).unwrap();

    mainnet.set_reputation(&key, 860);
    let duplicate = export(&mainnet, &signer, &key, "playful/123/mainnet/2");
    let verified = verdict(&signer, &key, &duplicate);
    assert_eq!(
        kitty.import_reputation_snapshot(&key, duplicate, verified),
        Err("SnapshotAlreadyImported".to_owned())
    );
    assert_eq!(kitty.snapshot_score(&key), Some(750));

    let mut tampered = export(&mainnet, &signer, &key, "playful/123/mainnet/3");
    tampered.score = 9_999;
    let verified = verdict(&signer, &key, &tampered);
    assert!(verified.is_err());
    let mut attacker = SyntheticGraph::new("attacker", GraphKind::Sovereign);
    assert_eq!(
        attacker.import_reputation_snapshot(&key, tampered, verified),
        Err("SnapshotSignatureInvalid".to_owned())
    );
    assert_eq!(attacker.snapshot_score(&key), None);
}

#[test]
fn mainnet_reputation_evolution_does_not_propagate() {
    let key = master_key();
    let signer = SyntheticMasterAuthority::new(key.clone());
    let mut mainnet = SyntheticGraph::new("mainnet", GraphKind::Public);
    let mut kitty = SyntheticGraph::new("kitty", GraphKind::Sovereign);
    mainnet.set_reputation(&key, 750);
    let snapshot = export(&mainnet, &signer, &key, "playful/123/mainnet/1");
    let verified = verdict(&signer, &key, &snapshot);
    kitty.import_reputation_snapshot(&key, snapshot, verified).unwrap();

    let before = kitty.snapshot_score(&key);
    mainnet.set_reputation(&key, 910);
    kitty.add_local_reputation(&key, -25);
    assert_eq!(kitty.snapshot_score(&key), before);
    assert_eq!(kitty.reputation_score(&key), -25);
    assert_eq!(mainnet.reputation_score(&key), 910);
}

fn contribution(ref_id: &str, body: &str, release: bool) -> SyntheticContribution {
    SyntheticContribution {
        ref_id: ref_id.to_owned(),
        author: "agent/playful/scout-3".to_owned(),
        body: body.to_owned(),
        release_to_mainnet: release,
        bridged_from: None,
    }
}

#[test]
fn kitty_release_to_mainnet_surfaces_via_bridge() {
    let bridge = SyntheticBridge::sovereign_mode();
    let mut mainnet = SyntheticGraph::new("mainnet", GraphKind::Public);
    let mut kitty = SyntheticGraph::new("kitty", GraphKind::Sovereign);
    kitty.publish_contribution(contribution(
        "playful/123/kitty/7",
        "synthetic kitty insight",
        true,
    ));
    let mirrored = bridge
        .release_to_mainnet(&kitty, &mut mainnet, "playful/123/kitty/7")
        .unwrap();
    assert!(mainnet.has_contribution("playful/123/kitty/7"));
    assert_eq!(mirrored.bridged_from, Some("kitty".to_owned()));
    assert_eq!(mirrored.body, "synthetic kitty insight");
}

#[test]
fn release_refusals_name_their_reason() {
    let bridge = SyntheticBridge::sovereign_mode();
    let mut mainnet = SyntheticGraph::new("mainnet", GraphKind::Public);
    let mut kitty = SyntheticGraph::new("kitty", GraphKind::Sovereign);
    kitty.publish_contribution(contribution("playful/123/kitty/1", "private", false));
    kitty.publish_contribution(contribution("playful/123/kitty/2", "   ", true));
    let mut anonymous = contribution("playful/123/kitty/3", "text", true);
    anonymous.author = String::new();
    kitty.publish_contribution(anonymous);
    kitty.publish_contribution(contribution("playful/123/mainnet/4", "text", true));

    let refuse = |mainnet: &mut SyntheticGraph, r: &str| {
        bridge.release_to_mainnet(&kitty, mainnet, r).unwrap_err()
    };
    assert_eq!(
        refuse(&mut mainnet, "playful/123/kitty/9"),
        "source contribution not found"
    );
    assert_eq!(
        refuse(&mut mainnet, "playful/123/kitty/1"),
        "contribution is not releasable to mainnet"
    );
    assert_eq!(
        refuse(&mut mainnet, "playful/123/kitty/2"),
        "released contribution body is empty"
    );
    assert_eq!(
        refuse(&mut mainnet, "playful/123/kitty/3"),
        "released contribution author is empty"
    );
    assert_eq!(
        refuse(&mut mainnet, "playful/123/mainnet/4"),
        "released contribution does not use the source graph mid-slug"
    );
    assert!(mainnet.contributions.is_empty());
}

#[test]
fn kitty_to_mainnet_credit_transfer_incurs_bridge_tax() {
    let bridge = SyntheticBridge::sovereign_mode();
    let mut mainnet = SyntheticGraph::new("mainnet", GraphKind::Public);
    let mut kitty = SyntheticGraph::new("kitty", GraphKind::Sovereign);
    let transfer = bridge.transfer_credits("kitty", "mainnet", 1_000).unwrap();
    assert_eq!((transfer.gross, transfer.bridge_tax, transfer.net), (1_000, 20, 980));
    kitty.debit(1_000).unwrap();
    mainnet.credit(transfer.net);
    assert_eq!(kitty.credit_balance, 9_000);
    assert_eq!(mainnet.credit_balance, 10_980);
}

#[test]
fn debit_beyond_balance_is_refused_and_credit_saturates() {
    let mut graph = SyntheticGraph::new("kitty", GraphKind::Sovereign);
    assert_eq!(
        graph.debit(10_001),
        Err("insufficient graph balance".to_owned())
    );
    assert_eq!(graph.credit_balance, 10_000);
    graph.credit(u128::MAX);
    assert_eq!(graph.credit_balance, 10_000);
    graph.credit(5);
    assert_eq!(graph.credit_balance, 10_005);
}

fn provider(handle: &str, key_id: &str) -> SyntheticProvider {
    SyntheticProvider {
        handle: handle.to_owned(),
        master_key: MasterPublicKey {
            key_id: key_id.to_owned(),
            ..master_key()
        },
        model_id: "wire-demo-model".to_owned(),
    }
}

#[test]
fn mainnet_compute_job_fulfilled_by_kitty_provider() {
    let bridge = SyntheticBridge::sovereign_mode();
    let mut kitty = SyntheticGraph::new("kitty", GraphKind::Sovereign);
    let scout = provider("agent/playful/scout-3", "master-key-1");
    kitty.providers.push(scout.clone());
    kitty.set_reputation(&scout.master_key, 40);

    let receipt = bridge
        .dispatch_compute_to_kitty("playful/123/mainnet/20", "wire-demo-model", &mut kitty)
        .unwrap();
    assert_eq!(receipt.job_ref, "playful/123/mainnet/20");
    assert_eq!(receipt.result_ref, "playful/123/kitty/21");
    assert_eq!(receipt.charged, 64);
    assert!(kitty.has_completion(&receipt.result_ref));

    assert_eq!(
        bridge.dispatch_compute_to_kitty("playful/123/mainnet/21", "other-model", &mut kitty),
        Err("no kitty provider can fulfill model".to_owned())
    );
}

#[test]
fn mainnet_provider_reputation_does_not_steer_kitty_dispatch() {
    let mut mainnet = SyntheticGraph::new("mainnet", GraphKind::Public);
    let mut kitty = SyntheticGraph::new("kitty", GraphKind::Sovereign);
    let high_mainnet = provider("agent/playful/scout-3", "master-key-1");
    let kitty_local = provider("agent/playful/kitty-local-provider", "kitty-local-provider");
    mainnet.set_reputation(&high_mainnet.master_key, 999);
    kitty.set_reputation(&high_mainnet.master_key, 5);
    mainnet.set_reputation(&kitty_local.master_key, 1);
    kitty.set_reputation(&kitty_local.master_key, 80);
    kitty.providers = vec![high_mainnet, kitty_local.clone()];

    let selected = kitty
        .select_provider_by_local_reputation("wire-demo-model")
        .unwrap();
    assert_eq!(selected.handle, kitty_local.handle);
}

#[test]
fn provider_selection_takes_last_of_equal_scores() {
    let mut kitty = SyntheticGraph::new("kitty", GraphKind::Sovereign);
    kitty.providers = vec![
        provider("agent/playful/a", "key-a"),
        provider("agent/playful/b", "key-b"),
    ];
    let selected = kitty
        .select_provider_by_local_reputation("wire-demo-model")
        .unwrap();
    assert_eq!(selected.handle, "agent/playful/b");
    assert!(kitty.select_provider_by_local_reputation("none").is_none());
}

#[test]
fn bridge_severed_graphs_independent() {
    let key = master_key();
    let mut bridge = SyntheticBridge::sovereign_mode();
    let mut mainnet = SyntheticGraph::new("mainnet", GraphKind::Public);
    let mut kitty = SyntheticGraph::new("kitty", GraphKind::Sovereign);
    mainnet.set_reputation(&key, 910);
    let mainnet_before = mainnet.reputation_score(&key);
    bridge.connected = false;
    kitty.publish_contribution(contribution(
        "playful/123/kitty/30",
        "private graph local success",
        true,
    ));
    mainnet.publish_contribution(contribution(
        "playful/123/mainnet/31",
        "mainnet local success",
        false,
    ));
    kitty.add_local_reputation(&key, 25);
    assert_eq!(
        bridge.release_to_mainnet(&kitty, &mut mainnet, "playful/123/kitty/30"),
        Err("bridge is disconnected".to_owned())
    );
    assert!(kitty.has_contribution("playful/123/kitty/30"));
    assert!(mainnet.has_contribution("playful/123/mainnet/31"));
    assert!(!mainnet.has_contribution("playful/123/kitty/30"));
    assert_eq!(mainnet.reputation_score(&key), mainnet_before);
    assert_eq!(
        bridge.dispatch_compute_to_kitty("playful/123/mainnet/20", "wire-demo-model", &mut kitty),
        Err("bridge is disconnected".to_owned())
    );
}

#[test]
fn identity_claim_with_master_signature() {
    let key = master_key();
    let signer = SyntheticMasterAuthority::new(key.clone());
    let mainnet = SyntheticGraph::new("mainnet", GraphKind::Public);
    let kitty = SyntheticGraph::new("kitty", GraphKind::Sovereign);

    let claim = format!(
        "handle=agent/playful/kramer;namespace={};key={}",
        mainnet.namespace, key.key_id
    );
    let signed_claim = signer.sign(claim.as_bytes()).unwrap();
    assert_eq!(signer.verify(&key, claim.as_bytes(), &signed_claim), Ok(()));
    assert_eq!(kitty.graph_kind, GraphKind::Sovereign);

    let alias = format!(
        "alias=agent/playful/scout-3;public=agent/playful/kramer;namespace={}",
        kitty.namespace
    );
    let signed_alias = signer.sign(alias.as_bytes()).unwrap();
    assert_eq!(signer.verify(&key, alias.as_bytes(), &signed_alias), Ok(()));

    assert_eq!(
        ref_mid_slug("playful/123/kitty/7"),
        Some("kitty".to_owned())
    );
    assert_eq!(ref_mid_slug("playful/123/kitty"), None);
    assert_eq!(ref_mid_slug("not a ref"), None);
}
