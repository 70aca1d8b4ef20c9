use beacon_sync::topic::{GossipEncoding, GossipKind, GossipTopic, SubnetId};

fn ok_kind(s: &str) -> GossipKind {
    let t = GossipTopic::resolve(s).expect("topic should resolve");
    assert_eq!(t.encoding, GossipEncoding::SSZ);
    t.kind
}

#[test]
fn resolve_fixed_kinds() {
    assert_eq!(ok_kind("/eth2/beacon_block/ssz"), GossipKind::BeaconBlock);
    assert_eq!(
        ok_kind("/eth2/beacon_aggregate_and_proof/ssz"),
        GossipKind::BeaconAggregateAndProof
    );
    assert_eq!(ok_kind("/eth2/voluntary_exit/ssz"), GossipKind::VoluntaryExit);
    assert_eq!(ok_kind("/eth2/proposer_slashing/ssz"), GossipKind::ProposerSlashing);
    assert_eq!(ok_kind("/eth2/attester_slashing/ssz"), GossipKind::AttesterSlashing);
}

#[test]
fn resolve_committee_index() {
    assert_eq!(
        ok_kind("/eth2/committee_index0_beacon_attestation/ssz"),
        GossipKind::CommitteeIndex(SubnetId(0))
    );
    assert_eq!(
        ok_kind("/eth2/committee_index37_beacon_attestation/ssz"),
        GossipKind::CommitteeIndex(SubnetId(37))
    );
    // The largest index that fits, 20 digits.
    assert_eq!(
        ok_kind("/eth2/committee_index18446744073709551615_beacon_attestation/ssz"),
        GossipKind::CommitteeIndex(SubnetId(u64::MAX))
    );
    // Leading zeroes are accepted.
    assert_eq!(
        ok_kind("/eth2/committee_index007_beacon_attestation/ssz"),
        GossipKind::CommitteeIndex(SubnetId(7))
    );
}

#[test]
fn resolve_rejects_strings_outside_the_grammar() {
    assert!(GossipTopic::resolve("").is_err());
    assert!(GossipTopic::resolve("/eth2//ssz").is_err());
    assert!(GossipTopic::resolve("beacon_block").is_err());
    assert!(GossipTopic::resolve("/eth2/beacon_block").is_err());
    assert!(GossipTopic::resolve("/eth2/beacon_block/gz").is_err());
    assert!(GossipTopic::resolve("/eth3/beacon_block/ssz").is_err());
    assert!(GossipTopic::resolve("/eth2/beacon_blocks/ssz").is_err());
    assert!(GossipTopic::resolve("/eth2/beacon_block/ssz/").is_err());
    // No digits at all in the committee family.
    assert!(GossipTopic::resolve("/eth2/committee_index_beacon_attestation/ssz").is_err());
    // A non-digit inside the index.
    assert!(GossipTopic::resolve("/eth2/committee_index5x_beacon_attestation/ssz").is_err());
    // One past the largest index that fits a u64.
    assert!(
        GossipTopic::resolve("/eth2/committee_index18446744073709551616_beacon_attestation/ssz")
            .is_err()
    );
    // Far too many digits.
    assert!(GossipTopic::resolve(
        "/eth2/committee_index99999999999999999999999_beacon_attestation/ssz"
    )
    .is_err());
}

#[test]
fn render_strings() {
    let t = GossipTopic { kind: GossipKind::BeaconBlock, encoding: GossipEncoding::SSZ };
    assert_eq!(t.render(), "/eth2/beacon_block/ssz");
    let c = GossipTopic {
        kind: GossipKind::CommitteeIndex(SubnetId(12)),
        encoding: GossipEncoding::SSZ,
    };
    assert_eq!(c.render(), "/eth2/committee_index12_beacon_attestation/ssz");
}

#[test]
fn render_then_resolve_round_trips() {
    let kinds = vec![
        GossipKind::BeaconBlock,
        GossipKind::BeaconAggregateAndProof,
        GossipKind::CommitteeIndex(SubnetId(0)),
        GossipKind::CommitteeIndex(SubnetId(64)),
        GossipKind::CommitteeIndex(SubnetId(u64::MAX)),
        GossipKind::VoluntaryExit,
        GossipKind::ProposerSlashing,
        GossipKind::AttesterSlashing,
    ];
    for kind in kinds {
        let t = GossipTopic { kind, encoding: GossipEncoding::SSZ };
        let s = t.render();
        assert_eq!(GossipTopic::resolve(s.as_str()), Ok(t));
    }
}
