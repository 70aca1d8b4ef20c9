use beacon_sync::objects::{
    AggregateAndProof, Attestation, AttesterSlashing, BeaconBlock, ProposerSlashing, Root,
    VoluntaryExit,
};
use beacon_sync::pubsub::{PubsubError, PubsubMessage};
use beacon_sync::topic::{GossipEncoding, GossipKind, GossipTopic, SubnetId};

fn topic_for(kind: GossipKind) -> String {
    GossipTopic { kind, encoding: GossipEncoding::SSZ }.render()
}

fn sample_attestation() -> Attestation {
    Attestation { slot: 3, committee_index: 4, beacon_block_root: Root(5) }
}

fn sample_messages() -> Vec<(GossipKind, PubsubMessage)> {
    vec![
        (
            GossipKind::BeaconBlock,
            PubsubMessage::BeaconBlock(BeaconBlock {
                slot: 1,
                parent_root: Root(2),
                state_root: Root(3),
            }),
        ),
        (
            GossipKind::BeaconAggregateAndProof,
            PubsubMessage::AggregateAndProofAttestation(AggregateAndProof {
                aggregator_index: 9,
                aggregate: sample_attestation(),
                selection_proof: 11,
            }),
        ),
        (
            GossipKind::CommitteeIndex(SubnetId(6)),
            PubsubMessage::Attestation(SubnetId(6), sample_attestation()),
        ),
        (
            GossipKind::VoluntaryExit,
            PubsubMessage::VoluntaryExit(VoluntaryExit { epoch: 20, validator_index: 21 }),
        ),
        (
            GossipKind::ProposerSlashing,
            PubsubMessage::ProposerSlashing(ProposerSlashing {
                proposer_index: 30,
                header_1: 31,
                header_2: 32,
            }),
        ),
        (
            GossipKind::AttesterSlashing,
            PubsubMessage::AttesterSlashing(AttesterSlashing {
                attestation_1: sample_attestation(),
                attestation_2: Attestation {
                    slot: 40,
                    committee_index: 41,
                    beacon_block_root: Root(42),
                },
            }),
        ),
    ]
}

#[test]
fn decode_inverts_encode_for_every_kind() {
    for (kind, msg) in sample_messages() {
        let bytes = msg.encode(&GossipEncoding::SSZ);
        let topics = vec![String::from("/unrelated/topic"), topic_for(kind)];
        assert_eq!(PubsubMessage::decode(&topics, bytes.as_slice()), Ok(msg));
    }
}

#[test]
fn first_match_wins_with_unknown_before_known() {
    let block = PubsubMessage::BeaconBlock(BeaconBlock {
        slot: 8,
        parent_root: Root(9),
        state_root: Root(10),
    });
    let bytes = block.encode(&GossipEncoding::SSZ);
    let topics = vec![String::from("not_a_topic"), topic_for(GossipKind::BeaconBlock)];
    assert_eq!(PubsubMessage::decode(&topics, bytes.as_slice()), Ok(block));
}

#[test]
fn first_match_wins_with_known_before_unknown() {
    let block = PubsubMessage::BeaconBlock(BeaconBlock {
        slot: 8,
        parent_root: Root(9),
        state_root: Root(10),
    });
    let bytes = block.encode(&GossipEncoding::SSZ);
    let topics = vec![topic_for(GossipKind::BeaconBlock), String::from("not_a_topic")];
    assert_eq!(PubsubMessage::decode(&topics, bytes.as_slice()), Ok(block));
}

#[test]
fn all_unknown_topics_are_listed_in_the_error() {
    let topics = vec![
        String::from("first_mystery"),
        String::from("/eth2/beacon_blocks/ssz"),
        String::from("third_mystery"),
    ];
    let data = vec![0u8; 24];
    match PubsubMessage::decode(&topics, data.as_slice()) {
        Err(PubsubError::UnknownTopics(list)) => assert_eq!(list, topics),
        other => panic!("expected the unknown-topic list, got {:?}", other),
    }
}

#[test]
fn malformed_bytes_under_known_topic_fail_hard() {
    // Truncated payload under a resolvable BeaconBlock topic: a hard decode
    // failure, even though a later topic in the set would also resolve.
    let topics = vec![
        topic_for(GossipKind::BeaconBlock),
        topic_for(GossipKind::VoluntaryExit),
    ];
    let truncated = vec![1u8, 2, 3, 4, 5];
    assert_eq!(
        PubsubMessage::decode(&topics, truncated.as_slice()),
        Err(PubsubError::DecodeFailure)
    );
    // A payload of the exit's length still fails under the block topic: the
    // call never falls through to the next topic.
    let exit_sized = vec![0u8; 16];
    assert_eq!(
        PubsubMessage::decode(&topics, exit_sized.as_slice()),
        Err(PubsubError::DecodeFailure)
    );
}

#[test]
fn subnet_comes_from_the_topic() {
    let att = sample_attestation();
    let msg = PubsubMessage::Attestation(SubnetId(6), att);
    let bytes = msg.encode(&GossipEncoding::SSZ);
    let topics = vec![topic_for(GossipKind::CommitteeIndex(SubnetId(51)))];
    assert_eq!(
        PubsubMessage::decode(&topics, bytes.as_slice()),
        Ok(PubsubMessage::Attestation(SubnetId(51), att))
    );
}
