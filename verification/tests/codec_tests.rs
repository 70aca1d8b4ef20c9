use beacon_sync::objects::{
    decode_aggregate, decode_attestation, decode_attester_slashing, decode_block, decode_exit,
    decode_proposer_slashing, encode_aggregate, encode_attestation, encode_attester_slashing,
    encode_block, encode_exit, encode_proposer_slashing, AggregateAndProof, Attestation,
    AttesterSlashing, BeaconBlock, ProposerSlashing, Root, VoluntaryExit,
};

#[test]
fn block_bytes_are_little_endian_words() {
    let b = BeaconBlock { slot: 1, parent_root: Root(2), state_root: Root(0x0304) };
    let bytes = encode_block(&b);
    let expected = vec![
        1u8, 0, 0, 0, 0, 0, 0, 0, // slot
        2, 0, 0, 0, 0, 0, 0, 0, // parent root
        4, 3, 0, 0, 0, 0, 0, 0, // state root
    ];
    assert_eq!(bytes, expected);
    assert_eq!(decode_block(bytes.as_slice()), Some(b));
}

#[test]
fn decode_rejects_wrong_lengths() {
    assert_eq!(decode_block(&[0u8; 23]), None);
    assert_eq!(decode_block(&[0u8; 25]), None);
    assert_eq!(decode_block(&[]), None);
    assert_eq!(decode_exit(&[0u8; 24]), None);
    assert_eq!(decode_aggregate(&[0u8; 24]), None);
    assert_eq!(decode_attester_slashing(&[0u8; 40]), None);
    assert_eq!(decode_proposer_slashing(&[0u8; 16]), None);
}

#[test]
fn every_object_codec_round_trips() {
    let att1 = Attestation { slot: 7, committee_index: 8, beacon_block_root: Root(9) };
    let att2 = Attestation {
        slot: u64::MAX,
        committee_index: 0,
        beacon_block_root: Root(u64::MAX),
    };
    assert_eq!(decode_attestation(encode_attestation(&att1).as_slice()), Some(att1));
    assert_eq!(decode_attestation(encode_attestation(&att2).as_slice()), Some(att2));

    let agg = AggregateAndProof { aggregator_index: 1, aggregate: att1, selection_proof: 2 };
    assert_eq!(decode_aggregate(encode_aggregate(&agg).as_slice()), Some(agg));

    let exit = VoluntaryExit { epoch: 3, validator_index: 4 };
    assert_eq!(decode_exit(encode_exit(&exit).as_slice()), Some(exit));

    let ps = ProposerSlashing { proposer_index: 5, header_1: 6, header_2: 7 };
    assert_eq!(
        decode_proposer_slashing(encode_proposer_slashing(&ps).as_slice()),
        Some(ps)
    );

    let asl = AttesterSlashing { attestation_1: att1, attestation_2: att2 };
    assert_eq!(
        decode_attester_slashing(encode_attester_slashing(&asl).as_slice()),
        Some(asl)
    );
}
