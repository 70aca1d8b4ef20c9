//! Consensus objects carried by gossip and by block batches, modelled as
//! plain values, together with their fixed-layout wire codec: every field is
//! one little-endian `u64` word, so each object kind has one fixed byte
//! length and decoding succeeds exactly on payloads of that length.

use vstd::bytes::{
    lemma_auto_spec_u64_to_from_le_bytes, spec_u64_from_le_bytes, spec_u64_to_le_bytes,
    u64_from_le_bytes, u64_to_le_bytes,
};
use vstd::prelude::*;
use vstd::slice::slice_subrange;

verus! {

/// The root (digest) of a consensus object.
#[derive(Clone, Copy, Debug, PartialEq, Eq, Structural)]
pub struct Root(pub u64);

/// Notification of a new block.
#[derive(Clone, Copy, Debug, PartialEq, Eq, Structural)]
pub struct BeaconBlock {
    pub slot: u64,
    pub parent_root: Root,
    pub state_root: Root,
}

/// A raw un-aggregated attestation.
#[derive(Clone, Copy, Debug, PartialEq, Eq, Structural)]
pub struct Attestation {
    pub slot: u64,
    pub committee_index: u64,
    pub beacon_block_root: Root,
}

/// An aggregate attestation with its selection proof.
#[derive(Clone, Copy, Debug, PartialEq, Eq, Structural)]
pub struct AggregateAndProof {
    pub aggregator_index: u64,
    pub aggregate: Attestation,
    pub selection_proof: u64,
}

/// A validator's voluntary exit from duty.
#[derive(Clone, Copy, Debug, PartialEq, Eq, Structural)]
pub struct VoluntaryExit {
    pub epoch: u64,
    pub validator_index: u64,
}

/// Evidence of a proposer signing two conflicting block headers.
#[derive(Clone, Copy, Debug, PartialEq, Eq, Structural)]
pub struct ProposerSlashing {
    pub proposer_index: u64,
    pub header_1: u64,
    pub header_2: u64,
}

/// Evidence of attesters signing two conflicting attestations.
#[derive(Clone, Copy, Debug, PartialEq, Eq, Structural)]
pub struct AttesterSlashing {
    pub attestation_1: Attestation,
    pub attestation_2: Attestation,
}

/// A block together with its proposer's signature, as downloaded in batches.
#[derive(Clone, Copy, Debug, PartialEq, Eq, Structural)]
pub struct SignedBeaconBlock {
    pub message: BeaconBlock,
    pub signature: u64,
}

pub const BLOCK_BYTES: usize = 24;

pub const ATTESTATION_BYTES: usize = 24;

pub const AGGREGATE_BYTES: usize = 40;

pub const EXIT_BYTES: usize = 16;

pub const PROPOSER_SLASHING_BYTES: usize = 24;

pub const ATTESTER_SLASHING_BYTES: usize = 48;

pub open spec fn spec_block_bytes(b: BeaconBlock) -> Seq<u8> {
    spec_u64_to_le_bytes(b.slot) + spec_u64_to_le_bytes(b.parent_root.0) + spec_u64_to_le_bytes(
        b.state_root.0,
    )
}

pub open spec fn spec_parse_block(d: Seq<u8>) -> BeaconBlock
    recommends
        d.len() == BLOCK_BYTES,
{
    BeaconBlock {
        slot: spec_u64_from_le_bytes(d.subrange(0, 8)),
        parent_root: Root(spec_u64_from_le_bytes(d.subrange(8, 16))),
        state_root: Root(spec_u64_from_le_bytes(d.subrange(16, 24))),
    }
}

pub open spec fn spec_attestation_bytes(a: Attestation) -> Seq<u8> {
    spec_u64_to_le_bytes(a.slot) + spec_u64_to_le_bytes(a.committee_index) + spec_u64_to_le_bytes(
        a.beacon_block_root.0,
    )
}

pub open spec fn spec_parse_attestation(d: Seq<u8>) -> Attestation
    recommends
        d.len() == ATTESTATION_BYTES,
{
    Attestation {
        slot: spec_u64_from_le_bytes(d.subrange(0, 8)),
        committee_index: spec_u64_from_le_bytes(d.subrange(8, 16)),
        beacon_block_root: Root(spec_u64_from_le_bytes(d.subrange(16, 24))),
    }
}

pub open spec fn spec_aggregate_bytes(a: AggregateAndProof) -> Seq<u8> {
    spec_u64_to_le_bytes(a.aggregator_index) + spec_attestation_bytes(a.aggregate)
        + spec_u64_to_le_bytes(a.selection_proof)
}

pub open spec fn spec_parse_aggregate(d: Seq<u8>) -> AggregateAndProof
    recommends
        d.len() == AGGREGATE_BYTES,
{
    AggregateAndProof {
        aggregator_index: spec_u64_from_le_bytes(d.subrange(0, 8)),
        aggregate: spec_parse_attestation(d.subrange(8, 32)),
        selection_proof: spec_u64_from_le_bytes(d.subrange(32, 40)),
    }
}

pub open spec fn spec_exit_bytes(e: VoluntaryExit) -> Seq<u8> {
    spec_u64_to_le_bytes(e.epoch) + spec_u64_to_le_bytes(e.validator_index)
}

pub open spec fn spec_parse_exit(d: Seq<u8>) -> VoluntaryExit
    recommends
        d.len() == EXIT_BYTES,
{
    VoluntaryExit {
        epoch: spec_u64_from_le_bytes(d.subrange(0, 8)),
        validator_index: spec_u64_from_le_bytes(d.subrange(8, 16)),
    }
}

pub open spec fn spec_proposer_slashing_bytes(p: ProposerSlashing) -> Seq<u8> {
    spec_u64_to_le_bytes(p.proposer_index) + spec_u64_to_le_bytes(p.header_1)
        + spec_u64_to_le_bytes(p.header_2)
}

pub open spec fn spec_parse_proposer_slashing(d: Seq<u8>) -> ProposerSlashing
    recommends
        d.len() == PROPOSER_SLASHING_BYTES,
{
    ProposerSlashing {
        proposer_index: spec_u64_from_le_bytes(d.subrange(0, 8)),
        header_1: spec_u64_from_le_bytes(d.subrange(8, 16)),
        header_2: spec_u64_from_le_bytes(d.subrange(16, 24)),
    }
}

pub open spec fn spec_attester_slashing_bytes(a: AttesterSlashing) -> Seq<u8> {
    spec_attestation_bytes(a.attestation_1) + spec_attestation_bytes(a.attestation_2)
}

pub open spec fn spec_parse_attester_slashing(d: Seq<u8>) -> AttesterSlashing
    recommends
        d.len() == ATTESTER_SLASHING_BYTES,
{
    AttesterSlashing {
        attestation_1: spec_parse_attestation(d.subrange(0, 24)),
        attestation_2: spec_parse_attestation(d.subrange(24, 48)),
    }
}

/// Appends the little-endian encoding of one word.
fn append_u64(out: &mut Vec<u8>, x: u64)
    ensures
        final(out)@ == old(out)@ + spec_u64_to_le_bytes(x),
{
    let mut b = u64_to_le_bytes(x);
    out.append(&mut b);
}

/// Reads the word encoded at byte offset `off`.
fn read_u64(d: &[u8], off: usize) -> (x: u64)
    requires
        off + 8 <= d@.len(),
    ensures
        x == spec_u64_from_le_bytes(d@.subrange(off as int, off as int + 8)),
{
    proof {
        assert(vstd::slice::spec_slice_len(d) == d@.len());
    }
    let s = slice_subrange(d, off, off + 8);
    u64_from_le_bytes(s)
}

pub fn encode_block(b: &BeaconBlock) -> (r: Vec<u8>)
    ensures
        r@ == spec_block_bytes(*b),
{
    let mut out: Vec<u8> = Vec::new();
    append_u64(&mut out, b.slot);
    append_u64(&mut out, b.parent_root.0);
    append_u64(&mut out, b.state_root.0);
    proof {
        assert(out@ =~= spec_block_bytes(*b));
    }
    out
}

pub fn decode_block(d: &[u8]) -> (r: Option<BeaconBlock>)
    ensures
        d@.len() == BLOCK_BYTES ==> r == Some(spec_parse_block(d@)),
        d@.len() != BLOCK_BYTES ==> r is None,
{
    if d.len() != BLOCK_BYTES {
        return None;
    }
    Some(
        BeaconBlock {
            slot: read_u64(d, 0),
            parent_root: Root(read_u64(d, 8)),
            state_root: Root(read_u64(d, 16)),
        },
    )
}

pub fn encode_attestation(a: &Attestation) -> (r: Vec<u8>)
    ensures
        r@ == spec_attestation_bytes(*a),
{
    let mut out: Vec<u8> = Vec::new();
    append_u64(&mut out, a.slot);
    append_u64(&mut out, a.committee_index);
    append_u64(&mut out, a.beacon_block_root.0);
    proof {
        assert(out@ =~= spec_attestation_bytes(*a));
    }
    out
}

pub fn decode_attestation(d: &[u8]) -> (r: Option<Attestation>)
    ensures
        d@.len() == ATTESTATION_BYTES ==> r == Some(spec_parse_attestation(d@)),
        d@.len() != ATTESTATION_BYTES ==> r is None,
{
    if d.len() != ATTESTATION_BYTES {
        return None;
    }
    Some(
        Attestation {
            slot: read_u64(d, 0),
            committee_index: read_u64(d, 8),
            beacon_block_root: Root(read_u64(d, 16)),
        },
    )
}

pub fn encode_aggregate(a: &AggregateAndProof) -> (r: Vec<u8>)
    ensures
        r@ == spec_aggregate_bytes(*a),
{
    let mut out: Vec<u8> = Vec::new();
    append_u64(&mut out, a.aggregator_index);
    append_u64(&mut out, a.aggregate.slot);
    append_u64(&mut out, a.aggregate.committee_index);
    append_u64(&mut out, a.aggregate.beacon_block_root.0);
    append_u64(&mut out, a.selection_proof);
    proof {
        assert(out@ =~= spec_aggregate_bytes(*a));
    }
    out
}

pub fn decode_aggregate(d: &[u8]) -> (r: Option<AggregateAndProof>)
    ensures
        d@.len() == AGGREGATE_BYTES ==> r == Some(spec_parse_aggregate(d@)),
        d@.len() != AGGREGATE_BYTES ==> r is None,
{
    if d.len() != AGGREGATE_BYTES {
        return None;
    }
    let r = AggregateAndProof {
        aggregator_index: read_u64(d, 0),
        aggregate: Attestation {
            slot: read_u64(d, 8),
            committee_index: read_u64(d, 16),
            beacon_block_root: Root(read_u64(d, 24)),
        },
        selection_proof: read_u64(d, 32),
    };
    proof {
        assert(d@.subrange(8, 32).subrange(0, 8) =~= d@.subrange(8, 16));
        assert(d@.subrange(8, 32).subrange(8, 16) =~= d@.subrange(16, 24));
        assert(d@.subrange(8, 32).subrange(16, 24) =~= d@.subrange(24, 32));
    }
    Some(r)
}

pub fn encode_exit(e: &VoluntaryExit) -> (r: Vec<u8>)
    ensures
        r@ == spec_exit_bytes(*e),
{
    let mut out: Vec<u8> = Vec::new();
    append_u64(&mut out, e.epoch);
    append_u64(&mut out, e.validator_index);
    proof {
        assert(out@ =~= spec_exit_bytes(*e));
    }
    out
}

pub fn decode_exit(d: &[u8]) -> (r: Option<VoluntaryExit>)
    ensures
        d@.len() == EXIT_BYTES ==> r == Some(spec_parse_exit(d@)),
        d@.len() != EXIT_BYTES ==> r is None,
{
    if d.len() != EXIT_BYTES {
        return None;
    }
    Some(VoluntaryExit { epoch: read_u64(d, 0), validator_index: read_u64(d, 8) })
}

pub fn encode_proposer_slashing(p: &ProposerSlashing) -> (r: Vec<u8>)
    ensures
        r@ == spec_proposer_slashing_bytes(*p),
{
    let mut out: Vec<u8> = Vec::new();
    append_u64(&mut out, p.proposer_index);
    append_u64(&mut out, p.header_1);
    append_u64(&mut out, p.header_2);
    proof {
        assert(out@ =~= spec_proposer_slashing_bytes(*p));
    }
    out
}

pub fn decode_proposer_slashing(d: &[u8]) -> (r: Option<ProposerSlashing>)
    ensures
        d@.len() == PROPOSER_SLASHING_BYTES ==> r == Some(spec_parse_proposer_slashing(d@)),
        d@.len() != PROPOSER_SLASHING_BYTES ==> r is None,
{
    if d.len() != PROPOSER_SLASHING_BYTES {
        return None;
    }
    Some(
        ProposerSlashing {
            proposer_index: read_u64(d, 0),
            header_1: read_u64(d, 8),
            header_2: read_u64(d, 16),
        },
    )
}

pub fn encode_attester_slashing(a: &AttesterSlashing) -> (r: Vec<u8>)
    ensures
        r@ == spec_attester_slashing_bytes(*a),
{
    let mut out: Vec<u8> = Vec::new();
    append_u64(&mut out, a.attestation_1.slot);
    append_u64(&mut out, a.attestation_1.committee_index);
    append_u64(&mut out, a.attestation_1.beacon_block_root.0);
    append_u64(&mut out, a.attestation_2.slot);
    append_u64(&mut out, a.attestation_2.committee_index);
    append_u64(&mut out, a.attestation_2.beacon_block_root.0);
    proof {
        assert(out@ =~= spec_attester_slashing_bytes(*a));
    }
    out
}

pub fn decode_attester_slashing(d: &[u8]) -> (r: Option<AttesterSlashing>)
    ensures
        d@.len() == ATTESTER_SLASHING_BYTES ==> r == Some(spec_parse_attester_slashing(d@)),
        d@.len() != ATTESTER_SLASHING_BYTES ==> r is None,
{
    if d.len() != ATTESTER_SLASHING_BYTES {
        return None;
    }
    let r = AttesterSlashing {
        attestation_1: Attestation {
            slot: read_u64(d, 0),
            committee_index: read_u64(d, 8),
            beacon_block_root: Root(read_u64(d, 16)),
        },
        attestation_2: Attestation {
            slot: read_u64(d, 24),
            committee_index: read_u64(d, 32),
            beacon_block_root: Root(read_u64(d, 40)),
        },
    };
    proof {
        assert(d@.subrange(0, 24).subrange(0, 8) =~= d@.subrange(0, 8));
        assert(d@.subrange(0, 24).subrange(8, 16) =~= d@.subrange(8, 16));
        assert(d@.subrange(0, 24).subrange(16, 24) =~= d@.subrange(16, 24));
        assert(d@.subrange(24, 48).subrange(0, 8) =~= d@.subrange(24, 32));
        assert(d@.subrange(24, 48).subrange(8, 16) =~= d@.subrange(32, 40));
        assert(d@.subrange(24, 48).subrange(16, 24) =~= d@.subrange(40, 48));
    }
    Some(r)
}

/// Law: parsing the encoding of an attestation yields it back.
pub proof fn lemma_attestation_round_trip(a: Attestation)
    ensures
        spec_attestation_bytes(a).len() == ATTESTATION_BYTES,
        spec_parse_attestation(spec_attestation_bytes(a)) == a,
{
    lemma_auto_spec_u64_to_from_le_bytes();
    let d = spec_attestation_bytes(a);
    assert(d.subrange(0, 8) =~= spec_u64_to_le_bytes(a.slot));
    assert(d.subrange(8, 16) =~= spec_u64_to_le_bytes(a.committee_index));
    assert(d.subrange(16, 24) =~= spec_u64_to_le_bytes(a.beacon_block_root.0));
}

/// Law: parsing the encoding of a block yields it back.
pub proof fn lemma_block_round_trip(b: BeaconBlock)
    ensures
        spec_block_bytes(b).len() == BLOCK_BYTES,
        spec_parse_block(spec_block_bytes(b)) == b,
{
    lemma_auto_spec_u64_to_from_le_bytes();
    let d = spec_block_bytes(b);
    assert(d.subrange(0, 8) =~= spec_u64_to_le_bytes(b.slot));
    assert(d.subrange(8, 16) =~= spec_u64_to_le_bytes(b.parent_root.0));
    assert(d.subrange(16, 24) =~= spec_u64_to_le_bytes(b.state_root.0));
}

/// Law: parsing the encoding of an aggregate yields it back.
pub proof fn lemma_aggregate_round_trip(a: AggregateAndProof)
    ensures
        spec_aggregate_bytes(a).len() == AGGREGATE_BYTES,
        spec_parse_aggregate(spec_aggregate_bytes(a)) == a,
{
    lemma_auto_spec_u64_to_from_le_bytes();
    lemma_attestation_round_trip(a.aggregate);
    let d = spec_aggregate_bytes(a);
    assert(d.subrange(0, 8) =~= spec_u64_to_le_bytes(a.aggregator_index));
    assert(d.subrange(8, 32) =~= spec_attestation_bytes(a.aggregate));
    assert(d.subrange(32, 40) =~= spec_u64_to_le_bytes(a.selection_proof));
}

/// Law: parsing the encoding of an exit yields it back.
pub proof fn lemma_exit_round_trip(e: VoluntaryExit)
    ensures
        spec_exit_bytes(e).len() == EXIT_BYTES,
        spec_parse_exit(spec_exit_bytes(e)) == e,
{
    lemma_auto_spec_u64_to_from_le_bytes();
    let d = spec_exit_bytes(e);
    assert(d.subrange(0, 8) =~= spec_u64_to_le_bytes(e.epoch));
    assert(d.subrange(8, 16) =~= spec_u64_to_le_bytes(e.validator_index));
}

/// Law: parsing the encoding of a proposer slashing yields it back.
pub proof fn lemma_proposer_slashing_round_trip(p: ProposerSlashing)
    ensures
        spec_proposer_slashing_bytes(p).len() == PROPOSER_SLASHING_BYTES,
        spec_parse_proposer_slashing(spec_proposer_slashing_bytes(p)) == p,
{
    lemma_auto_spec_u64_to_from_le_bytes();
    let d = spec_proposer_slashing_bytes(p);
    assert(d.subrange(0, 8) =~= spec_u64_to_le_bytes(p.proposer_index));
    assert(d.subrange(8, 16) =~= spec_u64_to_le_bytes(p.header_1));
    assert(d.subrange(16, 24) =~= spec_u64_to_le_bytes(p.header_2));
}

/// Law: parsing the encoding of an attester slashing yields it back.
pub proof fn lemma_attester_slashing_round_trip(a: AttesterSlashing)
    ensures
        spec_attester_slashing_bytes(a).len() == ATTESTER_SLASHING_BYTES,
        spec_parse_attester_slashing(spec_attester_slashing_bytes(a)) == a,
{
    lemma_attestation_round_trip(a.attestation_1);
    lemma_attestation_round_trip(a.attestation_2);
    let d = spec_attester_slashing_bytes(a);
    assert(d.subrange(0, 24) =~= spec_attestation_bytes(a.attestation_1));
    assert(d.subrange(24, 48) =~= spec_attestation_bytes(a.attestation_2));
}

} // verus!
