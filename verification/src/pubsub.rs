//! Encoding and decoding of pubsub gossip messages.
//!
//! A payload arrives tagged with a set of topic identifiers. The first topic
//! that resolves to a known descriptor determines the decode path; remaining
//! topics are not consulted. Malformed bytes under a resolved topic are a
//! hard failure, while a set with no resolvable topic is a routing miss that
//! reports every unresolved identifier.

use vstd::prelude::*;

use crate::objects::{
    decode_aggregate, decode_attestation, decode_attester_slashing, decode_block, decode_exit,
    decode_proposer_slashing, encode_aggregate, encode_attestation, encode_attester_slashing,
    encode_block, encode_exit, encode_proposer_slashing, lemma_aggregate_round_trip,
    lemma_attestation_round_trip, lemma_attester_slashing_round_trip, lemma_block_round_trip,
    lemma_exit_round_trip, lemma_proposer_slashing_round_trip, spec_aggregate_bytes,
    spec_attestation_bytes, spec_attester_slashing_bytes, spec_block_bytes, spec_exit_bytes,
    spec_parse_aggregate, spec_parse_attestation, spec_parse_attester_slashing, spec_parse_block,
    spec_parse_exit, spec_parse_proposer_slashing, spec_proposer_slashing_bytes,
    AggregateAndProof, Attestation, AttesterSlashing, BeaconBlock, ProposerSlashing,
    VoluntaryExit, AGGREGATE_BYTES, ATTESTATION_BYTES, ATTESTER_SLASHING_BYTES, BLOCK_BYTES,
    EXIT_BYTES, PROPOSER_SLASHING_BYTES,
};
use crate::topic::{spec_resolve_topic, GossipEncoding, GossipKind, GossipTopic, SubnetId};

verus! {

/// A message passed to or from the pubsub behaviour, one variant per
/// consensus-gossip kind. The variant always matches the topic kind it was
/// decoded from.
#[derive(Clone, Copy, Debug, PartialEq, Eq, Structural)]
pub enum PubsubMessage {
    BeaconBlock(BeaconBlock),
    AggregateAndProofAttestation(AggregateAndProof),
    Attestation(SubnetId, Attestation),
    VoluntaryExit(VoluntaryExit),
    ProposerSlashing(ProposerSlashing),
    AttesterSlashing(AttesterSlashing),
}

/// Why a payload could not be decoded.
#[derive(Clone, Debug, PartialEq)]
pub enum PubsubError {
    /// Malformed bytes under a resolved topic: a protocol violation.
    DecodeFailure,
    /// No topic of the set resolved; every unresolved identifier is listed.
    UnknownTopics(Vec<String>),
}

/// The outcome a decode call must produce, at the specification level.
pub enum DecodeOutcome {
    Message(PubsubMessage),
    Malformed,
    Unknown(Seq<Seq<char>>),
}

/// The index of the first topic that resolves, or -1 when none does.
pub open spec fn first_known(ts: Seq<Seq<char>>) -> int
    decreases ts.len(),
{
    if ts.len() == 0 {
        -1
    } else if spec_resolve_topic(ts[0]) is Some {
        0
    } else {
        let r = first_known(ts.drop_first());
        if r == -1 {
            -1
        } else {
            r + 1
        }
    }
}

/// The payload decode for one resolved kind; the payload must carry exactly
/// one object of that kind's fixed length.
pub open spec fn spec_decode_payload(kind: GossipKind, d: Seq<u8>) -> Option<PubsubMessage> {
    match kind {
        GossipKind::BeaconBlock => if d.len() == BLOCK_BYTES {
            Some(PubsubMessage::BeaconBlock(spec_parse_block(d)))
        } else {
            None
        },
        GossipKind::BeaconAggregateAndProof => if d.len() == AGGREGATE_BYTES {
            Some(PubsubMessage::AggregateAndProofAttestation(spec_parse_aggregate(d)))
        } else {
            None
        },
        GossipKind::CommitteeIndex(sid) => if d.len() == ATTESTATION_BYTES {
            Some(PubsubMessage::Attestation(sid, spec_parse_attestation(d)))
        } else {
            None
        },
        GossipKind::VoluntaryExit => if d.len() == EXIT_BYTES {
            Some(PubsubMessage::VoluntaryExit(spec_parse_exit(d)))
        } else {
            None
        },
        GossipKind::ProposerSlashing => if d.len() == PROPOSER_SLASHING_BYTES {
            Some(PubsubMessage::ProposerSlashing(spec_parse_proposer_slashing(d)))
        } else {
            None
        },
        GossipKind::AttesterSlashing => if d.len() == ATTESTER_SLASHING_BYTES {
            Some(PubsubMessage::AttesterSlashing(spec_parse_attester_slashing(d)))
        } else {
            None
        },
    }
}

/// What decoding a payload under a topic set yields: the first resolving
/// topic decides, and with no resolving topic the whole set is reported.
pub open spec fn spec_decode_model(ts: Seq<Seq<char>>, d: Seq<u8>) -> DecodeOutcome {
    let i = first_known(ts);
    if i == -1 {
        DecodeOutcome::Unknown(ts)
    } else {
        match spec_decode_payload(spec_resolve_topic(ts[i]).unwrap().kind, d) {
            Some(m) => DecodeOutcome::Message(m),
            None => DecodeOutcome::Malformed,
        }
    }
}

/// The bytes a message encodes to.
pub open spec fn spec_encode_message(m: PubsubMessage) -> Seq<u8> {
    match m {
        PubsubMessage::BeaconBlock(b) => spec_block_bytes(b),
        PubsubMessage::AggregateAndProofAttestation(a) => spec_aggregate_bytes(a),
        PubsubMessage::Attestation(_, a) => spec_attestation_bytes(a),
        PubsubMessage::VoluntaryExit(e) => spec_exit_bytes(e),
        PubsubMessage::ProposerSlashing(p) => spec_proposer_slashing_bytes(p),
        PubsubMessage::AttesterSlashing(a) => spec_attester_slashing_bytes(a),
    }
}

/// The topic kind a message belongs under.
pub open spec fn spec_message_kind(m: PubsubMessage) -> GossipKind {
    match m {
        PubsubMessage::BeaconBlock(_) => GossipKind::BeaconBlock,
        PubsubMessage::AggregateAndProofAttestation(_) => GossipKind::BeaconAggregateAndProof,
        PubsubMessage::Attestation(sid, _) => GossipKind::CommitteeIndex(sid),
        PubsubMessage::VoluntaryExit(_) => GossipKind::VoluntaryExit,
        PubsubMessage::ProposerSlashing(_) => GossipKind::ProposerSlashing,
        PubsubMessage::AttesterSlashing(_) => GossipKind::AttesterSlashing,
    }
}

/// When no topic resolves, the first resolving index is -1; otherwise it is
/// in range and resolves.
pub proof fn lemma_first_known_bounds(ts: Seq<Seq<char>>)
    ensures
        first_known(ts) == -1 || (0 <= first_known(ts) < ts.len() && spec_resolve_topic(
            ts[first_known(ts)],
        ) is Some),
    decreases ts.len(),
{
    if ts.len() > 0 && spec_resolve_topic(ts[0]) is None {
        lemma_first_known_bounds(ts.drop_first());
    }
}

/// The first resolving index is the first index that resolves.
pub proof fn lemma_first_known_at(ts: Seq<Seq<char>>, i: int)
    requires
        0 <= i < ts.len(),
        spec_resolve_topic(ts[i]) is Some,
        forall|j: int| 0 <= j < i ==> spec_resolve_topic(#[trigger] ts[j]) is None,
    ensures
        first_known(ts) == i,
    decreases i,
{
    if i > 0 {
        lemma_first_known_at(ts.drop_first(), i - 1);
    }
}

/// With no resolving topic there is no first resolving index.
pub proof fn lemma_first_known_none(ts: Seq<Seq<char>>)
    requires
        forall|j: int| 0 <= j < ts.len() ==> spec_resolve_topic(#[trigger] ts[j]) is None,
    ensures
        first_known(ts) == -1,
    decreases ts.len(),
{
    if ts.len() > 0 {
        lemma_first_known_none(ts.drop_first());
    }
}

impl PubsubMessage {
    /// Decodes the payload delivered under a set of topic identifiers. The
    /// first identifier that resolves determines the decode path; malformed
    /// bytes under it fail the call, and if no identifier resolves the full
    /// list of unresolved identifiers is returned.
    pub fn decode(topics: &Vec<String>, data: &[u8]) -> (r: Result<PubsubMessage, PubsubError>)
        ensures
            match r {
                Ok(m) => spec_decode_model(topics.deep_view(), data@) == DecodeOutcome::Message(m),
                Err(PubsubError::DecodeFailure) => spec_decode_model(topics.deep_view(), data@)
                    == DecodeOutcome::Malformed,
                Err(PubsubError::UnknownTopics(list)) => spec_decode_model(
                    topics.deep_view(),
                    data@,
                ) == DecodeOutcome::Unknown(topics.deep_view()) && list.deep_view()
                    == topics.deep_view(),
            },
    {
        let ghost ts = topics.deep_view();
        let mut unknown_topics: Vec<String> = Vec::new();
        let mut i: usize = 0;
        while i < topics.len()
            invariant
                0 <= i <= topics.len(),
                ts == topics.deep_view(),
                ts.len() == topics@.len(),
                forall|j: int| 0 <= j < i ==> spec_resolve_topic(#[trigger] ts[j]) is None,
                unknown_topics@.len() == i,
                forall|j: int| 0 <= j < i ==> (#[trigger] unknown_topics@[j])@ == ts[j],
            decreases topics.len() - i,
        {
            let t: &String = &topics[i];
            proof {
                assert(t@ == ts[i as int]);
            }
            match GossipTopic::resolve(t.as_str()) {
                Err(_) => {
                    unknown_topics.push(t.clone());
                    i = i + 1;
                },
                Ok(topic) => {
                    proof {
                        lemma_first_known_at(ts, i as int);
                    }
                    match topic.encoding {
                        GossipEncoding::SSZ => match topic.kind {
                            GossipKind::BeaconBlock => match decode_block(data) {
                                Some(b) => return Ok(PubsubMessage::BeaconBlock(b)),
                                None => return Err(PubsubError::DecodeFailure),
                            },
                            GossipKind::BeaconAggregateAndProof => match decode_aggregate(data) {
                                Some(a) => return Ok(
                                    PubsubMessage::AggregateAndProofAttestation(a),
                                ),
                                None => return Err(PubsubError::DecodeFailure),
                            },
                            GossipKind::CommitteeIndex(sid) => match decode_attestation(data) {
                                Some(a) => return Ok(PubsubMessage::Attestation(sid, a)),
                                None => return Err(PubsubError::DecodeFailure),
                            },
                            GossipKind::VoluntaryExit => match decode_exit(data) {
                                Some(e) => return Ok(PubsubMessage::VoluntaryExit(e)),
                                None => return Err(PubsubError::DecodeFailure),
                            },
                            GossipKind::ProposerSlashing => match decode_proposer_slashing(data) {
                                Some(p) => return Ok(PubsubMessage::ProposerSlashing(p)),
                                None => return Err(PubsubError::DecodeFailure),
                            },
                            GossipKind::AttesterSlashing => match decode_attester_slashing(data) {
                                Some(a) => return Ok(PubsubMessage::AttesterSlashing(a)),
                                None => return Err(PubsubError::DecodeFailure),
                            },
                        },
                    }
                },
            }
        }
        proof {
            lemma_first_known_none(ts);
            assert forall|j: int| 0 <= j < ts.len() implies unknown_topics.deep_view()[j]
                == ts[j] by {
                assert(unknown_topics@[j]@ == ts[j]);
            }
            assert(unknown_topics.deep_view() =~= ts);
        }
        Err(PubsubError::UnknownTopics(unknown_topics))
    }

    /// Encodes the message's object for the requested wire encoding.
    pub fn encode(&self, encoding: &GossipEncoding) -> (r: Vec<u8>)
        ensures
            r@ == spec_encode_message(*self),
    {
        match encoding {
            GossipEncoding::SSZ => match self {
                PubsubMessage::BeaconBlock(b) => encode_block(b),
                PubsubMessage::AggregateAndProofAttestation(a) => encode_aggregate(a),
                PubsubMessage::Attestation(_, a) => encode_attestation(a),
                PubsubMessage::VoluntaryExit(e) => encode_exit(e),
                PubsubMessage::ProposerSlashing(p) => encode_proposer_slashing(p),
                PubsubMessage::AttesterSlashing(a) => encode_attester_slashing(a),
            },
        }
    }
}

/// Law: decoding an encoded message under a topic set whose first resolving
/// topic carries the message's kind yields the message back, for every
/// message and every such topic set.
pub proof fn lemma_pubsub_round_trip(m: PubsubMessage, ts: Seq<Seq<char>>)
    requires
        first_known(ts) != -1,
        spec_resolve_topic(ts[first_known(ts)]).unwrap().kind == spec_message_kind(m),
    ensures
        spec_decode_model(ts, spec_encode_message(m)) == DecodeOutcome::Message(m),
{
    lemma_first_known_bounds(ts);
    match m {
        PubsubMessage::BeaconBlock(b) => lemma_block_round_trip(b),
        PubsubMessage::AggregateAndProofAttestation(a) => lemma_aggregate_round_trip(a),
        PubsubMessage::Attestation(_, a) => lemma_attestation_round_trip(a),
        PubsubMessage::VoluntaryExit(e) => lemma_exit_round_trip(e),
        PubsubMessage::ProposerSlashing(p) => lemma_proposer_slashing_round_trip(p),
        PubsubMessage::AttesterSlashing(a) => lemma_attester_slashing_round_trip(a),
    }
}

/// Law: the first topic that resolves decides the decode path alone; the
/// topics after it, resolvable or not, are not consulted.
pub proof fn lemma_first_match_wins(ts: Seq<Seq<char>>, d: Seq<u8>, i: int)
    requires
        0 <= i < ts.len(),
        spec_resolve_topic(ts[i]) is Some,
        forall|j: int| 0 <= j < i ==> spec_resolve_topic(#[trigger] ts[j]) is None,
    ensures
        spec_decode_model(ts, d) == match spec_decode_payload(
            spec_resolve_topic(ts[i]).unwrap().kind,
            d,
        ) {
            Some(m) => DecodeOutcome::Message(m),
            None => DecodeOutcome::Malformed,
        },
{
    lemma_first_known_at(ts, i);
}

/// Law: when no topic of the set resolves, decoding fails with the full set.
pub proof fn lemma_all_topics_unknown(ts: Seq<Seq<char>>, d: Seq<u8>)
    requires
        forall|j: int| 0 <= j < ts.len() ==> spec_resolve_topic(#[trigger] ts[j]) is None,
    ensures
        spec_decode_model(ts, d) == DecodeOutcome::Unknown(ts),
{
    lemma_first_known_none(ts);
}

/// Law: malformed bytes under a resolved topic are a decode failure; the
/// call never falls through to another topic.
pub proof fn lemma_malformed_under_known_topic(ts: Seq<Seq<char>>, d: Seq<u8>)
    requires
        first_known(ts) != -1,
        spec_decode_payload(spec_resolve_topic(ts[first_known(ts)]).unwrap().kind, d) is None,
    ensures
        spec_decode_model(ts, d) == DecodeOutcome::Malformed,
{
}

} // verus!
