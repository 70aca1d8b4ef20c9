//! Gossip topic strings: resolving a topic identifier into a structured
//! descriptor, and rendering a descriptor back into its identifier.
//!
//! A topic identifier has the shape `/eth2/<kind>/ssz`, where `<kind>` is one
//! of the fixed consensus-object kind names, or the parametric family
//! `committee_index<N>_beacon_attestation` whose decimal subnet index `<N>`
//! is embedded in the string and extracted on resolve.

use vstd::prelude::*;

use crate::decimal::{
    dec_digits, lemma_dec_digits_value, parse_dec_range, render_dec, spec_parse_dec,
};

verus! {

/// A partition identifier sharding attestation gossip across topics.
#[derive(Clone, Copy, Debug, PartialEq, Eq, Structural)]
pub struct SubnetId(pub u64);

/// The wire encoding named by a topic's suffix.
#[derive(Clone, Copy, Debug, PartialEq, Eq, Structural)]
pub enum GossipEncoding {
    SSZ,
}

/// The message kind named by a topic's middle segment.
#[derive(Clone, Copy, Debug, PartialEq, Eq, Structural)]
pub enum GossipKind {
    BeaconBlock,
    BeaconAggregateAndProof,
    CommitteeIndex(SubnetId),
    VoluntaryExit,
    ProposerSlashing,
    AttesterSlashing,
}

/// The structured descriptor a topic identifier resolves to.
#[derive(Clone, Copy, Debug, PartialEq, Eq, Structural)]
pub struct GossipTopic {
    pub kind: GossipKind,
    pub encoding: GossipEncoding,
}

/// Resolving a string that is no gossip topic is a routing miss, not an
/// error in content.
#[derive(Clone, Copy, Debug, PartialEq, Eq, Structural)]
pub enum TopicError {
    NotAGossipTopic,
}

/// The digit range of a committee segment.
pub open spec fn committee_digits(seg: Seq<char>) -> Seq<char> {
    seg.subrange(15, seg.len() - 19)
}

/// A segment of the parametric family `committee_index<N>_beacon_attestation`
/// with a decimal index that fits a `u64`.
pub open spec fn is_committee_segment(seg: Seq<char>) -> bool {
    &&& seg.len() >= 35
    &&& seg.take(15) == "committee_index"@
    &&& seg.skip(seg.len() - 19) == "_beacon_attestation"@
    &&& spec_parse_dec(committee_digits(seg)) is Some
}

/// The kind named by a topic's middle segment, if any.
pub open spec fn spec_kind_of_segment(seg: Seq<char>) -> Option<GossipKind> {
    if seg == "beacon_block"@ {
        Some(GossipKind::BeaconBlock)
    } else if seg == "beacon_aggregate_and_proof"@ {
        Some(GossipKind::BeaconAggregateAndProof)
    } else if seg == "voluntary_exit"@ {
        Some(GossipKind::VoluntaryExit)
    } else if seg == "proposer_slashing"@ {
        Some(GossipKind::ProposerSlashing)
    } else if seg == "attester_slashing"@ {
        Some(GossipKind::AttesterSlashing)
    } else if is_committee_segment(seg) {
        Some(GossipKind::CommitteeIndex(SubnetId(spec_parse_dec(committee_digits(seg)).unwrap())))
    } else {
        None
    }
}

/// The descriptor a topic string resolves to, if any: the string must carry
/// the `/eth2/` version prefix and the `/ssz` encoding suffix, and its middle
/// segment must name a kind.
pub open spec fn spec_resolve_topic(s: Seq<char>) -> Option<GossipTopic> {
    if s.len() >= 10 && s.take(6) == "/eth2/"@ && s.skip(s.len() - 4) == "/ssz"@ {
        match spec_kind_of_segment(s.subrange(6, s.len() - 4)) {
            Some(kind) => Some(GossipTopic { kind, encoding: GossipEncoding::SSZ }),
            None => None,
        }
    } else {
        None
    }
}

/// The middle segment a kind renders to.
pub open spec fn spec_segment_of_kind(k: GossipKind) -> Seq<char> {
    match k {
        GossipKind::BeaconBlock => "beacon_block"@,
        GossipKind::BeaconAggregateAndProof => "beacon_aggregate_and_proof"@,
        GossipKind::CommitteeIndex(sid) => "committee_index"@ + dec_digits(
            sid.0 as nat,
        ) + "_beacon_attestation"@,
        GossipKind::VoluntaryExit => "voluntary_exit"@,
        GossipKind::ProposerSlashing => "proposer_slashing"@,
        GossipKind::AttesterSlashing => "attester_slashing"@,
    }
}

/// The identifier a descriptor renders to.
pub open spec fn spec_render_topic(t: GossipTopic) -> Seq<char> {
    "/eth2/"@ + spec_segment_of_kind(t.kind) + "/ssz"@
}

/// `true` iff the character range `[from, to)` of `s` equals `pat`.
fn str_eq_from(s: &str, from: usize, to: usize, pat: &str) -> (r: bool)
    requires
        from <= to && to <= s@.len(),
    ensures
        r == (s@.subrange(from as int, to as int) == pat@),
{
    let pn = pat.unicode_len();
    if to - from != pn {
        proof {
            assert(s@.subrange(from as int, to as int).len() != pat@.len());
        }
        return false;
    }
    let mut i: usize = 0;
    while i < pn
        invariant
            from <= to && to <= s@.len(),
            to - from == pn == pat@.len(),
            i <= pn,
            forall|j: int| 0 <= j < i ==> s@[from + j] == pat@[j],
        decreases pn - i,
    {
        if s.get_char(from + i) != pat.get_char(i) {
            proof {
                assert(s@.subrange(from as int, to as int)[i as int] != pat@[i as int]);
            }
            return false;
        }
        i = i + 1;
    }
    proof {
        assert(s@.subrange(from as int, to as int) =~= pat@);
    }
    true
}

impl GossipTopic {
    /// Resolves a topic identifier string into its descriptor; a string
    /// outside the grammar is reported as not a gossip topic.
    pub fn resolve(s: &str) -> (r: Result<GossipTopic, TopicError>)
        ensures
            match r {
                Ok(t) => spec_resolve_topic(s@) == Some(t),
                Err(_) => spec_resolve_topic(s@) is None,
            },
    {
        proof {
            reveal_strlit("/eth2/");
            reveal_strlit("/ssz");
        }
        let n = s.unicode_len();
        if n < 10 {
            return Err(TopicError::NotAGossipTopic);
        }
        if !str_eq_from(s, 0, 6, "/eth2/") {
            proof {
                assert(s@.take(6) =~= s@.subrange(0, 6));
            }
            return Err(TopicError::NotAGossipTopic);
        }
        if !str_eq_from(s, n - 4, n, "/ssz") {
            proof {
                assert(s@.skip(n - 4) =~= s@.subrange(n - 4, n as int));
            }
            return Err(TopicError::NotAGossipTopic);
        }
        proof {
            assert(s@.take(6) =~= s@.subrange(0, 6));
            assert(s@.skip(n - 4) =~= s@.subrange(n - 4, n as int));
        }
        let ghost seg = s@.subrange(6, n - 4);
        let kind: Option<GossipKind> = if str_eq_from(s, 6, n - 4, "beacon_block") {
            Some(GossipKind::BeaconBlock)
        } else if str_eq_from(s, 6, n - 4, "beacon_aggregate_and_proof") {
            Some(GossipKind::BeaconAggregateAndProof)
        } else if str_eq_from(s, 6, n - 4, "voluntary_exit") {
            Some(GossipKind::VoluntaryExit)
        } else if str_eq_from(s, 6, n - 4, "proposer_slashing") {
            Some(GossipKind::ProposerSlashing)
        } else if str_eq_from(s, 6, n - 4, "attester_slashing") {
            Some(GossipKind::AttesterSlashing)
        } else {
            if n - 10 >= 35 && str_eq_from(s, 6, 21, "committee_index") && str_eq_from(
                s,
                n - 23,
                n - 4,
                "_beacon_attestation",
            ) {
                proof {
                    assert(seg.take(15) =~= s@.subrange(6, 21));
                    assert(seg.skip(seg.len() - 19) =~= s@.subrange(n - 23, n - 4));
                    assert(committee_digits(seg) =~= s@.subrange(21, n - 23));
                }
                match parse_dec_range(s, 21, n - 23) {
                    Some(v) => Some(GossipKind::CommitteeIndex(SubnetId(v))),
                    None => {
                        proof {
                            assert(!is_committee_segment(seg));
                        }
                        None
                    },
                }
            } else {
                proof {
                    if n - 10 >= 35 {
                        assert(seg.take(15) =~= s@.subrange(6, 21));
                        assert(seg.skip(seg.len() - 19) =~= s@.subrange(n - 23, n - 4));
                    }
                    assert(!is_committee_segment(seg));
                }
                None
            }
        };
        match kind {
            Some(k) => {
                proof {
                    assert(spec_kind_of_segment(seg) == Some(k));
                }
                Ok(GossipTopic { kind: k, encoding: GossipEncoding::SSZ })
            },
            None => Err(TopicError::NotAGossipTopic),
        }
    }

    /// Renders the descriptor back into its topic identifier string.
    pub fn render(&self) -> (r: String)
        ensures
            r@ == spec_render_topic(*self),
    {
        let mut out = String::from_str("/eth2/");
        match self.kind {
            GossipKind::BeaconBlock => out.append("beacon_block"),
            GossipKind::BeaconAggregateAndProof => out.append("beacon_aggregate_and_proof"),
            GossipKind::CommitteeIndex(sid) => {
                out.append("committee_index");
                let digits = render_dec(sid.0);
                out.append(digits.as_str());
                out.append("_beacon_attestation");
            },
            GossipKind::VoluntaryExit => out.append("voluntary_exit"),
            GossipKind::ProposerSlashing => out.append("proposer_slashing"),
            GossipKind::AttesterSlashing => out.append("attester_slashing"),
        }
        out.append("/ssz");
        proof {
            assert(out@ =~= spec_render_topic(*self));
        }
        out
    }
}

/// Law: resolving a rendered topic identifier yields the descriptor it was
/// rendered from, for every descriptor.
pub proof fn lemma_topic_round_trip(t: GossipTopic)
    ensures
        spec_resolve_topic(spec_render_topic(t)) == Some(t),
{
    reveal_strlit("/eth2/");
    reveal_strlit("/ssz");
    reveal_strlit("beacon_block");
    reveal_strlit("beacon_aggregate_and_proof");
    reveal_strlit("voluntary_exit");
    reveal_strlit("proposer_slashing");
    reveal_strlit("attester_slashing");
    reveal_strlit("committee_index");
    reveal_strlit("_beacon_attestation");
    let s = spec_render_topic(t);
    let seg = spec_segment_of_kind(t.kind);
    assert(s.take(6) =~= "/eth2/"@);
    assert(s.skip(s.len() - 4) =~= "/ssz"@);
    assert(s.subrange(6, s.len() - 4) =~= seg);
    match t.kind {
        GossipKind::BeaconBlock => {},
        GossipKind::BeaconAggregateAndProof => {
            assert(seg != "beacon_block"@);
        },
        GossipKind::VoluntaryExit => {
            assert(seg != "beacon_block"@);
            assert(seg != "beacon_aggregate_and_proof"@);
        },
        GossipKind::ProposerSlashing => {
            assert(seg != "beacon_block"@);
            assert(seg != "beacon_aggregate_and_proof"@);
            assert(seg != "voluntary_exit"@);
        },
        GossipKind::AttesterSlashing => {
            assert(seg != "beacon_block"@);
            assert(seg != "beacon_aggregate_and_proof"@);
            assert(seg != "voluntary_exit"@);
            assert(seg["proposer_slashing"@.len() - 17] != "proposer_slashing"@[0]);
            assert(seg != "proposer_slashing"@);
        },
        GossipKind::CommitteeIndex(sid) => {
            lemma_dec_digits_value(sid.0 as nat);
            let dd = dec_digits(sid.0 as nat);
            assert(seg.len() == 15 + dd.len() + 19);
            assert(seg != "beacon_block"@);
            assert(seg != "beacon_aggregate_and_proof"@);
            assert(seg != "voluntary_exit"@);
            assert(seg != "proposer_slashing"@);
            assert(seg != "attester_slashing"@);
            assert(seg.take(15) =~= "committee_index"@);
            assert(seg.skip(seg.len() - 19) =~= "_beacon_attestation"@);
            assert(committee_digits(seg) =~= dd);
            assert(spec_parse_dec(dd) == Some(sid.0));
            assert(is_committee_segment(seg));
        },
    }
}

} // verus!
