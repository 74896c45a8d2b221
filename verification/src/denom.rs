//! Denomination traces and the source-chain predicate that decides between
//! escrowing and burning on an outbound transfer.

use vstd::prelude::*;

verus! {

/// One hop of a denomination trace: the (port, channel) leg through which
/// the asset travelled.
#[derive(Debug)]
pub struct TracePrefix {
    pub port_id: String,
    pub channel_id: String,
}

impl Clone for TracePrefix {
    fn clone(&self) -> (r: Self)
        ensures
            r == *self,
    {
        TracePrefix { port_id: self.port_id.clone(), channel_id: self.channel_id.clone() }
    }
}

/// A denomination together with the trace of channel legs it has already
/// traversed, outermost leg first. An empty trace is a native denomination.
#[derive(Debug)]
pub struct PrefixedDenom {
    pub trace_path: Vec<TracePrefix>,
    pub base_denom: String,
}

/// The mathematical key of a denomination: the trace as a sequence of
/// (port, channel) character-sequence pairs, plus the base denomination.
pub open spec fn denom_key(d: PrefixedDenom) -> (Seq<(Seq<char>, Seq<char>)>, Seq<char>) {
    (d.trace_path@.map_values(|p: TracePrefix| (p.port_id@, p.channel_id@)), d.base_denom@)
}

/// Two denominations stand for the same asset: same base denomination and
/// the same trace, hop by hop.
pub open spec fn denom_matches(a: PrefixedDenom, b: PrefixedDenom) -> bool {
    &&& a.base_denom@ == b.base_denom@
    &&& a.trace_path@.len() == b.trace_path@.len()
    &&& forall|i: int|
        0 <= i < a.trace_path@.len() ==> #[trigger] a.trace_path@[i].port_id@
            == b.trace_path@[i].port_id@ && a.trace_path@[i].channel_id@
            == b.trace_path@[i].channel_id@
}

/// `denom_matches` is exactly equality of the mathematical keys.
pub proof fn lemma_denom_matches_iff_key_eq(a: PrefixedDenom, b: PrefixedDenom)
    ensures
        denom_matches(a, b) <==> denom_key(a) == denom_key(b),
{
    let ka = denom_key(a).0;
    let kb = denom_key(b).0;
    if denom_matches(a, b) {
        assert forall|i: int| 0 <= i < ka.len() implies ka[i] == kb[i] by {
            assert(a.trace_path@[i].port_id@ == b.trace_path@[i].port_id@);
        }
        assert(ka =~= kb);
    }
    if denom_key(a) == denom_key(b) {
        assert(a.trace_path@.len() == ka.len());
        assert(b.trace_path@.len() == kb.len());
        assert forall|i: int|
            0 <= i < a.trace_path@.len() implies #[trigger] a.trace_path@[i].port_id@
            == b.trace_path@[i].port_id@ && a.trace_path@[i].channel_id@
            == b.trace_path@[i].channel_id@ by {
            assert(ka[i] == (a.trace_path@[i].port_id@, a.trace_path@[i].channel_id@));
            assert(kb[i] == (b.trace_path@[i].port_id@, b.trace_path@[i].channel_id@));
        }
    }
}

impl Clone for PrefixedDenom {
    fn clone(&self) -> (r: Self)
        ensures
            r.trace_path@ == self.trace_path@,
            r.base_denom == self.base_denom,
            denom_matches(r, *self),
    {
        let mut trace: Vec<TracePrefix> = Vec::new();
        let mut i: usize = 0;
        while i < self.trace_path.len()
            invariant
                i <= self.trace_path@.len(),
                trace@ =~= self.trace_path@.take(i as int),
            decreases self.trace_path@.len() - i,
        {
            trace.push(self.trace_path[i].clone());
            i = i + 1;
        }
        proof {
            assert(trace@ =~= self.trace_path@);
        }
        PrefixedDenom { trace_path: trace, base_denom: self.base_denom.clone() }
    }
}

/// Decides whether two denominations stand for the same asset.
pub fn denom_eq(a: &PrefixedDenom, b: &PrefixedDenom) -> (r: bool)
    ensures
        r == denom_matches(*a, *b),
        r == (denom_key(*a) == denom_key(*b)),
{
    proof {
        lemma_denom_matches_iff_key_eq(*a, *b);
    }
    if !(a.base_denom == b.base_denom) {
        return false;
    }
    if a.trace_path.len() != b.trace_path.len() {
        return false;
    }
    let mut i: usize = 0;
    while i < a.trace_path.len()
        invariant
            i <= a.trace_path@.len(),
            a.trace_path@.len() == b.trace_path@.len(),
            forall|k: int| 0 <= k < i ==> #[trigger] (a.trace_path@[k].port_id@)
                == b.trace_path@[k].port_id@,
            forall|k: int| 0 <= k < i ==> #[trigger] (a.trace_path@[k].channel_id@)
                == b.trace_path@[k].channel_id@,
        decreases a.trace_path@.len() - i,
    {
        let pa = &a.trace_path[i];
        let pb = &b.trace_path[i];
        let same = pa.port_id == pb.port_id && pa.channel_id == pb.channel_id;
        if !same {
            proof {
                lemma_denom_matches_iff_key_eq(*a, *b);
            }
            return false;
        }
        proof {
            assert(a.trace_path@[i as int].port_id@ == b.trace_path@[i as int].port_id@);
            assert(a.trace_path@[i as int].channel_id@ == b.trace_path@[i as int].channel_id@);
        }
        i = i + 1;
    }
    true
}

/// An amount of a traced denomination.
#[derive(Debug)]
pub struct Coin {
    pub denom: PrefixedDenom,
    pub amount: u64,
}

impl Clone for Coin {
    fn clone(&self) -> (r: Self)
        ensures
            denom_matches(r.denom, self.denom),
            r.amount == self.amount,
    {
        Coin { denom: self.denom.clone(), amount: self.amount }
    }
}

/// The denomination's trace already begins with the given outbound leg:
/// the asset arrived through this exact (port, channel).
pub open spec fn spec_trace_starts_with(d: PrefixedDenom, port: Seq<char>, chan: Seq<char>) -> bool {
    &&& d.trace_path@.len() > 0
    &&& d.trace_path@[0].port_id@ == port
    &&& d.trace_path@[0].channel_id@ == chan
}

/// The receiver chain is the source of the asset iff the denomination trace
/// already carries the outbound (port, channel) leg as its first hop.
pub fn is_receiver_chain_source(port_id: &String, channel_id: &String, denom: &PrefixedDenom) -> (r:
    bool)
    ensures
        r == spec_trace_starts_with(*denom, port_id@, channel_id@),
{
    if denom.trace_path.len() == 0 {
        false
    } else {
        let head = &denom.trace_path[0];
        head.port_id == *port_id && head.channel_id == *channel_id
    }
}

/// The sending chain is the source of the asset iff the denomination trace
/// does not already carry the outbound (port, channel) leg: the asset did
/// not arrive through this exact channel. A denomination with an empty
/// trace is native, so the sender chain is its source.
pub fn is_sender_chain_source(port_id: &String, channel_id: &String, denom: &PrefixedDenom) -> (r:
    bool)
    ensures
        r == !spec_trace_starts_with(*denom, port_id@, channel_id@),
{
    !is_receiver_chain_source(port_id, channel_id, denom)
}

} // verus!
