//! The persistence gateway's codec. A game state is laid out as a flat
//! sequence of unsigned words — seven per resource — and that sequence is
//! carried to and from disk as a JSON array of numbers. Decoding validates
//! everything encoding relies on, so a saved state loads back exactly.

use vstd::prelude::*;
use crate::PROGRESS_DENOM;
use crate::economy::{GameState, Resource, ResourceType, Cost, wf_resource, wf_state, unique_kinds};

verus! {

/// The word standing for a resource kind.
pub open spec fn kind_tag(k: ResourceType) -> u64 {
    match k {
        ResourceType::Wood => 0u64,
        ResourceType::Stone => 1u64,
        ResourceType::Iron => 2u64,
        ResourceType::Diamond => 3u64,
    }
}

/// The kind a word stands for, if any.
pub open spec fn kind_of_tag(t: u64) -> Option<ResourceType> {
    if t == 0 {
        Some(ResourceType::Wood)
    } else if t == 1 {
        Some(ResourceType::Stone)
    } else if t == 2 {
        Some(ResourceType::Iron)
    } else if t == 3 {
        Some(ResourceType::Diamond)
    } else {
        None
    }
}

/// The seven words of one resource: kind, amount, level, cost amount, cost
/// kind, progress, rate.
pub open spec fn resource_words(r: Resource) -> Seq<u64> {
    seq![
        kind_tag(r.resource_type),
        r.amount,
        r.level,
        r.cost.amount,
        kind_tag(r.cost.resource_type),
        r.progress,
        r.progress_per_tick,
    ]
}

/// The flat words of a whole roster, in order.
pub open spec fn words_of_resources(rs: Seq<Resource>) -> Seq<u64>
    decreases rs.len(),
{
    if rs.len() == 0 {
        Seq::empty()
    } else {
        resource_words(rs[0]) + words_of_resources(rs.drop_first())
    }
}

/// Read one resource back from seven words; `None` on a word that encodes
/// no kind, an improper fraction, or a zero rate.
pub open spec fn resource_of_words(w: Seq<u64>) -> Option<Resource> {
    if w.len() != 7 {
        None
    } else if kind_of_tag(w[0]) is None || kind_of_tag(w[4]) is None {
        None
    } else if w[5] >= PROGRESS_DENOM || w[6] == 0 {
        None
    } else {
        Some(Resource {
            resource_type: kind_of_tag(w[0]).unwrap(),
            amount: w[1],
            level: w[2],
            cost: Cost { amount: w[3], resource_type: kind_of_tag(w[4]).unwrap() },
            progress: w[5],
            progress_per_tick: w[6],
        })
    }
}

/// Read a roster back from flat words, seven at a time; `None` on a ragged
/// length or any invalid resource.
pub open spec fn resources_of_words(ws: Seq<u64>) -> Option<Seq<Resource>>
    decreases ws.len(),
{
    if ws.len() == 0 {
        Some(Seq::empty())
    } else if ws.len() < 7 {
        None
    } else {
        match resource_of_words(ws.take(7)) {
            Option::None => None,
            Option::Some(r) => match resources_of_words(ws.skip(7)) {
                Option::None => None,
                Option::Some(rest) => Some(seq![r] + rest),
            },
        }
    }
}

/// Read a whole state back from flat words: a valid roster whose kinds are
/// pairwise distinct.
pub open spec fn state_of_words(ws: Seq<u64>) -> Option<Seq<Resource>> {
    match resources_of_words(ws) {
        Option::None => None,
        Option::Some(rs) => if unique_kinds(rs) {
            Some(rs)
        } else {
            None
        },
    }
}

/// A word stands for the kind it was made from.
proof fn lemma_kind_tag_round_trip(k: ResourceType)
    ensures
        kind_of_tag(kind_tag(k)) == Some(k),
{
}

/// Appending one resource appends its seven words.
proof fn lemma_words_snoc(rs: Seq<Resource>, r: Resource)
    ensures
        words_of_resources(rs.push(r)) == words_of_resources(rs) + resource_words(r),
    decreases rs.len(),
{
    if rs.len() == 0 {
        assert(rs.push(r).drop_first() =~= rs);
        assert(words_of_resources(rs.push(r)) =~= words_of_resources(rs) + resource_words(r));
    } else {
        assert(rs.push(r).drop_first() =~= rs.drop_first().push(r));
        lemma_words_snoc(rs.drop_first(), r);
        assert(resource_words(rs[0]) + (words_of_resources(rs.drop_first()) + resource_words(r))
            =~= (resource_words(rs[0]) + words_of_resources(rs.drop_first())) + resource_words(r));
    }
}

/// Decoding inverts encoding: a roster of well-formed resources read back
/// from its own words is itself, entry for entry.
pub proof fn lemma_words_round_trip(rs: Seq<Resource>)
    requires
        forall|i: int| 0 <= i < rs.len() ==> wf_resource(#[trigger] rs[i]),
    ensures
        resources_of_words(words_of_resources(rs)) == Some(rs),
    decreases rs.len(),
{
    if rs.len() == 0 {
        assert(words_of_resources(rs).len() == 0);
        assert(resources_of_words(words_of_resources(rs)) == Some(Seq::<Resource>::empty()));
        assert(rs =~= Seq::<Resource>::empty());
    } else {
        let r = rs[0];
        let head = resource_words(r);
        let tail = words_of_resources(rs.drop_first());
        let ws = head + tail;
        assert(words_of_resources(rs) == ws);
        assert(ws.len() >= 7);
        assert(ws.take(7) =~= head);
        assert(ws.skip(7) =~= tail);
        lemma_kind_tag_round_trip(r.resource_type);
        lemma_kind_tag_round_trip(r.cost.resource_type);
        assert(wf_resource(r));
        assert(resource_of_words(head) == Some(r));
        assert(forall|i: int|
            0 <= i < rs.drop_first().len() ==> wf_resource(#[trigger] rs.drop_first()[i]));
        lemma_words_round_trip(rs.drop_first());
        assert(seq![r] + rs.drop_first() =~= rs);
    }
}

/// A whole well-formed state survives the word round trip, uniqueness check
/// included.
pub proof fn lemma_state_round_trip(rs: Seq<Resource>)
    requires
        wf_state(rs),
    ensures
        state_of_words(words_of_resources(rs)) == Some(rs),
{
    lemma_words_round_trip(rs);
}

/// The word a kind is written as.
fn kind_tag_ex(k: ResourceType) -> (t: u64)
    ensures
        t == kind_tag(k),
{
    match k {
        ResourceType::Wood => 0,
        ResourceType::Stone => 1,
        ResourceType::Iron => 2,
        ResourceType::Diamond => 3,
    }
}

/// The kind a word is read as, if any.
fn kind_of_tag_ex(t: u64) -> (k: Option<ResourceType>)
    ensures
        k == kind_of_tag(t),
{
    if t == 0 {
        Some(ResourceType::Wood)
    } else if t == 1 {
        Some(ResourceType::Stone)
    } else if t == 2 {
        Some(ResourceType::Iron)
    } else if t == 3 {
        Some(ResourceType::Diamond)
    } else {
        None
    }
}

/// Flatten a roster into its words.
pub(crate) fn words_of_state(rs: &Vec<Resource>) -> (ws: Vec<u64>)
    ensures
        ws@ == words_of_resources(rs@),
{
    let mut ws: Vec<u64> = Vec::new();
    let mut i: usize = 0;
    proof {
        assert(rs@.take(0) =~= Seq::<Resource>::empty());
        assert(ws@ =~= words_of_resources(rs@.take(0)));
    }
    while i < rs.len()
        invariant
            i <= rs@.len(),
            ws@ == words_of_resources(rs@.take(i as int)),
        decreases rs@.len() - i,
    {
        let r = rs[i];
        ws.push(kind_tag_ex(r.resource_type));
        ws.push(r.amount);
        ws.push(r.level);
        ws.push(r.cost.amount);
        ws.push(kind_tag_ex(r.cost.resource_type));
        ws.push(r.progress);
        ws.push(r.progress_per_tick);
        proof {
            assert(rs@.take(i + 1) =~= rs@.take(i as int).push(rs@[i as int]));
            lemma_words_snoc(rs@.take(i as int), rs@[i as int]);
            assert(ws@ =~= words_of_resources(rs@.take(i as int)) + resource_words(rs@[i as int]));
        }
        i = i + 1;
    }
    proof {
        assert(rs@.take(rs@.len() as int) =~= rs@);
    }
    ws
}

/// Read a roster back from flat words, validating each resource.
pub(crate) fn resources_from_words(ws: &Vec<u64>) -> (r: Option<Vec<Resource>>)
    ensures
        (match r {
            Option::Some(v) => {
                &&& resources_of_words(ws@) == Some(v@)
                &&& forall|j: int| 0 <= j < v@.len() ==> wf_resource(#[trigger] v@[j])
            },
            Option::None => resources_of_words(ws@) is None,
        }),
{
    let n = ws.len();
    let mut out: Vec<Resource> = Vec::new();
    let mut i: usize = 0;
    proof {
        assert(ws@.skip(0) =~= ws@);
        if resources_of_words(ws@) is Some {
            assert(out@ + resources_of_words(ws@).unwrap()
                =~= resources_of_words(ws@).unwrap());
        }
    }
    while n - i >= 7
        invariant
            i <= n,
            n == ws@.len(),
            forall|j: int| 0 <= j < out@.len() ==> wf_resource(#[trigger] out@[j]),
            (match resources_of_words(ws@.skip(i as int)) {
                Option::Some(rest) => resources_of_words(ws@) == Some(out@ + rest),
                Option::None => resources_of_words(ws@) is None,
            }),
        decreases n - i,
    {
        let ghost tail = ws@.skip(i as int);
        let ghost chunk = tail.take(7);
        proof {
            assert(chunk.len() == 7);
            assert(forall|m: int| 0 <= m < 7 ==> chunk[m] == ws@[i + m]);
        }
        let w0 = ws[i];
        let w4 = ws[i + 4];
        let w5 = ws[i + 5];
        let w6 = ws[i + 6];
        let kind = kind_of_tag_ex(w0);
        let cost_kind = kind_of_tag_ex(w4);
        if kind.is_none() || cost_kind.is_none() || w5 >= PROGRESS_DENOM || w6 == 0 {
            proof {
                assert(resource_of_words(chunk) is None);
                assert(resources_of_words(tail) is None);
            }
            return None;
        }
        let kind = kind.unwrap();
        let cost_kind = cost_kind.unwrap();
        let res = Resource {
            resource_type: kind,
            amount: ws[i + 1],
            level: ws[i + 2],
            cost: Cost { amount: ws[i + 3], resource_type: cost_kind },
            progress: w5,
            progress_per_tick: w6,
        };
        proof {
            assert(resource_of_words(chunk) == Some(res));
            assert(tail.skip(7) =~= ws@.skip(i + 7));
            assert(resources_of_words(tail) == (match resources_of_words(ws@.skip(i + 7)) {
                Option::None => None::<Seq<Resource>>,
                Option::Some(rest) => Some(seq![res] + rest),
            }));
            if resources_of_words(ws@.skip(i + 7)) is Some {
                let rest = resources_of_words(ws@.skip(i + 7)).unwrap();
                assert(out@ + (seq![res] + rest) =~= out@.push(res) + rest);
            }
        }
        out.push(res);
        i = i + 7;
    }
    if i == n {
        proof {
            assert(ws@.skip(i as int).len() == 0);
            assert(resources_of_words(ws@.skip(i as int)) == Some(Seq::<Resource>::empty()));
            assert(out@ + Seq::<Resource>::empty() =~= out@);
        }
        Some(out)
    } else {
        proof {
            assert(0 < ws@.skip(i as int).len() < 7);
            assert(resources_of_words(ws@.skip(i as int)) is None);
        }
        None
    }
}

impl GameState {
    /// Whether the state is well formed: every fraction proper, every rate
    /// positive, no kind repeated. `App` keeps this true throughout; the
    /// check lets an unverified caller test it before saving.
    pub fn is_well_formed(&self) -> (b: bool)
        ensures
            b == wf_state(self.resources@),
    {
        let mut i: usize = 0;
        let n = self.resources.len();
        while i < n
            invariant
                i <= n,
                n == self.resources@.len(),
                forall|j: int| 0 <= j < i ==> wf_resource(#[trigger] self.resources@[j]),
            decreases n - i,
        {
            let r = &self.resources[i];
            if r.progress >= PROGRESS_DENOM || r.progress_per_tick == 0 {
                return false;
            }
            i = i + 1;
        }
        kinds_unique(&self.resources)
    }
}

/// Whether no two resources in `rs` share a kind.
pub(crate) fn kinds_unique(rs: &Vec<Resource>) -> (b: bool)
    ensures
        b == unique_kinds(rs@),
{
    let n = rs.len();
    let mut i: usize = 0;
    while i < n
        invariant
            i <= n,
            n == rs@.len(),
            forall|p: int, q: int|
                0 <= p < q < i ==> #[trigger] rs@[p].resource_type
                    != #[trigger] rs@[q].resource_type,
        decreases n - i,
    {
        let mut l: usize = 0;
        while l < i
            invariant
                l <= i,
                i < n,
                n == rs@.len(),
                forall|p: int| 0 <= p < l ==> (#[trigger] rs@[p]).resource_type
                    != rs@[i as int].resource_type,
            decreases i - l,
        {
            if rs[l].resource_type == rs[i].resource_type {
                return false;
            }
            l = l + 1;
        }
        i = i + 1;
    }
    true
}

} // verus!
