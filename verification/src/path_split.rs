//! Splitting a setter's attribute chain into the segments to traverse and
//! the final segment to assign.

use vstd::prelude::*;

verus! {

/// Every segment of the chain but the last: the traversal prefix.
pub open spec fn chain_prefix(chain: Seq<Seq<char>>) -> Seq<Seq<char>>
    recommends
        chain.len() >= 1,
{
    chain.subrange(0, chain.len() - 1)
}

/// The final segment of the chain: the assignment key.
pub open spec fn chain_last(chain: Seq<Seq<char>>) -> Seq<char>
    recommends
        chain.len() >= 1,
{
    chain[chain.len() - 1]
}

/// Splits a non-empty attribute chain `[a0, …, aN]` into the traversal
/// prefix `[a0, …, a(N-1)]` and the final segment `aN`.
///
/// The split runs as an accumulator-driven left-to-right scan with
/// one-segment lookahead: while more than one segment remains, the first
/// remaining segment moves into the accumulator; once exactly one segment
/// remains it is the assignment key. A chain of length 1 therefore yields an
/// empty prefix — the setter traverses nothing and assigns directly on the
/// receiver.
pub fn split_chain(chain: &Vec<String>) -> (r: (Vec<String>, String))
    requires
        chain@.len() >= 1,
    ensures
        r.0.deep_view() == chain_prefix(chain.deep_view()),
        r.1@ == chain_last(chain.deep_view()),
        r.0.deep_view().len() == chain.deep_view().len() - 1,
{
    let mut extracted: Vec<String> = Vec::new();
    let mut i: usize = 0;
    // Grow the accumulator while the remaining chain holds more than one
    // segment.
    while chain.len() - i > 1
        invariant
            i < chain.len(),
            extracted@.len() == i,
            forall|j: int| 0 <= j < i ==> extracted.deep_view()[j] == chain.deep_view()[j],
        decreases chain.len() - i,
    {
        extracted.push(chain[i].clone());
        i += 1;
    }
    // Exactly one segment remains: it is the assignment key.
    let last = chain[i].clone();
    proof {
        assert(extracted.deep_view() =~= chain_prefix(chain.deep_view()));
    }
    (extracted, last)
}

/// For every non-empty chain, the split keeps every traversed segment in
/// order, drops exactly the final segment from the prefix, and returns that
/// final segment as the assignment key.
pub proof fn lemma_split_shape(chain: Seq<Seq<char>>)
    requires
        chain.len() >= 1,
    ensures
        chain_prefix(chain).len() == chain.len() - 1,
        forall|i: int| 0 <= i < chain.len() - 1 ==> chain_prefix(chain)[i] == chain[i],
        chain_last(chain) == chain[chain.len() - 1],
        chain_prefix(chain).push(chain_last(chain)) == chain,
{
    assert(chain_prefix(chain).push(chain_last(chain)) =~= chain);
}

} // verus!
