//! An ordered, append-only collection of human-readable token descriptors,
//! filled by the lookahead engine with the alternatives it would have
//! accepted, and rendered as a comma-joined list.

use vstd::prelude::*;
use vstd::string::StringExecFns;

verus! {

/// The comma-joined rendering of a sequence of descriptors: the descriptors
/// in order, with `", "` between each adjacent pair.  An empty sequence
/// renders to the empty string.
pub open spec fn rendered(descs: Seq<Seq<char>>) -> Seq<char>
    decreases descs.len(),
{
    if descs.len() == 0 {
        Seq::empty()
    } else if descs.len() == 1 {
        descs[0]
    } else {
        rendered(descs.drop_last()) + ", "@ + descs.last()
    }
}

/// The ordered set of token descriptions the predicting engine expected.
/// Insertion order is preserved and duplicates are kept: a repeated
/// descriptor may stand for two distinct grammar alternatives.
#[derive(Debug)]
pub struct TokenVec(pub Vec<String>);

impl View for TokenVec {
    type V = Seq<Seq<char>>;

    open spec fn view(&self) -> Seq<Seq<char>> {
        self.0.deep_view()
    }
}

impl Default for TokenVec {
    /// An empty descriptor set.
    fn default() -> (r: Self)
        ensures
            r@ == Seq::<Seq<char>>::empty(),
    {
        TokenVec(Vec::new())
    }
}

impl TokenVec {
    /// Appends one descriptor; no validation, no deduplication.
    pub fn push(&mut self, token: String)
        ensures
            final(self)@ == old(self)@.push(token@),
    {
        self.0.push(token);
    }

    /// Joins all descriptors with `", "` in insertion order; an empty set
    /// renders to the empty string.
    pub fn render(&self) -> (r: String)
        ensures
            r@ == rendered(self@),
    {
        let mut acc = String::new();
        let n: usize = self.0.len();
        for i in 0..n
            invariant
                n == self.0.len(),
                acc@ == rendered(self@.take(i as int)),
        {
            if i > 0 {
                acc.append(", ");
            }
            acc.append(self.0[i].as_str());
            proof {
                lemma_rendered_step(self@, i + 1);
            }
        }
        proof {
            assert(self@.take(n as int) =~= self@);
        }
        acc
    }
}

/// One joining step: rendering the first `i` descriptors extends the
/// rendering of the first `i - 1` by a separator (except before the first)
/// and the descriptor itself.
proof fn lemma_rendered_step(descs: Seq<Seq<char>>, i: int)
    requires
        1 <= i <= descs.len(),
    ensures
        i == 1 ==> rendered(descs.take(i)) == descs[0],
        i > 1 ==> rendered(descs.take(i)) == rendered(descs.take(i - 1)) + ", "@ + descs[i - 1],
{
    let pre = descs.take(i);
    assert(pre.drop_last() =~= descs.take(i - 1));
    if i == 1 {
        assert(rendered(pre) == pre[0]);
    }
}

} // verus!
