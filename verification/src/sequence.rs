//! Sequence identifiers: the order in which the parts of a written stream are
//! laid out.
//!
//! An identifier is a path of counters, ordered lexicographically (a proper
//! prefix comes first). A pointer hands out identifiers in increasing order:
//! `advance` gives the current identifier and moves to the next sibling, and
//! `split_off` gives a pointer to a sub-sequence that comes, with everything that
//! can be handed out from it, before everything that the remaining pointer can
//! still hand out.

use vstd::prelude::*;

verus! {

/// `a` and `b` agree on their first `k` counters.
pub open spec fn agree_before(a: Seq<usize>, b: Seq<usize>, k: int) -> bool {
    forall|j: int| 0 <= j < k ==> a[j] == b[j]
}

/// Lexicographic order of paths: at the first place where they differ `a` has the
/// smaller counter, or `a` is a proper prefix of `b`.
pub open spec fn lex_less(a: Seq<usize>, b: Seq<usize>) -> bool {
    exists|k: int|
        0 <= k <= a.len() && k <= b.len() && #[trigger] agree_before(a, b, k) && (
        (k < a.len() && k < b.len() && a[k] < b[k]) || (k == a.len() && k < b.len()))
}

/// `x` is an identifier that a pointer at path `p`, or any pointer split off from
/// it later, can still hand out: `x` extends `p` without its last counter, and
/// its counter at that place is at least the one of `p`.
pub open spec fn reachable_from(p: Seq<usize>, x: Seq<usize>) -> bool {
    &&& p.len() >= 1
    &&& x.len() >= p.len()
    &&& agree_before(x, p, p.len() - 1)
    &&& x[p.len() - 1] >= p[p.len() - 1]
}

/// The path that follows `p` at the same depth.
pub open spec fn next_sibling(p: Seq<usize>) -> Seq<usize>
    recommends
        p.len() >= 1,
{
    p.update(p.len() - 1, (p[p.len() - 1] + 1) as usize)
}

/// A position in the order of a written stream.
pub struct SequenceId {
    path: Vec<usize>,
}

impl View for SequenceId {
    type V = Seq<usize>;

    closed spec fn view(&self) -> Seq<usize> {
        self.path@
    }
}

/// A cursor that hands out sequence identifiers in increasing order.
pub struct SequencePointer {
    id: SequenceId,
}

impl View for SequencePointer {
    type V = Seq<usize>;

    closed spec fn view(&self) -> Seq<usize> {
        self.id@
    }
}

impl SequenceId {
    /// The counters of this identifier.
    pub fn path(&self) -> (r: &Vec<usize>)
        ensures
            r@ == self@,
    {
        &self.path
    }

    /// Whether this identifier comes strictly before `other`.
    pub fn precedes(&self, other: &SequenceId) -> (r: bool)
        ensures
            r == lex_less(self@, other@),
    {
        let a = &self.path;
        let b = &other.path;
        let mut i: usize = 0;
        while i < a.len() && i < b.len()
            invariant
                a@ == self@,
                b@ == other@,
                i <= a.len(),
                i <= b.len(),
                agree_before(a@, b@, i as int),
            decreases a.len() - i,
        {
            if a[i] != b[i] {
                let r = a[i] < b[i];
                proof {
                    if r {
                        assert(agree_before(a@, b@, i as int));
                    } else {
                        assert forall|k: int|
                            0 <= k <= a@.len() && k <= b@.len() && #[trigger] agree_before(a@, b@, k)
                            implies !((k < a@.len() && k < b@.len() && a@[k] < b@[k]) || (k == a@.len()
                            && k < b@.len())) by {
                            if k < i {
                                assert(a@[k] == b@[k]);
                            } else if k > i {
                                assert(a@[i as int] == b@[i as int]);
                            }
                        }
                    }
                }
                return r;
            }
            i += 1;
        }
        let r = a.len() < b.len();
        proof {
            if r {
                assert(agree_before(a@, b@, i as int));
            } else {
                assert forall|k: int|
                    0 <= k <= a@.len() && k <= b@.len() && #[trigger] agree_before(a@, b@, k)
                    implies !((k < a@.len() && k < b@.len() && a@[k] < b@[k]) || (k == a@.len() && k
                    < b@.len())) by {
                    if k < a@.len() && k < b@.len() {
                        assert(agree_before(a@, b@, i as int));
                        assert(a@[k] == b@[k]);
                    }
                }
            }
        }
        r
    }

    /// A pointer to the sub-sequence that starts under this identifier: its path is
    /// this one followed by a zero counter.
    pub fn descend(self) -> (p: SequencePointer)
        ensures
            p@ == self@.push(0),
    {
        let mut path = self.path;
        path.push(0);
        SequencePointer { id: SequenceId { path } }
    }
}

impl SequencePointer {
    /// The first pointer of a stream, at path `[0]`.
    pub fn root() -> (p: SequencePointer)
        ensures
            p@ == seq![0usize],
    {
        let mut path: Vec<usize> = Vec::new();
        path.push(0);
        SequencePointer { id: SequenceId { path } }
    }

    /// Hands out the current identifier and moves to its next sibling.
    pub fn advance(&mut self) -> (current: SequenceId)
        requires
            old(self)@.len() >= 1,
            old(self)@.last() < usize::MAX,
        ensures
            current@ == old(self)@,
            final(self)@ == next_sibling(old(self)@),
    {
        let current_path = self.id.path.clone();
        let last = current_path.len() - 1;
        let mut next_path = self.id.path.clone();
        next_path.set(last, current_path[last] + 1);
        assert(current_path@ =~= old(self)@);
        self.id = SequenceId { path: next_path };
        assert(self@ =~= next_sibling(old(self)@));
        SequenceId { path: current_path }
    }

    /// The identifier this pointer is at.
    pub fn id(&self) -> (r: &SequenceId)
        ensures
            r@ == self@,
    {
        &self.id
    }

    /// Splits off a pointer to a sub-sequence under the current identifier and moves
    /// this pointer past it.
    pub fn split_off(&mut self) -> (first: SequencePointer)
        requires
            old(self)@.len() >= 1,
            old(self)@.last() < usize::MAX,
        ensures
            first@ == old(self)@.push(0),
            final(self)@ == next_sibling(old(self)@),
    {
        self.advance().descend()
    }

    /// Splits this pointer in two: the first part, then the rest.
    pub fn split(self) -> (parts: (SequencePointer, SequencePointer))
        requires
            self@.len() >= 1,
            self@.last() < usize::MAX,
        ensures
            parts.0@ == self@.push(0),
            parts.1@ == next_sibling(self@),
    {
        let mut rest = self;
        let first = rest.split_off();
        (first, rest)
    }

    /// The identifier this pointer is at.
    pub fn downgrade(self) -> (id: SequenceId)
        ensures
            id@ == self@,
    {
        self.id
    }
}

/// Every identifier that a pointer split off from `p` can hand out comes before
/// every identifier that `p` can hand out afterwards; and both are identifiers
/// that `p` could hand out before the split.
pub proof fn lemma_split_off_orders(p: Seq<usize>, x: Seq<usize>, y: Seq<usize>)
    requires
        p.len() >= 1,
        p.last() < usize::MAX,
        reachable_from(p.push(0), x),
        reachable_from(next_sibling(p), y),
    ensures
        lex_less(x, y),
        reachable_from(p, x),
        reachable_from(p, y),
{
    let n = p.len() - 1;
    assert(x[n] == p.push(0)[n]);
    assert(agree_before(x, y, n)) by {
        assert forall|j: int| 0 <= j < n implies x[j] == y[j] by {
            assert(x[j] == p.push(0)[j]);
            assert(y[j] == next_sibling(p)[j]);
        }
    }
    assert(x[n] < y[n]);
    assert(reachable_from(p, x)) by {
        assert forall|j: int| 0 <= j < n implies x[j] == p[j] by {
            assert(x[j] == p.push(0)[j]);
        }
    }
    assert(reachable_from(p, y)) by {
        assert forall|j: int| 0 <= j < n implies y[j] == p[j] by {
            assert(y[j] == next_sibling(p)[j]);
        }
    }
}

/// The identifier that `advance` hands out comes before every identifier that the
/// advanced pointer can hand out.
pub proof fn lemma_advance_orders(p: Seq<usize>, y: Seq<usize>)
    requires
        p.len() >= 1,
        p.last() < usize::MAX,
        reachable_from(next_sibling(p), y),
    ensures
        lex_less(p, y),
        reachable_from(p, p),
{
    let n = p.len() - 1;
    assert(agree_before(p, y, n)) by {
        assert forall|j: int| 0 <= j < n implies p[j] == y[j] by {
            assert(y[j] == next_sibling(p)[j]);
        }
    }
    assert(agree_before(p, p, n));
}

/// The order of identifiers is irreflexive: no identifier comes before itself.
pub proof fn lemma_lex_less_irreflexive(a: Seq<usize>)
    ensures
        !lex_less(a, a),
{
}

/// The order of identifiers is transitive.
pub proof fn lemma_lex_less_transitive(a: Seq<usize>, b: Seq<usize>, c: Seq<usize>)
    requires
        lex_less(a, b),
        lex_less(b, c),
    ensures
        lex_less(a, c),
{
    let k1 = choose|k: int|
        0 <= k <= a.len() && k <= b.len() && #[trigger] agree_before(a, b, k) && (
        (k < a.len() && k < b.len() && a[k] < b[k]) || (k == a.len() && k < b.len()));
    let k2 = choose|k: int|
        0 <= k <= b.len() && k <= c.len() && #[trigger] agree_before(b, c, k) && (
        (k < b.len() && k < c.len() && b[k] < c[k]) || (k == b.len() && k < c.len()));
    if k1 <= k2 {
        assert(agree_before(a, c, k1)) by {
            assert forall|j: int| 0 <= j < k1 implies a[j] == c[j] by {
                assert(a[j] == b[j]);
                assert(b[j] == c[j]);
            }
        }
        if k1 < k2 {
            if k1 < a.len() {
                assert(b[k1] == c[k1]);
            }
        }
    } else {
        assert(agree_before(a, c, k2)) by {
            assert forall|j: int| 0 <= j < k2 implies a[j] == c[j] by {
                assert(a[j] == b[j]);
                assert(b[j] == c[j]);
            }
        }
        assert(a[k2] == b[k2]);
    }
}

proof fn lemma_total_from(a: Seq<usize>, b: Seq<usize>, k: int)
    requires
        a != b,
        0 <= k <= a.len(),
        k <= b.len(),
        agree_before(a, b, k),
    ensures
        lex_less(a, b) || lex_less(b, a),
    decreases a.len() - k,
{
    assert(agree_before(b, a, k));
    if k == a.len() && k == b.len() {
        assert(a =~= b);
    } else if k == a.len() || k == b.len() {
    } else if a[k] != b[k] {
    } else {
        assert(agree_before(a, b, k + 1));
        lemma_total_from(a, b, k + 1);
    }
}

/// The order of identifiers is total: of two different identifiers, one comes
/// before the other.
pub proof fn lemma_lex_less_total(a: Seq<usize>, b: Seq<usize>)
    requires
        a != b,
    ensures
        lex_less(a, b) || lex_less(b, a),
{
    assert(agree_before(a, b, 0));
    lemma_total_from(a, b, 0);
}

} // verus!
