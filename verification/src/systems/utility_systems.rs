use vstd::prelude::*;

verus! {

/// Union-find over the ids `0..n`, with path compression and union by rank.
///
/// Its abstract state is, for each id, the representative of its class
/// (`root`) and, for each id, its rank (`rank`).
pub struct DisjointSetUnion {
    parent: Vec<u32>,
    rank: Vec<u32>,
}

/// Every parent pointer stays in range and leads to a node of strictly
/// greater rank, unless it is a root (pointing to itself).
pub open spec fn ranked(parent: Seq<u32>, rank: Seq<u32>) -> bool {
    &&& parent.len() == rank.len()
    &&& forall|i: int| 0 <= i < parent.len() ==> (#[trigger] parent[i] as int) < parent.len()
    &&& forall|i: int|
        0 <= i < parent.len() && parent[i] != i ==> #[trigger] rank[i] < rank[parent[i] as int]
}

/// The representative reached from `x` by following parent pointers.
#[verifier::opaque]
pub open spec fn root_of(parent: Seq<u32>, rank: Seq<u32>, x: int) -> int
    decreases u32::MAX - rank[x],
    when ranked(parent, rank) && 0 <= x < parent.len()
{
    if parent[x] == x {
        x
    } else {
        root_of(parent, rank, parent[x] as int)
    }
}

/// Number of ids below `k` whose representative is `b`.
pub open spec fn class_size(parent: Seq<u32>, rank: Seq<u32>, b: int, k: int) -> nat
    decreases k,
{
    if k <= 0 {
        0
    } else {
        class_size(parent, rank, b, k - 1) + if root_of(parent, rank, k - 1) == b {
            1nat
        } else {
            0nat
        }
    }
}

/// Well-formedness of the two arrays: ranked, ids fit in `u32`, and every
/// class holds more members than the rank of its representative.
#[verifier::opaque]
pub open spec fn dsu_wf(parent: Seq<u32>, rank: Seq<u32>) -> bool {
    &&& ranked(parent, rank)
    &&& parent.len() <= u32::MAX
    &&& forall|b: int|
        0 <= b < parent.len() && #[trigger] parent[b] == b ==> class_size(
            parent,
            rank,
            b,
            parent.len() as int,
        ) > rank[b]
}

proof fn lemma_root_props(parent: Seq<u32>, rank: Seq<u32>, x: int)
    requires
        ranked(parent, rank),
        0 <= x < parent.len(),
    ensures
        0 <= root_of(parent, rank, x) < parent.len(),
        parent[root_of(parent, rank, x)] == root_of(parent, rank, x),
        root_of(parent, rank, x) != x ==> rank[x] < rank[root_of(parent, rank, x)],
        parent[x] == x ==> root_of(parent, rank, x) == x,
        root_of(parent, rank, parent[x] as int) == root_of(parent, rank, x),
    decreases u32::MAX - rank[x],
{
    reveal(root_of);
    if parent[x] != x {
        let p = parent[x] as int;
        lemma_root_props(parent, rank, p);
    }
}


proof fn lemma_compress(parent: Seq<u32>, rank: Seq<u32>, x: int)
    requires
        ranked(parent, rank),
        0 <= x < parent.len(),
    ensures
        ranked(parent.update(x, root_of(parent, rank, x) as u32), rank),
        forall|y: int|
            0 <= y < parent.len() ==> #[trigger] root_of(
                parent.update(x, root_of(parent, rank, x) as u32),
                rank,
                y,
            ) == root_of(parent, rank, y),
{
    let t = root_of(parent, rank, x);
    lemma_root_props(parent, rank, x);
    let p2 = parent.update(x, t as u32);
    assert(ranked(p2, rank)) by {
        assert forall|i: int| 0 <= i < p2.len() && p2[i] != i implies #[trigger] rank[i]
            < rank[p2[i] as int] by {
            if i != x {
                assert(p2[i] == parent[i]);
            }
        }
    }
    assert forall|y: int| 0 <= y < parent.len() implies #[trigger] root_of(p2, rank, y) == root_of(
        parent,
        rank,
        y,
    ) by {
        lemma_compress_root(parent, rank, x, y);
    }
}

proof fn lemma_compress_root(parent: Seq<u32>, rank: Seq<u32>, x: int, y: int)
    requires
        ranked(parent, rank),
        ranked(parent.update(x, root_of(parent, rank, x) as u32), rank),
        0 <= x < parent.len(),
        0 <= y < parent.len(),
    ensures
        root_of(parent.update(x, root_of(parent, rank, x) as u32), rank, y) == root_of(
            parent,
            rank,
            y,
        ),
    decreases u32::MAX - rank[y],
{
    reveal(root_of);
    let t = root_of(parent, rank, x);
    let p2 = parent.update(x, t as u32);
    lemma_root_props(parent, rank, x);
    lemma_root_props(parent, rank, y);
    if y == x {
        if t != x {
            assert(p2[t] == t);
            assert(root_of(p2, rank, t) == t);
        }
    } else if parent[y] != y {
        lemma_compress_root(parent, rank, x, parent[y] as int);
    }
}

/// The arrays after making root `a` a child of root `b`, with `b`'s rank
/// possibly raised.
spec fn linked(
    parent: Seq<u32>,
    rank: Seq<u32>,
    parent2: Seq<u32>,
    rank2: Seq<u32>,
    a: int,
    b: int,
) -> bool {
    &&& ranked(parent, rank)
    &&& 0 <= a < parent.len()
    &&& 0 <= b < parent.len()
    &&& a != b
    &&& parent[a] == a
    &&& parent[b] == b
    &&& parent2 == parent.update(a, b as u32)
    &&& rank2.len() == rank.len()
    &&& forall|i: int| 0 <= i < rank.len() && i != b ==> #[trigger] rank2[i] == rank[i]
    &&& rank[b] <= rank2[b]
    &&& rank[a] < rank2[b]
}

proof fn lemma_link(
    parent: Seq<u32>,
    rank: Seq<u32>,
    parent2: Seq<u32>,
    rank2: Seq<u32>,
    a: int,
    b: int,
)
    requires
        linked(parent, rank, parent2, rank2, a, b),
    ensures
        ranked(parent2, rank2),
        forall|y: int|
            0 <= y < parent.len() ==> #[trigger] root_of(parent2, rank2, y) == if root_of(
                parent,
                rank,
                y,
            ) == a {
                b
            } else {
                root_of(parent, rank, y)
            },
{
    assert(ranked(parent2, rank2)) by {
        assert forall|i: int| 0 <= i < parent2.len() && parent2[i] != i implies #[trigger] rank2[i]
            < rank2[parent2[i] as int] by {
            if i != a {
                assert(parent2[i] == parent[i]);
                if parent[i] as int != b {
                    assert(rank2[parent[i] as int] == rank[parent[i] as int]);
                }
            }
        }
    }
    assert forall|y: int| 0 <= y < parent.len() implies #[trigger] root_of(parent2, rank2, y) == if root_of(
        parent,
        rank,
        y,
    ) == a {
        b
    } else {
        root_of(parent, rank, y)
    } by {
        lemma_link_root(parent, rank, parent2, rank2, a, b, y);
    }
}

proof fn lemma_link_root(
    parent: Seq<u32>,
    rank: Seq<u32>,
    parent2: Seq<u32>,
    rank2: Seq<u32>,
    a: int,
    b: int,
    y: int,
)
    requires
        linked(parent, rank, parent2, rank2, a, b),
        ranked(parent2, rank2),
        0 <= y < parent.len(),
    ensures
        root_of(parent2, rank2, y) == if root_of(parent, rank, y) == a {
            b
        } else {
            root_of(parent, rank, y)
        },
    decreases u32::MAX - rank[y],
{
    reveal(root_of);
    lemma_root_props(parent, rank, y);
    if y == a {
        assert(parent2[b] == b);
        assert(root_of(parent2, rank2, b) == b);
    } else if parent[y] != y {
        assert(parent2[y] == parent[y]);
        lemma_link_root(parent, rank, parent2, rank2, a, b, parent[y] as int);
    }
}

/// Class sizes only depend on the representatives.
proof fn lemma_class_size_ext(
    parent: Seq<u32>,
    rank: Seq<u32>,
    parent2: Seq<u32>,
    rank2: Seq<u32>,
    b: int,
    k: int,
)
    requires
        0 <= k <= parent.len(),
        forall|y: int|
            0 <= y < parent.len() ==> #[trigger] root_of(parent2, rank2, y) == root_of(
                parent,
                rank,
                y,
            ),
    ensures
        class_size(parent2, rank2, b, k) == class_size(parent, rank, b, k),
    decreases k,
{
    if k > 0 {
        lemma_class_size_ext(parent, rank, parent2, rank2, b, k - 1);
        assert(root_of(parent2, rank2, k - 1) == root_of(parent, rank, k - 1));
    }
}

/// Linking `a` under `b` merges their classes and leaves the others alone.
proof fn lemma_class_size_link(
    parent: Seq<u32>,
    rank: Seq<u32>,
    parent2: Seq<u32>,
    rank2: Seq<u32>,
    a: int,
    b: int,
    c: int,
    k: int,
)
    requires
        linked(parent, rank, parent2, rank2, a, b),
        ranked(parent2, rank2),
        forall|y: int|
            0 <= y < parent.len() ==> #[trigger] root_of(parent2, rank2, y) == if root_of(
                parent,
                rank,
                y,
            ) == a {
                b
            } else {
                root_of(parent, rank, y)
            },
        0 <= k <= parent.len(),
        c != a,
    ensures
        c == b ==> class_size(parent2, rank2, c, k) == class_size(parent, rank, a, k) + class_size(
            parent,
            rank,
            b,
            k,
        ),
        c != b ==> class_size(parent2, rank2, c, k) == class_size(parent, rank, c, k),
    decreases k,
{
    if k > 0 {
        lemma_class_size_link(parent, rank, parent2, rank2, a, b, c, k - 1);
        assert(root_of(parent2, rank2, k - 1) == if root_of(parent, rank, k - 1) == a {
            b
        } else {
            root_of(parent, rank, k - 1)
        });
    }
}

/// Two distinct classes together hold at most `k` of the first `k` ids.
proof fn lemma_class_size_disjoint(parent: Seq<u32>, rank: Seq<u32>, a: int, b: int, k: int)
    requires
        a != b,
        k >= 0,
    ensures
        class_size(parent, rank, a, k) + class_size(parent, rank, b, k) <= k,
    decreases k,
{
    if k > 0 {
        lemma_class_size_disjoint(parent, rank, a, b, k - 1);
    }
}


/// Path compression keeps the arrays well formed and the classes intact.
proof fn lemma_compress_wf(parent: Seq<u32>, rank: Seq<u32>, x: int)
    requires
        dsu_wf(parent, rank),
        0 <= x < parent.len(),
    ensures
        dsu_wf(parent.update(x, root_of(parent, rank, x) as u32), rank),
        forall|y: int|
            0 <= y < parent.len() ==> #[trigger] root_of(
                parent.update(x, root_of(parent, rank, x) as u32),
                rank,
                y,
            ) == root_of(parent, rank, y),
{
    reveal(dsu_wf);
    lemma_compress(parent, rank, x);
    lemma_root_props(parent, rank, x);
    let p2 = parent.update(x, root_of(parent, rank, x) as u32);
    assert forall|b: int| 0 <= b < p2.len() && #[trigger] p2[b] == b implies class_size(
        p2,
        rank,
        b,
        p2.len() as int,
    ) > rank[b] by {
        lemma_class_size_ext(parent, rank, p2, rank, b, p2.len() as int);
        if b == x {
            assert(root_of(parent, rank, x) == x);
        }
        assert(parent[b] == b);
    }
}

/// Well-formed arrays are ranked.
proof fn lemma_wf_ranked(parent: Seq<u32>, rank: Seq<u32>)
    requires
        dsu_wf(parent, rank),
    ensures
        ranked(parent, rank),
        parent.len() <= u32::MAX,
{
    reveal(dsu_wf);
}

/// Two distinct representatives have ranks summing to less than the number
/// of ids, which bounds every rank.
proof fn lemma_rank_bound(parent: Seq<u32>, rank: Seq<u32>, a: int, b: int)
    requires
        dsu_wf(parent, rank),
        0 <= a < parent.len(),
        0 <= b < parent.len(),
        a != b,
        parent[a] == a,
        parent[b] == b,
    ensures
        rank[a] + rank[b] + 2 <= parent.len(),
{
    reveal(dsu_wf);
    lemma_class_size_disjoint(parent, rank, a, b, parent.len() as int);
}

/// Linking keeps the arrays well formed, provided the new rank of `b` is
/// its old rank, or one more when both ranks were equal.
proof fn lemma_link_wf(
    parent: Seq<u32>,
    rank: Seq<u32>,
    parent2: Seq<u32>,
    rank2: Seq<u32>,
    a: int,
    b: int,
)
    requires
        dsu_wf(parent, rank),
        linked(parent, rank, parent2, rank2, a, b),
        rank2[b] == rank[b] || (rank[a] == rank[b] && rank2[b] == rank[b] + 1),
    ensures
        dsu_wf(parent2, rank2),
        forall|y: int|
            0 <= y < parent.len() ==> #[trigger] root_of(parent2, rank2, y) == if root_of(
                parent,
                rank,
                y,
            ) == a {
                b
            } else {
                root_of(parent, rank, y)
            },
{
    reveal(dsu_wf);
    lemma_link(parent, rank, parent2, rank2, a, b);
    let n = parent.len() as int;
    assert forall|c: int| 0 <= c < parent2.len() && #[trigger] parent2[c] == c implies class_size(
        parent2,
        rank2,
        c,
        n,
    ) > rank2[c] by {
        assert(c != a);
        assert(parent[c] == c);
        lemma_class_size_link(parent, rank, parent2, rank2, a, b, c, n);
        if c == b {
            assert(parent[a] == a);
        }
    }
}

/// Chains the effect of the two finds and the link performed by `union`.
proof fn lemma_union_roots(
    p0: Seq<u32>,
    r0: Seq<u32>,
    pm: Seq<u32>,
    p1: Seq<u32>,
    p2: Seq<u32>,
    r2: Seq<u32>,
    x: int,
    y: int,
    a: int,
    b: int,
)
    requires
        0 <= x < p0.len(),
        0 <= y < p0.len(),
        pm.len() == p0.len(),
        p1.len() == p0.len(),
        a == root_of(p0, r0, x),
        b == root_of(pm, r0, y),
        a != b,
        forall|z: int| 0 <= z < p0.len() ==> #[trigger] root_of(pm, r0, z) == root_of(p0, r0, z),
        forall|z: int| 0 <= z < p0.len() ==> #[trigger] root_of(p1, r0, z) == root_of(pm, r0, z),
        ({
            let m = if r0[a] < r0[b] { b } else { a };
            let o = if r0[a] < r0[b] { a } else { b };
            forall|z: int|
                0 <= z < p0.len() ==> #[trigger] root_of(p2, r2, z) == if root_of(p1, r0, z) == o {
                    m
                } else {
                    root_of(p1, r0, z)
                }
        }),
    ensures
        ({
            let m = if r0[a] < r0[b] { b } else { a };
            &&& forall|z: int|
                0 <= z < p0.len() ==> #[trigger] root_of(p2, r2, z) == if root_of(p0, r0, z) == a
                    || root_of(p0, r0, z) == b {
                    m
                } else {
                    root_of(p0, r0, z)
                }
            &&& root_of(p2, r2, x) == m
            &&& root_of(p2, r2, y) == m
        }),
{
    let m = if r0[a] < r0[b] { b } else { a };
    assert forall|z: int| 0 <= z < p0.len() implies #[trigger] root_of(p2, r2, z) == if root_of(
        p0,
        r0,
        z,
    ) == a || root_of(p0, r0, z) == b {
        m
    } else {
        root_of(p0, r0, z)
    } by {
        assert(root_of(p1, r0, z) == root_of(pm, r0, z));
        assert(root_of(pm, r0, z) == root_of(p0, r0, z));
    }
    assert(root_of(p2, r2, x) == m) by {
        assert(root_of(p1, r0, x) == root_of(pm, r0, x));
    }
    assert(root_of(p2, r2, y) == m) by {
        assert(root_of(p1, r0, y) == root_of(pm, r0, y));
        assert(root_of(pm, r0, y) == root_of(p0, r0, y));
    }
}

/// With every id its own parent, each class is a singleton.
proof fn lemma_class_size_identity(parent: Seq<u32>, rank: Seq<u32>, b: int, k: int)
    requires
        ranked(parent, rank),
        forall|i: int| 0 <= i < parent.len() ==> #[trigger] parent[i] == i,
        0 <= b,
        0 <= k <= parent.len(),
    ensures
        class_size(parent, rank, b, k) == if b < k {
            1nat
        } else {
            0nat
        },
    decreases k,
{
    reveal(root_of);
    if k > 0 {
        lemma_class_size_identity(parent, rank, b, k - 1);
        assert(parent[k - 1] == k - 1);
    }
}

/// Every id of a well-formed union-find has a representative among the ids,
/// which represents itself.
pub proof fn lemma_root_is_representative(dsu: &DisjointSetUnion, x: int)
    requires
        dsu.wf(),
        0 <= x < dsu.size(),
    ensures
        0 <= dsu.root(x) < dsu.size(),
        dsu.root(dsu.root(x)) == dsu.root(x),
{
    lemma_wf_ranked(dsu.parent@, dsu.rank@);
    lemma_root_props(dsu.parent@, dsu.rank@, x);
    lemma_root_props(dsu.parent@, dsu.rank@, dsu.root(x));
}

impl DisjointSetUnion {
    /// The arrays are consistent (see `dsu_wf`).
    pub closed spec fn wf(&self) -> bool {
        dsu_wf(self.parent@, self.rank@)
    }

    /// Number of ids managed.
    pub closed spec fn size(&self) -> nat {
        self.parent@.len()
    }

    /// Representative of the class of `x`.
    pub closed spec fn root(&self, x: int) -> int {
        root_of(self.parent@, self.rank@, x)
    }

    /// Rank of `x`, which decides the direction of a union.
    pub closed spec fn rank_of(&self, x: int) -> nat {
        self.rank@[x] as nat
    }

    /// Creates `size` singleton classes, each id its own representative with
    /// rank zero.
    pub fn new(size: usize) -> (dsu: Self)
        requires
            size <= u32::MAX,
        ensures
            dsu.wf(),
            dsu.size() == size,
            forall|i: int| 0 <= i < size ==> #[trigger] dsu.root(i) == i,
            forall|i: int| 0 <= i < size ==> #[trigger] dsu.rank_of(i) == 0,
    {
        let n: u32 = size as u32;
        let mut parent: Vec<u32> = Vec::new();
        let mut i: u32 = 0;
        while i < n
            invariant
                i <= n,
                n == size,
                parent@.len() == i,
                forall|j: int| 0 <= j < i ==> #[trigger] parent@[j] == j,
            decreases n - i,
        {
            parent.push(i);
            i = i + 1;
        }
        let rank: Vec<u32> = vec![0; size];
        let dsu = DisjointSetUnion { parent, rank };
        proof {
            reveal(dsu_wf);
            assert forall|j: int| 0 <= j < size implies #[trigger] dsu.rank@[j] == 0 by {
                assert(cloned(0u32, dsu.rank@[j]));
            }
            assert(ranked(dsu.parent@, dsu.rank@));
            assert forall|b: int|
                0 <= b < dsu.parent@.len() && #[trigger] dsu.parent@[b] == b implies class_size(
                dsu.parent@,
                dsu.rank@,
                b,
                dsu.parent@.len() as int,
            ) > dsu.rank@[b] by {
                lemma_class_size_identity(dsu.parent@, dsu.rank@, b, dsu.parent@.len() as int);
            }
            assert forall|j: int| 0 <= j < size implies #[trigger] dsu.root(j) == j by {
                lemma_root_props(dsu.parent@, dsu.rank@, j);
            }
        }
        dsu
    }

    /// Returns the representative of `x`, pointing `x` and every node on its
    /// path directly at it. Classes, representatives and ranks are unchanged.
    pub fn find(&mut self, x: u32) -> (r: u32)
        requires
            old(self).wf(),
            x < old(self).size(),
        ensures
            final(self).wf(),
            r == old(self).root(x as int),
            final(self).root(r as int) == r,
            final(self).size() == old(self).size(),
            forall|y: int|
                0 <= y < old(self).size() ==> #[trigger] final(self).root(y) == old(self).root(y),
            forall|y: int|
                0 <= y < old(self).size() ==> #[trigger] final(self).rank_of(y) == old(
                    self,
                ).rank_of(y),
    {
        let ghost p0 = self.parent@;
        let ghost r0 = self.rank@;
        proof {
            lemma_wf_ranked(p0, r0);
            lemma_root_props(p0, r0, x as int);
        }
        let r = self.find_compress(x);
        proof {
            lemma_root_props(p0, r0, r as int);
        }
        r
    }

    /// Merges the classes of `x` and `y`. The representative of lower rank
    /// goes under the other; on a tie, `y`'s goes under `x`'s, whose rank
    /// grows by one.
    pub fn union(&mut self, x: u32, y: u32)
        requires
            old(self).wf(),
            x < old(self).size(),
            y < old(self).size(),
        ensures
            final(self).wf(),
            final(self).size() == old(self).size(),
            final(self).root(x as int) == final(self).root(y as int),
            ({
                let rx = old(self).root(x as int);
                let ry = old(self).root(y as int);
                let m = if rx != ry && old(self).rank_of(rx) < old(self).rank_of(ry) {
                    ry
                } else {
                    rx
                };
                &&& forall|z: int|
                    0 <= z < old(self).size() ==> #[trigger] final(self).root(z) == if old(
                        self,
                    ).root(z) == rx || old(self).root(z) == ry {
                        m
                    } else {
                        old(self).root(z)
                    }
                &&& forall|z: int|
                    0 <= z < old(self).size() ==> #[trigger] final(self).rank_of(z) == if z == m
                        && rx != ry && old(self).rank_of(rx) == old(self).rank_of(ry) {
                        old(self).rank_of(z) + 1
                    } else {
                        old(self).rank_of(z)
                    }
            }),
    {
        let ghost p0 = self.parent@;
        let ghost r0 = self.rank@;
        proof {
            lemma_wf_ranked(p0, r0);
            lemma_root_props(p0, r0, x as int);
            lemma_root_props(p0, r0, y as int);
        }
        let x_root = self.find_compress(x);
        let ghost pm = self.parent@;
        proof {
            lemma_wf_ranked(pm, r0);
            lemma_root_props(pm, r0, y as int);
        }
        let y_root = self.find_compress(y);
        let ghost p1 = self.parent@;
        proof {
            lemma_wf_ranked(p1, r0);
            lemma_root_props(p1, r0, x as int);
            lemma_root_props(p1, r0, y as int);
            assert(root_of(p1, r0, x as int) == root_of(pm, r0, x as int));
        }
        if x_root == y_root {
            proof {
                lemma_root_props(p1, r0, x as int);
                lemma_root_props(p1, r0, y as int);
            }
            return;
        }
        proof {
            lemma_rank_bound(p1, r0, x_root as int, y_root as int);
        }
        self.link_roots(x_root, y_root);
        proof {
            lemma_union_roots(p0, r0, pm, p1, self.parent@, self.rank@, x as int, y as int, x_root as int, y_root as int);
        }
    }

    /// Puts the representative of lower rank under the other; on a tie, `b`
    /// goes under `a`, whose rank grows by one.
    fn link_roots(&mut self, a: u32, b: u32)
        requires
            dsu_wf(old(self).parent@, old(self).rank@),
            a < old(self).parent@.len(),
            b < old(self).parent@.len(),
            a != b,
            old(self).parent@[a as int] == a,
            old(self).parent@[b as int] == b,
        ensures
            dsu_wf(final(self).parent@, final(self).rank@),
            final(self).parent@.len() == old(self).parent@.len(),
            ({
                let r = old(self).rank@;
                let m = if r[a as int] < r[b as int] { b as int } else { a as int };
                let o = if r[a as int] < r[b as int] { a as int } else { b as int };
                &&& forall|z: int|
                    0 <= z < old(self).parent@.len() ==> #[trigger] root_of(
                        final(self).parent@,
                        final(self).rank@,
                        z,
                    ) == if root_of(old(self).parent@, r, z) == o {
                        m
                    } else {
                        root_of(old(self).parent@, r, z)
                    }
                &&& final(self).rank@ == if r[a as int] == r[b as int] {
                    r.update(a as int, (r[a as int] + 1) as u32)
                } else {
                    r
                }
            }),
    {
        let ghost p1 = self.parent@;
        let ghost r1 = self.rank@;
        proof {
            lemma_wf_ranked(p1, r1);
        }
        if self.rank[a as usize] < self.rank[b as usize] {
            self.parent.set(a as usize, b);
            proof {
                lemma_link_wf(p1, r1, self.parent@, self.rank@, a as int, b as int);
            }
        } else if self.rank[a as usize] > self.rank[b as usize] {
            self.parent.set(b as usize, a);
            proof {
                lemma_link_wf(p1, r1, self.parent@, self.rank@, b as int, a as int);
            }
        } else {
            proof {
                lemma_rank_bound(p1, r1, a as int, b as int);
            }
            self.parent.set(b as usize, a);
            let bumped = self.rank[a as usize] + 1;
            self.rank.set(a as usize, bumped);
            proof {
                lemma_link_wf(p1, r1, self.parent@, self.rank@, b as int, a as int);
            }
        }
    }

    fn find_compress(&mut self, x: u32) -> (r: u32)
        requires
            dsu_wf(old(self).parent@, old(self).rank@),
            x < old(self).parent@.len(),
        ensures
            dsu_wf(final(self).parent@, final(self).rank@),
            final(self).rank@ == old(self).rank@,
            final(self).parent@.len() == old(self).parent@.len(),
            r == root_of(old(self).parent@, old(self).rank@, x as int),
            forall|y: int|
                0 <= y < old(self).parent@.len() ==> #[trigger] root_of(
                    final(self).parent@,
                    final(self).rank@,
                    y,
                ) == root_of(old(self).parent@, old(self).rank@, y),
        decreases u32::MAX - old(self).rank@[x as int],
    {
        proof {
            lemma_wf_ranked(self.parent@, self.rank@);
            lemma_root_props(self.parent@, self.rank@, x as int);
        }
        let parent = self.parent[x as usize];
        if parent != x {
            let ghost p0 = self.parent@;
            let ghost r0 = self.rank@;
            let r = self.find_compress(parent);
            let ghost p1 = self.parent@;
            proof {
                lemma_wf_ranked(p1, r0);
                lemma_root_props(p0, r0, x as int);
                lemma_root_props(p1, r0, x as int);
                lemma_compress_wf(p1, r0, x as int);
            }
            self.parent.set(x as usize, r);
            self.parent[x as usize]
        } else {
            x
        }
    }
}

} // verus!
