//! The incremental Merkle tree: an append-only accumulator of commitments that
//! computes each new root in `TREE_LEVELS` hashes and keeps a bounded window of
//! the most recent roots.

use vstd::prelude::*;
use crate::mimc::{pair_hash, MimcSponge};
use crate::uint::{lemma_u256_value_injective, U256};

verus! {

/// The depth of the tree.
pub const TREE_LEVELS: usize = 20;

/// The number of leaves the tree can hold, `2^TREE_LEVELS`.
pub const MAX_LEAVES: u32 = 1048576;

/// How many of the most recent roots are accepted.
pub const ROOT_HISTORY_SIZE: usize = 30;

/// The last `ROOT_HISTORY_SIZE` roots of a history (all of it when shorter).
pub open spec fn root_window(history: Seq<U256>) -> Seq<U256> {
    if history.len() <= ROOT_HISTORY_SIZE {
        history
    } else {
        history.subrange(history.len() - ROOT_HISTORY_SIZE, history.len() as int)
    }
}

/// The window after `root` is appended: the oldest entry is evicted once
/// the window would exceed `ROOT_HISTORY_SIZE`.
pub open spec fn push_window(roots: Seq<U256>, root: U256) -> Seq<U256> {
    let s = roots.push(root);
    if s.len() > ROOT_HISTORY_SIZE {
        s.subrange(1, s.len() as int)
    } else {
        s
    }
}

/// The path of one insertion from `level` up: at each level an even index
/// makes the running hash the left child and caches it in `filled[level]`,
/// whose old entry is the right child; an odd index takes the cached entry
/// as the left child. Yields the updated cache and the new root.
pub open spec fn insert_walk(
    c: Seq<nat>,
    filled: Seq<U256>,
    index: nat,
    cur: U256,
    level: nat,
) -> (Seq<U256>, U256)
    decreases TREE_LEVELS - level,
{
    if level >= TREE_LEVELS {
        (filled, cur)
    } else if index % 2 == 0 {
        insert_walk(
            c,
            filled.update(level as int, cur),
            index / 2,
            pair_hash(c, cur, filled[level as int]),
            level + 1,
        )
    } else {
        insert_walk(c, filled, index / 2, pair_hash(c, filled[level as int], cur), level + 1)
    }
}

/// Appending a root to a history moves its window as `push_window` says.
pub proof fn lemma_window_push(history: Seq<U256>, root: U256)
    ensures
        root_window(history.push(root)) == push_window(root_window(history), root),
{
    let h2 = history.push(root);
    if history.len() >= ROOT_HISTORY_SIZE {
        assert(root_window(h2) =~= push_window(root_window(history), root));
    } else {
        assert(root_window(h2) =~= push_window(root_window(history), root));
    }
}

/// `cur` hashed with a zero right sibling at each level from `level` up.
pub open spec fn zero_chain(c: Seq<nat>, cur: U256, level: nat) -> U256
    decreases TREE_LEVELS - level,
{
    if level >= TREE_LEVELS {
        cur
    } else {
        zero_chain(c, pair_hash(c, cur, U256 { hi: 0, lo: 0 }), level + 1)
    }
}

/// While every cached subtree is zero, as in an empty tree, the first leaf's
/// root is fixed by the pair hash alone: the leaf hashed with zero once per
/// level.
pub proof fn lemma_first_root(c: Seq<nat>, filled: Seq<U256>, leaf: U256, level: nat)
    requires
        filled.len() == TREE_LEVELS,
        forall|i: int| level <= i < TREE_LEVELS ==> (#[trigger] filled[i]).value() == 0,
    ensures
        insert_walk(c, filled, 0, leaf, level).1 == zero_chain(c, leaf, level),
    decreases TREE_LEVELS - level,
{
    if level < TREE_LEVELS {
        lemma_u256_value_injective(filled[level as int], U256 { hi: 0, lo: 0 });
        let next = pair_hash(c, leaf, filled[level as int]);
        let filled2 = filled.update(level as int, leaf);
        assert forall|i: int| level + 1 <= i < TREE_LEVELS implies (#[trigger] filled2[i]).value() == 0 by {
            assert(filled2[i] == filled[i]);
        }
        lemma_first_root(c, filled2, next, level + 1);
    }
}

/// The zero value is never an accepted root, whatever the tree holds.
pub proof fn lemma_zero_root_never_known(tree: MerkleTree, root: U256)
    requires
        root.value() == 0,
    ensures
        !tree.knows_root(root),
{
}

/// After `ROOT_HISTORY_SIZE + 1` insertions into an empty tree, the window
/// holds exactly the latest `ROOT_HISTORY_SIZE` roots: each of them that is
/// not zero is known, and the first root is known only if a later root
/// equals it.
pub proof fn lemma_root_window_eviction(tree: MerkleTree)
    requires
        tree.wf(),
        tree.next_index == ROOT_HISTORY_SIZE + 1,
    ensures
        tree.roots@ == tree.history@.subrange(1, ROOT_HISTORY_SIZE + 1),
        forall|j: int|
            1 <= j <= ROOT_HISTORY_SIZE && (#[trigger] tree.history@[j]).value() != 0 ==> tree.knows_root(
                tree.history@[j],
            ),
        tree.knows_root(tree.history@[0]) <==> tree.history@[0].value() != 0 && exists|j: int|
            1 <= j <= ROOT_HISTORY_SIZE && #[trigger] tree.history@[j] == tree.history@[0],
{
    let h = tree.history@;
    assert forall|j: int| 1 <= j <= ROOT_HISTORY_SIZE implies tree.roots@.contains(#[trigger] h[j]) by {
        assert(tree.roots@[j - 1] == h[j]);
    }
    if tree.roots@.contains(h[0]) {
        let k = choose|k: int| 0 <= k < tree.roots@.len() && tree.roots@[k] == h[0];
        assert(h[k + 1] == h[0]);
    }
}

pub struct MerkleTree {
    /// The index the next leaf will take; also the number of leaves.
    pub next_index: u32,
    /// Per level, the latest left child still awaiting its right sibling.
    pub filled_subtrees: Vec<U256>,
    /// The most recent roots, oldest first.
    pub roots: Vec<U256>,
    /// Every root the tree has had, oldest first.
    pub history: Ghost<Seq<U256>>,
}

impl MerkleTree {
    pub open spec fn wf(&self) -> bool {
        &&& self.filled_subtrees@.len() == TREE_LEVELS
        &&& self.next_index <= MAX_LEAVES
        &&& self.history@.len() == self.next_index
        &&& self.roots@ == root_window(self.history@)
    }

    /// Whether `root` is accepted: it is not zero and is in the window.
    pub open spec fn knows_root(&self, root: U256) -> bool {
        root.value() != 0 && self.roots@.contains(root)
    }

    /// An empty tree: no leaves, no roots, every cached subtree zero.
    pub fn new() -> (r: MerkleTree)
        ensures
            r.wf(),
            r.next_index == 0,
            r.roots@.len() == 0,
            r.history@.len() == 0,
            forall|i: int| 0 <= i < TREE_LEVELS ==> (#[trigger] r.filled_subtrees@[i]).value() == 0,
    {
        let mut filled_subtrees: Vec<U256> = Vec::new();
        let mut i: usize = 0;
        while i < TREE_LEVELS
            invariant
                i <= TREE_LEVELS,
                filled_subtrees@.len() == i,
                forall|j: int| 0 <= j < i ==> (#[trigger] filled_subtrees@[j]).value() == 0,
            decreases TREE_LEVELS - i,
        {
            filled_subtrees.push(U256::zero());
            i = i + 1;
        }
        let r = MerkleTree {
            next_index: 0,
            filled_subtrees,
            roots: Vec::new(),
            history: Ghost(Seq::empty()),
        };
        assert(r.roots@ =~= root_window(r.history@));
        r
    }

    /// Whether persisted parts describe a tree: one cached subtree per level,
    /// at most `MAX_LEAVES` leaves, and a window as long as the leaf count
    /// allows.
    pub open spec fn parts_valid(next_index: u32, filled_subtrees: Seq<U256>, roots: Seq<U256>) -> bool {
        &&& filled_subtrees.len() == TREE_LEVELS
        &&& next_index <= MAX_LEAVES
        &&& roots.len() == if next_index <= ROOT_HISTORY_SIZE {
            next_index as int
        } else {
            ROOT_HISTORY_SIZE as int
        }
    }

    /// Rebuilds a tree from the parts its storage holds, or `None` when they
    /// describe no tree. The roots that fell out of the window are not kept,
    /// so the rebuilt history agrees with the stored tree only within its window.
    pub fn from_parts(next_index: u32, filled_subtrees: Vec<U256>, roots: Vec<U256>) -> (r: Option<
        MerkleTree,
    >)
        ensures
            r is Some <==> Self::parts_valid(next_index, filled_subtrees@, roots@),
            r matches Some(t) ==> {
                &&& t.wf()
                &&& t.next_index == next_index
                &&& t.filled_subtrees@ == filled_subtrees@
                &&& t.roots@ == roots@
            },
    {
        if filled_subtrees.len() != TREE_LEVELS || next_index > MAX_LEAVES {
            return None;
        }
        let expected: usize = if next_index as usize <= ROOT_HISTORY_SIZE {
            next_index as usize
        } else {
            ROOT_HISTORY_SIZE
        };
        if roots.len() != expected {
            return None;
        }
        let ghost evicted = next_index - roots@.len();
        let ghost history = Seq::new(
            next_index as nat,
            |i: int|
                if i < evicted {
                    U256 { hi: 0, lo: 0 }
                } else {
                    roots@[i - evicted]
                },
        );
        assert(root_window(history) =~= roots@);
        Some(MerkleTree { next_index, filled_subtrees, roots, history: Ghost(history) })
    }

    /// Appends `leaf`, returning the new root, which also enters the window.
    pub fn insert(&mut self, leaf: U256, hasher: &MimcSponge) -> (root: U256)
        requires
            old(self).wf(),
            old(self).next_index < MAX_LEAVES,
        ensures
            final(self).wf(),
            final(self).next_index == old(self).next_index + 1,
            (final(self).filled_subtrees@, root) == insert_walk(
                hasher.round_constants(),
                old(self).filled_subtrees@,
                old(self).next_index as nat,
                leaf,
                0,
            ),
            final(self).roots@ == push_window(old(self).roots@, root),
            final(self).history@ == old(self).history@.push(root),
    {
        let ghost c = hasher.round_constants();
        let ghost target = insert_walk(c, self.filled_subtrees@, self.next_index as nat, leaf, 0);
        let ghost roots0 = self.roots@;
        let ghost history0 = self.history@;
        let next_index = self.next_index;
        let mut current_index = next_index;
        let mut current_level_hash = leaf;
        let mut i: usize = 0;
        while i < TREE_LEVELS
            invariant
                i <= TREE_LEVELS,
                c == hasher.round_constants(),
                self.filled_subtrees@.len() == TREE_LEVELS,
                self.next_index == next_index,
                self.roots@ == roots0,
                self.history@ == history0,
                insert_walk(c, self.filled_subtrees@, current_index as nat, current_level_hash, i as nat)
                    == target,
            decreases TREE_LEVELS - i,
        {
            let ghost filled0 = self.filled_subtrees@;
            let ghost index0 = current_index as nat;
            let ghost hash0 = current_level_hash;
            let left;
            let right;
            if current_index % 2 == 0 {
                left = current_level_hash;
                right = self.filled_subtrees[i];
                self.filled_subtrees.set(i, current_level_hash);
            } else {
                left = self.filled_subtrees[i];
                right = current_level_hash;
            }
            current_level_hash = hasher.hash_pair(left, right);
            current_index = current_index / 2;
            i = i + 1;
            assert(insert_walk(c, filled0, index0, hash0, (i - 1) as nat) == insert_walk(
                c,
                self.filled_subtrees@,
                current_index as nat,
                current_level_hash,
                i as nat,
            ));
        }
        self.roots.push(current_level_hash);
        if self.roots.len() > ROOT_HISTORY_SIZE {
            self.roots.remove(0);
        }
        assert(self.roots@ =~= push_window(roots0, current_level_hash));
        self.next_index = next_index + 1;
        self.history = Ghost(history0.push(current_level_hash));
        proof {
            lemma_window_push(history0, current_level_hash);
        }
        current_level_hash
    }

    pub fn is_known_root(&self, root: U256) -> (r: bool)
        ensures
            r == self.knows_root(root),
    {
        if root.is_zero() {
            return false;
        }
        let mut i: usize = 0;
        while i < self.roots.len()
            invariant
                i <= self.roots@.len(),
                root.value() != 0,
                forall|j: int| 0 <= j < i ==> self.roots@[j] != root,
            decreases self.roots@.len() - i,
        {
            if self.roots[i] == root {
                assert(self.roots@[i as int] == root);
                return true;
            }
            i = i + 1;
        }
        false
    }

    /// The most recent root, or zero while the tree is empty.
    pub fn get_last_root(&self) -> (r: U256)
        ensures
            self.roots@.len() == 0 ==> r.value() == 0,
            self.roots@.len() > 0 ==> r == self.roots@.last(),
    {
        if self.roots.len() == 0 {
            return U256::zero();
        }
        self.roots[self.roots.len() - 1]
    }
}

impl Default for MerkleTree {
    fn default() -> (r: MerkleTree)
        ensures
            r.wf(),
            r.next_index == 0,
            r.roots@.len() == 0,
            r.history@.len() == 0,
            forall|i: int| 0 <= i < TREE_LEVELS ==> (#[trigger] r.filled_subtrees@[i]).value() == 0,
    {
        MerkleTree::new()
    }
}

} // verus!
