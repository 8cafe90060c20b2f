use vstd::prelude::*;

use crate::chain::{Block, BlockView};
use crate::encode::block_hash_of;
use crate::hash::Hash32;

verus! {

broadcast use Seq::lemma_push_map_commute;

/// The inserted block's parent hash matched no member of the tree; the block
/// is handed back unchanged.
#[derive(Debug, PartialEq, Eq, Clone)]
pub struct BlockDoesNotExtendTree(pub Block);

/// A member of the tree: a block, its hash (computed once, at insertion), and
/// its height above the stable anchor (the anchor itself sits at height 0).
pub struct TreeNode {
    pub block: Block,
    pub hash: Hash32,
    pub height: usize,
}

#[verifier::ext_equal]
pub struct NodeView {
    pub block: BlockView,
    pub hash: Seq<u8>,
    pub height: nat,
}

impl View for TreeNode {
    type V = NodeView;

    open spec fn view(&self) -> NodeView {
        NodeView { block: self.block@, hash: self.hash@, height: self.height as nat }
    }
}

/// The append-only tree of unstable blocks: a rooted forest held in insertion
/// order, the stable anchor first. Forks are tolerated; a member may have any
/// earlier member as its parent.
pub struct BlockTree {
    pub nodes: Vec<TreeNode>,
}

impl View for BlockTree {
    type V = Seq<NodeView>;

    open spec fn view(&self) -> Seq<NodeView> {
        self.nodes@.map_values(|n: TreeNode| n@)
    }
}

/// The first member at or after `from` whose hash is `h`.
pub open spec fn find_from(s: Seq<NodeView>, h: Seq<u8>, from: int) -> Option<int>
    decreases s.len() - from,
{
    if from < 0 || from >= s.len() {
        None
    } else if s[from].hash == h {
        Some(from)
    } else {
        find_from(s, h, from + 1)
    }
}

/// Member `i` attaches, by parent hash, to an earlier member, one height step
/// above it.
pub open spec fn linked(s: Seq<NodeView>, i: int) -> bool {
    match find_from(s, s[i].block.header.prev_blockhash, 0) {
        Some(j) => j < i && s[i].height == s[j].height + 1,
        None => false,
    }
}

pub open spec fn node_wf(s: Seq<NodeView>, i: int) -> bool {
    &&& s[i].block.wf()
    &&& s[i].hash == block_hash_of(s[i].block.header)
    &&& s[i].hash.len() == 32
    &&& i >= 1 ==> linked(s, i)
}

/// Well-formedness of the tree: nonempty, anchored at height 0, every member
/// carrying its own block hash and attaching to an earlier member.
pub open spec fn tree_wf(s: Seq<NodeView>) -> bool {
    &&& s.len() >= 1
    &&& s[0].height == 0
    &&& forall|i: int| 0 <= i < s.len() ==> #[trigger] node_wf(s, i)
}

/// What a successful insertion does: append one node, hashed and placed one
/// height step above its parent; a block whose parent is not found leaves the
/// tree unchanged.
pub open spec fn spec_attach(s: Seq<NodeView>, b: BlockView) -> Seq<NodeView> {
    match find_from(s, b.header.prev_blockhash, 0) {
        Some(j) => s.push(
            NodeView {
                block: b,
                hash: block_hash_of(b.header),
                height: (s[j].height + 1) as nat,
            },
        ),
        None => s,
    }
}

/// A successful search returns a position in range whose hash matches.
pub proof fn lemma_find_from_some(s: Seq<NodeView>, h: Seq<u8>, from: int)
    requires
        find_from(s, h, from) is Some,
    ensures
        match find_from(s, h, from) {
            Some(j) => from <= j < s.len() && s[j].hash == h,
            None => false,
        },
    decreases s.len() - from,
{
    if 0 <= from < s.len() && s[from].hash != h {
        lemma_find_from_some(s, h, from + 1);
    }
}

/// A search that succeeds is unaffected by appending a node.
pub proof fn lemma_find_from_push(s: Seq<NodeView>, x: NodeView, h: Seq<u8>, from: int)
    requires
        find_from(s, h, from) is Some,
    ensures
        find_from(s.push(x), h, from) == find_from(s, h, from),
    decreases s.len() - from,
{
    if 0 <= from < s.len() {
        assert(s.push(x)[from] == s[from]);
        if s[from].hash != h {
            lemma_find_from_push(s, x, h, from + 1);
        }
    }
}

/// Appending a node that attaches under member `j`, one height step above it,
/// keeps the tree well-formed.
pub proof fn lemma_attach_wf(old_s: Seq<NodeView>, nv: NodeView, j: int)
    requires
        tree_wf(old_s),
        0 <= j < old_s.len(),
        find_from(old_s, nv.block.header.prev_blockhash, 0) == Some(j),
        nv.block.wf(),
        nv.hash == block_hash_of(nv.block.header),
        nv.hash.len() == 32,
        nv.height == old_s[j].height + 1,
    ensures
        tree_wf(old_s.push(nv)),
{
    let s = old_s.push(nv);
    lemma_find_from_push(old_s, nv, nv.block.header.prev_blockhash, 0);
    assert forall|i: int| 0 <= i < s.len() implies node_wf(s, i) by {
        if i < old_s.len() {
            assert(node_wf(old_s, i));
            assert(s[i] == old_s[i]);
            if i >= 1 {
                lemma_find_from_some(old_s, old_s[i].block.header.prev_blockhash, 0);
                lemma_find_from_push(old_s, nv, old_s[i].block.header.prev_blockhash, 0);
            }
            assert(node_wf(s, i));
        } else {
            assert(s[i] == nv);
            assert(find_from(s, nv.block.header.prev_blockhash, 0) == Some(j));
            assert(node_wf(s, i));
        }
    }
}

/// In a well-formed tree, a member's height never exceeds its position.
pub proof fn lemma_height_le(s: Seq<NodeView>, i: int)
    requires
        tree_wf(s),
        0 <= i < s.len(),
    ensures
        s[i].height <= i,
    decreases i,
{
    if i >= 1 {
        assert(node_wf(s, i));
        match find_from(s, s[i].block.header.prev_blockhash, 0) {
            Some(j) => {
                lemma_find_from_some(s, s[i].block.header.prev_blockhash, 0);
                lemma_height_le(s, j);
            },
            None => {
                // Impossible: `linked` never holds of a failed search.
                assert(false);
            },
        }
    }
}

/// The greatest member height among the first `n` members.
pub open spec fn max_height(s: Seq<NodeView>, n: int) -> nat
    decreases n,
{
    if n <= 0 {
        0
    } else {
        let m = max_height(s, n - 1);
        if s[n - 1].height > m {
            s[n - 1].height
        } else {
            m
        }
    }
}

/// Height of the best branch: the greatest member height above the anchor.
pub open spec fn spec_height(s: Seq<NodeView>) -> nat {
    max_height(s, s.len() as int)
}

impl BlockTree {
    /// Builds a tree holding only its stable anchor.
    pub fn new(root: Block) -> (t: BlockTree)
        requires
            root@.wf(),
        ensures
            tree_wf(t@),
            t@.len() == 1,
            t@[0].block == root@,
            t@[0].height == 0,
            t@[0].hash == block_hash_of(root@.header),
    {
        let hash = root.block_hash();
        let node = TreeNode { block: root, hash, height: 0 };
        let ghost nv = node@;
        let mut nodes: Vec<TreeNode> = Vec::new();
        nodes.push(node);
        let t = BlockTree { nodes };
        proof {
            assert(t@ =~= seq![nv]);
            assert(node_wf(t@, 0));
        }
        t
    }

    /// The first member whose hash equals `h`, if any.
    pub(crate) fn find_node(&self, h: &Hash32) -> (r: Option<usize>)
        ensures
            match r {
                Some(j) => 0 <= j < self@.len() && find_from(self@, h@, 0) == Some(j as int),
                None => find_from(self@, h@, 0) is None,
            },
    {
        let n = self.nodes.len();
        let mut i: usize = 0;
        while i < n
            invariant
                n == self.nodes@.len(),
                i <= n,
                find_from(self@, h@, 0) == find_from(self@, h@, i as int),
            decreases n - i,
        {
            if self.nodes[i].hash.eq_hash(h) {
                assert(self@[i as int].hash == h@);
                return Some(i);
            }
            assert(self@[i as int].hash != h@);
            i += 1;
        }
        None
    }

    /// Attempts to attach `block` under the member matching its parent hash.
    /// Succeeds exactly when such a member exists; on failure the tree is left
    /// untouched and the block is handed back.
    #[verifier::rlimit(60)]
    pub fn insert(&mut self, block: Block) -> (r: Result<(), BlockDoesNotExtendTree>)
        requires
            tree_wf(old(self)@),
            block@.wf(),
        ensures
            tree_wf(final(self)@),
            final(self)@ == spec_attach(old(self)@, block@),
            r is Ok <==> find_from(old(self)@, block@.header.prev_blockhash, 0) is Some,
            r matches Err(e) ==> e.0@ == block@ && final(self)@ == old(self)@,
    {
        let parent = self.find_node(&block.header.prev_blockhash);
        match parent {
            None => Err(BlockDoesNotExtendTree(block)),
            Some(j) => {
                let n = self.nodes.len();
                proof {
                    lemma_height_le(self@, j as int);
                    assert(self@[j as int] == self.nodes@[j as int]@);
                    assert(self.nodes@[j as int].height <= j < n);
                }
                let height = self.nodes[j].height + 1;
                let hash = block.block_hash();
                let ghost old_view = self@;
                let ghost bv = block@;
                let ghost nv = NodeView {
                    block: bv,
                    hash: block_hash_of(bv.header),
                    height: (old_view[j as int].height + 1) as nat,
                };
                self.nodes.push(TreeNode { block, hash, height });
                proof {
                    assert(self@ =~= old_view.push(nv));
                    lemma_find_from_push(old_view, nv, bv.header.prev_blockhash, 0);
                    assert(self@ =~= spec_attach(old_view, bv));
                    lemma_attach_wf(old_view, nv, j as int);
                }
                Ok(())
            },
        }
    }

    /// The members of the tree, anchor first, in an order stable across calls.
    pub fn blocks(&self) -> (r: Vec<&Block>)
        ensures
            r@.len() == self@.len(),
            forall|i: int| 0 <= i < self@.len() ==> #[trigger] r@[i]@ == self@[i].block,
    {
        let mut r: Vec<&Block> = Vec::new();
        let n = self.nodes.len();
        let mut i: usize = 0;
        while i < n
            invariant
                n == self.nodes@.len(),
                i <= n,
                r@.len() == i,
                forall|k: int| 0 <= k < i ==> #[trigger] r@[k]@ == self@[k].block,
            decreases n - i,
        {
            r.push(&self.nodes[i].block);
            i += 1;
        }
        r
    }

    /// Height of the best branch from the stable anchor.
    pub fn main_chain_height(&self) -> (r: usize)
        ensures
            r as nat == spec_height(self@),
    {
        let n = self.nodes.len();
        let mut best: usize = 0;
        let mut i: usize = 0;
        while i < n
            invariant
                n == self.nodes@.len(),
                i <= n,
                best as nat == max_height(self@, i as int),
            decreases n - i,
        {
            let h = self.nodes[i].height;
            if h > best {
                best = h;
            }
            i += 1;
        }
        best
    }
}

} // verus!
