use vstd::prelude::*;

use crate::blocktree::{tree_wf, BlockTree, NodeView};
use crate::chain::{Block, BlockView, Header, HeaderView};
use crate::hash::{zero32, zero_hash};
use crate::queues::{AdapterQueues, AdapterQueuesView};
use crate::utxoset::{UtxoSet, UtxoView};

verus! {

/// The synchronization state carried from tick to tick: the channel to the
/// external fetcher, the tree of unstable blocks, and the unspent-output
/// index.
pub struct State {
    pub adapter_queues: AdapterQueues,
    pub unstable_blocks: BlockTree,
    pub utxos: UtxoSet,
}

#[verifier::ext_equal]
pub struct StateView {
    pub adapter_queues: AdapterQueuesView,
    pub unstable_blocks: Seq<NodeView>,
    pub utxos: Seq<UtxoView>,
}

impl View for State {
    type V = StateView;

    open spec fn view(&self) -> StateView {
        StateView {
            adapter_queues: self.adapter_queues@,
            unstable_blocks: self.unstable_blocks@,
            utxos: self.utxos@,
        }
    }
}

impl StateView {
    /// A state is well-formed when its block tree is.
    pub open spec fn wf(self) -> bool {
        tree_wf(self.unstable_blocks)
    }
}

/// The stable anchor a fresh state starts from: a block with all-zero hash
/// fields standing for the tip below which everything is already final.
pub open spec fn genesis_block_view() -> BlockView {
    BlockView {
        header: HeaderView {
            version: 1,
            prev_blockhash: zero32(),
            merkle_root: zero32(),
            time: 0,
            bits: 0,
            nonce: 0,
        },
        txdata: Seq::empty(),
    }
}

/// Builds the anchor block of a fresh state.
pub fn genesis_block() -> (b: Block)
    ensures
        b@ == genesis_block_view(),
        b@.wf(),
{
    let b = Block {
        header: Header {
            version: 1,
            prev_blockhash: zero_hash(),
            merkle_root: zero_hash(),
            time: 0,
            bits: 0,
            nonce: 0,
        },
        txdata: Vec::new(),
    };
    proof {
        assert(b@ =~= genesis_block_view());
    }
    b
}

impl Default for State {
    /// A fresh state: empty queues, an empty index, and the tree holding only
    /// its anchor.
    fn default() -> (s: State)
        ensures
            s@.wf(),
            s@.adapter_queues.in_flight is None,
            s@.adapter_queues.responses.len() == 0,
            s@.utxos.len() == 0,
            s@.unstable_blocks.len() == 1,
            s@.unstable_blocks[0].block == genesis_block_view(),
            s@.unstable_blocks[0].height == 0,
    {
        State {
            adapter_queues: AdapterQueues::new(),
            unstable_blocks: BlockTree::new(genesis_block()),
            utxos: UtxoSet::new(),
        }
    }
}

} // verus!
