use vstd::prelude::*;

use crate::blocktree::{find_from, lemma_height_le, spec_attach, spec_height, BlockDoesNotExtendTree,
    NodeView};
use crate::chain::{Block, BlockView};
use crate::state::State;
use crate::utxoset::{spec_apply_block, UtxoView};

verus! {

/// What one insertion attempt does to the tree and the index: nothing when
/// the parent hash matches no member; otherwise the block is attached one step
/// above its parent and its transactions are applied at that height.
pub open spec fn spec_insert(t: Seq<NodeView>, u: Seq<UtxoView>, b: BlockView) -> (
    Seq<NodeView>,
    Seq<UtxoView>,
) {
    match find_from(t, b.header.prev_blockhash, 0) {
        None => (t, u),
        Some(j) => (spec_attach(t, b), spec_apply_block(u, b, (t[j].height + 1) as nat)),
    }
}

/// Attempts to attach `block` to the tree; on success the unspent-output
/// index is notified of its transactions. Rejection leaves the whole state
/// untouched and reports the block back.
pub fn insert_block(state: &mut State, block: Block) -> (r: Result<(), BlockDoesNotExtendTree>)
    requires
        old(state)@.wf(),
        block@.wf(),
    ensures
        final(state)@.wf(),
        final(state)@.adapter_queues == old(state)@.adapter_queues,
        final(state)@.unstable_blocks == spec_insert(
            old(state)@.unstable_blocks,
            old(state)@.utxos,
            block@,
        ).0,
        final(state)@.utxos == spec_insert(
            old(state)@.unstable_blocks,
            old(state)@.utxos,
            block@,
        ).1,
        r is Ok <==> find_from(old(state)@.unstable_blocks, block@.header.prev_blockhash, 0)
            is Some,
        r matches Err(e) ==> e.0@ == block@ && final(state)@ == old(state)@,
{
    match state.unstable_blocks.find_node(&block.header.prev_blockhash) {
        None => Err(BlockDoesNotExtendTree(block)),
        Some(j) => {
            let n = state.unstable_blocks.nodes.len();
            proof {
                lemma_height_le(state@.unstable_blocks, j as int);
                assert(state@.unstable_blocks[j as int] == state.unstable_blocks.nodes@[
                    j as int
                ]@);
                assert(state.unstable_blocks.nodes@[j as int].height <= j < n);
            }
            let height = state.unstable_blocks.nodes[j].height + 1;
            state.utxos.apply_block(&block, height);
            // The parent was just found, so the attachment cannot fail.
            state.unstable_blocks.insert(block)
        },
    }
}

/// The blocks of the unstable tree, anchor first, in an order stable across
/// calls; never empty.
pub fn get_unstable_blocks(state: &State) -> (r: Vec<&Block>)
    ensures
        r@.len() == state@.unstable_blocks.len(),
        forall|i: int| 0 <= i < r@.len() ==> #[trigger] r@[i]@ == state@.unstable_blocks[i].block,
{
    state.unstable_blocks.blocks()
}

/// Height of the best branch of the unstable tree.
pub fn main_chain_height(state: &State) -> (r: usize)
    ensures
        r as nat == spec_height(state@.unstable_blocks),
{
    state.unstable_blocks.main_chain_height()
}

} // verus!
