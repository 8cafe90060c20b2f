use vstd::prelude::*;

use crate::blocktree::{find_from, node_wf, spec_height, tree_wf, BlockDoesNotExtendTree, NodeView};
use crate::chain::BlockView;
use crate::queues::{AdapterQueuesView, QueueFull};
use crate::state::{State, StateView};
use crate::store::spec_insert;
use crate::translate::MalformedHash;
use crate::utxoset::UtxoView;
use crate::wire::{BitcoinAdapterResponseWrapper, GetSuccessorsRequest, GetSuccessorsRequestView,
    ResponseWrapperView};

verus! {

/// The three-state synchronization switch: only `Enabled` lets the driver
/// issue new fetch requests; `Paused` and `Disabled` behave alike here.
#[derive(Debug, Clone, Copy, PartialEq, Eq)]
pub enum BitcoinFeature {
    Enabled,
    Paused,
    Disabled,
}

/// One insertion attempt for a received wire block: a malformed block (a hash
/// field of the wrong width) is skipped; a well-formed one goes to the tree.
pub open spec fn spec_apply_wire_block(t: Seq<NodeView>, u: Seq<UtxoView>, b: BlockView) -> (
    Seq<NodeView>,
    Seq<UtxoView>,
) {
    if b.wf() {
        spec_insert(t, u, b)
    } else {
        (t, u)
    }
}

/// Insertion attempts for a list of received wire blocks, in arrival order.
pub open spec fn spec_apply_blocks(
    t: Seq<NodeView>,
    u: Seq<UtxoView>,
    blocks: Seq<BlockView>,
) -> (Seq<NodeView>, Seq<UtxoView>)
    decreases blocks.len(),
{
    if blocks.len() == 0 {
        (t, u)
    } else {
        let step = spec_apply_wire_block(t, u, blocks.first());
        spec_apply_blocks(step.0, step.1, blocks.drop_first())
    }
}

/// What one response does: a successors response feeds its blocks to the
/// tree; a transaction-submission acknowledgement is deliberately ignored.
pub open spec fn spec_apply_response(
    t: Seq<NodeView>,
    u: Seq<UtxoView>,
    r: ResponseWrapperView,
) -> (Seq<NodeView>, Seq<UtxoView>) {
    match r {
        ResponseWrapperView::GetSuccessorsResponse(resp) => spec_apply_blocks(t, u, resp.blocks),
        ResponseWrapperView::SendTransactionResponse => (t, u),
    }
}

/// Processing of all queued responses, oldest first.
pub open spec fn spec_apply_responses(
    t: Seq<NodeView>,
    u: Seq<UtxoView>,
    rs: Seq<ResponseWrapperView>,
) -> (Seq<NodeView>, Seq<UtxoView>)
    decreases rs.len(),
{
    if rs.len() == 0 {
        (t, u)
    } else {
        let step = spec_apply_response(t, u, rs.first());
        spec_apply_responses(step.0, step.1, rs.drop_first())
    }
}

/// What a full drain does to a state: every queued response is processed in
/// arrival order, the response queue empties, and the outstanding-request
/// slot is untouched.
pub open spec fn spec_drain(s: StateView) -> StateView {
    let step = spec_apply_responses(s.unstable_blocks, s.utxos, s.adapter_queues.responses);
    StateView {
        adapter_queues: AdapterQueuesView {
            in_flight: s.adapter_queues.in_flight,
            responses: Seq::empty(),
        },
        unstable_blocks: step.0,
        utxos: step.1,
    }
}

/// The request a tick builds: the first member of the unstable set is the
/// anchor and every remaining member's hash joins the exclusion list.
pub open spec fn spec_request(t: Seq<NodeView>) -> GetSuccessorsRequestView {
    GetSuccessorsRequestView {
        anchor: t[0].hash,
        processed_block_hashes: Seq::new((t.len() - 1) as nat, |i: int| t[i + 1].hash),
    }
}

/// The request-issuing step: with a request already outstanding the state is
/// left exactly as it is; otherwise one request, built from the current
/// unstable set, becomes outstanding.
pub open spec fn spec_issue_request(s: StateView) -> StateView {
    if s.adapter_queues.in_flight is Some {
        s
    } else {
        StateView {
            adapter_queues: AdapterQueuesView {
                in_flight: Some(spec_request(s.unstable_blocks)),
                responses: s.adapter_queues.responses,
            },
            unstable_blocks: s.unstable_blocks,
            utxos: s.utxos,
        }
    }
}

/// One tick: drain every queued response, then — only when enabled — issue a
/// request if none is outstanding.
pub open spec fn spec_heartbeat(s: StateView, f: BitcoinFeature) -> StateView {
    match f {
        BitcoinFeature::Enabled => spec_issue_request(spec_drain(s)),
        BitcoinFeature::Paused => spec_drain(s),
        BitcoinFeature::Disabled => spec_drain(s),
    }
}

/// Feeds one received response through the tree and the index.
fn process_response(state: &mut State, response: BitcoinAdapterResponseWrapper)
    requires
        old(state)@.wf(),
    ensures
        final(state)@.wf(),
        final(state)@.adapter_queues == old(state)@.adapter_queues,
        final(state)@.unstable_blocks == spec_apply_response(
            old(state)@.unstable_blocks,
            old(state)@.utxos,
            response@,
        ).0,
        final(state)@.utxos == spec_apply_response(
            old(state)@.unstable_blocks,
            old(state)@.utxos,
            response@,
        ).1,
{
    match response {
        BitcoinAdapterResponseWrapper::GetSuccessorsResponse(r) => {
            let ghost t0 = state@.unstable_blocks;
            let ghost u0 = state@.utxos;
            let ghost bv: Seq<BlockView> = r@.blocks;
            proof {
                assert(bv.skip(0) =~= bv);
            }
            let n = r.blocks.len();
            let mut i: usize = 0;
            while i < n
                invariant
                    state@.wf(),
                    state@.adapter_queues == old(state)@.adapter_queues,
                    n == r.blocks@.len(),
                    bv == r@.blocks,
                    i <= n,
                    spec_apply_blocks(state@.unstable_blocks, state@.utxos, bv.skip(i as int))
                        == spec_apply_blocks(t0, u0, bv),
                decreases n - i,
            {
                let wb = &r.blocks[i];
                assert(wb@ == bv[i as int]);
                assert(bv.skip(i as int).first() == bv[i as int]);
                let ghost t_cur = state@.unstable_blocks;
                let ghost u_cur = state@.utxos;
                match crate::translate::to_btc_block(wb) {
                    Ok(block) => {
                        match crate::store::insert_block(state, block) {
                            Ok(()) => {},
                            Err(BlockDoesNotExtendTree(_)) => {
                                // The block attaches nowhere: reported and dropped,
                                // the drain goes on.
                            },
                        }
                    },
                    Err(MalformedHash) => {
                        // A hash field of the wrong width: this block alone is
                        // skipped, the drain goes on.
                    },
                }
                proof {
                    assert(state@.unstable_blocks == spec_apply_wire_block(
                        t_cur,
                        u_cur,
                        bv[i as int],
                    ).0);
                    assert(state@.utxos == spec_apply_wire_block(t_cur, u_cur, bv[i as int]).1);
                    assert(bv.skip(i as int).drop_first() =~= bv.skip(i + 1));
                }
                i += 1;
            }
            proof {
                assert(bv.skip(n as int).len() == 0);
            }
        },
        BitcoinAdapterResponseWrapper::SendTransactionResponse(_) => {
            // Deliberately ignored: submission acknowledgements carry nothing
            // the synchronization loop needs.
        },
    }
}

/// Drains every queued response, oldest first, and reports the resulting
/// chain height.
pub fn process_adapter_responses(state: &mut State) -> (height: usize)
    requires
        old(state)@.wf(),
    ensures
        final(state)@.wf(),
        final(state)@ == spec_drain(old(state)@),
        height as nat == spec_height(final(state)@.unstable_blocks),
{
    let ghost s0 = state@;
    loop
        invariant
            state@.wf(),
            state@.adapter_queues.in_flight == s0.adapter_queues.in_flight,
            spec_apply_responses(
                state@.unstable_blocks,
                state@.utxos,
                state@.adapter_queues.responses,
            ) == spec_apply_responses(
                s0.unstable_blocks,
                s0.utxos,
                s0.adapter_queues.responses,
            ),
        ensures
            state@.wf(),
            state@.adapter_queues.in_flight == s0.adapter_queues.in_flight,
            state@.adapter_queues.responses.len() == 0,
            spec_apply_responses(
                state@.unstable_blocks,
                state@.utxos,
                state@.adapter_queues.responses,
            ) == spec_apply_responses(
                s0.unstable_blocks,
                s0.utxos,
                s0.adapter_queues.responses,
            ),
        decreases state@.adapter_queues.responses.len(),
    {
        let ghost pre = state@;
        let resp = state.adapter_queues.pop_response();
        match resp {
            None => { break; },
            Some(r) => {
                assert(r@ == pre.adapter_queues.responses.first());
                process_response(state, r);
                proof {
                    assert(pre.adapter_queues.responses.drop_first()
                        == state@.adapter_queues.responses);
                }
            },
        }
    }
    proof {
        assert(state@ =~= spec_drain(s0));
    }
    crate::store::main_chain_height(state)
}

/// Builds the incremental fetch request from the current unstable set: the
/// first member anchors it, the rest are excluded as already processed.
pub fn get_successors_request(state: &State) -> (r: GetSuccessorsRequest)
    requires
        state@.wf(),
    ensures
        r@ == spec_request(state@.unstable_blocks),
{
    let blocks = crate::store::get_unstable_blocks(state);
    let mut processed_block_hashes: Vec<Vec<u8>> = Vec::new();
    let n = blocks.len();
    let mut i: usize = 0;
    while i < n
        invariant
            state@.wf(),
            n == blocks@.len(),
            n == state@.unstable_blocks.len(),
            forall|k: int| 0 <= k < n ==> #[trigger] blocks@[k]@ == state@.unstable_blocks[k].block,
            i <= n,
            processed_block_hashes@.len() == i,
            forall|k: int| 0 <= k < i ==> #[trigger] processed_block_hashes@[k]@
                == state@.unstable_blocks[k].hash,
        decreases n - i,
    {
        let h = blocks[i].block_hash();
        proof {
            assert(node_wf(state@.unstable_blocks, i as int));
        }
        processed_block_hashes.push(h.bytes);
        i += 1;
    }
    // There is always at least one unstable block: the stable anchor itself is
    // an addressable member of the tree.
    let anchor = processed_block_hashes.remove(0);
    let r = GetSuccessorsRequest { anchor, processed_block_hashes };
    proof {
        assert(r@.processed_block_hashes =~= spec_request(
            state@.unstable_blocks,
        ).processed_block_hashes);
    }
    r
}

/// The synchronization core.
pub struct BitcoinCanister {}

impl BitcoinCanister {
    pub fn new() -> (c: BitcoinCanister) {
        BitcoinCanister {}
    }

    /// One scheduling tick: processes every queued `GetSuccessors` response,
    /// then, when synchronization is enabled and no request is outstanding,
    /// builds and enqueues the next incremental fetch request. The tick always
    /// completes and returns the updated state.
    pub fn heartbeat(&self, bitcoin_state: State, bitcoin_feature: BitcoinFeature) -> (r: State)
        requires
            bitcoin_state@.wf(),
        ensures
            r@.wf(),
            r@ == spec_heartbeat(bitcoin_state@, bitcoin_feature),
    {
        let mut state = bitcoin_state;
        let ghost s0 = state@;
        let _height = process_adapter_responses(&mut state);
        match bitcoin_feature {
            BitcoinFeature::Enabled => {
                if !state.adapter_queues.has_in_flight_get_successors_requests() {
                    let request = get_successors_request(&state);
                    match state.adapter_queues.push_request(request) {
                        Ok(()) => {},
                        Err(QueueFull) => {
                            // A request arrived concurrently: skip, the next
                            // tick retries from fresh tree state.
                        },
                    }
                }
                proof {
                    assert(state@ =~= spec_heartbeat(s0, bitcoin_feature));
                }
            },
            BitcoinFeature::Paused | BitcoinFeature::Disabled => {
                // Synchronization is off: drain only, never request.
            },
        }
        state
    }
}

// ----------------------------------------------------------------------------
// Laws of the driver.
// ----------------------------------------------------------------------------

/// No request duplication: with a request outstanding, the request-issuing
/// step leaves the state — the queue included — exactly unchanged.
pub proof fn lemma_no_request_duplication(s: StateView)
    requires
        s.adapter_queues.in_flight is Some,
    ensures
        spec_issue_request(s) == s,
{
}

/// A tick never replaces an outstanding request, whatever the mode.
pub proof fn lemma_outstanding_request_kept(s: StateView, f: BitcoinFeature)
    requires
        s.adapter_queues.in_flight is Some,
    ensures
        spec_heartbeat(s, f).adapter_queues.in_flight == s.adapter_queues.in_flight,
{
}

/// Drain completeness: after any tick the response queue is empty, and the
/// tree and index are exactly the result of one insertion attempt per
/// received block, across all responses, in arrival order.
pub proof fn lemma_drain_completeness(s: StateView, f: BitcoinFeature)
    ensures
        spec_heartbeat(s, f).adapter_queues.responses.len() == 0,
        spec_drain(s).unstable_blocks == spec_apply_responses(
            s.unstable_blocks,
            s.utxos,
            s.adapter_queues.responses,
        ).0,
        spec_drain(s).utxos == spec_apply_responses(
            s.unstable_blocks,
            s.utxos,
            s.adapter_queues.responses,
        ).1,
{
}

/// Rejection purity: a block whose parent hash matches no member leaves the
/// tree's members and the index state exactly unchanged.
pub proof fn lemma_rejection_purity(t: Seq<NodeView>, u: Seq<UtxoView>, b: BlockView)
    requires
        find_from(t, b.header.prev_blockhash, 0) is None,
    ensures
        spec_insert(t, u, b) == (t, u),
{
}

/// Anchor correctness: the request built from a well-formed tree is anchored
/// at a member of the unstable set, and its exclusion list holds exactly the
/// remaining members' hashes, in order.
pub proof fn lemma_anchor_correctness(t: Seq<NodeView>)
    requires
        tree_wf(t),
    ensures
        exists|i: int| 0 <= i < t.len() && spec_request(t).anchor == t[i].hash,
        spec_request(t).processed_block_hashes.len() == t.len() - 1,
        forall|i: int| 0 <= i < t.len() - 1 ==> spec_request(t).processed_block_hashes[i]
            == t[i + 1].hash,
{
    assert(spec_request(t).anchor == t[0].hash);
}

/// The state after `n` ticks, all in the same mode.
pub open spec fn spec_ticks(s: StateView, f: BitcoinFeature, n: nat) -> StateView
    decreases n,
{
    if n == 0 {
        s
    } else {
        spec_heartbeat(spec_ticks(s, f, (n - 1) as nat), f)
    }
}

/// Feature gating: in `Paused` or `Disabled` mode, any number of ticks over
/// any queued input leaves the outstanding-request slot exactly as it was.
pub proof fn lemma_feature_gating(s: StateView, f: BitcoinFeature, n: nat)
    requires
        f is Paused || f is Disabled,
    ensures
        spec_ticks(s, f, n).adapter_queues.in_flight == s.adapter_queues.in_flight,
    decreases n,
{
    if n > 0 {
        lemma_feature_gating(s, f, (n - 1) as nat);
    }
}

/// What the delivery of one response does to a state: the outstanding request
/// (if any) is answered by it, so the slot clears, and the response joins the
/// back of the queue — exactly the contract of `AdapterQueues::push_response`.
pub open spec fn spec_deliver(s: StateView, r: ResponseWrapperView) -> StateView {
    StateView {
        adapter_queues: AdapterQueuesView {
            in_flight: None,
            responses: s.adapter_queues.responses.push(r),
        },
        unstable_blocks: s.unstable_blocks,
        utxos: s.utxos,
    }
}

/// Everything that can happen to the state between and during ticks: a tick,
/// or the delivery of one adapter response.
pub enum SyncEvent {
    Tick,
    Deliver(ResponseWrapperView),
}

/// The state after a whole run of ticks and deliveries, the ticks all in the
/// same mode.
pub open spec fn spec_run(s: StateView, f: BitcoinFeature, events: Seq<SyncEvent>) -> StateView
    decreases events.len(),
{
    if events.len() == 0 {
        s
    } else {
        let s1 = match events.first() {
            SyncEvent::Tick => spec_heartbeat(s, f),
            SyncEvent::Deliver(r) => spec_deliver(s, r),
        };
        spec_run(s1, f, events.drop_first())
    }
}

/// Feature gating over a whole run: in `Paused` or `Disabled` mode, starting
/// with no request outstanding, no run of ticks and deliveries — whatever the
/// responses hold — ever makes a request outstanding.
pub proof fn lemma_feature_gating_run(s: StateView, f: BitcoinFeature, events: Seq<SyncEvent>)
    requires
        f is Paused || f is Disabled,
        s.adapter_queues.in_flight is None,
    ensures
        spec_run(s, f, events).adapter_queues.in_flight is None,
    decreases events.len(),
{
    if events.len() > 0 {
        match events.first() {
            SyncEvent::Tick => {
                lemma_feature_gating_run(spec_heartbeat(s, f), f, events.drop_first());
            },
            SyncEvent::Deliver(r) => {
                lemma_feature_gating_run(spec_deliver(s, r), f, events.drop_first());
            },
        }
    }
}

} // verus!
