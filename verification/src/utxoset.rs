use vstd::prelude::*;

use crate::chain::{Block, BlockView, Transaction, TransactionView, TxInView};
use crate::encode::txid_of;
use crate::hash::{clone_bytes, Hash32};

verus! {

broadcast use Seq::lemma_push_map_commute;

// ----------------------------------------------------------------------------
// The unspent-output index: one record per spendable output, keyed by the
// outpoint (creating transaction id and output position). Applying a block
// consumes the outputs its inputs reference and adds the outputs it creates,
// transaction by transaction, in order.
// ----------------------------------------------------------------------------

/// A spendable output: its outpoint, value, owning script, and the height of
/// the block that confirmed it.
#[derive(Debug, PartialEq, Eq, Clone)]
pub struct Utxo {
    pub txid: Hash32,
    pub vout: usize,
    pub value: u64,
    pub script_pubkey: Vec<u8>,
    pub height: usize,
}

#[verifier::ext_equal]
pub struct UtxoView {
    pub txid: Seq<u8>,
    pub vout: nat,
    pub value: u64,
    pub script_pubkey: Seq<u8>,
    pub height: nat,
}

impl View for Utxo {
    type V = UtxoView;

    open spec fn view(&self) -> UtxoView {
        UtxoView {
            txid: self.txid@,
            vout: self.vout as nat,
            value: self.value,
            script_pubkey: self.script_pubkey@,
            height: self.height as nat,
        }
    }
}

/// The first record at or after `from` with the given outpoint.
pub open spec fn find_utxo(s: Seq<UtxoView>, txid: Seq<u8>, vout: nat, from: int) -> Option<int>
    decreases s.len() - from,
{
    if from < 0 || from >= s.len() {
        None
    } else if s[from].txid == txid && s[from].vout == vout {
        Some(from)
    } else {
        find_utxo(s, txid, vout, from + 1)
    }
}

/// Consuming one referenced outpoint: the first matching record leaves; a
/// reference to no record (as from a coinbase input) changes nothing.
pub open spec fn spec_spend(s: Seq<UtxoView>, txid: Seq<u8>, vout: nat) -> Seq<UtxoView> {
    match find_utxo(s, txid, vout, 0) {
        Some(j) => s.remove(j),
        None => s,
    }
}

/// Consuming the outpoints referenced by a list of inputs, in order.
pub open spec fn spec_spend_inputs(s: Seq<UtxoView>, inputs: Seq<TxInView>) -> Seq<UtxoView>
    decreases inputs.len(),
{
    if inputs.len() == 0 {
        s
    } else {
        spec_spend_inputs(
            spec_spend(
                s,
                inputs.first().previous_output.txid,
                inputs.first().previous_output.vout as nat,
            ),
            inputs.drop_first(),
        )
    }
}

/// The records a transaction's outputs create at the given height.
pub open spec fn output_utxos(t: TransactionView, height: nat) -> Seq<UtxoView> {
    Seq::new(
        t.output.len(),
        |i: int| UtxoView {
            txid: txid_of(t),
            vout: i as nat,
            value: t.output[i].value,
            script_pubkey: t.output[i].script_pubkey,
            height,
        },
    )
}

/// Applying one transaction: its inputs spend, then its outputs are appended.
pub open spec fn spec_apply_tx(s: Seq<UtxoView>, t: TransactionView, height: nat) -> Seq<
    UtxoView,
> {
    spec_spend_inputs(s, t.input) + output_utxos(t, height)
}

/// Applying a list of transactions in order, all at the same height.
pub open spec fn spec_apply_txs(s: Seq<UtxoView>, txs: Seq<TransactionView>, height: nat) -> Seq<
    UtxoView,
>
    decreases txs.len(),
{
    if txs.len() == 0 {
        s
    } else {
        spec_apply_txs(spec_apply_tx(s, txs.first(), height), txs.drop_first(), height)
    }
}

/// Applying an accepted block at the height it was attached.
pub open spec fn spec_apply_block(s: Seq<UtxoView>, b: BlockView, height: nat) -> Seq<UtxoView> {
    spec_apply_txs(s, b.txdata, height)
}

/// The unspent-output set.
pub struct UtxoSet {
    pub utxos: Vec<Utxo>,
}

impl View for UtxoSet {
    type V = Seq<UtxoView>;

    open spec fn view(&self) -> Seq<UtxoView> {
        self.utxos@.map_values(|u: Utxo| u@)
    }
}

impl UtxoSet {
    /// Builds an empty index.
    pub fn new() -> (r: UtxoSet)
        ensures
            r@ == Seq::<UtxoView>::empty(),
    {
        let r = UtxoSet { utxos: Vec::new() };
        proof {
            assert(r@ =~= Seq::<UtxoView>::empty());
        }
        r
    }

    /// How many spendable outputs the index holds.
    pub fn utxos_len(&self) -> (r: usize)
        ensures
            r == self@.len(),
    {
        self.utxos.len()
    }

    /// The first record with the given outpoint, if any.
    fn find(&self, txid: &Hash32, vout: usize) -> (r: Option<usize>)
        ensures
            match r {
                Some(j) => 0 <= j < self@.len() && find_utxo(self@, txid@, vout as nat, 0)
                    == Some(j as int),
                None => find_utxo(self@, txid@, vout as nat, 0) is None,
            },
    {
        let n = self.utxos.len();
        let mut i: usize = 0;
        while i < n
            invariant
                n == self.utxos@.len(),
                i <= n,
                find_utxo(self@, txid@, vout as nat, 0) == find_utxo(
                    self@,
                    txid@,
                    vout as nat,
                    i as int,
                ),
            decreases n - i,
        {
            let u = &self.utxos[i];
            assert(u@ == self@[i as int]);
            if u.txid.eq_hash(txid) && u.vout == vout {
                return Some(i);
            }
            i += 1;
        }
        None
    }

    /// Consumes the first record with the given outpoint, if present.
    fn spend(&mut self, txid: &Hash32, vout: usize)
        ensures
            final(self)@ == spec_spend(old(self)@, txid@, vout as nat),
    {
        match self.find(txid, vout) {
            None => {},
            Some(j) => {
                let ghost old_view = self@;
                self.utxos.remove(j);
                proof {
                    assert(self@ =~= old_view.remove(j as int));
                }
            },
        }
    }

    /// Applies one transaction at the given height.
    fn apply_tx(&mut self, t: &Transaction, height: usize)
        ensures
            final(self)@ == spec_apply_tx(old(self)@, t@, height as nat),
    {
        let ghost init = self@;
        let ghost iv: Seq<TxInView> = t@.input;
        proof {
            assert(iv.skip(0) =~= iv);
        }
        let n_in = t.input.len();
        let mut i: usize = 0;
        while i < n_in
            invariant
                n_in == t.input@.len(),
                iv == t@.input,
                i <= n_in,
                spec_spend_inputs(self@, iv.skip(i as int)) == spec_spend_inputs(init, iv),
            decreases n_in - i,
        {
            let x = &t.input[i];
            assert(x@ == iv[i as int]);
            assert(iv.skip(i as int).first() == iv[i as int]);
            self.spend(&x.previous_output.txid, x.previous_output.vout as usize);
            proof {
                assert(iv.skip(i as int).drop_first() =~= iv.skip(i + 1));
            }
            i += 1;
        }
        proof {
            assert(iv.skip(n_in as int).len() == 0);
            assert(self@ == spec_spend_inputs(init, iv));
        }
        let ghost spent = self@;
        proof {
            assert(spent + output_utxos(t@, height as nat).take(0) =~= spent);
        }
        let id = t.txid();
        let n_out = t.output.len();
        let mut k: usize = 0;
        while k < n_out
            invariant
                n_out == t.output@.len(),
                k <= n_out,
                id@ == txid_of(t@),
                self@ == spent + output_utxos(t@, height as nat).take(k as int),
            decreases n_out - k,
        {
            let o = &t.output[k];
            assert(o@ == t@.output[k as int]);
            let u = Utxo {
                txid: id.clone(),
                vout: k,
                value: o.value,
                script_pubkey: clone_bytes(&o.script_pubkey),
                height,
            };
            assert(u@ == output_utxos(t@, height as nat)[k as int]);
            self.utxos.push(u);
            proof {
                assert(self@ =~= spent + output_utxos(t@, height as nat).take(k + 1));
            }
            k += 1;
        }
        proof {
            assert(output_utxos(t@, height as nat).take(n_out as int) =~= output_utxos(
                t@,
                height as nat,
            ));
        }
    }

    /// Applies every transaction of an accepted block, in order, at the height
    /// the block was attached.
    #[verifier::rlimit(30)]
    pub fn apply_block(&mut self, b: &Block, height: usize)
        ensures
            final(self)@ == spec_apply_block(old(self)@, b@, height as nat),
    {
        let ghost init = self@;
        let ghost tv: Seq<TransactionView> = b@.txdata;
        proof {
            assert(tv.skip(0) =~= tv);
        }
        let n = b.txdata.len();
        let mut i: usize = 0;
        while i < n
            invariant
                n == b.txdata@.len(),
                tv == b@.txdata,
                i <= n,
                spec_apply_txs(self@, tv.skip(i as int), height as nat) == spec_apply_txs(
                    init,
                    tv,
                    height as nat,
                ),
            decreases n - i,
        {
            let t = &b.txdata[i];
            assert(t@ == tv[i as int]);
            assert(tv.skip(i as int).first() == tv[i as int]);
            self.apply_tx(t, height);
            proof {
                assert(tv.skip(i as int).drop_first() =~= tv.skip(i + 1));
            }
            i += 1;
        }
        proof {
            assert(tv.skip(n as int).len() == 0);
        }
    }
}

} // verus!
