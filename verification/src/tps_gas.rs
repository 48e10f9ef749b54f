//! Block number, transactions and gas executed so far.
use vstd::prelude::*;

verus! {

/// Running totals of transactions and gas, with the last block recorded.
#[derive(Clone, Copy, Debug)]
pub struct TpsGasRecord {
    /// The last block recorded.
    pub block_number: u64,
    /// Transactions executed.
    pub txs: u128,
    /// Gas used.
    pub gas: u128,
}

impl Default for TpsGasRecord {
    fn default() -> (r: Self)
        ensures
            r.block_number == 0 && r.txs == 0 && r.gas == 0,
    {
        TpsGasRecord { block_number: 0, txs: 0, gas: 0 }
    }
}

impl TpsGasRecord {
    /// Records a block with `txs` transactions using `gas` gas.
    pub fn record(&mut self, block_number: u64, txs: u128, gas: u128)
        requires
            old(self).txs + txs <= u128::MAX,
            old(self).gas + gas <= u128::MAX,
        ensures
            final(self).block_number == block_number,
            final(self).txs == old(self).txs + txs,
            final(self).gas == old(self).gas + gas,
    {
        self.block_number = block_number;
        self.txs = self.txs + txs;
        self.gas = self.gas + gas;
    }

    /// The last block recorded.
    pub fn block_number(&self) -> (r: u64)
        ensures
            r == self.block_number,
    {
        self.block_number
    }

    /// Transactions executed.
    pub fn txs(&self) -> (r: u128)
        ensures
            r == self.txs,
    {
        self.txs
    }

    /// Gas used.
    pub fn gas(&self) -> (r: u128)
        ensures
            r == self.gas,
    {
        self.gas
    }
}

/// A message about transactions and gas: a switch turning the measurement
/// on or off, or the running totals.
#[derive(Clone, Copy, Debug)]
pub enum TpsAndGasMessage {
    /// Start (`true`) or stop (`false`) measuring.
    Switch(bool),
    /// The running totals.
    Record(TpsGasRecord),
}

} // verus!
