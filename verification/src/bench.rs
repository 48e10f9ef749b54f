//! Pieces of the block-replay benchmark: the two readers its state database
//! draws on, merging consecutive blocks into one, and when a batch of read
//! blocks is handed on.
use vstd::prelude::*;

verus! {

/// The readers of a replay: state is read from one database, blocks and
/// bytecode from the other.
#[derive(Clone, Debug)]
pub struct BenchStateProviderDatabase<DB> {
    pub state_reader: DB,
    pub block_reader: DB,
}

impl<DB> BenchStateProviderDatabase<DB> {
    /// The database reading blocks from `block_reader` and state from
    /// `state_reader`.
    pub fn new(block_reader: DB, state_reader: DB) -> (r: Self)
        ensures
            r.block_reader == block_reader,
            r.state_reader == state_reader,
    {
        BenchStateProviderDatabase { block_reader, state_reader }
    }
}

/// The parts of a block with senders that merging touches: senders
/// (`S`), transactions (`T`), ommers (`O`), optional withdrawals (`W`) and
/// requests (`R`), and the header (`H`).
pub struct BlockParts<S, T, O, W, R, H> {
    pub senders: Vec<S>,
    pub body: Vec<T>,
    pub ommers: Vec<O>,
    pub withdrawals: Option<Vec<W>>,
    pub requests: Option<Vec<R>>,
    pub header: H,
}

/// The optional list of `to` followed by that of `from`: where both are
/// present, their concatenation; where `to` has none, `from`'s; where
/// only `to` has one, `to`'s.
pub open spec fn merged_list<W>(to: Option<Seq<W>>, from: Option<Seq<W>>) -> Option<Seq<W>> {
    match (to, from) {
        (Some(t), Some(f)) => Some(t + f),
        (None, f) => f,
        (Some(t), None) => Some(t),
    }
}

/// The view of an optional list.
pub open spec fn opt_view<W>(v: Option<Vec<W>>) -> Option<Seq<W>> {
    match v {
        Some(l) => Some(l@),
        None => None,
    }
}

/// `to` followed by the optional list `from`, as `merged_list` says.
fn merge_optional<W>(to: Option<Vec<W>>, from: Option<Vec<W>>) -> (r: Option<Vec<W>>)
    ensures
        opt_view(r) == merged_list(opt_view(to), opt_view(from)),
{
    match (to, from) {
        (Some(mut t), Some(mut f)) => {
            t.append(&mut f);
            Some(t)
        },
        (None, f) => f,
        (Some(t), None) => Some(t),
    }
}

/// Appends the block `from` to the block `to`: senders, transactions,
/// ommers, withdrawals and requests of `from` follow those of `to`, and the
/// header becomes that of `from`.
pub fn merge_block<S, T, O, W, R, H>(
    from: BlockParts<S, T, O, W, R, H>,
    to: BlockParts<S, T, O, W, R, H>,
) -> (r: BlockParts<S, T, O, W, R, H>)
    ensures
        r.senders@ == to.senders@ + from.senders@,
        r.body@ == to.body@ + from.body@,
        r.ommers@ == to.ommers@ + from.ommers@,
        opt_view(r.withdrawals) == merged_list(opt_view(to.withdrawals), opt_view(from.withdrawals)),
        opt_view(r.requests) == merged_list(opt_view(to.requests), opt_view(from.requests)),
        r.header == from.header,
{
    let BlockParts {
        senders: mut from_senders,
        body: mut from_body,
        ommers: mut from_ommers,
        withdrawals: from_withdrawals,
        requests: from_requests,
        header,
    } = from;
    let BlockParts {
        senders: mut senders,
        body: mut body,
        ommers: mut ommers,
        withdrawals,
        requests,
        header: _,
    } = to;
    senders.append(&mut from_senders);
    body.append(&mut from_body);
    ommers.append(&mut from_ommers);
    BlockParts {
        senders,
        body,
        ommers,
        withdrawals: merge_optional(withdrawals, from_withdrawals),
        requests: merge_optional(requests, from_requests),
        header,
    }
}

/// Transactions read since the last batch was handed on, and whether the
/// batch is handed on now: once a block of `block_len` transactions joins,
/// the batch goes unless merging by transactions is on and fewer than
/// `merge_txs` have gathered; after it goes, the count starts again at 0.
pub open spec fn batch_step_spec(total: usize, block_len: usize, merge_by_tx: bool, merge_txs: u32) -> (int, bool) {
    let sum = total + block_len;
    if merge_by_tx && sum < merge_txs {
        (sum, false)
    } else {
        (0, true)
    }
}

/// Adds a block of `block_len` transactions to a batch holding `total`:
/// returns the new count and whether the batch is handed on now.
pub fn batch_step(total: usize, block_len: usize, merge_by_tx: bool, merge_txs: u32) -> (r: (usize, bool))
    requires
        total + block_len <= usize::MAX,
    ensures
        (r.0 as int, r.1) == batch_step_spec(total, block_len, merge_by_tx, merge_txs),
{
    let sum = total + block_len;
    let limit: u64 = merge_txs as u64;
    let sum64: u64 = sum as u64;
    if merge_by_tx && sum64 < limit {
        (sum, false)
    } else {
        (0, true)
    }
}

} // verus!
