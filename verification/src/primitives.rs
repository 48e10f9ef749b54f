//! Plain-value forms of the chain types that the change sets are keyed and
//! filled with.
use vstd::prelude::*;

verus! {

/// A block number.
pub type BlockNumber = u64;

/// A 20-byte account address, held as its big-endian bytes split into
/// words (bytes 0..8, 8..16, 16..20), so that tuple order is byte order.
pub type Address = (u64, u64, u32);

/// A 256-bit unsigned integer as (high 128 bits, low 128 bits), so that
/// tuple order is numeric order.
pub type U256 = (u128, u128);

/// A 32-byte hash as (first 16 bytes, last 16 bytes), each big-endian.
pub type B256 = (u128, u128);

/// The hash of a block.
pub type BlockHash = B256;

/// An account's state: nonce, balance and the hash of its bytecode, if any.
#[derive(Clone, Copy, Debug, PartialEq, Eq)]
pub struct Account {
    pub nonce: u64,
    pub balance: U256,
    pub bytecode_hash: Option<B256>,
}

/// Whether two optional account states are the same.
pub fn option_account_eq(a: &Option<Account>, b: &Option<Account>) -> (r: bool)
    ensures
        r == (*a == *b),
{
    match (a, b) {
        (None, None) => true,
        (Some(x), Some(y)) => {
            let hash_eq = match (&x.bytecode_hash, &y.bytecode_hash) {
                (None, None) => true,
                (Some(h1), Some(h2)) => h1.0 == h2.0 && h1.1 == h2.1,
                _ => false,
            };
            x.nonce == y.nonce && x.balance.0 == y.balance.0 && x.balance.1 == y.balance.1
                && hash_eq
        },
        _ => false,
    }
}

} // verus!
