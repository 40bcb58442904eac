use vstd::prelude::*;

verus! {

/// An opaque principal, compared for equality only. It holds the principal's
/// textual key, at most 64 ASCII characters, packed big-endian into four 128-bit
/// words and padded with zero bytes.
#[derive(Clone, Copy, PartialEq, Eq, Structural, Debug, Hash)]
pub struct Address {
    pub w0: u128,
    pub w1: u128,
    pub w2: u128,
    pub w3: u128,
}

/// Storage keys of the session registry: the singleton counter and one record per id.
#[derive(Clone, Copy, PartialEq, Eq, Structural, Debug, Hash)]
pub enum SessionKey {
    Count,
    Record(u64),
}

/// Storage keys of the balance ledger: one entry per principal.
#[derive(Clone, Copy, PartialEq, Eq, Structural, Debug, Hash)]
pub enum BalanceKey {
    Bal(Address),
}

/// The fixed tag that sets inspection stamps apart from any other data in the store.
pub const STAMP_NAMESPACE: u32 = 0x5354_4d50;

/// Storage key of an inspection stamp.
#[derive(Clone, Copy, PartialEq, Eq, Structural, Debug, Hash)]
pub struct StampKey {
    pub namespace: u32,
    pub stamp_id: u64,
}

/// The key under which the counter of sessions is stored.
pub fn count_key() -> (k: SessionKey)
    ensures
        k == SessionKey::Count,
{
    SessionKey::Count
}

/// The key under which the session with this id is stored.
pub fn session_key(id: u64) -> (k: SessionKey)
    ensures
        k == SessionKey::Record(id),
{
    SessionKey::Record(id)
}

/// The key under which this principal's balance is stored.
pub fn balance_key(who: Address) -> (k: BalanceKey)
    ensures
        k == BalanceKey::Bal(who),
{
    BalanceKey::Bal(who)
}

/// The key under which the stamp with this id is stored.
pub fn stamp_key(stamp_id: u64) -> (k: StampKey)
    ensures
        k == (StampKey { namespace: STAMP_NAMESPACE, stamp_id }),
{
    StampKey { namespace: STAMP_NAMESPACE, stamp_id }
}

/// Session keys are equal exactly when they were made from equal inputs, and the
/// counter's key is never the key of a record.
pub proof fn session_keys_are_injective(a: u64, b: u64)
    ensures
        (SessionKey::Record(a) == SessionKey::Record(b)) == (a == b),
        SessionKey::Count != SessionKey::Record(a),
{
}

/// Balance keys and stamp keys are equal exactly when their inputs are.
pub proof fn keys_are_injective(x: Address, y: Address, a: u64, b: u64)
    ensures
        (BalanceKey::Bal(x) == BalanceKey::Bal(y)) == (x == y),
        ((StampKey { namespace: STAMP_NAMESPACE, stamp_id: a }) == (StampKey {
            namespace: STAMP_NAMESPACE,
            stamp_id: b,
        })) == (a == b),
{
}

} // verus!
