use vstd::prelude::*;

use std::collections::HashMap;

use crate::error::ContractError;

verus! {

broadcast use vstd::std_specs::hash::group_hash_axioms;

/// A pass/fail attestation about an inspected asset. Once stored, only `revoked`
/// ever changes, and only from `false` to `true`.
pub struct InspectionStamp {
    pub stamp_id: u64,
    pub asset_id: String,
    pub inspector: String,
    pub passed: bool,
    pub notes: String,
    pub evidence_hash: Vec<u8>,
    pub inspected_at: u64,
    pub revoked: bool,
}

/// A stamp attests validity when it passed and has not been revoked.
pub open spec fn stamp_valid(s: InspectionStamp) -> bool {
    s.passed && !s.revoked
}

/// The stamp as it stands after a revocation: the same record with `revoked` set.
pub open spec fn revoked_stamp(s: InspectionStamp) -> InspectionStamp {
    InspectionStamp { revoked: true, ..s }
}

/// What `revoke_stamp(id)` does to the stored stamps: `NotFound` where no stamp has
/// that id, else the stamps with that one revoked.
pub open spec fn revoke_outcome(stamps: Map<u64, InspectionStamp>, id: u64) -> Result<
    Map<u64, InspectionStamp>,
    ContractError,
> {
    if stamps.contains_key(id) {
        Ok(stamps.insert(id, revoked_stamp(stamps[id])))
    } else {
        Err(ContractError::NotFound)
    }
}

/// Whether the stamps hold a valid stamp under `id`; `false` where none is stored.
pub open spec fn valid_in(stamps: Map<u64, InspectionStamp>, id: u64) -> bool {
    stamps.contains_key(id) && stamp_valid(stamps[id])
}

/// The inspection registry: stamps by their caller-chosen id.
pub struct InspectionRegistry {
    records: HashMap<u64, InspectionStamp>,
}

impl InspectionRegistry {
    /// The stored stamps, by id.
    pub closed spec fn stamps(&self) -> Map<u64, InspectionStamp> {
        self.records@
    }

    /// An empty registry.
    pub fn new() -> (r: InspectionRegistry)
        ensures
            r.stamps() == Map::<u64, InspectionStamp>::empty(),
    {
        InspectionRegistry { records: HashMap::new() }
    }

    /// Stores a new, unrevoked stamp under `stamp_id`, inspected at `inspected_at`.
    /// A stamp already stored under that id is replaced.
    pub fn create_stamp(
        &mut self,
        stamp_id: u64,
        asset_id: String,
        inspector: String,
        passed: bool,
        notes: String,
        evidence_hash: Vec<u8>,
        inspected_at: u64,
    )
        ensures
            final(self).stamps() == old(self).stamps().insert(
                stamp_id,
                InspectionStamp {
                    stamp_id,
                    asset_id,
                    inspector,
                    passed,
                    notes,
                    evidence_hash,
                    inspected_at,
                    revoked: false,
                },
            ),
    {
        let stamp = InspectionStamp {
            stamp_id,
            asset_id,
            inspector,
            passed,
            notes,
            evidence_hash,
            inspected_at,
            revoked: false,
        };
        self.records.insert(stamp_id, stamp);
    }

    /// Revokes the stamp under `stamp_id`, or fails with `NotFound`. Revoking a
    /// revoked stamp succeeds and changes nothing.
    pub fn revoke_stamp(&mut self, stamp_id: u64) -> (r: Result<(), ContractError>)
        ensures
            match revoke_outcome(old(self).stamps(), stamp_id) {
                Ok(m) => r == Ok::<(), ContractError>(()) && final(self).stamps() == m,
                Err(e) => r == Err::<(), ContractError>(e) && final(self).stamps() == old(
                    self,
                ).stamps(),
            },
    {
        match self.records.remove(&stamp_id) {
            Some(stamp) => {
                let mut stamp = stamp;
                stamp.revoked = true;
                self.records.insert(stamp_id, stamp);
                proof {
                    assert(self.records@ =~= old(self).records@.insert(
                        stamp_id,
                        revoked_stamp(old(self).records@[stamp_id]),
                    ));
                }
                Ok(())
            },
            None => Err(ContractError::NotFound),
        }
    }

    /// Whether the stamp under `stamp_id` passed and is not revoked; `false` where
    /// there is none.
    pub fn is_stamp_valid(&self, stamp_id: u64) -> (r: bool)
        ensures
            r == valid_in(self.stamps(), stamp_id),
    {
        match self.records.get(&stamp_id) {
            Some(s) => s.passed && !s.revoked,
            None => false,
        }
    }

    /// The stamp under `stamp_id`, if one is stored.
    pub fn get_stamp(&self, stamp_id: u64) -> (r: Option<&InspectionStamp>)
        ensures
            match r {
                Some(s) => self.stamps().contains_key(stamp_id) && *s == self.stamps()[stamp_id],
                None => !self.stamps().contains_key(stamp_id),
            },
    {
        self.records.get(&stamp_id)
    }
}

/// Revocation never changes when a stamp was inspected, nor anything else of it but
/// `revoked`, and leaves every other stamp as it was.
pub proof fn revocation_keeps_inspection_time(stamps: Map<u64, InspectionStamp>, id: u64)
    ensures
        match revoke_outcome(stamps, id) {
            Ok(m) => {
                &&& m.contains_key(id)
                &&& m[id].inspected_at == stamps[id].inspected_at
                &&& m[id] == (InspectionStamp { revoked: true, ..stamps[id] })
                &&& forall|k: u64| k != id ==> m.get(k) == stamps.get(k)
            },
            Err(e) => e == ContractError::NotFound && !stamps.contains_key(id),
        },
{
}

/// Revocation is one-way: a revoked stamp stays revoked, and revoking it again
/// succeeds and leaves the stamps as they were.
pub proof fn revoking_twice_keeps_revoked(stamps: Map<u64, InspectionStamp>, id: u64)
    ensures
        match revoke_outcome(stamps, id) {
            Ok(m) => {
                &&& m[id].revoked
                &&& revoke_outcome(m, id) == Ok::<Map<u64, InspectionStamp>, ContractError>(m)
            },
            Err(e) => revoke_outcome(stamps, id) == Err::<
                Map<u64, InspectionStamp>,
                ContractError,
            >(e),
        },
{
    if stamps.contains_key(id) {
        let m = stamps.insert(id, revoked_stamp(stamps[id]));
        assert(m.insert(id, revoked_stamp(m[id])) =~= m);
    }
}

/// A stamp id is valid exactly when a stamp is stored under it that passed and is
/// not revoked.
pub proof fn validity_follows_stored_stamp(registry: &InspectionRegistry, id: u64)
    ensures
        valid_in(registry.stamps(), id) == (match registry.stamps().get(id) {
            Some(s) => s.passed && !s.revoked,
            None => false,
        }),
{
}

} // verus!
