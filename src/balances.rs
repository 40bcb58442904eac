use vstd::prelude::*;

use crate::keys::Address;

verus! {

/// The balance ledger: the accrued amount of each principal that has one. Entries
/// are kept in the order they were first written, one per principal.
pub struct BalanceBook {
    entries: Vec<(Address, u128)>,
    model: Ghost<Map<Address, u128>>,
}

/// The balance that a ledger holds for a principal: the stored amount, or 0.
pub open spec fn balance_in(m: Map<Address, u128>, who: Address) -> u128 {
    if m.contains_key(who) {
        m[who]
    } else {
        0
    }
}

impl View for BalanceBook {
    type V = Map<Address, u128>;

    closed spec fn view(&self) -> Map<Address, u128> {
        self.model@
    }
}

impl BalanceBook {
    /// One entry per principal, and the entries hold exactly the ledger's view.
    pub closed spec fn wf(&self) -> bool {
        &&& forall|i: int, j: int|
            0 <= i < j < self.entries@.len() ==> #[trigger] self.entries@[i].0
                != #[trigger] self.entries@[j].0
        &&& forall|i: int|
            0 <= i < self.entries@.len() ==> self.model@.contains_key(
                #[trigger] self.entries@[i].0,
            ) && self.model@[self.entries@[i].0] == self.entries@[i].1
        &&& forall|a: Address|
            #[trigger] self.model@.contains_key(a) ==> exists|i: int|
                0 <= i < self.entries@.len() && self.entries@[i].0 == a
    }

    /// An empty ledger.
    pub fn new() -> (b: BalanceBook)
        ensures
            b.wf(),
            b@ == Map::<Address, u128>::empty(),
    {
        BalanceBook { entries: Vec::new(), model: Ghost(Map::empty()) }
    }

    /// The position of this principal's entry, if it has one.
    fn find(&self, who: Address) -> (r: Option<usize>)
        requires
            self.wf(),
        ensures
            match r {
                Some(i) => i < self.entries@.len() && self.entries@[i as int].0 == who,
                None => !self@.contains_key(who),
            },
    {
        let mut i: usize = 0;
        while i < self.entries.len()
            invariant
                self.wf(),
                i <= self.entries@.len(),
                forall|j: int| 0 <= j < i ==> self.entries@[j].0 != who,
            decreases self.entries@.len() - i,
        {
            if self.entries[i].0 == who {
                return Some(i);
            }
            i = i + 1;
        }
        None
    }

    /// The balance held for `who`; 0 where none was ever written.
    pub fn get(&self, who: Address) -> (r: u128)
        requires
            self.wf(),
        ensures
            r == balance_in(self@, who),
    {
        match self.find(who) {
            Some(i) => self.entries[i].1,
            None => 0,
        }
    }

    /// Stores `amount` as the balance of `who`, leaving every other balance as it was.
    pub fn set(&mut self, who: Address, amount: u128)
        requires
            old(self).wf(),
        ensures
            final(self).wf(),
            final(self)@ == old(self)@.insert(who, amount),
    {
        match self.find(who) {
            Some(i) => {
                self.entries.set(i, (who, amount));
                self.model = Ghost(self.model@.insert(who, amount));
                assert forall|a: Address| #[trigger] self.model@.contains_key(a) implies exists|
                    k: int,
                | 0 <= k < self.entries@.len() && self.entries@[k].0 == a by {
                    if a != who {
                        let k = choose|k: int|
                            0 <= k < old(self).entries@.len() && old(self).entries@[k].0 == a;
                        assert(self.entries@[k].0 == a);
                    } else {
                        assert(self.entries@[i as int].0 == a);
                    }
                }
            },
            None => {
                self.entries.push((who, amount));
                self.model = Ghost(self.model@.insert(who, amount));
                let ghost n = self.entries@.len() - 1;
                assert forall|a: Address| #[trigger] self.model@.contains_key(a) implies exists|
                    k: int,
                | 0 <= k < self.entries@.len() && self.entries@[k].0 == a by {
                    if a != who {
                        let k = choose|k: int|
                            0 <= k < old(self).entries@.len() && old(self).entries@[k].0 == a;
                        assert(self.entries@[k].0 == a);
                    } else {
                        assert(self.entries@[n].0 == a);
                    }
                }
                assert forall|i: int| 0 <= i < n implies self.entries@[i].0 != who by {
                    assert(old(self).entries@[i].0 != who);
                }
            },
        }
    }
}

} // verus!
