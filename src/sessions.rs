use vstd::prelude::*;

use std::collections::HashMap;

use crate::balances::{balance_in, BalanceBook};
use crate::error::ContractError;
use crate::keys::Address;

verus! {

broadcast use vstd::std_specs::hash::group_hash_axioms;

/// One tutoring session. It moves from recorded to confirmed to paid, never back.
#[derive(Clone, Copy, PartialEq, Eq, Structural, Debug)]
pub struct Session {
    pub id: u64,
    pub tutor: Address,
    pub student: Address,
    pub timestamp: u64,
    pub duration_minutes: u32,
    pub confirmed: bool,
    pub paid: bool,
}

/// The id that the next recorded session gets: one past the counter, held at the
/// largest `u64` once the counter has reached it.
pub open spec fn next_session_id(count: u64) -> u64 {
    if count == u64::MAX {
        u64::MAX
    } else {
        (count + 1) as u64
    }
}

/// `duration_minutes * rate_per_minute`, held at the largest `u128` where the
/// product exceeds it.
pub open spec fn payout_of(duration_minutes: u32, rate_per_minute: u128) -> u128 {
    let p = duration_minutes as int * rate_per_minute as int;
    if p > u128::MAX {
        u128::MAX
    } else {
        p as u128
    }
}

/// `balance + amount`, held at the largest `u128` where the sum exceeds it.
pub open spec fn credited(balance: u128, amount: u128) -> u128 {
    let s = balance as int + amount as int;
    if s > u128::MAX {
        u128::MAX
    } else {
        s as u128
    }
}

/// Advances the session counter by one, holding it at the largest `u64`.
pub fn advance_counter(count: u64) -> (r: u64)
    ensures
        r == next_session_id(count),
{
    count.saturating_add(1)
}

/// Computes the payout of a session: its minutes times the rate, saturating.
pub fn payout(duration_minutes: u32, rate_per_minute: u128) -> (r: u128)
    ensures
        r == payout_of(duration_minutes, rate_per_minute),
{
    let d = duration_minutes as u128;
    if rate_per_minute != 0 && d > u128::MAX / rate_per_minute {
        proof {
            let q = u128::MAX / rate_per_minute;
            assert(d as int * rate_per_minute as int > u128::MAX) by (nonlinear_arith)
                requires
                    d > q,
                    rate_per_minute > 0,
                    q == u128::MAX / rate_per_minute,
            ;
        }
        u128::MAX
    } else {
        proof {
            if rate_per_minute != 0 {
                let q = u128::MAX / rate_per_minute;
                assert(d as int * rate_per_minute as int <= u128::MAX) by (nonlinear_arith)
                    requires
                        d <= q,
                        rate_per_minute > 0,
                        q == u128::MAX / rate_per_minute,
                ;
            }
        }
        d * rate_per_minute
    }
}

/// Adds `amount` to `balance`, saturating.
pub fn credit(balance: u128, amount: u128) -> (r: u128)
    ensures
        r == credited(balance, amount),
{
    balance.saturating_add(amount)
}

impl Session {
    /// What confirming this session by `caller` gives: the confirmed session, or
    /// `InvalidState` if it is already confirmed, else `Unauthorized` if the caller
    /// is not its student.
    pub open spec fn confirm_result(self, caller: Address) -> Result<Session, ContractError> {
        if self.confirmed {
            Err(ContractError::InvalidState)
        } else if caller != self.student {
            Err(ContractError::Unauthorized)
        } else {
            Ok(Session { confirmed: true, ..self })
        }
    }

    /// What paying this session gives: the paid session, or `InvalidState` unless it
    /// is confirmed and not yet paid.
    pub open spec fn pay_result(self) -> Result<Session, ContractError> {
        if !self.confirmed || self.paid {
            Err(ContractError::InvalidState)
        } else {
            Ok(Session { paid: true, ..self })
        }
    }

    /// A freshly recorded session: neither confirmed nor paid.
    pub fn new(
        id: u64,
        tutor: Address,
        student: Address,
        timestamp: u64,
        duration_minutes: u32,
    ) -> (s: Session)
        ensures
            s == (Session {
                id,
                tutor,
                student,
                timestamp,
                duration_minutes,
                confirmed: false,
                paid: false,
            }),
    {
        Session { id, tutor, student, timestamp, duration_minutes, confirmed: false, paid: false }
    }

    /// The student's confirmation of this session, as `confirm_result` states it.
    pub fn confirmed_by(&self, caller: Address) -> (r: Result<Session, ContractError>)
        ensures
            r == self.confirm_result(caller),
    {
        if self.confirmed {
            Err(ContractError::InvalidState)
        } else if caller != self.student {
            Err(ContractError::Unauthorized)
        } else {
            Ok(Session { confirmed: true, ..*self })
        }
    }

    /// The settlement of this session, as `pay_result` states it.
    pub fn settled(&self) -> (r: Result<Session, ContractError>)
        ensures
            r == self.pay_result(),
    {
        if !self.confirmed || self.paid {
            Err(ContractError::InvalidState)
        } else {
            Ok(Session { paid: true, ..*self })
        }
    }
}

/// What `confirm_session(id, caller)` does to the stored sessions: `NotFound` where
/// no session has that id, else the session's `confirm_result`.
pub open spec fn confirm_outcome(sessions: Map<u64, Session>, id: u64, caller: Address) -> Result<
    Session,
    ContractError,
> {
    if !sessions.contains_key(id) {
        Err(ContractError::NotFound)
    } else {
        sessions[id].confirm_result(caller)
    }
}

/// What `pay_session(id, ..)` does to the stored sessions: `NotFound` where no
/// session has that id, else the session's `pay_result`.
pub open spec fn pay_outcome(sessions: Map<u64, Session>, id: u64) -> Result<
    Session,
    ContractError,
> {
    if !sessions.contains_key(id) {
        Err(ContractError::NotFound)
    } else {
        sessions[id].pay_result()
    }
}

/// The session registry: a counter of sessions, the sessions by id, and the
/// tutors' balances.
pub struct TutorSessionSeal {
    count: u64,
    records: HashMap<u64, Session>,
    balances: BalanceBook,
}

impl TutorSessionSeal {
    /// The counter: the id of the last recorded session, 0 before the first.
    pub closed spec fn session_count(&self) -> u64 {
        self.count
    }

    /// The stored sessions, by id.
    pub closed spec fn sessions(&self) -> Map<u64, Session> {
        self.records@
    }

    /// The stored balances, by principal.
    pub closed spec fn balances(&self) -> Map<Address, u128> {
        self.balances@
    }

    /// The balance of `who`: what is stored for it, or 0.
    pub open spec fn balance_of(&self, who: Address) -> u128 {
        balance_in(self.balances(), who)
    }

    /// Every stored session sits under its own id, which the counter has reached.
    pub closed spec fn wf(&self) -> bool {
        &&& self.balances.wf()
        &&& forall|id: u64| #[trigger]
            self.records@.contains_key(id) ==> 1 <= id <= self.count && self.records@[id].id == id
    }

    /// An empty registry.
    pub fn new() -> (r: TutorSessionSeal)
        ensures
            r.wf(),
            r.session_count() == 0,
            r.sessions() == Map::<u64, Session>::empty(),
            r.balances() == Map::<Address, u128>::empty(),
    {
        TutorSessionSeal { count: 0, records: HashMap::new(), balances: BalanceBook::new() }
    }

    /// Records a session of `tutor` with `student` at `timestamp` and returns its id,
    /// one past the previous counter (saturating).
    pub fn record_session(
        &mut self,
        tutor: Address,
        student: Address,
        duration_minutes: u32,
        timestamp: u64,
    ) -> (id: u64)
        requires
            old(self).wf(),
        ensures
            final(self).wf(),
            id == next_session_id(old(self).session_count()),
            final(self).session_count() == id,
            final(self).sessions() == old(self).sessions().insert(
                id,
                Session {
                    id,
                    tutor,
                    student,
                    timestamp,
                    duration_minutes,
                    confirmed: false,
                    paid: false,
                },
            ),
            final(self).balances() == old(self).balances(),
    {
        let count = advance_counter(self.count);
        self.count = count;
        let s = Session::new(count, tutor, student, timestamp, duration_minutes);
        self.records.insert(count, s);
        count
    }

    /// The student `caller` confirms session `session_id`, which makes it payable.
    pub fn confirm_session(&mut self, session_id: u64, caller: Address) -> (r: Result<
        (),
        ContractError,
    >)
        requires
            old(self).wf(),
        ensures
            final(self).wf(),
            final(self).session_count() == old(self).session_count(),
            final(self).balances() == old(self).balances(),
            match confirm_outcome(old(self).sessions(), session_id, caller) {
                Ok(s) => r == Ok::<(), ContractError>(()) && final(self).sessions() == old(
                    self,
                ).sessions().insert(session_id, s),
                Err(e) => r == Err::<(), ContractError>(e) && final(self).sessions() == old(
                    self,
                ).sessions(),
            },
    {
        let current = match self.records.get(&session_id) {
            Some(s) => *s,
            None => {
                return Err(ContractError::NotFound);
            },
        };
        let next = current.confirmed_by(caller)?;
        self.records.insert(session_id, next);
        Ok(())
    }

    /// Settles session `session_id` at `rate_per_minute`: marks it paid and credits
    /// its tutor with the payout, both saturating.
    pub fn pay_session(&mut self, session_id: u64, rate_per_minute: u128) -> (r: Result<
        (),
        ContractError,
    >)
        requires
            old(self).wf(),
        ensures
            final(self).wf(),
            final(self).session_count() == old(self).session_count(),
            match pay_outcome(old(self).sessions(), session_id) {
                Ok(s) => {
                    &&& r == Ok::<(), ContractError>(())
                    &&& final(self).sessions() == old(self).sessions().insert(session_id, s)
                    &&& final(self).balances() == old(self).balances().insert(
                        s.tutor,
                        credited(
                            old(self).balance_of(s.tutor),
                            payout_of(s.duration_minutes, rate_per_minute),
                        ),
                    )
                },
                Err(e) => {
                    &&& r == Err::<(), ContractError>(e)
                    &&& final(self).sessions() == old(self).sessions()
                    &&& final(self).balances() == old(self).balances()
                },
            },
    {
        let current = match self.records.get(&session_id) {
            Some(s) => *s,
            None => {
                return Err(ContractError::NotFound);
            },
        };
        let next = current.settled()?;
        self.records.insert(session_id, next);
        let amount = payout(next.duration_minutes, rate_per_minute);
        let before = self.balances.get(next.tutor);
        self.balances.set(next.tutor, credit(before, amount));
        Ok(())
    }

    /// Empties the balance of `who` and returns what it held.
    pub fn withdraw(&mut self, who: Address) -> (amount: u128)
        requires
            old(self).wf(),
        ensures
            final(self).wf(),
            amount == old(self).balance_of(who),
            final(self).balances() == old(self).balances().insert(who, 0),
            final(self).session_count() == old(self).session_count(),
            final(self).sessions() == old(self).sessions(),
    {
        let amount = self.balances.get(who);
        self.balances.set(who, 0);
        amount
    }

    /// The session stored under `id`, or `NotFound`.
    pub fn view_session(&self, id: u64) -> (r: Result<Session, ContractError>)
        ensures
            r == (if self.sessions().contains_key(id) {
                Ok::<Session, ContractError>(self.sessions()[id])
            } else {
                Err::<Session, ContractError>(ContractError::NotFound)
            }),
    {
        match self.records.get(&id) {
            Some(s) => Ok(*s),
            None => Err(ContractError::NotFound),
        }
    }

    /// The balance of `who`, 0 where none was ever credited.
    pub fn balance(&self, who: Address) -> (r: u128)
        requires
            self.wf(),
        ensures
            r == self.balance_of(who),
    {
        self.balances.get(who)
    }
}

/// Consecutive recordings get strictly increasing ids, starting at 1 in an empty
/// registry, for as long as the counter stays below the largest `u64`.
pub proof fn session_ids_increase(count: u64)
    requires
        count < u64::MAX - 1,
    ensures
        next_session_id(0) == 1,
        next_session_id(count) < next_session_id(next_session_id(count)),
        next_session_id(next_session_id(count)) == next_session_id(count) + 1,
{
}

/// Confirmation fails whenever the caller is not the student, with `Unauthorized`
/// on a session not yet confirmed, and fails with `InvalidState` on any session
/// already confirmed.
pub proof fn confirm_guard(sessions: Map<u64, Session>, id: u64, caller: Address)
    requires
        sessions.contains_key(id),
    ensures
        caller != sessions[id].student ==> confirm_outcome(sessions, id, caller) is Err,
        caller != sessions[id].student && !sessions[id].confirmed ==> confirm_outcome(
            sessions,
            id,
            caller,
        ) == Err::<Session, ContractError>(ContractError::Unauthorized),
        sessions[id].confirmed ==> confirm_outcome(sessions, id, caller) == Err::<
            Session,
            ContractError,
        >(ContractError::InvalidState),
{
}

/// Payment fails with `InvalidState` on a session that is unconfirmed or already paid.
pub proof fn pay_guard(sessions: Map<u64, Session>, id: u64)
    requires
        sessions.contains_key(id),
    ensures
        !sessions[id].confirmed || sessions[id].paid ==> pay_outcome(sessions, id) == Err::<
            Session,
            ContractError,
        >(ContractError::InvalidState),
{
}

/// A payment credits the tutor with exactly the minutes times the rate, where that
/// product and the new balance fit in a `u128`.
pub proof fn payout_is_exact(balance: u128, duration_minutes: u32, rate_per_minute: u128)
    requires
        balance as int + duration_minutes as int * rate_per_minute as int <= u128::MAX,
    ensures
        credited(balance, payout_of(duration_minutes, rate_per_minute)) == balance as int
            + duration_minutes as int * rate_per_minute as int,
{
    assert(0 <= duration_minutes as int * rate_per_minute as int) by (nonlinear_arith);
}

/// After a withdrawal the balance is 0, so a second withdrawal returns 0.
pub proof fn withdraw_empties(balances: Map<Address, u128>, who: Address)
    ensures
        balance_in(balances.insert(who, 0), who) == 0,
{
}

/// Crediting a balance that is already at the largest `u128` leaves it there.
pub proof fn credit_saturates(amount: u128)
    ensures
        credited(u128::MAX, amount) == u128::MAX,
{
}

} // verus!
