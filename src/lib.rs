//! Two small record registries kept in a key-value ledger: inspection stamps with
//! revocation, and tutoring sessions that move from recorded to confirmed to paid,
//! with a per-tutor balance that accrues payouts and is withdrawn in full.
use vstd::prelude::*;

pub mod balances;
pub mod error;
pub mod keys;
pub mod sessions;
pub mod stamps;

pub use balances::BalanceBook;
pub use error::ContractError;
pub use keys::{Address, BalanceKey, SessionKey, StampKey};
pub use sessions::{Session, TutorSessionSeal};
pub use stamps::{InspectionRegistry, InspectionStamp};

verus! {

} // verus!
