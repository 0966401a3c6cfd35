//! Verified core of a Solana staking program: the account records, the
//! decisions its instructions take, the amounts they move, and the
//! addresses its accounts live at.

pub mod address;
pub mod amounts;
pub mod constants;
pub mod error;
pub mod events;
pub mod pools;
pub mod staking;
pub mod states;
