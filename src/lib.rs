//! NFT staking accounting: an owner escrows a non-fungible token in a vault
//! controlled by the program, accrues one point per elapsed hour, redeems
//! points into a running balance and finally withdraws the token.

pub mod accounts;
pub mod address;
pub mod error;
pub mod instructions;
pub mod lifecycle;

pub use accounts::{points_since, Collection, StakeState, TokenAccount, UserInfo, UserStakeInfo, HOUR};
pub use address::Address;
pub use error::ErrorCode;
pub use instructions::{redeem, stake, unstake, Redeem, Stake, Unstake};
