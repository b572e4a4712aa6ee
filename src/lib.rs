//! A token ledger with balances, spending allowances, an owner who issues
//! tokens and controls a pause switch and a blacklist, and batch transfers.
//!
//! Every operation states its effect exactly through the abstract state
//! machine of `state::TokenState`; `laws` proves the properties that follow.
pub mod account;
pub mod events;
pub mod laws;
pub mod state;
pub mod table;
pub mod token;

pub use account::{AccountId, AllowanceKey};
pub use events::{Approval, Burn, Mint, Transfer};
pub use state::TokenError;
pub use token::SimpleToken;
