//! Verified state machines of a fungible token and of a two-party escrow.
pub mod account;
pub mod escrow;
pub mod escrow_model;
pub mod escrow_laws;
pub mod supply;
pub mod token;
pub mod token_laws;
pub mod token_model;

pub use account::AccountId;
pub use escrow_model::{
    EscrowContract, EscrowError, EscrowInfo, EscrowOutcome, EscrowState, Flow, Payment,
    MIN_DEADLINE_BUFFER,
};
pub use token::TokenContract;
pub use token_model::{AllowanceValue, Outcome, TokenError, TokenState};
