//! Verified instruction logic of two Solana programs: a Merkle-root registry
//! (initialize, update a leaf, check a proof commitment) and a token program
//! front end that mints, burns, transfers and closes SPL token accounts.
//!
//! Accounts are modelled by [`account::AccountView`]; cross-program
//! invocations are returned to the caller as [`secredao_program::Step`]s.

pub mod account;
pub mod bytes;
pub mod dao_laws;
pub mod digest;
pub mod error;
pub mod merkle;
pub mod merkle_laws;
pub mod merkle_program;
pub mod secredao_program;
pub mod token;
