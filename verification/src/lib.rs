//! Verified state-transition core of a family of on-chain financial programs:
//! a constant-product automated market maker, a token-for-token escrow, an NFT
//! marketplace with a rewards token, an NFT staking program, a native-asset
//! custody vault, and an affiliate-marketing campaign ledger.
//!
//! The crate models the persistent records, the derived-address scheme that
//! ties records to authorities, the token/native transfer primitives, and the
//! per-instruction state transitions with their fee and curve arithmetic.
//! Each instruction is an atomic transition: on any error the involved
//! records and balances are left unchanged.

pub mod keys;
pub mod math;
pub mod token;
pub mod pda;
pub mod layout;
pub mod store;
pub mod amm;
pub mod escrow;
pub mod marketplace;
pub mod staking;
pub mod vault;
pub mod fili8;
