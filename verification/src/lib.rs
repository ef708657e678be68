//! On-ledger revenue sharing: a fixed pair of members draws from a shared
//! custodial balance in proportion to pre-agreed shares.
//!
//! The crate is organised around three cores: the fixed-layout codec for the
//! persistent sharing record (`state`), the instruction decoder
//! (`instruction`), and the handlers that authorise initialization and
//! withdrawals (`processor`). The derived custodial authority is resolved in
//! `authority`, the module's reads of the external token ledger live in
//! `token`, and every failure kind is in `error`.

pub mod authority;
pub mod error;
pub mod instruction;
pub mod processor;
pub mod state;
pub mod token;
