//! A minimal token-issuance authorizer: given a request's ordered account
//! list, it binds each slot to a typed, ownership-checked handle, verifies
//! the signing authority, and packages a validated mint request for the
//! external token-ledger program that performs the balance arithmetic.

pub mod addr;
pub mod errors;
pub mod account;
pub mod records;
pub mod ata;
pub mod resolve;
pub mod gate;
pub mod dispatch;
pub mod pipeline;
pub mod entry;
pub mod laws;
