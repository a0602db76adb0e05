//! Verification of zero-knowledge receipts against a claimed program identity,
//! with the request pipeline shared by a whole-body transport and a chunked one.

pub mod identity;
pub mod verification;
pub mod assembler;
pub mod request;
pub mod service;
