//! Accounting core of a tokenized vault: a 256-bit amount type, the
//! conversion from assets to shares, the wire codec of the balance query
//! sent to the asset contract, the vault controller that ties them, and the
//! initial supply of the fund token.

pub mod amount;
pub mod conversion;
pub mod identity;
pub mod codec;
pub mod vault;
pub mod token;
