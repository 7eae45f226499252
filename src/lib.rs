//! A publishing platform kept as derived-address records: a marketplace, an
//! NFT minter, and the publishing module that composes the two.
pub mod address;
pub mod store;
pub mod marketplace;
pub mod minter;
pub mod state;
pub mod errors;
pub mod access;
pub mod platform;
pub mod laws;
