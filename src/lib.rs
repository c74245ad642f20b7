pub mod address;
pub mod escrow;
pub mod ledger;
pub mod lifecycle;
