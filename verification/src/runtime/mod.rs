pub mod ledger;
pub mod memory;
