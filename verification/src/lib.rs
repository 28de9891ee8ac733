//! Stock ledger rules of a warehouse inventory application.
pub mod text;
pub mod quantity;
pub mod ledger;
pub mod inventory;
pub mod correction;
pub mod transfer;
pub mod laws;
pub mod inventory_page;
pub mod attachment;
pub mod database;
pub mod migration;
pub mod scan;
pub mod consistency;
pub mod fidelity;
