//! Plugin tier economy of an idle clicker game: tier unlocking, plugin
//! creation, installation, accrual and the split of install payments between
//! a plugin's creator and the burn.
//!
//! Every operation is a state transition over the records it touches. Token
//! movements are not performed here: an operation that succeeds returns the
//! list of mints and burns that the host must apply in the same transaction.
//! An operation that fails leaves every record unchanged and asks for nothing.

pub mod click;
pub mod economy;
pub mod errors;
pub mod ledger;
pub mod registry;
pub mod revenue;
pub mod slots;
pub mod state;
