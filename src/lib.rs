//! A crowdfunding campaign ledger entry: derived campaign addresses, the
//! instruction wire format, and the state transitions that move funds.

pub mod address;
pub mod error;
pub mod bytes;
pub mod codec;
pub mod state;
pub mod instructions;
pub mod processor;
pub mod client;
