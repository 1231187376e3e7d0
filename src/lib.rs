//! Decision logic of a one-route HTTP relay for sale records: where a sale is
//! forwarded, what is forwarded, and how the downstream outcome becomes the
//! reply handed back to the caller.

pub mod config;
pub mod reply;
pub mod sale;
