//! Classification of marketplace activity in a stream of chain receipts.
//!
//! Receipts addressed to the watched NFT and marketplace contracts are broken
//! into one execution detail per function call, each detail is matched by its
//! method name, and the typed marketplace event it stands for is built, with
//! the request that carries the event to the store behind the marketplace.

pub mod chain;
pub mod codec;
pub mod correlation;
pub mod dispatch;
pub mod event;
pub mod forward;
pub mod handlers;
pub mod json;
pub mod price;
pub mod receipt;
pub mod stream;
pub mod text;

