//! Keeps the cursor of a data pipeline: the last position that was processed,
//! cached in memory and persisted through one of several storage backends.
//!
//! The library holds the logic: the text format of a position, the storage
//! backends' pure parts and the provider's state machine with its debounce
//! policy. Reading and writing files or a remote store is left to the caller,
//! who hands the outcomes back to the provider.

pub mod error;
pub mod point;
pub mod storage;
pub mod provider;
