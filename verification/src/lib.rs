//! Run ordinary iterator code over the successes of an iterator of `Result`s
//! and still learn whether one of them failed.
//!
//! [`TryContinue::try_continue`] wraps an iterator of `Result<T, E>` in a
//! [`TryContinueIter`], which hands out the `T`s, stops at the first `Err` and
//! keeps it. Once the caller's closure is done, the kept error, if there is
//! one, becomes the overall result.
//!
//! ```
//! use try_continue::TryContinue;
//!
//! let total = vec!["1", "2", "3", "4"]
//!     .into_iter()
//!     .map(str::parse::<u8>)
//!     .try_continue(|iter| iter.sum::<u8>());
//! assert_eq!(10_u8, total.unwrap());
//!
//! let total = vec!["1", "2", "three", "4"]
//!     .into_iter()
//!     .map(str::parse::<u8>)
//!     .try_continue(|iter| iter.sum::<u8>());
//! assert!(total.is_err());
//! ```
//!
//! The contracts are stated over [`model::AdapterState`], the mathematical
//! picture of an adapter, and [`laws`] proves what holds of every run.

pub mod adapter;
pub mod entry;
pub mod laws;
pub mod model;

pub use adapter::TryContinueIter;
pub use entry::TryContinue;
