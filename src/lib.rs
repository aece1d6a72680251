//! A git-backed synchronisation engine: it maps configured items to paths on
//! the current device, decides which copies or hardlinks are needed, and steps
//! the background pull-and-restore loop.
pub mod cli;
pub mod config;
pub mod copy;
pub mod device;
pub mod error;
pub mod ops;
pub mod paths;
pub mod store;
pub mod sync;
