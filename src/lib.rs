//! Portable concurrency primitives: guarded cells, a resettable timeout
//! schedule, and the bookkeeping of write-once and resettable async values.
mod lock;
pub mod time;
pub mod value;

pub use lock::{Mutex, MutexGuard, RwLock, RwLockReadGuard, RwLockWriteGuard};
