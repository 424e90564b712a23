//! Utilities for running Rust code inside an Android host: a mapping of log
//! levels onto `android.util.Log` priorities, and the bookkeeping of a bridge
//! that runs futures on a host's serial work queue (an `android.os.Handler`).

pub mod log;
pub mod os;
pub mod queue;
