use vstd::prelude::*;

verus! {

/// `android.util.Log.ASSERT`
pub const ASSERT: i32 = 7;

/// `android.util.Log.DEBUG`
pub const DEBUG: i32 = 3;

/// `android.util.Log.ERROR`
pub const ERROR: i32 = 6;

/// `android.util.Log.INFO`
pub const INFO: i32 = 4;

/// `android.util.Log.VERBOSE`
pub const VERBOSE: i32 = 2;

/// `android.util.Log.WARN`
pub const WARN: i32 = 5;

/// The severity of a log record, as the `log` facade names it.
#[derive(Clone, Copy, Debug, PartialEq, Eq, Structural)]
pub enum Level {
    Error,
    Warn,
    Info,
    Debug,
    Trace,
}

/// The most verbose level that the `log` facade lets through.
#[derive(Clone, Copy, Debug, PartialEq, Eq, Structural)]
pub enum LevelFilter {
    Off,
    Error,
    Warn,
    Info,
    Debug,
    Trace,
}

/// The `android.util.Log` priority that stands for a level.
pub open spec fn priority_of(level: Level) -> i32 {
    match level {
        Level::Error => ERROR,
        Level::Warn => WARN,
        Level::Info => INFO,
        Level::Debug => DEBUG,
        Level::Trace => VERBOSE,
    }
}

/// Convert a [`Level`] into a logging priority for `android.util.Log`.
pub fn log_level_to_priority(level: Level) -> (r: i32)
    ensures
        r == priority_of(level),
        VERBOSE <= r <= ERROR,
{
    match level {
        Level::Debug => DEBUG,
        Level::Error => ERROR,
        Level::Info => INFO,
        Level::Trace => VERBOSE,
        Level::Warn => WARN,
    }
}

/// Relies on `log::max_level`: it reads the process-wide maximum level, which
/// any thread may change at any time, so nothing is known of the result.
#[verifier::external_body]
fn current_max_level() -> (r: LevelFilter) {
    match ::log::max_level() {
        ::log::LevelFilter::Off => LevelFilter::Off,
        ::log::LevelFilter::Error => LevelFilter::Error,
        ::log::LevelFilter::Warn => LevelFilter::Warn,
        ::log::LevelFilter::Info => LevelFilter::Info,
        ::log::LevelFilter::Debug => LevelFilter::Debug,
        ::log::LevelFilter::Trace => LevelFilter::Trace,
    }
}

/// Relies on `log::set_max_level`: it stores the process-wide maximum level.
#[verifier::external_body]
fn store_max_level(level: LevelFilter)
    opens_invariants none
    no_unwind
{
    ::log::set_max_level(match level {
        LevelFilter::Off => ::log::LevelFilter::Off,
        LevelFilter::Error => ::log::LevelFilter::Error,
        LevelFilter::Warn => ::log::LevelFilter::Warn,
        LevelFilter::Info => ::log::LevelFilter::Info,
        LevelFilter::Debug => ::log::LevelFilter::Debug,
        LevelFilter::Trace => ::log::LevelFilter::Trace,
    })
}

/// Switches logging off for as long as it lives, so that the logger can call
/// into the host without logging its own calls; dropping it puts back the
/// level that was in force before.
pub struct DisableLogGuard {
    saved: LevelFilter,
}

impl DisableLogGuard {
    /// The level that dropping the guard restores.
    pub closed spec fn saved_level(&self) -> LevelFilter {
        self.saved
    }

    /// A guard that restores `previous` when dropped; switching logging off
    /// is left to the caller.
    pub fn restoring(previous: LevelFilter) -> (g: Self)
        ensures
            g.saved_level() == previous,
    {
        DisableLogGuard { saved: previous }
    }

    /// Switch logging off, remembering the level that was in force.
    pub fn new() -> (g: Self) {
        let old_level = current_max_level();
        store_max_level(LevelFilter::Off);
        Self::restoring(old_level)
    }

    /// The level that dropping the guard restores.
    pub fn saved(&self) -> (r: LevelFilter)
        ensures
            r == self.saved_level(),
    {
        self.saved
    }
}

impl Drop for DisableLogGuard {
    fn drop(&mut self)
        opens_invariants none
        no_unwind
    {
        store_max_level(self.saved);
    }
}

} // verus!
