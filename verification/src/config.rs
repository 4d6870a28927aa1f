//! Run configuration and its validation.

use vstd::prelude::*;

verus! {

/// Options handed to every engine session.
#[derive(Clone, Copy, Debug)]
pub struct EngineOptions {
    /// Number of search threads the engine is told to use.
    pub threads: usize,
    /// Engine hash-table size in megabytes.
    pub hash: usize,
}

/// The full configuration of one run.
#[derive(Clone, Debug)]
pub struct RunConfig {
    /// Path of the engine executable.
    pub engine_path: String,
    /// Paths of the position files, one solve job each. Must not be empty.
    pub sfen_paths: Vec<String>,
    /// Number of jobs allowed to run at the same time.
    pub workers: usize,
    /// Options applied to every engine session.
    pub engine_options: EngineOptions,
}

/// A configuration fault that aborts the run before any job starts.
#[derive(Clone, Copy, Debug, PartialEq, Eq, Structural)]
pub enum ConfigError {
    /// The list of position files is empty.
    NoSfenFiles,
    /// The worker count is zero, so no job could ever run.
    ZeroWorkers,
    /// The engine thread count is zero.
    ZeroThreads,
}

/// A configuration is valid when there is at least one position file,
/// at least one worker slot, and a positive engine thread count.
pub open spec fn config_valid(args: RunConfig) -> bool {
    args.sfen_paths@.len() > 0 && args.workers > 0 && args.engine_options.threads > 0
}

/// Check the arguments of a run; report the first configuration fault found.
pub fn check_args(args: &RunConfig) -> (r: Result<(), ConfigError>)
    ensures
        r is Ok <==> config_valid(*args),
        r == Err::<(), ConfigError>(ConfigError::NoSfenFiles) <==> args.sfen_paths@.len() == 0,
        r == Err::<(), ConfigError>(ConfigError::ZeroWorkers) <==> args.sfen_paths@.len() > 0
            && args.workers == 0,
        r == Err::<(), ConfigError>(ConfigError::ZeroThreads) <==> args.sfen_paths@.len() > 0
            && args.workers > 0 && args.engine_options.threads == 0,
{
    if args.sfen_paths.len() == 0 {
        return Err(ConfigError::NoSfenFiles);
    }
    if args.workers == 0 {
        return Err(ConfigError::ZeroWorkers);
    }
    if args.engine_options.threads == 0 {
        return Err(ConfigError::ZeroThreads);
    }
    Ok(())
}

} // verus!
