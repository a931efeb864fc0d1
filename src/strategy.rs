use vstd::prelude::*;

verus! {

/// How each socket-open call is executed.
#[derive(Clone, Copy, Debug, PartialEq, Eq, Structural)]
pub enum Strategy {
    /// The opener runs inline on the calling task.
    Direct,
    /// The opener runs on the single-slot blocking pool.
    Offloaded,
}

/// The strategy selected by a command line of `n_args` words, the program's
/// own name included: any argument beyond the name selects offloading.
pub fn strategy_for_args(n_args: usize) -> (r: Strategy)
    ensures
        r == (if n_args > 1 { Strategy::Offloaded } else { Strategy::Direct }),
{
    if n_args > 1 {
        Strategy::Offloaded
    } else {
        Strategy::Direct
    }
}

/// The line printed at startup for the direct strategy.
pub const DIRECT_MESSAGE: &'static str = "Opening socket without tokio::task::spawn_blocking";

/// The line printed at startup for the offloaded strategy.
pub const OFFLOADED_MESSAGE: &'static str = "Opening socket with tokio::task::spawn_blocking";

/// The line that names the strategy at startup.
pub fn startup_message(s: Strategy) -> (r: &'static str)
    ensures
        s == Strategy::Direct ==> r@ == DIRECT_MESSAGE@,
        s == Strategy::Offloaded ==> r@ == OFFLOADED_MESSAGE@,
{
    match s {
        Strategy::Direct => DIRECT_MESSAGE,
        Strategy::Offloaded => OFFLOADED_MESSAGE,
    }
}

/// The shape of the async runtime that a run needs: how many general worker
/// threads, and how many threads may run blocking work at once.
#[derive(Clone, Copy, Debug, PartialEq, Eq, Structural)]
pub struct RuntimeConfig {
    pub worker_threads: usize,
    pub max_blocking_threads: usize,
}

impl RuntimeConfig {
    /// Two general workers and a single slot for blocking work, so that under
    /// the offloaded strategy at most one socket is being opened at a time.
    pub fn benchmark() -> (r: RuntimeConfig)
        ensures
            r.worker_threads == 2,
            r.max_blocking_threads == 1,
    {
        RuntimeConfig { worker_threads: 2, max_blocking_threads: 1 }
    }
}

} // verus!
