use vstd::prelude::*;
use crate::lifecycle::SingleInstanceSignal;

verus! {

/// What a starting process does after trying to acquire the well-known
/// single-instance lock.
#[derive(Debug)]
pub enum LaunchDecision {
    /// The lock was acquired: this process is the sole owner and must register
    /// the listener for signals from later launches.
    BecomeOwner,
    /// The lock was held already: forward this launch's arguments and working
    /// directory to the owner and exit immediately with no further work.
    ForwardToOwner(SingleInstanceSignal),
}

/// The instance arbiter's decision at process start. The lock attempt itself
/// is the driver's OS-level work; its result decides everything: the owner
/// proceeds, a second instance forwards exactly its invocation arguments and
/// working directory and exits.
pub fn arbitrate_launch(lock_acquired: bool, args: Vec<String>, cwd: String) -> (d: LaunchDecision)
    ensures
        lock_acquired ==> d is BecomeOwner,
        !lock_acquired ==> (d matches LaunchDecision::ForwardToOwner(s) && s.args == args
            && s.cwd == cwd),
{
    if lock_acquired {
        LaunchDecision::BecomeOwner
    } else {
        LaunchDecision::ForwardToOwner(SingleInstanceSignal { args, cwd })
    }
}

} // verus!
