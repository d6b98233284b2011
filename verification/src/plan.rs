//! What is set up at startup for a list of commands: one supervisor and one
//! cancellation token per command, the aggregator, and the size of the pool
//! of workers that runs them.

use crate::aggregate::{Aggregator, Slot};
use crate::fanout::{FanOut, Watch};
use crate::machine::initial;
use crate::supervisor::Supervisor;
use vstd::prelude::*;

verus! {

/// The configured list of shell command lines, in order. Duplicates are
/// allowed and independent of each other; the list may be empty.
#[derive(Clone, Debug, PartialEq, Eq)]
pub struct FileConfig {
    pub cmds: Vec<String>,
}

/// The workers that `n` commands need so that none waits for a free one: two
/// waiters per command, one for the subprocess's exit and one for the
/// cancellation token, and one worker for the fan-out.
pub open spec fn required_workers(n: nat) -> nat {
    2 * n + 1
}

/// The size of the worker pool for `n` commands, or `None` where that number
/// does not fit the machine's word.
pub fn pool_size(n: usize) -> (size: Option<usize>)
    ensures
        size == if required_workers(n as nat) <= usize::MAX {
            Some(required_workers(n as nat) as usize)
        } else {
            None
        },
        size matches Some(workers) ==> workers > 0,
{
    if n <= (usize::MAX - 1) / 2 {
        Some(2 * n + 1)
    } else {
        None
    }
}

/// Everything that supervising a list of commands starts from.
pub struct Plan {
    /// The supervisor of each command, by index.
    pub supervisors: Vec<Supervisor>,
    /// The fan-out with one pending token per command.
    pub fan_out: FanOut,
    /// The aggregator that waits for every supervisor.
    pub aggregator: Aggregator,
    /// The number of workers that the pool must have.
    pub pool_size: usize,
}

/// Whether `plan` is what supervising the commands `cmds` starts from.
pub open spec fn plans(plan: Plan, cmds: Seq<String>) -> bool {
    &&& plan.pool_size == required_workers(cmds.len())
    &&& plan.supervisors@.len() == cmds.len()
    &&& forall|i: int|
        0 <= i < cmds.len() ==> {
            &&& (#[trigger] plan.supervisors@[i])@ == initial()
            &&& plan.supervisors@[i].spec_index() == i
            &&& plan.supervisors@[i].spec_command() == cmds[i]
        }
    &&& plan.fan_out@.watch == Watch::Watching
    &&& plan.fan_out@.fired == Seq::new(cmds.len(), |i: int| false)
    &&& plan.aggregator@ == Seq::new(cmds.len(), |i: int| Slot::Pending)
}

/// The supervisors of `cmds`: one per command, in order, none started.
pub fn supervisors(cmds: &Vec<String>) -> (supervisors: Vec<Supervisor>)
    ensures
        supervisors@.len() == cmds@.len(),
        forall|i: int|
            0 <= i < cmds@.len() ==> {
                &&& (#[trigger] supervisors@[i])@ == initial()
                &&& supervisors@[i].spec_index() == i
                &&& supervisors@[i].spec_command() == cmds@[i]
            },
{
    let mut supervisors: Vec<Supervisor> = Vec::new();
    let mut i: usize = 0;
    while i < cmds.len()
        invariant
            i <= cmds@.len(),
            supervisors@.len() == i,
            forall|j: int|
                0 <= j < i ==> {
                    &&& (#[trigger] supervisors@[j])@ == initial()
                    &&& supervisors@[j].spec_index() == j
                    &&& supervisors@[j].spec_command() == cmds@[j]
                },
        decreases cmds@.len() - i,
    {
        supervisors.push(Supervisor::new(i, cmds[i].clone()));
        i = i + 1;
    }
    supervisors
}

/// Sets up the supervision of the commands of `config`. The result is `None`
/// only where the pool of workers would be larger than the machine's word can
/// say.
pub fn plan(config: &FileConfig) -> (plan: Option<Plan>)
    ensures
        match plan {
            Some(p) => plans(p, config.cmds@),
            None => required_workers(config.cmds@.len()) > usize::MAX,
        },
{
    let n = config.cmds.len();
    match pool_size(n) {
        Some(workers) => Some(
            Plan {
                supervisors: supervisors(&config.cmds),
                fan_out: FanOut::new(n),
                aggregator: Aggregator::new(n),
                pool_size: workers,
            },
        ),
        None => None,
    }
}

} // verus!
