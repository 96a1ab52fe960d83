//! Bringing runtimes down, as steps to be taken in order.

use vstd::prelude::*;

use tokio::runtime::Runtime as TokioRuntime;
use tokio::sync::oneshot::Sender;

use crate::duration::Duration;
use crate::no_steal::Control;

verus! {

/// One step of bringing a runtime down.
///
/// `J` is what a thread is waited for by, `G` what keeps telemetry going.
pub enum ShutdownStep<J, G> {
    /// Drop the telemetry guard.
    DropGuard(G),
    /// Call tokio's `shutdown_timeout` on the runtime.
    ShutdownRuntime(TokioRuntime, Duration),
    /// Send a worker the timeout to shut down with. It fails when the worker is
    /// gone, which is ignored.
    SendTimeout(Sender<Duration>, Duration),
    /// Wait for a worker's thread. How the thread ended is ignored.
    Join(J),
}

/// The steps that bring workers down: all are told before any is waited for.
pub open spec fn worker_steps<J, G>(controls: Seq<Control<J>>, timeout: Duration) -> Seq<
    ShutdownStep<J, G>,
> {
    controls.map_values(
        |control: Control<J>| ShutdownStep::<J, G>::SendTimeout(control.timeout, timeout),
    ) + controls.map_values(|control: Control<J>| ShutdownStep::<J, G>::Join(control.thread))
}

/// The steps that bring the workers of `controls` down: none, where no workers
/// have been started.
pub fn shutdown_workers<J, G>(controls: Option<Vec<Control<J>>>, timeout: Duration) -> (r: Vec<
    ShutdownStep<J, G>,
>)
    ensures
        match controls {
            Some(controls) => r@ == worker_steps::<J, G>(controls@, timeout),
            None => r@.len() == 0,
        },
{
    let mut steps: Vec<ShutdownStep<J, G>> = Vec::new();
    let controls = match controls {
        Some(controls) => controls,
        None => {
            return steps;
        },
    };
    let ghost all = controls@;
    let mut threads: Vec<J> = Vec::new();
    for control in iter: controls
        invariant
            iter.seq() == all,
            steps@ == all.take(iter.index() as int).map_values(
                |control: Control<J>| ShutdownStep::<J, G>::SendTimeout(control.timeout, timeout),
            ),
            threads@ == all.take(iter.index() as int).map_values(
                |control: Control<J>| control.thread,
            ),
    {
        steps.push(ShutdownStep::SendTimeout(control.timeout, timeout));
        threads.push(control.thread);
    }
    let ghost told = steps@;
    let ghost waited = threads@;
    for thread in iter: threads
        invariant
            iter.seq() == waited,
            steps@ == told + waited.take(iter.index() as int).map_values(
                |thread: J| ShutdownStep::<J, G>::Join(thread),
            ),
    {
        steps.push(ShutdownStep::Join(thread));
    }
    assert(steps@ =~= worker_steps::<J, G>(all, timeout));
    steps
}

/// Every worker is told once, with the timeout asked for, and waited for once,
/// and no worker is waited for before all have been told.
pub proof fn law_all_told_before_any_wait<J, G>(controls: Seq<Control<J>>, timeout: Duration)
    ensures
        worker_steps::<J, G>(controls, timeout).len() == 2 * controls.len(),
        forall|i: int|
            0 <= i < controls.len() ==> #[trigger] worker_steps::<J, G>(controls, timeout)[i]
                == ShutdownStep::<J, G>::SendTimeout(controls[i].timeout, timeout),
        forall|i: int|
            0 <= i < controls.len() ==> worker_steps::<J, G>(controls, timeout)[controls.len() + i]
                == ShutdownStep::<J, G>::Join((#[trigger] controls[i]).thread),
{
}

} // verus!
