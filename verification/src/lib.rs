//! Scaffolding for long-running service processes.
//!
//! The crate drives a repeating work loop, funnels OS signals into that loop
//! through a non-blocking poll, and provides a logger sink with level
//! filtering, target-prefix filtering, and an optional syslog-style priority
//! prefix.  Everything that decides or computes is verified here; the
//! embedding program supplies the process edges (signal registration, the
//! locked output stream, process exit).
use vstd::prelude::*;

mod application;
mod logging;

pub use application::Application;
pub use application::Config;
pub use application::Context;
pub use application::Options;
pub use application::Signal;
pub use application::Stopping;
pub use application::deliver_all;
pub use logging::LogOptions;
pub use logging::Logger;
pub use logging::Metadata;
pub use logging::Record;
pub use logging::Level;
pub use logging::LevelFilter;
pub use logging::level_enabled;
pub use logging::spec_level_enabled;
pub use logging::level_rank;
pub use logging::filter_rank;
pub use logging::spec_priority_prefix;
pub use logging::spec_starts_with;
pub use logging::str_starts_with;
pub use logging::lemma_level_gate;
pub use logging::lemma_target_gate;
pub use logging::lemma_empty_filter_admits_all;
pub use logging::lemma_rendered_line_whole;

verus! {

/// What the run loop does with the outcome of one work step.
pub enum StepVerdict<E> {
    /// The step succeeded and asked to keep going: run another step.
    Proceed,
    /// The step succeeded and asked to stop: shut the application down.
    Finish,
    /// The step failed: stop at once, skip shutdown, surface the error.
    Abort(E),
}

/// Decide what the run loop does after one work step: keep going on
/// `Ok(Stopping::No)`, shut down on `Ok(Stopping::Yes)`, and on an error
/// stop at once without shutdown, surfacing that error unchanged.
pub fn judge_step<E>(outcome: Result<Stopping, E>) -> (v: StepVerdict<E>)
    ensures
        match outcome {
            Ok(Stopping::No) => v is Proceed,
            Ok(Stopping::Yes) => v is Finish,
            Err(e) => v == StepVerdict::Abort(e),
        },
{
    match outcome {
        Ok(Stopping::No) => StepVerdict::Proceed,
        Ok(Stopping::Yes) => StepVerdict::Finish,
        Err(e) => StepVerdict::Abort(e),
    }
}

/// Ghost record of one full lifecycle, as the run loop drove it.
pub struct RunLog<E> {
    /// Construction failed; nothing else ran.
    pub construction_failed: bool,
    /// The outcome of every work step, in order.
    pub steps: Seq<Result<Stopping, E>>,
    /// The shutdown routine's result, where shutdown was invoked.
    pub shutdown_result: Option<Result<(), E>>,
}

/// The lifecycle discipline: how a run's log and its final outcome hang
/// together.
///
/// - The loop never runs past a halt: every step before the last asked to
///   continue.
/// - A failed construction returns that error at once: no step runs and
///   shutdown is never invoked.
/// - After a successful construction at least one step runs.
/// - A step error ends the loop at once: shutdown is deliberately skipped
///   and that very error is the outcome.
/// - Shutdown is invoked exactly when the last step asked to stop (or when
///   the loop's unreachable iteration budget ran out), and its result is the
///   outcome, so a shutdown failure is propagated.
pub open spec fn run_log_consistent<E>(log: RunLog<E>, outcome: Result<(), E>) -> bool {
    &&& forall|i: int|
        0 <= i < log.steps.len() - 1 ==> log.steps[i] == Ok::<Stopping, E>(Stopping::No)
    &&& log.construction_failed ==> log.steps.len() == 0 && log.shutdown_result is None
        && outcome is Err
    &&& !log.construction_failed ==> log.steps.len() > 0
    &&& (!log.construction_failed && log.shutdown_result is None) ==> (log.steps.last() matches
    Err(e) && outcome == Err::<(), E>(e))
    &&& log.steps.len() > 0 ==> (log.steps.last() matches Err(e) ==> (log.shutdown_result is None
        && outcome == Err::<(), E>(e)))
    &&& (log.steps.len() > 0 && log.steps.last() == Ok::<Stopping, E>(Stopping::Yes))
        ==> log.shutdown_result is Some
    &&& log.shutdown_result matches Some(finish) ==> (outcome == finish && log.steps.len() > 0 && (
    log.steps.last() == Ok::<Stopping, E>(Stopping::Yes) || log.steps.len() == usize::MAX))
}

/// How the work loop ended.
pub enum LoopEnd<E> {
    /// The last step asked to stop; graceful shutdown is owed.
    Stopped,
    /// The last step failed with this error; the loop ended at once and
    /// shutdown must be skipped.
    Failed(E),
}

/// Drive work steps against `app` until one asks to stop or fails, lending
/// the signal context to every step.
///
/// The contract is over the application's own record of its steps: exactly
/// the returned sequence of outcomes was appended to `steps_seen`, every
/// outcome before the last asked to continue — the loop never runs past a
/// halt — and the result names the last outcome: `Stopped` iff it asked to
/// stop, `Failed(e)` iff it was that very error.
///
/// The loop carries an iteration budget of `usize::MAX` steps so that each
/// call provably makes progress; a service would take centuries to use it
/// up.  If it ever ran out, the loop would end as if the last step had asked
/// to stop.
pub fn drive_steps<T: Application>(app: &mut T, context: &Context) -> (r: (
    LoopEnd<T::Err>,
    Ghost<Seq<Result<Stopping, T::Err>>>,
))
    ensures
        final (app).steps_seen() == old(app).steps_seen() + r.1@,
        r.1@.len() > 0,
        forall|i: int| 0 <= i < r.1@.len() - 1 ==> r.1@[i] == Ok::<Stopping, T::Err>(Stopping::No),
        match r.0 {
            LoopEnd::Stopped => r.1@.last() == Ok::<Stopping, T::Err>(Stopping::Yes) || (r.1@.len()
                == usize::MAX && r.1@.last() == Ok::<Stopping, T::Err>(Stopping::No)),
            LoopEnd::Failed(e) => r.1@.last() == Err::<Stopping, T::Err>(e),
        },
{
    let ghost start = app.steps_seen();
    let ghost mut steps: Seq<Result<Stopping, T::Err>> = Seq::empty();
    let mut fuel: usize = usize::MAX;
    while fuel > 0
        invariant
            steps.len() + fuel == usize::MAX,
            start == old(app).steps_seen(),
            app.steps_seen() == start + steps,
            forall|i: int| 0 <= i < steps.len() ==> steps[i] == Ok::<Stopping, T::Err>(Stopping::No),
        decreases fuel,
    {
        fuel = fuel - 1;
        let outcome = app.run_once(context);
        proof {
            assert((start + steps).push(outcome) =~= start + steps.push(outcome));
            steps = steps.push(outcome);
        }
        match judge_step(outcome) {
            StepVerdict::Proceed => {},
            StepVerdict::Finish => {
                return (LoopEnd::Stopped, Ghost(steps));
            },
            StepVerdict::Abort(e) => {
                return (LoopEnd::Failed(e), Ghost(steps));
            },
        }
    }
    (LoopEnd::Stopped, Ghost(steps))
}

/// Construct the application and drive its lifecycle to completion.
///
/// The application is built from the loaded options and configuration; a
/// construction failure is returned to the caller.  Then [`drive_steps`]
/// runs the work loop, each step lent the signal context.  A step that asks
/// to stop ends the loop normally and the shutdown routine's result is
/// returned; a step that fails ends the loop at once, shutdown is
/// deliberately skipped, and that error is returned.  The loop itself never
/// ends the process.
///
/// Alongside the outcome the caller gets a ghost log of the whole run —
/// whether construction failed, every step outcome in order, and shutdown's
/// result where it ran — bound to the outcome by [`run_log_consistent`].
/// The application itself is consumed by shutdown, so the log cannot be tied
/// to the application's own `steps_seen` record here; the binding loop-level
/// contract is [`drive_steps`]'s, stated over a borrowed application.
pub fn run_application<T: Application>(
    options: T::Options,
    config: T::Config,
    context: &Context,
) -> (r: (Result<(), T::Err>, Ghost<RunLog<T::Err>>))
    ensures
        run_log_consistent(r.1@, r.0),
{
    let mut app = match T::new(options, config) {
        Ok(app) => app,
        Err(e) => {
            let log = Ghost(
                RunLog { construction_failed: true, steps: Seq::empty(), shutdown_result: None },
            );
            return (Err(e), log);
        },
    };
    let (end, steps) = drive_steps(&mut app, context);
    match end {
        LoopEnd::Stopped => {
            let finish = app.shutdown();
            let log = Ghost(
                RunLog { construction_failed: false, steps: steps@, shutdown_result: Some(finish) },
            );
            (finish, log)
        },
        LoopEnd::Failed(e) => {
            let log = Ghost(
                RunLog { construction_failed: false, steps: steps@, shutdown_result: None },
            );
            (Err(e), log)
        },
    }
}

} // verus!
