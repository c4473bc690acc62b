//! The application interface, the signal context, and signal dispatch.
//!
//! Signals are delivered by the OS on a path outside the application's
//! control; an intermediary turns each delivery into a message on an ordered
//! queue.  The [`Context`] wraps the queue's receiving end and offers one
//! operation: drain every signal that is pending right now, hand each to the
//! application in arrival order, and return without blocking.
use vstd::prelude::*;

use crate::logging::LogOptions;

verus! {

/// One OS process-control signal, out of the small closed set this crate
/// registers interest in.
#[derive(Clone, Copy, PartialEq, Eq, Structural, Debug)]
pub enum Signal {
    /// Interrupt request, usually from the terminal.
    Int,
    /// Termination request.
    Term,
    /// Hangup, usually a controlling-terminal loss or a reload request.
    Hup,
    /// Quit request from the terminal.
    Quit,
}

/// Whether the run loop should halt after the current work step.
#[derive(Clone, Copy, PartialEq, Eq, Structural, Debug)]
pub enum Stopping {
    /// The run loop should halt and shut the application down.
    Yes,
    /// The run loop should keep going.
    No,
}

/// Configuration loaded from a file.
///
/// Loading happens once at startup; an implementation that cannot parse its
/// file should report the failure to the operator and end the process.
pub trait Config: Sized {
    /// Load the configuration the options point at.
    fn load<O: Options>(options: &O) -> Self;
}

/// Command-line options.
///
/// Loading happens once at startup; an implementation that cannot parse the
/// command line should report the failure to the operator and end the
/// process.
pub trait Options: LogOptions + Sized {
    /// Parse the command line.
    fn load() -> Self;

    /// The path of the configuration file to load.
    fn config_path(&self) -> String;
}

/// Declares `std::sync::mpsc::Receiver`, the receiving end of the signal
/// queue, so it can stand in a field; the value is opaque here.
#[verifier::external_type_specification]
#[verifier::external_body]
#[verifier::reject_recursive_types(T)]
pub struct ExReceiver<T>(std::sync::mpsc::Receiver<T>);

/// A handle to the signal queue's receiving end.
///
/// Created once at process start and lent to every loop iteration; the
/// application decides when, if ever, to poll it.
pub struct Context {
    receiver: std::sync::mpsc::Receiver<Signal>,
}

impl Context {
    /// Wrap the receiving end of the signal queue.
    pub fn new(receiver: std::sync::mpsc::Receiver<Signal>) -> (r: Context) {
        Context { receiver }
    }

    /// Relies on `std::sync::mpsc::Receiver::try_recv`: it never blocks, and
    /// it returns the oldest queued signal, or `None` when the queue is
    /// empty right now or the sending side is gone.
    #[verifier::external_body]
    fn try_next(&self) -> (r: Option<Signal>) {
        self.receiver.try_recv().ok()
    }

    /// Remove every signal that is pending right now, oldest first, without
    /// waiting for more to arrive.
    fn drain(&self) -> (r: Vec<Signal>) {
        let mut drained: Vec<Signal> = Vec::new();
        let mut fuel: usize = usize::MAX;
        while fuel > 0
            decreases fuel,
        {
            fuel = fuel - 1;
            match self.try_next() {
                Some(signal) => drained.push(signal),
                None => { return drained; },
            }
        }
        drained
    }

    /// Drain all currently pending signals and hand each to `app`, in
    /// arrival order, without blocking; return as soon as the queue reports
    /// empty.  The application observes one handler call per signal.
    pub fn poll_signals<A: Application>(&self, app: &mut A)
        ensures
            exists|drained: Seq<Signal>| final (app).seen() == old(app).seen() + drained,
    {
        let drained = self.drain();
        deliver_all(app, &drained);
    }
}

/// Hand every signal in `signals` to `app`, in order: the application
/// observes exactly one handler call per signal, and nothing else.
pub fn deliver_all<A: Application>(app: &mut A, signals: &Vec<Signal>)
    ensures
        final (app).seen() == old(app).seen() + signals@,
{
    let ghost start = app.seen();
    let mut i: usize = 0;
    while i < signals.len()
        invariant
            0 <= i <= signals@.len(),
            app.seen() == start + signals@.subrange(0, i as int),
        decreases signals@.len() - i,
    {
        app.received_signal(signals[i]);
        proof {
            assert(signals@.subrange(0, i + 1) =~= signals@.subrange(0, i as int).push(
                signals@[i as int],
            ));
        }
        i = i + 1;
    }
    proof {
        assert(signals@.subrange(0, signals@.len() as int) =~= signals@);
    }
}

/// The application: domain-specific program logic driven by the run loop.
///
/// Two ghost records bind the contracts to real calls.  `seen` is the
/// application's record of the signals its handler has observed, in order;
/// `received_signal` appends exactly the signal it was handed.  `steps_seen`
/// is its record of every work step's outcome, in order; `run_once` appends
/// exactly the outcome it returned.  An application that treats any signal
/// as fatal may end the process inside its handler instead of returning.
pub trait Application: Sized {
    /// The error the application reports to the run loop's caller.
    type Err;

    /// Configuration to be loaded from a file.
    type Config: Config;

    /// Options from the command line.
    type Options: Options;

    /// The signals the application's handler has observed so far, oldest
    /// first.
    spec fn seen(&self) -> Seq<Signal>;

    /// The outcome of every work step the application has performed so far,
    /// oldest first.
    spec fn steps_seen(&self) -> Seq<Result<Stopping, Self::Err>>;

    /// Create an instance from the loaded options and configuration.
    fn new(options: Self::Options, config: Self::Config) -> Result<Self, Self::Err>;

    /// One work step; called over and over by the run loop.  The context is
    /// lent in so the step can poll for signals at a point of its choosing.
    /// The step's outcome goes on the application's record.
    fn run_once(&mut self, context: &Context) -> (r: Result<Stopping, Self::Err>)
        ensures
            final (self).steps_seen() == old(self).steps_seen().push(r),
    ;

    /// The signals the application wants delivered to its handler: unless
    /// overridden, exactly interrupt and terminate.
    fn signals() -> (wanted: Vec<Signal>)
        default_ensures
            wanted@ == seq![Signal::Int, Signal::Term],
    {
        let mut wanted: Vec<Signal> = Vec::new();
        wanted.push(Signal::Int);
        wanted.push(Signal::Term);
        proof {
            assert(wanted@ =~= seq![Signal::Int, Signal::Term]);
        }
        wanted
    }

    /// Handle one received signal; the handler observes it.
    fn received_signal(&mut self, signal: Signal)
        ensures
            final (self).seen() == old(self).seen().push(signal),
    ;

    /// Graceful shutdown, run only after a work step asks to stop: unless
    /// overridden, a no-op that succeeds.
    fn shutdown(self) -> (r: Result<(), Self::Err>)
        default_ensures
            r is Ok,
    {
        Ok(())
    }
}

} // verus!
