use std::sync::Arc;
use std::sync::Mutex;
use std::sync::mpsc;

use service_frame::{
    Application, Config, Context, LevelFilter, LogOptions, Options, Signal, Stopping, deliver_all,
};

struct RecorderOptions;

impl LogOptions for RecorderOptions {
    fn target_filter(&self) -> String {
        String::new()
    }

    fn max_log_level(&self) -> LevelFilter {
        LevelFilter::Off
    }
}

impl Options for RecorderOptions {
    fn load() -> Self {
        RecorderOptions
    }

    fn config_path(&self) -> String {
        String::new()
    }
}

struct RecorderConfig;

impl Config for RecorderConfig {
    fn load<O: Options>(_options: &O) -> Self {
        RecorderConfig
    }
}

struct Recorder {
    observed: Arc<Mutex<Vec<Signal>>>,
}

impl Application for Recorder {
    type Err = String;
    type Config = RecorderConfig;
    type Options = RecorderOptions;

    fn seen(&self) -> vstd::seq::Seq<Signal> {
        unreachable!()
    }

    fn steps_seen(&self) -> vstd::seq::Seq<Result<Stopping, String>> {
        unreachable!()
    }

    fn new(_options: RecorderOptions, _config: RecorderConfig) -> Result<Self, String> {
        Ok(Recorder { observed: Arc::new(Mutex::new(Vec::new())) })
    }

    fn run_once(&mut self, _context: &Context) -> Result<Stopping, String> {
        Ok(Stopping::Yes)
    }

    fn received_signal(&mut self, signal: Signal) {
        self.observed.lock().unwrap().push(signal);
    }
}

fn recorder() -> Recorder {
    Recorder { observed: Arc::new(Mutex::new(Vec::new())) }
}

#[test]
fn poll_drains_all_pending_signals_in_order() {
    let (tx, rx) = mpsc::channel();
    let context = Context::new(rx);
    tx.send(Signal::Int).unwrap();
    tx.send(Signal::Term).unwrap();
    tx.send(Signal::Int).unwrap();
    let mut app = recorder();
    context.poll_signals(&mut app);
    assert_eq!(*app.observed.lock().unwrap(), vec![Signal::Int, Signal::Term, Signal::Int]);
}

#[test]
fn poll_leaves_nothing_pending() {
    let (tx, rx) = mpsc::channel();
    let context = Context::new(rx);
    tx.send(Signal::Hup).unwrap();
    tx.send(Signal::Quit).unwrap();
    let mut app = recorder();
    context.poll_signals(&mut app);
    assert_eq!(app.observed.lock().unwrap().len(), 2);
    context.poll_signals(&mut app);
    assert_eq!(app.observed.lock().unwrap().len(), 2);
}

#[test]
fn poll_returns_at_once_on_an_empty_queue() {
    let (_tx, rx) = mpsc::channel::<Signal>();
    let context = Context::new(rx);
    let mut app = recorder();
    context.poll_signals(&mut app);
    assert!(app.observed.lock().unwrap().is_empty());
}

#[test]
fn poll_survives_a_disconnected_queue() {
    let (tx, rx) = mpsc::channel();
    let context = Context::new(rx);
    tx.send(Signal::Term).unwrap();
    drop(tx);
    let mut app = recorder();
    context.poll_signals(&mut app);
    assert_eq!(*app.observed.lock().unwrap(), vec![Signal::Term]);
}

#[test]
fn repeated_signals_are_not_coalesced() {
    let (tx, rx) = mpsc::channel();
    let context = Context::new(rx);
    tx.send(Signal::Int).unwrap();
    tx.send(Signal::Int).unwrap();
    tx.send(Signal::Int).unwrap();
    let mut app = recorder();
    context.poll_signals(&mut app);
    assert_eq!(app.observed.lock().unwrap().len(), 3);
}

#[test]
fn deliver_all_dispatches_each_signal_in_order() {
    let mut app = recorder();
    let burst = vec![Signal::Int, Signal::Hup, Signal::Term];
    deliver_all(&mut app, &burst);
    assert_eq!(*app.observed.lock().unwrap(), burst);
    deliver_all(&mut app, &Vec::new());
    assert_eq!(app.observed.lock().unwrap().len(), 3);
}
