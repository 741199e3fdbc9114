//! The decisions of the command-line client: whether the interpreter runs
//! in a worker thread, and which kinds of signals the beacon logs.
use vstd::prelude::*;
use crate::platform::OperatingSystem;
use crate::text::views;
use crate::words::{split_whitespace, words, dedup, deduplicated};
use crate::bindings::configuration::{InterpreterConfiguration, ConfigurationModel};

verus! {

/// Whether the interpreter runs in a worker thread.
#[derive(Debug, Clone, Copy, PartialEq, Eq, Structural)]
pub enum WorkerThreadMode {
    /// Run the interpreter in a worker thread.
    Yes,
    /// Run the interpreter on the main thread.
    No,
    /// Decide by the platform.
    Auto,
}

/// Whether a mode runs the interpreter in a worker thread: automatically
/// on macOS, Windows, Linux and Android.
pub open spec fn cli_runs_in_worker_thread(mode: WorkerThreadMode, os: OperatingSystem) -> bool {
    match mode {
        WorkerThreadMode::Yes => true,
        WorkerThreadMode::No => false,
        WorkerThreadMode::Auto => os == OperatingSystem::MacOs || os == OperatingSystem::Windows || os
            == OperatingSystem::Linux || os == OperatingSystem::Android,
    }
}

impl WorkerThreadMode {
    /// Whether the interpreter runs in a worker thread on the given
    /// platform.
    pub fn should_run_in_worker_thread(&self, os: OperatingSystem) -> (result: bool)
        ensures
            result == cli_runs_in_worker_thread(*self, os),
    {
        match self {
            WorkerThreadMode::Yes => true,
            WorkerThreadMode::No => false,
            WorkerThreadMode::Auto => match os {
                OperatingSystem::MacOs => true,
                OperatingSystem::Windows => true,
                OperatingSystem::Linux => true,
                OperatingSystem::Android => true,
                _ => false,
            },
        }
    }
}

/// The words of several texts, one text after the other.
pub open spec fn all_words(values: Seq<Seq<char>>) -> Seq<Seq<char>>
    decreases values.len(),
{
    if values.len() == 0 {
        Seq::empty()
    } else {
        all_words(values.drop_last()) + words(values.last())
    }
}

/// The kinds of signals the beacon logs: the words of the values given,
/// without repeated neighbours; none at all (an empty list) when only all
/// signals were asked for; no beacon when neither was asked for.
pub fn log_signals(beacon: Option<Vec<String>>, beacon_all: bool) -> (result: Option<Vec<String>>)
    ensures
        match beacon {
            Some(values) => result matches Some(r) && views(r@) == deduplicated(all_words(views(values@))),
            None => if beacon_all { result matches Some(r) && r@.len() == 0 } else { result is None },
        },
{
    match beacon {
        Some(values) => {
            let mut signals: Vec<String> = Vec::new();
            let mut i: usize = 0;
            while i < values.len()
                invariant
                    i <= values@.len(),
                    views(signals@) == all_words(views(values@).take(i as int)),
                decreases values@.len() - i,
            {
                let ghost prefix = views(values@).take(i + 1);
                assert(prefix.drop_last() =~= views(values@).take(i as int));
                assert(prefix.last() == values@[i as int]@);
                let found = split_whitespace(values[i].as_str());
                let mut k: usize = 0;
                let ghost start = views(signals@);
                while k < found.len()
                    invariant
                        k <= found@.len(),
                        views(signals@) == start + views(found@).take(k as int),
                    decreases found@.len() - k,
                {
                    let item = found[k].clone();
                    let ghost before = signals@;
                    signals.push(item);
                    assert(views(signals@) =~= views(before).push(item@));
                    assert(views(found@).take(k + 1) =~= views(found@).take(k as int).push(item@));
                    k = k + 1;
                }
                assert(views(found@).take(k as int) =~= views(found@));
                i = i + 1;
            }
            assert(views(values@).take(i as int) =~= views(values@));
            Some(dedup(signals))
        },
        None => {
            if beacon_all {
                Some(Vec::new())
            } else {
                None
            }
        },
    }
}

/// The extra arguments passed on to the image: the name of the external
/// subcommand and its values, or none.
pub fn extra_arguments(external: Option<(String, Vec<String>)>) -> (result: Vec<String>)
    ensures
        match external {
            None => result@.len() == 0,
            Some(e) => views(result@) == seq![e.0@] + views(e.1@),
        },
{
    match external {
        None => Vec::new(),
        Some((name, values)) => {
            let mut arguments = vec![name];
            let ghost first = views(arguments@);
            let mut k: usize = 0;
            while k < values.len()
                invariant
                    k <= values@.len(),
                    views(arguments@) == first + views(values@).take(k as int),
                decreases values@.len() - k,
            {
                let item = values[k].clone();
                let ghost before = arguments@;
                arguments.push(item);
                assert(views(arguments@) =~= views(before).push(item@));
                assert(views(values@).take(k + 1) =~= views(values@).take(k as int).push(item@));
                k = k + 1;
            }
            assert(views(values@).take(k as int) =~= views(values@));
            arguments
        },
    }
}

/// The configuration of the interpreter from the command line: the image,
/// whether the session is interactive, whether segments with pinned objects
/// are skipped, the worker thread as the mode decides on the platform,
/// whether the stack is printed on signals, and the extra arguments.
pub fn interpreter_configuration(
    image: String,
    interactive: bool,
    avoid_pinned_segments: bool,
    worker: WorkerThreadMode,
    print_stack_on_signals: bool,
    extra_arguments: Vec<String>,
    os: OperatingSystem,
) -> (result: InterpreterConfiguration)
    ensures
        result@ == (ConfigurationModel {
            image: image@,
            interactive_session: interactive,
            should_print_stack_on_signals: print_stack_on_signals,
            should_avoid_searching_segments_with_pinned_objects: avoid_pinned_segments,
            worker_thread: cli_runs_in_worker_thread(worker, os),
            arguments: views(extra_arguments@),
        }),
{
    let mut configuration = InterpreterConfiguration::new(image);
    configuration.set_interactive_session(interactive);
    configuration.set_should_avoid_searching_segments_with_pinned_objects(avoid_pinned_segments);
    configuration.set_is_worker_thread(worker.should_run_in_worker_thread(os));
    configuration.set_should_print_stack_on_signals(print_stack_on_signals);
    configuration.set_extra_arguments(extra_arguments);
    configuration
}

} // verus!
