//! The interpreter: its configuration, the table of primitives it exports,
//! and the log levels it reports with.
use vstd::prelude::*;
use super::configuration::InterpreterConfiguration;
use super::export::{NamedPrimitive, valid_prefix_len, lemma_valid_prefix_len};

verus! {

/// The levels of the interpreter's log messages, from none to the most
/// detailed.
#[derive(Debug, Clone, Copy, PartialEq, Eq, Structural, PartialOrd, Ord)]
pub enum LogLevel {
    Off,
    Error,
    Warn,
    Info,
    Debug,
    Trace,
}

/// The number of each log level.
pub open spec fn level_number(level: LogLevel) -> u8 {
    match level {
        LogLevel::Off => 0,
        LogLevel::Error => 1,
        LogLevel::Warn => 2,
        LogLevel::Info => 3,
        LogLevel::Debug => 4,
        LogLevel::Trace => 5,
    }
}

impl LogLevel {
    /// The level with the given number, if there is one.
    pub fn from_u8(n: u8) -> (result: Option<LogLevel>)
        ensures
            n <= 5 ==> (result matches Some(level) && level_number(level) == n),
            n > 5 ==> result is None,
    {
        match n {
            0 => Some(LogLevel::Off),
            1 => Some(LogLevel::Error),
            2 => Some(LogLevel::Warn),
            3 => Some(LogLevel::Info),
            4 => Some(LogLevel::Debug),
            5 => Some(LogLevel::Trace),
            _ => None,
        }
    }

    /// The number of this level.
    pub fn to_u8(&self) -> (result: u8)
        ensures
            result == level_number(*self),
    {
        match self {
            LogLevel::Off => 0,
            LogLevel::Error => 1,
            LogLevel::Warn => 2,
            LogLevel::Info => 3,
            LogLevel::Debug => 4,
            LogLevel::Trace => 5,
        }
    }
}

/// Reading back the number of a level gives the level.
pub proof fn lemma_log_level_round_trip(level: LogLevel)
    ensures
        level_number(level) <= 5,
        forall|other: LogLevel| level_number(other) == level_number(level) ==> other == level,
{
}

/// An interpreter to be started: its configuration and the table of named
/// primitives it exports.
pub struct PharoInterpreter {
    configuration: InterpreterConfiguration,
    exports: Vec<NamedPrimitive>,
}

impl PharoInterpreter {
    /// Every exported primitive is valid.
    pub closed spec fn well_formed(&self) -> bool {
        forall|i: int| 0 <= i < self.exports@.len() ==> (#[trigger] self.exports@[i])@.valid()
    }

    /// The primitives the interpreter exports, in order.
    pub closed spec fn exports_view(&self) -> Seq<NamedPrimitive> {
        self.exports@
    }

    /// The configuration the interpreter starts with.
    pub closed spec fn configuration_view(&self) -> InterpreterConfiguration {
        self.configuration
    }

    /// An interpreter with the given configuration that exports the entries
    /// of the virtual machine's table up to the first invalid one.
    pub fn new(configuration: InterpreterConfiguration, vm_exports: Vec<NamedPrimitive>) -> (result: Self)
        ensures
            result.well_formed(),
            result.exports_view() == vm_exports@.take(valid_prefix_len(vm_exports@) as int),
            result.configuration_view() == configuration,
    {
        let length = NamedPrimitive::detect_exports_length(&vm_exports);
        let mut exports = vm_exports;
        proof {
            lemma_valid_prefix_len(exports@);
        }
        exports.truncate(length);
        let result = PharoInterpreter { configuration, exports };
        assert forall|i: int| 0 <= i < result.exports@.len() implies (#[trigger] result.exports@[i])@.valid() by {
            assert(result.exports@[i] == vm_exports@[i]);
        }
        result
    }

    /// The configuration the interpreter starts with.
    pub fn configuration(&self) -> (result: &InterpreterConfiguration)
        ensures
            *result == self.configuration_view(),
    {
        &self.configuration
    }

    /// Whether starting the interpreter runs it in a worker thread rather
    /// than in the calling thread.
    pub fn starts_in_worker_thread(&self) -> (result: bool)
        ensures
            result == self.configuration_view()@.worker_thread,
    {
        self.configuration.is_worker_thread()
    }

    /// The stack size of the worker thread: 32 MiB.
    pub fn guess_stack_size(&self) -> (result: usize)
        ensures
            result == 32 * 1024 * 1024,
    {
        32 * 1024 * 1024
    }

    /// The named primitives that the interpreter exports.
    pub fn vm_exports(&self) -> (result: &[NamedPrimitive])
        ensures
            result@ == self.exports_view(),
    {
        self.exports.as_slice()
    }

    /// Registers a named primitive: a valid primitive is exported after the
    /// ones already exported; an invalid one would end the table and is not
    /// exported.
    pub fn add_vm_export(&mut self, export: NamedPrimitive)
        requires
            old(self).well_formed(),
        ensures
            final(self).well_formed(),
            final(self).configuration_view() == old(self).configuration_view(),
            export@.valid() ==> final(self).exports_view() == old(self).exports_view().push(export),
            !export@.valid() ==> final(self).exports_view() == old(self).exports_view(),
    {
        if export.native().is_valid() {
            self.exports.push(export);
        }
    }
}

} // verus!
