//! What the primitives of the client answer the image: the values they
//! return and the changes they make to the loggers. Reading their
//! arguments from the interpreter's stack and building the answered
//! objects is left to the caller.
use vstd::prelude::*;
use crate::text::views;
use crate::bindings::export::NamedPrimitive;
use super::logger::{
    BeaconLog, BeaconLogger, LogSignal, LoggerKind, NullLogger, VirtualMachineLogger, enabled_after,
};

verus! {

/// How a primitive ends.
#[derive(Debug, Clone, Copy, PartialEq, Eq, Structural)]
pub enum PrimitiveOutcome {
    /// The primitive fails.
    Fail,
    /// The primitive answers a boolean.
    ReturnBoolean(bool),
}

/// Enables the kind of signal named by the argument, when the argument is
/// a string, and answers true; otherwise the primitive fails.
#[allow(non_snake_case)]
pub fn primitiveEnableLogSignal(logger: &mut VirtualMachineLogger, argument: Option<String>) -> (result: PrimitiveOutcome)
    ensures
        match argument {
            None => result == PrimitiveOutcome::Fail && final(logger).enabled_view() == old(logger).enabled_view(),
            Some(t) => result == PrimitiveOutcome::ReturnBoolean(true) && final(logger).enabled_view() == enabled_after(
                old(logger).enabled_view(),
                t@,
            ),
        },
        final(logger).logger_view() == old(logger).logger_view(),
{
    match argument {
        None => PrimitiveOutcome::Fail,
        Some(log_type) => {
            logger.enable_type(log_type);
            PrimitiveOutcome::ReturnBoolean(true)
        },
    }
}

/// The kinds of signals that are enabled.
#[allow(non_snake_case)]
pub fn primitiveGetEnabledLogSignals(logger: &VirtualMachineLogger) -> (result: Vec<String>)
    ensures
        views(result@) == logger.enabled_view(),
{
    logger.enabled_types()
}

/// The row answered for a logged signal: its kind, file, function and
/// message.
pub open spec fn signal_row(log: LogSignal) -> Seq<Seq<char>> {
    seq![log.log_type@, log.file_name@, log.function_name@, log.message@]
}

/// The signals the logger kept since the last poll, one row each.
#[allow(non_snake_case)]
pub fn primitivePollLogger(logger: &mut VirtualMachineLogger) -> (result: Vec<Vec<String>>)
    ensures
        result@.len() == 0,
        final(logger).logger_view() == old(logger).logger_view(),
        final(logger).enabled_view() == old(logger).enabled_view(),
{
    let logs = logger.poll_all();
    let mut rows: Vec<Vec<String>> = Vec::new();
    let mut i: usize = 0;
    while i < logs.len()
        invariant
            i <= logs@.len(),
            logs@.len() == 0,
            rows@.len() == i,
        decreases logs@.len() - i,
    {
        let log = &logs[i];
        rows.push(vec![log.log_type.clone(), log.file_name.clone(), log.function_name.clone(), log.message.clone()]);
        i = i + 1;
    }
    rows
}

/// Stops logging: the null logger replaces the current one; answers true.
#[allow(non_snake_case)]
pub fn primitiveStopLogger(logger: &mut VirtualMachineLogger) -> (result: PrimitiveOutcome)
    ensures
        result == PrimitiveOutcome::ReturnBoolean(true),
        final(logger).logger_view() is Null,
        final(logger).enabled_view() == old(logger).enabled_view(),
{
    logger.set_logger(LoggerKind::Null(NullLogger));
    PrimitiveOutcome::ReturnBoolean(true)
}

/// A beacon logger that signals the semaphore given as argument.
#[allow(non_snake_case)]
pub fn primitiveSetBeaconLogger(semaphore: usize) -> (result: BeaconLogger)
    ensures
        result.semaphore_view() == semaphore,
        result.logs_view() == Seq::<BeaconLog>::empty(),
{
    BeaconLogger::new(semaphore)
}

/// The row answered for an entry of the interpreter's log: its file,
/// function and message.
pub open spec fn beacon_row(log: BeaconLog) -> Seq<Seq<char>> {
    seq![log.file_name@, log.function_name@, log.message@]
}

/// The entries of the beacon logger since the last poll, one row each in
/// order, leaving none; no rows when there is no beacon logger.
#[allow(non_snake_case)]
pub fn primitivePollBeaconLogger(beacon: &mut Option<BeaconLogger>) -> (result: Vec<Vec<String>>)
    ensures
        match *old(beacon) {
            None => result@.len() == 0 && *final(beacon) is None,
            Some(b) => {
                &&& result@.len() == b.logs_view().len()
                &&& forall|i: int| 0 <= i < result@.len() ==> views(#[trigger] result@[i]@) == beacon_row(b.logs_view()[i])
                &&& *final(beacon) matches Some(after) && after.logs_view().len() == 0
                    && after.semaphore_view() == b.semaphore_view()
            },
        },
{
    match beacon {
        None => Vec::new(),
        Some(b) => {
            let logs = b.poll_all();
            let mut rows: Vec<Vec<String>> = Vec::new();
            let mut i: usize = 0;
            while i < logs.len()
                invariant
                    i <= logs@.len(),
                    rows@.len() == i,
                    forall|j: int| 0 <= j < i ==> views(#[trigger] rows@[j]@) == beacon_row(logs@[j]),
                decreases logs@.len() - i,
            {
                let log = &logs[i];
                let row = vec![log.file_name.clone(), log.function_name.clone(), log.message.clone()];
                assert(views(row@) =~= beacon_row(logs@[i as int]));
                rows.push(row);
                i = i + 1;
            }
            rows
        },
    }
}

/// Removes the beacon logger, so the interpreter's log entries are no
/// longer kept; answers true.
#[allow(non_snake_case)]
pub fn primitiveRemoveBeaconLogger(beacon: &mut Option<BeaconLogger>) -> (result: PrimitiveOutcome)
    ensures
        result == PrimitiveOutcome::ReturnBoolean(true),
        *final(beacon) is None,
{
    *beacon = None;
    PrimitiveOutcome::ReturnBoolean(true)
}

/// The named primitives the interpreter exports, one row each: the plugin
/// name, the primitive name and the address.
#[allow(non_snake_case)]
pub fn primitiveGetNamedPrimitives(exports: &[NamedPrimitive]) -> (result: Vec<(String, String, usize)>)
    requires
        forall|i: int| 0 <= i < exports@.len() ==> (#[trigger] exports@[i])@.readable(),
    ensures
        result@.len() == exports@.len(),
        forall|i: int| 0 <= i < result@.len() ==> {
            &&& (#[trigger] result@[i]).0@ == exports@[i]@.plugin_name_text()
            &&& result@[i].1@ == exports@[i]@.primitive_name_text()
            &&& result@[i].2 == exports@[i]@.address_view()
        },
{
    let mut rows: Vec<(String, String, usize)> = Vec::new();
    let mut i: usize = 0;
    while i < exports.len()
        invariant
            i <= exports@.len(),
            rows@.len() == i,
            forall|j: int| 0 <= j < exports@.len() ==> (#[trigger] exports@[j])@.readable(),
            forall|j: int| 0 <= j < i ==> {
                &&& (#[trigger] rows@[j]).0@ == exports@[j]@.plugin_name_text()
                &&& rows@[j].1@ == exports@[j]@.primitive_name_text()
                &&& rows@[j].2 == exports@[j]@.address_view()
            },
        decreases exports@.len() - i,
    {
        let export = &exports[i];
        rows.push((export.plugin_name(), export.primitive_name(), export.primitive_address()));
        i = i + 1;
    }
    rows
}

} // verus!
