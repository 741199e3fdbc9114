//! The loggers of the virtual machine: which kinds of signals are logged,
//! where logged signals go (nowhere, or the console), and the beacon
//! logger that keeps the interpreter's log entries until they are polled.
use vstd::prelude::*;
use crate::text::{copy_str, concat, views, str_eq, u64_to_decimal, decimal};
use crate::words::{trim, trimmed_text};
use crate::bindings::interpreter::{LogLevel, level_number};

verus! {

/// A signal logged by the virtual machine.
#[derive(Debug, Clone)]
pub struct LogSignal {
    pub log_type: String,
    pub file_name: String,
    pub function_name: String,
    pub line: usize,
    pub message: String,
}

/// The line the console logger prints for a signal: the type in brackets,
/// the file and line, and the message without white space at its ends.
pub open spec fn console_line(log: LogSignal) -> Seq<char> {
    "["@ + log.log_type@ + "] "@ + log.file_name@ + ":"@ + decimal(log.line as nat) + " "@ + trimmed_text(
        log.message@,
    )
}

/// Where logged signals go.
pub trait Logger {
    /// Whether the logger drops everything.
    spec fn is_null_spec(&self) -> bool;

    /// Whether the logger drops everything.
    fn is_null(&self) -> (result: bool)
        ensures
            result == self.is_null_spec(),
    ;

    /// Logs a signal; returns the line to print, if the logger prints one.
    fn log(&mut self, log: LogSignal) -> (printed: Option<String>);

    /// The signals kept since the last poll.
    fn poll_all(&mut self) -> (result: Vec<LogSignal>);
}

/// The logger that drops everything.
#[derive(Debug, Clone, Copy)]
pub struct NullLogger;

impl Logger for NullLogger {
    open spec fn is_null_spec(&self) -> bool {
        true
    }

    fn is_null(&self) -> (result: bool) {
        true
    }

    fn log(&mut self, log: LogSignal) -> (printed: Option<String>)
        ensures
            printed is None,
    {
        None
    }

    fn poll_all(&mut self) -> (result: Vec<LogSignal>)
        ensures
            result@.len() == 0,
    {
        Vec::new()
    }
}

/// The logger that prints each signal on the console.
#[derive(Debug, Clone, Copy)]
pub struct ConsoleLogger;

impl ConsoleLogger {
    pub fn new() -> (result: Self) {
        ConsoleLogger
    }
}

impl Logger for ConsoleLogger {
    open spec fn is_null_spec(&self) -> bool {
        false
    }

    fn is_null(&self) -> (result: bool) {
        false
    }

    fn log(&mut self, log: LogSignal) -> (printed: Option<String>)
        ensures
            printed matches Some(p) && p@ == console_line(log),
    {
        let mut line = concat("[", log.log_type.as_str());
        line.append("] ");
        line.append(log.file_name.as_str());
        line.append(":");
        line.append(u64_to_decimal(log.line as u64).as_str());
        line.append(" ");
        line.append(trim(log.message.as_str()).as_str());
        Some(line)
    }

    fn poll_all(&mut self) -> (result: Vec<LogSignal>)
        ensures
            result@.len() == 0,
    {
        Vec::new()
    }
}

/// The logger in use.
#[derive(Debug, Clone, Copy)]
pub enum LoggerKind {
    Null(NullLogger),
    Console(ConsoleLogger),
}

impl Logger for LoggerKind {
    open spec fn is_null_spec(&self) -> bool {
        self is Null
    }

    fn is_null(&self) -> (result: bool) {
        match self {
            LoggerKind::Null(l) => l.is_null(),
            LoggerKind::Console(l) => l.is_null(),
        }
    }

    fn log(&mut self, log: LogSignal) -> (printed: Option<String>)
        ensures
            *old(self) is Null ==> printed is None,
            *old(self) is Console ==> (printed matches Some(p) && p@ == console_line(log)),
            *final(self) == *old(self),
    {
        match self {
            LoggerKind::Null(_) => None,
            LoggerKind::Console(_) => {
                let mut console = ConsoleLogger::new();
                console.log(log)
            },
        }
    }

    fn poll_all(&mut self) -> (result: Vec<LogSignal>)
        ensures
            result@.len() == 0,
            *final(self) == *old(self),
    {
        Vec::new()
    }
}

/// Whether a list of texts holds none twice.
pub open spec fn no_duplicates(texts: Seq<Seq<char>>) -> bool {
    forall|i: int, j: int| 0 <= i < j < texts.len() ==> texts[i] != texts[j]
}

/// The enabled kinds after enabling one: unchanged when it is enabled
/// already, otherwise with it added at the end.
pub open spec fn enabled_after(enabled: Seq<Seq<char>>, log_type: Seq<char>) -> Seq<Seq<char>> {
    if enabled.contains(log_type) {
        enabled
    } else {
        enabled.push(log_type)
    }
}

/// Enabling a kind makes it enabled, and enabling it again changes nothing.
pub proof fn lemma_enable_is_idempotent(enabled: Seq<Seq<char>>, log_type: Seq<char>)
    ensures
        enabled_after(enabled, log_type).contains(log_type),
        enabled_after(enabled_after(enabled, log_type), log_type) == enabled_after(enabled, log_type),
{
    if !enabled.contains(log_type) {
        assert(enabled.push(log_type)[enabled.len() as int] == log_type);
    }
}

/// The logger of the virtual machine: the kinds of signals to log and the
/// logger they go to.
#[derive(Debug)]
pub struct VirtualMachineLogger {
    enabled_log_types: Vec<String>,
    logger: LoggerKind,
}

impl VirtualMachineLogger {
    #[verifier::type_invariant]
    spec fn inv(self) -> bool {
        no_duplicates(views(self.enabled_log_types@))
    }

    /// The kinds of signals that are logged, in the order they were
    /// enabled.
    pub closed spec fn enabled_view(&self) -> Seq<Seq<char>> {
        views(self.enabled_log_types@)
    }

    /// The logger in use.
    pub closed spec fn logger_view(&self) -> LoggerKind {
        self.logger
    }

    /// No kind enabled, and the null logger.
    pub fn new() -> (result: Self)
        ensures
            result.enabled_view() == Seq::<Seq<char>>::empty(),
            result.logger_view() is Null,
    {
        let result = VirtualMachineLogger { enabled_log_types: Vec::new(), logger: LoggerKind::Null(NullLogger) };
        assert(views(result.enabled_log_types@) =~= Seq::<Seq<char>>::empty());
        result
    }

    /// Replaces the logger.
    pub fn set_logger(&mut self, logger: LoggerKind)
        ensures
            final(self).logger_view() == logger,
            final(self).enabled_view() == old(self).enabled_view(),
    {
        proof {
            use_type_invariant(&*self);
        }
        self.logger = logger;
    }

    /// Enables a kind of signal; enabling one that is enabled changes
    /// nothing.
    pub fn enable_type(&mut self, log_type: String)
        ensures
            final(self).enabled_view() == enabled_after(old(self).enabled_view(), log_type@),
            final(self).enabled_view().to_set() == old(self).enabled_view().to_set().insert(log_type@),
            final(self).logger_view() == old(self).logger_view(),
    {
        proof {
            use_type_invariant(&*self);
        }
        let ghost before = self.enabled_view();
        if self.is_enabled(log_type.as_str()) {
            assert(before.to_set().insert(log_type@) =~= before.to_set());
            return;
        }
        let mut types: Vec<String> = Vec::new();
        std::mem::swap(&mut types, &mut self.enabled_log_types);
        let ghost taken = views(types@);
        types.push(log_type);
        assert(views(types@) =~= taken.push(log_type@));
        assert(no_duplicates(views(types@)));
        assert(before.push(log_type@).to_set() =~= before.to_set().insert(log_type@)) by {
            assert forall|t: Seq<char>| before.push(log_type@).contains(t) <==> (before.contains(t) || t == log_type@) by {
                if before.push(log_type@).contains(t) {
                    let k = choose|k: int| 0 <= k < before.len() + 1 && before.push(log_type@)[k] == t;
                    if k < before.len() {
                        assert(before[k] == t);
                    }
                }
                if before.contains(t) {
                    let k = choose|k: int| 0 <= k < before.len() && before[k] == t;
                    assert(before.push(log_type@)[k] == t);
                }
                if t == log_type@ {
                    assert(before.push(log_type@)[before.len() as int] == t);
                }
            }
        }
        self.enabled_log_types = types;
    }

    /// Whether a kind of signal is enabled.
    fn is_enabled(&self, log_type: &str) -> (result: bool)
        ensures
            result == self.enabled_view().contains(log_type@),
    {
        let mut i: usize = 0;
        while i < self.enabled_log_types.len()
            invariant
                i <= self.enabled_log_types@.len(),
                forall|j: int| 0 <= j < i ==> views(self.enabled_log_types@)[j] != log_type@,
            decreases self.enabled_log_types@.len() - i,
        {
            if str_eq(self.enabled_log_types[i].as_str(), log_type) {
                assert(views(self.enabled_log_types@)[i as int] == log_type@);
                return true;
            }
            i = i + 1;
        }
        false
    }

    /// The kinds of signals that are logged.
    pub fn enabled_types(&self) -> (result: Vec<String>)
        ensures
            views(result@) == self.enabled_view(),
    {
        crate::bindings::parameters::copy_strings(&self.enabled_log_types)
    }

    /// Whether signals of a kind are logged: never by the null logger,
    /// otherwise when the kind is enabled.
    pub fn should_log(&self, log_type: &str) -> (result: bool)
        ensures
            result == (!(self.logger_view() is Null) && self.enabled_view().contains(log_type@)),
    {
        if self.logger.is_null() {
            return false;
        }
        self.is_enabled(log_type)
    }

    /// Hands a signal to the logger; returns the line to print, if any.
    pub fn log(&mut self, log: LogSignal) -> (printed: Option<String>)
        ensures
            old(self).logger_view() is Null ==> printed is None,
            old(self).logger_view() is Console ==> (printed matches Some(p) && p@ == console_line(log)),
            final(self).logger_view() == old(self).logger_view(),
            final(self).enabled_view() == old(self).enabled_view(),
    {
        let mut logger = self.logger;
        logger.log(log)
    }

    /// The signals the logger kept since the last poll: neither logger
    /// keeps any.
    pub fn poll_all(&mut self) -> (result: Vec<LogSignal>)
        ensures
            result@.len() == 0,
            final(self).logger_view() == old(self).logger_view(),
            final(self).enabled_view() == old(self).enabled_view(),
    {
        let mut logger = self.logger;
        logger.poll_all()
    }
}

/// An entry of the interpreter's log.
#[derive(Debug, Clone)]
pub struct BeaconLog {
    pub level: LogLevel,
    pub file_name: String,
    pub function_name: String,
    pub line: usize,
    pub message: String,
}

/// The logger that keeps the interpreter's log entries until the image
/// polls them, signalling a semaphore for each new entry.
#[derive(Debug)]
pub struct BeaconLogger {
    semaphore: usize,
    logs: Vec<BeaconLog>,
}

impl BeaconLogger {
    /// The semaphore signalled for each entry.
    pub closed spec fn semaphore_view(&self) -> usize {
        self.semaphore
    }

    /// The entries kept since the last poll, in order.
    pub closed spec fn logs_view(&self) -> Seq<BeaconLog> {
        self.logs@
    }

    /// A logger that signals the given semaphore and keeps nothing yet.
    pub fn new(semaphore: usize) -> (result: Self)
        ensures
            result.semaphore_view() == semaphore,
            result.logs_view() == Seq::<BeaconLog>::empty(),
    {
        BeaconLogger { semaphore, logs: Vec::new() }
    }

    /// Keeps an entry; returns the semaphore to signal.
    pub fn log(&mut self, log: BeaconLog) -> (semaphore: usize)
        ensures
            final(self).logs_view() == old(self).logs_view().push(log),
            final(self).logs_view() == kept_after(old(self).logs_view(), seq![log]),
            final(self).semaphore_view() == old(self).semaphore_view(),
            semaphore == old(self).semaphore_view(),
    {
        proof {
            lemma_poll_gives_back_logged(self.logs_view(), seq![log]);
            assert(self.logs_view() + seq![log] =~= self.logs_view().push(log));
        }
        self.logs.push(log);
        self.semaphore
    }

    /// Takes every entry kept since the last poll, in order, keeping none.
    pub fn poll_all(&mut self) -> (result: Vec<BeaconLog>)
        ensures
            result@ == old(self).logs_view(),
            final(self).logs_view() == Seq::<BeaconLog>::empty(),
            final(self).semaphore_view() == old(self).semaphore_view(),
    {
        let mut taken: Vec<BeaconLog> = Vec::new();
        std::mem::swap(&mut taken, &mut self.logs);
        taken
    }
}

/// The entries kept after logging each of `entries` in order.
pub open spec fn kept_after(kept: Seq<BeaconLog>, entries: Seq<BeaconLog>) -> Seq<BeaconLog>
    decreases entries.len(),
{
    if entries.len() == 0 {
        kept
    } else {
        kept_after(kept.push(entries[0]), entries.skip(1))
    }
}

/// What a poll gives back is everything kept before and everything logged
/// since, in the order it was logged.
pub proof fn lemma_poll_gives_back_logged(kept: Seq<BeaconLog>, entries: Seq<BeaconLog>)
    ensures
        kept_after(kept, entries) == kept + entries,
    decreases entries.len(),
{
    if entries.len() > 0 {
        lemma_poll_gives_back_logged(kept.push(entries[0]), entries.skip(1));
        assert(kept.push(entries[0]) + entries.skip(1) =~= kept + entries);
    } else {
        assert(kept + entries =~= kept);
    }
}

/// Logging entries one at a time keeps the same as logging them all:
/// logging `entry` after `entries` keeps what logging `entries` followed
/// by `entry` keeps.
pub proof fn lemma_logging_one_more(kept: Seq<BeaconLog>, entries: Seq<BeaconLog>, entry: BeaconLog)
    ensures
        kept_after(kept_after(kept, entries), seq![entry]) == kept_after(kept, entries.push(entry)),
{
    lemma_poll_gives_back_logged(kept, entries);
    lemma_poll_gives_back_logged(kept + entries, seq![entry]);
    lemma_poll_gives_back_logged(kept, entries.push(entry));
    assert(kept + entries + seq![entry] =~= kept + entries.push(entry));
}

/// Entries logged into a logger that keeps none (a new one, or one just
/// polled) come back from the next poll exactly, in the order they were
/// logged; that poll leaves none, so a poll right after it gives nothing.
pub proof fn law_poll_gives_back_what_was_logged(entries: Seq<BeaconLog>)
    ensures
        kept_after(Seq::<BeaconLog>::empty(), entries) == entries,
{
    lemma_poll_gives_back_logged(Seq::<BeaconLog>::empty(), entries);
    assert(Seq::<BeaconLog>::empty() + entries =~= entries);
}

/// An entry of the interpreter's log, from the level number the
/// interpreter passes; none for a number that is no level.
pub fn beacon_log(level: u8, file_name: String, function_name: String, line: usize, message: String) -> (result: Option<BeaconLog>)
    ensures
        level <= 5 ==> (result matches Some(r) && level_number(r.level) == level && r.file_name == file_name
            && r.function_name == function_name && r.line == line && r.message == message),
        level > 5 ==> result is None,
{
    match LogLevel::from_u8(level) {
        Some(l) => Some(BeaconLog { level: l, file_name, function_name, line, message }),
        None => None,
    }
}

} // verus!
