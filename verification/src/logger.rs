//! The process-wide logger state: install-once, enable/disable, admissibility
//! and emission.
//!
//! The hardware write itself cannot be performed here; [`ItmLogger::emit`]
//! instead returns the exact line to be written, and records in its
//! mathematical history that the line was handed out. The unverified shell
//! around the library owns the single [`ItmLogger`] value, guards every call
//! with its interrupt-exclusion primitive, and writes each returned line to
//! the stimulus port unchanged. Emission is synchronous and serialized by
//! that exclusion region, so the order of the history is the order of the
//! lines on the wire.

use crate::severity::Severity;
use vstd::prelude::*;

verus! {

/// Installing the backend failed.
#[derive(Clone, Copy, Debug, PartialEq, Eq, Structural)]
pub enum InstallError {
    /// A sink is already registered. Installation happens exactly once; a
    /// second call never silently replaces the first sink.
    AlreadyInstalled,
}

/// The mathematical state of the logger: the one-way installed flag, the
/// enable/disable toggle, the severity threshold fixed at installation, and
/// the history of emitted lines, most recent last.
pub struct LoggerModel {
    pub installed: bool,
    pub enabled: bool,
    pub threshold: Severity,
    pub emitted: Seq<Seq<char>>,
}

impl LoggerModel {
    /// The state at program start: not yet installed, enabled, and most
    /// verbose, with nothing emitted.
    pub open spec fn initial() -> LoggerModel {
        LoggerModel {
            installed: false,
            enabled: true,
            threshold: Severity::Trace,
            emitted: Seq::empty(),
        }
    }

    /// The state after a successful installation with threshold `threshold`.
    pub open spec fn install(self, threshold: Severity) -> LoggerModel {
        LoggerModel { installed: true, threshold, ..self }
    }

    /// The state with the enabled flag set to `enabled`.
    pub open spec fn with_enabled(self, enabled: bool) -> LoggerModel {
        LoggerModel { enabled, ..self }
    }

    /// A record of severity `severity` is admissible: the backend is
    /// installed and enabled, and the record is at least as severe as the
    /// threshold. Without an installed backend nothing is ever emitted.
    pub open spec fn admits(self, severity: Severity) -> bool {
        self.installed && self.enabled && severity.at_least_as_severe_as(self.threshold)
    }

    /// The state after one line has been written.
    pub open spec fn record_line(self, line: Seq<char>) -> LoggerModel {
        LoggerModel { emitted: self.emitted.push(line), ..self }
    }

    /// One emission step: an admissible record appends its formatted line to
    /// the history; an inadmissible one changes nothing.
    pub open spec fn emit_step(
        self,
        severity: Severity,
        target: Seq<char>,
        message: Seq<char>,
    ) -> LoggerModel {
        if self.admits(severity) {
            self.record_line(line_spec(severity, target, message))
        } else {
            self
        }
    }
}

/// The wire shape of one emitted line: the severity name left-aligned to five
/// characters, the origin tag in brackets, the message, and a newline.
pub open spec fn line_spec(severity: Severity, target: Seq<char>, message: Seq<char>) -> Seq<
    char,
> {
    padded_name_spec(severity) + seq![' ', '['] + target + seq![']', ' '] + message + seq!['\n']
}

/// The severity's display name, left-aligned in a field of five characters.
pub open spec fn padded_name_spec(severity: Severity) -> Seq<char> {
    match severity {
        Severity::Error => seq!['E', 'R', 'R', 'O', 'R'],
        Severity::Warn => seq!['W', 'A', 'R', 'N', ' '],
        Severity::Info => seq!['I', 'N', 'F', 'O', ' '],
        Severity::Debug => seq!['D', 'E', 'B', 'U', 'G'],
        Severity::Trace => seq!['T', 'R', 'A', 'C', 'E'],
    }
}

/// The severity's name as written on the wire, padded to five characters.
pub fn padded_name(severity: Severity) -> (r: &'static str)
    ensures
        r@ == padded_name_spec(severity),
{
    proof {
        reveal_strlit("ERROR");
        reveal_strlit("WARN ");
        reveal_strlit("INFO ");
        reveal_strlit("DEBUG");
        reveal_strlit("TRACE");
    }
    match severity {
        Severity::Error => {
            let r = "ERROR";
            assert(r@ =~= padded_name_spec(severity));
            r
        },
        Severity::Warn => {
            let r = "WARN ";
            assert(r@ =~= padded_name_spec(severity));
            r
        },
        Severity::Info => {
            let r = "INFO ";
            assert(r@ =~= padded_name_spec(severity));
            r
        },
        Severity::Debug => {
            let r = "DEBUG";
            assert(r@ =~= padded_name_spec(severity));
            r
        },
        Severity::Trace => {
            let r = "TRACE";
            assert(r@ =~= padded_name_spec(severity));
            r
        },
    }
}

/// Builds the one-line wire form of a record.
pub fn format_line(severity: Severity, target: &str, message: &str) -> (line: String)
    ensures
        line@ == line_spec(severity, target@, message@),
{
    proof {
        reveal_strlit(" [");
        reveal_strlit("] ");
        reveal_strlit("\n");
    }
    let mut line = String::from_str(padded_name(severity));
    line.append(" [");
    line.append(target);
    line.append("] ");
    line.append(message);
    line.append("\n");
    assert(line@ =~= line_spec(severity, target@, message@));
    line
}

/// The stimulus port written to. The trace unit offers thirty-two; this
/// backend uses the first.
pub const STIM_PORT_NUMBER: u32 = 0;

/// The bit of the trace unit's control register that enables tracing.
pub const ITM_TCR_ENABLE_MASK: u32 = 1;

/// A sample of the hardware state that decides whether a stimulus-port write
/// would be drained: the debug-enable flag and the raw values of the trace
/// unit's control register and of its first enable register. The unverified
/// shell reads the registers and hands the words in unchanged.
#[derive(Clone, Copy, Debug, PartialEq, Eq, Structural)]
pub struct TraceReadiness {
    pub debugger_attached: bool,
    pub tcr: u32,
    pub ter: u32,
}

impl TraceReadiness {
    /// Tracing is switched on in the control register.
    pub open spec fn trace_enabled(self) -> bool {
        self.tcr & ITM_TCR_ENABLE_MASK != 0
    }

    /// The stimulus port written to is enabled.
    pub open spec fn stim_port_enabled(self) -> bool {
        self.ter & (1u32 << STIM_PORT_NUMBER) != 0
    }

    /// A write to the stimulus port would be consumed: a debugger is
    /// attached, tracing is enabled, and the port itself is enabled.
    pub open spec fn ready(self) -> bool {
        self.debugger_attached && self.trace_enabled() && self.stim_port_enabled()
    }

    /// Checks all three readiness conditions, failing on the first unmet one.
    pub fn all_set(self) -> (r: bool)
        ensures
            r == self.ready(),
    {
        if !self.debugger_attached {
            return false;
        }
        if self.tcr & ITM_TCR_ENABLE_MASK == 0 {
            return false;
        }
        if self.ter & (1u32 << STIM_PORT_NUMBER) == 0 {
            return false;
        }
        true
    }
}

/// The process-wide logger backend. Exactly one value of this type should
/// exist per process; all access to it must go through an interrupt-exclusion
/// region, which the unverified shell provides.
pub struct ItmLogger {
    installed: bool,
    enabled: bool,
    threshold: Severity,
    emitted: Ghost<Seq<Seq<char>>>,
}

impl View for ItmLogger {
    type V = LoggerModel;

    closed spec fn view(&self) -> LoggerModel {
        LoggerModel {
            installed: self.installed,
            enabled: self.enabled,
            threshold: self.threshold,
            emitted: self.emitted@,
        }
    }
}

impl ItmLogger {
    /// The logger as statically allocated at program start: not installed,
    /// enabled, most verbose.
    pub fn new() -> (logger: ItmLogger)
        ensures
            logger@ == LoggerModel::initial(),
    {
        let logger = ItmLogger {
            installed: false,
            enabled: true,
            threshold: Severity::Trace,
            emitted: Ghost(Seq::empty()),
        };
        logger
    }

    /// Decides admissibility of a record of severity `severity`: the backend
    /// is installed and enabled, and the record passes the threshold filter.
    pub fn should_emit(&self, severity: Severity) -> (r: bool)
        ensures
            r == self@.admits(severity),
    {
        self.installed && self.enabled && severity.is_at_least_as_severe_as(self.threshold)
    }

    /// Decides admissibility when the hardware-readiness mode is on: beyond
    /// [`Self::should_emit`], the sampled trace-unit state must show that a
    /// write would be drained rather than block forever. An unready port
    /// makes the record inadmissible; it is dropped, not queued.
    pub fn should_emit_checked(&self, severity: Severity, readiness: TraceReadiness) -> (r: bool)
        ensures
            r == (self@.admits(severity) && readiness.ready()),
    {
        if !self.should_emit(severity) {
            return false;
        }
        readiness.all_set()
    }

    /// One emission: if the record is admissible, returns the exact line to
    /// write to the stimulus port and appends it to the history; otherwise
    /// returns nothing and leaves the state unchanged.
    pub fn emit(&mut self, severity: Severity, target: &str, message: &str) -> (line: Option<
        String,
    >)
        ensures
            final(self)@ == old(self)@.emit_step(severity, target@, message@),
            line is Some <==> old(self)@.admits(severity),
            line matches Some(l) ==> l@ == line_spec(severity, target@, message@),
    {
        if self.should_emit(severity) {
            let line = format_line(severity, target, message);
            self.emitted = Ghost(self.emitted@.push(line@));
            Some(line)
        } else {
            None
        }
    }

    /// One emission in the hardware-readiness mode: a record that is
    /// admissible but meets an unready port is dropped silently, so the call
    /// cannot hang; nothing is recorded for it.
    pub fn emit_checked(
        &mut self,
        severity: Severity,
        target: &str,
        message: &str,
        readiness: TraceReadiness,
    ) -> (line: Option<String>)
        ensures
            readiness.ready() ==> final(self)@ == old(self)@.emit_step(severity, target@, message@),
            !readiness.ready() ==> final(self)@ == old(self)@,
            line is Some <==> (old(self)@.admits(severity) && readiness.ready()),
            line matches Some(l) ==> l@ == line_spec(severity, target@, message@),
    {
        if self.should_emit_checked(severity, readiness) {
            let line = format_line(severity, target, message);
            self.emitted = Ghost(self.emitted@.push(line@));
            Some(line)
        } else {
            None
        }
    }

    /// Nothing is ever held back, so there is nothing to flush.
    pub fn flush(&self) {
    }
}

/// Registers the backend as the process-wide sink with the given threshold.
/// Exactly the first call succeeds; any later call is rejected and leaves the
/// installed sink untouched.
pub fn init_with_level(logger: &mut ItmLogger, log_level: Severity) -> (result: Result<
    (),
    InstallError,
>)
    ensures
        result is Ok <==> !old(logger)@.installed,
        result is Ok ==> final(logger)@ == old(logger)@.install(log_level),
        result is Err ==> final(logger)@ == old(logger)@,
        result matches Err(e) ==> e == InstallError::AlreadyInstalled,
{
    if logger.installed {
        Err(InstallError::AlreadyInstalled)
    } else {
        logger.installed = true;
        logger.threshold = log_level;
        Ok(())
    }
}

/// Registers the backend with the default threshold (most verbose).
pub fn init(logger: &mut ItmLogger) -> (result: Result<(), InstallError>)
    ensures
        result is Ok <==> !old(logger)@.installed,
        result is Ok ==> final(logger)@ == old(logger)@.install(Severity::Trace),
        result is Err ==> final(logger)@ == old(logger)@,
        result matches Err(e) ==> e == InstallError::AlreadyInstalled,
{
    init_with_level(logger, Severity::Trace)
}

/// Registers the backend with the default threshold, for callers that treat a
/// double installation as a fatal programming error: the caller must know
/// that no sink is installed yet.
pub fn logger_init(logger: &mut ItmLogger)
    requires
        !old(logger)@.installed,
    ensures
        final(logger)@ == old(logger)@.install(Severity::Trace),
{
    let _ok = init(logger);
}

/// Globally disables logging. Threshold and history are untouched, so
/// re-enabling restores the previous filtering behavior exactly.
pub fn disable_logger(logger: &mut ItmLogger)
    ensures
        final(logger)@ == old(logger)@.with_enabled(false),
{
    logger.enabled = false;
}

/// Globally enables logging; threshold filtering still applies.
pub fn enable_logger(logger: &mut ItmLogger)
    ensures
        final(logger)@ == old(logger)@.with_enabled(true),
{
    logger.enabled = true;
}

/// Disabling and then enabling the backend restores the previous
/// threshold-filtering behavior unchanged: the threshold survives the toggle,
/// every record is admitted exactly as it would be by the enabled backend,
/// and a backend that was enabled before is restored to its exact prior
/// state.
pub proof fn lemma_toggle_restores_filtering(model: LoggerModel, severity: Severity)
    ensures
        model.with_enabled(false).with_enabled(true).threshold == model.threshold,
        model.with_enabled(false).with_enabled(true).admits(severity) == model.with_enabled(
            true,
        ).admits(severity),
        model.enabled ==> model.with_enabled(false).with_enabled(true) == model,
{
    assert(model.enabled ==> model.with_enabled(false).with_enabled(true) =~= model);
}

/// Two sequential emissions of admissible records append their lines to the
/// history in call order: the whole prior history first, then the first
/// call's line, then the second's, with nothing interleaved.
pub proof fn lemma_emission_order(
    model: LoggerModel,
    s1: Severity,
    t1: Seq<char>,
    m1: Seq<char>,
    s2: Severity,
    t2: Seq<char>,
    m2: Seq<char>,
)
    requires
        model.admits(s1),
        model.emit_step(s1, t1, m1).admits(s2),
    ensures
        model.emit_step(s1, t1, m1).emit_step(s2, t2, m2).emitted == model.emitted + seq![
            line_spec(s1, t1, m1),
            line_spec(s2, t2, m2),
        ],
{
    assert(model.emit_step(s1, t1, m1).emit_step(s2, t2, m2).emitted =~= model.emitted + seq![
        line_spec(s1, t1, m1),
        line_spec(s2, t2, m2),
    ]);
}

} // verus!
