//! A verified core for a microcontroller trace-port logger.
//!
//! The library holds the logic of a logging backend that writes over a
//! hardware trace peripheral's stimulus port: the prescaler computation that
//! programs the trace output baud rate, the process-wide logger state with its
//! install-once and enable/disable policy, the admissibility decision for each
//! candidate record, and the exact wire format of an emitted line. The
//! hardware register accesses themselves, and the registration with the
//! generic logging facade, sit outside the library in a thin unverified shell
//! that hands plain values in and takes the formatted lines out.

mod baud;
mod logger;
mod severity;
mod stub;

pub use baud::{compute_prescaler, Error};
pub use logger::{disable_logger, enable_logger, init, init_with_level, logger_init};
pub use logger::{format_line, line_spec, padded_name, padded_name_spec};
pub use logger::{InstallError, ItmLogger, LoggerModel, TraceReadiness};
pub use logger::{lemma_emission_order, lemma_toggle_restores_filtering};
pub use logger::{ITM_TCR_ENABLE_MASK, STIM_PORT_NUMBER};
pub use severity::Severity;
pub use stub::NopLogger;
