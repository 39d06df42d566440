use itm_logger::{
    disable_logger, enable_logger, format_line, init, init_with_level, logger_init, padded_name,
    InstallError, ItmLogger, NopLogger, Severity, TraceReadiness,
};

fn ready() -> TraceReadiness {
    TraceReadiness {
        debugger_attached: true,
        tcr: 1,
        ter: 1,
    }
}

#[test]
fn uninstalled_logger_emits_nothing() {
    let mut logger = ItmLogger::new();
    assert!(!logger.should_emit(Severity::Error));
    assert_eq!(logger.emit(Severity::Error, "app", "boom"), None);
}

#[test]
fn threshold_filters_by_severity() {
    let mut logger = ItmLogger::new();
    assert_eq!(init_with_level(&mut logger, Severity::Warn), Ok(()));
    assert!(logger.should_emit(Severity::Error));
    assert!(logger.should_emit(Severity::Warn));
    assert!(!logger.should_emit(Severity::Info));
    assert!(!logger.should_emit(Severity::Trace));
}

#[test]
fn default_threshold_is_most_verbose() {
    let mut logger = ItmLogger::new();
    assert_eq!(init(&mut logger), Ok(()));
    assert!(logger.should_emit(Severity::Trace));
    assert!(logger.should_emit(Severity::Error));
}

#[test]
fn logger_init_installs_most_verbose() {
    let mut logger = ItmLogger::new();
    logger_init(&mut logger);
    assert!(logger.should_emit(Severity::Trace));
}

#[test]
fn second_install_is_rejected() {
    let mut logger = ItmLogger::new();
    assert_eq!(init_with_level(&mut logger, Severity::Warn), Ok(()));
    assert_eq!(
        init_with_level(&mut logger, Severity::Trace),
        Err(InstallError::AlreadyInstalled)
    );
    assert_eq!(init(&mut logger), Err(InstallError::AlreadyInstalled));
    // The installed sink's policy is untouched by the rejected calls.
    assert!(!logger.should_emit(Severity::Info));
    assert!(logger.should_emit(Severity::Warn));
}

#[test]
fn disable_then_enable_restores_filtering() {
    let mut logger = ItmLogger::new();
    assert_eq!(init_with_level(&mut logger, Severity::Warn), Ok(()));
    disable_logger(&mut logger);
    assert!(!logger.should_emit(Severity::Error));
    assert_eq!(logger.emit(Severity::Error, "app", "boom"), None);
    enable_logger(&mut logger);
    assert!(logger.should_emit(Severity::Error));
    assert!(logger.should_emit(Severity::Warn));
    assert!(!logger.should_emit(Severity::Info));
}

#[test]
fn emitted_lines_come_in_call_order() {
    let mut logger = ItmLogger::new();
    assert_eq!(init(&mut logger), Ok(()));
    let first = logger.emit(Severity::Error, "app", "boom");
    let second = logger.emit(Severity::Warn, "app", "later");
    assert_eq!(first, Some(String::from("ERROR [app] boom\n")));
    assert_eq!(second, Some(String::from("WARN  [app] later\n")));
}

#[test]
fn line_shape_pads_severity_to_five_chars() {
    assert_eq!(
        format_line(Severity::Error, "core", "x"),
        "ERROR [core] x\n"
    );
    assert_eq!(format_line(Severity::Warn, "core", "x"), "WARN  [core] x\n");
    assert_eq!(format_line(Severity::Info, "core", "x"), "INFO  [core] x\n");
    assert_eq!(
        format_line(Severity::Debug, "core", "x"),
        "DEBUG [core] x\n"
    );
    assert_eq!(
        format_line(Severity::Trace, "core", "x"),
        "TRACE [core] x\n"
    );
}

#[test]
fn padded_names_have_width_five() {
    for severity in [
        Severity::Error,
        Severity::Warn,
        Severity::Info,
        Severity::Debug,
        Severity::Trace,
    ] {
        assert_eq!(padded_name(severity).len(), 5);
    }
}

#[test]
fn readiness_requires_all_three_bits() {
    let mut logger = ItmLogger::new();
    assert_eq!(init(&mut logger), Ok(()));
    assert!(logger.should_emit_checked(Severity::Error, ready()));

    let no_debugger = TraceReadiness {
        debugger_attached: false,
        ..ready()
    };
    assert!(!logger.should_emit_checked(Severity::Error, no_debugger));

    let trace_off = TraceReadiness { tcr: 0, ..ready() };
    assert!(!logger.should_emit_checked(Severity::Error, trace_off));

    let port_off = TraceReadiness { ter: 0, ..ready() };
    assert!(!logger.should_emit_checked(Severity::Error, port_off));

    // Only the lowest bit of the enable registers matters for port zero.
    let other_bits = TraceReadiness {
        tcr: 0xFFFF_FFFE,
        ter: 0xFFFF_FFFE,
        debugger_attached: true,
    };
    assert!(!logger.should_emit_checked(Severity::Error, other_bits));
}

#[test]
fn unready_port_drops_the_record_silently() {
    let mut logger = ItmLogger::new();
    assert_eq!(init(&mut logger), Ok(()));
    let trace_off = TraceReadiness { tcr: 0, ..ready() };
    assert_eq!(
        logger.emit_checked(Severity::Error, "app", "boom", trace_off),
        None
    );
    let line = logger.emit_checked(Severity::Error, "app", "boom", ready());
    assert_eq!(line, Some(String::from("ERROR [app] boom\n")));
}

#[test]
fn nop_logger_emits_nothing() {
    let logger = NopLogger;
    assert_eq!(logger.emit(Severity::Error, "app", "boom"), None);
    assert_eq!(logger.emit(Severity::Trace, "app", "quiet"), None);
}

#[test]
fn nop_logger_still_evaluates_arguments_once() {
    let logger = NopLogger;
    let mut evaluations: u32 = 0;
    let message = {
        evaluations += 1;
        format!("count {}", evaluations)
    };
    assert_eq!(logger.emit(Severity::Info, "app", &message), None);
    assert_eq!(evaluations, 1);
}

#[test]
fn flush_is_a_no_op() {
    let mut logger = ItmLogger::new();
    assert_eq!(init(&mut logger), Ok(()));
    logger.flush();
    let line = logger.emit(Severity::Info, "app", "after flush");
    assert_eq!(line, Some(String::from("INFO  [app] after flush\n")));
}
