use wealthfolio::mcp::{
    audit_enabled, configured_port, flags, parse_u16, setting_is_true, LockFileError, McpAction, McpEvent,
    McpOperation, McpRun, McpServerState, ServerInfo, SETTING_AUDIT_ENABLED, SETTING_AUTO_START,
    SETTING_ENABLED, SETTING_PORT,
};

fn started(port: u16) -> McpEvent<String> {
    McpEvent::ListenerStarted(Ok(ServerInfo { port, started_at: "2026-01-02T03:04:05+00:00".to_string() }))
}

fn step(run: &mut McpRun, state: &mut McpServerState, event: McpEvent<String>) -> McpAction<String> {
    assert!(run.accepts(&event));
    run.step(state, event)
}

fn running_state(port: u16) -> McpServerState {
    let mut state = McpServerState::new();
    let mut run = McpRun::new(McpOperation::Start, true, None, None);
    step(&mut run, &mut state, McpEvent::Begin);
    step(&mut run, &mut state, started(port));
    step(&mut run, &mut state, McpEvent::LockWritten(Ok(())));
    assert!(run.is_done());
    state
}

#[test]
fn setting_keys() {
    assert_eq!(SETTING_ENABLED, "mcp_server_enabled");
    assert_eq!(SETTING_AUTO_START, "mcp_server_auto_start");
    assert_eq!(SETTING_PORT, "mcp_server_port");
    assert_eq!(SETTING_AUDIT_ENABLED, "mcp_audit_enabled");
}

#[test]
fn only_exact_true_is_true() {
    assert!(setting_is_true(Some("true")));
    assert!(!setting_is_true(Some("TRUE")));
    assert!(!setting_is_true(Some(" true")));
    assert!(!setting_is_true(Some("1")));
    assert!(!setting_is_true(None));
    assert_eq!(flags(Some("true"), Some("false")), (true, false));
    assert_eq!(flags(None, Some("true")), (false, true));
}

#[test]
fn audit_defaults_to_enabled() {
    assert!(audit_enabled(None));
    assert!(audit_enabled(Some("true")));
    assert!(audit_enabled(Some("no")));
    assert!(audit_enabled(Some("False")));
    assert!(!audit_enabled(Some("false")));
}

#[test]
fn port_parsing_follows_u16_parse() {
    assert_eq!(parse_u16("8080"), Some(8080));
    assert_eq!(parse_u16("+17"), Some(17));
    assert_eq!(parse_u16("0"), Some(0));
    assert_eq!(parse_u16("65535"), Some(65535));
    assert_eq!(parse_u16("0065535"), Some(65535));
    assert_eq!(parse_u16("65536"), None);
    assert_eq!(parse_u16("999999999999999999999"), None);
    assert_eq!(parse_u16(""), None);
    assert_eq!(parse_u16("+"), None);
    assert_eq!(parse_u16("-1"), None);
    assert_eq!(parse_u16(" 80"), None);
    assert_eq!(parse_u16("8o"), None);
    for s in ["1", "42", "+8", "65535", "70000", "x", "+-1", "00"] {
        assert_eq!(parse_u16(s), s.parse::<u16>().ok(), "{s}");
    }
    assert_eq!(configured_port(Some("4000")), Some(4000));
    assert_eq!(configured_port(Some("port")), None);
    assert_eq!(configured_port(None), None);
}

#[test]
fn start_writes_lock_and_keeps_listener() {
    let mut state = McpServerState::new();
    assert!(state.running_info().is_none());
    let mut run = McpRun::new(McpOperation::Start, true, None, None);
    assert!(matches!(step(&mut run, &mut state, McpEvent::Begin), McpAction::StartListener { .. }));
    match step(&mut run, &mut state, started(4123)) {
        McpAction::WriteLockFile { port, started_at } => {
            assert_eq!(port, 4123);
            assert_eq!(started_at, "2026-01-02T03:04:05+00:00");
        }
        other => panic!("unexpected {other:?}"),
    }
    assert!(state.running_info().is_none());
    assert!(matches!(
        step(&mut run, &mut state, McpEvent::LockWritten(Ok(()))),
        McpAction::Finish { result: Ok(()) }
    ));
    assert!(run.is_done());
    assert_eq!(
        state.running_info(),
        Some((4123, "2026-01-02T03:04:05+00:00".to_string()))
    );
}

#[test]
fn start_when_running_is_noop() {
    let mut state = running_state(5000);
    let mut run = McpRun::new(McpOperation::Start, true, None, None);
    assert!(matches!(
        step(&mut run, &mut state, McpEvent::Begin),
        McpAction::Finish { result: Ok(()) }
    ));
    assert!(run.is_done());
    assert_eq!(state.running_info().map(|i| i.0), Some(5000));
}

#[test]
fn failed_lock_write_stops_new_listener() {
    let mut state = McpServerState::new();
    let mut run = McpRun::new(McpOperation::Start, true, None, None);
    step(&mut run, &mut state, McpEvent::Begin);
    step(&mut run, &mut state, started(4000));
    assert!(matches!(
        step(&mut run, &mut state, McpEvent::LockWritten(Err(LockFileError::Io("disk full".to_string())))),
        McpAction::StopNewListener
    ));
    match step(&mut run, &mut state, McpEvent::ListenerStopped) {
        McpAction::Finish { result: Err(e) } => assert_eq!(e, "Failed to write mcp.lock: disk full"),
        other => panic!("unexpected {other:?}"),
    }
    assert!(run.is_done());
    assert!(state.running_info().is_none());
}

#[test]
fn unresolved_data_dir_fails_start() {
    let mut state = McpServerState::new();
    let mut run = McpRun::new(McpOperation::Start, true, None, None);
    step(&mut run, &mut state, McpEvent::Begin);
    step(&mut run, &mut state, started(4000));
    step(&mut run, &mut state, McpEvent::LockWritten(Err(LockFileError::DataDir("no home".to_string()))));
    match step(&mut run, &mut state, McpEvent::ListenerStopped) {
        McpAction::Finish { result: Err(e) } => {
            assert_eq!(e, "Failed to resolve app data dir: no home")
        }
        other => panic!("unexpected {other:?}"),
    }
    assert!(state.running_info().is_none());
}

#[test]
fn stale_lock_removal_warns_on_failure_only() {
    let mut state = McpServerState::new();
    let mut run = McpRun::new(McpOperation::RemoveStaleLock, false, None, None);
    assert!(matches!(step(&mut run, &mut state, McpEvent::Begin), McpAction::RemoveLockFile));
    match step(&mut run, &mut state, McpEvent::LockRemoved(Err(LockFileError::Io("busy".to_string())))) {
        McpAction::LogWarning { message } => {
            assert_eq!(message, "Failed to remove stale mcp.lock: busy")
        }
        other => panic!("unexpected {other:?}"),
    }
    assert!(matches!(
        step(&mut run, &mut state, McpEvent::Logged),
        McpAction::Finish { result: Ok(()) }
    ));

    for outcome in [Ok(()), Err(LockFileError::DataDir("none".to_string()))] {
        let mut run = McpRun::new(McpOperation::RemoveStaleLock, true, None, None);
        step(&mut run, &mut state, McpEvent::Begin);
        assert!(matches!(
            step(&mut run, &mut state, McpEvent::LockRemoved(outcome)),
            McpAction::Finish { result: Ok(()) }
        ));
    }
}

#[test]
fn failed_listener_start_is_returned() {
    let mut state = McpServerState::new();
    let mut run = McpRun::new(McpOperation::Start, true, None, None);
    step(&mut run, &mut state, McpEvent::Begin);
    match step(&mut run, &mut state, McpEvent::ListenerStarted(Err("port in use".to_string()))) {
        McpAction::Finish { result: Err(e) } => assert_eq!(e, "port in use"),
        other => panic!("unexpected {other:?}"),
    }
    assert!(state.running_info().is_none());
}

#[test]
fn mobile_builds_refuse_operations() {
    for op in [
        McpOperation::Start,
        McpOperation::SetEnabled(true),
        McpOperation::SetAutoStart(false),
        McpOperation::SetAuditEnabled(true),
    ] {
        let mut state = McpServerState::new();
        let mut run = McpRun::new(op, false, None, None);
        match step(&mut run, &mut state, McpEvent::Begin) {
            McpAction::Finish { result: Err(e) } => {
                assert_eq!(e, "MCP server is not available on mobile")
            }
            other => panic!("unexpected {other:?}"),
        }
    }
    let mut state = McpServerState::new();
    let mut run = McpRun::new(McpOperation::StartIfEnabled { enabled: true, auto_start: true }, false, None, None);
    assert!(matches!(
        step(&mut run, &mut state, McpEvent::Begin),
        McpAction::Finish { result: Ok(()) }
    ));
}

#[test]
fn stop_stops_running_listener_and_removes_lock() {
    let mut state = running_state(4000);
    let mut run = McpRun::new(McpOperation::Stop, true, None, None);
    assert!(matches!(step(&mut run, &mut state, McpEvent::Begin), McpAction::StopRunningListener));
    assert!(state.running_info().is_none());
    assert!(matches!(step(&mut run, &mut state, McpEvent::ListenerStopped), McpAction::RemoveLockFile));
    assert!(matches!(
        step(&mut run, &mut state, McpEvent::LockRemoved(Ok(()))),
        McpAction::Finish { result: Ok(()) }
    ));
    assert!(run.is_done());
}

#[test]
fn stop_when_stopped_still_removes_lock() {
    let mut state = McpServerState::new();
    let mut run = McpRun::new(McpOperation::Stop, false, None, None);
    assert!(matches!(step(&mut run, &mut state, McpEvent::Begin), McpAction::RemoveLockFile));
    assert!(matches!(
        step(&mut run, &mut state, McpEvent::LockRemoved(Ok(()))),
        McpAction::Finish { result: Ok(()) }
    ));
}

#[test]
fn auto_start_needs_both_flags_and_logs_failure() {
    for (enabled, auto_start) in [(false, false), (true, false), (false, true)] {
        let mut state = McpServerState::new();
        let mut run = McpRun::new(McpOperation::StartIfEnabled { enabled, auto_start }, true, None, None);
        assert!(matches!(
            step(&mut run, &mut state, McpEvent::Begin),
            McpAction::Finish { result: Ok(()) }
        ));
    }
    let mut state = McpServerState::new();
    let mut run = McpRun::new(McpOperation::StartIfEnabled { enabled: true, auto_start: true }, true, None, None);
    assert!(matches!(step(&mut run, &mut state, McpEvent::Begin), McpAction::StartListener { .. }));
    match step(&mut run, &mut state, McpEvent::ListenerStarted(Err("bind failed".to_string()))) {
        McpAction::LogError { message } => {
            assert_eq!(message, "Failed to auto-start MCP server: bind failed")
        }
        other => panic!("unexpected {other:?}"),
    }
    assert!(matches!(
        step(&mut run, &mut state, McpEvent::Logged),
        McpAction::Finish { result: Ok(()) }
    ));
}

#[test]
fn set_enabled_persists_then_stops_when_disabling() {
    let mut state = running_state(4000);
    let mut run = McpRun::new(McpOperation::SetEnabled(false), true, None, None);
    match step(&mut run, &mut state, McpEvent::Begin) {
        McpAction::PersistSetting { key, value } => {
            assert_eq!(key, "mcp_server_enabled");
            assert_eq!(value, "false");
        }
        other => panic!("unexpected {other:?}"),
    }
    assert!(matches!(
        step(&mut run, &mut state, McpEvent::Persisted(Ok(()))),
        McpAction::StopRunningListener
    ));
    assert!(state.running_info().is_none());

    let mut state = running_state(4000);
    let mut run = McpRun::new(McpOperation::SetEnabled(true), true, None, None);
    match step(&mut run, &mut state, McpEvent::Begin) {
        McpAction::PersistSetting { value, .. } => assert_eq!(value, "true"),
        other => panic!("unexpected {other:?}"),
    }
    assert!(matches!(
        step(&mut run, &mut state, McpEvent::Persisted(Ok(()))),
        McpAction::Finish { result: Ok(()) }
    ));
    assert!(state.running_info().is_some());
}

#[test]
fn failed_persist_is_returned_and_server_untouched() {
    let mut state = running_state(4000);
    let mut run = McpRun::new(McpOperation::SetEnabled(false), true, None, None);
    step(&mut run, &mut state, McpEvent::Begin);
    match step(&mut run, &mut state, McpEvent::Persisted(Err("db locked".to_string()))) {
        McpAction::Finish { result: Err(e) } => assert_eq!(e, "db locked"),
        other => panic!("unexpected {other:?}"),
    }
    assert!(state.running_info().is_some());
}

#[test]
fn auto_start_setting_only_persists() {
    let mut state = running_state(4000);
    let mut run = McpRun::new(McpOperation::SetAutoStart(true), true, None, None);
    match step(&mut run, &mut state, McpEvent::Begin) {
        McpAction::PersistSetting { key, value } => {
            assert_eq!(key, "mcp_server_auto_start");
            assert_eq!(value, "true");
        }
        other => panic!("unexpected {other:?}"),
    }
    assert!(matches!(
        step(&mut run, &mut state, McpEvent::Persisted(Ok(()))),
        McpAction::Finish { result: Ok(()) }
    ));
    assert_eq!(state.running_info().map(|i| i.0), Some(4000));
}

#[test]
fn audit_change_restarts_running_server() {
    let mut state = running_state(4000);
    let mut run = McpRun::new(McpOperation::SetAuditEnabled(false), true, None, None);
    match step(&mut run, &mut state, McpEvent::Begin) {
        McpAction::PersistSetting { key, value } => {
            assert_eq!(key, "mcp_audit_enabled");
            assert_eq!(value, "false");
        }
        other => panic!("unexpected {other:?}"),
    }
    assert!(matches!(
        step(&mut run, &mut state, McpEvent::Persisted(Ok(()))),
        McpAction::StopRunningListener
    ));
    assert!(matches!(step(&mut run, &mut state, McpEvent::ListenerStopped), McpAction::RemoveLockFile));
    assert!(matches!(step(&mut run, &mut state, McpEvent::LockRemoved(Ok(()))), McpAction::StartListener { .. }));
    assert!(matches!(step(&mut run, &mut state, started(4001)), McpAction::WriteLockFile { .. }));
    assert!(matches!(
        step(&mut run, &mut state, McpEvent::LockWritten(Ok(()))),
        McpAction::Finish { result: Ok(()) }
    ));
    assert_eq!(state.running_info().map(|i| i.0), Some(4001));

    let mut stopped = McpServerState::new();
    let mut run = McpRun::new(McpOperation::SetAuditEnabled(true), true, None, None);
    step(&mut run, &mut stopped, McpEvent::Begin);
    assert!(matches!(
        step(&mut run, &mut stopped, McpEvent::Persisted(Ok(()))),
        McpAction::Finish { result: Ok(()) }
    ));
    assert!(stopped.running_info().is_none());
}

#[test]
fn runs_accept_only_the_awaited_event() {
    let mut state = McpServerState::new();
    let mut run = McpRun::new(McpOperation::Start, true, None, None);
    assert!(run.accepts(&McpEvent::Begin));
    assert!(!run.accepts(&McpEvent::Logged));
    run.step(&mut state, McpEvent::Begin);
    assert!(!run.accepts(&McpEvent::Begin));
    assert!(run.accepts(&McpEvent::ListenerStarted(Err(String::new()))));
    assert!(!run.is_done());
}

#[test]
fn failed_lock_removal_is_warned_and_the_operation_goes_on() {
    let mut state = running_state(4000);
    let mut run = McpRun::new(McpOperation::SetAuditEnabled(true), true, None, None);
    step(&mut run, &mut state, McpEvent::Begin);
    step(&mut run, &mut state, McpEvent::Persisted(Ok(())));
    step(&mut run, &mut state, McpEvent::ListenerStopped);
    assert!(matches!(
        step(&mut run, &mut state, McpEvent::LockRemoved(Err(LockFileError::Io("gone".to_string())))),
        McpAction::LogWarning { .. }
    ));
    assert!(matches!(step(&mut run, &mut state, McpEvent::Logged), McpAction::StartListener { .. }));

    let mut state = running_state(4000);
    let mut run = McpRun::new(McpOperation::Stop, true, None, None);
    step(&mut run, &mut state, McpEvent::Begin);
    step(&mut run, &mut state, McpEvent::ListenerStopped);
    assert!(matches!(
        step(&mut run, &mut state, McpEvent::LockRemoved(Err(LockFileError::Io("gone".to_string())))),
        McpAction::LogWarning { .. }
    ));
    assert!(matches!(
        step(&mut run, &mut state, McpEvent::Logged),
        McpAction::Finish { result: Ok(()) }
    ));
    assert!(state.running_info().is_none());
}

#[test]
fn listener_is_started_with_settings_and_saved_audit_flag() {
    let mut state = McpServerState::new();
    let mut run = McpRun::new(McpOperation::Start, true, Some("false"), Some("4555"));
    match step(&mut run, &mut state, McpEvent::Begin) {
        McpAction::StartListener { audit, port } => {
            assert!(!audit);
            assert_eq!(port, Some(4555));
        }
        other => panic!("unexpected {other:?}"),
    }
    let mut run = McpRun::new(McpOperation::Start, true, None, Some("not a port"));
    match McpRun::step(&mut run, &mut McpServerState::new(), McpEvent::Begin) {
        McpAction::StartListener { audit, port } => {
            assert!(audit);
            assert_eq!(port, None);
        }
        other => panic!("unexpected {other:?}"),
    }

    let mut state = running_state(4000);
    let mut run = McpRun::new(McpOperation::SetAuditEnabled(true), true, Some("false"), Some("4001"));
    step(&mut run, &mut state, McpEvent::Begin);
    step(&mut run, &mut state, McpEvent::Persisted(Ok(())));
    step(&mut run, &mut state, McpEvent::ListenerStopped);
    match step(&mut run, &mut state, McpEvent::LockRemoved(Ok(()))) {
        McpAction::StartListener { audit, port } => {
            assert!(audit);
            assert_eq!(port, Some(4001));
        }
        other => panic!("unexpected {other:?}"),
    }
}
