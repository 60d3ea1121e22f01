//! The embedded local MCP server: what its settings mean, and the decisions of starting,
//! stopping and reconfiguring it. The caller performs each action that a step asks for (persist
//! a setting, start or stop the listener, write or remove the lock file, log) and hands back what
//! came of it.

use vstd::prelude::*;

use crate::text::{chars_of, string_from};

verus! {

/// Settings key: whether the feature is enabled (`"true"`/`"false"`).
pub const SETTING_ENABLED: &'static str = "mcp_server_enabled";

/// Settings key: whether the server starts with the application (`"true"`/`"false"`).
pub const SETTING_AUTO_START: &'static str = "mcp_server_auto_start";

/// Settings key: an optional port override.
pub const SETTING_PORT: &'static str = "mcp_server_port";

/// Settings key: audit logging of agent tool calls; enabled when unset.
pub const SETTING_AUDIT_ENABLED: &'static str = "mcp_audit_enabled";

/// The contents of an optional stored setting value.
pub open spec fn stored_chars(stored: Option<&str>) -> Option<Seq<char>> {
    match stored {
        Some(s) => Some(s@),
        None => None,
    }
}

/// Whether a stored setting is on: only the exact value `"true"` is.
pub open spec fn is_true_setting(stored: Option<Seq<char>>) -> bool {
    stored == Some("true"@)
}

/// Whether a boolean setting holds `"true"`. `stored` is the value read, `None` when the
/// setting is unset or could not be read.
pub fn setting_is_true(stored: Option<&str>) -> (r: bool)
    ensures
        r == is_true_setting(stored_chars(stored)),
{
    match stored {
        Some(v) => string_from(v) == string_from("true"),
        None => false,
    }
}

/// Current persisted flags: `(enabled, auto_start)`, from the stored values of
/// `SETTING_ENABLED` and `SETTING_AUTO_START`.
pub fn flags(enabled: Option<&str>, auto_start: Option<&str>) -> (r: (bool, bool))
    ensures
        r == (is_true_setting(stored_chars(enabled)), is_true_setting(stored_chars(auto_start))),
{
    (setting_is_true(enabled), setting_is_true(auto_start))
}

/// Whether agent tool calls are written to the audit log, from the stored value of
/// `SETTING_AUDIT_ENABLED`. Defaults to `true` when the setting is unset; only an explicit
/// `"false"` disables it.
pub fn audit_enabled(stored: Option<&str>) -> (r: bool)
    ensures
        r == (stored_chars(stored) != Some("false"@)),
{
    match stored {
        Some(v) => !(string_from(v) == string_from("false")),
        None => true,
    }
}

/// The value of a digit character.
pub open spec fn digit_value(c: char) -> nat {
    (c as u32 - 48) as nat
}

/// Whether `c` is `0` to `9`.
pub open spec fn is_digit(c: char) -> bool {
    '0' <= c && c <= '9'
}

/// The number that decimal digits write.
pub open spec fn digits_value(digits: Seq<char>) -> nat
    decreases digits.len(),
{
    if digits.len() == 0 {
        0
    } else {
        10 * digits_value(digits.drop_last()) + digit_value(digits.last())
    }
}

proof fn lemma_capped_value(digits: Seq<char>)
    ensures
        capped_value(digits) == if digits_value(digits) > 65536 {
            65536
        } else {
            digits_value(digits)
        },
    decreases digits.len(),
{
    if digits.len() > 0 {
        lemma_capped_value(digits.drop_last());
    }
}

/// The number that decimal digits write, capped at 65536.
spec fn capped_value(digits: Seq<char>) -> nat
    decreases digits.len(),
{
    if digits.len() == 0 {
        0
    } else {
        let v = 10 * capped_value(digits.drop_last()) + digit_value(digits.last());
        if v > 65536 {
            65536
        } else {
            v
        }
    }
}

/// `s` without its leading `+`, when it has one.
pub open spec fn unsigned_digits(s: Seq<char>) -> Seq<char> {
    if s.len() > 0 && s[0] == '+' {
        s.drop_first()
    } else {
        s
    }
}

/// Whether every character of `d` is a digit.
pub open spec fn all_digits(d: Seq<char>) -> bool {
    forall|k: int| 0 <= k < d.len() ==> is_digit(#[trigger] d[k])
}

/// What `str::parse::<u16>` gives: an optional `+`, then at least one digit and nothing else,
/// whose value fits in 16 bits.
pub open spec fn parsed_u16(s: Seq<char>) -> Option<u16> {
    let digits = unsigned_digits(s);
    if digits.len() > 0 && all_digits(digits) && digits_value(digits) <= 65535 {
        Some(digits_value(digits) as u16)
    } else {
        None
    }
}

/// The number a string of digits writes, as `str::parse::<u16>` reads it.
pub fn parse_u16(s: &str) -> (r: Option<u16>)
    ensures
        r == parsed_u16(s@),
{
    let cs = chars_of(s);
    let start: usize = if cs.len() > 0 && cs[0] == '+' {
        1
    } else {
        0
    };
    let ghost digits = unsigned_digits(cs@);
    assert(digits =~= cs@.skip(start as int));
    if start >= cs.len() {
        return None;
    }
    let mut value: u32 = 0;
    let mut i: usize = start;
    while i < cs.len()
        invariant
            start <= i <= cs@.len(),
            cs@ == s@,
            start == (if cs@.len() > 0 && cs@[0] == '+' { 1int } else { 0int }),
            digits == cs@.skip(start as int),
            forall|k: int| 0 <= k < i - start ==> is_digit(#[trigger] digits[k]),
            value == capped_value(digits.take(i - start)),
        decreases cs.len() - i,
    {
        let c = cs[i];
        assert(digits[i - start] == c);
        if !('0' <= c && c <= '9') {
            assert(!is_digit(digits[i - start]));
            return None;
        }
        let d = (c as u32) - 48;
        let next = 10 * value + d;
        value = if next > 65536 {
            65536
        } else {
            next
        };
        assert(digits.take(i + 1 - start).drop_last() =~= digits.take(i - start));
        assert(digits.take(i + 1 - start).last() == c);
        i += 1;
    }
    assert(digits.take(cs@.len() - start) =~= digits);
    proof {
        lemma_capped_value(digits);
    }
    if value <= 65535 {
        Some(value as u16)
    } else {
        None
    }
}

/// The port override, from the stored value of `SETTING_PORT`: `None` when unset, unreadable or
/// not a 16-bit number.
pub fn configured_port(stored: Option<&str>) -> (r: Option<u16>)
    ensures
        r == match stored_chars(stored) {
            Some(v) => parsed_u16(v),
            None => None,
        },
{
    match stored {
        Some(v) => parse_u16(v),
        None => None,
    }
}

/// A running server as `running_info` reports it: its port and its start time (RFC 3339).
#[derive(Clone, Debug)]
pub struct ServerInfo<T> {
    pub port: u16,
    pub started_at: T,
}

/// What the orchestration knows of the server: whether it runs, and where.
#[derive(Clone, Debug)]
pub struct McpServerState {
    running: Option<ServerInfo<String>>,
}

/// The text of an optional running server.
pub open spec fn info_view(i: Option<ServerInfo<String>>) -> Option<ServerInfo<Seq<char>>> {
    match i {
        Some(i) => Some(ServerInfo { port: i.port, started_at: i.started_at@ }),
        None => None,
    }
}

impl McpServerState {
    /// The running server, if any.
    pub closed spec fn running(self) -> Option<ServerInfo<Seq<char>>> {
        info_view(self.running)
    }

    /// No server running.
    pub fn new() -> (s: McpServerState)
        ensures
            s.running() is None,
    {
        McpServerState { running: None }
    }

    /// Snapshot of the running server: `(port, started_at_rfc3339)`.
    pub fn running_info(&self) -> (r: Option<(u16, String)>)
        ensures
            match self.running() {
                Some(i) => r matches Some(p) && p.0 == i.port && p.1@ == i.started_at,
                None => r is None,
            },
    {
        match &self.running {
            Some(i) => Some((i.port, i.started_at.clone())),
            None => None,
        }
    }
}

/// An orchestration request. `StartIfEnabled` carries the persisted flags; `RemoveStaleLock`
/// removes a lock file that an unclean shutdown left behind.
#[derive(Clone, Copy, Debug, PartialEq, Eq, Structural)]
pub enum McpOperation {
    Start,
    Stop,
    StartIfEnabled { enabled: bool, auto_start: bool },
    SetEnabled(bool),
    SetAutoStart(bool),
    SetAuditEnabled(bool),
    RemoveStaleLock,
}

/// Why the lock file could not be written or removed.
#[derive(Debug)]
pub enum LockFileError<T> {
    /// The application data directory could not be resolved.
    DataDir(T),
    /// Writing or removing the file failed.
    Io(T),
}

/// What the caller is asked to do next.
#[derive(Debug)]
pub enum McpAction<T> {
    /// Persist `value` under `key` in the settings.
    PersistSetting { key: T, value: T },
    /// Start a listener, with an audit sink when `audit` holds, on `port` when one is given.
    StartListener { audit: bool, port: Option<u16> },
    /// Write the lock file for the listener just started.
    WriteLockFile { port: u16, started_at: T },
    /// Stop the listener just started, which is not kept.
    StopNewListener,
    /// Stop the running listener, which is no longer kept.
    StopRunningListener,
    /// Remove the lock file.
    RemoveLockFile,
    /// Log an error.
    LogError { message: T },
    /// Log a warning.
    LogWarning { message: T },
    /// The operation is over, with this result.
    Finish { result: Result<(), T> },
}

/// What came of the last action.
#[derive(Debug)]
pub enum McpEvent<T> {
    /// Nothing yet: the operation begins.
    Begin,
    Persisted(Result<(), T>),
    ListenerStarted(Result<ServerInfo<T>, T>),
    LockWritten(Result<(), LockFileError<T>>),
    ListenerStopped,
    LockRemoved(Result<(), LockFileError<T>>),
    Logged,
}

/// Where an operation stands.
#[derive(Debug)]
pub enum McpStage<T> {
    Begin,
    Persisting,
    Starting,
    WritingLock(ServerInfo<T>),
    StoppingNew(T),
    StoppingRunning,
    RemovingLock,
    Warning,
    Logging,
    Done,
}

/// How a listener is started: with an audit sink or not, and on which port when one is
/// configured.
#[derive(Clone, Copy, Debug)]
pub struct ListenerConfig {
    pub audit: bool,
    pub port: Option<u16>,
}

/// The listener configuration that the stored values of `SETTING_AUDIT_ENABLED` and
/// `SETTING_PORT` give.
pub open spec fn listener_config_of(
    audit_setting: Option<Seq<char>>,
    port_setting: Option<Seq<char>>,
) -> ListenerConfig {
    ListenerConfig {
        audit: audit_setting != Some("false"@),
        port: match port_setting {
            Some(v) => parsed_u16(v),
            None => None,
        },
    }
}

/// An operation under way.
#[derive(Debug)]
pub struct McpRun {
    op: McpOperation,
    desktop: bool,
    config: ListenerConfig,
    stage: McpStage<String>,
}

/// The text of a result.
pub open spec fn result_view(r: Result<(), String>) -> Result<(), Seq<char>> {
    match r {
        Ok(()) => Ok(()),
        Err(e) => Err(e@),
    }
}

/// The text of a lock file error.
pub open spec fn lock_error_view(e: LockFileError<String>) -> LockFileError<Seq<char>> {
    match e {
        LockFileError::DataDir(e) => LockFileError::DataDir(e@),
        LockFileError::Io(e) => LockFileError::Io(e@),
    }
}

/// The text of the result of a lock file operation.
pub open spec fn lock_result_view(r: Result<(), LockFileError<String>>) -> Result<
    (),
    LockFileError<Seq<char>>,
> {
    match r {
        Ok(()) => Ok(()),
        Err(e) => Err(lock_error_view(e)),
    }
}

impl View for McpAction<String> {
    type V = McpAction<Seq<char>>;

    open spec fn view(&self) -> McpAction<Seq<char>> {
        match *self {
            McpAction::PersistSetting { key, value } => McpAction::PersistSetting {
                key: key@,
                value: value@,
            },
            McpAction::StartListener { audit, port } => McpAction::StartListener { audit, port },
            McpAction::WriteLockFile { port, started_at } => McpAction::WriteLockFile {
                port,
                started_at: started_at@,
            },
            McpAction::StopNewListener => McpAction::StopNewListener,
            McpAction::StopRunningListener => McpAction::StopRunningListener,
            McpAction::RemoveLockFile => McpAction::RemoveLockFile,
            McpAction::LogError { message } => McpAction::LogError { message: message@ },
            McpAction::LogWarning { message } => McpAction::LogWarning { message: message@ },
            McpAction::Finish { result } => McpAction::Finish { result: result_view(result) },
        }
    }
}

impl View for McpEvent<String> {
    type V = McpEvent<Seq<char>>;

    open spec fn view(&self) -> McpEvent<Seq<char>> {
        match *self {
            McpEvent::Begin => McpEvent::Begin,
            McpEvent::Persisted(r) => McpEvent::Persisted(result_view(r)),
            McpEvent::ListenerStarted(r) => McpEvent::ListenerStarted(
                match r {
                    Ok(i) => Ok(ServerInfo { port: i.port, started_at: i.started_at@ }),
                    Err(e) => Err(e@),
                },
            ),
            McpEvent::LockWritten(r) => McpEvent::LockWritten(lock_result_view(r)),
            McpEvent::ListenerStopped => McpEvent::ListenerStopped,
            McpEvent::LockRemoved(r) => McpEvent::LockRemoved(lock_result_view(r)),
            McpEvent::Logged => McpEvent::Logged,
        }
    }
}

impl View for McpStage<String> {
    type V = McpStage<Seq<char>>;

    open spec fn view(&self) -> McpStage<Seq<char>> {
        match *self {
            McpStage::Begin => McpStage::Begin,
            McpStage::Persisting => McpStage::Persisting,
            McpStage::Starting => McpStage::Starting,
            McpStage::WritingLock(i) => McpStage::WritingLock(
                ServerInfo { port: i.port, started_at: i.started_at@ },
            ),
            McpStage::StoppingNew(e) => McpStage::StoppingNew(e@),
            McpStage::StoppingRunning => McpStage::StoppingRunning,
            McpStage::RemovingLock => McpStage::RemovingLock,
            McpStage::Warning => McpStage::Warning,
            McpStage::Logging => McpStage::Logging,
            McpStage::Done => McpStage::Done,
        }
    }
}

/// Whether `event` answers what is asked at `stage`.
pub open spec fn answers(stage: McpStage<Seq<char>>, event: McpEvent<Seq<char>>) -> bool {
    match stage {
        McpStage::Begin => event is Begin,
        McpStage::Persisting => event is Persisted,
        McpStage::Starting => event is ListenerStarted,
        McpStage::WritingLock(_) => event is LockWritten,
        McpStage::StoppingNew(_) => event is ListenerStopped,
        McpStage::StoppingRunning => event is ListenerStopped,
        McpStage::RemovingLock => event is LockRemoved,
        McpStage::Warning => event is Logged,
        McpStage::Logging => event is Logged,
        McpStage::Done => false,
    }
}

/// The message of the operations that mobile builds do not offer.
pub open spec fn mobile_message() -> Seq<char> {
    "MCP server is not available on mobile"@
}

/// The key and value that a setting operation persists.
pub open spec fn persisted_setting(op: McpOperation) -> (Seq<char>, Seq<char>) {
    match op {
        McpOperation::SetEnabled(b) => (SETTING_ENABLED@, if b { "true"@ } else { "false"@ }),
        McpOperation::SetAutoStart(b) => (SETTING_AUTO_START@, if b { "true"@ } else { "false"@ }),
        McpOperation::SetAuditEnabled(b) => (
            SETTING_AUDIT_ENABLED@,
            if b {
                "true"@
            } else {
                "false"@
            },
        ),
        _ => (Seq::empty(), Seq::empty()),
    }
}

/// The state of an operation, the server state and the action of a step.
pub type McpStep = (McpStage<Seq<char>>, Option<ServerInfo<Seq<char>>>, McpAction<Seq<char>>);

/// The step that ends the start sequence with `result`: an auto-start logs its failure and
/// succeeds; any other operation finishes with the result.
pub open spec fn end_start(
    op: McpOperation,
    running: Option<ServerInfo<Seq<char>>>,
    result: Result<(), Seq<char>>,
) -> McpStep {
    match (op, result) {
        (McpOperation::StartIfEnabled { .. }, Err(e)) => (
            McpStage::Logging,
            running,
            McpAction::LogError { message: "Failed to auto-start MCP server: "@ + e },
        ),
        _ => (McpStage::Done, running, McpAction::Finish { result }),
    }
}

/// The listener to start: configured from the settings, except that an audit change starts it
/// with the audit flag just saved.
pub open spec fn start_action(op: McpOperation, config: ListenerConfig) -> McpAction<Seq<char>> {
    McpAction::StartListener {
        audit: match op {
            McpOperation::SetAuditEnabled(b) => b,
            _ => config.audit,
        },
        port: config.port,
    }
}

/// The first step of the start sequence: nothing to do when a server runs already.
pub open spec fn begin_start(
    op: McpOperation,
    config: ListenerConfig,
    running: Option<ServerInfo<Seq<char>>>,
) -> McpStep {
    if running is Some {
        end_start(op, running, Ok(()))
    } else {
        (McpStage::Starting, running, start_action(op, config))
    }
}

/// The first step of the stop sequence: the running server, if any, is let go and stopped.
pub open spec fn begin_stop(running: Option<ServerInfo<Seq<char>>>) -> McpStep {
    if running is Some {
        (McpStage::StoppingRunning, None, McpAction::StopRunningListener)
    } else {
        (McpStage::RemovingLock, None, McpAction::RemoveLockFile)
    }
}

/// The error of a start whose lock file could not be written.
pub open spec fn lock_write_message(e: LockFileError<Seq<char>>) -> Seq<char> {
    match e {
        LockFileError::DataDir(e) => "Failed to resolve app data dir: "@ + e,
        LockFileError::Io(e) => "Failed to write mcp.lock: "@ + e,
    }
}

/// The warning logged when a lock file could not be removed.
pub open spec fn stale_lock_warning(e: Seq<char>) -> Seq<char> {
    "Failed to remove stale mcp.lock: "@ + e
}

/// The step after the lock file is removed: an audit change starts the server again; any other
/// operation is over.
pub open spec fn after_removal(
    op: McpOperation,
    config: ListenerConfig,
    running: Option<ServerInfo<Seq<char>>>,
) -> McpStep {
    match op {
        McpOperation::SetAuditEnabled(_) => begin_start(op, config, running),
        _ => (McpStage::Done, running, McpAction::Finish { result: Ok(()) }),
    }
}

/// What an operation does next, from where it stands, the server state and what came of its
/// last action.
pub open spec fn mcp_transition(
    op: McpOperation,
    desktop: bool,
    config: ListenerConfig,
    stage: McpStage<Seq<char>>,
    running: Option<ServerInfo<Seq<char>>>,
    event: McpEvent<Seq<char>>,
) -> McpStep {
    match stage {
        McpStage::Begin => match op {
            McpOperation::Start => if desktop {
                begin_start(op, config, running)
            } else {
                (McpStage::Done, running, McpAction::Finish { result: Err(mobile_message()) })
            },
            McpOperation::Stop => begin_stop(running),
            McpOperation::RemoveStaleLock => (McpStage::RemovingLock, running, McpAction::RemoveLockFile),
            McpOperation::StartIfEnabled { enabled, auto_start } => if desktop && enabled
                && auto_start {
                begin_start(op, config, running)
            } else {
                (McpStage::Done, running, McpAction::Finish { result: Ok(()) })
            },
            _ => if desktop {
                (
                    McpStage::Persisting,
                    running,
                    McpAction::PersistSetting {
                        key: persisted_setting(op).0,
                        value: persisted_setting(op).1,
                    },
                )
            } else {
                (McpStage::Done, running, McpAction::Finish { result: Err(mobile_message()) })
            },
        },
        McpStage::Persisting => match event {
            McpEvent::Persisted(Err(e)) => (
                McpStage::Done,
                running,
                McpAction::Finish { result: Err(e) },
            ),
            _ => match op {
                McpOperation::SetEnabled(false) => begin_stop(running),
                McpOperation::SetAuditEnabled(_) => if running is Some {
                    begin_stop(running)
                } else {
                    (McpStage::Done, running, McpAction::Finish { result: Ok(()) })
                },
                _ => (McpStage::Done, running, McpAction::Finish { result: Ok(()) }),
            },
        },
        McpStage::Starting => match event {
            McpEvent::ListenerStarted(Ok(info)) => (
                McpStage::WritingLock(info),
                running,
                McpAction::WriteLockFile { port: info.port, started_at: info.started_at },
            ),
            McpEvent::ListenerStarted(Err(e)) => end_start(op, running, Err(e)),
            _ => (stage, running, start_action(op, config)),
        },
        McpStage::WritingLock(info) => match event {
            McpEvent::LockWritten(Err(e)) => (
                McpStage::StoppingNew(lock_write_message(e)),
                running,
                McpAction::StopNewListener,
            ),
            _ => end_start(op, Some(info), Ok(())),
        },
        McpStage::StoppingNew(e) => end_start(op, running, Err(e)),
        McpStage::StoppingRunning => (McpStage::RemovingLock, running, McpAction::RemoveLockFile),
        McpStage::RemovingLock => match event {
            McpEvent::LockRemoved(Err(LockFileError::Io(e))) => (
                McpStage::Warning,
                running,
                McpAction::LogWarning { message: stale_lock_warning(e) },
            ),
            _ => after_removal(op, config, running),
        },
        McpStage::Warning => after_removal(op, config, running),
        McpStage::Logging => (McpStage::Done, running, McpAction::Finish { result: Ok(()) }),
        McpStage::Done => (stage, running, McpAction::Finish { result: Ok(()) }),
    }
}

impl McpRun {
    /// The operation.
    pub closed spec fn spec_op(self) -> McpOperation {
        self.op
    }

    /// Whether the build offers the server (desktop) or not (mobile).
    pub closed spec fn spec_desktop(self) -> bool {
        self.desktop
    }

    /// How the operation starts a listener.
    pub closed spec fn spec_config(self) -> ListenerConfig {
        self.config
    }

    /// Where the operation stands.
    pub closed spec fn spec_stage(self) -> McpStage<Seq<char>> {
        self.stage@
    }

    /// An operation about to begin; `desktop` tells whether the build offers the server, and
    /// `audit_setting` and `port_setting` are the stored values of `SETTING_AUDIT_ENABLED` and
    /// `SETTING_PORT` (`None` when unset or unreadable).
    pub fn new(
        op: McpOperation,
        desktop: bool,
        audit_setting: Option<&str>,
        port_setting: Option<&str>,
    ) -> (r: McpRun)
        ensures
            r.spec_op() == op,
            r.spec_desktop() == desktop,
            r.spec_config() == listener_config_of(
                stored_chars(audit_setting),
                stored_chars(port_setting),
            ),
            r.spec_stage() == McpStage::<Seq<char>>::Begin,
    {
        let config = ListenerConfig {
            audit: audit_enabled(audit_setting),
            port: configured_port(port_setting),
        };
        McpRun { op, desktop, config, stage: McpStage::Begin }
    }

    /// Whether the operation is over.
    pub fn is_done(&self) -> (r: bool)
        ensures
            r == self.spec_stage() is Done,
    {
        match self.stage {
            McpStage::Done => true,
            _ => false,
        }
    }

    /// Whether `event` answers what the operation asked for last.
    pub fn accepts(&self, event: &McpEvent<String>) -> (r: bool)
        ensures
            r == answers(self.spec_stage(), event@),
    {
        match (&self.stage, event) {
            (McpStage::Begin, McpEvent::Begin) => true,
            (McpStage::Persisting, McpEvent::Persisted(_)) => true,
            (McpStage::Starting, McpEvent::ListenerStarted(_)) => true,
            (McpStage::WritingLock(_), McpEvent::LockWritten(_)) => true,
            (McpStage::StoppingNew(_), McpEvent::ListenerStopped) => true,
            (McpStage::StoppingRunning, McpEvent::ListenerStopped) => true,
            (McpStage::RemovingLock, McpEvent::LockRemoved(_)) => true,
            (McpStage::Warning, McpEvent::Logged) => true,
            (McpStage::Logging, McpEvent::Logged) => true,
            _ => false,
        }
    }
}

fn finish_ok() -> (a: McpAction<String>)
    ensures
        a@ == (McpAction::<Seq<char>>::Finish { result: Ok(()) }),
{
    McpAction::Finish { result: Ok(()) }
}

fn finish_err(e: String) -> (a: McpAction<String>)
    ensures
        a@ == (McpAction::<Seq<char>>::Finish { result: Err(e@) }),
{
    McpAction::Finish { result: Err(e) }
}

fn prefixed(prefix: &str, e: &str) -> (s: String)
    ensures
        s@ == prefix@ + e@,
{
    let mut s = string_from(prefix);
    s.append(e);
    s
}

fn lock_write_message_text(e: LockFileError<String>) -> (s: String)
    ensures
        s@ == lock_write_message(lock_error_view(e)),
{
    match e {
        LockFileError::DataDir(e) => prefixed("Failed to resolve app data dir: ", e.as_str()),
        LockFileError::Io(e) => prefixed("Failed to write mcp.lock: ", e.as_str()),
    }
}

fn bool_text(b: bool) -> (s: String)
    ensures
        s@ == if b {
            "true"@
        } else {
            "false"@
        },
{
    if b {
        string_from("true")
    } else {
        string_from("false")
    }
}

impl McpRun {
    fn end_start(&mut self, state: &McpServerState, result: Result<(), String>) -> (a: McpAction<
        String,
    >)
        ensures
            (final(self).spec_stage(), state.running(), a@) == end_start(
                old(self).spec_op(),
                state.running(),
                result_view(result),
            ),
            final(self).spec_op() == old(self).spec_op(),
            final(self).spec_desktop() == old(self).spec_desktop(),
            final(self).spec_config() == old(self).spec_config(),
    {
        match (self.op, result) {
            (McpOperation::StartIfEnabled { .. }, Err(e)) => {
                self.stage = McpStage::Logging;
                let mut message = string_from("Failed to auto-start MCP server: ");
                message.append(e.as_str());
                McpAction::LogError { message }
            },
            (_, result) => {
                self.stage = McpStage::Done;
                let a = McpAction::Finish { result };
                assert(a@ == McpAction::<Seq<char>>::Finish { result: result_view(result) });
                a
            },
        }
    }

    fn start_action(&self) -> (a: McpAction<String>)
        ensures
            a@ == start_action(self.spec_op(), self.spec_config()),
    {
        let audit = match self.op {
            McpOperation::SetAuditEnabled(b) => b,
            _ => self.config.audit,
        };
        McpAction::StartListener { audit, port: self.config.port }
    }

    fn begin_start(&mut self, state: &McpServerState) -> (a: McpAction<String>)
        ensures
            (final(self).spec_stage(), state.running(), a@) == begin_start(
                old(self).spec_op(),
                old(self).spec_config(),
                state.running(),
            ),
            final(self).spec_op() == old(self).spec_op(),
            final(self).spec_desktop() == old(self).spec_desktop(),
            final(self).spec_config() == old(self).spec_config(),
    {
        if state.running.is_some() {
            self.end_start(state, Ok(()))
        } else {
            self.stage = McpStage::Starting;
            self.start_action()
        }
    }

    fn after_removal(&mut self, state: &McpServerState) -> (a: McpAction<String>)
        ensures
            (final(self).spec_stage(), state.running(), a@) == after_removal(
                old(self).spec_op(),
                old(self).spec_config(),
                state.running(),
            ),
            final(self).spec_op() == old(self).spec_op(),
            final(self).spec_desktop() == old(self).spec_desktop(),
            final(self).spec_config() == old(self).spec_config(),
    {
        match self.op {
            McpOperation::SetAuditEnabled(_) => self.begin_start(state),
            _ => {
                self.stage = McpStage::Done;
                finish_ok()
            },
        }
    }

    fn begin_stop(&mut self, state: &mut McpServerState) -> (a: McpAction<String>)
        ensures
            (final(self).spec_stage(), final(state).running(), a@) == begin_stop(old(state).running()),
            final(self).spec_op() == old(self).spec_op(),
            final(self).spec_desktop() == old(self).spec_desktop(),
            final(self).spec_config() == old(self).spec_config(),
    {
        let was_running = state.running.is_some();
        state.running = None;
        if was_running {
            self.stage = McpStage::StoppingRunning;
            McpAction::StopRunningListener
        } else {
            self.stage = McpStage::RemovingLock;
            McpAction::RemoveLockFile
        }
    }

    /// Advances the operation with what came of its last action, updating the server state, and
    /// gives the next action.
    pub fn step(&mut self, state: &mut McpServerState, event: McpEvent<String>) -> (action:
        McpAction<String>)
        requires
            answers(old(self).spec_stage(), event@),
        ensures
            (final(self).spec_stage(), final(state).running(), action@) == mcp_transition(
                old(self).spec_op(),
                old(self).spec_desktop(),
                old(self).spec_config(),
                old(self).spec_stage(),
                old(state).running(),
                event@,
            ),
            final(self).spec_op() == old(self).spec_op(),
            final(self).spec_desktop() == old(self).spec_desktop(),
            final(self).spec_config() == old(self).spec_config(),
    {
        let mut stage = McpStage::Done;
        std::mem::swap(&mut stage, &mut self.stage);
        match stage {
            McpStage::Begin => match self.op {
                McpOperation::Start => {
                    if self.desktop {
                        self.begin_start(state)
                    } else {
                        finish_err(string_from("MCP server is not available on mobile"))
                    }
                },
                McpOperation::Stop => self.begin_stop(state),
                McpOperation::RemoveStaleLock => {
                    self.stage = McpStage::RemovingLock;
                    McpAction::RemoveLockFile
                },
                McpOperation::StartIfEnabled { enabled, auto_start } => {
                    if self.desktop && enabled && auto_start {
                        self.begin_start(state)
                    } else {
                        finish_ok()
                    }
                },
                McpOperation::SetEnabled(b) => {
                    if self.desktop {
                        self.stage = McpStage::Persisting;
                        McpAction::PersistSetting { key: string_from(SETTING_ENABLED), value: bool_text(b) }
                    } else {
                        finish_err(string_from("MCP server is not available on mobile"))
                    }
                },
                McpOperation::SetAutoStart(b) => {
                    if self.desktop {
                        self.stage = McpStage::Persisting;
                        McpAction::PersistSetting { key: string_from(SETTING_AUTO_START), value: bool_text(b) }
                    } else {
                        finish_err(string_from("MCP server is not available on mobile"))
                    }
                },
                McpOperation::SetAuditEnabled(b) => {
                    if self.desktop {
                        self.stage = McpStage::Persisting;
                        McpAction::PersistSetting {
                            key: string_from(SETTING_AUDIT_ENABLED),
                            value: bool_text(b),
                        }
                    } else {
                        finish_err(string_from("MCP server is not available on mobile"))
                    }
                },
            },
            McpStage::Persisting => match event {
                McpEvent::Persisted(Err(e)) => finish_err(e),
                _ => match self.op {
                    McpOperation::SetEnabled(false) => self.begin_stop(state),
                    McpOperation::SetAuditEnabled(_) => {
                        if state.running.is_some() {
                            self.begin_stop(state)
                        } else {
                            finish_ok()
                        }
                    },
                    _ => finish_ok(),
                },
            },
            McpStage::Starting => match event {
                McpEvent::ListenerStarted(Ok(info)) => {
                    let port = info.port;
                    let started_at = info.started_at.clone();
                    self.stage = McpStage::WritingLock(info);
                    McpAction::WriteLockFile { port, started_at }
                },
                McpEvent::ListenerStarted(Err(e)) => self.end_start(state, Err(e)),
                _ => {
                    self.stage = McpStage::Starting;
                    self.start_action()
                },
            },
            McpStage::WritingLock(info) => match event {
                McpEvent::LockWritten(Err(e)) => {
                    self.stage = McpStage::StoppingNew(lock_write_message_text(e));
                    McpAction::StopNewListener
                },
                _ => {
                    state.running = Some(info);
                    self.end_start(state, Ok(()))
                },
            },
            McpStage::StoppingNew(e) => self.end_start(state, Err(e)),
            McpStage::StoppingRunning => {
                self.stage = McpStage::RemovingLock;
                McpAction::RemoveLockFile
            },
            McpStage::RemovingLock => match event {
                McpEvent::LockRemoved(Err(LockFileError::Io(e))) => {
                    self.stage = McpStage::Warning;
                    McpAction::LogWarning {
                        message: prefixed("Failed to remove stale mcp.lock: ", e.as_str()),
                    }
                },
                _ => self.after_removal(state),
            },
            McpStage::Warning => self.after_removal(state),
            McpStage::Logging => finish_ok(),
            McpStage::Done => finish_ok(),
        }
    }
}

/// The stages an operation can pass through.
pub open spec fn stage_of_op(op: McpOperation, stage: McpStage<Seq<char>>) -> bool {
    match op {
        McpOperation::Start => stage is Begin || stage is Starting || stage is WritingLock
            || stage is StoppingNew || stage is Done,
        McpOperation::Stop => stage is Begin || stage is StoppingRunning || stage is RemovingLock
            || stage is Warning || stage is Done,
        McpOperation::StartIfEnabled { .. } => stage is Begin || stage is Starting
            || stage is WritingLock || stage is StoppingNew || stage is Logging || stage is Done,
        McpOperation::SetEnabled(_) => stage is Begin || stage is Persisting
            || stage is StoppingRunning || stage is RemovingLock || stage is Warning || stage is Done,
        McpOperation::SetAutoStart(_) => stage is Begin || stage is Persisting || stage is Done,
        McpOperation::SetAuditEnabled(_) => !(stage is Logging),
        McpOperation::RemoveStaleLock => stage is Begin || stage is RemovingLock || stage is Warning
            || stage is Done,
    }
}

/// An operation only passes through its own stages: a step from one of them leads to another.
pub proof fn lemma_stages_of_op(
    op: McpOperation,
    desktop: bool,
    config: ListenerConfig,
    stage: McpStage<Seq<char>>,
    running: Option<ServerInfo<Seq<char>>>,
    event: McpEvent<Seq<char>>,
)
    requires
        stage_of_op(op, stage),
        answers(stage, event),
    ensures
        stage_of_op(op, mcp_transition(op, desktop, config, stage, running, event).0),
{
}

/// Starting is a no-op when a server already runs: the operation finishes at once, successfully,
/// and the server state is unchanged.
pub proof fn lemma_start_when_running_is_noop(config: ListenerConfig, info: ServerInfo<Seq<char>>)
    ensures
        mcp_transition(McpOperation::Start, true, config, McpStage::Begin, Some(info), McpEvent::Begin) == (
        McpStage::<Seq<char>>::Done,
        Some(info),
        (McpAction::<Seq<char>>::Finish { result: Ok(()) }),
        ),
{
}

/// A listener is kept only once its lock file is written; when the lock file cannot be written
/// the new listener is stopped, not kept, and the start fails with that error.
pub proof fn lemma_lock_failure_discards_listener(
    op: McpOperation,
    desktop: bool,
    config: ListenerConfig,
    info: ServerInfo<Seq<char>>,
    running: Option<ServerInfo<Seq<char>>>,
    e: LockFileError<Seq<char>>,
)
    requires
        op == McpOperation::Start || op is SetAuditEnabled,
    ensures
        mcp_transition(op, desktop, config, McpStage::WritingLock(info), running, McpEvent::LockWritten(Ok(())))
            == (McpStage::<Seq<char>>::Done, Some(info), (McpAction::<Seq<char>>::Finish { result: Ok(()) })),
        mcp_transition(op, desktop, config, McpStage::WritingLock(info), running, McpEvent::LockWritten(Err(e)))
            == (McpStage::StoppingNew(lock_write_message(e)), running, McpAction::<Seq<char>>::StopNewListener),
        mcp_transition(
            op,
            desktop,
            config,
            McpStage::StoppingNew(lock_write_message(e)),
            running,
            McpEvent::ListenerStopped,
        ) == (McpStage::<Seq<char>>::Done, running, (McpAction::<Seq<char>>::Finish {
            result: Err(lock_write_message(e)),
        })),
{
}

/// Whether an action starts or stops a listener.
pub open spec fn touches_listener(a: McpAction<Seq<char>>) -> bool {
    a is StartListener || a is StopNewListener || a is StopRunningListener
}

/// Setting the auto-start flag takes effect on the next launch only: it never starts or stops a
/// listener and never changes the server state.
pub proof fn lemma_auto_start_setting_leaves_server(
    b: bool,
    desktop: bool,
    config: ListenerConfig,
    stage: McpStage<Seq<char>>,
    running: Option<ServerInfo<Seq<char>>>,
    event: McpEvent<Seq<char>>,
)
    requires
        answers(stage, event),
        stage is Begin || stage is Persisting,
    ensures
        ({
            let (next, after, action) = mcp_transition(
                McpOperation::SetAutoStart(b),
                desktop,
                config,
                stage,
                running,
                event,
            );
            after == running && !touches_listener(action) && (next is Persisting || next is Done)
        }),
{
}

/// The launch hook starts the server only when both the feature and auto-start are enabled, and
/// never fails: a failed start is logged and the hook still finishes successfully.
pub proof fn lemma_auto_start_never_fails(
    enabled: bool,
    auto_start: bool,
    desktop: bool,
    config: ListenerConfig,
    stage: McpStage<Seq<char>>,
    running: Option<ServerInfo<Seq<char>>>,
    event: McpEvent<Seq<char>>,
)
    requires
        stage_of_op((McpOperation::StartIfEnabled { enabled, auto_start }), stage),
        answers(stage, event),
    ensures
        !(mcp_transition(
            (McpOperation::StartIfEnabled { enabled, auto_start }),
            desktop,
            config,
            stage,
            running,
            event,
        ).2 matches (McpAction::Finish { result: Err(_) })),
        stage is Begin && !(enabled && auto_start) ==> mcp_transition(
            (McpOperation::StartIfEnabled { enabled, auto_start }),
            desktop,
            config,
            stage,
            running,
            event,
        ).2 == (McpAction::<Seq<char>>::Finish { result: Ok(()) }),
{
}

/// Once a stop has begun, no server is running, whatever happens next.
pub proof fn lemma_stop_leaves_nothing_running(
    desktop: bool,
    config: ListenerConfig,
    stage: McpStage<Seq<char>>,
    running: Option<ServerInfo<Seq<char>>>,
    event: McpEvent<Seq<char>>,
)
    requires
        stage_of_op(McpOperation::Stop, stage),
        answers(stage, event),
        stage is Begin || running is None,
    ensures
        mcp_transition(McpOperation::Stop, desktop, config, stage, running, event).1 is None,
{
}

/// Disabling the feature stops a running server once the setting is saved; enabling it only
/// saves the setting.
pub proof fn lemma_set_enabled_after_save(
    desktop: bool,
    config: ListenerConfig,
    running: Option<ServerInfo<Seq<char>>>,
)
    ensures
        mcp_transition(
            McpOperation::SetEnabled(false),
            desktop,
            config,
            McpStage::Persisting,
            running,
            McpEvent::Persisted(Ok(())),
        ).1 is None,
        mcp_transition(
            McpOperation::SetEnabled(true),
            desktop,
            config,
            McpStage::Persisting,
            running,
            McpEvent::Persisted(Ok(())),
        ) == (McpStage::<Seq<char>>::Done, running, (McpAction::<Seq<char>>::Finish { result: Ok(()) })),
{
}

/// A start that finds no server running starts a listener with an audit sink exactly when the
/// stored audit setting is not `"false"`, on the port that the stored port setting gives, if any.
pub proof fn lemma_start_uses_settings(
    op: McpOperation,
    audit_setting: Option<Seq<char>>,
    port_setting: Option<Seq<char>>,
)
    requires
        op == McpOperation::Start || op == (McpOperation::StartIfEnabled {
            enabled: true,
            auto_start: true,
        }),
    ensures
        mcp_transition(
            op,
            true,
            listener_config_of(audit_setting, port_setting),
            McpStage::Begin,
            None,
            McpEvent::Begin,
        ) == (McpStage::<Seq<char>>::Starting, None::<ServerInfo<Seq<char>>>, McpAction::<
            Seq<char>,
        >::StartListener {
            audit: audit_setting != Some("false"@),
            port: match port_setting {
                Some(v) => parsed_u16(v),
                None => None,
            },
        }),
{
}

/// Changing the audit flag restarts a running server, whose new listener has an audit sink
/// exactly when the flag just saved is on and runs on the configured port; a stopped server
/// stays stopped.
pub proof fn lemma_audit_change_restarts_running_server(
    b: bool,
    desktop: bool,
    config: ListenerConfig,
    info: ServerInfo<Seq<char>>,
)
    ensures
        mcp_transition(
            McpOperation::SetAuditEnabled(b),
            desktop,
            config,
            McpStage::Persisting,
            Some(info),
            McpEvent::Persisted(Ok(())),
        ) == (McpStage::<Seq<char>>::StoppingRunning, None::<ServerInfo<Seq<char>>>, McpAction::<Seq<char>>::StopRunningListener),
        mcp_transition(
            McpOperation::SetAuditEnabled(b),
            desktop,
            config,
            McpStage::RemovingLock,
            None,
            McpEvent::LockRemoved(Ok(())),
        ) == (McpStage::<Seq<char>>::Starting, None::<ServerInfo<Seq<char>>>, McpAction::<
            Seq<char>,
        >::StartListener { audit: b, port: config.port }),
        mcp_transition(
            McpOperation::SetAuditEnabled(b),
            desktop,
            config,
            McpStage::Persisting,
            None,
            McpEvent::Persisted(Ok(())),
        ) == (McpStage::<Seq<char>>::Done, None::<ServerInfo<Seq<char>>>, (McpAction::<Seq<char>>::Finish { result: Ok(()) })),
{
}

/// Removing a stale lock file never fails and never touches the server: a removal that fails is
/// logged as a warning, and nothing is logged when there is no data directory to remove it from.
pub proof fn lemma_stale_lock_removal(
    desktop: bool,
    config: ListenerConfig,
    stage: McpStage<Seq<char>>,
    running: Option<ServerInfo<Seq<char>>>,
    event: McpEvent<Seq<char>>,
    e: Seq<char>,
)
    requires
        stage_of_op(McpOperation::RemoveStaleLock, stage),
        answers(stage, event),
    ensures
        ({
            let (next, after, action) = mcp_transition(
                McpOperation::RemoveStaleLock,
                desktop,
                config,
                stage,
                running,
                event,
            );
            &&& after == running
            &&& !touches_listener(action)
            &&& !(action matches McpAction::Finish { result: Err(_) })
            &&& !(action is LogError)
        }),
        mcp_transition(
            McpOperation::RemoveStaleLock,
            desktop,
            config,
            McpStage::RemovingLock,
            running,
            McpEvent::LockRemoved(Err(LockFileError::Io(e))),
        ) == (McpStage::<Seq<char>>::Warning, running, McpAction::LogWarning {
            message: stale_lock_warning(e),
        }),
        mcp_transition(
            McpOperation::RemoveStaleLock,
            desktop,
            config,
            McpStage::RemovingLock,
            running,
            McpEvent::LockRemoved(Err(LockFileError::DataDir(e))),
        ) == (McpStage::<Seq<char>>::Done, running, (McpAction::<Seq<char>>::Finish { result: Ok(()) })),
{
}

/// Audit logging is on unless the setting says exactly `"false"`; the feature flags are on only
/// when they say exactly `"true"`.
pub proof fn lemma_setting_defaults()
    ensures
        !is_true_setting(None),
        stored_chars(None) != Some("false"@),
{
}

} // verus!
