//! The start of the services (`initialize_services`): which step comes
//! next, given the answer to the last one. The steps (creating directories,
//! opening the database, migrating the older configuration file, the first
//! import of preset data, setting up the outbound HTTP client) are run by the
//! caller.

use vstd::prelude::*;
use vstd::string::*;
use crate::logging::LogFilter;

verus! {

/// Why the services could not start.
pub enum StartError {
    /// The configuration directory could not be created, for this reason.
    ConfigDir(String),
    /// The older `config.json` could not be loaded, for this reason.
    LegacyConfig(String),
    /// The database could not be opened; the database layer's own error,
    /// as text.
    Database(String),
}

/// A step of the start; each names the work to do next.
pub enum StartStep {
    /// Create the application's configuration directory.
    CreateConfigDir,
    /// Create the log directory (a failure is ignored).
    CreateLogDir,
    /// Install the panic hook.
    InstallPanicHook,
    /// Start the file and console logger.
    InitLogging,
    /// Install the TLS crypto provider (a failure is ignored).
    InstallCryptoProvider,
    /// Find out whether the database file and the older `config.json` exist.
    ProbeFiles,
    /// Load the older `config.json`, to be migrated into the database.
    LoadLegacyConfig,
    /// Open the database (creating or upgrading its schema); `migrate` says
    /// whether a loaded older configuration waits to be migrated.
    OpenDatabase { migrate: bool },
    /// Migrate the loaded older configuration into the database.
    MigrateLegacyConfig,
    /// Record that the migration succeeded.
    MarkMigrationSuccess,
    /// Rename `config.json` to `config.json.migrated` (a failure is only
    /// reported).
    ArchiveLegacyConfig,
    /// Create the application state and the event bus.
    CreateState,
    /// Import the preset data (see `seed`).
    SeedData,
    /// Set up the common configuration snippets.
    InitSnippets,
    /// Bring the proxy back to the state it was left in.
    RestoreProxy,
    /// Read the saved global proxy URL.
    ReadGlobalProxyUrl,
    /// Set up the outbound HTTP client through this proxy, or directly.
    InitHttpClient(Option<String>),
    /// Remove the saved global proxy URL, which did not work.
    ClearGlobalProxyUrl,
    /// Set up the outbound HTTP client without a proxy.
    InitDirectHttpClient,
    /// Read the saved log configuration.
    ReadLogConfig,
    /// Make this level, the one of the log configuration read, the most
    /// verbose one that is logged.
    ApplyLogLevel(LogFilter),
    /// The services are up.
    Finished,
    /// The services could not start.
    Failed(StartError),
}

/// The answer to a step.
pub enum StartEvent {
    /// The step succeeded.
    Done,
    /// The step failed, with this message.
    Failed(String),
    /// Whether the database file and the older `config.json` exist.
    Files { has_db: bool, has_json: bool },
    /// The saved global proxy URL, or the failure to read it.
    ProxyUrl(Result<Option<String>, String>),
    /// The level of the saved log configuration.
    LogLevel(LogFilter),
}

/// How many events the event bus holds for a subscriber that has not read
/// them yet; one that falls further behind loses the oldest.
pub const EVENT_BUS_CAPACITY: usize = 100;

/// The saved proxy URL in an answer; a failure to read counts as none.
pub open spec fn saved_proxy(e: StartEvent) -> Option<String> {
    match e {
        StartEvent::ProxyUrl(Ok(url)) => url,
        _ => None,
    }
}

/// The step that follows `step` when it is answered by `event`.
pub open spec fn spec_next_start_step(step: StartStep, event: StartEvent) -> StartStep {
    match step {
        StartStep::CreateConfigDir => match event {
            StartEvent::Failed(e) => StartStep::Failed(StartError::ConfigDir(e)),
            _ => StartStep::CreateLogDir,
        },
        StartStep::CreateLogDir => StartStep::InstallPanicHook,
        StartStep::InstallPanicHook => StartStep::InitLogging,
        StartStep::InitLogging => StartStep::InstallCryptoProvider,
        StartStep::InstallCryptoProvider => StartStep::ProbeFiles,
        StartStep::ProbeFiles => match event {
            StartEvent::Files { has_db, has_json } => if !has_db && has_json {
                StartStep::LoadLegacyConfig
            } else {
                StartStep::OpenDatabase { migrate: false }
            },
            _ => StartStep::OpenDatabase { migrate: false },
        },
        StartStep::LoadLegacyConfig => match event {
            StartEvent::Failed(e) => StartStep::Failed(StartError::LegacyConfig(e)),
            _ => StartStep::OpenDatabase { migrate: true },
        },
        StartStep::OpenDatabase { migrate } => match event {
            StartEvent::Failed(e) => StartStep::Failed(StartError::Database(e)),
            _ => if migrate {
                StartStep::MigrateLegacyConfig
            } else {
                StartStep::CreateState
            },
        },
        StartStep::MigrateLegacyConfig => match event {
            StartEvent::Failed(_) => StartStep::CreateState,
            _ => StartStep::MarkMigrationSuccess,
        },
        StartStep::MarkMigrationSuccess => StartStep::ArchiveLegacyConfig,
        StartStep::ArchiveLegacyConfig => StartStep::CreateState,
        StartStep::CreateState => StartStep::SeedData,
        StartStep::SeedData => StartStep::InitSnippets,
        StartStep::InitSnippets => StartStep::RestoreProxy,
        StartStep::RestoreProxy => StartStep::ReadGlobalProxyUrl,
        StartStep::ReadGlobalProxyUrl => StartStep::InitHttpClient(saved_proxy(event)),
        StartStep::InitHttpClient(url) => match event {
            StartEvent::Failed(_) => match url {
                Some(_) => StartStep::ClearGlobalProxyUrl,
                None => StartStep::InitDirectHttpClient,
            },
            _ => StartStep::ReadLogConfig,
        },
        StartStep::ClearGlobalProxyUrl => StartStep::InitDirectHttpClient,
        StartStep::InitDirectHttpClient => StartStep::ReadLogConfig,
        StartStep::ReadLogConfig => match event {
            StartEvent::LogLevel(level) => StartStep::ApplyLogLevel(level),
            _ => StartStep::Finished,
        },
        StartStep::ApplyLogLevel(_) => StartStep::Finished,
        StartStep::Finished => StartStep::Finished,
        StartStep::Failed(e) => StartStep::Failed(e),
    }
}

/// The message for a configuration directory that could not be created.
pub open spec fn config_dir_failure(reason: Seq<char>) -> Seq<char> {
    "创建配置目录失败: "@ + reason
}

/// The message for an older configuration file that could not be loaded.
pub open spec fn legacy_config_failure(reason: Seq<char>) -> Seq<char> {
    "加载旧配置文件失败: "@ + reason
}

/// The message of a configuration failure; a database failure keeps the
/// database layer's own error and has none.
pub open spec fn spec_config_message(e: StartError) -> Option<Seq<char>> {
    match e {
        StartError::ConfigDir(r) => Some(config_dir_failure(r@)),
        StartError::LegacyConfig(r) => Some(legacy_config_failure(r@)),
        StartError::Database(_) => None,
    }
}

/// The message of a configuration failure (the start fails with a
/// configuration error carrying it); none for a database failure.
pub fn config_message(e: &StartError) -> (r: Option<String>)
    ensures
        match r {
            Some(m) => spec_config_message(*e) == Some(m@),
            None => spec_config_message(*e) is None,
        },
{
    match e {
        StartError::ConfigDir(reason) => Some(String::from_str("创建配置目录失败: ").concat(reason.as_str())),
        StartError::LegacyConfig(reason) => Some(String::from_str("加载旧配置文件失败: ").concat(reason.as_str())),
        StartError::Database(_) => None,
    }
}

/// The first step of the start.
pub fn first_start_step() -> (r: StartStep)
    ensures
        r == StartStep::CreateConfigDir,
{
    StartStep::CreateConfigDir
}

/// The step that follows `step` when it is answered by `event`.
pub fn next_start_step(step: StartStep, event: StartEvent) -> (r: StartStep)
    ensures
        r == spec_next_start_step(step, event),
{
    match step {
        StartStep::CreateConfigDir => match event {
            StartEvent::Failed(e) => StartStep::Failed(StartError::ConfigDir(e)),
            _ => StartStep::CreateLogDir,
        },
        StartStep::CreateLogDir => StartStep::InstallPanicHook,
        StartStep::InstallPanicHook => StartStep::InitLogging,
        StartStep::InitLogging => StartStep::InstallCryptoProvider,
        StartStep::InstallCryptoProvider => StartStep::ProbeFiles,
        StartStep::ProbeFiles => match event {
            StartEvent::Files { has_db, has_json } => {
                if !has_db && has_json {
                    StartStep::LoadLegacyConfig
                } else {
                    StartStep::OpenDatabase { migrate: false }
                }
            },
            _ => StartStep::OpenDatabase { migrate: false },
        },
        StartStep::LoadLegacyConfig => match event {
            StartEvent::Failed(e) => StartStep::Failed(StartError::LegacyConfig(e)),
            _ => StartStep::OpenDatabase { migrate: true },
        },
        StartStep::OpenDatabase { migrate } => match event {
            StartEvent::Failed(e) => StartStep::Failed(StartError::Database(e)),
            _ => {
                if migrate {
                    StartStep::MigrateLegacyConfig
                } else {
                    StartStep::CreateState
                }
            },
        },
        StartStep::MigrateLegacyConfig => match event {
            StartEvent::Failed(_) => StartStep::CreateState,
            _ => StartStep::MarkMigrationSuccess,
        },
        StartStep::MarkMigrationSuccess => StartStep::ArchiveLegacyConfig,
        StartStep::ArchiveLegacyConfig => StartStep::CreateState,
        StartStep::CreateState => StartStep::SeedData,
        StartStep::SeedData => StartStep::InitSnippets,
        StartStep::InitSnippets => StartStep::RestoreProxy,
        StartStep::RestoreProxy => StartStep::ReadGlobalProxyUrl,
        StartStep::ReadGlobalProxyUrl => match event {
            StartEvent::ProxyUrl(Ok(url)) => StartStep::InitHttpClient(url),
            _ => StartStep::InitHttpClient(None),
        },
        StartStep::InitHttpClient(url) => match event {
            StartEvent::Failed(_) => match url {
                Some(_) => StartStep::ClearGlobalProxyUrl,
                None => StartStep::InitDirectHttpClient,
            },
            _ => StartStep::ReadLogConfig,
        },
        StartStep::ClearGlobalProxyUrl => StartStep::InitDirectHttpClient,
        StartStep::InitDirectHttpClient => StartStep::ReadLogConfig,
        StartStep::ReadLogConfig => match event {
            StartEvent::LogLevel(level) => StartStep::ApplyLogLevel(level),
            _ => StartStep::Finished,
        },
        StartStep::ApplyLogLevel(_) => StartStep::Finished,
        StartStep::Finished => StartStep::Finished,
        StartStep::Failed(e) => StartStep::Failed(e),
    }
}

/// The position of a step in the order in which a run meets them.
pub open spec fn start_rank(step: StartStep) -> int {
    match step {
        StartStep::CreateConfigDir => 0,
        StartStep::CreateLogDir => 1,
        StartStep::InstallPanicHook => 2,
        StartStep::InitLogging => 3,
        StartStep::InstallCryptoProvider => 4,
        StartStep::ProbeFiles => 5,
        StartStep::LoadLegacyConfig => 6,
        StartStep::OpenDatabase { .. } => 7,
        StartStep::MigrateLegacyConfig => 8,
        StartStep::MarkMigrationSuccess => 9,
        StartStep::ArchiveLegacyConfig => 10,
        StartStep::CreateState => 11,
        StartStep::SeedData => 12,
        StartStep::InitSnippets => 13,
        StartStep::RestoreProxy => 14,
        StartStep::ReadGlobalProxyUrl => 15,
        StartStep::InitHttpClient(_) => 16,
        StartStep::ClearGlobalProxyUrl => 17,
        StartStep::InitDirectHttpClient => 18,
        StartStep::ReadLogConfig => 19,
        StartStep::ApplyLogLevel(_) => 20,
        StartStep::Finished => 21,
        StartStep::Failed(_) => 21,
    }
}

/// Whether the start is over.
pub open spec fn start_over(step: StartStep) -> bool {
    step is Finished || step is Failed
}

/// The step a start has reached after its steps were answered by `events`,
/// in order.
pub open spec fn start_state_after(events: Seq<StartEvent>) -> StartStep
    decreases events.len(),
{
    if events.len() == 0 {
        StartStep::CreateConfigDir
    } else {
        spec_next_start_step(start_state_after(events.drop_last()), events.last())
    }
}

/// Every step of the start but the last moves it forward, and an ended
/// start stays as it ended.
pub proof fn start_step_progress(step: StartStep, event: StartEvent)
    ensures
        !start_over(step) ==> start_rank(spec_next_start_step(step, event)) > start_rank(step),
        start_over(step) ==> spec_next_start_step(step, event) == step,
{
}

proof fn lemma_start_run_rank(events: Seq<StartEvent>)
    ensures
        start_over(start_state_after(events)) || start_rank(start_state_after(events)) >= events.len(),
    decreases events.len(),
{
    if events.len() > 0 {
        lemma_start_run_rank(events.drop_last());
        start_step_progress(start_state_after(events.drop_last()), events.last());
    }
}

/// The start always ends: whatever the answers, after at most 21 steps the
/// services are up or have failed.
pub proof fn start_run_ends(events: Seq<StartEvent>)
    requires
        events.len() >= 21,
    ensures
        start_over(start_state_after(events)),
{
    lemma_start_run_rank(events);
}

/// The start fails only on three steps: a configuration
/// directory that cannot be created, an older configuration file that
/// cannot be loaded, or a database that cannot be opened. Every other
/// failure is passed over.
pub proof fn start_fails_only_on_fatal_steps(step: StartStep, event: StartEvent)
    requires
        !start_over(step),
    ensures
        spec_next_start_step(step, event) is Failed <==> (event is Failed && (step is CreateConfigDir
            || step is LoadLegacyConfig || step is OpenDatabase)),
{
}

/// A saved proxy that does not work is removed, and the client is then set
/// up without a proxy.
pub proof fn start_drops_broken_proxy(url: String, reason: String)
    ensures
        spec_next_start_step(StartStep::InitHttpClient(Some(url)), StartEvent::Failed(reason))
            == StartStep::ClearGlobalProxyUrl,
        spec_next_start_step(StartStep::ClearGlobalProxyUrl, StartEvent::Done)
            == StartStep::InitDirectHttpClient,
{
}

/// The log level applied at the end of the start is the level of the saved
/// log configuration; when it cannot be read, no level is applied and the
/// start is over.
pub proof fn start_applies_saved_log_level(level: LogFilter, event: StartEvent)
    ensures
        spec_next_start_step(StartStep::ReadLogConfig, StartEvent::LogLevel(level))
            == StartStep::ApplyLogLevel(level),
        !(event is LogLevel) ==> spec_next_start_step(StartStep::ReadLogConfig, event)
            == StartStep::Finished,
        spec_next_start_step(StartStep::ApplyLogLevel(level), event) == StartStep::Finished,
{
}

/// The saved proxy is removed only when setting up the client through it
/// failed: a client that was set up, with or without a proxy, leads on to
/// reading the log configuration, and the removal never follows any other
/// step or answer.
pub proof fn proxy_cleared_only_after_it_failed(step: StartStep, event: StartEvent)
    ensures
        spec_next_start_step(step, event) == StartStep::ClearGlobalProxyUrl ==> (step matches StartStep::InitHttpClient(
            Some(_),
        ) && event is Failed),
        (step matches StartStep::InitHttpClient(_)) && !(event is Failed) ==> spec_next_start_step(
            step,
            event,
        ) == StartStep::ReadLogConfig,
{
}

/// The older `config.json` is loaded only when there is no database file
/// yet and the older file exists; the database is opened for a migration
/// only after that load succeeded; the migration runs only then, and it is
/// recorded and the file archived only after it succeeded. A failed
/// migration is passed over and the start goes on to create the state.
pub proof fn legacy_config_migrated_only_on_first_start(step: StartStep, event: StartEvent)
    ensures
        spec_next_start_step(step, event) == StartStep::LoadLegacyConfig ==> (step == StartStep::ProbeFiles
            && event == (StartEvent::Files { has_db: false, has_json: true })),
        spec_next_start_step(step, event) == (StartStep::OpenDatabase { migrate: true }) ==> (step
            == StartStep::LoadLegacyConfig && !(event is Failed)),
        spec_next_start_step(step, event) == StartStep::MigrateLegacyConfig ==> (step
            == (StartStep::OpenDatabase { migrate: true }) && !(event is Failed)),
        spec_next_start_step(step, event) == StartStep::MarkMigrationSuccess ==> (step
            == StartStep::MigrateLegacyConfig && !(event is Failed)),
        (step == StartStep::MigrateLegacyConfig && event is Failed) ==> spec_next_start_step(step, event)
            == StartStep::CreateState,
        spec_next_start_step(step, event) == StartStep::ArchiveLegacyConfig ==> step
            == StartStep::MarkMigrationSuccess,
{
}

/// The client is first set up through the saved proxy URL as read (none
/// when it could not be read), and set up without a proxy after a failure.
pub proof fn client_uses_the_saved_proxy(url: Option<String>, reason: String, event: StartEvent)
    ensures
        spec_next_start_step(StartStep::ReadGlobalProxyUrl, StartEvent::ProxyUrl(Ok(url)))
            == StartStep::InitHttpClient(url),
        !(event matches StartEvent::ProxyUrl(Ok(_))) ==> spec_next_start_step(
            StartStep::ReadGlobalProxyUrl,
            event,
        ) == StartStep::InitHttpClient(None),
        spec_next_start_step(StartStep::InitHttpClient(None), StartEvent::Failed(reason))
            == StartStep::InitDirectHttpClient,
{
}

} // verus!
