use cc_switch::logging::LogFilter;
use cc_switch::server::SSE_KEEP_ALIVE_SECS;
use cc_switch::startup::EVENT_BUS_CAPACITY;
use cc_switch::seed::{
    first_seed_step, mcp_source_tool, next_seed_step, prompt_source_tool, SeedEvent, SeedStep, Tool,
};
use cc_switch::startup::{
    config_message, first_start_step, next_start_step, StartError, StartEvent, StartStep,
};

fn seed_label(s: &SeedStep) -> String {
    match s {
        SeedStep::InitSkillRepos => "repos".into(),
        SeedStep::ReadMigrationFlag => "flag".into(),
        SeedStep::CheckInstalledSkills => "installed?".into(),
        SeedStep::MigrateSkills => "migrate".into(),
        SeedStep::RecordSkillsMigration(n) => format!("record {n}"),
        SeedStep::RecordSkillsMigrationError(e) => format!("error {e}"),
        SeedStep::ClearMigrationFlag => "clear".into(),
        SeedStep::ReadFirstRunConfirmed => "confirmed?".into(),
        SeedStep::CheckFreshInstall(_) => "fresh?".into(),
        SeedStep::ShouldImportConfig(i, _) => format!("should {i}"),
        SeedStep::ImportDefaultConfig(i, _) => format!("import {i}"),
        SeedStep::InitOfficialProviders(_) => "official".into(),
        SeedStep::ShowWelcomeNotice => "welcome".into(),
        SeedStep::ImportOpenCodeLive => "opencode".into(),
        SeedStep::ImportOpenClawLive => "openclaw".into(),
        SeedStep::ImportHermesLive => "hermes".into(),
        SeedStep::ListProvidersForOmo => "list omo".into(),
        SeedStep::ImportOmo => "omo".into(),
        SeedStep::ListProvidersForOmoSlim => "list slim".into(),
        SeedStep::ImportOmoSlim => "slim".into(),
        SeedStep::CheckMcpEmpty => "mcp?".into(),
        SeedStep::ImportMcp(k) => format!("mcp {k}"),
        SeedStep::CheckPromptsEmpty => "prompts?".into(),
        SeedStep::ImportPrompts(k) => format!("prompts {k}"),
        SeedStep::Finished => "end".into(),
    }
}

/// Runs the import, answering each step with `answer`.
fn seed_run(apps: u64, answer: impl Fn(&SeedStep) -> SeedEvent) -> Vec<String> {
    let mut step = first_seed_step();
    let mut seen = vec![];
    for _ in 0..100 {
        seen.push(seed_label(&step));
        if matches!(step, SeedStep::Finished) {
            return seen;
        }
        let event = answer(&step);
        step = next_seed_step(&step, event, apps);
    }
    panic!("the import did not finish: {:?}", seen);
}

#[test]
fn fresh_install_imports_everything() {
    let seen = seed_run(2, |s| match s {
        SeedStep::ReadMigrationFlag => SeedEvent::Setting(Ok(Some("1".to_string()))),
        SeedStep::CheckInstalledSkills => SeedEvent::Answer(Ok(false)),
        SeedStep::MigrateSkills => SeedEvent::Migrated(Ok(3)),
        SeedStep::ReadFirstRunConfirmed => SeedEvent::Answer(Ok(false)),
        SeedStep::CheckFreshInstall(_) => SeedEvent::Answer(Ok(true)),
        SeedStep::ShouldImportConfig(..) => SeedEvent::Answer(Ok(true)),
        SeedStep::ListProvidersForOmo | SeedStep::ListProvidersForOmoSlim => {
            SeedEvent::Categories(Ok(vec![None]))
        }
        SeedStep::CheckMcpEmpty | SeedStep::CheckPromptsEmpty => SeedEvent::Answer(Ok(true)),
        _ => SeedEvent::Done,
    });
    let expected: Vec<&str> = vec![
        "repos", "flag", "installed?", "migrate", "record 3", "clear", "confirmed?", "fresh?",
        "should 0", "import 0", "should 1", "import 1", "official", "welcome", "opencode", "openclaw", "hermes", "list omo", "omo",
        "list slim", "slim", "mcp?", "mcp 0", "mcp 1", "mcp 2", "mcp 3", "mcp 4", "prompts?",
        "prompts 0", "prompts 1", "prompts 2", "prompts 3", "prompts 4", "prompts 5", "end",
    ];
    assert_eq!(seen, expected);
}

#[test]
fn populated_install_skips_the_imports() {
    let seen = seed_run(1, |s| match s {
        SeedStep::ReadMigrationFlag => SeedEvent::Setting(Ok(Some("false".to_string()))),
        SeedStep::ReadFirstRunConfirmed => SeedEvent::Answer(Ok(true)),
        SeedStep::CheckFreshInstall(_) => SeedEvent::Answer(Ok(true)),
        SeedStep::ShouldImportConfig(..) => SeedEvent::Answer(Err("db".to_string())),
        SeedStep::ListProvidersForOmo => SeedEvent::Categories(Ok(vec![Some("omo".to_string())])),
        SeedStep::ListProvidersForOmoSlim => {
            SeedEvent::Categories(Ok(vec![Some("omo-slim".to_string())]))
        }
        SeedStep::CheckMcpEmpty => SeedEvent::Answer(Ok(false)),
        SeedStep::CheckPromptsEmpty => SeedEvent::Answer(Err("db".to_string())),
        _ => SeedEvent::Done,
    });
    let expected: Vec<&str> = vec![
        "repos", "flag", "confirmed?", "fresh?", "should 0", "official", "opencode", "openclaw", "hermes", "list omo",
        "list slim", "mcp?", "prompts?", "end",
    ];
    assert_eq!(seen, expected);
}

#[test]
fn existing_skills_only_clear_the_flag() {
    let seen = seed_run(0, |s| match s {
        SeedStep::ReadMigrationFlag => SeedEvent::Setting(Ok(Some("true".to_string()))),
        SeedStep::CheckInstalledSkills => SeedEvent::Answer(Ok(true)),
        SeedStep::ListProvidersForOmo => SeedEvent::Categories(Err("db".to_string())),
        _ => SeedEvent::Done,
    });
    assert_eq!(
        &seen[..8],
        &["repos", "flag", "installed?", "clear", "confirmed?", "fresh?", "official", "opencode"]
    );
    assert!(seen.contains(&"omo".to_string()));
}

#[test]
fn failed_skill_migration_is_recorded() {
    let seen = seed_run(0, |s| match s {
        SeedStep::ReadMigrationFlag => SeedEvent::Setting(Ok(Some("true".to_string()))),
        SeedStep::MigrateSkills => SeedEvent::Migrated(Err("io".to_string())),
        _ => SeedEvent::Done,
    });
    assert_eq!(
        &seen[..8],
        &["repos", "flag", "installed?", "migrate", "error io", "confirmed?", "fresh?", "official"]
    );
    let zero = seed_run(0, |s| match s {
        SeedStep::ReadMigrationFlag => SeedEvent::Setting(Ok(Some("1".to_string()))),
        SeedStep::MigrateSkills => SeedEvent::Migrated(Ok(0)),
        _ => SeedEvent::Done,
    });
    assert_eq!(
        &zero[..8],
        &["repos", "flag", "installed?", "migrate", "clear", "confirmed?", "fresh?", "official"]
    );
}

#[test]
fn welcome_notice_needs_unconfirmed_fresh_install() {
    let notice = |confirmed: Result<bool, String>, fresh: Result<bool, String>| {
        let seen = seed_run(1, move |s| match s {
            SeedStep::ReadFirstRunConfirmed => SeedEvent::Answer(confirmed.clone()),
            SeedStep::CheckFreshInstall(_) => SeedEvent::Answer(fresh.clone()),
            SeedStep::ShouldImportConfig(..) => SeedEvent::Answer(Ok(true)),
            _ => SeedEvent::Done,
        });
        seen.contains(&"welcome".to_string())
    };
    assert!(notice(Ok(false), Ok(true)));
    assert!(notice(Err("unreadable".to_string()), Ok(true)));
    assert!(!notice(Ok(true), Ok(true)));
    assert!(!notice(Ok(false), Ok(false)));
    assert!(!notice(Ok(false), Err("db".to_string())));
}

#[test]
fn import_sources_are_in_order() {
    assert!(mcp_source_tool(0) == Tool::Claude);
    assert!(mcp_source_tool(4) == Tool::Hermes);
    assert!(prompt_source_tool(4) == Tool::OpenClaw);
    assert!(prompt_source_tool(5) == Tool::Hermes);
}

fn start_label(s: &StartStep) -> &'static str {
    match s {
        StartStep::CreateConfigDir => "dir",
        StartStep::CreateLogDir => "logdir",
        StartStep::InstallPanicHook => "hook",
        StartStep::InitLogging => "log",
        StartStep::InstallCryptoProvider => "tls",
        StartStep::ProbeFiles => "probe",
        StartStep::LoadLegacyConfig => "load",
        StartStep::OpenDatabase { migrate: false } => "db",
        StartStep::OpenDatabase { migrate: true } => "db+migrate",
        StartStep::MigrateLegacyConfig => "migrate",
        StartStep::MarkMigrationSuccess => "mark",
        StartStep::ArchiveLegacyConfig => "archive",
        StartStep::CreateState => "state",
        StartStep::SeedData => "seed",
        StartStep::InitSnippets => "snippets",
        StartStep::RestoreProxy => "proxy",
        StartStep::ReadGlobalProxyUrl => "read url",
        StartStep::InitHttpClient(Some(_)) => "client via proxy",
        StartStep::InitHttpClient(None) => "client",
        StartStep::ClearGlobalProxyUrl => "clear url",
        StartStep::InitDirectHttpClient => "direct client",
        StartStep::ReadLogConfig => "read log",
        StartStep::ApplyLogLevel(_) => "apply log",
        StartStep::Finished => "up",
        StartStep::Failed(_) => "failed",
    }
}

fn start_run(answer: impl Fn(&StartStep) -> StartEvent) -> (Vec<&'static str>, StartStep) {
    let mut step = first_start_step();
    let mut seen = vec![];
    for _ in 0..50 {
        seen.push(start_label(&step));
        if matches!(step, StartStep::Finished | StartStep::Failed(_)) {
            return (seen, step);
        }
        let event = answer(&step);
        step = next_start_step(step, event);
    }
    panic!("the start did not end: {:?}", seen);
}

#[test]
fn legacy_config_is_migrated_on_first_start() {
    let (seen, _) = start_run(|s| match s {
        StartStep::ProbeFiles => StartEvent::Files { has_db: false, has_json: true },
        StartStep::ReadGlobalProxyUrl => StartEvent::ProxyUrl(Ok(Some("http://p:1".to_string()))),
        StartStep::InitHttpClient(_) => StartEvent::Failed("bad proxy".to_string()),
        StartStep::ReadLogConfig => StartEvent::LogLevel(LogFilter::Debug),
        StartStep::ApplyLogLevel(level) => {
            assert!(*level == LogFilter::Debug);
            StartEvent::Done
        }
        _ => StartEvent::Done,
    });
    let expected: Vec<&str> = vec![
        "dir", "logdir", "hook", "log", "tls", "probe", "load", "db+migrate", "migrate", "mark",
        "archive", "state", "seed", "snippets", "proxy", "read url", "client via proxy",
        "clear url", "direct client", "read log", "apply log", "up",
    ];
    assert_eq!(seen, expected);
}

#[test]
fn existing_database_skips_the_migration() {
    let (seen, _) = start_run(|s| match s {
        StartStep::ProbeFiles => StartEvent::Files { has_db: true, has_json: true },
        StartStep::ReadGlobalProxyUrl => StartEvent::ProxyUrl(Err("db".to_string())),
        StartStep::InitHttpClient(_) => StartEvent::Failed("no network".to_string()),
        StartStep::ReadLogConfig => StartEvent::Failed("missing".to_string()),
        _ => StartEvent::Done,
    });
    let expected: Vec<&str> = vec![
        "dir", "logdir", "hook", "log", "tls", "probe", "db", "state", "seed", "snippets",
        "proxy", "read url", "client", "direct client", "read log", "up",
    ];
    assert_eq!(seen, expected);
}

#[test]
fn fatal_start_failures() {
    let (_, end) = start_run(|s| match s {
        StartStep::CreateConfigDir => StartEvent::Failed("permission denied".to_string()),
        _ => StartEvent::Done,
    });
    match end {
        StartStep::Failed(e) => {
            assert_eq!(config_message(&e), Some("创建配置目录失败: permission denied".to_string()))
        }
        _ => panic!("expected a failure"),
    }
    let (_, end) = start_run(|s| match s {
        StartStep::ProbeFiles => StartEvent::Files { has_db: false, has_json: true },
        StartStep::LoadLegacyConfig => StartEvent::Failed("bad json".to_string()),
        _ => StartEvent::Done,
    });
    match end {
        StartStep::Failed(e) => {
            assert_eq!(config_message(&e), Some("加载旧配置文件失败: bad json".to_string()))
        }
        _ => panic!("expected a failure"),
    }
    let (seen, end) = start_run(|s| match s {
        StartStep::OpenDatabase { .. } => StartEvent::Failed("locked".to_string()),
        _ => StartEvent::Done,
    });
    assert_eq!(seen.last(), Some(&"failed"));
    match end {
        StartStep::Failed(StartError::Database(m)) => assert_eq!(m, "locked"),
        _ => panic!("expected a database failure"),
    }
    assert_eq!(config_message(&StartError::Database("x".to_string())), None);
}

#[test]
fn event_bus_and_stream_settings() {
    assert_eq!(EVENT_BUS_CAPACITY, 100);
    assert_eq!(SSE_KEEP_ALIVE_SECS, 15);
}
