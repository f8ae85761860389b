use cc_switch::commands::{
    create_db_backup, current_id, delete_db_backup, disable_current_omo,
    disable_current_omo_slim, export_config_to_file, finish_import, get_current_omo_provider_id,
    get_current_omo_slim_provider_id, import_config_from_file, list_db_backups, name_or_empty,
    next_omo_step, omo_app_name, omo_category_name, open_file_dialog, open_zip_file_dialog,
    rename_db_backup, restore_db_backup, save_file_dialog, select_category, settle, settle_import,
    sync_current_providers_live, BackupError, ImportStep, OmoRun, OmoStep,
    OmoVariant,
};
use cc_switch::logging::{
    enabled, level_name, log_line, log_time_format, record_line, LogFilter, LogLevel,
};
use cc_switch::reply::ContentKind;
use cc_switch::server::{index_reply, listen_address, sse_event};

const NO_DIALOG: &str = "Server mode: file dialog is not available";

#[test]
fn file_dialogs_are_not_available() {
    assert_eq!(save_file_dialog("backup.sql"), Err(NO_DIALOG.to_string()));
    assert_eq!(open_file_dialog(), Err(NO_DIALOG.to_string()));
    assert_eq!(open_zip_file_dialog(), Err(NO_DIALOG.to_string()));
}

#[test]
fn settle_reports_task_and_work_failures() {
    let failed_task: Result<Result<u8, String>, String> = Err("task 3 panicked".to_string());
    assert_eq!(settle(failed_task, "Backup failed"), Err("Backup failed: task 3 panicked".to_string()));
    assert_eq!(settle(Ok(Err::<u8, String>("disk full".to_string())), "Backup failed"), Err("disk full".to_string()));
    assert_eq!(settle(Ok(Ok::<u8, String>(7)), "Backup failed"), Ok(7));
}

#[test]
fn export_answers_with_the_file_path() {
    assert_eq!(
        export_config_to_file("/tmp/a \"b\".sql", Ok(Ok(()))),
        Ok("{\"success\":true,\"message\":\"SQL exported successfully\",\"filePath\":\"/tmp/a \\\"b\\\".sql\"}".to_string())
    );
    assert_eq!(
        export_config_to_file("/tmp/a.sql", Err("cancelled".to_string())),
        Err("导出配置失败: cancelled".to_string())
    );
    assert_eq!(
        export_config_to_file("/tmp/a.sql", Ok(Err("no such file".to_string()))),
        Err("no such file".to_string())
    );
}

#[test]
fn import_and_sync_report_their_failures() {
    assert!(matches!(
        import_config_from_file(Err("bad sql".to_string())),
        ImportStep::Fail(m) if m == "bad sql"
    ));
    assert!(matches!(
        import_config_from_file(Ok("backup_7".to_string())),
        ImportStep::RunSync(id) if id == "backup_7"
    ));
    let done = finish_import("backup_7".to_string(), Some("sync failed".to_string())).unwrap();
    assert_eq!(done.backup_id, "backup_7");
    assert_eq!(done.warning, Some("sync failed".to_string()));
    let quiet = finish_import("b".to_string(), None).unwrap();
    assert_eq!(quiet.warning, None);
    assert_eq!(
        settle_import(Err("cancelled".to_string())).err(),
        Some("导入配置失败: cancelled".to_string())
    );
    assert_eq!(settle_import(Ok(Err("io".to_string()))).err(), Some("io".to_string()));
    assert_eq!(
        sync_current_providers_live(Ok(Ok(()))),
        Ok("{\"success\":true,\"message\":\"Live configuration synchronized\"}".to_string())
    );
    assert_eq!(
        sync_current_providers_live(Err("x".to_string())),
        Err("同步当前供应商失败: x".to_string())
    );
    assert_eq!(restore_db_backup(Err("x".to_string())), Err("Restore failed: x".to_string()));
    assert_eq!(restore_db_backup(Ok(Ok("b.db".to_string()))), Ok("b.db".to_string()));
}

#[test]
fn backup_answers_with_the_file_name() {
    assert!(matches!(
        create_db_backup(Ok(Ok(Some("/home/u/.cc-switch/backups/db_1.db".to_string())))),
        Ok(name) if name == "db_1.db"
    ));
    assert!(matches!(create_db_backup(Ok(Ok(Some("/".to_string())))), Ok(name) if name.is_empty()));
    assert!(matches!(
        create_db_backup(Ok(Ok(None))),
        Err(BackupError::Config(m)) if m == "Database file not found, backup skipped"
    ));
    assert!(matches!(
        create_db_backup(Err("join".to_string())),
        Err(BackupError::Failed(m)) if m == "Backup failed: join"
    ));
    assert!(matches!(
        create_db_backup(Ok(Err("locked".to_string()))),
        Err(BackupError::Failed(m)) if m == "locked"
    ));
}

#[test]
fn backup_listing_rename_and_delete_answer_as_the_database_layer() {
    assert_eq!(list_db_backups(|| Ok(vec![1u8, 2])), Ok(vec![1u8, 2]));
    assert_eq!(list_db_backups(|| Err::<Vec<u8>, String>("e".to_string())), Err("e".to_string()));
    let asked = std::cell::RefCell::new(Vec::new());
    let renamed = rename_db_backup("old.db".to_string(), "new".to_string(), |old, new| {
        asked.borrow_mut().push(format!("{old} -> {new}"));
        Ok(format!("{new}.db"))
    });
    assert_eq!(renamed, Ok("new.db".to_string()));
    assert_eq!(
        rename_db_backup("a.db".to_string(), "b".to_string(), |_, _| Err("exists".to_string())),
        Err("exists".to_string())
    );
    assert_eq!(
        delete_db_backup("gone.db".to_string(), |f| {
            asked.borrow_mut().push(format!("delete {f}"));
            Ok(())
        }),
        Ok(())
    );
    assert_eq!(
        delete_db_backup("x.db".to_string(), |_| Err("missing".to_string())),
        Err("missing".to_string())
    );
    assert_eq!(*asked.borrow(), vec!["old.db -> new".to_string(), "delete gone.db".to_string()]);
}

#[test]
fn backup_names_of_plain_paths() {
    let name = |path: &str| match create_db_backup(Ok(Ok(Some(path.to_string())))) {
        Ok(n) => n,
        Err(_) => panic!("a backup path has a name or none"),
    };
    assert_eq!(name("/var/lib/cc/backups/db_2.db"), "db_2.db");
    assert_eq!(name("a/b/"), "b");
    assert_eq!(name("a//b"), "b");
    assert_eq!(name("foo.txt/."), "foo.txt");
    assert_eq!(name("./x"), "x");
    assert_eq!(name("x"), "x");
    assert_eq!(name("a/.."), "");
    assert_eq!(name("."), "");
    assert_eq!(name("./"), "");
    assert_eq!(name(""), "");
}

#[test]
fn current_omo_provider_id_defaults_to_empty() {
    let db = |app: &str, category: &str| -> Result<Option<String>, String> {
        match (app, category) {
            ("opencode", "omo") => Ok(Some("p1".to_string())),
            ("opencode", "omo-slim") => Ok(None),
            _ => Err(format!("unexpected query {app}/{category}")),
        }
    };
    assert_eq!(get_current_omo_provider_id(db), Ok("p1".to_string()));
    assert_eq!(get_current_omo_slim_provider_id(db), Ok(String::new()));
    let failing = |_: &str, _: &str| -> Result<Option<String>, String> { Err("db".to_string()) };
    assert_eq!(get_current_omo_slim_provider_id(failing), Err("db".to_string()));
    assert_eq!(current_id(Ok(Some("x".to_string()))), Ok("x".to_string()));
}

fn omo_label(step: &OmoStep) -> String {
    match step {
        OmoStep::Clear { app, id, category } => format!("clear {app}/{id}/{category}"),
        OmoStep::DeleteConfigFile(OmoVariant::Standard) => "delete omo".to_string(),
        OmoStep::DeleteConfigFile(OmoVariant::Slim) => "delete slim".to_string(),
        OmoStep::Finished(Ok(())) => "ok".to_string(),
        OmoStep::Finished(Err(e)) => format!("err {e}"),
    }
}

/// Runs a disabling to its end, failing the step at position `fail_at`.
fn omo_run(start: (OmoRun, OmoStep), fail_at: Option<usize>) -> Vec<String> {
    let (run, mut step) = start;
    let mut seen = vec![omo_label(&step)];
    let mut done = 0usize;
    while !matches!(step, OmoStep::Finished(_)) {
        let outcome = if fail_at == Some(done) { Err(format!("step {done} failed")) } else { Ok(()) };
        step = next_omo_step(&run, done, outcome);
        seen.push(omo_label(&step));
        done += 1;
    }
    seen
}

#[test]
fn disabling_omo_clears_providers_of_its_category_in_order() {
    let providers = vec![
        ("a".to_string(), Some("omo".to_string())),
        ("b".to_string(), None),
        ("c".to_string(), Some("omo-slim".to_string())),
        ("d".to_string(), Some("omo".to_string())),
        ("e".to_string(), Some("OMO".to_string())),
    ];
    assert_eq!(
        omo_run(disable_current_omo(Ok(providers.clone())), None),
        vec!["clear opencode/a/omo", "clear opencode/d/omo", "delete omo", "ok"]
    );
    assert_eq!(
        omo_run(disable_current_omo_slim(Ok(providers.clone())), None),
        vec!["clear opencode/c/omo-slim", "delete slim", "ok"]
    );
    assert_eq!(omo_run(disable_current_omo(Ok(vec![])), None), vec!["delete omo", "ok"]);
    assert_eq!(select_category(&providers, "omo"), vec!["a".to_string(), "d".to_string()]);
    assert_eq!(omo_app_name(), "opencode");
    assert_eq!(omo_category_name(OmoVariant::Slim), "omo-slim");
}

#[test]
fn failed_omo_step_ends_the_command_and_keeps_the_file() {
    let providers = vec![
        ("a".to_string(), Some("omo".to_string())),
        ("d".to_string(), Some("omo".to_string())),
    ];
    assert_eq!(
        omo_run(disable_current_omo(Ok(providers.clone())), Some(0)),
        vec!["clear opencode/a/omo", "err step 0 failed"]
    );
    assert_eq!(
        omo_run(disable_current_omo(Ok(providers.clone())), Some(2)),
        vec!["clear opencode/a/omo", "clear opencode/d/omo", "delete omo", "err step 2 failed"]
    );
    assert_eq!(omo_run(disable_current_omo_slim(Err("db".to_string())), None), vec!["err db"]);
}

#[test]
fn server_listens_on_loopback() {
    assert_eq!(listen_address(None), "127.0.0.1:10245");
    assert_eq!(listen_address(Some("9999".to_string())), "127.0.0.1:9999");
}

#[test]
fn front_page_or_503() {
    let page = index_reply(Some("<html></html>".to_string()));
    assert_eq!(page.status, 200);
    assert!(page.content == ContentKind::Html);
    assert_eq!(page.body, "<html></html>");
    let missing = index_reply(None);
    assert_eq!(missing.status, 503);
    assert_eq!(
        missing.body,
        "{\"error\":\"Frontend not built. Run `pnpm build:renderer` first.\"}"
    );
}

#[test]
fn lagged_events_are_dropped() {
    assert_eq!(
        sse_event(Ok(("provider-switched".to_string(), "{}".to_string()))),
        Some(("provider-switched".to_string(), "{}".to_string()))
    );
    assert_eq!(sse_event(Err("lagged 3".to_string())), None);
}

#[test]
fn level_filter_follows_verbosity() {
    assert!(enabled(LogLevel::Error, LogFilter::Error));
    assert!(!enabled(LogLevel::Warn, LogFilter::Error));
    assert!(!enabled(LogLevel::Error, LogFilter::Off));
    assert!(enabled(LogLevel::Trace, LogFilter::Trace));
    assert!(enabled(LogLevel::Info, LogFilter::Debug));
    assert_eq!(level_name(LogLevel::Warn), "WARN");
}

#[test]
fn log_lines_are_formatted() {
    assert_eq!(
        log_line("2026-05-20 10:00:00", LogLevel::Info, "cc_switch::init", "started"),
        "[2026-05-20 10:00:00 INFO cc_switch::init] started\n"
    );
    assert_eq!(record_line(LogLevel::Debug, LogFilter::Info, "2026-01-02 03:04:05", "t", "m"), None);
    assert_eq!(
        record_line(LogLevel::Error, LogFilter::Info, "2026-01-02 03:04:05", "t", "m"),
        Some("[2026-01-02 03:04:05 ERROR t] m\n".to_string())
    );
    assert_eq!(log_time_format(), "%Y-%m-%d %H:%M:%S");
}

#[test]
fn missing_file_name_becomes_empty() {
    assert_eq!(name_or_empty(Some("b.db".to_string())), "b.db");
    assert_eq!(name_or_empty(None), "");
}
