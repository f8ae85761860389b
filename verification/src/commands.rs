//! The commands for backups, import and export, and OMO configurations:
//! the storage work each asks for, which step follows its outcome, and what
//! the command answers; and the file dialogs, which a server does not have.

use vstd::prelude::*;
use vstd::string::*;
use crate::json::str_eq;
use crate::args::{result_view, opt_view};
use crate::reply::{json_quote, quote_json, json_ok, text_reply, ContentKind, Reply};

verus! {

/// The answer of every file dialog on a server.
pub open spec fn no_dialog() -> Seq<char> {
    "Server mode: file dialog is not available"@
}

/// Save-file dialog: not available on a server.
pub fn save_file_dialog(default_name: &str) -> (r: Result<Option<String>, String>)
    ensures
        match r {
            Ok(_) => false,
            Err(e) => e@ == no_dialog(),
        },
{
    Err(String::from_str("Server mode: file dialog is not available"))
}

/// Open-file dialog: not available on a server.
pub fn open_file_dialog() -> (r: Result<Option<String>, String>)
    ensures
        match r {
            Ok(_) => false,
            Err(e) => e@ == no_dialog(),
        },
{
    Err(String::from_str("Server mode: file dialog is not available"))
}

/// ZIP-file dialog: not available on a server.
pub fn open_zip_file_dialog() -> (r: Result<Option<String>, String>)
    ensures
        match r {
            Ok(_) => false,
            Err(e) => e@ == no_dialog(),
        },
{
    Err(String::from_str("Server mode: file dialog is not available"))
}

/// The answer to a command whose result is the error of a dialog.
pub(crate) fn dialog_failure(result: Result<Option<String>, String>) -> (r: Reply)
    requires
        result matches Err(e) && e@ == no_dialog(),
    ensures
        r.status == 500 && r.body@ == no_dialog() && r.content == ContentKind::Text,
{
    match result {
        Err(e) => json_ok(Err(text_reply(e))),
        Ok(_) => json_ok(Err(text_reply(String::from_str("Server mode: file dialog is not available")))),
    }
}

/// The outcome of work run on a blocking thread: the task itself may fail
/// (it panicked or was cancelled; its failure as text), or run and return
/// the work's own result.
pub open spec fn spec_settle<T>(task: Result<Result<T, String>, String>, context: Seq<char>) -> Result<
    T,
    Seq<char>,
> {
    match task {
        Err(failure) => Err(context + ": "@ + failure@),
        Ok(Err(e)) => Err(e@),
        Ok(Ok(v)) => Ok(v),
    }
}

/// Turns the outcome of blocking work into the command's result: a failed
/// task is reported as `<context>: <failure>`, a failed work as its own
/// message.
pub fn settle<T>(task: Result<Result<T, String>, String>, context: &str) -> (r: Result<T, String>)
    ensures
        match r {
            Ok(v) => spec_settle(task, context@) == Ok::<T, Seq<char>>(v),
            Err(e) => spec_settle(task, context@) == Err::<T, Seq<char>>(e@),
        },
{
    match task {
        Err(failure) => Err(String::from_str(context).concat(": ").concat(failure.as_str())),
        Ok(Err(e)) => Err(e),
        Ok(Ok(v)) => Ok(v),
    }
}

/// The JSON answer to a finished export.
pub open spec fn export_payload(file_path: Seq<char>) -> Seq<char> {
    "{\"success\":true,\"message\":\"SQL exported successfully\",\"filePath\":"@ + json_quote(
        file_path,
    ) + "}"@
}

/// Export of the database as SQL to `file_path`, given the outcome of the
/// export work: the JSON answer naming the file, or the failure.
pub fn export_config_to_file(file_path: &str, task: Result<Result<(), String>, String>) -> (r: Result<
    String,
    String,
>)
    ensures
        result_view(r) == match spec_settle(task, "导出配置失败"@) {
            Ok(_) => Ok::<Seq<char>, Seq<char>>(export_payload(file_path@)),
            Err(e) => Err::<Seq<char>, Seq<char>>(e),
        },
{
    match settle(task, "导出配置失败") {
        Ok(_) => Ok(
            String::from_str(
                "{\"success\":true,\"message\":\"SQL exported successfully\",\"filePath\":",
            ).concat(quote_json(file_path).as_str()).concat("}"),
        ),
        Err(e) => Err(e),
    }
}

/// What the import does once the SQL file was read in.
pub enum ImportStep {
    /// Bring the live configuration files in line with the imported data;
    /// the import made the backup with this id first.
    RunSync(String),
    /// The import failed: finish with this message.
    Fail(String),
}

/// Import of the database from an SQL file, given the outcome of reading
/// it in (the id of the backup made first, or the failure): on success the
/// live configuration is synchronised next; a failure ends the import
/// before any synchronisation.
pub fn import_config_from_file(imported: Result<String, String>) -> (r: ImportStep)
    ensures
        match imported {
            Ok(id) => r matches ImportStep::RunSync(x) && x@ == id@,
            Err(e) => r matches ImportStep::Fail(m) && m@ == e@,
        },
{
    match imported {
        Ok(id) => ImportStep::RunSync(id),
        Err(e) => ImportStep::Fail(e),
    }
}

/// A finished import: the id of the backup made before it, and the warning
/// of the synchronisation that followed, if it had one.
pub struct ImportSuccess {
    pub backup_id: String,
    pub warning: Option<String>,
}

/// The end of an import whose SQL was read in, given the warning that the
/// synchronisation after it left (none when it went well): the import has
/// succeeded whatever the synchronisation did.
pub fn finish_import(backup_id: String, warning: Option<String>) -> (r: Result<ImportSuccess, String>)
    ensures
        r matches Ok(done) && done.backup_id@ == backup_id@ && opt_view(done.warning) == opt_view(warning),
{
    Ok(ImportSuccess { backup_id, warning })
}

/// The result of the import command, given the outcome of the blocking
/// work that ran it (see `settle`).
pub fn settle_import(task: Result<Result<ImportSuccess, String>, String>) -> (r: Result<ImportSuccess, String>)
    ensures
        match r {
            Ok(v) => spec_settle(task, "导入配置失败"@) == Ok::<ImportSuccess, Seq<char>>(v),
            Err(e) => spec_settle(task, "导入配置失败"@) == Err::<ImportSuccess, Seq<char>>(e@),
        },
{
    settle(task, "导入配置失败")
}

/// The JSON answer to a finished synchronisation.
pub open spec fn sync_payload() -> Seq<char> {
    "{\"success\":true,\"message\":\"Live configuration synchronized\"}"@
}

/// Writing the current providers back to the live configuration files,
/// given the outcome of that work.
pub fn sync_current_providers_live(task: Result<Result<(), String>, String>) -> (r: Result<String, String>)
    ensures
        result_view(r) == match spec_settle(task, "同步当前供应商失败"@) {
            Ok(_) => Ok::<Seq<char>, Seq<char>>(sync_payload()),
            Err(e) => Err::<Seq<char>, Seq<char>>(e),
        },
{
    match settle(task, "同步当前供应商失败") {
        Ok(_) => Ok(String::from_str("{\"success\":true,\"message\":\"Live configuration synchronized\"}")),
        Err(e) => Err(e),
    }
}

/// The last component of a path, if it has one (`Path::file_name`).
pub uninterp spec fn final_component(path: Seq<char>) -> Option<Seq<char>>;

/// The position of the last `/` of a path, or -1 when it has none.
pub open spec fn last_slash(path: Seq<char>) -> int
    decreases path.len(),
{
    if path.len() == 0 {
        -1
    } else if path.last() == '/' {
        path.len() - 1
    } else {
        last_slash(path.drop_last())
    }
}

/// The last `/` of a path lies inside it.
pub proof fn lemma_last_slash(path: Seq<char>)
    ensures
        -1 <= last_slash(path) < path.len(),
    decreases path.len(),
{
    if path.len() > 0 && path.last() != '/' {
        lemma_last_slash(path.drop_last());
    }
}

/// The file name of a path written with `/` between its parts: the last of
/// its `/`-separated pieces that is neither empty nor `.`, unless that
/// piece is `..`; none when no such piece is left.
pub open spec fn slash_file_name(path: Seq<char>) -> Option<Seq<char>>
    decreases path.len(),
{
    let k = last_slash(path);
    let piece = path.subrange(k + 1, path.len() as int);
    if piece.len() == 0 || piece == seq!['.'] {
        if k < 0 {
            None
        } else {
            proof {
                lemma_last_slash(path);
            }
            slash_file_name(path.subrange(0, k))
        }
    } else if piece == seq!['.', '.'] {
        None
    } else {
        Some(piece)
    }
}

/// A path that every platform splits at `/` alone: it holds no `\` and no
/// `:` (which mark other separators and drive prefixes) and does not start
/// with two separators (a network share).
pub open spec fn plain_path(path: Seq<char>) -> bool {
    &&& forall|i: int| 0 <= i < path.len() ==> path[i] != '\\' && path[i] != ':'
    &&& !(path.len() >= 2 && path[0] == '/' && path[1] == '/')
}

/// The last component of a path (`std::path::Path::file_name`): for a
/// plain path (see `plain_path`) it is `slash_file_name`, as the
/// documentation of `Path::components` and `Path::file_name` describes it
/// (repeated and trailing separators and `.` parts are skipped, and a path
/// ending in `..` has none). Other paths are parsed by the platform's own
/// rules (drive and network prefixes, `\` separators on Windows), which
/// are left to the name `final_component`.
#[verifier::external_body]
pub(crate) fn file_name(path: &str) -> (r: Option<String>)
    ensures
        opt_view(r) == final_component(path@),
        plain_path(path@) ==> opt_view(r) == slash_file_name(path@),
{
    match std::path::Path::new(path).file_name() {
        Some(f) => Some(f.to_string_lossy().into_owned()),
        None => None,
    }
}

/// The file name of a backup's path: `slash_file_name` for a plain path,
/// the platform's own parsing otherwise.
pub open spec fn backup_name(path: Seq<char>) -> Option<Seq<char>> {
    if plain_path(path) {
        slash_file_name(path)
    } else {
        final_component(path)
    }
}

/// The file name of a backup, or the empty text when its path has none.
pub fn name_or_empty(name: Option<String>) -> (r: String)
    ensures
        r@ == match name {
            Some(n) => n@,
            None => Seq::empty(),
        },
{
    match name {
        Some(n) => n,
        None => String::new(),
    }
}

/// The message of the error a manual backup reports when there is no
/// database file to back up.
pub open spec fn missing_database() -> Seq<char> {
    "Database file not found, backup skipped"@
}

/// Why a manual backup failed.
pub enum BackupError {
    /// A configuration error of the application, with its message.
    Config(String),
    /// Any other failure, as text.
    Failed(String),
}

/// The abstract value of a backup failure: a configuration error, or a
/// failure as text.
pub open spec fn backup_error_view(r: Result<String, BackupError>) -> Result<Seq<char>, (bool, Seq<char>)> {
    match r {
        Ok(s) => Ok(s@),
        Err(BackupError::Config(m)) => Err((true, m@)),
        Err(BackupError::Failed(m)) => Err((false, m@)),
    }
}

/// A manual backup of the database file, given the outcome of the backup
/// work (the path of the backup made, or none when there is no database
/// file). The result is the backup's file name (empty if its path has
/// none); with no database file it is the configuration error
/// `missing_database()`.
pub fn create_db_backup(task: Result<Result<Option<String>, String>, String>) -> (r: Result<String, BackupError>)
    ensures
        backup_error_view(r) == match spec_settle(task, "Backup failed"@) {
            Ok(Some(path)) => Ok::<Seq<char>, (bool, Seq<char>)>(
                match backup_name(path@) {
                    Some(name) => name,
                    None => Seq::empty(),
                },
            ),
            Ok(None) => Err::<Seq<char>, (bool, Seq<char>)>((true, missing_database())),
            Err(e) => Err::<Seq<char>, (bool, Seq<char>)>((false, e)),
        },
{
    match settle(task, "Backup failed") {
        Ok(Some(path)) => Ok(name_or_empty(file_name(path.as_str()))),
        Ok(None) => Err(BackupError::Config(String::from_str("Database file not found, backup skipped"))),
        Err(e) => Err(BackupError::Failed(e)),
    }
}

/// Restoring the database from a backup file, given the outcome of the
/// restore work.
pub fn restore_db_backup(task: Result<Result<String, String>, String>) -> (r: Result<String, String>)
    ensures
        match r {
            Ok(v) => spec_settle(task, "Restore failed"@) == Ok::<String, Seq<char>>(v),
            Err(e) => spec_settle(task, "Restore failed"@) == Err::<String, Seq<char>>(e@),
        },
{
    settle(task, "Restore failed")
}

/// The list of database backups: the answer of `list`, the database
/// layer's listing (its error as text), as it came.
pub fn list_db_backups<T, F>(list: F) -> (r: Result<Vec<T>, String>) where
    F: FnOnce() -> Result<Vec<T>, String>,

    requires
        call_requires(list, ()),
    ensures
        call_ensures(list, (), r),
{
    list()
}

/// Renaming a database backup: `rename`, the database layer's rename (its
/// error as text), is asked once, with the old file name first and the new
/// name second; its answer (the new file name, or the error) is the
/// command's result.
pub fn rename_db_backup<F>(old_filename: String, new_name: String, rename: F) -> (r: Result<String, String>) where
    F: FnOnce(String, String) -> Result<String, String>,

    requires
        call_requires(rename, (old_filename, new_name)),
    ensures
        call_ensures(rename, (old_filename, new_name), r),
{
    rename(old_filename, new_name)
}

/// Deleting a database backup: `delete`, the database layer's deletion
/// (its error as text), is asked once, for `filename`; its answer is the
/// command's result.
pub fn delete_db_backup<F>(filename: String, delete: F) -> (r: Result<(), String>) where
    F: FnOnce(String) -> Result<(), String>,

    requires
        call_requires(delete, (filename,)),
    ensures
        call_ensures(delete, (filename,), r),
{
    delete(filename)
}

/// The id of the current provider, or the empty text when there is none.
pub open spec fn id_or_empty(current: Result<Option<String>, String>) -> Result<Seq<char>, Seq<char>> {
    match current {
        Ok(Some(id)) => Ok(id@),
        Ok(None) => Ok(Seq::empty()),
        Err(e) => Err(e@),
    }
}

/// The two OMO configurations of OpenCode.
#[derive(Clone, Copy, PartialEq, Eq, Structural)]
pub enum OmoVariant {
    Standard,
    Slim,
}

/// The app whose providers carry the OMO configurations.
pub open spec fn omo_app() -> Seq<char> {
    "opencode"@
}

/// The provider category of an OMO configuration.
pub open spec fn omo_category(variant: OmoVariant) -> Seq<char> {
    match variant {
        OmoVariant::Standard => "omo"@,
        OmoVariant::Slim => "omo-slim"@,
    }
}

/// The app whose providers carry the OMO configurations.
pub fn omo_app_name() -> (r: &'static str)
    ensures
        r@ == omo_app(),
{
    "opencode"
}

/// The provider category of an OMO configuration.
pub fn omo_category_name(variant: OmoVariant) -> (r: &'static str)
    ensures
        r@ == omo_category(variant),
{
    match variant {
        OmoVariant::Standard => "omo",
        OmoVariant::Slim => "omo-slim",
    }
}

/// The id of the current OMO provider of OpenCode, as `lookup` (the
/// database's query of the current provider of an app and a category)
/// reports it for the app `opencode` and the category `omo`: the id, the
/// empty text when there is none, or the error.
pub fn get_current_omo_provider_id<F>(lookup: F) -> (r: Result<String, String>) where
    F: Fn(&str, &str) -> Result<Option<String>, String>,

    requires
        forall|app: &str, category: &str| call_requires(lookup, (app, category)),
    ensures
        exists|current: Result<Option<String>, String>|
            call_ensures(lookup, ("opencode", "omo"), current) && result_view(r) == id_or_empty(current),
{
    let current = lookup("opencode", "omo");
    current_id(current)
}

/// The id of the current OMO Slim provider of OpenCode, as `lookup`
/// reports it for the app `opencode` and the category `omo-slim`.
pub fn get_current_omo_slim_provider_id<F>(lookup: F) -> (r: Result<String, String>) where
    F: Fn(&str, &str) -> Result<Option<String>, String>,

    requires
        forall|app: &str, category: &str| call_requires(lookup, (app, category)),
    ensures
        exists|current: Result<Option<String>, String>|
            call_ensures(lookup, ("opencode", "omo-slim"), current) && result_view(r) == id_or_empty(
                current,
            ),
{
    let current = lookup("opencode", "omo-slim");
    current_id(current)
}

/// The id of a current provider, or the empty text when there is none.
pub fn current_id(current: Result<Option<String>, String>) -> (r: Result<String, String>)
    ensures
        result_view(r) == id_or_empty(current),
{
    match current {
        Ok(Some(id)) => Ok(id),
        Ok(None) => Ok(String::new()),
        Err(e) => Err(e),
    }
}

/// The ids of the providers whose category is `category`, in order.
pub open spec fn ids_in_category(providers: Seq<(String, Option<String>)>, category: Seq<char>) -> Seq<Seq<char>>
    decreases providers.len(),
{
    if providers.len() == 0 {
        Seq::empty()
    } else {
        let rest = ids_in_category(providers.drop_last(), category);
        let last = providers.last();
        match last.1 {
            Some(c) => if c@ == category {
                rest.push(last.0@)
            } else {
                rest
            },
            None => rest,
        }
    }
}

/// The ids of the providers whose category is `category`, in order.
pub fn select_category(providers: &Vec<(String, Option<String>)>, category: &str) -> (r: Vec<String>)
    ensures
        r@.map_values(|s: String| s@) == ids_in_category(providers@, category@),
{
    let n = providers.len();
    let mut out: Vec<String> = Vec::new();
    let mut i: usize = 0;
    assert(providers@.take(0) =~= Seq::<(String, Option<String>)>::empty());
    assert(out@.map_values(|s: String| s@) =~= Seq::<Seq<char>>::empty());
    while i < n
        invariant
            n == providers@.len(),
            0 <= i <= n,
            out@.map_values(|s: String| s@) == ids_in_category(providers@.take(i as int), category@),
        decreases n - i,
    {
        assert(providers@.take(i + 1).drop_last() =~= providers@.take(i as int));
        assert(providers@.take(i + 1).last() == providers@[i as int]);
        let ghost before = out@;
        match &providers[i].1 {
            Some(c) => {
                if str_eq(c.as_str(), category) {
                    out.push(providers[i].0.clone());
                    assert(out@.map_values(|s: String| s@) =~= before.map_values(|s: String| s@).push(
                        providers@[i as int].0@,
                    ));
                }
            },
            None => {},
        }
        i = i + 1;
    }
    assert(providers@.take(n as int) =~= providers@);
    out
}

/// A step of turning an OMO configuration off, after OpenCode's providers
/// were listed.
pub enum OmoStep {
    /// Clear the current mark of the provider `id` of `app` in `category`.
    Clear { app: String, id: String, category: String },
    /// Delete the configuration file of the variant.
    DeleteConfigFile(OmoVariant),
    /// The command is over, with this result.
    Finished(Result<(), String>),
}

/// The abstract value of a step.
pub enum OmoStepModel {
    Clear { app: Seq<char>, id: Seq<char>, category: Seq<char> },
    DeleteConfigFile(OmoVariant),
    Finished(Result<(), Seq<char>>),
}

/// The abstract value of a step.
pub open spec fn omo_step_view(s: OmoStep) -> OmoStepModel {
    match s {
        OmoStep::Clear { app, id, category } => OmoStepModel::Clear { app: app@, id: id@, category: category@ },
        OmoStep::DeleteConfigFile(v) => OmoStepModel::DeleteConfigFile(v),
        OmoStep::Finished(Ok(())) => OmoStepModel::Finished(Ok(())),
        OmoStep::Finished(Err(e)) => OmoStepModel::Finished(Err(e@)),
    }
}

/// A run of turning an OMO configuration off: the variant, and the ids of
/// the providers of its category, whose current marks are cleared in order.
pub struct OmoRun {
    pub variant: OmoVariant,
    pub ids: Vec<String>,
}

/// The ids of a run.
pub open spec fn run_ids(run: OmoRun) -> Seq<Seq<char>> {
    run.ids@.map_values(|s: String| s@)
}

/// The k-th step of a run in which every step succeeds: the clears, one
/// per id in order, then the deletion of the configuration file, then the
/// end with success.
pub open spec fn omo_plan_step(variant: OmoVariant, ids: Seq<Seq<char>>, k: int) -> OmoStepModel {
    if k < ids.len() {
        OmoStepModel::Clear { app: omo_app(), id: ids[k], category: omo_category(variant) }
    } else if k == ids.len() {
        OmoStepModel::DeleteConfigFile(variant)
    } else {
        OmoStepModel::Finished(Ok(()))
    }
}

/// The step after the step at position `done` of a run, given its outcome:
/// a failure ends the command with its message; a success goes on with the
/// next step of the plan.
pub open spec fn spec_next_omo_step(
    variant: OmoVariant,
    ids: Seq<Seq<char>>,
    done: int,
    outcome: Result<(), Seq<char>>,
) -> OmoStepModel {
    match outcome {
        Err(e) => OmoStepModel::Finished(Err(e)),
        Ok(()) => omo_plan_step(variant, ids, done + 1),
    }
}

/// The step at position `k` of the plan of a run.
fn omo_step_at(run: &OmoRun, k: usize) -> (r: OmoStep)
    requires
        k <= run.ids@.len() + 1,
    ensures
        omo_step_view(r) == omo_plan_step(run.variant, run_ids(*run), k as int),
{
    if k < run.ids.len() {
        OmoStep::Clear {
            app: String::from_str("opencode"),
            id: run.ids[k].clone(),
            category: String::from_str(omo_category_name(run.variant)),
        }
    } else if k == run.ids.len() {
        OmoStep::DeleteConfigFile(run.variant)
    } else {
        OmoStep::Finished(Ok(()))
    }
}

/// Starts turning an OMO configuration off, given the listing of
/// OpenCode's providers (id and category of each, or the failure to list
/// them): the run, with the providers of the variant's category, and its
/// first step. A failed listing ends the command with its message.
pub fn start_disable_omo(variant: OmoVariant, listing: Result<Vec<(String, Option<String>)>, String>) -> (r: (
    OmoRun,
    OmoStep,
))
    ensures
        r.0.variant == variant,
        match listing {
            Ok(ps) => run_ids(r.0) == ids_in_category(ps@, omo_category(variant)) && omo_step_view(r.1)
                == omo_plan_step(variant, run_ids(r.0), 0),
            Err(e) => omo_step_view(r.1) == OmoStepModel::Finished(Err(e@)),
        },
{
    match listing {
        Ok(ps) => {
            let run = OmoRun { variant, ids: select_category(&ps, omo_category_name(variant)) };
            let step = omo_step_at(&run, 0);
            (run, step)
        },
        Err(e) => (OmoRun { variant, ids: Vec::new() }, OmoStep::Finished(Err(e))),
    }
}

/// Turning OMO off for OpenCode, given the listing of OpenCode's providers:
/// the current marks of the providers of category `omo` are cleared in
/// order, then the OMO configuration file is deleted (see `next_omo_step`).
pub fn disable_current_omo(listing: Result<Vec<(String, Option<String>)>, String>) -> (r: (OmoRun, OmoStep))
    ensures
        r.0.variant == OmoVariant::Standard,
        match listing {
            Ok(ps) => run_ids(r.0) == ids_in_category(ps@, "omo"@) && omo_step_view(r.1) == omo_plan_step(
                OmoVariant::Standard,
                run_ids(r.0),
                0,
            ),
            Err(e) => omo_step_view(r.1) == OmoStepModel::Finished(Err(e@)),
        },
{
    start_disable_omo(OmoVariant::Standard, listing)
}

/// Turning OMO Slim off for OpenCode, given the listing of OpenCode's
/// providers: the current marks of the providers of category `omo-slim` are
/// cleared in order, then the OMO Slim configuration file is deleted.
pub fn disable_current_omo_slim(listing: Result<Vec<(String, Option<String>)>, String>) -> (r: (OmoRun, OmoStep))
    ensures
        r.0.variant == OmoVariant::Slim,
        match listing {
            Ok(ps) => run_ids(r.0) == ids_in_category(ps@, "omo-slim"@) && omo_step_view(r.1)
                == omo_plan_step(OmoVariant::Slim, run_ids(r.0), 0),
            Err(e) => omo_step_view(r.1) == OmoStepModel::Finished(Err(e@)),
        },
{
    start_disable_omo(OmoVariant::Slim, listing)
}

/// The step after the step at position `done` of a run (0 for the first
/// clear, the number of ids for the deletion of the file), given its
/// outcome.
pub fn next_omo_step(run: &OmoRun, done: usize, outcome: Result<(), String>) -> (r: OmoStep)
    requires
        done <= run.ids@.len(),
    ensures
        omo_step_view(r) == spec_next_omo_step(
            run.variant,
            run_ids(*run),
            done as int,
            match outcome {
                Ok(()) => Ok::<(), Seq<char>>(()),
                Err(e) => Err::<(), Seq<char>>(e@),
            },
        ),
{
    match outcome {
        Err(e) => OmoStep::Finished(Err(e)),
        Ok(()) => {
            if done < run.ids.len() {
                omo_step_at(run, done + 1)
            } else {
                OmoStep::Finished(Ok(()))
            }
        },
    }
}

/// When every step goes well, a run clears the current mark of each of its
/// providers once, in order, in the variant's own category, then deletes
/// the variant's configuration file, and then ends with success.
pub proof fn omo_run_clears_then_deletes(variant: OmoVariant, ids: Seq<Seq<char>>)
    ensures
        forall|k: int|
            0 <= k < ids.len() ==> #[trigger] omo_plan_step(variant, ids, k) == (OmoStepModel::Clear {
                app: omo_app(),
                id: ids[k],
                category: omo_category(variant),
            }),
        forall|k: int|
            0 <= k < ids.len() ==> #[trigger] spec_next_omo_step(variant, ids, k, Ok(())) == omo_plan_step(
                variant,
                ids,
                k + 1,
            ),
        spec_next_omo_step(variant, ids, ids.len() - 1, Ok(())) == OmoStepModel::DeleteConfigFile(
            variant,
        ),
        spec_next_omo_step(variant, ids, ids.len() as int, Ok(())) == OmoStepModel::Finished(
            Ok::<(), Seq<char>>(()),
        ),
{
}

/// A failed step ends the run with the step's message: after a failed
/// clear nothing else is cleared and the configuration file is kept.
pub proof fn omo_failure_keeps_file(variant: OmoVariant, ids: Seq<Seq<char>>, done: int, e: Seq<char>)
    requires
        0 <= done <= ids.len(),
    ensures
        spec_next_omo_step(variant, ids, done, Err(e)) == OmoStepModel::Finished(Err::<(), Seq<char>>(e)),
{
}

/// Turning OMO off touches OpenCode's providers of the variant's own
/// category only: `omo` for OMO and `omo-slim` for OMO Slim, never the
/// other's, and each deletes its own configuration file.
pub proof fn omo_variants_keep_to_their_own_category(variant: OmoVariant, ids: Seq<Seq<char>>, k: int)
    requires
        0 <= k < ids.len(),
    ensures
        omo_plan_step(variant, ids, k) == (OmoStepModel::Clear {
            app: "opencode"@,
            id: ids[k],
            category: if variant == OmoVariant::Standard {
                "omo"@
            } else {
                "omo-slim"@
            },
        }),
        omo_plan_step(variant, ids, ids.len() as int) == OmoStepModel::DeleteConfigFile(variant),
        omo_category(OmoVariant::Standard) != omo_category(OmoVariant::Slim),
{
    reveal_strlit("omo");
    reveal_strlit("omo-slim");
    assert("omo"@.len() != "omo-slim"@.len());
}

/// Blocking work that could not finish (it panicked or was cancelled) is
/// reported as `<context>: <failure>`; work that finished gives its own
/// result unchanged, its error included.
pub proof fn settled_work_keeps_its_outcome<T>(work: Result<T, String>, context: Seq<char>, failure: String)
    ensures
        spec_settle(Err::<Result<T, String>, String>(failure), context) == Err::<T, Seq<char>>(
            context + ": "@ + failure@,
        ),
        spec_settle(Ok::<Result<T, String>, String>(work), context) == match work {
            Ok(v) => Ok::<T, Seq<char>>(v),
            Err(e) => Err::<T, Seq<char>>(e@),
        },
{
}

} // verus!
