//! The first-start import of preset data (`import_seed_data`): which
//! storage step comes next, given the answer to the last one. The steps
//! themselves (database reads and writes, reading live configuration files)
//! are run by the caller; a failed step is only reported, so the import as a
//! whole never fails.

use vstd::prelude::*;
use crate::json::str_eq;

verus! {

/// The tools whose files the import reads.
#[derive(Clone, Copy, PartialEq, Eq, Structural)]
pub enum Tool {
    Claude,
    Codex,
    Gemini,
    OpenCode,
    OpenClaw,
    Hermes,
}

/// The tools whose MCP servers are imported, in order.
pub open spec fn mcp_source(k: nat) -> Tool {
    if k == 0 {
        Tool::Claude
    } else if k == 1 {
        Tool::Codex
    } else if k == 2 {
        Tool::Gemini
    } else if k == 3 {
        Tool::OpenCode
    } else {
        Tool::Hermes
    }
}

/// The number of MCP sources.
pub open spec fn mcp_sources() -> nat {
    5
}

/// The tools whose prompt files are imported, in order.
pub open spec fn prompt_source(k: nat) -> Tool {
    if k == 0 {
        Tool::Claude
    } else if k == 1 {
        Tool::Codex
    } else if k == 2 {
        Tool::Gemini
    } else if k == 3 {
        Tool::OpenCode
    } else if k == 4 {
        Tool::OpenClaw
    } else {
        Tool::Hermes
    }
}

/// The number of prompt sources.
pub open spec fn prompt_sources() -> nat {
    6
}

/// A step of the import; each names the work to do next.
pub enum SeedStep {
    /// Create the default skill repositories.
    InitSkillRepos,
    /// Read the setting `skills_ssot_migration_pending`.
    ReadMigrationFlag,
    /// Ask whether any skill is installed already.
    CheckInstalledSkills,
    /// Move the skills of the older layout into the single store.
    MigrateSkills,
    /// Record how many skills were moved.
    RecordSkillsMigration(u64),
    /// Record why moving the skills failed.
    RecordSkillsMigrationError(String),
    /// Set `skills_ssot_migration_pending` to `false`.
    ClearMigrationFlag,
    /// Read from the settings whether the first-run notice was confirmed.
    ReadFirstRunConfirmed,
    /// Ask whether there are no providers yet (a fresh install); the flag
    /// is the answer of the step before.
    CheckFreshInstall(bool),
    /// Ask whether the i-th tool of the startup list should take its live
    /// configuration as its default provider. The flag, here and in the
    /// next two steps, tells whether the first-run notice is due.
    ShouldImportConfig(u64, bool),
    /// Import the live configuration of the i-th tool of the startup list.
    ImportDefaultConfig(u64, bool),
    /// Add the official providers.
    InitOfficialProviders(bool),
    /// Announce that the first-run notice is to be shown.
    ShowWelcomeNotice,
    /// Import the providers found in OpenCode's live configuration.
    ImportOpenCodeLive,
    /// Import the providers found in OpenClaw's live configuration.
    ImportOpenClawLive,
    /// Import the providers found in Hermes's live configuration.
    ImportHermesLive,
    /// List OpenCode's providers to see whether one is an OMO provider.
    ListProvidersForOmo,
    /// Import the local OMO configuration as a provider.
    ImportOmo,
    /// List OpenCode's providers to see whether one is an OMO Slim provider.
    ListProvidersForOmoSlim,
    /// Import the local OMO Slim configuration as a provider.
    ImportOmoSlim,
    /// Ask whether the MCP table is empty.
    CheckMcpEmpty,
    /// Import the MCP servers of the k-th MCP source.
    ImportMcp(u64),
    /// Ask whether the prompts table is empty.
    CheckPromptsEmpty,
    /// Import the prompt file of the k-th prompt source.
    ImportPrompts(u64),
    /// Nothing is left to do.
    Finished,
}

/// The answer to a step.
pub enum SeedEvent {
    /// The step ran; its result, if any, is only reported.
    Done,
    /// The value of a setting, or the failure to read it.
    Setting(Result<Option<String>, String>),
    /// The answer to a yes/no question, or the failure to find it out.
    Answer(Result<bool, String>),
    /// The number of skills moved, or why moving them failed.
    Migrated(Result<u64, String>),
    /// The categories of OpenCode's providers, or the failure to list them.
    Categories(Result<Vec<Option<String>>, String>),
}

/// Whether a setting's value means "pending".
pub open spec fn is_pending_flag(value: Seq<char>) -> bool {
    value == "true"@ || value == "1"@
}

/// A yes/no answer, where a failure to find it out counts as no.
pub open spec fn answered_yes(e: SeedEvent) -> bool {
    match e {
        SeedEvent::Answer(Ok(b)) => b,
        _ => false,
    }
}

/// Whether a provider's category is `category`.
pub open spec fn is_category(c: Option<String>, category: Seq<char>) -> bool {
    match c {
        Some(x) => x@ == category,
        None => false,
    }
}

/// Whether one of the listed categories is `category`; a failure to list
/// counts as none.
pub open spec fn has_category(e: SeedEvent, category: Seq<char>) -> bool {
    match e {
        SeedEvent::Categories(Ok(cats)) => exists|i: int|
            0 <= i < cats@.len() && is_category(#[trigger] cats@[i], category),
        _ => false,
    }
}

/// The step after the first-run reads: the first tool of the startup
/// list, or the official providers when the list is empty.
pub open spec fn config_step(i: u64, apps: u64, welcome: bool) -> SeedStep {
    if i < apps {
        SeedStep::ShouldImportConfig(i, welcome)
    } else {
        SeedStep::InitOfficialProviders(welcome)
    }
}

/// The step that follows `step` when it is answered by `event`; `apps` is
/// the length of the startup list (the tools that take a single current
/// provider).
pub open spec fn spec_next_seed_step(step: SeedStep, event: SeedEvent, apps: u64) -> SeedStep {
    match step {
        SeedStep::InitSkillRepos => SeedStep::ReadMigrationFlag,
        SeedStep::ReadMigrationFlag => match event {
            SeedEvent::Setting(Ok(Some(v))) => if is_pending_flag(v@) {
                SeedStep::CheckInstalledSkills
            } else {
                SeedStep::ReadFirstRunConfirmed
            },
            _ => SeedStep::ReadFirstRunConfirmed,
        },
        SeedStep::CheckInstalledSkills => if answered_yes(event) {
            SeedStep::ClearMigrationFlag
        } else {
            SeedStep::MigrateSkills
        },
        SeedStep::MigrateSkills => match event {
            SeedEvent::Migrated(Ok(n)) => if n > 0 {
                SeedStep::RecordSkillsMigration(n)
            } else {
                SeedStep::ClearMigrationFlag
            },
            SeedEvent::Migrated(Err(e)) => SeedStep::RecordSkillsMigrationError(e),
            _ => SeedStep::ClearMigrationFlag,
        },
        SeedStep::RecordSkillsMigration(_) => SeedStep::ClearMigrationFlag,
        SeedStep::RecordSkillsMigrationError(_) => SeedStep::ReadFirstRunConfirmed,
        SeedStep::ClearMigrationFlag => SeedStep::ReadFirstRunConfirmed,
        SeedStep::ReadFirstRunConfirmed => SeedStep::CheckFreshInstall(answered_yes(event)),
        SeedStep::CheckFreshInstall(confirmed) => config_step(0, apps, !confirmed && answered_yes(event)),
        SeedStep::ShouldImportConfig(i, w) => if answered_yes(event) {
            SeedStep::ImportDefaultConfig(i, w)
        } else {
            config_step((i + 1) as u64, apps, w)
        },
        SeedStep::ImportDefaultConfig(i, w) => config_step((i + 1) as u64, apps, w),
        SeedStep::InitOfficialProviders(w) => if w {
            SeedStep::ShowWelcomeNotice
        } else {
            SeedStep::ImportOpenCodeLive
        },
        SeedStep::ShowWelcomeNotice => SeedStep::ImportOpenCodeLive,
        SeedStep::ImportOpenCodeLive => SeedStep::ImportOpenClawLive,
        SeedStep::ImportOpenClawLive => SeedStep::ImportHermesLive,
        SeedStep::ImportHermesLive => SeedStep::ListProvidersForOmo,
        SeedStep::ListProvidersForOmo => if has_category(event, "omo"@) {
            SeedStep::ListProvidersForOmoSlim
        } else {
            SeedStep::ImportOmo
        },
        SeedStep::ImportOmo => SeedStep::ListProvidersForOmoSlim,
        SeedStep::ListProvidersForOmoSlim => if has_category(event, "omo-slim"@) {
            SeedStep::CheckMcpEmpty
        } else {
            SeedStep::ImportOmoSlim
        },
        SeedStep::ImportOmoSlim => SeedStep::CheckMcpEmpty,
        SeedStep::CheckMcpEmpty => if answered_yes(event) {
            SeedStep::ImportMcp(0)
        } else {
            SeedStep::CheckPromptsEmpty
        },
        SeedStep::ImportMcp(k) => if k + 1 < mcp_sources() {
            SeedStep::ImportMcp((k + 1) as u64)
        } else {
            SeedStep::CheckPromptsEmpty
        },
        SeedStep::CheckPromptsEmpty => if answered_yes(event) {
            SeedStep::ImportPrompts(0)
        } else {
            SeedStep::Finished
        },
        SeedStep::ImportPrompts(k) => if k + 1 < prompt_sources() {
            SeedStep::ImportPrompts((k + 1) as u64)
        } else {
            SeedStep::Finished
        },
        SeedStep::Finished => SeedStep::Finished,
    }
}

/// Whether a step is one that a run can reach for a startup list of
/// `apps` tools (its counters are in range).
pub open spec fn seed_step_valid(step: SeedStep, apps: u64) -> bool {
    match step {
        SeedStep::ShouldImportConfig(i, _) => i < apps,
        SeedStep::ImportDefaultConfig(i, _) => i < apps,
        SeedStep::ImportMcp(k) => k < mcp_sources(),
        SeedStep::ImportPrompts(k) => k < prompt_sources(),
        _ => true,
    }
}

/// The first step of the import.
pub fn first_seed_step() -> (r: SeedStep)
    ensures
        r == SeedStep::InitSkillRepos,
{
    SeedStep::InitSkillRepos
}

/// Whether one of the listed categories is `category`.
fn contains_category(cats: &Vec<Option<String>>, category: &str) -> (r: bool)
    ensures
        r == exists|i: int| 0 <= i < cats@.len() && is_category(#[trigger] cats@[i], category@),
{
    let n = cats.len();
    let mut i: usize = 0;
    while i < n
        invariant
            n == cats@.len(),
            0 <= i <= n,
            forall|j: int| 0 <= j < i ==> !is_category(#[trigger] cats@[j], category@),
        decreases n - i,
    {
        match &cats[i] {
            Some(c) => {
                if str_eq(c.as_str(), category) {
                    assert(is_category(cats@[i as int], category@));
                    return true;
                }
            },
            None => {},
        }
        i = i + 1;
    }
    false
}

/// Whether an event answers yes.
fn is_yes(event: &SeedEvent) -> (r: bool)
    ensures
        r == answered_yes(*event),
{
    match event {
        SeedEvent::Answer(Ok(b)) => *b,
        _ => false,
    }
}

/// The step for the i-th tool of the startup list, or the official
/// providers after the last one.
fn next_config_step(i: u64, apps: u64, welcome: bool) -> (r: SeedStep)
    requires
        i <= apps,
    ensures
        r == config_step(i, apps, welcome),
{
    if i < apps {
        SeedStep::ShouldImportConfig(i, welcome)
    } else {
        SeedStep::InitOfficialProviders(welcome)
    }
}

/// The step that follows `step` when it is answered by `event`; `apps` is
/// the number of tools in the startup list.
pub fn next_seed_step(step: &SeedStep, event: SeedEvent, apps: u64) -> (r: SeedStep)
    requires
        seed_step_valid(*step, apps),
    ensures
        r == spec_next_seed_step(*step, event, apps),
        seed_step_valid(r, apps),
{
    match step {
        SeedStep::InitSkillRepos => SeedStep::ReadMigrationFlag,
        SeedStep::ReadMigrationFlag => match event {
            SeedEvent::Setting(Ok(Some(v))) => {
                if str_eq(v.as_str(), "true") || str_eq(v.as_str(), "1") {
                    SeedStep::CheckInstalledSkills
                } else {
                    SeedStep::ReadFirstRunConfirmed
                }
            },
            _ => SeedStep::ReadFirstRunConfirmed,
        },
        SeedStep::CheckInstalledSkills => {
            if is_yes(&event) {
                SeedStep::ClearMigrationFlag
            } else {
                SeedStep::MigrateSkills
            }
        },
        SeedStep::MigrateSkills => match event {
            SeedEvent::Migrated(Ok(n)) => {
                if n > 0 {
                    SeedStep::RecordSkillsMigration(n)
                } else {
                    SeedStep::ClearMigrationFlag
                }
            },
            SeedEvent::Migrated(Err(e)) => SeedStep::RecordSkillsMigrationError(e),
            _ => SeedStep::ClearMigrationFlag,
        },
        SeedStep::RecordSkillsMigration(_) => SeedStep::ClearMigrationFlag,
        SeedStep::RecordSkillsMigrationError(_) => SeedStep::ReadFirstRunConfirmed,
        SeedStep::ClearMigrationFlag => SeedStep::ReadFirstRunConfirmed,
        SeedStep::ReadFirstRunConfirmed => SeedStep::CheckFreshInstall(is_yes(&event)),
        SeedStep::CheckFreshInstall(confirmed) => next_config_step(0, apps, !*confirmed && is_yes(&event)),
        SeedStep::ShouldImportConfig(i, w) => {
            if is_yes(&event) {
                SeedStep::ImportDefaultConfig(*i, *w)
            } else {
                next_config_step(*i + 1, apps, *w)
            }
        },
        SeedStep::ImportDefaultConfig(i, w) => next_config_step(*i + 1, apps, *w),
        SeedStep::InitOfficialProviders(w) => {
            if *w {
                SeedStep::ShowWelcomeNotice
            } else {
                SeedStep::ImportOpenCodeLive
            }
        },
        SeedStep::ShowWelcomeNotice => SeedStep::ImportOpenCodeLive,
        SeedStep::ImportOpenCodeLive => SeedStep::ImportOpenClawLive,
        SeedStep::ImportOpenClawLive => SeedStep::ImportHermesLive,
        SeedStep::ImportHermesLive => SeedStep::ListProvidersForOmo,
        SeedStep::ListProvidersForOmo => {
            let found = match &event {
                SeedEvent::Categories(Ok(cats)) => contains_category(cats, "omo"),
                _ => false,
            };
            if found {
                SeedStep::ListProvidersForOmoSlim
            } else {
                SeedStep::ImportOmo
            }
        },
        SeedStep::ImportOmo => SeedStep::ListProvidersForOmoSlim,
        SeedStep::ListProvidersForOmoSlim => {
            let found = match &event {
                SeedEvent::Categories(Ok(cats)) => contains_category(cats, "omo-slim"),
                _ => false,
            };
            if found {
                SeedStep::CheckMcpEmpty
            } else {
                SeedStep::ImportOmoSlim
            }
        },
        SeedStep::ImportOmoSlim => SeedStep::CheckMcpEmpty,
        SeedStep::CheckMcpEmpty => {
            if is_yes(&event) {
                SeedStep::ImportMcp(0)
            } else {
                SeedStep::CheckPromptsEmpty
            }
        },
        SeedStep::ImportMcp(k) => {
            if *k + 1 < 5 {
                SeedStep::ImportMcp(*k + 1)
            } else {
                SeedStep::CheckPromptsEmpty
            }
        },
        SeedStep::CheckPromptsEmpty => {
            if is_yes(&event) {
                SeedStep::ImportPrompts(0)
            } else {
                SeedStep::Finished
            }
        },
        SeedStep::ImportPrompts(k) => {
            if *k + 1 < 6 {
                SeedStep::ImportPrompts(*k + 1)
            } else {
                SeedStep::Finished
            }
        },
        SeedStep::Finished => SeedStep::Finished,
    }
}

/// The tool of the k-th MCP source.
pub fn mcp_source_tool(k: u64) -> (r: Tool)
    requires
        k < mcp_sources(),
    ensures
        r == mcp_source(k as nat),
{
    if k == 0 {
        Tool::Claude
    } else if k == 1 {
        Tool::Codex
    } else if k == 2 {
        Tool::Gemini
    } else if k == 3 {
        Tool::OpenCode
    } else {
        Tool::Hermes
    }
}

/// The tool of the k-th prompt source.
pub fn prompt_source_tool(k: u64) -> (r: Tool)
    requires
        k < prompt_sources(),
    ensures
        r == prompt_source(k as nat),
{
    if k == 0 {
        Tool::Claude
    } else if k == 1 {
        Tool::Codex
    } else if k == 2 {
        Tool::Gemini
    } else if k == 3 {
        Tool::OpenCode
    } else if k == 4 {
        Tool::OpenClaw
    } else {
        Tool::Hermes
    }
}

/// The position of a step in the order in which a run meets them.
pub open spec fn seed_rank(step: SeedStep, apps: u64) -> int {
    match step {
        SeedStep::InitSkillRepos => 0,
        SeedStep::ReadMigrationFlag => 1,
        SeedStep::CheckInstalledSkills => 2,
        SeedStep::MigrateSkills => 3,
        SeedStep::RecordSkillsMigration(_) => 4,
        SeedStep::RecordSkillsMigrationError(_) => 4,
        SeedStep::ClearMigrationFlag => 5,
        SeedStep::ReadFirstRunConfirmed => 6,
        SeedStep::CheckFreshInstall(_) => 7,
        SeedStep::ShouldImportConfig(i, _) => 8 + 2 * i,
        SeedStep::ImportDefaultConfig(i, _) => 9 + 2 * i,
        SeedStep::InitOfficialProviders(_) => 8 + 2 * apps,
        SeedStep::ShowWelcomeNotice => 9 + 2 * apps,
        SeedStep::ImportOpenCodeLive => 10 + 2 * apps,
        SeedStep::ImportOpenClawLive => 11 + 2 * apps,
        SeedStep::ImportHermesLive => 12 + 2 * apps,
        SeedStep::ListProvidersForOmo => 13 + 2 * apps,
        SeedStep::ImportOmo => 14 + 2 * apps,
        SeedStep::ListProvidersForOmoSlim => 15 + 2 * apps,
        SeedStep::ImportOmoSlim => 16 + 2 * apps,
        SeedStep::CheckMcpEmpty => 17 + 2 * apps,
        SeedStep::ImportMcp(k) => 18 + 2 * apps + k,
        SeedStep::CheckPromptsEmpty => 23 + 2 * apps,
        SeedStep::ImportPrompts(k) => 24 + 2 * apps + k,
        SeedStep::Finished => 30 + 2 * apps,
    }
}

/// The most steps a run of the import takes before it is finished.
pub open spec fn seed_step_bound(apps: u64) -> int {
    30 + 2 * apps
}

/// The step a run has reached after its steps were answered by `events`,
/// in order.
pub open spec fn seed_state_after(events: Seq<SeedEvent>, apps: u64) -> SeedStep
    decreases events.len(),
{
    if events.len() == 0 {
        SeedStep::InitSkillRepos
    } else {
        spec_next_seed_step(seed_state_after(events.drop_last(), apps), events.last(), apps)
    }
}

/// Every step of the import but the last moves a run forward: the step that
/// follows comes later in the order of steps, and none comes after the end.
pub proof fn seed_step_progress(step: SeedStep, event: SeedEvent, apps: u64)
    requires
        seed_step_valid(step, apps),
        step != SeedStep::Finished,
    ensures
        seed_rank(spec_next_seed_step(step, event, apps), apps) > seed_rank(step, apps),
        seed_step_valid(spec_next_seed_step(step, event, apps), apps),
        seed_rank(spec_next_seed_step(step, event, apps), apps) <= seed_step_bound(apps),
{
    match step {
        SeedStep::ShouldImportConfig(i, w) => {
            if i + 1 < apps {
                assert(seed_rank(SeedStep::ShouldImportConfig((i + 1) as u64, w), apps) == 10 + 2 * i);
            }
        },
        SeedStep::ImportDefaultConfig(i, w) => {
            if i + 1 < apps {
                assert(seed_rank(SeedStep::ShouldImportConfig((i + 1) as u64, w), apps) == 10 + 2 * i);
            }
        },
        SeedStep::ImportMcp(k) => {
            assert(seed_rank(SeedStep::ImportMcp((k + 1) as u64), apps) == 19 + 2 * apps + k);
        },
        SeedStep::ImportPrompts(k) => {
            assert(seed_rank(SeedStep::ImportPrompts((k + 1) as u64), apps) == 25 + 2 * apps + k);
        },
        _ => {},
    }
}

proof fn lemma_seed_run_rank(events: Seq<SeedEvent>, apps: u64)
    ensures
        seed_step_valid(seed_state_after(events, apps), apps),
        seed_state_after(events, apps) == SeedStep::Finished || seed_rank(
            seed_state_after(events, apps),
            apps,
        ) >= events.len(),
    decreases events.len(),
{
    if events.len() > 0 {
        lemma_seed_run_rank(events.drop_last(), apps);
        let prev = seed_state_after(events.drop_last(), apps);
        if prev != SeedStep::Finished {
            seed_step_progress(prev, events.last(), apps);
        }
    }
}

/// The import always finishes: whatever the answers to its steps, a run has
/// reached its end after at most `30 + 2 * apps` steps (for a startup list
/// of `apps` tools), and stays there.
pub proof fn seed_run_finishes(events: Seq<SeedEvent>, apps: u64)
    requires
        events.len() >= seed_step_bound(apps),
    ensures
        seed_state_after(events, apps) == SeedStep::Finished,
{
    lemma_seed_run_rank(events, apps);
    let last = seed_state_after(events, apps);
    if last != SeedStep::Finished {
        assert(seed_rank(last, apps) < seed_step_bound(apps));
    }
}

/// Whether the first-run notice is due, as carried by a step of the
/// tool imports (none for other steps).
pub open spec fn carried_welcome(step: SeedStep) -> Option<bool> {
    match step {
        SeedStep::ShouldImportConfig(_, w) => Some(w),
        SeedStep::ImportDefaultConfig(_, w) => Some(w),
        SeedStep::InitOfficialProviders(w) => Some(w),
        _ => None,
    }
}

/// The first-run notice is announced exactly when it was never confirmed
/// and there were no providers before the live configurations were
/// imported: that answer is taken before the imports, carried unchanged
/// through them, and decides, after the official providers, whether the
/// notice is announced.
pub proof fn welcome_notice_when_due(
    confirmed: bool,
    fresh: SeedEvent,
    step: SeedStep,
    event: SeedEvent,
    w: bool,
    apps: u64,
)
    requires
        seed_step_valid(step, apps),
        carried_welcome(step) == Some(w),
    ensures
        carried_welcome(spec_next_seed_step(SeedStep::CheckFreshInstall(confirmed), fresh, apps)) == Some(
            !confirmed && answered_yes(fresh),
        ),
        (step matches SeedStep::InitOfficialProviders(_)) ==> spec_next_seed_step(step, event, apps) == (
        if w {
            SeedStep::ShowWelcomeNotice
        } else {
            SeedStep::ImportOpenCodeLive
        }),
        !(step matches SeedStep::InitOfficialProviders(_)) ==> carried_welcome(
            spec_next_seed_step(step, event, apps),
        ) == Some(w),
{
}

/// Whether OpenCode's listing, as an answer, names a provider of the
/// category `category`.
pub open spec fn listing_names(event: SeedEvent, category: Seq<char>) -> bool {
    event matches SeedEvent::Categories(Ok(cats)) && exists|i: int|
        0 <= i < cats@.len() && (#[trigger] cats@[i] matches Some(c) && c@ == category)
}

/// Each OMO configuration is imported unless OpenCode already has a
/// provider of its own category: the OMO import is skipped exactly when a
/// listed provider has category `omo`, the OMO Slim import exactly when one
/// has category `omo-slim`; providers of any other category, and a listing
/// that failed, do not skip it.
pub proof fn omo_imports_skip_only_their_own_category(event: SeedEvent, apps: u64)
    ensures
        spec_next_seed_step(SeedStep::ListProvidersForOmo, event, apps) == if listing_names(event, "omo"@) {
            SeedStep::ListProvidersForOmoSlim
        } else {
            SeedStep::ImportOmo
        },
        spec_next_seed_step(SeedStep::ListProvidersForOmoSlim, event, apps) == if listing_names(
            event,
            "omo-slim"@,
        ) {
            SeedStep::CheckMcpEmpty
        } else {
            SeedStep::ImportOmoSlim
        },
{
    if listing_names(event, "omo"@) {
        let cats = event->Categories_0->Ok_0;
        let i = choose|i: int| 0 <= i < cats@.len() && (#[trigger] cats@[i] matches Some(c) && c@ == "omo"@);
        assert(is_category(cats@[i], "omo"@));
    }
    if listing_names(event, "omo-slim"@) {
        let cats = event->Categories_0->Ok_0;
        let i = choose|i: int|
            0 <= i < cats@.len() && (#[trigger] cats@[i] matches Some(c) && c@ == "omo-slim"@);
        assert(is_category(cats@[i], "omo-slim"@));
    }
}

/// The skills are moved into the single store only when the migration flag
/// reads `true` or `1` and no skill is installed yet (an unanswered question
/// counts as none installed); the flag is cleared only when skills were
/// already installed or the move did not fail, never after a failed move.
pub proof fn skills_move_only_when_pending_and_empty(step: SeedStep, event: SeedEvent, apps: u64)
    ensures
        spec_next_seed_step(step, event, apps) == SeedStep::CheckInstalledSkills ==> (step
            == SeedStep::ReadMigrationFlag && (event matches SeedEvent::Setting(Ok(Some(v))) && (v@
            == "true"@ || v@ == "1"@))),
        spec_next_seed_step(step, event, apps) == SeedStep::MigrateSkills ==> (step
            == SeedStep::CheckInstalledSkills && event != SeedEvent::Answer(Ok(true))),
        spec_next_seed_step(step, event, apps) == SeedStep::ClearMigrationFlag ==> ((step
            == SeedStep::CheckInstalledSkills && event == SeedEvent::Answer(Ok(true))) || (step
            == SeedStep::MigrateSkills && !(event matches SeedEvent::Migrated(Err(_))))
            || step is RecordSkillsMigration),
        event matches SeedEvent::Migrated(Err(e)) ==> spec_next_seed_step(SeedStep::MigrateSkills, event, apps)
            == SeedStep::RecordSkillsMigrationError(e),
{
}

/// A tool's live configuration is imported only when the question for that
/// tool was answered yes, and the questions go through the startup list in
/// order, one tool after the other, before the official providers.
pub proof fn live_configs_imported_only_when_asked_for(step: SeedStep, event: SeedEvent, apps: u64, i: u64, w: bool)
    ensures
        spec_next_seed_step(step, event, apps) == SeedStep::ImportDefaultConfig(i, w) ==> (step
            == SeedStep::ShouldImportConfig(i, w) && event == SeedEvent::Answer(Ok(true))),
        (i + 1 < apps && (step == SeedStep::ImportDefaultConfig(i, w) || (step == SeedStep::ShouldImportConfig(i, w)
            && event != SeedEvent::Answer(Ok(true))))) ==> spec_next_seed_step(step, event, apps)
            == SeedStep::ShouldImportConfig((i + 1) as u64, w),
        (i + 1 == apps && (step == SeedStep::ImportDefaultConfig(i, w) || (step == SeedStep::ShouldImportConfig(i, w)
            && event != SeedEvent::Answer(Ok(true))))) ==> spec_next_seed_step(step, event, apps)
            == SeedStep::InitOfficialProviders(w),
{
}

/// MCP servers and prompts are imported only into empty tables: the first
/// import of each follows only a yes to the question whether its table is
/// empty, and every source is imported in its order.
pub proof fn mcp_and_prompts_only_into_empty_tables(step: SeedStep, event: SeedEvent, apps: u64, k: u64)
    ensures
        spec_next_seed_step(step, event, apps) == SeedStep::ImportMcp(0) ==> (step == SeedStep::CheckMcpEmpty
            && event == SeedEvent::Answer(Ok(true))),
        spec_next_seed_step(step, event, apps) == SeedStep::ImportPrompts(0) ==> (step
            == SeedStep::CheckPromptsEmpty && event == SeedEvent::Answer(Ok(true))),
        k + 1 < 5 ==> spec_next_seed_step(SeedStep::ImportMcp(k), event, apps) == SeedStep::ImportMcp(
            (k + 1) as u64,
        ),
        k == 4 ==> spec_next_seed_step(SeedStep::ImportMcp(k), event, apps) == SeedStep::CheckPromptsEmpty,
        k + 1 < 6 ==> spec_next_seed_step(SeedStep::ImportPrompts(k), event, apps) == SeedStep::ImportPrompts(
            (k + 1) as u64,
        ),
        k == 5 ==> spec_next_seed_step(SeedStep::ImportPrompts(k), event, apps) == SeedStep::Finished,
{
}

} // verus!
