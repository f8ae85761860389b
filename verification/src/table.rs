//! The table of commands: for each command that the dispatcher knows, the
//! named arguments it reads, in the order in which it reads them.

use vstd::prelude::*;
use crate::json::str_eq;
use crate::dispatch::{Param, ParamKind};

verus! {

/// An argument of the table.
pub open spec fn p(key: &'static str, kind: ParamKind) -> Param {
    Param { key, kind }
}

/// The view of a table lookup.
pub open spec fn params_view(r: Option<Vec<Param>>) -> Option<Seq<Param>> {
    match r {
        Some(v) => Some(v@),
        None => None,
    }
}

/// The first of two lookups that found something.
pub open spec fn either(a: Option<Seq<Param>>, b: Option<Seq<Param>>) -> Option<Seq<Param>> {
    match a {
        Some(x) => Some(x),
        None => b,
    }
}

/// The commands for provider management.
pub open spec fn provider_params(name: Seq<char>) -> Option<Seq<Param>> {
    if name == "get_providers"@ {
        Some(seq![p("app", ParamKind::ReqStr)])
    } else if name == "get_current_provider"@ {
        Some(seq![p("app", ParamKind::ReqStr)])
    } else if name == "add_provider"@ {
        Some(seq![p("app", ParamKind::ReqStr), p("provider", ParamKind::ReqTyped), p("addToLive", ParamKind::OptBool)])
    } else if name == "update_provider"@ {
        Some(seq![p("app", ParamKind::ReqStr), p("provider", ParamKind::ReqTyped), p("originalId", ParamKind::OptStr)])
    } else if name == "delete_provider"@ {
        Some(seq![p("app", ParamKind::ReqStr), p("id", ParamKind::ReqStr)])
    } else if name == "remove_provider_from_live_config"@ {
        Some(seq![p("app", ParamKind::ReqStr), p("id", ParamKind::ReqStr)])
    } else if name == "switch_provider"@ {
        Some(seq![p("app", ParamKind::ReqStr), p("id", ParamKind::ReqStr)])
    } else if name == "import_default_config"@ {
        Some(seq![p("app", ParamKind::ReqStr)])
    } else if name == "get_claude_desktop_status"@ {
        Some(Seq::empty())
    } else if name == "get_claude_desktop_default_routes"@ {
        Some(Seq::empty())
    } else if name == "import_claude_desktop_providers_from_claude"@ {
        Some(Seq::empty())
    } else if name == "queryProviderUsage"@ {
        Some(seq![p("providerId", ParamKind::ReqStr), p("app", ParamKind::ReqStr)])
    } else if name == "testUsageScript"@ {
        Some(seq![p("providerId", ParamKind::ReqStr), p("app", ParamKind::ReqStr), p("scriptCode", ParamKind::ReqStr), p("timeout", ParamKind::OptU64), p("apiKey", ParamKind::OptStr), p("baseUrl", ParamKind::OptStr), p("accessToken", ParamKind::OptStr), p("userId", ParamKind::OptStr), p("templateType", ParamKind::OptStr)])
    } else if name == "read_live_provider_settings"@ {
        Some(seq![p("app", ParamKind::ReqStr)])
    } else if name == "test_api_endpoints"@ {
        Some(seq![p("urls", ParamKind::ReqTyped), p("timeoutSecs", ParamKind::OptU64)])
    } else if name == "get_custom_endpoints"@ {
        Some(seq![p("app", ParamKind::ReqStr), p("providerId", ParamKind::ReqStr)])
    } else if name == "add_custom_endpoint"@ {
        Some(seq![p("app", ParamKind::ReqStr), p("providerId", ParamKind::ReqStr), p("url", ParamKind::ReqStr)])
    } else if name == "remove_custom_endpoint"@ {
        Some(seq![p("app", ParamKind::ReqStr), p("providerId", ParamKind::ReqStr), p("url", ParamKind::ReqStr)])
    } else if name == "update_endpoint_last_used"@ {
        Some(seq![p("app", ParamKind::ReqStr), p("providerId", ParamKind::ReqStr), p("url", ParamKind::ReqStr)])
    } else if name == "update_providers_sort_order"@ {
        Some(seq![p("app", ParamKind::ReqStr), p("updates", ParamKind::ReqTyped)])
    } else if name == "get_universal_providers"@ {
        Some(Seq::empty())
    } else if name == "get_universal_provider"@ {
        Some(seq![p("id", ParamKind::ReqStr)])
    } else if name == "upsert_universal_provider"@ {
        Some(seq![p("provider", ParamKind::ReqTyped)])
    } else if name == "delete_universal_provider"@ {
        Some(seq![p("id", ParamKind::ReqStr)])
    } else if name == "sync_universal_provider"@ {
        Some(seq![p("id", ParamKind::ReqStr)])
    } else if name == "import_opencode_providers_from_live"@ {
        Some(Seq::empty())
    } else if name == "get_opencode_live_provider_ids"@ {
        Some(Seq::empty())
    } else {
        None
    }
}

/// Looks a command up among those for provider management.
pub fn lookup_provider_params(name: &str) -> (r: Option<Vec<Param>>)
    ensures
        params_view(r) == provider_params(name@),
{
    if str_eq(name, "get_providers") {
        Some(vec![Param { key: "app", kind: ParamKind::ReqStr }])
    } else if str_eq(name, "get_current_provider") {
        Some(vec![Param { key: "app", kind: ParamKind::ReqStr }])
    } else if str_eq(name, "add_provider") {
        Some(vec![Param { key: "app", kind: ParamKind::ReqStr }, Param { key: "provider", kind: ParamKind::ReqTyped }, Param { key: "addToLive", kind: ParamKind::OptBool }])
    } else if str_eq(name, "update_provider") {
        Some(vec![Param { key: "app", kind: ParamKind::ReqStr }, Param { key: "provider", kind: ParamKind::ReqTyped }, Param { key: "originalId", kind: ParamKind::OptStr }])
    } else if str_eq(name, "delete_provider") {
        Some(vec![Param { key: "app", kind: ParamKind::ReqStr }, Param { key: "id", kind: ParamKind::ReqStr }])
    } else if str_eq(name, "remove_provider_from_live_config") {
        Some(vec![Param { key: "app", kind: ParamKind::ReqStr }, Param { key: "id", kind: ParamKind::ReqStr }])
    } else if str_eq(name, "switch_provider") {
        Some(vec![Param { key: "app", kind: ParamKind::ReqStr }, Param { key: "id", kind: ParamKind::ReqStr }])
    } else if str_eq(name, "import_default_config") {
        Some(vec![Param { key: "app", kind: ParamKind::ReqStr }])
    } else if str_eq(name, "get_claude_desktop_status") {
        Some(Vec::new())
    } else if str_eq(name, "get_claude_desktop_default_routes") {
        Some(Vec::new())
    } else if str_eq(name, "import_claude_desktop_providers_from_claude") {
        Some(Vec::new())
    } else if str_eq(name, "queryProviderUsage") {
        Some(vec![Param { key: "providerId", kind: ParamKind::ReqStr }, Param { key: "app", kind: ParamKind::ReqStr }])
    } else if str_eq(name, "testUsageScript") {
        Some(vec![Param { key: "providerId", kind: ParamKind::ReqStr }, Param { key: "app", kind: ParamKind::ReqStr }, Param { key: "scriptCode", kind: ParamKind::ReqStr }, Param { key: "timeout", kind: ParamKind::OptU64 }, Param { key: "apiKey", kind: ParamKind::OptStr }, Param { key: "baseUrl", kind: ParamKind::OptStr }, Param { key: "accessToken", kind: ParamKind::OptStr }, Param { key: "userId", kind: ParamKind::OptStr }, Param { key: "templateType", kind: ParamKind::OptStr }])
    } else if str_eq(name, "read_live_provider_settings") {
        Some(vec![Param { key: "app", kind: ParamKind::ReqStr }])
    } else if str_eq(name, "test_api_endpoints") {
        Some(vec![Param { key: "urls", kind: ParamKind::ReqTyped }, Param { key: "timeoutSecs", kind: ParamKind::OptU64 }])
    } else if str_eq(name, "get_custom_endpoints") {
        Some(vec![Param { key: "app", kind: ParamKind::ReqStr }, Param { key: "providerId", kind: ParamKind::ReqStr }])
    } else if str_eq(name, "add_custom_endpoint") {
        Some(vec![Param { key: "app", kind: ParamKind::ReqStr }, Param { key: "providerId", kind: ParamKind::ReqStr }, Param { key: "url", kind: ParamKind::ReqStr }])
    } else if str_eq(name, "remove_custom_endpoint") {
        Some(vec![Param { key: "app", kind: ParamKind::ReqStr }, Param { key: "providerId", kind: ParamKind::ReqStr }, Param { key: "url", kind: ParamKind::ReqStr }])
    } else if str_eq(name, "update_endpoint_last_used") {
        Some(vec![Param { key: "app", kind: ParamKind::ReqStr }, Param { key: "providerId", kind: ParamKind::ReqStr }, Param { key: "url", kind: ParamKind::ReqStr }])
    } else if str_eq(name, "update_providers_sort_order") {
        Some(vec![Param { key: "app", kind: ParamKind::ReqStr }, Param { key: "updates", kind: ParamKind::ReqTyped }])
    } else if str_eq(name, "get_universal_providers") {
        Some(Vec::new())
    } else if str_eq(name, "get_universal_provider") {
        Some(vec![Param { key: "id", kind: ParamKind::ReqStr }])
    } else if str_eq(name, "upsert_universal_provider") {
        Some(vec![Param { key: "provider", kind: ParamKind::ReqTyped }])
    } else if str_eq(name, "delete_universal_provider") {
        Some(vec![Param { key: "id", kind: ParamKind::ReqStr }])
    } else if str_eq(name, "sync_universal_provider") {
        Some(vec![Param { key: "id", kind: ParamKind::ReqStr }])
    } else if str_eq(name, "import_opencode_providers_from_live") {
        Some(Vec::new())
    } else if str_eq(name, "get_opencode_live_provider_ids") {
        Some(Vec::new())
    } else {
        None
    }
}

/// The commands for configuration files and miscellany.
pub open spec fn config_params(name: Seq<char>) -> Option<Seq<Param>> {
    if name == "get_claude_config_status"@ {
        Some(Seq::empty())
    } else if name == "get_config_status"@ {
        Some(seq![p("app", ParamKind::ReqStr)])
    } else if name == "get_claude_code_config_path"@ {
        Some(Seq::empty())
    } else if name == "get_config_dir"@ {
        Some(seq![p("app", ParamKind::ReqStr)])
    } else if name == "open_config_folder"@ {
        Some(seq![p("app", ParamKind::ReqStr)])
    } else if name == "pick_directory"@ {
        Some(seq![p("defaultPath", ParamKind::OptStr)])
    } else if name == "open_external"@ {
        Some(seq![p("url", ParamKind::ReqStr)])
    } else if name == "get_init_error"@ {
        Some(Seq::empty())
    } else if name == "get_migration_result"@ {
        Some(Seq::empty())
    } else if name == "get_skills_migration_result"@ {
        Some(Seq::empty())
    } else if name == "get_app_config_path"@ {
        Some(Seq::empty())
    } else if name == "open_app_config_folder"@ {
        Some(Seq::empty())
    } else if name == "get_claude_common_config_snippet"@ {
        Some(Seq::empty())
    } else if name == "set_claude_common_config_snippet"@ {
        Some(seq![p("snippet", ParamKind::ReqStr)])
    } else if name == "get_common_config_snippet"@ {
        Some(seq![p("appType", ParamKind::ReqStr)])
    } else if name == "set_common_config_snippet"@ {
        Some(seq![p("appType", ParamKind::ReqStr), p("snippet", ParamKind::ReqStr)])
    } else if name == "extract_common_config_snippet"@ {
        Some(seq![p("appType", ParamKind::ReqStr), p("settingsConfig", ParamKind::OptStr)])
    } else if name == "copy_text_to_clipboard"@ {
        Some(seq![p("text", ParamKind::ReqStr)])
    } else if name == "check_for_updates"@ {
        Some(Seq::empty())
    } else if name == "is_portable_mode"@ {
        Some(Seq::empty())
    } else if name == "get_tool_versions"@ {
        Some(seq![p("tools", ParamKind::OptStrList), p("wslShellByTool", ParamKind::OptTyped)])
    } else if name == "open_provider_terminal"@ {
        Some(seq![p("app", ParamKind::ReqStr), p("providerId", ParamKind::ReqStr), p("cwd", ParamKind::OptStr)])
    } else if name == "set_window_theme"@ {
        Some(seq![p("theme", ParamKind::ReqStr)])
    } else {
        None
    }
}

/// Looks a command up among those for configuration files and miscellany.
pub fn lookup_config_params(name: &str) -> (r: Option<Vec<Param>>)
    ensures
        params_view(r) == config_params(name@),
{
    if str_eq(name, "get_claude_config_status") {
        Some(Vec::new())
    } else if str_eq(name, "get_config_status") {
        Some(vec![Param { key: "app", kind: ParamKind::ReqStr }])
    } else if str_eq(name, "get_claude_code_config_path") {
        Some(Vec::new())
    } else if str_eq(name, "get_config_dir") {
        Some(vec![Param { key: "app", kind: ParamKind::ReqStr }])
    } else if str_eq(name, "open_config_folder") {
        Some(vec![Param { key: "app", kind: ParamKind::ReqStr }])
    } else if str_eq(name, "pick_directory") {
        Some(vec![Param { key: "defaultPath", kind: ParamKind::OptStr }])
    } else if str_eq(name, "open_external") {
        Some(vec![Param { key: "url", kind: ParamKind::ReqStr }])
    } else if str_eq(name, "get_init_error") {
        Some(Vec::new())
    } else if str_eq(name, "get_migration_result") {
        Some(Vec::new())
    } else if str_eq(name, "get_skills_migration_result") {
        Some(Vec::new())
    } else if str_eq(name, "get_app_config_path") {
        Some(Vec::new())
    } else if str_eq(name, "open_app_config_folder") {
        Some(Vec::new())
    } else if str_eq(name, "get_claude_common_config_snippet") {
        Some(Vec::new())
    } else if str_eq(name, "set_claude_common_config_snippet") {
        Some(vec![Param { key: "snippet", kind: ParamKind::ReqStr }])
    } else if str_eq(name, "get_common_config_snippet") {
        Some(vec![Param { key: "appType", kind: ParamKind::ReqStr }])
    } else if str_eq(name, "set_common_config_snippet") {
        Some(vec![Param { key: "appType", kind: ParamKind::ReqStr }, Param { key: "snippet", kind: ParamKind::ReqStr }])
    } else if str_eq(name, "extract_common_config_snippet") {
        Some(vec![Param { key: "appType", kind: ParamKind::ReqStr }, Param { key: "settingsConfig", kind: ParamKind::OptStr }])
    } else if str_eq(name, "copy_text_to_clipboard") {
        Some(vec![Param { key: "text", kind: ParamKind::ReqStr }])
    } else if str_eq(name, "check_for_updates") {
        Some(Vec::new())
    } else if str_eq(name, "is_portable_mode") {
        Some(Vec::new())
    } else if str_eq(name, "get_tool_versions") {
        Some(vec![Param { key: "tools", kind: ParamKind::OptStrList }, Param { key: "wslShellByTool", kind: ParamKind::OptTyped }])
    } else if str_eq(name, "open_provider_terminal") {
        Some(vec![Param { key: "app", kind: ParamKind::ReqStr }, Param { key: "providerId", kind: ParamKind::ReqStr }, Param { key: "cwd", kind: ParamKind::OptStr }])
    } else if str_eq(name, "set_window_theme") {
        Some(vec![Param { key: "theme", kind: ParamKind::ReqStr }])
    } else {
        None
    }
}

/// The commands for settings, plugins and MCP servers.
pub open spec fn settings_params(name: Seq<char>) -> Option<Seq<Param>> {
    if name == "get_settings"@ {
        Some(Seq::empty())
    } else if name == "save_settings"@ {
        Some(seq![p("settings", ParamKind::ReqTyped)])
    } else if name == "restart_app"@ {
        Some(Seq::empty())
    } else if name == "get_app_config_dir_override"@ {
        Some(Seq::empty())
    } else if name == "set_app_config_dir_override"@ {
        Some(seq![p("path", ParamKind::OptStr)])
    } else if name == "get_rectifier_config"@ {
        Some(Seq::empty())
    } else if name == "set_rectifier_config"@ {
        Some(seq![p("config", ParamKind::ReqTyped)])
    } else if name == "get_optimizer_config"@ {
        Some(Seq::empty())
    } else if name == "set_optimizer_config"@ {
        Some(seq![p("config", ParamKind::ReqTyped)])
    } else if name == "get_copilot_optimizer_config"@ {
        Some(Seq::empty())
    } else if name == "set_copilot_optimizer_config"@ {
        Some(seq![p("config", ParamKind::ReqTyped)])
    } else if name == "get_log_config"@ {
        Some(Seq::empty())
    } else if name == "set_log_config"@ {
        Some(seq![p("config", ParamKind::ReqTyped)])
    } else if name == "get_claude_plugin_status"@ {
        Some(Seq::empty())
    } else if name == "read_claude_plugin_config"@ {
        Some(Seq::empty())
    } else if name == "apply_claude_plugin_config"@ {
        Some(seq![p("official", ParamKind::ReqBool)])
    } else if name == "is_claude_plugin_applied"@ {
        Some(Seq::empty())
    } else if name == "apply_claude_onboarding_skip"@ {
        Some(Seq::empty())
    } else if name == "clear_claude_onboarding_skip"@ {
        Some(Seq::empty())
    } else if name == "get_claude_mcp_status"@ {
        Some(Seq::empty())
    } else if name == "read_claude_mcp_config"@ {
        Some(Seq::empty())
    } else if name == "upsert_claude_mcp_server"@ {
        Some(seq![p("id", ParamKind::ReqStr), p("spec", ParamKind::ReqTyped)])
    } else if name == "delete_claude_mcp_server"@ {
        Some(seq![p("id", ParamKind::ReqStr)])
    } else if name == "validate_mcp_command"@ {
        Some(seq![p("cmd", ParamKind::ReqStr)])
    } else if name == "get_mcp_config"@ {
        Some(seq![p("app", ParamKind::ReqStr)])
    } else if name == "upsert_mcp_server_in_config"@ {
        Some(seq![p("app", ParamKind::ReqStr), p("id", ParamKind::ReqStr), p("spec", ParamKind::ReqTyped), p("syncOtherSide", ParamKind::OptBool)])
    } else if name == "delete_mcp_server_in_config"@ {
        Some(seq![p("app", ParamKind::ReqStr), p("id", ParamKind::ReqStr)])
    } else if name == "set_mcp_enabled"@ {
        Some(seq![p("app", ParamKind::ReqStr), p("id", ParamKind::ReqStr), p("enabled", ParamKind::ReqBool)])
    } else if name == "get_mcp_servers"@ {
        Some(Seq::empty())
    } else if name == "upsert_mcp_server"@ {
        Some(seq![p("server", ParamKind::ReqTyped)])
    } else if name == "delete_mcp_server"@ {
        Some(seq![p("id", ParamKind::ReqStr)])
    } else if name == "toggle_mcp_app"@ {
        Some(seq![p("serverId", ParamKind::ReqStr), p("app", ParamKind::ReqStr), p("enabled", ParamKind::ReqBool)])
    } else if name == "import_mcp_from_apps"@ {
        Some(Seq::empty())
    } else {
        None
    }
}

/// Looks a command up among those for settings, plugins and MCP servers.
pub fn lookup_settings_params(name: &str) -> (r: Option<Vec<Param>>)
    ensures
        params_view(r) == settings_params(name@),
{
    if str_eq(name, "get_settings") {
        Some(Vec::new())
    } else if str_eq(name, "save_settings") {
        Some(vec![Param { key: "settings", kind: ParamKind::ReqTyped }])
    } else if str_eq(name, "restart_app") {
        Some(Vec::new())
    } else if str_eq(name, "get_app_config_dir_override") {
        Some(Vec::new())
    } else if str_eq(name, "set_app_config_dir_override") {
        Some(vec![Param { key: "path", kind: ParamKind::OptStr }])
    } else if str_eq(name, "get_rectifier_config") {
        Some(Vec::new())
    } else if str_eq(name, "set_rectifier_config") {
        Some(vec![Param { key: "config", kind: ParamKind::ReqTyped }])
    } else if str_eq(name, "get_optimizer_config") {
        Some(Vec::new())
    } else if str_eq(name, "set_optimizer_config") {
        Some(vec![Param { key: "config", kind: ParamKind::ReqTyped }])
    } else if str_eq(name, "get_copilot_optimizer_config") {
        Some(Vec::new())
    } else if str_eq(name, "set_copilot_optimizer_config") {
        Some(vec![Param { key: "config", kind: ParamKind::ReqTyped }])
    } else if str_eq(name, "get_log_config") {
        Some(Vec::new())
    } else if str_eq(name, "set_log_config") {
        Some(vec![Param { key: "config", kind: ParamKind::ReqTyped }])
    } else if str_eq(name, "get_claude_plugin_status") {
        Some(Vec::new())
    } else if str_eq(name, "read_claude_plugin_config") {
        Some(Vec::new())
    } else if str_eq(name, "apply_claude_plugin_config") {
        Some(vec![Param { key: "official", kind: ParamKind::ReqBool }])
    } else if str_eq(name, "is_claude_plugin_applied") {
        Some(Vec::new())
    } else if str_eq(name, "apply_claude_onboarding_skip") {
        Some(Vec::new())
    } else if str_eq(name, "clear_claude_onboarding_skip") {
        Some(Vec::new())
    } else if str_eq(name, "get_claude_mcp_status") {
        Some(Vec::new())
    } else if str_eq(name, "read_claude_mcp_config") {
        Some(Vec::new())
    } else if str_eq(name, "upsert_claude_mcp_server") {
        Some(vec![Param { key: "id", kind: ParamKind::ReqStr }, Param { key: "spec", kind: ParamKind::ReqTyped }])
    } else if str_eq(name, "delete_claude_mcp_server") {
        Some(vec![Param { key: "id", kind: ParamKind::ReqStr }])
    } else if str_eq(name, "validate_mcp_command") {
        Some(vec![Param { key: "cmd", kind: ParamKind::ReqStr }])
    } else if str_eq(name, "get_mcp_config") {
        Some(vec![Param { key: "app", kind: ParamKind::ReqStr }])
    } else if str_eq(name, "upsert_mcp_server_in_config") {
        Some(vec![Param { key: "app", kind: ParamKind::ReqStr }, Param { key: "id", kind: ParamKind::ReqStr }, Param { key: "spec", kind: ParamKind::ReqTyped }, Param { key: "syncOtherSide", kind: ParamKind::OptBool }])
    } else if str_eq(name, "delete_mcp_server_in_config") {
        Some(vec![Param { key: "app", kind: ParamKind::ReqStr }, Param { key: "id", kind: ParamKind::ReqStr }])
    } else if str_eq(name, "set_mcp_enabled") {
        Some(vec![Param { key: "app", kind: ParamKind::ReqStr }, Param { key: "id", kind: ParamKind::ReqStr }, Param { key: "enabled", kind: ParamKind::ReqBool }])
    } else if str_eq(name, "get_mcp_servers") {
        Some(Vec::new())
    } else if str_eq(name, "upsert_mcp_server") {
        Some(vec![Param { key: "server", kind: ParamKind::ReqTyped }])
    } else if str_eq(name, "delete_mcp_server") {
        Some(vec![Param { key: "id", kind: ParamKind::ReqStr }])
    } else if str_eq(name, "toggle_mcp_app") {
        Some(vec![Param { key: "serverId", kind: ParamKind::ReqStr }, Param { key: "app", kind: ParamKind::ReqStr }, Param { key: "enabled", kind: ParamKind::ReqBool }])
    } else if str_eq(name, "import_mcp_from_apps") {
        Some(Vec::new())
    } else {
        None
    }
}

/// The commands for prompts, models, quotas and balances.
pub open spec fn prompt_params(name: Seq<char>) -> Option<Seq<Param>> {
    if name == "get_prompts"@ {
        Some(seq![p("app", ParamKind::ReqStr)])
    } else if name == "upsert_prompt"@ {
        Some(seq![p("app", ParamKind::ReqStr), p("id", ParamKind::ReqStr), p("prompt", ParamKind::ReqTyped)])
    } else if name == "delete_prompt"@ {
        Some(seq![p("app", ParamKind::ReqStr), p("id", ParamKind::ReqStr)])
    } else if name == "enable_prompt"@ {
        Some(seq![p("app", ParamKind::ReqStr), p("id", ParamKind::ReqStr)])
    } else if name == "import_prompt_from_file"@ {
        Some(seq![p("app", ParamKind::ReqStr)])
    } else if name == "get_current_prompt_file_content"@ {
        Some(seq![p("app", ParamKind::ReqStr)])
    } else if name == "fetch_models_for_config"@ {
        Some(seq![p("baseUrl", ParamKind::ReqStr), p("apiKey", ParamKind::ReqStr), p("isFullUrl", ParamKind::OptBool), p("modelsUrl", ParamKind::OptStr)])
    } else if name == "get_subscription_quota"@ {
        Some(seq![p("tool", ParamKind::ReqStr)])
    } else if name == "get_codex_oauth_quota"@ {
        Some(seq![p("accountId", ParamKind::OptStr)])
    } else if name == "get_codex_oauth_models"@ {
        Some(seq![p("accountId", ParamKind::OptStr)])
    } else if name == "get_coding_plan_quota"@ {
        Some(seq![p("baseUrl", ParamKind::ReqStr), p("apiKey", ParamKind::ReqStr)])
    } else if name == "get_balance"@ {
        Some(seq![p("baseUrl", ParamKind::ReqStr), p("apiKey", ParamKind::ReqStr)])
    } else {
        None
    }
}

/// Looks a command up among those for prompts, models, quotas and balances.
pub fn lookup_prompt_params(name: &str) -> (r: Option<Vec<Param>>)
    ensures
        params_view(r) == prompt_params(name@),
{
    if str_eq(name, "get_prompts") {
        Some(vec![Param { key: "app", kind: ParamKind::ReqStr }])
    } else if str_eq(name, "upsert_prompt") {
        Some(vec![Param { key: "app", kind: ParamKind::ReqStr }, Param { key: "id", kind: ParamKind::ReqStr }, Param { key: "prompt", kind: ParamKind::ReqTyped }])
    } else if str_eq(name, "delete_prompt") {
        Some(vec![Param { key: "app", kind: ParamKind::ReqStr }, Param { key: "id", kind: ParamKind::ReqStr }])
    } else if str_eq(name, "enable_prompt") {
        Some(vec![Param { key: "app", kind: ParamKind::ReqStr }, Param { key: "id", kind: ParamKind::ReqStr }])
    } else if str_eq(name, "import_prompt_from_file") {
        Some(vec![Param { key: "app", kind: ParamKind::ReqStr }])
    } else if str_eq(name, "get_current_prompt_file_content") {
        Some(vec![Param { key: "app", kind: ParamKind::ReqStr }])
    } else if str_eq(name, "fetch_models_for_config") {
        Some(vec![Param { key: "baseUrl", kind: ParamKind::ReqStr }, Param { key: "apiKey", kind: ParamKind::ReqStr }, Param { key: "isFullUrl", kind: ParamKind::OptBool }, Param { key: "modelsUrl", kind: ParamKind::OptStr }])
    } else if str_eq(name, "get_subscription_quota") {
        Some(vec![Param { key: "tool", kind: ParamKind::ReqStr }])
    } else if str_eq(name, "get_codex_oauth_quota") {
        Some(vec![Param { key: "accountId", kind: ParamKind::OptStr }])
    } else if str_eq(name, "get_codex_oauth_models") {
        Some(vec![Param { key: "accountId", kind: ParamKind::OptStr }])
    } else if str_eq(name, "get_coding_plan_quota") {
        Some(vec![Param { key: "baseUrl", kind: ParamKind::ReqStr }, Param { key: "apiKey", kind: ParamKind::ReqStr }])
    } else if str_eq(name, "get_balance") {
        Some(vec![Param { key: "baseUrl", kind: ParamKind::ReqStr }, Param { key: "apiKey", kind: ParamKind::ReqStr }])
    } else {
        None
    }
}

/// The commands for the local proxy and failover.
pub open spec fn proxy_params(name: Seq<char>) -> Option<Seq<Param>> {
    if name == "start_proxy_server"@ {
        Some(Seq::empty())
    } else if name == "stop_proxy_server"@ {
        Some(Seq::empty())
    } else if name == "stop_proxy_with_restore"@ {
        Some(Seq::empty())
    } else if name == "get_proxy_takeover_status"@ {
        Some(Seq::empty())
    } else if name == "set_proxy_takeover_for_app"@ {
        Some(seq![p("appType", ParamKind::ReqStr), p("enabled", ParamKind::ReqBool)])
    } else if name == "get_proxy_status"@ {
        Some(Seq::empty())
    } else if name == "get_proxy_config"@ {
        Some(Seq::empty())
    } else if name == "update_proxy_config"@ {
        Some(seq![p("config", ParamKind::ReqTyped)])
    } else if name == "get_global_proxy_config"@ {
        Some(Seq::empty())
    } else if name == "update_global_proxy_config"@ {
        Some(seq![p("config", ParamKind::ReqTyped)])
    } else if name == "get_proxy_config_for_app"@ {
        Some(seq![p("appType", ParamKind::ReqStr)])
    } else if name == "update_proxy_config_for_app"@ {
        Some(seq![p("config", ParamKind::ReqTyped)])
    } else if name == "get_default_cost_multiplier"@ {
        Some(seq![p("appType", ParamKind::ReqStr)])
    } else if name == "set_default_cost_multiplier"@ {
        Some(seq![p("appType", ParamKind::ReqStr), p("value", ParamKind::ReqStr)])
    } else if name == "get_pricing_model_source"@ {
        Some(seq![p("appType", ParamKind::ReqStr)])
    } else if name == "set_pricing_model_source"@ {
        Some(seq![p("appType", ParamKind::ReqStr), p("value", ParamKind::ReqStr)])
    } else if name == "is_proxy_running"@ {
        Some(Seq::empty())
    } else if name == "is_live_takeover_active"@ {
        Some(Seq::empty())
    } else if name == "switch_proxy_provider"@ {
        Some(seq![p("appType", ParamKind::ReqStr), p("providerId", ParamKind::ReqStr)])
    } else if name == "get_provider_health"@ {
        Some(seq![p("providerId", ParamKind::ReqStr), p("appType", ParamKind::ReqStr)])
    } else if name == "reset_circuit_breaker"@ {
        Some(seq![p("providerId", ParamKind::ReqStr), p("appType", ParamKind::ReqStr)])
    } else if name == "get_circuit_breaker_config"@ {
        Some(Seq::empty())
    } else if name == "update_circuit_breaker_config"@ {
        Some(seq![p("config", ParamKind::ReqTyped)])
    } else if name == "get_circuit_breaker_stats"@ {
        Some(seq![p("providerId", ParamKind::ReqStr), p("appType", ParamKind::ReqStr)])
    } else if name == "get_failover_queue"@ {
        Some(seq![p("appType", ParamKind::ReqStr)])
    } else if name == "get_available_providers_for_failover"@ {
        Some(seq![p("appType", ParamKind::ReqStr)])
    } else if name == "add_to_failover_queue"@ {
        Some(seq![p("appType", ParamKind::ReqStr), p("providerId", ParamKind::ReqStr)])
    } else if name == "remove_from_failover_queue"@ {
        Some(seq![p("appType", ParamKind::ReqStr), p("providerId", ParamKind::ReqStr)])
    } else if name == "get_auto_failover_enabled"@ {
        Some(seq![p("appType", ParamKind::ReqStr)])
    } else if name == "set_auto_failover_enabled"@ {
        Some(seq![p("appType", ParamKind::ReqStr), p("enabled", ParamKind::ReqBool)])
    } else {
        None
    }
}

/// Looks a command up among those for the local proxy and failover.
pub fn lookup_proxy_params(name: &str) -> (r: Option<Vec<Param>>)
    ensures
        params_view(r) == proxy_params(name@),
{
    if str_eq(name, "start_proxy_server") {
        Some(Vec::new())
    } else if str_eq(name, "stop_proxy_server") {
        Some(Vec::new())
    } else if str_eq(name, "stop_proxy_with_restore") {
        Some(Vec::new())
    } else if str_eq(name, "get_proxy_takeover_status") {
        Some(Vec::new())
    } else if str_eq(name, "set_proxy_takeover_for_app") {
        Some(vec![Param { key: "appType", kind: ParamKind::ReqStr }, Param { key: "enabled", kind: ParamKind::ReqBool }])
    } else if str_eq(name, "get_proxy_status") {
        Some(Vec::new())
    } else if str_eq(name, "get_proxy_config") {
        Some(Vec::new())
    } else if str_eq(name, "update_proxy_config") {
        Some(vec![Param { key: "config", kind: ParamKind::ReqTyped }])
    } else if str_eq(name, "get_global_proxy_config") {
        Some(Vec::new())
    } else if str_eq(name, "update_global_proxy_config") {
        Some(vec![Param { key: "config", kind: ParamKind::ReqTyped }])
    } else if str_eq(name, "get_proxy_config_for_app") {
        Some(vec![Param { key: "appType", kind: ParamKind::ReqStr }])
    } else if str_eq(name, "update_proxy_config_for_app") {
        Some(vec![Param { key: "config", kind: ParamKind::ReqTyped }])
    } else if str_eq(name, "get_default_cost_multiplier") {
        Some(vec![Param { key: "appType", kind: ParamKind::ReqStr }])
    } else if str_eq(name, "set_default_cost_multiplier") {
        Some(vec![Param { key: "appType", kind: ParamKind::ReqStr }, Param { key: "value", kind: ParamKind::ReqStr }])
    } else if str_eq(name, "get_pricing_model_source") {
        Some(vec![Param { key: "appType", kind: ParamKind::ReqStr }])
    } else if str_eq(name, "set_pricing_model_source") {
        Some(vec![Param { key: "appType", kind: ParamKind::ReqStr }, Param { key: "value", kind: ParamKind::ReqStr }])
    } else if str_eq(name, "is_proxy_running") {
        Some(Vec::new())
    } else if str_eq(name, "is_live_takeover_active") {
        Some(Vec::new())
    } else if str_eq(name, "switch_proxy_provider") {
        Some(vec![Param { key: "appType", kind: ParamKind::ReqStr }, Param { key: "providerId", kind: ParamKind::ReqStr }])
    } else if str_eq(name, "get_provider_health") {
        Some(vec![Param { key: "providerId", kind: ParamKind::ReqStr }, Param { key: "appType", kind: ParamKind::ReqStr }])
    } else if str_eq(name, "reset_circuit_breaker") {
        Some(vec![Param { key: "providerId", kind: ParamKind::ReqStr }, Param { key: "appType", kind: ParamKind::ReqStr }])
    } else if str_eq(name, "get_circuit_breaker_config") {
        Some(Vec::new())
    } else if str_eq(name, "update_circuit_breaker_config") {
        Some(vec![Param { key: "config", kind: ParamKind::ReqTyped }])
    } else if str_eq(name, "get_circuit_breaker_stats") {
        Some(vec![Param { key: "providerId", kind: ParamKind::ReqStr }, Param { key: "appType", kind: ParamKind::ReqStr }])
    } else if str_eq(name, "get_failover_queue") {
        Some(vec![Param { key: "appType", kind: ParamKind::ReqStr }])
    } else if str_eq(name, "get_available_providers_for_failover") {
        Some(vec![Param { key: "appType", kind: ParamKind::ReqStr }])
    } else if str_eq(name, "add_to_failover_queue") {
        Some(vec![Param { key: "appType", kind: ParamKind::ReqStr }, Param { key: "providerId", kind: ParamKind::ReqStr }])
    } else if str_eq(name, "remove_from_failover_queue") {
        Some(vec![Param { key: "appType", kind: ParamKind::ReqStr }, Param { key: "providerId", kind: ParamKind::ReqStr }])
    } else if str_eq(name, "get_auto_failover_enabled") {
        Some(vec![Param { key: "appType", kind: ParamKind::ReqStr }])
    } else if str_eq(name, "set_auto_failover_enabled") {
        Some(vec![Param { key: "appType", kind: ParamKind::ReqStr }, Param { key: "enabled", kind: ParamKind::ReqBool }])
    } else {
        None
    }
}

/// The commands for usage statistics, stream checks and sessions.
pub open spec fn usage_params(name: Seq<char>) -> Option<Seq<Param>> {
    if name == "get_usage_summary"@ {
        Some(seq![p("startDate", ParamKind::OptI64), p("endDate", ParamKind::OptI64), p("appType", ParamKind::OptStr)])
    } else if name == "get_usage_summary_by_app"@ {
        Some(seq![p("startDate", ParamKind::OptI64), p("endDate", ParamKind::OptI64)])
    } else if name == "get_usage_trends"@ {
        Some(seq![p("startDate", ParamKind::OptI64), p("endDate", ParamKind::OptI64), p("appType", ParamKind::OptStr)])
    } else if name == "get_provider_stats"@ {
        Some(seq![p("startDate", ParamKind::OptI64), p("endDate", ParamKind::OptI64), p("appType", ParamKind::OptStr)])
    } else if name == "get_model_stats"@ {
        Some(seq![p("startDate", ParamKind::OptI64), p("endDate", ParamKind::OptI64), p("appType", ParamKind::OptStr)])
    } else if name == "get_request_logs"@ {
        Some(seq![p("filters", ParamKind::ReqTyped), p("page", ParamKind::ReqU32), p("pageSize", ParamKind::ReqU32)])
    } else if name == "get_request_detail"@ {
        Some(seq![p("requestId", ParamKind::ReqStr)])
    } else if name == "get_model_pricing"@ {
        Some(Seq::empty())
    } else if name == "update_model_pricing"@ {
        Some(seq![p("modelId", ParamKind::ReqStr), p("displayName", ParamKind::ReqStr), p("inputCost", ParamKind::ReqStr), p("outputCost", ParamKind::ReqStr), p("cacheReadCost", ParamKind::ReqStr), p("cacheCreationCost", ParamKind::ReqStr)])
    } else if name == "delete_model_pricing"@ {
        Some(seq![p("modelId", ParamKind::ReqStr)])
    } else if name == "check_provider_limits"@ {
        Some(seq![p("providerId", ParamKind::ReqStr), p("appType", ParamKind::ReqStr)])
    } else if name == "sync_session_usage"@ {
        Some(Seq::empty())
    } else if name == "get_usage_data_sources"@ {
        Some(Seq::empty())
    } else if name == "stream_check_provider"@ {
        Some(seq![p("appType", ParamKind::ReqTyped), p("providerId", ParamKind::ReqStr)])
    } else if name == "stream_check_all_providers"@ {
        Some(seq![p("appType", ParamKind::ReqTyped), p("proxyTargetsOnly", ParamKind::ReqBool)])
    } else if name == "get_stream_check_config"@ {
        Some(Seq::empty())
    } else if name == "save_stream_check_config"@ {
        Some(seq![p("config", ParamKind::ReqTyped)])
    } else if name == "list_sessions"@ {
        Some(Seq::empty())
    } else if name == "get_session_messages"@ {
        Some(seq![p("providerId", ParamKind::ReqStr), p("sourcePath", ParamKind::ReqStr)])
    } else if name == "delete_session"@ {
        Some(seq![p("providerId", ParamKind::ReqStr), p("sessionId", ParamKind::ReqStr), p("sourcePath", ParamKind::ReqStr)])
    } else if name == "delete_sessions"@ {
        Some(seq![p("items", ParamKind::ReqTyped)])
    } else if name == "launch_session_terminal"@ {
        Some(seq![p("command", ParamKind::ReqStr), p("cwd", ParamKind::OptStr), p("customConfig", ParamKind::OptStr)])
    } else {
        None
    }
}

/// Looks a command up among those for usage statistics, stream checks and sessions.
pub fn lookup_usage_params(name: &str) -> (r: Option<Vec<Param>>)
    ensures
        params_view(r) == usage_params(name@),
{
    if str_eq(name, "get_usage_summary") {
        Some(vec![Param { key: "startDate", kind: ParamKind::OptI64 }, Param { key: "endDate", kind: ParamKind::OptI64 }, Param { key: "appType", kind: ParamKind::OptStr }])
    } else if str_eq(name, "get_usage_summary_by_app") {
        Some(vec![Param { key: "startDate", kind: ParamKind::OptI64 }, Param { key: "endDate", kind: ParamKind::OptI64 }])
    } else if str_eq(name, "get_usage_trends") {
        Some(vec![Param { key: "startDate", kind: ParamKind::OptI64 }, Param { key: "endDate", kind: ParamKind::OptI64 }, Param { key: "appType", kind: ParamKind::OptStr }])
    } else if str_eq(name, "get_provider_stats") {
        Some(vec![Param { key: "startDate", kind: ParamKind::OptI64 }, Param { key: "endDate", kind: ParamKind::OptI64 }, Param { key: "appType", kind: ParamKind::OptStr }])
    } else if str_eq(name, "get_model_stats") {
        Some(vec![Param { key: "startDate", kind: ParamKind::OptI64 }, Param { key: "endDate", kind: ParamKind::OptI64 }, Param { key: "appType", kind: ParamKind::OptStr }])
    } else if str_eq(name, "get_request_logs") {
        Some(vec![Param { key: "filters", kind: ParamKind::ReqTyped }, Param { key: "page", kind: ParamKind::ReqU32 }, Param { key: "pageSize", kind: ParamKind::ReqU32 }])
    } else if str_eq(name, "get_request_detail") {
        Some(vec![Param { key: "requestId", kind: ParamKind::ReqStr }])
    } else if str_eq(name, "get_model_pricing") {
        Some(Vec::new())
    } else if str_eq(name, "update_model_pricing") {
        Some(vec![Param { key: "modelId", kind: ParamKind::ReqStr }, Param { key: "displayName", kind: ParamKind::ReqStr }, Param { key: "inputCost", kind: ParamKind::ReqStr }, Param { key: "outputCost", kind: ParamKind::ReqStr }, Param { key: "cacheReadCost", kind: ParamKind::ReqStr }, Param { key: "cacheCreationCost", kind: ParamKind::ReqStr }])
    } else if str_eq(name, "delete_model_pricing") {
        Some(vec![Param { key: "modelId", kind: ParamKind::ReqStr }])
    } else if str_eq(name, "check_provider_limits") {
        Some(vec![Param { key: "providerId", kind: ParamKind::ReqStr }, Param { key: "appType", kind: ParamKind::ReqStr }])
    } else if str_eq(name, "sync_session_usage") {
        Some(Vec::new())
    } else if str_eq(name, "get_usage_data_sources") {
        Some(Vec::new())
    } else if str_eq(name, "stream_check_provider") {
        Some(vec![Param { key: "appType", kind: ParamKind::ReqTyped }, Param { key: "providerId", kind: ParamKind::ReqStr }])
    } else if str_eq(name, "stream_check_all_providers") {
        Some(vec![Param { key: "appType", kind: ParamKind::ReqTyped }, Param { key: "proxyTargetsOnly", kind: ParamKind::ReqBool }])
    } else if str_eq(name, "get_stream_check_config") {
        Some(Vec::new())
    } else if str_eq(name, "save_stream_check_config") {
        Some(vec![Param { key: "config", kind: ParamKind::ReqTyped }])
    } else if str_eq(name, "list_sessions") {
        Some(Vec::new())
    } else if str_eq(name, "get_session_messages") {
        Some(vec![Param { key: "providerId", kind: ParamKind::ReqStr }, Param { key: "sourcePath", kind: ParamKind::ReqStr }])
    } else if str_eq(name, "delete_session") {
        Some(vec![Param { key: "providerId", kind: ParamKind::ReqStr }, Param { key: "sessionId", kind: ParamKind::ReqStr }, Param { key: "sourcePath", kind: ParamKind::ReqStr }])
    } else if str_eq(name, "delete_sessions") {
        Some(vec![Param { key: "items", kind: ParamKind::ReqTyped }])
    } else if str_eq(name, "launch_session_terminal") {
        Some(vec![Param { key: "command", kind: ParamKind::ReqStr }, Param { key: "cwd", kind: ParamKind::OptStr }, Param { key: "customConfig", kind: ParamKind::OptStr }])
    } else {
        None
    }
}

/// The commands for OpenClaw and Hermes.
pub open spec fn agent_params(name: Seq<char>) -> Option<Seq<Param>> {
    if name == "import_openclaw_providers_from_live"@ {
        Some(Seq::empty())
    } else if name == "get_openclaw_live_provider_ids"@ {
        Some(Seq::empty())
    } else if name == "get_openclaw_live_provider"@ {
        Some(seq![p("providerId", ParamKind::ReqStr)])
    } else if name == "scan_openclaw_config_health"@ {
        Some(Seq::empty())
    } else if name == "get_openclaw_default_model"@ {
        Some(Seq::empty())
    } else if name == "set_openclaw_default_model"@ {
        Some(seq![p("model", ParamKind::ReqTyped)])
    } else if name == "get_openclaw_model_catalog"@ {
        Some(Seq::empty())
    } else if name == "set_openclaw_model_catalog"@ {
        Some(seq![p("catalog", ParamKind::ReqTyped)])
    } else if name == "get_openclaw_agents_defaults"@ {
        Some(Seq::empty())
    } else if name == "set_openclaw_agents_defaults"@ {
        Some(seq![p("defaults", ParamKind::ReqTyped)])
    } else if name == "get_openclaw_env"@ {
        Some(Seq::empty())
    } else if name == "set_openclaw_env"@ {
        Some(seq![p("env", ParamKind::ReqTyped)])
    } else if name == "get_openclaw_tools"@ {
        Some(Seq::empty())
    } else if name == "set_openclaw_tools"@ {
        Some(seq![p("tools", ParamKind::ReqTyped)])
    } else if name == "import_hermes_providers_from_live"@ {
        Some(Seq::empty())
    } else if name == "get_hermes_live_provider_ids"@ {
        Some(Seq::empty())
    } else if name == "get_hermes_live_provider"@ {
        Some(seq![p("providerId", ParamKind::ReqStr)])
    } else if name == "get_hermes_model_config"@ {
        Some(Seq::empty())
    } else if name == "open_hermes_web_ui"@ {
        Some(seq![p("path", ParamKind::OptStr)])
    } else if name == "launch_hermes_dashboard"@ {
        Some(Seq::empty())
    } else if name == "get_hermes_memory"@ {
        Some(seq![p("kind", ParamKind::ReqTyped)])
    } else if name == "set_hermes_memory"@ {
        Some(seq![p("kind", ParamKind::ReqTyped), p("content", ParamKind::ReqStr)])
    } else if name == "get_hermes_memory_limits"@ {
        Some(Seq::empty())
    } else if name == "set_hermes_memory_enabled"@ {
        Some(seq![p("kind", ParamKind::ReqTyped), p("enabled", ParamKind::ReqBool)])
    } else {
        None
    }
}

/// Looks a command up among those for OpenClaw and Hermes.
pub fn lookup_agent_params(name: &str) -> (r: Option<Vec<Param>>)
    ensures
        params_view(r) == agent_params(name@),
{
    if str_eq(name, "import_openclaw_providers_from_live") {
        Some(Vec::new())
    } else if str_eq(name, "get_openclaw_live_provider_ids") {
        Some(Vec::new())
    } else if str_eq(name, "get_openclaw_live_provider") {
        Some(vec![Param { key: "providerId", kind: ParamKind::ReqStr }])
    } else if str_eq(name, "scan_openclaw_config_health") {
        Some(Vec::new())
    } else if str_eq(name, "get_openclaw_default_model") {
        Some(Vec::new())
    } else if str_eq(name, "set_openclaw_default_model") {
        Some(vec![Param { key: "model", kind: ParamKind::ReqTyped }])
    } else if str_eq(name, "get_openclaw_model_catalog") {
        Some(Vec::new())
    } else if str_eq(name, "set_openclaw_model_catalog") {
        Some(vec![Param { key: "catalog", kind: ParamKind::ReqTyped }])
    } else if str_eq(name, "get_openclaw_agents_defaults") {
        Some(Vec::new())
    } else if str_eq(name, "set_openclaw_agents_defaults") {
        Some(vec![Param { key: "defaults", kind: ParamKind::ReqTyped }])
    } else if str_eq(name, "get_openclaw_env") {
        Some(Vec::new())
    } else if str_eq(name, "set_openclaw_env") {
        Some(vec![Param { key: "env", kind: ParamKind::ReqTyped }])
    } else if str_eq(name, "get_openclaw_tools") {
        Some(Vec::new())
    } else if str_eq(name, "set_openclaw_tools") {
        Some(vec![Param { key: "tools", kind: ParamKind::ReqTyped }])
    } else if str_eq(name, "import_hermes_providers_from_live") {
        Some(Vec::new())
    } else if str_eq(name, "get_hermes_live_provider_ids") {
        Some(Vec::new())
    } else if str_eq(name, "get_hermes_live_provider") {
        Some(vec![Param { key: "providerId", kind: ParamKind::ReqStr }])
    } else if str_eq(name, "get_hermes_model_config") {
        Some(Vec::new())
    } else if str_eq(name, "open_hermes_web_ui") {
        Some(vec![Param { key: "path", kind: ParamKind::OptStr }])
    } else if str_eq(name, "launch_hermes_dashboard") {
        Some(Vec::new())
    } else if str_eq(name, "get_hermes_memory") {
        Some(vec![Param { key: "kind", kind: ParamKind::ReqTyped }])
    } else if str_eq(name, "set_hermes_memory") {
        Some(vec![Param { key: "kind", kind: ParamKind::ReqTyped }, Param { key: "content", kind: ParamKind::ReqStr }])
    } else if str_eq(name, "get_hermes_memory_limits") {
        Some(Vec::new())
    } else if str_eq(name, "set_hermes_memory_enabled") {
        Some(vec![Param { key: "kind", kind: ParamKind::ReqTyped }, Param { key: "enabled", kind: ParamKind::ReqBool }])
    } else {
        None
    }
}

/// The commands for the global proxy, sign-in and Copilot.
pub open spec fn account_params(name: Seq<char>) -> Option<Seq<Param>> {
    if name == "get_global_proxy_url"@ {
        Some(Seq::empty())
    } else if name == "set_global_proxy_url"@ {
        Some(seq![p("url", ParamKind::ReqStr)])
    } else if name == "test_proxy_url"@ {
        Some(seq![p("url", ParamKind::ReqStr)])
    } else if name == "get_upstream_proxy_status"@ {
        Some(Seq::empty())
    } else if name == "scan_local_proxies"@ {
        Some(Seq::empty())
    } else if name == "auth_start_login"@ {
        Some(seq![p("authProvider", ParamKind::ReqStr), p("githubDomain", ParamKind::OptStr)])
    } else if name == "auth_poll_for_account"@ {
        Some(seq![p("authProvider", ParamKind::ReqStr), p("deviceCode", ParamKind::ReqStr), p("githubDomain", ParamKind::OptStr)])
    } else if name == "auth_list_accounts"@ {
        Some(seq![p("authProvider", ParamKind::ReqStr)])
    } else if name == "auth_get_status"@ {
        Some(seq![p("authProvider", ParamKind::ReqStr)])
    } else if name == "auth_remove_account"@ {
        Some(seq![p("authProvider", ParamKind::ReqStr), p("accountId", ParamKind::ReqStr)])
    } else if name == "auth_set_default_account"@ {
        Some(seq![p("authProvider", ParamKind::ReqStr), p("accountId", ParamKind::ReqStr)])
    } else if name == "auth_logout"@ {
        Some(seq![p("authProvider", ParamKind::ReqStr)])
    } else if name == "copilot_start_device_flow"@ {
        Some(seq![p("githubDomain", ParamKind::OptStr)])
    } else if name == "copilot_poll_for_auth"@ {
        Some(seq![p("deviceCode", ParamKind::ReqStr), p("githubDomain", ParamKind::OptStr)])
    } else if name == "copilot_poll_for_account"@ {
        Some(seq![p("deviceCode", ParamKind::ReqStr), p("githubDomain", ParamKind::OptStr)])
    } else if name == "copilot_list_accounts"@ {
        Some(Seq::empty())
    } else if name == "copilot_remove_account"@ {
        Some(seq![p("accountId", ParamKind::ReqStr)])
    } else if name == "copilot_set_default_account"@ {
        Some(seq![p("accountId", ParamKind::ReqStr)])
    } else if name == "copilot_get_auth_status"@ {
        Some(Seq::empty())
    } else if name == "copilot_is_authenticated"@ {
        Some(Seq::empty())
    } else if name == "copilot_logout"@ {
        Some(Seq::empty())
    } else if name == "copilot_get_token"@ {
        Some(Seq::empty())
    } else if name == "copilot_get_token_for_account"@ {
        Some(seq![p("accountId", ParamKind::ReqStr)])
    } else if name == "copilot_get_models"@ {
        Some(Seq::empty())
    } else if name == "copilot_get_models_for_account"@ {
        Some(seq![p("accountId", ParamKind::ReqStr)])
    } else if name == "copilot_get_usage"@ {
        Some(Seq::empty())
    } else if name == "copilot_get_usage_for_account"@ {
        Some(seq![p("accountId", ParamKind::ReqStr)])
    } else {
        None
    }
}

/// Looks a command up among those for the global proxy, sign-in and Copilot.
pub fn lookup_account_params(name: &str) -> (r: Option<Vec<Param>>)
    ensures
        params_view(r) == account_params(name@),
{
    if str_eq(name, "get_global_proxy_url") {
        Some(Vec::new())
    } else if str_eq(name, "set_global_proxy_url") {
        Some(vec![Param { key: "url", kind: ParamKind::ReqStr }])
    } else if str_eq(name, "test_proxy_url") {
        Some(vec![Param { key: "url", kind: ParamKind::ReqStr }])
    } else if str_eq(name, "get_upstream_proxy_status") {
        Some(Vec::new())
    } else if str_eq(name, "scan_local_proxies") {
        Some(Vec::new())
    } else if str_eq(name, "auth_start_login") {
        Some(vec![Param { key: "authProvider", kind: ParamKind::ReqStr }, Param { key: "githubDomain", kind: ParamKind::OptStr }])
    } else if str_eq(name, "auth_poll_for_account") {
        Some(vec![Param { key: "authProvider", kind: ParamKind::ReqStr }, Param { key: "deviceCode", kind: ParamKind::ReqStr }, Param { key: "githubDomain", kind: ParamKind::OptStr }])
    } else if str_eq(name, "auth_list_accounts") {
        Some(vec![Param { key: "authProvider", kind: ParamKind::ReqStr }])
    } else if str_eq(name, "auth_get_status") {
        Some(vec![Param { key: "authProvider", kind: ParamKind::ReqStr }])
    } else if str_eq(name, "auth_remove_account") {
        Some(vec![Param { key: "authProvider", kind: ParamKind::ReqStr }, Param { key: "accountId", kind: ParamKind::ReqStr }])
    } else if str_eq(name, "auth_set_default_account") {
        Some(vec![Param { key: "authProvider", kind: ParamKind::ReqStr }, Param { key: "accountId", kind: ParamKind::ReqStr }])
    } else if str_eq(name, "auth_logout") {
        Some(vec![Param { key: "authProvider", kind: ParamKind::ReqStr }])
    } else if str_eq(name, "copilot_start_device_flow") {
        Some(vec![Param { key: "githubDomain", kind: ParamKind::OptStr }])
    } else if str_eq(name, "copilot_poll_for_auth") {
        Some(vec![Param { key: "deviceCode", kind: ParamKind::ReqStr }, Param { key: "githubDomain", kind: ParamKind::OptStr }])
    } else if str_eq(name, "copilot_poll_for_account") {
        Some(vec![Param { key: "deviceCode", kind: ParamKind::ReqStr }, Param { key: "githubDomain", kind: ParamKind::OptStr }])
    } else if str_eq(name, "copilot_list_accounts") {
        Some(Vec::new())
    } else if str_eq(name, "copilot_remove_account") {
        Some(vec![Param { key: "accountId", kind: ParamKind::ReqStr }])
    } else if str_eq(name, "copilot_set_default_account") {
        Some(vec![Param { key: "accountId", kind: ParamKind::ReqStr }])
    } else if str_eq(name, "copilot_get_auth_status") {
        Some(Vec::new())
    } else if str_eq(name, "copilot_is_authenticated") {
        Some(Vec::new())
    } else if str_eq(name, "copilot_logout") {
        Some(Vec::new())
    } else if str_eq(name, "copilot_get_token") {
        Some(Vec::new())
    } else if str_eq(name, "copilot_get_token_for_account") {
        Some(vec![Param { key: "accountId", kind: ParamKind::ReqStr }])
    } else if str_eq(name, "copilot_get_models") {
        Some(Vec::new())
    } else if str_eq(name, "copilot_get_models_for_account") {
        Some(vec![Param { key: "accountId", kind: ParamKind::ReqStr }])
    } else if str_eq(name, "copilot_get_usage") {
        Some(Vec::new())
    } else if str_eq(name, "copilot_get_usage_for_account") {
        Some(vec![Param { key: "accountId", kind: ParamKind::ReqStr }])
    } else {
        None
    }
}

/// The commands for OMO, workspace files, lightweight mode and WebDAV.
pub open spec fn workspace_params(name: Seq<char>) -> Option<Seq<Param>> {
    if name == "read_omo_local_file"@ {
        Some(Seq::empty())
    } else if name == "get_current_omo_provider_id"@ {
        Some(Seq::empty())
    } else if name == "disable_current_omo"@ {
        Some(Seq::empty())
    } else if name == "read_omo_slim_local_file"@ {
        Some(Seq::empty())
    } else if name == "get_current_omo_slim_provider_id"@ {
        Some(Seq::empty())
    } else if name == "disable_current_omo_slim"@ {
        Some(Seq::empty())
    } else if name == "read_workspace_file"@ {
        Some(seq![p("filename", ParamKind::ReqStr)])
    } else if name == "write_workspace_file"@ {
        Some(seq![p("filename", ParamKind::ReqStr), p("content", ParamKind::ReqStr)])
    } else if name == "list_daily_memory_files"@ {
        Some(Seq::empty())
    } else if name == "read_daily_memory_file"@ {
        Some(seq![p("filename", ParamKind::ReqStr)])
    } else if name == "write_daily_memory_file"@ {
        Some(seq![p("filename", ParamKind::ReqStr), p("content", ParamKind::ReqStr)])
    } else if name == "delete_daily_memory_file"@ {
        Some(seq![p("filename", ParamKind::ReqStr)])
    } else if name == "search_daily_memory_files"@ {
        Some(seq![p("query", ParamKind::ReqStr)])
    } else if name == "open_workspace_directory"@ {
        Some(seq![p("subdir", ParamKind::ReqStr)])
    } else if name == "enter_lightweight_mode"@ {
        Some(Seq::empty())
    } else if name == "exit_lightweight_mode"@ {
        Some(Seq::empty())
    } else if name == "is_lightweight_mode"@ {
        Some(Seq::empty())
    } else if name == "webdav_test_connection"@ {
        Some(seq![p("settings", ParamKind::ReqTyped), p("preserveEmptyPassword", ParamKind::OptBool)])
    } else if name == "webdav_sync_upload"@ {
        Some(Seq::empty())
    } else if name == "webdav_sync_download"@ {
        Some(Seq::empty())
    } else if name == "webdav_sync_save_settings"@ {
        Some(seq![p("settings", ParamKind::ReqTyped), p("passwordTouched", ParamKind::OptBool)])
    } else if name == "webdav_sync_fetch_remote_info"@ {
        Some(Seq::empty())
    } else {
        None
    }
}

/// Looks a command up among those for OMO, workspace files, lightweight mode and WebDAV.
pub fn lookup_workspace_params(name: &str) -> (r: Option<Vec<Param>>)
    ensures
        params_view(r) == workspace_params(name@),
{
    if str_eq(name, "read_omo_local_file") {
        Some(Vec::new())
    } else if str_eq(name, "get_current_omo_provider_id") {
        Some(Vec::new())
    } else if str_eq(name, "disable_current_omo") {
        Some(Vec::new())
    } else if str_eq(name, "read_omo_slim_local_file") {
        Some(Vec::new())
    } else if str_eq(name, "get_current_omo_slim_provider_id") {
        Some(Vec::new())
    } else if str_eq(name, "disable_current_omo_slim") {
        Some(Vec::new())
    } else if str_eq(name, "read_workspace_file") {
        Some(vec![Param { key: "filename", kind: ParamKind::ReqStr }])
    } else if str_eq(name, "write_workspace_file") {
        Some(vec![Param { key: "filename", kind: ParamKind::ReqStr }, Param { key: "content", kind: ParamKind::ReqStr }])
    } else if str_eq(name, "list_daily_memory_files") {
        Some(Vec::new())
    } else if str_eq(name, "read_daily_memory_file") {
        Some(vec![Param { key: "filename", kind: ParamKind::ReqStr }])
    } else if str_eq(name, "write_daily_memory_file") {
        Some(vec![Param { key: "filename", kind: ParamKind::ReqStr }, Param { key: "content", kind: ParamKind::ReqStr }])
    } else if str_eq(name, "delete_daily_memory_file") {
        Some(vec![Param { key: "filename", kind: ParamKind::ReqStr }])
    } else if str_eq(name, "search_daily_memory_files") {
        Some(vec![Param { key: "query", kind: ParamKind::ReqStr }])
    } else if str_eq(name, "open_workspace_directory") {
        Some(vec![Param { key: "subdir", kind: ParamKind::ReqStr }])
    } else if str_eq(name, "enter_lightweight_mode") {
        Some(Vec::new())
    } else if str_eq(name, "exit_lightweight_mode") {
        Some(Vec::new())
    } else if str_eq(name, "is_lightweight_mode") {
        Some(Vec::new())
    } else if str_eq(name, "webdav_test_connection") {
        Some(vec![Param { key: "settings", kind: ParamKind::ReqTyped }, Param { key: "preserveEmptyPassword", kind: ParamKind::OptBool }])
    } else if str_eq(name, "webdav_sync_upload") {
        Some(Vec::new())
    } else if str_eq(name, "webdav_sync_download") {
        Some(Vec::new())
    } else if str_eq(name, "webdav_sync_save_settings") {
        Some(vec![Param { key: "settings", kind: ParamKind::ReqTyped }, Param { key: "passwordTouched", kind: ParamKind::OptBool }])
    } else if str_eq(name, "webdav_sync_fetch_remote_info") {
        Some(Vec::new())
    } else {
        None
    }
}

/// The commands for import, export, backups, deep links and environment variables.
pub open spec fn data_params(name: Seq<char>) -> Option<Seq<Param>> {
    if name == "export_config_to_file"@ {
        Some(seq![p("filePath", ParamKind::ReqStr)])
    } else if name == "import_config_from_file"@ {
        Some(seq![p("filePath", ParamKind::ReqStr)])
    } else if name == "sync_current_providers_live"@ {
        Some(Seq::empty())
    } else if name == "save_file_dialog"@ {
        Some(seq![p("defaultName", ParamKind::ReqStr)])
    } else if name == "open_file_dialog"@ {
        Some(Seq::empty())
    } else if name == "open_zip_file_dialog"@ {
        Some(Seq::empty())
    } else if name == "create_db_backup"@ {
        Some(Seq::empty())
    } else if name == "list_db_backups"@ {
        Some(Seq::empty())
    } else if name == "restore_db_backup"@ {
        Some(seq![p("filename", ParamKind::ReqStr)])
    } else if name == "rename_db_backup"@ {
        Some(seq![p("oldFilename", ParamKind::ReqStr), p("newName", ParamKind::ReqStr)])
    } else if name == "delete_db_backup"@ {
        Some(seq![p("filename", ParamKind::ReqStr)])
    } else if name == "parse_deeplink"@ {
        Some(seq![p("url", ParamKind::ReqStr)])
    } else if name == "merge_deeplink_config"@ {
        Some(seq![p("request", ParamKind::ReqTyped)])
    } else if name == "import_from_deeplink"@ {
        Some(seq![p("request", ParamKind::ReqTyped)])
    } else if name == "import_from_deeplink_unified"@ {
        Some(seq![p("request", ParamKind::ReqTyped)])
    } else if name == "check_env_conflicts"@ {
        Some(seq![p("app", ParamKind::ReqStr)])
    } else if name == "delete_env_vars"@ {
        Some(seq![p("conflicts", ParamKind::ReqTyped)])
    } else if name == "restore_env_backup"@ {
        Some(seq![p("backupPath", ParamKind::ReqStr)])
    } else {
        None
    }
}

/// Looks a command up among those for import, export, backups, deep links and environment variables.
pub fn lookup_data_params(name: &str) -> (r: Option<Vec<Param>>)
    ensures
        params_view(r) == data_params(name@),
{
    if str_eq(name, "export_config_to_file") {
        Some(vec![Param { key: "filePath", kind: ParamKind::ReqStr }])
    } else if str_eq(name, "import_config_from_file") {
        Some(vec![Param { key: "filePath", kind: ParamKind::ReqStr }])
    } else if str_eq(name, "sync_current_providers_live") {
        Some(Vec::new())
    } else if str_eq(name, "save_file_dialog") {
        Some(vec![Param { key: "defaultName", kind: ParamKind::ReqStr }])
    } else if str_eq(name, "open_file_dialog") {
        Some(Vec::new())
    } else if str_eq(name, "open_zip_file_dialog") {
        Some(Vec::new())
    } else if str_eq(name, "create_db_backup") {
        Some(Vec::new())
    } else if str_eq(name, "list_db_backups") {
        Some(Vec::new())
    } else if str_eq(name, "restore_db_backup") {
        Some(vec![Param { key: "filename", kind: ParamKind::ReqStr }])
    } else if str_eq(name, "rename_db_backup") {
        Some(vec![Param { key: "oldFilename", kind: ParamKind::ReqStr }, Param { key: "newName", kind: ParamKind::ReqStr }])
    } else if str_eq(name, "delete_db_backup") {
        Some(vec![Param { key: "filename", kind: ParamKind::ReqStr }])
    } else if str_eq(name, "parse_deeplink") {
        Some(vec![Param { key: "url", kind: ParamKind::ReqStr }])
    } else if str_eq(name, "merge_deeplink_config") {
        Some(vec![Param { key: "request", kind: ParamKind::ReqTyped }])
    } else if str_eq(name, "import_from_deeplink") {
        Some(vec![Param { key: "request", kind: ParamKind::ReqTyped }])
    } else if str_eq(name, "import_from_deeplink_unified") {
        Some(vec![Param { key: "request", kind: ParamKind::ReqTyped }])
    } else if str_eq(name, "check_env_conflicts") {
        Some(vec![Param { key: "app", kind: ParamKind::ReqStr }])
    } else if str_eq(name, "delete_env_vars") {
        Some(vec![Param { key: "conflicts", kind: ParamKind::ReqTyped }])
    } else if str_eq(name, "restore_env_backup") {
        Some(vec![Param { key: "backupPath", kind: ParamKind::ReqStr }])
    } else {
        None
    }
}

/// The commands for skills and launch at login.
pub open spec fn skill_params(name: Seq<char>) -> Option<Seq<Param>> {
    if name == "get_installed_skills"@ {
        Some(Seq::empty())
    } else if name == "get_skill_backups"@ {
        Some(Seq::empty())
    } else if name == "delete_skill_backup"@ {
        Some(seq![p("backupId", ParamKind::ReqStr)])
    } else if name == "install_skill_unified"@ {
        Some(seq![p("skill", ParamKind::ReqTyped), p("currentApp", ParamKind::ReqStr)])
    } else if name == "uninstall_skill_unified"@ {
        Some(seq![p("id", ParamKind::ReqStr)])
    } else if name == "restore_skill_backup"@ {
        Some(seq![p("backupId", ParamKind::ReqStr), p("currentApp", ParamKind::ReqStr)])
    } else if name == "toggle_skill_app"@ {
        Some(seq![p("id", ParamKind::ReqStr), p("app", ParamKind::ReqStr), p("enabled", ParamKind::ReqBool)])
    } else if name == "scan_unmanaged_skills"@ {
        Some(Seq::empty())
    } else if name == "import_skills_from_apps"@ {
        Some(seq![p("imports", ParamKind::ReqTyped)])
    } else if name == "discover_available_skills"@ {
        Some(Seq::empty())
    } else if name == "check_skill_updates"@ {
        Some(Seq::empty())
    } else if name == "update_skill"@ {
        Some(seq![p("id", ParamKind::ReqStr)])
    } else if name == "migrate_skill_storage"@ {
        Some(seq![p("location", ParamKind::ReqTyped)])
    } else if name == "search_skills_sh"@ {
        Some(seq![p("query", ParamKind::ReqStr), p("limit", ParamKind::ReqUsize), p("offset", ParamKind::ReqUsize)])
    } else if name == "get_skills"@ {
        Some(Seq::empty())
    } else if name == "get_skills_for_app"@ {
        Some(seq![p("app", ParamKind::ReqStr)])
    } else if name == "install_skill"@ {
        Some(seq![p("directory", ParamKind::ReqStr)])
    } else if name == "install_skill_for_app"@ {
        Some(seq![p("app", ParamKind::ReqStr), p("directory", ParamKind::ReqStr)])
    } else if name == "uninstall_skill"@ {
        Some(seq![p("directory", ParamKind::ReqStr)])
    } else if name == "uninstall_skill_for_app"@ {
        Some(seq![p("app", ParamKind::ReqStr), p("directory", ParamKind::ReqStr)])
    } else if name == "get_skill_repos"@ {
        Some(Seq::empty())
    } else if name == "add_skill_repo"@ {
        Some(seq![p("repo", ParamKind::ReqTyped)])
    } else if name == "remove_skill_repo"@ {
        Some(seq![p("owner", ParamKind::ReqStr), p("name", ParamKind::ReqStr)])
    } else if name == "install_skills_from_zip"@ {
        Some(seq![p("filePath", ParamKind::ReqStr), p("currentApp", ParamKind::ReqStr)])
    } else if name == "set_auto_launch"@ {
        Some(seq![p("enabled", ParamKind::ReqBool)])
    } else if name == "get_auto_launch_status"@ {
        Some(Seq::empty())
    } else {
        None
    }
}

/// Looks a command up among those for skills and launch at login.
pub fn lookup_skill_params(name: &str) -> (r: Option<Vec<Param>>)
    ensures
        params_view(r) == skill_params(name@),
{
    if str_eq(name, "get_installed_skills") {
        Some(Vec::new())
    } else if str_eq(name, "get_skill_backups") {
        Some(Vec::new())
    } else if str_eq(name, "delete_skill_backup") {
        Some(vec![Param { key: "backupId", kind: ParamKind::ReqStr }])
    } else if str_eq(name, "install_skill_unified") {
        Some(vec![Param { key: "skill", kind: ParamKind::ReqTyped }, Param { key: "currentApp", kind: ParamKind::ReqStr }])
    } else if str_eq(name, "uninstall_skill_unified") {
        Some(vec![Param { key: "id", kind: ParamKind::ReqStr }])
    } else if str_eq(name, "restore_skill_backup") {
        Some(vec![Param { key: "backupId", kind: ParamKind::ReqStr }, Param { key: "currentApp", kind: ParamKind::ReqStr }])
    } else if str_eq(name, "toggle_skill_app") {
        Some(vec![Param { key: "id", kind: ParamKind::ReqStr }, Param { key: "app", kind: ParamKind::ReqStr }, Param { key: "enabled", kind: ParamKind::ReqBool }])
    } else if str_eq(name, "scan_unmanaged_skills") {
        Some(Vec::new())
    } else if str_eq(name, "import_skills_from_apps") {
        Some(vec![Param { key: "imports", kind: ParamKind::ReqTyped }])
    } else if str_eq(name, "discover_available_skills") {
        Some(Vec::new())
    } else if str_eq(name, "check_skill_updates") {
        Some(Vec::new())
    } else if str_eq(name, "update_skill") {
        Some(vec![Param { key: "id", kind: ParamKind::ReqStr }])
    } else if str_eq(name, "migrate_skill_storage") {
        Some(vec![Param { key: "location", kind: ParamKind::ReqTyped }])
    } else if str_eq(name, "search_skills_sh") {
        Some(vec![Param { key: "query", kind: ParamKind::ReqStr }, Param { key: "limit", kind: ParamKind::ReqUsize }, Param { key: "offset", kind: ParamKind::ReqUsize }])
    } else if str_eq(name, "get_skills") {
        Some(Vec::new())
    } else if str_eq(name, "get_skills_for_app") {
        Some(vec![Param { key: "app", kind: ParamKind::ReqStr }])
    } else if str_eq(name, "install_skill") {
        Some(vec![Param { key: "directory", kind: ParamKind::ReqStr }])
    } else if str_eq(name, "install_skill_for_app") {
        Some(vec![Param { key: "app", kind: ParamKind::ReqStr }, Param { key: "directory", kind: ParamKind::ReqStr }])
    } else if str_eq(name, "uninstall_skill") {
        Some(vec![Param { key: "directory", kind: ParamKind::ReqStr }])
    } else if str_eq(name, "uninstall_skill_for_app") {
        Some(vec![Param { key: "app", kind: ParamKind::ReqStr }, Param { key: "directory", kind: ParamKind::ReqStr }])
    } else if str_eq(name, "get_skill_repos") {
        Some(Vec::new())
    } else if str_eq(name, "add_skill_repo") {
        Some(vec![Param { key: "repo", kind: ParamKind::ReqTyped }])
    } else if str_eq(name, "remove_skill_repo") {
        Some(vec![Param { key: "owner", kind: ParamKind::ReqStr }, Param { key: "name", kind: ParamKind::ReqStr }])
    } else if str_eq(name, "install_skills_from_zip") {
        Some(vec![Param { key: "filePath", kind: ParamKind::ReqStr }, Param { key: "currentApp", kind: ParamKind::ReqStr }])
    } else if str_eq(name, "set_auto_launch") {
        Some(vec![Param { key: "enabled", kind: ParamKind::ReqBool }])
    } else if str_eq(name, "get_auto_launch_status") {
        Some(Vec::new())
    } else {
        None
    }
}

/// The arguments of a command, if the dispatcher knows the command.
pub open spec fn command_params(name: Seq<char>) -> Option<Seq<Param>> {
    either(provider_params(name), either(config_params(name), either(settings_params(name), either(prompt_params(name), either(proxy_params(name), either(usage_params(name), either(agent_params(name), either(account_params(name), either(workspace_params(name), either(data_params(name), skill_params(name)))))))))))
}

/// Looks a command up in the table.
pub fn lookup_command_params(name: &str) -> (r: Option<Vec<Param>>)
    ensures
        params_view(r) == command_params(name@),
{
    let found = lookup_provider_params(name);
    if found.is_some() {
        return found;
    }
    let found = lookup_config_params(name);
    if found.is_some() {
        return found;
    }
    let found = lookup_settings_params(name);
    if found.is_some() {
        return found;
    }
    let found = lookup_prompt_params(name);
    if found.is_some() {
        return found;
    }
    let found = lookup_proxy_params(name);
    if found.is_some() {
        return found;
    }
    let found = lookup_usage_params(name);
    if found.is_some() {
        return found;
    }
    let found = lookup_agent_params(name);
    if found.is_some() {
        return found;
    }
    let found = lookup_account_params(name);
    if found.is_some() {
        return found;
    }
    let found = lookup_workspace_params(name);
    if found.is_some() {
        return found;
    }
    let found = lookup_data_params(name);
    if found.is_some() {
        return found;
    }
    let found = lookup_skill_params(name);
    if found.is_some() {
        return found;
    }
    None
}

} // verus!
