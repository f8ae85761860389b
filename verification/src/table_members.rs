//! What the command table says, checked command by command against the
//! handlers it stands for: each command reads exactly these members of the
//! request, in this order, each in this way.

use vstd::prelude::*;
use crate::dispatch::{Param, ParamKind};
use crate::table::command_params;

verus! {

/// The commands for provider management read these members of the request, in this
/// order, each as its kind says.
pub proof fn provider_commands_read_their_members()
    ensures
        command_params("get_providers"@) == Some(seq![Param { key: "app", kind: ParamKind::ReqStr }]),
        command_params("get_current_provider"@) == Some(seq![Param { key: "app", kind: ParamKind::ReqStr }]),
        command_params("add_provider"@) == Some(seq![Param { key: "app", kind: ParamKind::ReqStr }, Param { key: "provider", kind: ParamKind::ReqTyped }, Param { key: "addToLive", kind: ParamKind::OptBool }]),
        command_params("update_provider"@) == Some(seq![Param { key: "app", kind: ParamKind::ReqStr }, Param { key: "provider", kind: ParamKind::ReqTyped }, Param { key: "originalId", kind: ParamKind::OptStr }]),
        command_params("delete_provider"@) == Some(seq![Param { key: "app", kind: ParamKind::ReqStr }, Param { key: "id", kind: ParamKind::ReqStr }]),
        command_params("remove_provider_from_live_config"@) == Some(seq![Param { key: "app", kind: ParamKind::ReqStr }, Param { key: "id", kind: ParamKind::ReqStr }]),
        command_params("switch_provider"@) == Some(seq![Param { key: "app", kind: ParamKind::ReqStr }, Param { key: "id", kind: ParamKind::ReqStr }]),
        command_params("import_default_config"@) == Some(seq![Param { key: "app", kind: ParamKind::ReqStr }]),
        command_params("get_claude_desktop_status"@) == Some(Seq::<Param>::empty()),
        command_params("get_claude_desktop_default_routes"@) == Some(Seq::<Param>::empty()),
        command_params("import_claude_desktop_providers_from_claude"@) == Some(Seq::<Param>::empty()),
        command_params("queryProviderUsage"@) == Some(seq![Param { key: "providerId", kind: ParamKind::ReqStr }, Param { key: "app", kind: ParamKind::ReqStr }]),
        command_params("testUsageScript"@) == Some(seq![Param { key: "providerId", kind: ParamKind::ReqStr }, Param { key: "app", kind: ParamKind::ReqStr }, Param { key: "scriptCode", kind: ParamKind::ReqStr }, Param { key: "timeout", kind: ParamKind::OptU64 }, Param { key: "apiKey", kind: ParamKind::OptStr }, Param { key: "baseUrl", kind: ParamKind::OptStr }, Param { key: "accessToken", kind: ParamKind::OptStr }, Param { key: "userId", kind: ParamKind::OptStr }, Param { key: "templateType", kind: ParamKind::OptStr }]),
        command_params("read_live_provider_settings"@) == Some(seq![Param { key: "app", kind: ParamKind::ReqStr }]),
        command_params("test_api_endpoints"@) == Some(seq![Param { key: "urls", kind: ParamKind::ReqTyped }, Param { key: "timeoutSecs", kind: ParamKind::OptU64 }]),
        command_params("get_custom_endpoints"@) == Some(seq![Param { key: "app", kind: ParamKind::ReqStr }, Param { key: "providerId", kind: ParamKind::ReqStr }]),
        command_params("add_custom_endpoint"@) == Some(seq![Param { key: "app", kind: ParamKind::ReqStr }, Param { key: "providerId", kind: ParamKind::ReqStr }, Param { key: "url", kind: ParamKind::ReqStr }]),
        command_params("remove_custom_endpoint"@) == Some(seq![Param { key: "app", kind: ParamKind::ReqStr }, Param { key: "providerId", kind: ParamKind::ReqStr }, Param { key: "url", kind: ParamKind::ReqStr }]),
        command_params("update_endpoint_last_used"@) == Some(seq![Param { key: "app", kind: ParamKind::ReqStr }, Param { key: "providerId", kind: ParamKind::ReqStr }, Param { key: "url", kind: ParamKind::ReqStr }]),
        command_params("update_providers_sort_order"@) == Some(seq![Param { key: "app", kind: ParamKind::ReqStr }, Param { key: "updates", kind: ParamKind::ReqTyped }]),
        command_params("get_universal_providers"@) == Some(Seq::<Param>::empty()),
        command_params("get_universal_provider"@) == Some(seq![Param { key: "id", kind: ParamKind::ReqStr }]),
        command_params("upsert_universal_provider"@) == Some(seq![Param { key: "provider", kind: ParamKind::ReqTyped }]),
        command_params("delete_universal_provider"@) == Some(seq![Param { key: "id", kind: ParamKind::ReqStr }]),
        command_params("sync_universal_provider"@) == Some(seq![Param { key: "id", kind: ParamKind::ReqStr }]),
        command_params("import_opencode_providers_from_live"@) == Some(Seq::<Param>::empty()),
        command_params("get_opencode_live_provider_ids"@) == Some(Seq::<Param>::empty()),
{
    reveal_strlit("get_providers");
    assert("get_providers"@.len() == 13);
    reveal_strlit("get_current_provider");
    assert("get_current_provider"@.len() == 20);
    reveal_strlit("add_provider");
    assert("add_provider"@.len() == 12);
    reveal_strlit("update_provider");
    assert("update_provider"@.len() == 15);
    reveal_strlit("delete_provider");
    assert("delete_provider"@.len() == 15);
    reveal_strlit("remove_provider_from_live_config");
    assert("remove_provider_from_live_config"@.len() == 32);
    reveal_strlit("switch_provider");
    assert("switch_provider"@.len() == 15);
    reveal_strlit("import_default_config");
    assert("import_default_config"@.len() == 21);
    reveal_strlit("get_claude_desktop_status");
    assert("get_claude_desktop_status"@.len() == 25);
    reveal_strlit("get_claude_desktop_default_routes");
    assert("get_claude_desktop_default_routes"@.len() == 33);
    reveal_strlit("import_claude_desktop_providers_from_claude");
    assert("import_claude_desktop_providers_from_claude"@.len() == 43);
    reveal_strlit("queryProviderUsage");
    assert("queryProviderUsage"@.len() == 18);
    reveal_strlit("testUsageScript");
    assert("testUsageScript"@.len() == 15);
    reveal_strlit("read_live_provider_settings");
    assert("read_live_provider_settings"@.len() == 27);
    reveal_strlit("test_api_endpoints");
    assert("test_api_endpoints"@.len() == 18);
    reveal_strlit("get_custom_endpoints");
    assert("get_custom_endpoints"@.len() == 20);
    reveal_strlit("add_custom_endpoint");
    assert("add_custom_endpoint"@.len() == 19);
    reveal_strlit("remove_custom_endpoint");
    assert("remove_custom_endpoint"@.len() == 22);
    reveal_strlit("update_endpoint_last_used");
    assert("update_endpoint_last_used"@.len() == 25);
    reveal_strlit("update_providers_sort_order");
    assert("update_providers_sort_order"@.len() == 27);
    reveal_strlit("get_universal_providers");
    assert("get_universal_providers"@.len() == 23);
    reveal_strlit("get_universal_provider");
    assert("get_universal_provider"@.len() == 22);
    reveal_strlit("upsert_universal_provider");
    assert("upsert_universal_provider"@.len() == 25);
    reveal_strlit("delete_universal_provider");
    assert("delete_universal_provider"@.len() == 25);
    reveal_strlit("sync_universal_provider");
    assert("sync_universal_provider"@.len() == 23);
    reveal_strlit("import_opencode_providers_from_live");
    assert("import_opencode_providers_from_live"@.len() == 35);
    reveal_strlit("get_opencode_live_provider_ids");
    assert("get_opencode_live_provider_ids"@.len() == 30);
    assert("delete_provider"@[0] != "update_provider"@[0]);
    assert("switch_provider"@[0] != "update_provider"@[0]);
    assert("switch_provider"@[0] != "delete_provider"@[0]);
    assert("testUsageScript"@[0] != "update_provider"@[0]);
    assert("testUsageScript"@[0] != "delete_provider"@[0]);
    assert("testUsageScript"@[0] != "switch_provider"@[0]);
    assert("test_api_endpoints"@[0] != "queryProviderUsage"@[0]);
    assert("get_custom_endpoints"@[6] != "get_current_provider"@[6]);
    assert("update_endpoint_last_used"@[0] != "get_claude_desktop_status"@[0]);
    assert("update_providers_sort_order"@[0] != "read_live_provider_settings"@[0]);
    assert("get_universal_provider"@[0] != "remove_custom_endpoint"@[0]);
    assert("upsert_universal_provider"@[0] != "get_claude_desktop_status"@[0]);
    assert("upsert_universal_provider"@[2] != "update_endpoint_last_used"@[2]);
    assert("delete_universal_provider"@[0] != "get_claude_desktop_status"@[0]);
    assert("delete_universal_provider"@[0] != "update_endpoint_last_used"@[0]);
    assert("delete_universal_provider"@[0] != "upsert_universal_provider"@[0]);
    assert("sync_universal_provider"@[0] != "get_universal_providers"@[0]);
}

/// The commands for configuration files and miscellany read these members of the request, in this
/// order, each as its kind says.
pub proof fn config_commands_read_their_members()
    ensures
        command_params("get_claude_config_status"@) == Some(Seq::<Param>::empty()),
        command_params("get_config_status"@) == Some(seq![Param { key: "app", kind: ParamKind::ReqStr }]),
        command_params("get_claude_code_config_path"@) == Some(Seq::<Param>::empty()),
        command_params("get_config_dir"@) == Some(seq![Param { key: "app", kind: ParamKind::ReqStr }]),
        command_params("open_config_folder"@) == Some(seq![Param { key: "app", kind: ParamKind::ReqStr }]),
        command_params("pick_directory"@) == Some(seq![Param { key: "defaultPath", kind: ParamKind::OptStr }]),
        command_params("open_external"@) == Some(seq![Param { key: "url", kind: ParamKind::ReqStr }]),
        command_params("get_init_error"@) == Some(Seq::<Param>::empty()),
        command_params("get_migration_result"@) == Some(Seq::<Param>::empty()),
        command_params("get_skills_migration_result"@) == Some(Seq::<Param>::empty()),
        command_params("get_app_config_path"@) == Some(Seq::<Param>::empty()),
        command_params("open_app_config_folder"@) == Some(Seq::<Param>::empty()),
        command_params("get_claude_common_config_snippet"@) == Some(Seq::<Param>::empty()),
        command_params("set_claude_common_config_snippet"@) == Some(seq![Param { key: "snippet", kind: ParamKind::ReqStr }]),
        command_params("get_common_config_snippet"@) == Some(seq![Param { key: "appType", kind: ParamKind::ReqStr }]),
        command_params("set_common_config_snippet"@) == Some(seq![Param { key: "appType", kind: ParamKind::ReqStr }, Param { key: "snippet", kind: ParamKind::ReqStr }]),
        command_params("extract_common_config_snippet"@) == Some(seq![Param { key: "appType", kind: ParamKind::ReqStr }, Param { key: "settingsConfig", kind: ParamKind::OptStr }]),
        command_params("copy_text_to_clipboard"@) == Some(seq![Param { key: "text", kind: ParamKind::ReqStr }]),
        command_params("check_for_updates"@) == Some(Seq::<Param>::empty()),
        command_params("is_portable_mode"@) == Some(Seq::<Param>::empty()),
        command_params("get_tool_versions"@) == Some(seq![Param { key: "tools", kind: ParamKind::OptStrList }, Param { key: "wslShellByTool", kind: ParamKind::OptTyped }]),
        command_params("open_provider_terminal"@) == Some(seq![Param { key: "app", kind: ParamKind::ReqStr }, Param { key: "providerId", kind: ParamKind::ReqStr }, Param { key: "cwd", kind: ParamKind::OptStr }]),
        command_params("set_window_theme"@) == Some(seq![Param { key: "theme", kind: ParamKind::ReqStr }]),
{
    reveal_strlit("get_providers");
    assert("get_providers"@.len() == 13);
    reveal_strlit("get_current_provider");
    assert("get_current_provider"@.len() == 20);
    reveal_strlit("add_provider");
    assert("add_provider"@.len() == 12);
    reveal_strlit("update_provider");
    assert("update_provider"@.len() == 15);
    reveal_strlit("delete_provider");
    assert("delete_provider"@.len() == 15);
    reveal_strlit("remove_provider_from_live_config");
    assert("remove_provider_from_live_config"@.len() == 32);
    reveal_strlit("switch_provider");
    assert("switch_provider"@.len() == 15);
    reveal_strlit("import_default_config");
    assert("import_default_config"@.len() == 21);
    reveal_strlit("get_claude_desktop_status");
    assert("get_claude_desktop_status"@.len() == 25);
    reveal_strlit("get_claude_desktop_default_routes");
    assert("get_claude_desktop_default_routes"@.len() == 33);
    reveal_strlit("import_claude_desktop_providers_from_claude");
    assert("import_claude_desktop_providers_from_claude"@.len() == 43);
    reveal_strlit("queryProviderUsage");
    assert("queryProviderUsage"@.len() == 18);
    reveal_strlit("testUsageScript");
    assert("testUsageScript"@.len() == 15);
    reveal_strlit("read_live_provider_settings");
    assert("read_live_provider_settings"@.len() == 27);
    reveal_strlit("test_api_endpoints");
    assert("test_api_endpoints"@.len() == 18);
    reveal_strlit("get_custom_endpoints");
    assert("get_custom_endpoints"@.len() == 20);
    reveal_strlit("add_custom_endpoint");
    assert("add_custom_endpoint"@.len() == 19);
    reveal_strlit("remove_custom_endpoint");
    assert("remove_custom_endpoint"@.len() == 22);
    reveal_strlit("update_endpoint_last_used");
    assert("update_endpoint_last_used"@.len() == 25);
    reveal_strlit("update_providers_sort_order");
    assert("update_providers_sort_order"@.len() == 27);
    reveal_strlit("get_universal_providers");
    assert("get_universal_providers"@.len() == 23);
    reveal_strlit("get_universal_provider");
    assert("get_universal_provider"@.len() == 22);
    reveal_strlit("upsert_universal_provider");
    assert("upsert_universal_provider"@.len() == 25);
    reveal_strlit("delete_universal_provider");
    assert("delete_universal_provider"@.len() == 25);
    reveal_strlit("sync_universal_provider");
    assert("sync_universal_provider"@.len() == 23);
    reveal_strlit("import_opencode_providers_from_live");
    assert("import_opencode_providers_from_live"@.len() == 35);
    reveal_strlit("get_opencode_live_provider_ids");
    assert("get_opencode_live_provider_ids"@.len() == 30);
    reveal_strlit("get_claude_config_status");
    assert("get_claude_config_status"@.len() == 24);
    reveal_strlit("get_config_status");
    assert("get_config_status"@.len() == 17);
    reveal_strlit("get_claude_code_config_path");
    assert("get_claude_code_config_path"@.len() == 27);
    reveal_strlit("get_config_dir");
    assert("get_config_dir"@.len() == 14);
    reveal_strlit("open_config_folder");
    assert("open_config_folder"@.len() == 18);
    reveal_strlit("pick_directory");
    assert("pick_directory"@.len() == 14);
    reveal_strlit("open_external");
    assert("open_external"@.len() == 13);
    reveal_strlit("get_init_error");
    assert("get_init_error"@.len() == 14);
    reveal_strlit("get_migration_result");
    assert("get_migration_result"@.len() == 20);
    reveal_strlit("get_skills_migration_result");
    assert("get_skills_migration_result"@.len() == 27);
    reveal_strlit("get_app_config_path");
    assert("get_app_config_path"@.len() == 19);
    reveal_strlit("open_app_config_folder");
    assert("open_app_config_folder"@.len() == 22);
    reveal_strlit("get_claude_common_config_snippet");
    assert("get_claude_common_config_snippet"@.len() == 32);
    reveal_strlit("set_claude_common_config_snippet");
    assert("set_claude_common_config_snippet"@.len() == 32);
    reveal_strlit("get_common_config_snippet");
    assert("get_common_config_snippet"@.len() == 25);
    reveal_strlit("set_common_config_snippet");
    assert("set_common_config_snippet"@.len() == 25);
    reveal_strlit("extract_common_config_snippet");
    assert("extract_common_config_snippet"@.len() == 29);
    reveal_strlit("copy_text_to_clipboard");
    assert("copy_text_to_clipboard"@.len() == 22);
    reveal_strlit("check_for_updates");
    assert("check_for_updates"@.len() == 17);
    reveal_strlit("is_portable_mode");
    assert("is_portable_mode"@.len() == 16);
    reveal_strlit("get_tool_versions");
    assert("get_tool_versions"@.len() == 17);
    reveal_strlit("open_provider_terminal");
    assert("open_provider_terminal"@.len() == 22);
    reveal_strlit("set_window_theme");
    assert("set_window_theme"@.len() == 16);
    assert("get_claude_code_config_path"@[0] != "read_live_provider_settings"@[0]);
    assert("get_claude_code_config_path"@[0] != "update_providers_sort_order"@[0]);
    assert("open_config_folder"@[0] != "queryProviderUsage"@[0]);
    assert("open_config_folder"@[0] != "test_api_endpoints"@[0]);
    assert("pick_directory"@[0] != "get_config_dir"@[0]);
    assert("open_external"@[0] != "get_providers"@[0]);
    assert("get_init_error"@[4] != "get_config_dir"@[4]);
    assert("get_init_error"@[0] != "pick_directory"@[0]);
    assert("get_migration_result"@[4] != "get_current_provider"@[4]);
    assert("get_migration_result"@[4] != "get_custom_endpoints"@[4]);
    assert("get_skills_migration_result"@[0] != "read_live_provider_settings"@[0]);
    assert("get_skills_migration_result"@[0] != "update_providers_sort_order"@[0]);
    assert("get_skills_migration_result"@[4] != "get_claude_code_config_path"@[4]);
    assert("get_app_config_path"@[0] != "add_custom_endpoint"@[0]);
    assert("open_app_config_folder"@[0] != "remove_custom_endpoint"@[0]);
    assert("open_app_config_folder"@[0] != "get_universal_provider"@[0]);
    assert("get_claude_common_config_snippet"@[0] != "remove_provider_from_live_config"@[0]);
    assert("set_claude_common_config_snippet"@[0] != "remove_provider_from_live_config"@[0]);
    assert("set_claude_common_config_snippet"@[0] != "get_claude_common_config_snippet"@[0]);
    assert("get_common_config_snippet"@[5] != "get_claude_desktop_status"@[5]);
    assert("get_common_config_snippet"@[0] != "update_endpoint_last_used"@[0]);
    assert("get_common_config_snippet"@[0] != "upsert_universal_provider"@[0]);
    assert("get_common_config_snippet"@[0] != "delete_universal_provider"@[0]);
    assert("set_common_config_snippet"@[0] != "get_claude_desktop_status"@[0]);
    assert("set_common_config_snippet"@[0] != "update_endpoint_last_used"@[0]);
    assert("set_common_config_snippet"@[0] != "upsert_universal_provider"@[0]);
    assert("set_common_config_snippet"@[0] != "delete_universal_provider"@[0]);
    assert("set_common_config_snippet"@[0] != "get_common_config_snippet"@[0]);
    assert("copy_text_to_clipboard"@[0] != "remove_custom_endpoint"@[0]);
    assert("copy_text_to_clipboard"@[0] != "get_universal_provider"@[0]);
    assert("copy_text_to_clipboard"@[0] != "open_app_config_folder"@[0]);
    assert("check_for_updates"@[0] != "get_config_status"@[0]);
    assert("get_tool_versions"@[4] != "get_config_status"@[4]);
    assert("get_tool_versions"@[0] != "check_for_updates"@[0]);
    assert("open_provider_terminal"@[0] != "remove_custom_endpoint"@[0]);
    assert("open_provider_terminal"@[0] != "get_universal_provider"@[0]);
    assert("open_provider_terminal"@[5] != "open_app_config_folder"@[5]);
    assert("open_provider_terminal"@[0] != "copy_text_to_clipboard"@[0]);
    assert("set_window_theme"@[0] != "is_portable_mode"@[0]);
}

/// The commands for settings, plugins and MCP servers read these members of the request, in this
/// order, each as its kind says.
pub proof fn settings_commands_read_their_members()
    ensures
        command_params("get_settings"@) == Some(Seq::<Param>::empty()),
        command_params("save_settings"@) == Some(seq![Param { key: "settings", kind: ParamKind::ReqTyped }]),
        command_params("restart_app"@) == Some(Seq::<Param>::empty()),
        command_params("get_app_config_dir_override"@) == Some(Seq::<Param>::empty()),
        command_params("set_app_config_dir_override"@) == Some(seq![Param { key: "path", kind: ParamKind::OptStr }]),
        command_params("get_rectifier_config"@) == Some(Seq::<Param>::empty()),
        command_params("set_rectifier_config"@) == Some(seq![Param { key: "config", kind: ParamKind::ReqTyped }]),
        command_params("get_optimizer_config"@) == Some(Seq::<Param>::empty()),
        command_params("set_optimizer_config"@) == Some(seq![Param { key: "config", kind: ParamKind::ReqTyped }]),
        command_params("get_copilot_optimizer_config"@) == Some(Seq::<Param>::empty()),
        command_params("set_copilot_optimizer_config"@) == Some(seq![Param { key: "config", kind: ParamKind::ReqTyped }]),
        command_params("get_log_config"@) == Some(Seq::<Param>::empty()),
        command_params("set_log_config"@) == Some(seq![Param { key: "config", kind: ParamKind::ReqTyped }]),
        command_params("get_claude_plugin_status"@) == Some(Seq::<Param>::empty()),
        command_params("read_claude_plugin_config"@) == Some(Seq::<Param>::empty()),
        command_params("apply_claude_plugin_config"@) == Some(seq![Param { key: "official", kind: ParamKind::ReqBool }]),
        command_params("is_claude_plugin_applied"@) == Some(Seq::<Param>::empty()),
        command_params("apply_claude_onboarding_skip"@) == Some(Seq::<Param>::empty()),
        command_params("clear_claude_onboarding_skip"@) == Some(Seq::<Param>::empty()),
        command_params("get_claude_mcp_status"@) == Some(Seq::<Param>::empty()),
        command_params("read_claude_mcp_config"@) == Some(Seq::<Param>::empty()),
        command_params("upsert_claude_mcp_server"@) == Some(seq![Param { key: "id", kind: ParamKind::ReqStr }, Param { key: "spec", kind: ParamKind::ReqTyped }]),
        command_params("delete_claude_mcp_server"@) == Some(seq![Param { key: "id", kind: ParamKind::ReqStr }]),
        command_params("validate_mcp_command"@) == Some(seq![Param { key: "cmd", kind: ParamKind::ReqStr }]),
        command_params("get_mcp_config"@) == Some(seq![Param { key: "app", kind: ParamKind::ReqStr }]),
        command_params("upsert_mcp_server_in_config"@) == Some(seq![Param { key: "app", kind: ParamKind::ReqStr }, Param { key: "id", kind: ParamKind::ReqStr }, Param { key: "spec", kind: ParamKind::ReqTyped }, Param { key: "syncOtherSide", kind: ParamKind::OptBool }]),
        command_params("delete_mcp_server_in_config"@) == Some(seq![Param { key: "app", kind: ParamKind::ReqStr }, Param { key: "id", kind: ParamKind::ReqStr }]),
        command_params("set_mcp_enabled"@) == Some(seq![Param { key: "app", kind: ParamKind::ReqStr }, Param { key: "id", kind: ParamKind::ReqStr }, Param { key: "enabled", kind: ParamKind::ReqBool }]),
        command_params("get_mcp_servers"@) == Some(Seq::<Param>::empty()),
        command_params("upsert_mcp_server"@) == Some(seq![Param { key: "server", kind: ParamKind::ReqTyped }]),
        command_params("delete_mcp_server"@) == Some(seq![Param { key: "id", kind: ParamKind::ReqStr }]),
        command_params("toggle_mcp_app"@) == Some(seq![Param { key: "serverId", kind: ParamKind::ReqStr }, Param { key: "app", kind: ParamKind::ReqStr }, Param { key: "enabled", kind: ParamKind::ReqBool }]),
        command_params("import_mcp_from_apps"@) == Some(Seq::<Param>::empty()),
{
    reveal_strlit("get_providers");
    assert("get_providers"@.len() == 13);
    reveal_strlit("get_current_provider");
    assert("get_current_provider"@.len() == 20);
    reveal_strlit("add_provider");
    assert("add_provider"@.len() == 12);
    reveal_strlit("update_provider");
    assert("update_provider"@.len() == 15);
    reveal_strlit("delete_provider");
    assert("delete_provider"@.len() == 15);
    reveal_strlit("remove_provider_from_live_config");
    assert("remove_provider_from_live_config"@.len() == 32);
    reveal_strlit("switch_provider");
    assert("switch_provider"@.len() == 15);
    reveal_strlit("import_default_config");
    assert("import_default_config"@.len() == 21);
    reveal_strlit("get_claude_desktop_status");
    assert("get_claude_desktop_status"@.len() == 25);
    reveal_strlit("get_claude_desktop_default_routes");
    assert("get_claude_desktop_default_routes"@.len() == 33);
    reveal_strlit("import_claude_desktop_providers_from_claude");
    assert("import_claude_desktop_providers_from_claude"@.len() == 43);
    reveal_strlit("queryProviderUsage");
    assert("queryProviderUsage"@.len() == 18);
    reveal_strlit("testUsageScript");
    assert("testUsageScript"@.len() == 15);
    reveal_strlit("read_live_provider_settings");
    assert("read_live_provider_settings"@.len() == 27);
    reveal_strlit("test_api_endpoints");
    assert("test_api_endpoints"@.len() == 18);
    reveal_strlit("get_custom_endpoints");
    assert("get_custom_endpoints"@.len() == 20);
    reveal_strlit("add_custom_endpoint");
    assert("add_custom_endpoint"@.len() == 19);
    reveal_strlit("remove_custom_endpoint");
    assert("remove_custom_endpoint"@.len() == 22);
    reveal_strlit("update_endpoint_last_used");
    assert("update_endpoint_last_used"@.len() == 25);
    reveal_strlit("update_providers_sort_order");
    assert("update_providers_sort_order"@.len() == 27);
    reveal_strlit("get_universal_providers");
    assert("get_universal_providers"@.len() == 23);
    reveal_strlit("get_universal_provider");
    assert("get_universal_provider"@.len() == 22);
    reveal_strlit("upsert_universal_provider");
    assert("upsert_universal_provider"@.len() == 25);
    reveal_strlit("delete_universal_provider");
    assert("delete_universal_provider"@.len() == 25);
    reveal_strlit("sync_universal_provider");
    assert("sync_universal_provider"@.len() == 23);
    reveal_strlit("import_opencode_providers_from_live");
    assert("import_opencode_providers_from_live"@.len() == 35);
    reveal_strlit("get_opencode_live_provider_ids");
    assert("get_opencode_live_provider_ids"@.len() == 30);
    reveal_strlit("get_claude_config_status");
    assert("get_claude_config_status"@.len() == 24);
    reveal_strlit("get_config_status");
    assert("get_config_status"@.len() == 17);
    reveal_strlit("get_claude_code_config_path");
    assert("get_claude_code_config_path"@.len() == 27);
    reveal_strlit("get_config_dir");
    assert("get_config_dir"@.len() == 14);
    reveal_strlit("open_config_folder");
    assert("open_config_folder"@.len() == 18);
    reveal_strlit("pick_directory");
    assert("pick_directory"@.len() == 14);
    reveal_strlit("open_external");
    assert("open_external"@.len() == 13);
    reveal_strlit("get_init_error");
    assert("get_init_error"@.len() == 14);
    reveal_strlit("get_migration_result");
    assert("get_migration_result"@.len() == 20);
    reveal_strlit("get_skills_migration_result");
    assert("get_skills_migration_result"@.len() == 27);
    reveal_strlit("get_app_config_path");
    assert("get_app_config_path"@.len() == 19);
    reveal_strlit("open_app_config_folder");
    assert("open_app_config_folder"@.len() == 22);
    reveal_strlit("get_claude_common_config_snippet");
    assert("get_claude_common_config_snippet"@.len() == 32);
    reveal_strlit("set_claude_common_config_snippet");
    assert("set_claude_common_config_snippet"@.len() == 32);
    reveal_strlit("get_common_config_snippet");
    assert("get_common_config_snippet"@.len() == 25);
    reveal_strlit("set_common_config_snippet");
    assert("set_common_config_snippet"@.len() == 25);
    reveal_strlit("extract_common_config_snippet");
    assert("extract_common_config_snippet"@.len() == 29);
    reveal_strlit("copy_text_to_clipboard");
    assert("copy_text_to_clipboard"@.len() == 22);
    reveal_strlit("check_for_updates");
    assert("check_for_updates"@.len() == 17);
    reveal_strlit("is_portable_mode");
    assert("is_portable_mode"@.len() == 16);
    reveal_strlit("get_tool_versions");
    assert("get_tool_versions"@.len() == 17);
    reveal_strlit("open_provider_terminal");
    assert("open_provider_terminal"@.len() == 22);
    reveal_strlit("set_window_theme");
    assert("set_window_theme"@.len() == 16);
    reveal_strlit("get_settings");
    assert("get_settings"@.len() == 12);
    reveal_strlit("save_settings");
    assert("save_settings"@.len() == 13);
    reveal_strlit("restart_app");
    assert("restart_app"@.len() == 11);
    reveal_strlit("get_app_config_dir_override");
    assert("get_app_config_dir_override"@.len() == 27);
    reveal_strlit("set_app_config_dir_override");
    assert("set_app_config_dir_override"@.len() == 27);
    reveal_strlit("get_rectifier_config");
    assert("get_rectifier_config"@.len() == 20);
    reveal_strlit("set_rectifier_config");
    assert("set_rectifier_config"@.len() == 20);
    reveal_strlit("get_optimizer_config");
    assert("get_optimizer_config"@.len() == 20);
    reveal_strlit("set_optimizer_config");
    assert("set_optimizer_config"@.len() == 20);
    reveal_strlit("get_copilot_optimizer_config");
    assert("get_copilot_optimizer_config"@.len() == 28);
    reveal_strlit("set_copilot_optimizer_config");
    assert("set_copilot_optimizer_config"@.len() == 28);
    reveal_strlit("get_log_config");
    assert("get_log_config"@.len() == 14);
    reveal_strlit("set_log_config");
    assert("set_log_config"@.len() == 14);
    reveal_strlit("get_claude_plugin_status");
    assert("get_claude_plugin_status"@.len() == 24);
    reveal_strlit("read_claude_plugin_config");
    assert("read_claude_plugin_config"@.len() == 25);
    reveal_strlit("apply_claude_plugin_config");
    assert("apply_claude_plugin_config"@.len() == 26);
    reveal_strlit("is_claude_plugin_applied");
    assert("is_claude_plugin_applied"@.len() == 24);
    reveal_strlit("apply_claude_onboarding_skip");
    assert("apply_claude_onboarding_skip"@.len() == 28);
    reveal_strlit("clear_claude_onboarding_skip");
    assert("clear_claude_onboarding_skip"@.len() == 28);
    reveal_strlit("get_claude_mcp_status");
    assert("get_claude_mcp_status"@.len() == 21);
    reveal_strlit("read_claude_mcp_config");
    assert("read_claude_mcp_config"@.len() == 22);
    reveal_strlit("upsert_claude_mcp_server");
    assert("upsert_claude_mcp_server"@.len() == 24);
    reveal_strlit("delete_claude_mcp_server");
    assert("delete_claude_mcp_server"@.len() == 24);
    reveal_strlit("validate_mcp_command");
    assert("validate_mcp_command"@.len() == 20);
    reveal_strlit("get_mcp_config");
    assert("get_mcp_config"@.len() == 14);
    reveal_strlit("upsert_mcp_server_in_config");
    assert("upsert_mcp_server_in_config"@.len() == 27);
    reveal_strlit("delete_mcp_server_in_config");
    assert("delete_mcp_server_in_config"@.len() == 27);
    reveal_strlit("set_mcp_enabled");
    assert("set_mcp_enabled"@.len() == 15);
    reveal_strlit("get_mcp_servers");
    assert("get_mcp_servers"@.len() == 15);
    reveal_strlit("upsert_mcp_server");
    assert("upsert_mcp_server"@.len() == 17);
    reveal_strlit("delete_mcp_server");
    assert("delete_mcp_server"@.len() == 17);
    reveal_strlit("toggle_mcp_app");
    assert("toggle_mcp_app"@.len() == 14);
    reveal_strlit("import_mcp_from_apps");
    assert("import_mcp_from_apps"@.len() == 20);
    assert("get_settings"@[0] != "add_provider"@[0]);
    assert("save_settings"@[0] != "get_providers"@[0]);
    assert("save_settings"@[0] != "open_external"@[0]);
    assert("get_app_config_dir_override"@[0] != "read_live_provider_settings"@[0]);
    assert("get_app_config_dir_override"@[0] != "update_providers_sort_order"@[0]);
    assert("get_app_config_dir_override"@[4] != "get_claude_code_config_path"@[4]);
    assert("get_app_config_dir_override"@[4] != "get_skills_migration_result"@[4]);
    assert("set_app_config_dir_override"@[0] != "read_live_provider_settings"@[0]);
    assert("set_app_config_dir_override"@[0] != "update_providers_sort_order"@[0]);
    assert("set_app_config_dir_override"@[0] != "get_claude_code_config_path"@[0]);
    assert("set_app_config_dir_override"@[0] != "get_skills_migration_result"@[0]);
    assert("set_app_config_dir_override"@[0] != "get_app_config_dir_override"@[0]);
    assert("get_rectifier_config"@[4] != "get_current_provider"@[4]);
    assert("get_rectifier_config"@[4] != "get_custom_endpoints"@[4]);
    assert("get_rectifier_config"@[4] != "get_migration_result"@[4]);
    assert("set_rectifier_config"@[0] != "get_current_provider"@[0]);
    assert("set_rectifier_config"@[0] != "get_custom_endpoints"@[0]);
    assert("set_rectifier_config"@[0] != "get_migration_result"@[0]);
    assert("set_rectifier_config"@[0] != "get_rectifier_config"@[0]);
    assert("get_optimizer_config"@[4] != "get_current_provider"@[4]);
    assert("get_optimizer_config"@[4] != "get_custom_endpoints"@[4]);
    assert("get_optimizer_config"@[4] != "get_migration_result"@[4]);
    assert("get_optimizer_config"@[4] != "get_rectifier_config"@[4]);
    assert("get_optimizer_config"@[0] != "set_rectifier_config"@[0]);
    assert("set_optimizer_config"@[0] != "get_current_provider"@[0]);
    assert("set_optimizer_config"@[0] != "get_custom_endpoints"@[0]);
    assert("set_optimizer_config"@[0] != "get_migration_result"@[0]);
    assert("set_optimizer_config"@[0] != "get_rectifier_config"@[0]);
    assert("set_optimizer_config"@[4] != "set_rectifier_config"@[4]);
    assert("set_optimizer_config"@[0] != "get_optimizer_config"@[0]);
    assert("set_copilot_optimizer_config"@[0] != "get_copilot_optimizer_config"@[0]);
    assert("get_log_config"@[4] != "get_config_dir"@[4]);
    assert("get_log_config"@[0] != "pick_directory"@[0]);
    assert("get_log_config"@[4] != "get_init_error"@[4]);
    assert("set_log_config"@[0] != "get_config_dir"@[0]);
    assert("set_log_config"@[0] != "pick_directory"@[0]);
    assert("set_log_config"@[0] != "get_init_error"@[0]);
    assert("set_log_config"@[0] != "get_log_config"@[0]);
    assert("get_claude_plugin_status"@[11] != "get_claude_config_status"@[11]);
    assert("read_claude_plugin_config"@[0] != "get_claude_desktop_status"@[0]);
    assert("read_claude_plugin_config"@[0] != "update_endpoint_last_used"@[0]);
    assert("read_claude_plugin_config"@[0] != "upsert_universal_provider"@[0]);
    assert("read_claude_plugin_config"@[0] != "delete_universal_provider"@[0]);
    assert("read_claude_plugin_config"@[0] != "get_common_config_snippet"@[0]);
    assert("read_claude_plugin_config"@[0] != "set_common_config_snippet"@[0]);
    assert("is_claude_plugin_applied"@[0] != "get_claude_config_status"@[0]);
    assert("is_claude_plugin_applied"@[0] != "get_claude_plugin_status"@[0]);
    assert("apply_claude_onboarding_skip"@[0] != "get_copilot_optimizer_config"@[0]);
    assert("apply_claude_onboarding_skip"@[0] != "set_copilot_optimizer_config"@[0]);
    assert("clear_claude_onboarding_skip"@[0] != "get_copilot_optimizer_config"@[0]);
    assert("clear_claude_onboarding_skip"@[0] != "set_copilot_optimizer_config"@[0]);
    assert("clear_claude_onboarding_skip"@[0] != "apply_claude_onboarding_skip"@[0]);
    assert("get_claude_mcp_status"@[0] != "import_default_config"@[0]);
    assert("read_claude_mcp_config"@[2] != "remove_custom_endpoint"@[2]);
    assert("read_claude_mcp_config"@[0] != "get_universal_provider"@[0]);
    assert("read_claude_mcp_config"@[0] != "open_app_config_folder"@[0]);
    assert("read_claude_mcp_config"@[0] != "copy_text_to_clipboard"@[0]);
    assert("read_claude_mcp_config"@[0] != "open_provider_terminal"@[0]);
    assert("upsert_claude_mcp_server"@[0] != "get_claude_config_status"@[0]);
    assert("upsert_claude_mcp_server"@[0] != "get_claude_plugin_status"@[0]);
    assert("upsert_claude_mcp_server"@[0] != "is_claude_plugin_applied"@[0]);
    assert("delete_claude_mcp_server"@[0] != "get_claude_config_status"@[0]);
    assert("delete_claude_mcp_server"@[0] != "get_claude_plugin_status"@[0]);
    assert("delete_claude_mcp_server"@[0] != "is_claude_plugin_applied"@[0]);
    assert("delete_claude_mcp_server"@[0] != "upsert_claude_mcp_server"@[0]);
    assert("validate_mcp_command"@[0] != "get_current_provider"@[0]);
    assert("validate_mcp_command"@[0] != "get_custom_endpoints"@[0]);
    assert("validate_mcp_command"@[0] != "get_migration_result"@[0]);
    assert("validate_mcp_command"@[0] != "get_rectifier_config"@[0]);
    assert("validate_mcp_command"@[0] != "set_rectifier_config"@[0]);
    assert("validate_mcp_command"@[0] != "get_optimizer_config"@[0]);
    assert("validate_mcp_command"@[0] != "set_optimizer_config"@[0]);
    assert("get_mcp_config"@[4] != "get_config_dir"@[4]);
    assert("get_mcp_config"@[0] != "pick_directory"@[0]);
    assert("get_mcp_config"@[4] != "get_init_error"@[4]);
    assert("get_mcp_config"@[4] != "get_log_config"@[4]);
    assert("get_mcp_config"@[0] != "set_log_config"@[0]);
    assert("upsert_mcp_server_in_config"@[0] != "read_live_provider_settings"@[0]);
    assert("upsert_mcp_server_in_config"@[2] != "update_providers_sort_order"@[2]);
    assert("upsert_mcp_server_in_config"@[0] != "get_claude_code_config_path"@[0]);
    assert("upsert_mcp_server_in_config"@[0] != "get_skills_migration_result"@[0]);
    assert("upsert_mcp_server_in_config"@[0] != "get_app_config_dir_override"@[0]);
    assert("upsert_mcp_server_in_config"@[0] != "set_app_config_dir_override"@[0]);
    assert("delete_mcp_server_in_config"@[0] != "read_live_provider_settings"@[0]);
    assert("delete_mcp_server_in_config"@[0] != "update_providers_sort_order"@[0]);
    assert("delete_mcp_server_in_config"@[0] != "get_claude_code_config_path"@[0]);
    assert("delete_mcp_server_in_config"@[0] != "get_skills_migration_result"@[0]);
    assert("delete_mcp_server_in_config"@[0] != "get_app_config_dir_override"@[0]);
    assert("delete_mcp_server_in_config"@[0] != "set_app_config_dir_override"@[0]);
    assert("delete_mcp_server_in_config"@[0] != "upsert_mcp_server_in_config"@[0]);
    assert("set_mcp_enabled"@[0] != "update_provider"@[0]);
    assert("set_mcp_enabled"@[0] != "delete_provider"@[0]);
    assert("set_mcp_enabled"@[1] != "switch_provider"@[1]);
    assert("set_mcp_enabled"@[0] != "testUsageScript"@[0]);
    assert("get_mcp_servers"@[0] != "update_provider"@[0]);
    assert("get_mcp_servers"@[0] != "delete_provider"@[0]);
    assert("get_mcp_servers"@[0] != "switch_provider"@[0]);
    assert("get_mcp_servers"@[0] != "testUsageScript"@[0]);
    assert("get_mcp_servers"@[0] != "set_mcp_enabled"@[0]);
    assert("upsert_mcp_server"@[0] != "get_config_status"@[0]);
    assert("upsert_mcp_server"@[0] != "check_for_updates"@[0]);
    assert("upsert_mcp_server"@[0] != "get_tool_versions"@[0]);
    assert("delete_mcp_server"@[0] != "get_config_status"@[0]);
    assert("delete_mcp_server"@[0] != "check_for_updates"@[0]);
    assert("delete_mcp_server"@[0] != "get_tool_versions"@[0]);
    assert("delete_mcp_server"@[0] != "upsert_mcp_server"@[0]);
    assert("toggle_mcp_app"@[0] != "get_config_dir"@[0]);
    assert("toggle_mcp_app"@[0] != "pick_directory"@[0]);
    assert("toggle_mcp_app"@[0] != "get_init_error"@[0]);
    assert("toggle_mcp_app"@[0] != "get_log_config"@[0]);
    assert("toggle_mcp_app"@[0] != "set_log_config"@[0]);
    assert("toggle_mcp_app"@[0] != "get_mcp_config"@[0]);
    assert("import_mcp_from_apps"@[0] != "get_current_provider"@[0]);
    assert("import_mcp_from_apps"@[0] != "get_custom_endpoints"@[0]);
    assert("import_mcp_from_apps"@[0] != "get_migration_result"@[0]);
    assert("import_mcp_from_apps"@[0] != "get_rectifier_config"@[0]);
    assert("import_mcp_from_apps"@[0] != "set_rectifier_config"@[0]);
    assert("import_mcp_from_apps"@[0] != "get_optimizer_config"@[0]);
    assert("import_mcp_from_apps"@[0] != "set_optimizer_config"@[0]);
    assert("import_mcp_from_apps"@[0] != "validate_mcp_command"@[0]);
}

/// The commands for prompts, models, quotas and balances read these members of the request, in this
/// order, each as its kind says.
pub proof fn prompt_commands_read_their_members()
    ensures
        command_params("get_prompts"@) == Some(seq![Param { key: "app", kind: ParamKind::ReqStr }]),
        command_params("upsert_prompt"@) == Some(seq![Param { key: "app", kind: ParamKind::ReqStr }, Param { key: "id", kind: ParamKind::ReqStr }, Param { key: "prompt", kind: ParamKind::ReqTyped }]),
        command_params("delete_prompt"@) == Some(seq![Param { key: "app", kind: ParamKind::ReqStr }, Param { key: "id", kind: ParamKind::ReqStr }]),
        command_params("enable_prompt"@) == Some(seq![Param { key: "app", kind: ParamKind::ReqStr }, Param { key: "id", kind: ParamKind::ReqStr }]),
        command_params("import_prompt_from_file"@) == Some(seq![Param { key: "app", kind: ParamKind::ReqStr }]),
        command_params("get_current_prompt_file_content"@) == Some(seq![Param { key: "app", kind: ParamKind::ReqStr }]),
        command_params("fetch_models_for_config"@) == Some(seq![Param { key: "baseUrl", kind: ParamKind::ReqStr }, Param { key: "apiKey", kind: ParamKind::ReqStr }, Param { key: "isFullUrl", kind: ParamKind::OptBool }, Param { key: "modelsUrl", kind: ParamKind::OptStr }]),
        command_params("get_subscription_quota"@) == Some(seq![Param { key: "tool", kind: ParamKind::ReqStr }]),
        command_params("get_codex_oauth_quota"@) == Some(seq![Param { key: "accountId", kind: ParamKind::OptStr }]),
        command_params("get_codex_oauth_models"@) == Some(seq![Param { key: "accountId", kind: ParamKind::OptStr }]),
        command_params("get_coding_plan_quota"@) == Some(seq![Param { key: "baseUrl", kind: ParamKind::ReqStr }, Param { key: "apiKey", kind: ParamKind::ReqStr }]),
        command_params("get_balance"@) == Some(seq![Param { key: "baseUrl", kind: ParamKind::ReqStr }, Param { key: "apiKey", kind: ParamKind::ReqStr }]),
{
    reveal_strlit("get_providers");
    assert("get_providers"@.len() == 13);
    reveal_strlit("get_current_provider");
    assert("get_current_provider"@.len() == 20);
    reveal_strlit("add_provider");
    assert("add_provider"@.len() == 12);
    reveal_strlit("update_provider");
    assert("update_provider"@.len() == 15);
    reveal_strlit("delete_provider");
    assert("delete_provider"@.len() == 15);
    reveal_strlit("remove_provider_from_live_config");
    assert("remove_provider_from_live_config"@.len() == 32);
    reveal_strlit("switch_provider");
    assert("switch_provider"@.len() == 15);
    reveal_strlit("import_default_config");
    assert("import_default_config"@.len() == 21);
    reveal_strlit("get_claude_desktop_status");
    assert("get_claude_desktop_status"@.len() == 25);
    reveal_strlit("get_claude_desktop_default_routes");
    assert("get_claude_desktop_default_routes"@.len() == 33);
    reveal_strlit("import_claude_desktop_providers_from_claude");
    assert("import_claude_desktop_providers_from_claude"@.len() == 43);
    reveal_strlit("queryProviderUsage");
    assert("queryProviderUsage"@.len() == 18);
    reveal_strlit("testUsageScript");
    assert("testUsageScript"@.len() == 15);
    reveal_strlit("read_live_provider_settings");
    assert("read_live_provider_settings"@.len() == 27);
    reveal_strlit("test_api_endpoints");
    assert("test_api_endpoints"@.len() == 18);
    reveal_strlit("get_custom_endpoints");
    assert("get_custom_endpoints"@.len() == 20);
    reveal_strlit("add_custom_endpoint");
    assert("add_custom_endpoint"@.len() == 19);
    reveal_strlit("remove_custom_endpoint");
    assert("remove_custom_endpoint"@.len() == 22);
    reveal_strlit("update_endpoint_last_used");
    assert("update_endpoint_last_used"@.len() == 25);
    reveal_strlit("update_providers_sort_order");
    assert("update_providers_sort_order"@.len() == 27);
    reveal_strlit("get_universal_providers");
    assert("get_universal_providers"@.len() == 23);
    reveal_strlit("get_universal_provider");
    assert("get_universal_provider"@.len() == 22);
    reveal_strlit("upsert_universal_provider");
    assert("upsert_universal_provider"@.len() == 25);
    reveal_strlit("delete_universal_provider");
    assert("delete_universal_provider"@.len() == 25);
    reveal_strlit("sync_universal_provider");
    assert("sync_universal_provider"@.len() == 23);
    reveal_strlit("import_opencode_providers_from_live");
    assert("import_opencode_providers_from_live"@.len() == 35);
    reveal_strlit("get_opencode_live_provider_ids");
    assert("get_opencode_live_provider_ids"@.len() == 30);
    reveal_strlit("get_claude_config_status");
    assert("get_claude_config_status"@.len() == 24);
    reveal_strlit("get_config_status");
    assert("get_config_status"@.len() == 17);
    reveal_strlit("get_claude_code_config_path");
    assert("get_claude_code_config_path"@.len() == 27);
    reveal_strlit("get_config_dir");
    assert("get_config_dir"@.len() == 14);
    reveal_strlit("open_config_folder");
    assert("open_config_folder"@.len() == 18);
    reveal_strlit("pick_directory");
    assert("pick_directory"@.len() == 14);
    reveal_strlit("open_external");
    assert("open_external"@.len() == 13);
    reveal_strlit("get_init_error");
    assert("get_init_error"@.len() == 14);
    reveal_strlit("get_migration_result");
    assert("get_migration_result"@.len() == 20);
    reveal_strlit("get_skills_migration_result");
    assert("get_skills_migration_result"@.len() == 27);
    reveal_strlit("get_app_config_path");
    assert("get_app_config_path"@.len() == 19);
    reveal_strlit("open_app_config_folder");
    assert("open_app_config_folder"@.len() == 22);
    reveal_strlit("get_claude_common_config_snippet");
    assert("get_claude_common_config_snippet"@.len() == 32);
    reveal_strlit("set_claude_common_config_snippet");
    assert("set_claude_common_config_snippet"@.len() == 32);
    reveal_strlit("get_common_config_snippet");
    assert("get_common_config_snippet"@.len() == 25);
    reveal_strlit("set_common_config_snippet");
    assert("set_common_config_snippet"@.len() == 25);
    reveal_strlit("extract_common_config_snippet");
    assert("extract_common_config_snippet"@.len() == 29);
    reveal_strlit("copy_text_to_clipboard");
    assert("copy_text_to_clipboard"@.len() == 22);
    reveal_strlit("check_for_updates");
    assert("check_for_updates"@.len() == 17);
    reveal_strlit("is_portable_mode");
    assert("is_portable_mode"@.len() == 16);
    reveal_strlit("get_tool_versions");
    assert("get_tool_versions"@.len() == 17);
    reveal_strlit("open_provider_terminal");
    assert("open_provider_terminal"@.len() == 22);
    reveal_strlit("set_window_theme");
    assert("set_window_theme"@.len() == 16);
    reveal_strlit("get_settings");
    assert("get_settings"@.len() == 12);
    reveal_strlit("save_settings");
    assert("save_settings"@.len() == 13);
    reveal_strlit("restart_app");
    assert("restart_app"@.len() == 11);
    reveal_strlit("get_app_config_dir_override");
    assert("get_app_config_dir_override"@.len() == 27);
    reveal_strlit("set_app_config_dir_override");
    assert("set_app_config_dir_override"@.len() == 27);
    reveal_strlit("get_rectifier_config");
    assert("get_rectifier_config"@.len() == 20);
    reveal_strlit("set_rectifier_config");
    assert("set_rectifier_config"@.len() == 20);
    reveal_strlit("get_optimizer_config");
    assert("get_optimizer_config"@.len() == 20);
    reveal_strlit("set_optimizer_config");
    assert("set_optimizer_config"@.len() == 20);
    reveal_strlit("get_copilot_optimizer_config");
    assert("get_copilot_optimizer_config"@.len() == 28);
    reveal_strlit("set_copilot_optimizer_config");
    assert("set_copilot_optimizer_config"@.len() == 28);
    reveal_strlit("get_log_config");
    assert("get_log_config"@.len() == 14);
    reveal_strlit("set_log_config");
    assert("set_log_config"@.len() == 14);
    reveal_strlit("get_claude_plugin_status");
    assert("get_claude_plugin_status"@.len() == 24);
    reveal_strlit("read_claude_plugin_config");
    assert("read_claude_plugin_config"@.len() == 25);
    reveal_strlit("apply_claude_plugin_config");
    assert("apply_claude_plugin_config"@.len() == 26);
    reveal_strlit("is_claude_plugin_applied");
    assert("is_claude_plugin_applied"@.len() == 24);
    reveal_strlit("apply_claude_onboarding_skip");
    assert("apply_claude_onboarding_skip"@.len() == 28);
    reveal_strlit("clear_claude_onboarding_skip");
    assert("clear_claude_onboarding_skip"@.len() == 28);
    reveal_strlit("get_claude_mcp_status");
    assert("get_claude_mcp_status"@.len() == 21);
    reveal_strlit("read_claude_mcp_config");
    assert("read_claude_mcp_config"@.len() == 22);
    reveal_strlit("upsert_claude_mcp_server");
    assert("upsert_claude_mcp_server"@.len() == 24);
    reveal_strlit("delete_claude_mcp_server");
    assert("delete_claude_mcp_server"@.len() == 24);
    reveal_strlit("validate_mcp_command");
    assert("validate_mcp_command"@.len() == 20);
    reveal_strlit("get_mcp_config");
    assert("get_mcp_config"@.len() == 14);
    reveal_strlit("upsert_mcp_server_in_config");
    assert("upsert_mcp_server_in_config"@.len() == 27);
    reveal_strlit("delete_mcp_server_in_config");
    assert("delete_mcp_server_in_config"@.len() == 27);
    reveal_strlit("set_mcp_enabled");
    assert("set_mcp_enabled"@.len() == 15);
    reveal_strlit("get_mcp_servers");
    assert("get_mcp_servers"@.len() == 15);
    reveal_strlit("upsert_mcp_server");
    assert("upsert_mcp_server"@.len() == 17);
    reveal_strlit("delete_mcp_server");
    assert("delete_mcp_server"@.len() == 17);
    reveal_strlit("toggle_mcp_app");
    assert("toggle_mcp_app"@.len() == 14);
    reveal_strlit("import_mcp_from_apps");
    assert("import_mcp_from_apps"@.len() == 20);
    reveal_strlit("get_prompts");
    assert("get_prompts"@.len() == 11);
    reveal_strlit("upsert_prompt");
    assert("upsert_prompt"@.len() == 13);
    reveal_strlit("delete_prompt");
    assert("delete_prompt"@.len() == 13);
    reveal_strlit("enable_prompt");
    assert("enable_prompt"@.len() == 13);
    reveal_strlit("import_prompt_from_file");
    assert("import_prompt_from_file"@.len() == 23);
    reveal_strlit("get_current_prompt_file_content");
    assert("get_current_prompt_file_content"@.len() == 31);
    reveal_strlit("fetch_models_for_config");
    assert("fetch_models_for_config"@.len() == 23);
    reveal_strlit("get_subscription_quota");
    assert("get_subscription_quota"@.len() == 22);
    reveal_strlit("get_codex_oauth_quota");
    assert("get_codex_oauth_quota"@.len() == 21);
    reveal_strlit("get_codex_oauth_models");
    assert("get_codex_oauth_models"@.len() == 22);
    reveal_strlit("get_coding_plan_quota");
    assert("get_coding_plan_quota"@.len() == 21);
    reveal_strlit("get_balance");
    assert("get_balance"@.len() == 11);
    assert("get_prompts"@[0] != "restart_app"@[0]);
    assert("upsert_prompt"@[0] != "get_providers"@[0]);
    assert("upsert_prompt"@[0] != "open_external"@[0]);
    assert("upsert_prompt"@[0] != "save_settings"@[0]);
    assert("delete_prompt"@[0] != "get_providers"@[0]);
    assert("delete_prompt"@[0] != "open_external"@[0]);
    assert("delete_prompt"@[0] != "save_settings"@[0]);
    assert("delete_prompt"@[0] != "upsert_prompt"@[0]);
    assert("enable_prompt"@[0] != "get_providers"@[0]);
    assert("enable_prompt"@[0] != "open_external"@[0]);
    assert("enable_prompt"@[0] != "save_settings"@[0]);
    assert("enable_prompt"@[0] != "upsert_prompt"@[0]);
    assert("enable_prompt"@[0] != "delete_prompt"@[0]);
    assert("import_prompt_from_file"@[0] != "get_universal_providers"@[0]);
    assert("import_prompt_from_file"@[0] != "sync_universal_provider"@[0]);
    assert("fetch_models_for_config"@[0] != "get_universal_providers"@[0]);
    assert("fetch_models_for_config"@[0] != "sync_universal_provider"@[0]);
    assert("fetch_models_for_config"@[0] != "import_prompt_from_file"@[0]);
    assert("get_subscription_quota"@[0] != "remove_custom_endpoint"@[0]);
    assert("get_subscription_quota"@[4] != "get_universal_provider"@[4]);
    assert("get_subscription_quota"@[0] != "open_app_config_folder"@[0]);
    assert("get_subscription_quota"@[0] != "copy_text_to_clipboard"@[0]);
    assert("get_subscription_quota"@[0] != "open_provider_terminal"@[0]);
    assert("get_subscription_quota"@[0] != "read_claude_mcp_config"@[0]);
    assert("get_codex_oauth_quota"@[0] != "import_default_config"@[0]);
    assert("get_codex_oauth_quota"@[5] != "get_claude_mcp_status"@[5]);
    assert("get_codex_oauth_models"@[0] != "remove_custom_endpoint"@[0]);
    assert("get_codex_oauth_models"@[4] != "get_universal_provider"@[4]);
    assert("get_codex_oauth_models"@[0] != "open_app_config_folder"@[0]);
    assert("get_codex_oauth_models"@[0] != "copy_text_to_clipboard"@[0]);
    assert("get_codex_oauth_models"@[0] != "open_provider_terminal"@[0]);
    assert("get_codex_oauth_models"@[0] != "read_claude_mcp_config"@[0]);
    assert("get_codex_oauth_models"@[4] != "get_subscription_quota"@[4]);
    assert("get_coding_plan_quota"@[0] != "import_default_config"@[0]);
    assert("get_coding_plan_quota"@[5] != "get_claude_mcp_status"@[5]);
    assert("get_coding_plan_quota"@[7] != "get_codex_oauth_quota"@[7]);
    assert("get_balance"@[0] != "restart_app"@[0]);
    assert("get_balance"@[4] != "get_prompts"@[4]);
}

/// The commands for the local proxy and failover read these members of the request, in this
/// order, each as its kind says.
pub proof fn proxy_commands_read_their_members()
    ensures
        command_params("start_proxy_server"@) == Some(Seq::<Param>::empty()),
        command_params("stop_proxy_server"@) == Some(Seq::<Param>::empty()),
        command_params("stop_proxy_with_restore"@) == Some(Seq::<Param>::empty()),
        command_params("get_proxy_takeover_status"@) == Some(Seq::<Param>::empty()),
        command_params("set_proxy_takeover_for_app"@) == Some(seq![Param { key: "appType", kind: ParamKind::ReqStr }, Param { key: "enabled", kind: ParamKind::ReqBool }]),
        command_params("get_proxy_status"@) == Some(Seq::<Param>::empty()),
        command_params("get_proxy_config"@) == Some(Seq::<Param>::empty()),
        command_params("update_proxy_config"@) == Some(seq![Param { key: "config", kind: ParamKind::ReqTyped }]),
        command_params("get_global_proxy_config"@) == Some(Seq::<Param>::empty()),
        command_params("update_global_proxy_config"@) == Some(seq![Param { key: "config", kind: ParamKind::ReqTyped }]),
        command_params("get_proxy_config_for_app"@) == Some(seq![Param { key: "appType", kind: ParamKind::ReqStr }]),
        command_params("update_proxy_config_for_app"@) == Some(seq![Param { key: "config", kind: ParamKind::ReqTyped }]),
        command_params("get_default_cost_multiplier"@) == Some(seq![Param { key: "appType", kind: ParamKind::ReqStr }]),
        command_params("set_default_cost_multiplier"@) == Some(seq![Param { key: "appType", kind: ParamKind::ReqStr }, Param { key: "value", kind: ParamKind::ReqStr }]),
        command_params("get_pricing_model_source"@) == Some(seq![Param { key: "appType", kind: ParamKind::ReqStr }]),
        command_params("set_pricing_model_source"@) == Some(seq![Param { key: "appType", kind: ParamKind::ReqStr }, Param { key: "value", kind: ParamKind::ReqStr }]),
        command_params("is_proxy_running"@) == Some(Seq::<Param>::empty()),
        command_params("is_live_takeover_active"@) == Some(Seq::<Param>::empty()),
        command_params("switch_proxy_provider"@) == Some(seq![Param { key: "appType", kind: ParamKind::ReqStr }, Param { key: "providerId", kind: ParamKind::ReqStr }]),
        command_params("get_provider_health"@) == Some(seq![Param { key: "providerId", kind: ParamKind::ReqStr }, Param { key: "appType", kind: ParamKind::ReqStr }]),
        command_params("reset_circuit_breaker"@) == Some(seq![Param { key: "providerId", kind: ParamKind::ReqStr }, Param { key: "appType", kind: ParamKind::ReqStr }]),
        command_params("get_circuit_breaker_config"@) == Some(Seq::<Param>::empty()),
        command_params("update_circuit_breaker_config"@) == Some(seq![Param { key: "config", kind: ParamKind::ReqTyped }]),
        command_params("get_circuit_breaker_stats"@) == Some(seq![Param { key: "providerId", kind: ParamKind::ReqStr }, Param { key: "appType", kind: ParamKind::ReqStr }]),
        command_params("get_failover_queue"@) == Some(seq![Param { key: "appType", kind: ParamKind::ReqStr }]),
        command_params("get_available_providers_for_failover"@) == Some(seq![Param { key: "appType", kind: ParamKind::ReqStr }]),
        command_params("add_to_failover_queue"@) == Some(seq![Param { key: "appType", kind: ParamKind::ReqStr }, Param { key: "providerId", kind: ParamKind::ReqStr }]),
        command_params("remove_from_failover_queue"@) == Some(seq![Param { key: "appType", kind: ParamKind::ReqStr }, Param { key: "providerId", kind: ParamKind::ReqStr }]),
        command_params("get_auto_failover_enabled"@) == Some(seq![Param { key: "appType", kind: ParamKind::ReqStr }]),
        command_params("set_auto_failover_enabled"@) == Some(seq![Param { key: "appType", kind: ParamKind::ReqStr }, Param { key: "enabled", kind: ParamKind::ReqBool }]),
{
    reveal_strlit("get_providers");
    assert("get_providers"@.len() == 13);
    reveal_strlit("get_current_provider");
    assert("get_current_provider"@.len() == 20);
    reveal_strlit("add_provider");
    assert("add_provider"@.len() == 12);
    reveal_strlit("update_provider");
    assert("update_provider"@.len() == 15);
    reveal_strlit("delete_provider");
    assert("delete_provider"@.len() == 15);
    reveal_strlit("remove_provider_from_live_config");
    assert("remove_provider_from_live_config"@.len() == 32);
    reveal_strlit("switch_provider");
    assert("switch_provider"@.len() == 15);
    reveal_strlit("import_default_config");
    assert("import_default_config"@.len() == 21);
    reveal_strlit("get_claude_desktop_status");
    assert("get_claude_desktop_status"@.len() == 25);
    reveal_strlit("get_claude_desktop_default_routes");
    assert("get_claude_desktop_default_routes"@.len() == 33);
    reveal_strlit("import_claude_desktop_providers_from_claude");
    assert("import_claude_desktop_providers_from_claude"@.len() == 43);
    reveal_strlit("queryProviderUsage");
    assert("queryProviderUsage"@.len() == 18);
    reveal_strlit("testUsageScript");
    assert("testUsageScript"@.len() == 15);
    reveal_strlit("read_live_provider_settings");
    assert("read_live_provider_settings"@.len() == 27);
    reveal_strlit("test_api_endpoints");
    assert("test_api_endpoints"@.len() == 18);
    reveal_strlit("get_custom_endpoints");
    assert("get_custom_endpoints"@.len() == 20);
    reveal_strlit("add_custom_endpoint");
    assert("add_custom_endpoint"@.len() == 19);
    reveal_strlit("remove_custom_endpoint");
    assert("remove_custom_endpoint"@.len() == 22);
    reveal_strlit("update_endpoint_last_used");
    assert("update_endpoint_last_used"@.len() == 25);
    reveal_strlit("update_providers_sort_order");
    assert("update_providers_sort_order"@.len() == 27);
    reveal_strlit("get_universal_providers");
    assert("get_universal_providers"@.len() == 23);
    reveal_strlit("get_universal_provider");
    assert("get_universal_provider"@.len() == 22);
    reveal_strlit("upsert_universal_provider");
    assert("upsert_universal_provider"@.len() == 25);
    reveal_strlit("delete_universal_provider");
    assert("delete_universal_provider"@.len() == 25);
    reveal_strlit("sync_universal_provider");
    assert("sync_universal_provider"@.len() == 23);
    reveal_strlit("import_opencode_providers_from_live");
    assert("import_opencode_providers_from_live"@.len() == 35);
    reveal_strlit("get_opencode_live_provider_ids");
    assert("get_opencode_live_provider_ids"@.len() == 30);
    reveal_strlit("get_claude_config_status");
    assert("get_claude_config_status"@.len() == 24);
    reveal_strlit("get_config_status");
    assert("get_config_status"@.len() == 17);
    reveal_strlit("get_claude_code_config_path");
    assert("get_claude_code_config_path"@.len() == 27);
    reveal_strlit("get_config_dir");
    assert("get_config_dir"@.len() == 14);
    reveal_strlit("open_config_folder");
    assert("open_config_folder"@.len() == 18);
    reveal_strlit("pick_directory");
    assert("pick_directory"@.len() == 14);
    reveal_strlit("open_external");
    assert("open_external"@.len() == 13);
    reveal_strlit("get_init_error");
    assert("get_init_error"@.len() == 14);
    reveal_strlit("get_migration_result");
    assert("get_migration_result"@.len() == 20);
    reveal_strlit("get_skills_migration_result");
    assert("get_skills_migration_result"@.len() == 27);
    reveal_strlit("get_app_config_path");
    assert("get_app_config_path"@.len() == 19);
    reveal_strlit("open_app_config_folder");
    assert("open_app_config_folder"@.len() == 22);
    reveal_strlit("get_claude_common_config_snippet");
    assert("get_claude_common_config_snippet"@.len() == 32);
    reveal_strlit("set_claude_common_config_snippet");
    assert("set_claude_common_config_snippet"@.len() == 32);
    reveal_strlit("get_common_config_snippet");
    assert("get_common_config_snippet"@.len() == 25);
    reveal_strlit("set_common_config_snippet");
    assert("set_common_config_snippet"@.len() == 25);
    reveal_strlit("extract_common_config_snippet");
    assert("extract_common_config_snippet"@.len() == 29);
    reveal_strlit("copy_text_to_clipboard");
    assert("copy_text_to_clipboard"@.len() == 22);
    reveal_strlit("check_for_updates");
    assert("check_for_updates"@.len() == 17);
    reveal_strlit("is_portable_mode");
    assert("is_portable_mode"@.len() == 16);
    reveal_strlit("get_tool_versions");
    assert("get_tool_versions"@.len() == 17);
    reveal_strlit("open_provider_terminal");
    assert("open_provider_terminal"@.len() == 22);
    reveal_strlit("set_window_theme");
    assert("set_window_theme"@.len() == 16);
    reveal_strlit("get_settings");
    assert("get_settings"@.len() == 12);
    reveal_strlit("save_settings");
    assert("save_settings"@.len() == 13);
    reveal_strlit("restart_app");
    assert("restart_app"@.len() == 11);
    reveal_strlit("get_app_config_dir_override");
    assert("get_app_config_dir_override"@.len() == 27);
    reveal_strlit("set_app_config_dir_override");
    assert("set_app_config_dir_override"@.len() == 27);
    reveal_strlit("get_rectifier_config");
    assert("get_rectifier_config"@.len() == 20);
    reveal_strlit("set_rectifier_config");
    assert("set_rectifier_config"@.len() == 20);
    reveal_strlit("get_optimizer_config");
    assert("get_optimizer_config"@.len() == 20);
    reveal_strlit("set_optimizer_config");
    assert("set_optimizer_config"@.len() == 20);
    reveal_strlit("get_copilot_optimizer_config");
    assert("get_copilot_optimizer_config"@.len() == 28);
    reveal_strlit("set_copilot_optimizer_config");
    assert("set_copilot_optimizer_config"@.len() == 28);
    reveal_strlit("get_log_config");
    assert("get_log_config"@.len() == 14);
    reveal_strlit("set_log_config");
    assert("set_log_config"@.len() == 14);
    reveal_strlit("get_claude_plugin_status");
    assert("get_claude_plugin_status"@.len() == 24);
    reveal_strlit("read_claude_plugin_config");
    assert("read_claude_plugin_config"@.len() == 25);
    reveal_strlit("apply_claude_plugin_config");
    assert("apply_claude_plugin_config"@.len() == 26);
    reveal_strlit("is_claude_plugin_applied");
    assert("is_claude_plugin_applied"@.len() == 24);
    reveal_strlit("apply_claude_onboarding_skip");
    assert("apply_claude_onboarding_skip"@.len() == 28);
    reveal_strlit("clear_claude_onboarding_skip");
    assert("clear_claude_onboarding_skip"@.len() == 28);
    reveal_strlit("get_claude_mcp_status");
    assert("get_claude_mcp_status"@.len() == 21);
    reveal_strlit("read_claude_mcp_config");
    assert("read_claude_mcp_config"@.len() == 22);
    reveal_strlit("upsert_claude_mcp_server");
    assert("upsert_claude_mcp_server"@.len() == 24);
    reveal_strlit("delete_claude_mcp_server");
    assert("delete_claude_mcp_server"@.len() == 24);
    reveal_strlit("validate_mcp_command");
    assert("validate_mcp_command"@.len() == 20);
    reveal_strlit("get_mcp_config");
    assert("get_mcp_config"@.len() == 14);
    reveal_strlit("upsert_mcp_server_in_config");
    assert("upsert_mcp_server_in_config"@.len() == 27);
    reveal_strlit("delete_mcp_server_in_config");
    assert("delete_mcp_server_in_config"@.len() == 27);
    reveal_strlit("set_mcp_enabled");
    assert("set_mcp_enabled"@.len() == 15);
    reveal_strlit("get_mcp_servers");
    assert("get_mcp_servers"@.len() == 15);
    reveal_strlit("upsert_mcp_server");
    assert("upsert_mcp_server"@.len() == 17);
    reveal_strlit("delete_mcp_server");
    assert("delete_mcp_server"@.len() == 17);
    reveal_strlit("toggle_mcp_app");
    assert("toggle_mcp_app"@.len() == 14);
    reveal_strlit("import_mcp_from_apps");
    assert("import_mcp_from_apps"@.len() == 20);
    reveal_strlit("get_prompts");
    assert("get_prompts"@.len() == 11);
    reveal_strlit("upsert_prompt");
    assert("upsert_prompt"@.len() == 13);
    reveal_strlit("delete_prompt");
    assert("delete_prompt"@.len() == 13);
    reveal_strlit("enable_prompt");
    assert("enable_prompt"@.len() == 13);
    reveal_strlit("import_prompt_from_file");
    assert("import_prompt_from_file"@.len() == 23);
    reveal_strlit("get_current_prompt_file_content");
    assert("get_current_prompt_file_content"@.len() == 31);
    reveal_strlit("fetch_models_for_config");
    assert("fetch_models_for_config"@.len() == 23);
    reveal_strlit("get_subscription_quota");
    assert("get_subscription_quota"@.len() == 22);
    reveal_strlit("get_codex_oauth_quota");
    assert("get_codex_oauth_quota"@.len() == 21);
    reveal_strlit("get_codex_oauth_models");
    assert("get_codex_oauth_models"@.len() == 22);
    reveal_strlit("get_coding_plan_quota");
    assert("get_coding_plan_quota"@.len() == 21);
    reveal_strlit("get_balance");
    assert("get_balance"@.len() == 11);
    reveal_strlit("start_proxy_server");
    assert("start_proxy_server"@.len() == 18);
    reveal_strlit("stop_proxy_server");
    assert("stop_proxy_server"@.len() == 17);
    reveal_strlit("stop_proxy_with_restore");
    assert("stop_proxy_with_restore"@.len() == 23);
    reveal_strlit("get_proxy_takeover_status");
    assert("get_proxy_takeover_status"@.len() == 25);
    reveal_strlit("set_proxy_takeover_for_app");
    assert("set_proxy_takeover_for_app"@.len() == 26);
    reveal_strlit("get_proxy_status");
    assert("get_proxy_status"@.len() == 16);
    reveal_strlit("get_proxy_config");
    assert("get_proxy_config"@.len() == 16);
    reveal_strlit("update_proxy_config");
    assert("update_proxy_config"@.len() == 19);
    reveal_strlit("get_global_proxy_config");
    assert("get_global_proxy_config"@.len() == 23);
    reveal_strlit("update_global_proxy_config");
    assert("update_global_proxy_config"@.len() == 26);
    reveal_strlit("get_proxy_config_for_app");
    assert("get_proxy_config_for_app"@.len() == 24);
    reveal_strlit("update_proxy_config_for_app");
    assert("update_proxy_config_for_app"@.len() == 27);
    reveal_strlit("get_default_cost_multiplier");
    assert("get_default_cost_multiplier"@.len() == 27);
    reveal_strlit("set_default_cost_multiplier");
    assert("set_default_cost_multiplier"@.len() == 27);
    reveal_strlit("get_pricing_model_source");
    assert("get_pricing_model_source"@.len() == 24);
    reveal_strlit("set_pricing_model_source");
    assert("set_pricing_model_source"@.len() == 24);
    reveal_strlit("is_proxy_running");
    assert("is_proxy_running"@.len() == 16);
    reveal_strlit("is_live_takeover_active");
    assert("is_live_takeover_active"@.len() == 23);
    reveal_strlit("switch_proxy_provider");
    assert("switch_proxy_provider"@.len() == 21);
    reveal_strlit("get_provider_health");
    assert("get_provider_health"@.len() == 19);
    reveal_strlit("reset_circuit_breaker");
    assert("reset_circuit_breaker"@.len() == 21);
    reveal_strlit("get_circuit_breaker_config");
    assert("get_circuit_breaker_config"@.len() == 26);
    reveal_strlit("update_circuit_breaker_config");
    assert("update_circuit_breaker_config"@.len() == 29);
    reveal_strlit("get_circuit_breaker_stats");
    assert("get_circuit_breaker_stats"@.len() == 25);
    reveal_strlit("get_failover_queue");
    assert("get_failover_queue"@.len() == 18);
    reveal_strlit("get_available_providers_for_failover");
    assert("get_available_providers_for_failover"@.len() == 36);
    reveal_strlit("add_to_failover_queue");
    assert("add_to_failover_queue"@.len() == 21);
    reveal_strlit("remove_from_failover_queue");
    assert("remove_from_failover_queue"@.len() == 26);
    reveal_strlit("get_auto_failover_enabled");
    assert("get_auto_failover_enabled"@.len() == 25);
    reveal_strlit("set_auto_failover_enabled");
    assert("set_auto_failover_enabled"@.len() == 25);
    assert("start_proxy_server"@[0] != "queryProviderUsage"@[0]);
    assert("start_proxy_server"@[0] != "test_api_endpoints"@[0]);
    assert("start_proxy_server"@[0] != "open_config_folder"@[0]);
    assert("stop_proxy_server"@[0] != "get_config_status"@[0]);
    assert("stop_proxy_server"@[0] != "check_for_updates"@[0]);
    assert("stop_proxy_server"@[0] != "get_tool_versions"@[0]);
    assert("stop_proxy_server"@[0] != "upsert_mcp_server"@[0]);
    assert("stop_proxy_server"@[0] != "delete_mcp_server"@[0]);
    assert("stop_proxy_with_restore"@[0] != "get_universal_providers"@[0]);
    assert("stop_proxy_with_restore"@[1] != "sync_universal_provider"@[1]);
    assert("stop_proxy_with_restore"@[0] != "import_prompt_from_file"@[0]);
    assert("stop_proxy_with_restore"@[0] != "fetch_models_for_config"@[0]);
    assert("get_proxy_takeover_status"@[4] != "get_claude_desktop_status"@[4]);
    assert("get_proxy_takeover_status"@[0] != "update_endpoint_last_used"@[0]);
    assert("get_proxy_takeover_status"@[0] != "upsert_universal_provider"@[0]);
    assert("get_proxy_takeover_status"@[0] != "delete_universal_provider"@[0]);
    assert("get_proxy_takeover_status"@[4] != "get_common_config_snippet"@[4]);
    assert("get_proxy_takeover_status"@[0] != "set_common_config_snippet"@[0]);
    assert("get_proxy_takeover_status"@[0] != "read_claude_plugin_config"@[0]);
    assert("set_proxy_takeover_for_app"@[0] != "apply_claude_plugin_config"@[0]);
    assert("get_proxy_status"@[0] != "is_portable_mode"@[0]);
    assert("get_proxy_status"@[0] != "set_window_theme"@[0]);
    assert("get_proxy_config"@[0] != "is_portable_mode"@[0]);
    assert("get_proxy_config"@[0] != "set_window_theme"@[0]);
    assert("get_proxy_config"@[10] != "get_proxy_status"@[10]);
    assert("update_proxy_config"@[0] != "add_custom_endpoint"@[0]);
    assert("update_proxy_config"@[0] != "get_app_config_path"@[0]);
    assert("get_global_proxy_config"@[4] != "get_universal_providers"@[4]);
    assert("get_global_proxy_config"@[0] != "sync_universal_provider"@[0]);
    assert("get_global_proxy_config"@[0] != "import_prompt_from_file"@[0]);
    assert("get_global_proxy_config"@[0] != "fetch_models_for_config"@[0]);
    assert("get_global_proxy_config"@[0] != "stop_proxy_with_restore"@[0]);
    assert("update_global_proxy_config"@[0] != "apply_claude_plugin_config"@[0]);
    assert("update_global_proxy_config"@[0] != "set_proxy_takeover_for_app"@[0]);
    assert("get_proxy_config_for_app"@[4] != "get_claude_config_status"@[4]);
    assert("get_proxy_config_for_app"@[4] != "get_claude_plugin_status"@[4]);
    assert("get_proxy_config_for_app"@[0] != "is_claude_plugin_applied"@[0]);
    assert("get_proxy_config_for_app"@[0] != "upsert_claude_mcp_server"@[0]);
    assert("get_proxy_config_for_app"@[0] != "delete_claude_mcp_server"@[0]);
    assert("update_proxy_config_for_app"@[0] != "read_live_provider_settings"@[0]);
    assert("update_proxy_config_for_app"@[10] != "update_providers_sort_order"@[10]);
    assert("update_proxy_config_for_app"@[0] != "get_claude_code_config_path"@[0]);
    assert("update_proxy_config_for_app"@[0] != "get_skills_migration_result"@[0]);
    assert("update_proxy_config_for_app"@[0] != "get_app_config_dir_override"@[0]);
    assert("update_proxy_config_for_app"@[0] != "set_app_config_dir_override"@[0]);
    assert("update_proxy_config_for_app"@[2] != "upsert_mcp_server_in_config"@[2]);
    assert("update_proxy_config_for_app"@[0] != "delete_mcp_server_in_config"@[0]);
    assert("get_default_cost_multiplier"@[0] != "read_live_provider_settings"@[0]);
    assert("get_default_cost_multiplier"@[0] != "update_providers_sort_order"@[0]);
    assert("get_default_cost_multiplier"@[4] != "get_claude_code_config_path"@[4]);
    assert("get_default_cost_multiplier"@[4] != "get_skills_migration_result"@[4]);
    assert("get_default_cost_multiplier"@[4] != "get_app_config_dir_override"@[4]);
    assert("get_default_cost_multiplier"@[0] != "set_app_config_dir_override"@[0]);
    assert("get_default_cost_multiplier"@[0] != "upsert_mcp_server_in_config"@[0]);
    assert("get_default_cost_multiplier"@[0] != "delete_mcp_server_in_config"@[0]);
    assert("get_default_cost_multiplier"@[0] != "update_proxy_config_for_app"@[0]);
    assert("set_default_cost_multiplier"@[0] != "read_live_provider_settings"@[0]);
    assert("set_default_cost_multiplier"@[0] != "update_providers_sort_order"@[0]);
    assert("set_default_cost_multiplier"@[0] != "get_claude_code_config_path"@[0]);
    assert("set_default_cost_multiplier"@[0] != "get_skills_migration_result"@[0]);
    assert("set_default_cost_multiplier"@[0] != "get_app_config_dir_override"@[0]);
    assert("set_default_cost_multiplier"@[4] != "set_app_config_dir_override"@[4]);
    assert("set_default_cost_multiplier"@[0] != "upsert_mcp_server_in_config"@[0]);
    assert("set_default_cost_multiplier"@[0] != "delete_mcp_server_in_config"@[0]);
    assert("set_default_cost_multiplier"@[0] != "update_proxy_config_for_app"@[0]);
    assert("set_default_cost_multiplier"@[0] != "get_default_cost_multiplier"@[0]);
    assert("get_pricing_model_source"@[4] != "get_claude_config_status"@[4]);
    assert("get_pricing_model_source"@[4] != "get_claude_plugin_status"@[4]);
    assert("get_pricing_model_source"@[0] != "is_claude_plugin_applied"@[0]);
    assert("get_pricing_model_source"@[0] != "upsert_claude_mcp_server"@[0]);
    assert("get_pricing_model_source"@[0] != "delete_claude_mcp_server"@[0]);
    assert("get_pricing_model_source"@[6] != "get_proxy_config_for_app"@[6]);
    assert("set_pricing_model_source"@[0] != "get_claude_config_status"@[0]);
    assert("set_pricing_model_source"@[0] != "get_claude_plugin_status"@[0]);
    assert("set_pricing_model_source"@[0] != "is_claude_plugin_applied"@[0]);
    assert("set_pricing_model_source"@[0] != "upsert_claude_mcp_server"@[0]);
    assert("set_pricing_model_source"@[0] != "delete_claude_mcp_server"@[0]);
    assert("set_pricing_model_source"@[0] != "get_proxy_config_for_app"@[0]);
    assert("set_pricing_model_source"@[0] != "get_pricing_model_source"@[0]);
    assert("is_proxy_running"@[4] != "is_portable_mode"@[4]);
    assert("is_proxy_running"@[0] != "set_window_theme"@[0]);
    assert("is_proxy_running"@[0] != "get_proxy_status"@[0]);
    assert("is_proxy_running"@[0] != "get_proxy_config"@[0]);
    assert("is_live_takeover_active"@[0] != "get_universal_providers"@[0]);
    assert("is_live_takeover_active"@[0] != "sync_universal_provider"@[0]);
    assert("is_live_takeover_active"@[1] != "import_prompt_from_file"@[1]);
    assert("is_live_takeover_active"@[0] != "fetch_models_for_config"@[0]);
    assert("is_live_takeover_active"@[0] != "stop_proxy_with_restore"@[0]);
    assert("is_live_takeover_active"@[0] != "get_global_proxy_config"@[0]);
    assert("switch_proxy_provider"@[0] != "import_default_config"@[0]);
    assert("switch_proxy_provider"@[0] != "get_claude_mcp_status"@[0]);
    assert("switch_proxy_provider"@[0] != "get_codex_oauth_quota"@[0]);
    assert("switch_proxy_provider"@[0] != "get_coding_plan_quota"@[0]);
    assert("get_provider_health"@[0] != "add_custom_endpoint"@[0]);
    assert("get_provider_health"@[4] != "get_app_config_path"@[4]);
    assert("get_provider_health"@[0] != "update_proxy_config"@[0]);
    assert("reset_circuit_breaker"@[0] != "import_default_config"@[0]);
    assert("reset_circuit_breaker"@[0] != "get_claude_mcp_status"@[0]);
    assert("reset_circuit_breaker"@[0] != "get_codex_oauth_quota"@[0]);
    assert("reset_circuit_breaker"@[0] != "get_coding_plan_quota"@[0]);
    assert("reset_circuit_breaker"@[0] != "switch_proxy_provider"@[0]);
    assert("get_circuit_breaker_config"@[0] != "apply_claude_plugin_config"@[0]);
    assert("get_circuit_breaker_config"@[0] != "set_proxy_takeover_for_app"@[0]);
    assert("get_circuit_breaker_config"@[0] != "update_global_proxy_config"@[0]);
    assert("update_circuit_breaker_config"@[0] != "extract_common_config_snippet"@[0]);
    assert("get_circuit_breaker_stats"@[5] != "get_claude_desktop_status"@[5]);
    assert("get_circuit_breaker_stats"@[0] != "update_endpoint_last_used"@[0]);
    assert("get_circuit_breaker_stats"@[0] != "upsert_universal_provider"@[0]);
    assert("get_circuit_breaker_stats"@[0] != "delete_universal_provider"@[0]);
    assert("get_circuit_breaker_stats"@[5] != "get_common_config_snippet"@[5]);
    assert("get_circuit_breaker_stats"@[0] != "set_common_config_snippet"@[0]);
    assert("get_circuit_breaker_stats"@[0] != "read_claude_plugin_config"@[0]);
    assert("get_circuit_breaker_stats"@[4] != "get_proxy_takeover_status"@[4]);
    assert("get_failover_queue"@[0] != "queryProviderUsage"@[0]);
    assert("get_failover_queue"@[0] != "test_api_endpoints"@[0]);
    assert("get_failover_queue"@[0] != "open_config_folder"@[0]);
    assert("get_failover_queue"@[0] != "start_proxy_server"@[0]);
    assert("add_to_failover_queue"@[0] != "import_default_config"@[0]);
    assert("add_to_failover_queue"@[0] != "get_claude_mcp_status"@[0]);
    assert("add_to_failover_queue"@[0] != "get_codex_oauth_quota"@[0]);
    assert("add_to_failover_queue"@[0] != "get_coding_plan_quota"@[0]);
    assert("add_to_failover_queue"@[0] != "switch_proxy_provider"@[0]);
    assert("add_to_failover_queue"@[0] != "reset_circuit_breaker"@[0]);
    assert("remove_from_failover_queue"@[0] != "apply_claude_plugin_config"@[0]);
    assert("remove_from_failover_queue"@[0] != "set_proxy_takeover_for_app"@[0]);
    assert("remove_from_failover_queue"@[0] != "update_global_proxy_config"@[0]);
    assert("remove_from_failover_queue"@[0] != "get_circuit_breaker_config"@[0]);
    assert("get_auto_failover_enabled"@[4] != "get_claude_desktop_status"@[4]);
    assert("get_auto_failover_enabled"@[0] != "update_endpoint_last_used"@[0]);
    assert("get_auto_failover_enabled"@[0] != "upsert_universal_provider"@[0]);
    assert("get_auto_failover_enabled"@[0] != "delete_universal_provider"@[0]);
    assert("get_auto_failover_enabled"@[4] != "get_common_config_snippet"@[4]);
    assert("get_auto_failover_enabled"@[0] != "set_common_config_snippet"@[0]);
    assert("get_auto_failover_enabled"@[0] != "read_claude_plugin_config"@[0]);
    assert("get_auto_failover_enabled"@[4] != "get_proxy_takeover_status"@[4]);
    assert("get_auto_failover_enabled"@[4] != "get_circuit_breaker_stats"@[4]);
    assert("set_auto_failover_enabled"@[0] != "get_claude_desktop_status"@[0]);
    assert("set_auto_failover_enabled"@[0] != "update_endpoint_last_used"@[0]);
    assert("set_auto_failover_enabled"@[0] != "upsert_universal_provider"@[0]);
    assert("set_auto_failover_enabled"@[0] != "delete_universal_provider"@[0]);
    assert("set_auto_failover_enabled"@[0] != "get_common_config_snippet"@[0]);
    assert("set_auto_failover_enabled"@[4] != "set_common_config_snippet"@[4]);
    assert("set_auto_failover_enabled"@[0] != "read_claude_plugin_config"@[0]);
    assert("set_auto_failover_enabled"@[0] != "get_proxy_takeover_status"@[0]);
    assert("set_auto_failover_enabled"@[0] != "get_circuit_breaker_stats"@[0]);
    assert("set_auto_failover_enabled"@[0] != "get_auto_failover_enabled"@[0]);
}

/// The commands for usage statistics, stream checks and sessions read these members of the request, in this
/// order, each as its kind says.
pub proof fn usage_commands_read_their_members()
    ensures
        command_params("get_usage_summary"@) == Some(seq![Param { key: "startDate", kind: ParamKind::OptI64 }, Param { key: "endDate", kind: ParamKind::OptI64 }, Param { key: "appType", kind: ParamKind::OptStr }]),
        command_params("get_usage_summary_by_app"@) == Some(seq![Param { key: "startDate", kind: ParamKind::OptI64 }, Param { key: "endDate", kind: ParamKind::OptI64 }]),
        command_params("get_usage_trends"@) == Some(seq![Param { key: "startDate", kind: ParamKind::OptI64 }, Param { key: "endDate", kind: ParamKind::OptI64 }, Param { key: "appType", kind: ParamKind::OptStr }]),
        command_params("get_provider_stats"@) == Some(seq![Param { key: "startDate", kind: ParamKind::OptI64 }, Param { key: "endDate", kind: ParamKind::OptI64 }, Param { key: "appType", kind: ParamKind::OptStr }]),
        command_params("get_model_stats"@) == Some(seq![Param { key: "startDate", kind: ParamKind::OptI64 }, Param { key: "endDate", kind: ParamKind::OptI64 }, Param { key: "appType", kind: ParamKind::OptStr }]),
        command_params("get_request_logs"@) == Some(seq![Param { key: "filters", kind: ParamKind::ReqTyped }, Param { key: "page", kind: ParamKind::ReqU32 }, Param { key: "pageSize", kind: ParamKind::ReqU32 }]),
        command_params("get_request_detail"@) == Some(seq![Param { key: "requestId", kind: ParamKind::ReqStr }]),
        command_params("get_model_pricing"@) == Some(Seq::<Param>::empty()),
        command_params("update_model_pricing"@) == Some(seq![Param { key: "modelId", kind: ParamKind::ReqStr }, Param { key: "displayName", kind: ParamKind::ReqStr }, Param { key: "inputCost", kind: ParamKind::ReqStr }, Param { key: "outputCost", kind: ParamKind::ReqStr }, Param { key: "cacheReadCost", kind: ParamKind::ReqStr }, Param { key: "cacheCreationCost", kind: ParamKind::ReqStr }]),
        command_params("delete_model_pricing"@) == Some(seq![Param { key: "modelId", kind: ParamKind::ReqStr }]),
        command_params("check_provider_limits"@) == Some(seq![Param { key: "providerId", kind: ParamKind::ReqStr }, Param { key: "appType", kind: ParamKind::ReqStr }]),
        command_params("sync_session_usage"@) == Some(Seq::<Param>::empty()),
        command_params("get_usage_data_sources"@) == Some(Seq::<Param>::empty()),
        command_params("stream_check_provider"@) == Some(seq![Param { key: "appType", kind: ParamKind::ReqTyped }, Param { key: "providerId", kind: ParamKind::ReqStr }]),
        command_params("stream_check_all_providers"@) == Some(seq![Param { key: "appType", kind: ParamKind::ReqTyped }, Param { key: "proxyTargetsOnly", kind: ParamKind::ReqBool }]),
        command_params("get_stream_check_config"@) == Some(Seq::<Param>::empty()),
        command_params("save_stream_check_config"@) == Some(seq![Param { key: "config", kind: ParamKind::ReqTyped }]),
        command_params("list_sessions"@) == Some(Seq::<Param>::empty()),
        command_params("get_session_messages"@) == Some(seq![Param { key: "providerId", kind: ParamKind::ReqStr }, Param { key: "sourcePath", kind: ParamKind::ReqStr }]),
        command_params("delete_session"@) == Some(seq![Param { key: "providerId", kind: ParamKind::ReqStr }, Param { key: "sessionId", kind: ParamKind::ReqStr }, Param { key: "sourcePath", kind: ParamKind::ReqStr }]),
        command_params("delete_sessions"@) == Some(seq![Param { key: "items", kind: ParamKind::ReqTyped }]),
        command_params("launch_session_terminal"@) == Some(seq![Param { key: "command", kind: ParamKind::ReqStr }, Param { key: "cwd", kind: ParamKind::OptStr }, Param { key: "customConfig", kind: ParamKind::OptStr }]),
{
    reveal_strlit("get_providers");
    assert("get_providers"@.len() == 13);
    reveal_strlit("get_current_provider");
    assert("get_current_provider"@.len() == 20);
    reveal_strlit("add_provider");
    assert("add_provider"@.len() == 12);
    reveal_strlit("update_provider");
    assert("update_provider"@.len() == 15);
    reveal_strlit("delete_provider");
    assert("delete_provider"@.len() == 15);
    reveal_strlit("remove_provider_from_live_config");
    assert("remove_provider_from_live_config"@.len() == 32);
    reveal_strlit("switch_provider");
    assert("switch_provider"@.len() == 15);
    reveal_strlit("import_default_config");
    assert("import_default_config"@.len() == 21);
    reveal_strlit("get_claude_desktop_status");
    assert("get_claude_desktop_status"@.len() == 25);
    reveal_strlit("get_claude_desktop_default_routes");
    assert("get_claude_desktop_default_routes"@.len() == 33);
    reveal_strlit("import_claude_desktop_providers_from_claude");
    assert("import_claude_desktop_providers_from_claude"@.len() == 43);
    reveal_strlit("queryProviderUsage");
    assert("queryProviderUsage"@.len() == 18);
    reveal_strlit("testUsageScript");
    assert("testUsageScript"@.len() == 15);
    reveal_strlit("read_live_provider_settings");
    assert("read_live_provider_settings"@.len() == 27);
    reveal_strlit("test_api_endpoints");
    assert("test_api_endpoints"@.len() == 18);
    reveal_strlit("get_custom_endpoints");
    assert("get_custom_endpoints"@.len() == 20);
    reveal_strlit("add_custom_endpoint");
    assert("add_custom_endpoint"@.len() == 19);
    reveal_strlit("remove_custom_endpoint");
    assert("remove_custom_endpoint"@.len() == 22);
    reveal_strlit("update_endpoint_last_used");
    assert("update_endpoint_last_used"@.len() == 25);
    reveal_strlit("update_providers_sort_order");
    assert("update_providers_sort_order"@.len() == 27);
    reveal_strlit("get_universal_providers");
    assert("get_universal_providers"@.len() == 23);
    reveal_strlit("get_universal_provider");
    assert("get_universal_provider"@.len() == 22);
    reveal_strlit("upsert_universal_provider");
    assert("upsert_universal_provider"@.len() == 25);
    reveal_strlit("delete_universal_provider");
    assert("delete_universal_provider"@.len() == 25);
    reveal_strlit("sync_universal_provider");
    assert("sync_universal_provider"@.len() == 23);
    reveal_strlit("import_opencode_providers_from_live");
    assert("import_opencode_providers_from_live"@.len() == 35);
    reveal_strlit("get_opencode_live_provider_ids");
    assert("get_opencode_live_provider_ids"@.len() == 30);
    reveal_strlit("get_claude_config_status");
    assert("get_claude_config_status"@.len() == 24);
    reveal_strlit("get_config_status");
    assert("get_config_status"@.len() == 17);
    reveal_strlit("get_claude_code_config_path");
    assert("get_claude_code_config_path"@.len() == 27);
    reveal_strlit("get_config_dir");
    assert("get_config_dir"@.len() == 14);
    reveal_strlit("open_config_folder");
    assert("open_config_folder"@.len() == 18);
    reveal_strlit("pick_directory");
    assert("pick_directory"@.len() == 14);
    reveal_strlit("open_external");
    assert("open_external"@.len() == 13);
    reveal_strlit("get_init_error");
    assert("get_init_error"@.len() == 14);
    reveal_strlit("get_migration_result");
    assert("get_migration_result"@.len() == 20);
    reveal_strlit("get_skills_migration_result");
    assert("get_skills_migration_result"@.len() == 27);
    reveal_strlit("get_app_config_path");
    assert("get_app_config_path"@.len() == 19);
    reveal_strlit("open_app_config_folder");
    assert("open_app_config_folder"@.len() == 22);
    reveal_strlit("get_claude_common_config_snippet");
    assert("get_claude_common_config_snippet"@.len() == 32);
    reveal_strlit("set_claude_common_config_snippet");
    assert("set_claude_common_config_snippet"@.len() == 32);
    reveal_strlit("get_common_config_snippet");
    assert("get_common_config_snippet"@.len() == 25);
    reveal_strlit("set_common_config_snippet");
    assert("set_common_config_snippet"@.len() == 25);
    reveal_strlit("extract_common_config_snippet");
    assert("extract_common_config_snippet"@.len() == 29);
    reveal_strlit("copy_text_to_clipboard");
    assert("copy_text_to_clipboard"@.len() == 22);
    reveal_strlit("check_for_updates");
    assert("check_for_updates"@.len() == 17);
    reveal_strlit("is_portable_mode");
    assert("is_portable_mode"@.len() == 16);
    reveal_strlit("get_tool_versions");
    assert("get_tool_versions"@.len() == 17);
    reveal_strlit("open_provider_terminal");
    assert("open_provider_terminal"@.len() == 22);
    reveal_strlit("set_window_theme");
    assert("set_window_theme"@.len() == 16);
    reveal_strlit("get_settings");
    assert("get_settings"@.len() == 12);
    reveal_strlit("save_settings");
    assert("save_settings"@.len() == 13);
    reveal_strlit("restart_app");
    assert("restart_app"@.len() == 11);
    reveal_strlit("get_app_config_dir_override");
    assert("get_app_config_dir_override"@.len() == 27);
    reveal_strlit("set_app_config_dir_override");
    assert("set_app_config_dir_override"@.len() == 27);
    reveal_strlit("get_rectifier_config");
    assert("get_rectifier_config"@.len() == 20);
    reveal_strlit("set_rectifier_config");
    assert("set_rectifier_config"@.len() == 20);
    reveal_strlit("get_optimizer_config");
    assert("get_optimizer_config"@.len() == 20);
    reveal_strlit("set_optimizer_config");
    assert("set_optimizer_config"@.len() == 20);
    reveal_strlit("get_copilot_optimizer_config");
    assert("get_copilot_optimizer_config"@.len() == 28);
    reveal_strlit("set_copilot_optimizer_config");
    assert("set_copilot_optimizer_config"@.len() == 28);
    reveal_strlit("get_log_config");
    assert("get_log_config"@.len() == 14);
    reveal_strlit("set_log_config");
    assert("set_log_config"@.len() == 14);
    reveal_strlit("get_claude_plugin_status");
    assert("get_claude_plugin_status"@.len() == 24);
    reveal_strlit("read_claude_plugin_config");
    assert("read_claude_plugin_config"@.len() == 25);
    reveal_strlit("apply_claude_plugin_config");
    assert("apply_claude_plugin_config"@.len() == 26);
    reveal_strlit("is_claude_plugin_applied");
    assert("is_claude_plugin_applied"@.len() == 24);
    reveal_strlit("apply_claude_onboarding_skip");
    assert("apply_claude_onboarding_skip"@.len() == 28);
    reveal_strlit("clear_claude_onboarding_skip");
    assert("clear_claude_onboarding_skip"@.len() == 28);
    reveal_strlit("get_claude_mcp_status");
    assert("get_claude_mcp_status"@.len() == 21);
    reveal_strlit("read_claude_mcp_config");
    assert("read_claude_mcp_config"@.len() == 22);
    reveal_strlit("upsert_claude_mcp_server");
    assert("upsert_claude_mcp_server"@.len() == 24);
    reveal_strlit("delete_claude_mcp_server");
    assert("delete_claude_mcp_server"@.len() == 24);
    reveal_strlit("validate_mcp_command");
    assert("validate_mcp_command"@.len() == 20);
    reveal_strlit("get_mcp_config");
    assert("get_mcp_config"@.len() == 14);
    reveal_strlit("upsert_mcp_server_in_config");
    assert("upsert_mcp_server_in_config"@.len() == 27);
    reveal_strlit("delete_mcp_server_in_config");
    assert("delete_mcp_server_in_config"@.len() == 27);
    reveal_strlit("set_mcp_enabled");
    assert("set_mcp_enabled"@.len() == 15);
    reveal_strlit("get_mcp_servers");
    assert("get_mcp_servers"@.len() == 15);
    reveal_strlit("upsert_mcp_server");
    assert("upsert_mcp_server"@.len() == 17);
    reveal_strlit("delete_mcp_server");
    assert("delete_mcp_server"@.len() == 17);
    reveal_strlit("toggle_mcp_app");
    assert("toggle_mcp_app"@.len() == 14);
    reveal_strlit("import_mcp_from_apps");
    assert("import_mcp_from_apps"@.len() == 20);
    reveal_strlit("get_prompts");
    assert("get_prompts"@.len() == 11);
    reveal_strlit("upsert_prompt");
    assert("upsert_prompt"@.len() == 13);
    reveal_strlit("delete_prompt");
    assert("delete_prompt"@.len() == 13);
    reveal_strlit("enable_prompt");
    assert("enable_prompt"@.len() == 13);
    reveal_strlit("import_prompt_from_file");
    assert("import_prompt_from_file"@.len() == 23);
    reveal_strlit("get_current_prompt_file_content");
    assert("get_current_prompt_file_content"@.len() == 31);
    reveal_strlit("fetch_models_for_config");
    assert("fetch_models_for_config"@.len() == 23);
    reveal_strlit("get_subscription_quota");
    assert("get_subscription_quota"@.len() == 22);
    reveal_strlit("get_codex_oauth_quota");
    assert("get_codex_oauth_quota"@.len() == 21);
    reveal_strlit("get_codex_oauth_models");
    assert("get_codex_oauth_models"@.len() == 22);
    reveal_strlit("get_coding_plan_quota");
    assert("get_coding_plan_quota"@.len() == 21);
    reveal_strlit("get_balance");
    assert("get_balance"@.len() == 11);
    reveal_strlit("start_proxy_server");
    assert("start_proxy_server"@.len() == 18);
    reveal_strlit("stop_proxy_server");
    assert("stop_proxy_server"@.len() == 17);
    reveal_strlit("stop_proxy_with_restore");
    assert("stop_proxy_with_restore"@.len() == 23);
    reveal_strlit("get_proxy_takeover_status");
    assert("get_proxy_takeover_status"@.len() == 25);
    reveal_strlit("set_proxy_takeover_for_app");
    assert("set_proxy_takeover_for_app"@.len() == 26);
    reveal_strlit("get_proxy_status");
    assert("get_proxy_status"@.len() == 16);
    reveal_strlit("get_proxy_config");
    assert("get_proxy_config"@.len() == 16);
    reveal_strlit("update_proxy_config");
    assert("update_proxy_config"@.len() == 19);
    reveal_strlit("get_global_proxy_config");
    assert("get_global_proxy_config"@.len() == 23);
    reveal_strlit("update_global_proxy_config");
    assert("update_global_proxy_config"@.len() == 26);
    reveal_strlit("get_proxy_config_for_app");
    assert("get_proxy_config_for_app"@.len() == 24);
    reveal_strlit("update_proxy_config_for_app");
    assert("update_proxy_config_for_app"@.len() == 27);
    reveal_strlit("get_default_cost_multiplier");
    assert("get_default_cost_multiplier"@.len() == 27);
    reveal_strlit("set_default_cost_multiplier");
    assert("set_default_cost_multiplier"@.len() == 27);
    reveal_strlit("get_pricing_model_source");
    assert("get_pricing_model_source"@.len() == 24);
    reveal_strlit("set_pricing_model_source");
    assert("set_pricing_model_source"@.len() == 24);
    reveal_strlit("is_proxy_running");
    assert("is_proxy_running"@.len() == 16);
    reveal_strlit("is_live_takeover_active");
    assert("is_live_takeover_active"@.len() == 23);
    reveal_strlit("switch_proxy_provider");
    assert("switch_proxy_provider"@.len() == 21);
    reveal_strlit("get_provider_health");
    assert("get_provider_health"@.len() == 19);
    reveal_strlit("reset_circuit_breaker");
    assert("reset_circuit_breaker"@.len() == 21);
    reveal_strlit("get_circuit_breaker_config");
    assert("get_circuit_breaker_config"@.len() == 26);
    reveal_strlit("update_circuit_breaker_config");
    assert("update_circuit_breaker_config"@.len() == 29);
    reveal_strlit("get_circuit_breaker_stats");
    assert("get_circuit_breaker_stats"@.len() == 25);
    reveal_strlit("get_failover_queue");
    assert("get_failover_queue"@.len() == 18);
    reveal_strlit("get_available_providers_for_failover");
    assert("get_available_providers_for_failover"@.len() == 36);
    reveal_strlit("add_to_failover_queue");
    assert("add_to_failover_queue"@.len() == 21);
    reveal_strlit("remove_from_failover_queue");
    assert("remove_from_failover_queue"@.len() == 26);
    reveal_strlit("get_auto_failover_enabled");
    assert("get_auto_failover_enabled"@.len() == 25);
    reveal_strlit("set_auto_failover_enabled");
    assert("set_auto_failover_enabled"@.len() == 25);
    reveal_strlit("get_usage_summary");
    assert("get_usage_summary"@.len() == 17);
    reveal_strlit("get_usage_summary_by_app");
    assert("get_usage_summary_by_app"@.len() == 24);
    reveal_strlit("get_usage_trends");
    assert("get_usage_trends"@.len() == 16);
    reveal_strlit("get_provider_stats");
    assert("get_provider_stats"@.len() == 18);
    reveal_strlit("get_model_stats");
    assert("get_model_stats"@.len() == 15);
    reveal_strlit("get_request_logs");
    assert("get_request_logs"@.len() == 16);
    reveal_strlit("get_request_detail");
    assert("get_request_detail"@.len() == 18);
    reveal_strlit("get_model_pricing");
    assert("get_model_pricing"@.len() == 17);
    reveal_strlit("update_model_pricing");
    assert("update_model_pricing"@.len() == 20);
    reveal_strlit("delete_model_pricing");
    assert("delete_model_pricing"@.len() == 20);
    reveal_strlit("check_provider_limits");
    assert("check_provider_limits"@.len() == 21);
    reveal_strlit("sync_session_usage");
    assert("sync_session_usage"@.len() == 18);
    reveal_strlit("get_usage_data_sources");
    assert("get_usage_data_sources"@.len() == 22);
    reveal_strlit("stream_check_provider");
    assert("stream_check_provider"@.len() == 21);
    reveal_strlit("stream_check_all_providers");
    assert("stream_check_all_providers"@.len() == 26);
    reveal_strlit("get_stream_check_config");
    assert("get_stream_check_config"@.len() == 23);
    reveal_strlit("save_stream_check_config");
    assert("save_stream_check_config"@.len() == 24);
    reveal_strlit("list_sessions");
    assert("list_sessions"@.len() == 13);
    reveal_strlit("get_session_messages");
    assert("get_session_messages"@.len() == 20);
    reveal_strlit("delete_session");
    assert("delete_session"@.len() == 14);
    reveal_strlit("delete_sessions");
    assert("delete_sessions"@.len() == 15);
    reveal_strlit("launch_session_terminal");
    assert("launch_session_terminal"@.len() == 23);
    assert("get_usage_summary"@[4] != "get_config_status"@[4]);
    assert("get_usage_summary"@[0] != "check_for_updates"@[0]);
    assert("get_usage_summary"@[4] != "get_tool_versions"@[4]);
    assert("get_usage_summary"@[0] != "upsert_mcp_server"@[0]);
    assert("get_usage_summary"@[0] != "delete_mcp_server"@[0]);
    assert("get_usage_summary"@[0] != "stop_proxy_server"@[0]);
    assert("get_usage_summary_by_app"@[4] != "get_claude_config_status"@[4]);
    assert("get_usage_summary_by_app"@[4] != "get_claude_plugin_status"@[4]);
    assert("get_usage_summary_by_app"@[0] != "is_claude_plugin_applied"@[0]);
    assert("get_usage_summary_by_app"@[0] != "upsert_claude_mcp_server"@[0]);
    assert("get_usage_summary_by_app"@[0] != "delete_claude_mcp_server"@[0]);
    assert("get_usage_summary_by_app"@[4] != "get_proxy_config_for_app"@[4]);
    assert("get_usage_summary_by_app"@[4] != "get_pricing_model_source"@[4]);
    assert("get_usage_summary_by_app"@[0] != "set_pricing_model_source"@[0]);
    assert("get_usage_trends"@[0] != "is_portable_mode"@[0]);
    assert("get_usage_trends"@[0] != "set_window_theme"@[0]);
    assert("get_usage_trends"@[4] != "get_proxy_status"@[4]);
    assert("get_usage_trends"@[4] != "get_proxy_config"@[4]);
    assert("get_usage_trends"@[0] != "is_proxy_running"@[0]);
    assert("get_provider_stats"@[0] != "queryProviderUsage"@[0]);
    assert("get_provider_stats"@[0] != "test_api_endpoints"@[0]);
    assert("get_provider_stats"@[0] != "open_config_folder"@[0]);
    assert("get_provider_stats"@[0] != "start_proxy_server"@[0]);
    assert("get_provider_stats"@[4] != "get_failover_queue"@[4]);
    assert("get_model_stats"@[0] != "update_provider"@[0]);
    assert("get_model_stats"@[0] != "delete_provider"@[0]);
    assert("get_model_stats"@[0] != "switch_provider"@[0]);
    assert("get_model_stats"@[0] != "testUsageScript"@[0]);
    assert("get_model_stats"@[0] != "set_mcp_enabled"@[0]);
    assert("get_model_stats"@[5] != "get_mcp_servers"@[5]);
    assert("get_request_logs"@[0] != "is_portable_mode"@[0]);
    assert("get_request_logs"@[0] != "set_window_theme"@[0]);
    assert("get_request_logs"@[4] != "get_proxy_status"@[4]);
    assert("get_request_logs"@[4] != "get_proxy_config"@[4]);
    assert("get_request_logs"@[0] != "is_proxy_running"@[0]);
    assert("get_request_logs"@[4] != "get_usage_trends"@[4]);
    assert("get_request_detail"@[0] != "queryProviderUsage"@[0]);
    assert("get_request_detail"@[0] != "test_api_endpoints"@[0]);
    assert("get_request_detail"@[0] != "open_config_folder"@[0]);
    assert("get_request_detail"@[0] != "start_proxy_server"@[0]);
    assert("get_request_detail"@[4] != "get_failover_queue"@[4]);
    assert("get_request_detail"@[4] != "get_provider_stats"@[4]);
    assert("get_model_pricing"@[4] != "get_config_status"@[4]);
    assert("get_model_pricing"@[0] != "check_for_updates"@[0]);
    assert("get_model_pricing"@[4] != "get_tool_versions"@[4]);
    assert("get_model_pricing"@[0] != "upsert_mcp_server"@[0]);
    assert("get_model_pricing"@[0] != "delete_mcp_server"@[0]);
    assert("get_model_pricing"@[0] != "stop_proxy_server"@[0]);
    assert("get_model_pricing"@[4] != "get_usage_summary"@[4]);
    assert("update_model_pricing"@[0] != "get_current_provider"@[0]);
    assert("update_model_pricing"@[0] != "get_custom_endpoints"@[0]);
    assert("update_model_pricing"@[0] != "get_migration_result"@[0]);
    assert("update_model_pricing"@[0] != "get_rectifier_config"@[0]);
    assert("update_model_pricing"@[0] != "set_rectifier_config"@[0]);
    assert("update_model_pricing"@[0] != "get_optimizer_config"@[0]);
    assert("update_model_pricing"@[0] != "set_optimizer_config"@[0]);
    assert("update_model_pricing"@[0] != "validate_mcp_command"@[0]);
    assert("update_model_pricing"@[0] != "import_mcp_from_apps"@[0]);
    assert("delete_model_pricing"@[0] != "get_current_provider"@[0]);
    assert("delete_model_pricing"@[0] != "get_custom_endpoints"@[0]);
    assert("delete_model_pricing"@[0] != "get_migration_result"@[0]);
    assert("delete_model_pricing"@[0] != "get_rectifier_config"@[0]);
    assert("delete_model_pricing"@[0] != "set_rectifier_config"@[0]);
    assert("delete_model_pricing"@[0] != "get_optimizer_config"@[0]);
    assert("delete_model_pricing"@[0] != "set_optimizer_config"@[0]);
    assert("delete_model_pricing"@[0] != "validate_mcp_command"@[0]);
    assert("delete_model_pricing"@[0] != "import_mcp_from_apps"@[0]);
    assert("delete_model_pricing"@[0] != "update_model_pricing"@[0]);
    assert("check_provider_limits"@[0] != "import_default_config"@[0]);
    assert("check_provider_limits"@[0] != "get_claude_mcp_status"@[0]);
    assert("check_provider_limits"@[0] != "get_codex_oauth_quota"@[0]);
    assert("check_provider_limits"@[0] != "get_coding_plan_quota"@[0]);
    assert("check_provider_limits"@[0] != "switch_proxy_provider"@[0]);
    assert("check_provider_limits"@[0] != "reset_circuit_breaker"@[0]);
    assert("check_provider_limits"@[0] != "add_to_failover_queue"@[0]);
    assert("sync_session_usage"@[0] != "queryProviderUsage"@[0]);
    assert("sync_session_usage"@[0] != "test_api_endpoints"@[0]);
    assert("sync_session_usage"@[0] != "open_config_folder"@[0]);
    assert("sync_session_usage"@[1] != "start_proxy_server"@[1]);
    assert("sync_session_usage"@[0] != "get_failover_queue"@[0]);
    assert("sync_session_usage"@[0] != "get_provider_stats"@[0]);
    assert("sync_session_usage"@[0] != "get_request_detail"@[0]);
    assert("get_usage_data_sources"@[0] != "remove_custom_endpoint"@[0]);
    assert("get_usage_data_sources"@[5] != "get_universal_provider"@[5]);
    assert("get_usage_data_sources"@[0] != "open_app_config_folder"@[0]);
    assert("get_usage_data_sources"@[0] != "copy_text_to_clipboard"@[0]);
    assert("get_usage_data_sources"@[0] != "open_provider_terminal"@[0]);
    assert("get_usage_data_sources"@[0] != "read_claude_mcp_config"@[0]);
    assert("get_usage_data_sources"@[4] != "get_subscription_quota"@[4]);
    assert("get_usage_data_sources"@[4] != "get_codex_oauth_models"@[4]);
    assert("stream_check_provider"@[0] != "import_default_config"@[0]);
    assert("stream_check_provider"@[0] != "get_claude_mcp_status"@[0]);
    assert("stream_check_provider"@[0] != "get_codex_oauth_quota"@[0]);
    assert("stream_check_provider"@[0] != "get_coding_plan_quota"@[0]);
    assert("stream_check_provider"@[1] != "switch_proxy_provider"@[1]);
    assert("stream_check_provider"@[0] != "reset_circuit_breaker"@[0]);
    assert("stream_check_provider"@[0] != "add_to_failover_queue"@[0]);
    assert("stream_check_provider"@[0] != "check_provider_limits"@[0]);
    assert("stream_check_all_providers"@[0] != "apply_claude_plugin_config"@[0]);
    assert("stream_check_all_providers"@[1] != "set_proxy_takeover_for_app"@[1]);
    assert("stream_check_all_providers"@[0] != "update_global_proxy_config"@[0]);
    assert("stream_check_all_providers"@[0] != "get_circuit_breaker_config"@[0]);
    assert("stream_check_all_providers"@[0] != "remove_from_failover_queue"@[0]);
    assert("get_stream_check_config"@[4] != "get_universal_providers"@[4]);
    assert("get_stream_check_config"@[0] != "sync_universal_provider"@[0]);
    assert("get_stream_check_config"@[0] != "import_prompt_from_file"@[0]);
    assert("get_stream_check_config"@[0] != "fetch_models_for_config"@[0]);
    assert("get_stream_check_config"@[0] != "stop_proxy_with_restore"@[0]);
    assert("get_stream_check_config"@[4] != "get_global_proxy_config"@[4]);
    assert("get_stream_check_config"@[0] != "is_live_takeover_active"@[0]);
    assert("save_stream_check_config"@[0] != "get_claude_config_status"@[0]);
    assert("save_stream_check_config"@[0] != "get_claude_plugin_status"@[0]);
    assert("save_stream_check_config"@[0] != "is_claude_plugin_applied"@[0]);
    assert("save_stream_check_config"@[0] != "upsert_claude_mcp_server"@[0]);
    assert("save_stream_check_config"@[0] != "delete_claude_mcp_server"@[0]);
    assert("save_stream_check_config"@[0] != "get_proxy_config_for_app"@[0]);
    assert("save_stream_check_config"@[0] != "get_pricing_model_source"@[0]);
    assert("save_stream_check_config"@[1] != "set_pricing_model_source"@[1]);
    assert("save_stream_check_config"@[0] != "get_usage_summary_by_app"@[0]);
    assert("list_sessions"@[0] != "get_providers"@[0]);
    assert("list_sessions"@[0] != "open_external"@[0]);
    assert("list_sessions"@[0] != "save_settings"@[0]);
    assert("list_sessions"@[0] != "upsert_prompt"@[0]);
    assert("list_sessions"@[0] != "delete_prompt"@[0]);
    assert("list_sessions"@[0] != "enable_prompt"@[0]);
    assert("get_session_messages"@[4] != "get_current_provider"@[4]);
    assert("get_session_messages"@[4] != "get_custom_endpoints"@[4]);
    assert("get_session_messages"@[4] != "get_migration_result"@[4]);
    assert("get_session_messages"@[4] != "get_rectifier_config"@[4]);
    assert("get_session_messages"@[0] != "set_rectifier_config"@[0]);
    assert("get_session_messages"@[4] != "get_optimizer_config"@[4]);
    assert("get_session_messages"@[0] != "set_optimizer_config"@[0]);
    assert("get_session_messages"@[0] != "validate_mcp_command"@[0]);
    assert("get_session_messages"@[0] != "import_mcp_from_apps"@[0]);
    assert("get_session_messages"@[0] != "update_model_pricing"@[0]);
    assert("get_session_messages"@[0] != "delete_model_pricing"@[0]);
    assert("delete_session"@[0] != "get_config_dir"@[0]);
    assert("delete_session"@[0] != "pick_directory"@[0]);
    assert("delete_session"@[0] != "get_init_error"@[0]);
    assert("delete_session"@[0] != "get_log_config"@[0]);
    assert("delete_session"@[0] != "set_log_config"@[0]);
    assert("delete_session"@[0] != "get_mcp_config"@[0]);
    assert("delete_session"@[0] != "toggle_mcp_app"@[0]);
    assert("delete_sessions"@[0] != "update_provider"@[0]);
    assert("delete_sessions"@[7] != "delete_provider"@[7]);
    assert("delete_sessions"@[0] != "switch_provider"@[0]);
    assert("delete_sessions"@[0] != "testUsageScript"@[0]);
    assert("delete_sessions"@[0] != "set_mcp_enabled"@[0]);
    assert("delete_sessions"@[0] != "get_mcp_servers"@[0]);
    assert("delete_sessions"@[0] != "get_model_stats"@[0]);
    assert("launch_session_terminal"@[0] != "get_universal_providers"@[0]);
    assert("launch_session_terminal"@[0] != "sync_universal_provider"@[0]);
    assert("launch_session_terminal"@[0] != "import_prompt_from_file"@[0]);
    assert("launch_session_terminal"@[0] != "fetch_models_for_config"@[0]);
    assert("launch_session_terminal"@[0] != "stop_proxy_with_restore"@[0]);
    assert("launch_session_terminal"@[0] != "get_global_proxy_config"@[0]);
    assert("launch_session_terminal"@[0] != "is_live_takeover_active"@[0]);
    assert("launch_session_terminal"@[0] != "get_stream_check_config"@[0]);
}

/// The commands for OpenClaw and Hermes read these members of the request, in this
/// order, each as its kind says.
pub proof fn agent_commands_read_their_members()
    ensures
        command_params("import_openclaw_providers_from_live"@) == Some(Seq::<Param>::empty()),
        command_params("get_openclaw_live_provider_ids"@) == Some(Seq::<Param>::empty()),
        command_params("get_openclaw_live_provider"@) == Some(seq![Param { key: "providerId", kind: ParamKind::ReqStr }]),
        command_params("scan_openclaw_config_health"@) == Some(Seq::<Param>::empty()),
        command_params("get_openclaw_default_model"@) == Some(Seq::<Param>::empty()),
        command_params("set_openclaw_default_model"@) == Some(seq![Param { key: "model", kind: ParamKind::ReqTyped }]),
        command_params("get_openclaw_model_catalog"@) == Some(Seq::<Param>::empty()),
        command_params("set_openclaw_model_catalog"@) == Some(seq![Param { key: "catalog", kind: ParamKind::ReqTyped }]),
        command_params("get_openclaw_agents_defaults"@) == Some(Seq::<Param>::empty()),
        command_params("set_openclaw_agents_defaults"@) == Some(seq![Param { key: "defaults", kind: ParamKind::ReqTyped }]),
        command_params("get_openclaw_env"@) == Some(Seq::<Param>::empty()),
        command_params("set_openclaw_env"@) == Some(seq![Param { key: "env", kind: ParamKind::ReqTyped }]),
        command_params("get_openclaw_tools"@) == Some(Seq::<Param>::empty()),
        command_params("set_openclaw_tools"@) == Some(seq![Param { key: "tools", kind: ParamKind::ReqTyped }]),
        command_params("import_hermes_providers_from_live"@) == Some(Seq::<Param>::empty()),
        command_params("get_hermes_live_provider_ids"@) == Some(Seq::<Param>::empty()),
        command_params("get_hermes_live_provider"@) == Some(seq![Param { key: "providerId", kind: ParamKind::ReqStr }]),
        command_params("get_hermes_model_config"@) == Some(Seq::<Param>::empty()),
        command_params("open_hermes_web_ui"@) == Some(seq![Param { key: "path", kind: ParamKind::OptStr }]),
        command_params("launch_hermes_dashboard"@) == Some(Seq::<Param>::empty()),
        command_params("get_hermes_memory"@) == Some(seq![Param { key: "kind", kind: ParamKind::ReqTyped }]),
        command_params("set_hermes_memory"@) == Some(seq![Param { key: "kind", kind: ParamKind::ReqTyped }, Param { key: "content", kind: ParamKind::ReqStr }]),
        command_params("get_hermes_memory_limits"@) == Some(Seq::<Param>::empty()),
        command_params("set_hermes_memory_enabled"@) == Some(seq![Param { key: "kind", kind: ParamKind::ReqTyped }, Param { key: "enabled", kind: ParamKind::ReqBool }]),
{
    reveal_strlit("get_providers");
    assert("get_providers"@.len() == 13);
    reveal_strlit("get_current_provider");
    assert("get_current_provider"@.len() == 20);
    reveal_strlit("add_provider");
    assert("add_provider"@.len() == 12);
    reveal_strlit("update_provider");
    assert("update_provider"@.len() == 15);
    reveal_strlit("delete_provider");
    assert("delete_provider"@.len() == 15);
    reveal_strlit("remove_provider_from_live_config");
    assert("remove_provider_from_live_config"@.len() == 32);
    reveal_strlit("switch_provider");
    assert("switch_provider"@.len() == 15);
    reveal_strlit("import_default_config");
    assert("import_default_config"@.len() == 21);
    reveal_strlit("get_claude_desktop_status");
    assert("get_claude_desktop_status"@.len() == 25);
    reveal_strlit("get_claude_desktop_default_routes");
    assert("get_claude_desktop_default_routes"@.len() == 33);
    reveal_strlit("import_claude_desktop_providers_from_claude");
    assert("import_claude_desktop_providers_from_claude"@.len() == 43);
    reveal_strlit("queryProviderUsage");
    assert("queryProviderUsage"@.len() == 18);
    reveal_strlit("testUsageScript");
    assert("testUsageScript"@.len() == 15);
    reveal_strlit("read_live_provider_settings");
    assert("read_live_provider_settings"@.len() == 27);
    reveal_strlit("test_api_endpoints");
    assert("test_api_endpoints"@.len() == 18);
    reveal_strlit("get_custom_endpoints");
    assert("get_custom_endpoints"@.len() == 20);
    reveal_strlit("add_custom_endpoint");
    assert("add_custom_endpoint"@.len() == 19);
    reveal_strlit("remove_custom_endpoint");
    assert("remove_custom_endpoint"@.len() == 22);
    reveal_strlit("update_endpoint_last_used");
    assert("update_endpoint_last_used"@.len() == 25);
    reveal_strlit("update_providers_sort_order");
    assert("update_providers_sort_order"@.len() == 27);
    reveal_strlit("get_universal_providers");
    assert("get_universal_providers"@.len() == 23);
    reveal_strlit("get_universal_provider");
    assert("get_universal_provider"@.len() == 22);
    reveal_strlit("upsert_universal_provider");
    assert("upsert_universal_provider"@.len() == 25);
    reveal_strlit("delete_universal_provider");
    assert("delete_universal_provider"@.len() == 25);
    reveal_strlit("sync_universal_provider");
    assert("sync_universal_provider"@.len() == 23);
    reveal_strlit("import_opencode_providers_from_live");
    assert("import_opencode_providers_from_live"@.len() == 35);
    reveal_strlit("get_opencode_live_provider_ids");
    assert("get_opencode_live_provider_ids"@.len() == 30);
    reveal_strlit("get_claude_config_status");
    assert("get_claude_config_status"@.len() == 24);
    reveal_strlit("get_config_status");
    assert("get_config_status"@.len() == 17);
    reveal_strlit("get_claude_code_config_path");
    assert("get_claude_code_config_path"@.len() == 27);
    reveal_strlit("get_config_dir");
    assert("get_config_dir"@.len() == 14);
    reveal_strlit("open_config_folder");
    assert("open_config_folder"@.len() == 18);
    reveal_strlit("pick_directory");
    assert("pick_directory"@.len() == 14);
    reveal_strlit("open_external");
    assert("open_external"@.len() == 13);
    reveal_strlit("get_init_error");
    assert("get_init_error"@.len() == 14);
    reveal_strlit("get_migration_result");
    assert("get_migration_result"@.len() == 20);
    reveal_strlit("get_skills_migration_result");
    assert("get_skills_migration_result"@.len() == 27);
    reveal_strlit("get_app_config_path");
    assert("get_app_config_path"@.len() == 19);
    reveal_strlit("open_app_config_folder");
    assert("open_app_config_folder"@.len() == 22);
    reveal_strlit("get_claude_common_config_snippet");
    assert("get_claude_common_config_snippet"@.len() == 32);
    reveal_strlit("set_claude_common_config_snippet");
    assert("set_claude_common_config_snippet"@.len() == 32);
    reveal_strlit("get_common_config_snippet");
    assert("get_common_config_snippet"@.len() == 25);
    reveal_strlit("set_common_config_snippet");
    assert("set_common_config_snippet"@.len() == 25);
    reveal_strlit("extract_common_config_snippet");
    assert("extract_common_config_snippet"@.len() == 29);
    reveal_strlit("copy_text_to_clipboard");
    assert("copy_text_to_clipboard"@.len() == 22);
    reveal_strlit("check_for_updates");
    assert("check_for_updates"@.len() == 17);
    reveal_strlit("is_portable_mode");
    assert("is_portable_mode"@.len() == 16);
    reveal_strlit("get_tool_versions");
    assert("get_tool_versions"@.len() == 17);
    reveal_strlit("open_provider_terminal");
    assert("open_provider_terminal"@.len() == 22);
    reveal_strlit("set_window_theme");
    assert("set_window_theme"@.len() == 16);
    reveal_strlit("get_settings");
    assert("get_settings"@.len() == 12);
    reveal_strlit("save_settings");
    assert("save_settings"@.len() == 13);
    reveal_strlit("restart_app");
    assert("restart_app"@.len() == 11);
    reveal_strlit("get_app_config_dir_override");
    assert("get_app_config_dir_override"@.len() == 27);
    reveal_strlit("set_app_config_dir_override");
    assert("set_app_config_dir_override"@.len() == 27);
    reveal_strlit("get_rectifier_config");
    assert("get_rectifier_config"@.len() == 20);
    reveal_strlit("set_rectifier_config");
    assert("set_rectifier_config"@.len() == 20);
    reveal_strlit("get_optimizer_config");
    assert("get_optimizer_config"@.len() == 20);
    reveal_strlit("set_optimizer_config");
    assert("set_optimizer_config"@.len() == 20);
    reveal_strlit("get_copilot_optimizer_config");
    assert("get_copilot_optimizer_config"@.len() == 28);
    reveal_strlit("set_copilot_optimizer_config");
    assert("set_copilot_optimizer_config"@.len() == 28);
    reveal_strlit("get_log_config");
    assert("get_log_config"@.len() == 14);
    reveal_strlit("set_log_config");
    assert("set_log_config"@.len() == 14);
    reveal_strlit("get_claude_plugin_status");
    assert("get_claude_plugin_status"@.len() == 24);
    reveal_strlit("read_claude_plugin_config");
    assert("read_claude_plugin_config"@.len() == 25);
    reveal_strlit("apply_claude_plugin_config");
    assert("apply_claude_plugin_config"@.len() == 26);
    reveal_strlit("is_claude_plugin_applied");
    assert("is_claude_plugin_applied"@.len() == 24);
    reveal_strlit("apply_claude_onboarding_skip");
    assert("apply_claude_onboarding_skip"@.len() == 28);
    reveal_strlit("clear_claude_onboarding_skip");
    assert("clear_claude_onboarding_skip"@.len() == 28);
    reveal_strlit("get_claude_mcp_status");
    assert("get_claude_mcp_status"@.len() == 21);
    reveal_strlit("read_claude_mcp_config");
    assert("read_claude_mcp_config"@.len() == 22);
    reveal_strlit("upsert_claude_mcp_server");
    assert("upsert_claude_mcp_server"@.len() == 24);
    reveal_strlit("delete_claude_mcp_server");
    assert("delete_claude_mcp_server"@.len() == 24);
    reveal_strlit("validate_mcp_command");
    assert("validate_mcp_command"@.len() == 20);
    reveal_strlit("get_mcp_config");
    assert("get_mcp_config"@.len() == 14);
    reveal_strlit("upsert_mcp_server_in_config");
    assert("upsert_mcp_server_in_config"@.len() == 27);
    reveal_strlit("delete_mcp_server_in_config");
    assert("delete_mcp_server_in_config"@.len() == 27);
    reveal_strlit("set_mcp_enabled");
    assert("set_mcp_enabled"@.len() == 15);
    reveal_strlit("get_mcp_servers");
    assert("get_mcp_servers"@.len() == 15);
    reveal_strlit("upsert_mcp_server");
    assert("upsert_mcp_server"@.len() == 17);
    reveal_strlit("delete_mcp_server");
    assert("delete_mcp_server"@.len() == 17);
    reveal_strlit("toggle_mcp_app");
    assert("toggle_mcp_app"@.len() == 14);
    reveal_strlit("import_mcp_from_apps");
    assert("import_mcp_from_apps"@.len() == 20);
    reveal_strlit("get_prompts");
    assert("get_prompts"@.len() == 11);
    reveal_strlit("upsert_prompt");
    assert("upsert_prompt"@.len() == 13);
    reveal_strlit("delete_prompt");
    assert("delete_prompt"@.len() == 13);
    reveal_strlit("enable_prompt");
    assert("enable_prompt"@.len() == 13);
    reveal_strlit("import_prompt_from_file");
    assert("import_prompt_from_file"@.len() == 23);
    reveal_strlit("get_current_prompt_file_content");
    assert("get_current_prompt_file_content"@.len() == 31);
    reveal_strlit("fetch_models_for_config");
    assert("fetch_models_for_config"@.len() == 23);
    reveal_strlit("get_subscription_quota");
    assert("get_subscription_quota"@.len() == 22);
    reveal_strlit("get_codex_oauth_quota");
    assert("get_codex_oauth_quota"@.len() == 21);
    reveal_strlit("get_codex_oauth_models");
    assert("get_codex_oauth_models"@.len() == 22);
    reveal_strlit("get_coding_plan_quota");
    assert("get_coding_plan_quota"@.len() == 21);
    reveal_strlit("get_balance");
    assert("get_balance"@.len() == 11);
    reveal_strlit("start_proxy_server");
    assert("start_proxy_server"@.len() == 18);
    reveal_strlit("stop_proxy_server");
    assert("stop_proxy_server"@.len() == 17);
    reveal_strlit("stop_proxy_with_restore");
    assert("stop_proxy_with_restore"@.len() == 23);
    reveal_strlit("get_proxy_takeover_status");
    assert("get_proxy_takeover_status"@.len() == 25);
    reveal_strlit("set_proxy_takeover_for_app");
    assert("set_proxy_takeover_for_app"@.len() == 26);
    reveal_strlit("get_proxy_status");
    assert("get_proxy_status"@.len() == 16);
    reveal_strlit("get_proxy_config");
    assert("get_proxy_config"@.len() == 16);
    reveal_strlit("update_proxy_config");
    assert("update_proxy_config"@.len() == 19);
    reveal_strlit("get_global_proxy_config");
    assert("get_global_proxy_config"@.len() == 23);
    reveal_strlit("update_global_proxy_config");
    assert("update_global_proxy_config"@.len() == 26);
    reveal_strlit("get_proxy_config_for_app");
    assert("get_proxy_config_for_app"@.len() == 24);
    reveal_strlit("update_proxy_config_for_app");
    assert("update_proxy_config_for_app"@.len() == 27);
    reveal_strlit("get_default_cost_multiplier");
    assert("get_default_cost_multiplier"@.len() == 27);
    reveal_strlit("set_default_cost_multiplier");
    assert("set_default_cost_multiplier"@.len() == 27);
    reveal_strlit("get_pricing_model_source");
    assert("get_pricing_model_source"@.len() == 24);
    reveal_strlit("set_pricing_model_source");
    assert("set_pricing_model_source"@.len() == 24);
    reveal_strlit("is_proxy_running");
    assert("is_proxy_running"@.len() == 16);
    reveal_strlit("is_live_takeover_active");
    assert("is_live_takeover_active"@.len() == 23);
    reveal_strlit("switch_proxy_provider");
    assert("switch_proxy_provider"@.len() == 21);
    reveal_strlit("get_provider_health");
    assert("get_provider_health"@.len() == 19);
    reveal_strlit("reset_circuit_breaker");
    assert("reset_circuit_breaker"@.len() == 21);
    reveal_strlit("get_circuit_breaker_config");
    assert("get_circuit_breaker_config"@.len() == 26);
    reveal_strlit("update_circuit_breaker_config");
    assert("update_circuit_breaker_config"@.len() == 29);
    reveal_strlit("get_circuit_breaker_stats");
    assert("get_circuit_breaker_stats"@.len() == 25);
    reveal_strlit("get_failover_queue");
    assert("get_failover_queue"@.len() == 18);
    reveal_strlit("get_available_providers_for_failover");
    assert("get_available_providers_for_failover"@.len() == 36);
    reveal_strlit("add_to_failover_queue");
    assert("add_to_failover_queue"@.len() == 21);
    reveal_strlit("remove_from_failover_queue");
    assert("remove_from_failover_queue"@.len() == 26);
    reveal_strlit("get_auto_failover_enabled");
    assert("get_auto_failover_enabled"@.len() == 25);
    reveal_strlit("set_auto_failover_enabled");
    assert("set_auto_failover_enabled"@.len() == 25);
    reveal_strlit("get_usage_summary");
    assert("get_usage_summary"@.len() == 17);
    reveal_strlit("get_usage_summary_by_app");
    assert("get_usage_summary_by_app"@.len() == 24);
    reveal_strlit("get_usage_trends");
    assert("get_usage_trends"@.len() == 16);
    reveal_strlit("get_provider_stats");
    assert("get_provider_stats"@.len() == 18);
    reveal_strlit("get_model_stats");
    assert("get_model_stats"@.len() == 15);
    reveal_strlit("get_request_logs");
    assert("get_request_logs"@.len() == 16);
    reveal_strlit("get_request_detail");
    assert("get_request_detail"@.len() == 18);
    reveal_strlit("get_model_pricing");
    assert("get_model_pricing"@.len() == 17);
    reveal_strlit("update_model_pricing");
    assert("update_model_pricing"@.len() == 20);
    reveal_strlit("delete_model_pricing");
    assert("delete_model_pricing"@.len() == 20);
    reveal_strlit("check_provider_limits");
    assert("check_provider_limits"@.len() == 21);
    reveal_strlit("sync_session_usage");
    assert("sync_session_usage"@.len() == 18);
    reveal_strlit("get_usage_data_sources");
    assert("get_usage_data_sources"@.len() == 22);
    reveal_strlit("stream_check_provider");
    assert("stream_check_provider"@.len() == 21);
    reveal_strlit("stream_check_all_providers");
    assert("stream_check_all_providers"@.len() == 26);
    reveal_strlit("get_stream_check_config");
    assert("get_stream_check_config"@.len() == 23);
    reveal_strlit("save_stream_check_config");
    assert("save_stream_check_config"@.len() == 24);
    reveal_strlit("list_sessions");
    assert("list_sessions"@.len() == 13);
    reveal_strlit("get_session_messages");
    assert("get_session_messages"@.len() == 20);
    reveal_strlit("delete_session");
    assert("delete_session"@.len() == 14);
    reveal_strlit("delete_sessions");
    assert("delete_sessions"@.len() == 15);
    reveal_strlit("launch_session_terminal");
    assert("launch_session_terminal"@.len() == 23);
    reveal_strlit("import_openclaw_providers_from_live");
    assert("import_openclaw_providers_from_live"@.len() == 35);
    reveal_strlit("get_openclaw_live_provider_ids");
    assert("get_openclaw_live_provider_ids"@.len() == 30);
    reveal_strlit("get_openclaw_live_provider");
    assert("get_openclaw_live_provider"@.len() == 26);
    reveal_strlit("scan_openclaw_config_health");
    assert("scan_openclaw_config_health"@.len() == 27);
    reveal_strlit("get_openclaw_default_model");
    assert("get_openclaw_default_model"@.len() == 26);
    reveal_strlit("set_openclaw_default_model");
    assert("set_openclaw_default_model"@.len() == 26);
    reveal_strlit("get_openclaw_model_catalog");
    assert("get_openclaw_model_catalog"@.len() == 26);
    reveal_strlit("set_openclaw_model_catalog");
    assert("set_openclaw_model_catalog"@.len() == 26);
    reveal_strlit("get_openclaw_agents_defaults");
    assert("get_openclaw_agents_defaults"@.len() == 28);
    reveal_strlit("set_openclaw_agents_defaults");
    assert("set_openclaw_agents_defaults"@.len() == 28);
    reveal_strlit("get_openclaw_env");
    assert("get_openclaw_env"@.len() == 16);
    reveal_strlit("set_openclaw_env");
    assert("set_openclaw_env"@.len() == 16);
    reveal_strlit("get_openclaw_tools");
    assert("get_openclaw_tools"@.len() == 18);
    reveal_strlit("set_openclaw_tools");
    assert("set_openclaw_tools"@.len() == 18);
    reveal_strlit("import_hermes_providers_from_live");
    assert("import_hermes_providers_from_live"@.len() == 33);
    reveal_strlit("get_hermes_live_provider_ids");
    assert("get_hermes_live_provider_ids"@.len() == 28);
    reveal_strlit("get_hermes_live_provider");
    assert("get_hermes_live_provider"@.len() == 24);
    reveal_strlit("get_hermes_model_config");
    assert("get_hermes_model_config"@.len() == 23);
    reveal_strlit("open_hermes_web_ui");
    assert("open_hermes_web_ui"@.len() == 18);
    reveal_strlit("launch_hermes_dashboard");
    assert("launch_hermes_dashboard"@.len() == 23);
    reveal_strlit("get_hermes_memory");
    assert("get_hermes_memory"@.len() == 17);
    reveal_strlit("set_hermes_memory");
    assert("set_hermes_memory"@.len() == 17);
    reveal_strlit("get_hermes_memory_limits");
    assert("get_hermes_memory_limits"@.len() == 24);
    reveal_strlit("set_hermes_memory_enabled");
    assert("set_hermes_memory_enabled"@.len() == 25);
    assert("import_openclaw_providers_from_live"@[12] != "import_opencode_providers_from_live"@[12]);
    assert("get_openclaw_live_provider_ids"@[9] != "get_opencode_live_provider_ids"@[9]);
    assert("get_openclaw_live_provider"@[0] != "apply_claude_plugin_config"@[0]);
    assert("get_openclaw_live_provider"@[0] != "set_proxy_takeover_for_app"@[0]);
    assert("get_openclaw_live_provider"@[0] != "update_global_proxy_config"@[0]);
    assert("get_openclaw_live_provider"@[4] != "get_circuit_breaker_config"@[4]);
    assert("get_openclaw_live_provider"@[0] != "remove_from_failover_queue"@[0]);
    assert("get_openclaw_live_provider"@[0] != "stream_check_all_providers"@[0]);
    assert("scan_openclaw_config_health"@[0] != "read_live_provider_settings"@[0]);
    assert("scan_openclaw_config_health"@[0] != "update_providers_sort_order"@[0]);
    assert("scan_openclaw_config_health"@[0] != "get_claude_code_config_path"@[0]);
    assert("scan_openclaw_config_health"@[0] != "get_skills_migration_result"@[0]);
    assert("scan_openclaw_config_health"@[0] != "get_app_config_dir_override"@[0]);
    assert("scan_openclaw_config_health"@[1] != "set_app_config_dir_override"@[1]);
    assert("scan_openclaw_config_health"@[0] != "upsert_mcp_server_in_config"@[0]);
    assert("scan_openclaw_config_health"@[0] != "delete_mcp_server_in_config"@[0]);
    assert("scan_openclaw_config_health"@[0] != "update_proxy_config_for_app"@[0]);
    assert("scan_openclaw_config_health"@[0] != "get_default_cost_multiplier"@[0]);
    assert("scan_openclaw_config_health"@[1] != "set_default_cost_multiplier"@[1]);
    assert("get_openclaw_default_model"@[0] != "apply_claude_plugin_config"@[0]);
    assert("get_openclaw_default_model"@[0] != "set_proxy_takeover_for_app"@[0]);
    assert("get_openclaw_default_model"@[0] != "update_global_proxy_config"@[0]);
    assert("get_openclaw_default_model"@[4] != "get_circuit_breaker_config"@[4]);
    assert("get_openclaw_default_model"@[0] != "remove_from_failover_queue"@[0]);
    assert("get_openclaw_default_model"@[0] != "stream_check_all_providers"@[0]);
    assert("get_openclaw_default_model"@[13] != "get_openclaw_live_provider"@[13]);
    assert("set_openclaw_default_model"@[0] != "apply_claude_plugin_config"@[0]);
    assert("set_openclaw_default_model"@[4] != "set_proxy_takeover_for_app"@[4]);
    assert("set_openclaw_default_model"@[0] != "update_global_proxy_config"@[0]);
    assert("set_openclaw_default_model"@[0] != "get_circuit_breaker_config"@[0]);
    assert("set_openclaw_default_model"@[0] != "remove_from_failover_queue"@[0]);
    assert("set_openclaw_default_model"@[1] != "stream_check_all_providers"@[1]);
    assert("set_openclaw_default_model"@[0] != "get_openclaw_live_provider"@[0]);
    assert("set_openclaw_default_model"@[0] != "get_openclaw_default_model"@[0]);
    assert("get_openclaw_model_catalog"@[0] != "apply_claude_plugin_config"@[0]);
    assert("get_openclaw_model_catalog"@[0] != "set_proxy_takeover_for_app"@[0]);
    assert("get_openclaw_model_catalog"@[0] != "update_global_proxy_config"@[0]);
    assert("get_openclaw_model_catalog"@[4] != "get_circuit_breaker_config"@[4]);
    assert("get_openclaw_model_catalog"@[0] != "remove_from_failover_queue"@[0]);
    assert("get_openclaw_model_catalog"@[0] != "stream_check_all_providers"@[0]);
    assert("get_openclaw_model_catalog"@[13] != "get_openclaw_live_provider"@[13]);
    assert("get_openclaw_model_catalog"@[13] != "get_openclaw_default_model"@[13]);
    assert("get_openclaw_model_catalog"@[0] != "set_openclaw_default_model"@[0]);
    assert("set_openclaw_model_catalog"@[0] != "apply_claude_plugin_config"@[0]);
    assert("set_openclaw_model_catalog"@[4] != "set_proxy_takeover_for_app"@[4]);
    assert("set_openclaw_model_catalog"@[0] != "update_global_proxy_config"@[0]);
    assert("set_openclaw_model_catalog"@[0] != "get_circuit_breaker_config"@[0]);
    assert("set_openclaw_model_catalog"@[0] != "remove_from_failover_queue"@[0]);
    assert("set_openclaw_model_catalog"@[1] != "stream_check_all_providers"@[1]);
    assert("set_openclaw_model_catalog"@[0] != "get_openclaw_live_provider"@[0]);
    assert("set_openclaw_model_catalog"@[0] != "get_openclaw_default_model"@[0]);
    assert("set_openclaw_model_catalog"@[13] != "set_openclaw_default_model"@[13]);
    assert("set_openclaw_model_catalog"@[0] != "get_openclaw_model_catalog"@[0]);
    assert("get_openclaw_agents_defaults"@[4] != "get_copilot_optimizer_config"@[4]);
    assert("get_openclaw_agents_defaults"@[0] != "set_copilot_optimizer_config"@[0]);
    assert("get_openclaw_agents_defaults"@[0] != "apply_claude_onboarding_skip"@[0]);
    assert("get_openclaw_agents_defaults"@[0] != "clear_claude_onboarding_skip"@[0]);
    assert("set_openclaw_agents_defaults"@[0] != "get_copilot_optimizer_config"@[0]);
    assert("set_openclaw_agents_defaults"@[4] != "set_copilot_optimizer_config"@[4]);
    assert("set_openclaw_agents_defaults"@[0] != "apply_claude_onboarding_skip"@[0]);
    assert("set_openclaw_agents_defaults"@[0] != "clear_claude_onboarding_skip"@[0]);
    assert("set_openclaw_agents_defaults"@[0] != "get_openclaw_agents_defaults"@[0]);
    assert("get_openclaw_env"@[0] != "is_portable_mode"@[0]);
    assert("get_openclaw_env"@[0] != "set_window_theme"@[0]);
    assert("get_openclaw_env"@[4] != "get_proxy_status"@[4]);
    assert("get_openclaw_env"@[4] != "get_proxy_config"@[4]);
    assert("get_openclaw_env"@[0] != "is_proxy_running"@[0]);
    assert("get_openclaw_env"@[4] != "get_usage_trends"@[4]);
    assert("get_openclaw_env"@[4] != "get_request_logs"@[4]);
    assert("set_openclaw_env"@[0] != "is_portable_mode"@[0]);
    assert("set_openclaw_env"@[4] != "set_window_theme"@[4]);
    assert("set_openclaw_env"@[0] != "get_proxy_status"@[0]);
    assert("set_openclaw_env"@[0] != "get_proxy_config"@[0]);
    assert("set_openclaw_env"@[0] != "is_proxy_running"@[0]);
    assert("set_openclaw_env"@[0] != "get_usage_trends"@[0]);
    assert("set_openclaw_env"@[0] != "get_request_logs"@[0]);
    assert("set_openclaw_env"@[0] != "get_openclaw_env"@[0]);
    assert("get_openclaw_tools"@[0] != "queryProviderUsage"@[0]);
    assert("get_openclaw_tools"@[0] != "test_api_endpoints"@[0]);
    assert("get_openclaw_tools"@[0] != "open_config_folder"@[0]);
    assert("get_openclaw_tools"@[0] != "start_proxy_server"@[0]);
    assert("get_openclaw_tools"@[4] != "get_failover_queue"@[4]);
    assert("get_openclaw_tools"@[4] != "get_provider_stats"@[4]);
    assert("get_openclaw_tools"@[4] != "get_request_detail"@[4]);
    assert("get_openclaw_tools"@[0] != "sync_session_usage"@[0]);
    assert("set_openclaw_tools"@[0] != "queryProviderUsage"@[0]);
    assert("set_openclaw_tools"@[0] != "test_api_endpoints"@[0]);
    assert("set_openclaw_tools"@[0] != "open_config_folder"@[0]);
    assert("set_openclaw_tools"@[1] != "start_proxy_server"@[1]);
    assert("set_openclaw_tools"@[0] != "get_failover_queue"@[0]);
    assert("set_openclaw_tools"@[0] != "get_provider_stats"@[0]);
    assert("set_openclaw_tools"@[0] != "get_request_detail"@[0]);
    assert("set_openclaw_tools"@[1] != "sync_session_usage"@[1]);
    assert("set_openclaw_tools"@[0] != "get_openclaw_tools"@[0]);
    assert("import_hermes_providers_from_live"@[0] != "get_claude_desktop_default_routes"@[0]);
    assert("get_hermes_live_provider_ids"@[4] != "get_copilot_optimizer_config"@[4]);
    assert("get_hermes_live_provider_ids"@[0] != "set_copilot_optimizer_config"@[0]);
    assert("get_hermes_live_provider_ids"@[0] != "apply_claude_onboarding_skip"@[0]);
    assert("get_hermes_live_provider_ids"@[0] != "clear_claude_onboarding_skip"@[0]);
    assert("get_hermes_live_provider_ids"@[4] != "get_openclaw_agents_defaults"@[4]);
    assert("get_hermes_live_provider_ids"@[0] != "set_openclaw_agents_defaults"@[0]);
    assert("get_hermes_live_provider"@[4] != "get_claude_config_status"@[4]);
    assert("get_hermes_live_provider"@[4] != "get_claude_plugin_status"@[4]);
    assert("get_hermes_live_provider"@[0] != "is_claude_plugin_applied"@[0]);
    assert("get_hermes_live_provider"@[0] != "upsert_claude_mcp_server"@[0]);
    assert("get_hermes_live_provider"@[0] != "delete_claude_mcp_server"@[0]);
    assert("get_hermes_live_provider"@[4] != "get_proxy_config_for_app"@[4]);
    assert("get_hermes_live_provider"@[4] != "get_pricing_model_source"@[4]);
    assert("get_hermes_live_provider"@[0] != "set_pricing_model_source"@[0]);
    assert("get_hermes_live_provider"@[4] != "get_usage_summary_by_app"@[4]);
    assert("get_hermes_live_provider"@[0] != "save_stream_check_config"@[0]);
    assert("get_hermes_model_config"@[4] != "get_universal_providers"@[4]);
    assert("get_hermes_model_config"@[0] != "sync_universal_provider"@[0]);
    assert("get_hermes_model_config"@[0] != "import_prompt_from_file"@[0]);
    assert("get_hermes_model_config"@[0] != "fetch_models_for_config"@[0]);
    assert("get_hermes_model_config"@[0] != "stop_proxy_with_restore"@[0]);
    assert("get_hermes_model_config"@[4] != "get_global_proxy_config"@[4]);
    assert("get_hermes_model_config"@[0] != "is_live_takeover_active"@[0]);
    assert("get_hermes_model_config"@[4] != "get_stream_check_config"@[4]);
    assert("get_hermes_model_config"@[0] != "launch_session_terminal"@[0]);
    assert("open_hermes_web_ui"@[0] != "queryProviderUsage"@[0]);
    assert("open_hermes_web_ui"@[0] != "test_api_endpoints"@[0]);
    assert("open_hermes_web_ui"@[5] != "open_config_folder"@[5]);
    assert("open_hermes_web_ui"@[0] != "start_proxy_server"@[0]);
    assert("open_hermes_web_ui"@[0] != "get_failover_queue"@[0]);
    assert("open_hermes_web_ui"@[0] != "get_provider_stats"@[0]);
    assert("open_hermes_web_ui"@[0] != "get_request_detail"@[0]);
    assert("open_hermes_web_ui"@[0] != "sync_session_usage"@[0]);
    assert("open_hermes_web_ui"@[0] != "get_openclaw_tools"@[0]);
    assert("open_hermes_web_ui"@[0] != "set_openclaw_tools"@[0]);
    assert("launch_hermes_dashboard"@[0] != "get_universal_providers"@[0]);
    assert("launch_hermes_dashboard"@[0] != "sync_universal_provider"@[0]);
    assert("launch_hermes_dashboard"@[0] != "import_prompt_from_file"@[0]);
    assert("launch_hermes_dashboard"@[0] != "fetch_models_for_config"@[0]);
    assert("launch_hermes_dashboard"@[0] != "stop_proxy_with_restore"@[0]);
    assert("launch_hermes_dashboard"@[0] != "get_global_proxy_config"@[0]);
    assert("launch_hermes_dashboard"@[0] != "is_live_takeover_active"@[0]);
    assert("launch_hermes_dashboard"@[0] != "get_stream_check_config"@[0]);
    assert("launch_hermes_dashboard"@[7] != "launch_session_terminal"@[7]);
    assert("launch_hermes_dashboard"@[0] != "get_hermes_model_config"@[0]);
    assert("get_hermes_memory"@[4] != "get_config_status"@[4]);
    assert("get_hermes_memory"@[0] != "check_for_updates"@[0]);
    assert("get_hermes_memory"@[4] != "get_tool_versions"@[4]);
    assert("get_hermes_memory"@[0] != "upsert_mcp_server"@[0]);
    assert("get_hermes_memory"@[0] != "delete_mcp_server"@[0]);
    assert("get_hermes_memory"@[0] != "stop_proxy_server"@[0]);
    assert("get_hermes_memory"@[4] != "get_usage_summary"@[4]);
    assert("get_hermes_memory"@[4] != "get_model_pricing"@[4]);
    assert("set_hermes_memory"@[0] != "get_config_status"@[0]);
    assert("set_hermes_memory"@[0] != "check_for_updates"@[0]);
    assert("set_hermes_memory"@[0] != "get_tool_versions"@[0]);
    assert("set_hermes_memory"@[0] != "upsert_mcp_server"@[0]);
    assert("set_hermes_memory"@[0] != "delete_mcp_server"@[0]);
    assert("set_hermes_memory"@[1] != "stop_proxy_server"@[1]);
    assert("set_hermes_memory"@[0] != "get_usage_summary"@[0]);
    assert("set_hermes_memory"@[0] != "get_model_pricing"@[0]);
    assert("set_hermes_memory"@[0] != "get_hermes_memory"@[0]);
    assert("get_hermes_memory_limits"@[4] != "get_claude_config_status"@[4]);
    assert("get_hermes_memory_limits"@[4] != "get_claude_plugin_status"@[4]);
    assert("get_hermes_memory_limits"@[0] != "is_claude_plugin_applied"@[0]);
    assert("get_hermes_memory_limits"@[0] != "upsert_claude_mcp_server"@[0]);
    assert("get_hermes_memory_limits"@[0] != "delete_claude_mcp_server"@[0]);
    assert("get_hermes_memory_limits"@[4] != "get_proxy_config_for_app"@[4]);
    assert("get_hermes_memory_limits"@[4] != "get_pricing_model_source"@[4]);
    assert("get_hermes_memory_limits"@[0] != "set_pricing_model_source"@[0]);
    assert("get_hermes_memory_limits"@[4] != "get_usage_summary_by_app"@[4]);
    assert("get_hermes_memory_limits"@[0] != "save_stream_check_config"@[0]);
    assert("get_hermes_memory_limits"@[11] != "get_hermes_live_provider"@[11]);
    assert("set_hermes_memory_enabled"@[0] != "get_claude_desktop_status"@[0]);
    assert("set_hermes_memory_enabled"@[0] != "update_endpoint_last_used"@[0]);
    assert("set_hermes_memory_enabled"@[0] != "upsert_universal_provider"@[0]);
    assert("set_hermes_memory_enabled"@[0] != "delete_universal_provider"@[0]);
    assert("set_hermes_memory_enabled"@[0] != "get_common_config_snippet"@[0]);
    assert("set_hermes_memory_enabled"@[4] != "set_common_config_snippet"@[4]);
    assert("set_hermes_memory_enabled"@[0] != "read_claude_plugin_config"@[0]);
    assert("set_hermes_memory_enabled"@[0] != "get_proxy_takeover_status"@[0]);
    assert("set_hermes_memory_enabled"@[0] != "get_circuit_breaker_stats"@[0]);
    assert("set_hermes_memory_enabled"@[0] != "get_auto_failover_enabled"@[0]);
    assert("set_hermes_memory_enabled"@[4] != "set_auto_failover_enabled"@[4]);
}

/// The commands for the global proxy, sign-in and Copilot read these members of the request, in this
/// order, each as its kind says.
pub proof fn account_commands_read_their_members()
    ensures
        command_params("get_global_proxy_url"@) == Some(Seq::<Param>::empty()),
        command_params("set_global_proxy_url"@) == Some(seq![Param { key: "url", kind: ParamKind::ReqStr }]),
        command_params("test_proxy_url"@) == Some(seq![Param { key: "url", kind: ParamKind::ReqStr }]),
        command_params("get_upstream_proxy_status"@) == Some(Seq::<Param>::empty()),
        command_params("scan_local_proxies"@) == Some(Seq::<Param>::empty()),
        command_params("auth_start_login"@) == Some(seq![Param { key: "authProvider", kind: ParamKind::ReqStr }, Param { key: "githubDomain", kind: ParamKind::OptStr }]),
        command_params("auth_poll_for_account"@) == Some(seq![Param { key: "authProvider", kind: ParamKind::ReqStr }, Param { key: "deviceCode", kind: ParamKind::ReqStr }, Param { key: "githubDomain", kind: ParamKind::OptStr }]),
        command_params("auth_list_accounts"@) == Some(seq![Param { key: "authProvider", kind: ParamKind::ReqStr }]),
        command_params("auth_get_status"@) == Some(seq![Param { key: "authProvider", kind: ParamKind::ReqStr }]),
        command_params("auth_remove_account"@) == Some(seq![Param { key: "authProvider", kind: ParamKind::ReqStr }, Param { key: "accountId", kind: ParamKind::ReqStr }]),
        command_params("auth_set_default_account"@) == Some(seq![Param { key: "authProvider", kind: ParamKind::ReqStr }, Param { key: "accountId", kind: ParamKind::ReqStr }]),
        command_params("auth_logout"@) == Some(seq![Param { key: "authProvider", kind: ParamKind::ReqStr }]),
        command_params("copilot_start_device_flow"@) == Some(seq![Param { key: "githubDomain", kind: ParamKind::OptStr }]),
        command_params("copilot_poll_for_auth"@) == Some(seq![Param { key: "deviceCode", kind: ParamKind::ReqStr }, Param { key: "githubDomain", kind: ParamKind::OptStr }]),
        command_params("copilot_poll_for_account"@) == Some(seq![Param { key: "deviceCode", kind: ParamKind::ReqStr }, Param { key: "githubDomain", kind: ParamKind::OptStr }]),
        command_params("copilot_list_accounts"@) == Some(Seq::<Param>::empty()),
        command_params("copilot_remove_account"@) == Some(seq![Param { key: "accountId", kind: ParamKind::ReqStr }]),
        command_params("copilot_set_default_account"@) == Some(seq![Param { key: "accountId", kind: ParamKind::ReqStr }]),
        command_params("copilot_get_auth_status"@) == Some(Seq::<Param>::empty()),
        command_params("copilot_is_authenticated"@) == Some(Seq::<Param>::empty()),
        command_params("copilot_logout"@) == Some(Seq::<Param>::empty()),
        command_params("copilot_get_token"@) == Some(Seq::<Param>::empty()),
        command_params("copilot_get_token_for_account"@) == Some(seq![Param { key: "accountId", kind: ParamKind::ReqStr }]),
        command_params("copilot_get_models"@) == Some(Seq::<Param>::empty()),
        command_params("copilot_get_models_for_account"@) == Some(seq![Param { key: "accountId", kind: ParamKind::ReqStr }]),
        command_params("copilot_get_usage"@) == Some(Seq::<Param>::empty()),
        command_params("copilot_get_usage_for_account"@) == Some(seq![Param { key: "accountId", kind: ParamKind::ReqStr }]),
{
    reveal_strlit("get_providers");
    assert("get_providers"@.len() == 13);
    reveal_strlit("get_current_provider");
    assert("get_current_provider"@.len() == 20);
    reveal_strlit("add_provider");
    assert("add_provider"@.len() == 12);
    reveal_strlit("update_provider");
    assert("update_provider"@.len() == 15);
    reveal_strlit("delete_provider");
    assert("delete_provider"@.len() == 15);
    reveal_strlit("remove_provider_from_live_config");
    assert("remove_provider_from_live_config"@.len() == 32);
    reveal_strlit("switch_provider");
    assert("switch_provider"@.len() == 15);
    reveal_strlit("import_default_config");
    assert("import_default_config"@.len() == 21);
    reveal_strlit("get_claude_desktop_status");
    assert("get_claude_desktop_status"@.len() == 25);
    reveal_strlit("get_claude_desktop_default_routes");
    assert("get_claude_desktop_default_routes"@.len() == 33);
    reveal_strlit("import_claude_desktop_providers_from_claude");
    assert("import_claude_desktop_providers_from_claude"@.len() == 43);
    reveal_strlit("queryProviderUsage");
    assert("queryProviderUsage"@.len() == 18);
    reveal_strlit("testUsageScript");
    assert("testUsageScript"@.len() == 15);
    reveal_strlit("read_live_provider_settings");
    assert("read_live_provider_settings"@.len() == 27);
    reveal_strlit("test_api_endpoints");
    assert("test_api_endpoints"@.len() == 18);
    reveal_strlit("get_custom_endpoints");
    assert("get_custom_endpoints"@.len() == 20);
    reveal_strlit("add_custom_endpoint");
    assert("add_custom_endpoint"@.len() == 19);
    reveal_strlit("remove_custom_endpoint");
    assert("remove_custom_endpoint"@.len() == 22);
    reveal_strlit("update_endpoint_last_used");
    assert("update_endpoint_last_used"@.len() == 25);
    reveal_strlit("update_providers_sort_order");
    assert("update_providers_sort_order"@.len() == 27);
    reveal_strlit("get_universal_providers");
    assert("get_universal_providers"@.len() == 23);
    reveal_strlit("get_universal_provider");
    assert("get_universal_provider"@.len() == 22);
    reveal_strlit("upsert_universal_provider");
    assert("upsert_universal_provider"@.len() == 25);
    reveal_strlit("delete_universal_provider");
    assert("delete_universal_provider"@.len() == 25);
    reveal_strlit("sync_universal_provider");
    assert("sync_universal_provider"@.len() == 23);
    reveal_strlit("import_opencode_providers_from_live");
    assert("import_opencode_providers_from_live"@.len() == 35);
    reveal_strlit("get_opencode_live_provider_ids");
    assert("get_opencode_live_provider_ids"@.len() == 30);
    reveal_strlit("get_claude_config_status");
    assert("get_claude_config_status"@.len() == 24);
    reveal_strlit("get_config_status");
    assert("get_config_status"@.len() == 17);
    reveal_strlit("get_claude_code_config_path");
    assert("get_claude_code_config_path"@.len() == 27);
    reveal_strlit("get_config_dir");
    assert("get_config_dir"@.len() == 14);
    reveal_strlit("open_config_folder");
    assert("open_config_folder"@.len() == 18);
    reveal_strlit("pick_directory");
    assert("pick_directory"@.len() == 14);
    reveal_strlit("open_external");
    assert("open_external"@.len() == 13);
    reveal_strlit("get_init_error");
    assert("get_init_error"@.len() == 14);
    reveal_strlit("get_migration_result");
    assert("get_migration_result"@.len() == 20);
    reveal_strlit("get_skills_migration_result");
    assert("get_skills_migration_result"@.len() == 27);
    reveal_strlit("get_app_config_path");
    assert("get_app_config_path"@.len() == 19);
    reveal_strlit("open_app_config_folder");
    assert("open_app_config_folder"@.len() == 22);
    reveal_strlit("get_claude_common_config_snippet");
    assert("get_claude_common_config_snippet"@.len() == 32);
    reveal_strlit("set_claude_common_config_snippet");
    assert("set_claude_common_config_snippet"@.len() == 32);
    reveal_strlit("get_common_config_snippet");
    assert("get_common_config_snippet"@.len() == 25);
    reveal_strlit("set_common_config_snippet");
    assert("set_common_config_snippet"@.len() == 25);
    reveal_strlit("extract_common_config_snippet");
    assert("extract_common_config_snippet"@.len() == 29);
    reveal_strlit("copy_text_to_clipboard");
    assert("copy_text_to_clipboard"@.len() == 22);
    reveal_strlit("check_for_updates");
    assert("check_for_updates"@.len() == 17);
    reveal_strlit("is_portable_mode");
    assert("is_portable_mode"@.len() == 16);
    reveal_strlit("get_tool_versions");
    assert("get_tool_versions"@.len() == 17);
    reveal_strlit("open_provider_terminal");
    assert("open_provider_terminal"@.len() == 22);
    reveal_strlit("set_window_theme");
    assert("set_window_theme"@.len() == 16);
    reveal_strlit("get_settings");
    assert("get_settings"@.len() == 12);
    reveal_strlit("save_settings");
    assert("save_settings"@.len() == 13);
    reveal_strlit("restart_app");
    assert("restart_app"@.len() == 11);
    reveal_strlit("get_app_config_dir_override");
    assert("get_app_config_dir_override"@.len() == 27);
    reveal_strlit("set_app_config_dir_override");
    assert("set_app_config_dir_override"@.len() == 27);
    reveal_strlit("get_rectifier_config");
    assert("get_rectifier_config"@.len() == 20);
    reveal_strlit("set_rectifier_config");
    assert("set_rectifier_config"@.len() == 20);
    reveal_strlit("get_optimizer_config");
    assert("get_optimizer_config"@.len() == 20);
    reveal_strlit("set_optimizer_config");
    assert("set_optimizer_config"@.len() == 20);
    reveal_strlit("get_copilot_optimizer_config");
    assert("get_copilot_optimizer_config"@.len() == 28);
    reveal_strlit("set_copilot_optimizer_config");
    assert("set_copilot_optimizer_config"@.len() == 28);
    reveal_strlit("get_log_config");
    assert("get_log_config"@.len() == 14);
    reveal_strlit("set_log_config");
    assert("set_log_config"@.len() == 14);
    reveal_strlit("get_claude_plugin_status");
    assert("get_claude_plugin_status"@.len() == 24);
    reveal_strlit("read_claude_plugin_config");
    assert("read_claude_plugin_config"@.len() == 25);
    reveal_strlit("apply_claude_plugin_config");
    assert("apply_claude_plugin_config"@.len() == 26);
    reveal_strlit("is_claude_plugin_applied");
    assert("is_claude_plugin_applied"@.len() == 24);
    reveal_strlit("apply_claude_onboarding_skip");
    assert("apply_claude_onboarding_skip"@.len() == 28);
    reveal_strlit("clear_claude_onboarding_skip");
    assert("clear_claude_onboarding_skip"@.len() == 28);
    reveal_strlit("get_claude_mcp_status");
    assert("get_claude_mcp_status"@.len() == 21);
    reveal_strlit("read_claude_mcp_config");
    assert("read_claude_mcp_config"@.len() == 22);
    reveal_strlit("upsert_claude_mcp_server");
    assert("upsert_claude_mcp_server"@.len() == 24);
    reveal_strlit("delete_claude_mcp_server");
    assert("delete_claude_mcp_server"@.len() == 24);
    reveal_strlit("validate_mcp_command");
    assert("validate_mcp_command"@.len() == 20);
    reveal_strlit("get_mcp_config");
    assert("get_mcp_config"@.len() == 14);
    reveal_strlit("upsert_mcp_server_in_config");
    assert("upsert_mcp_server_in_config"@.len() == 27);
    reveal_strlit("delete_mcp_server_in_config");
    assert("delete_mcp_server_in_config"@.len() == 27);
    reveal_strlit("set_mcp_enabled");
    assert("set_mcp_enabled"@.len() == 15);
    reveal_strlit("get_mcp_servers");
    assert("get_mcp_servers"@.len() == 15);
    reveal_strlit("upsert_mcp_server");
    assert("upsert_mcp_server"@.len() == 17);
    reveal_strlit("delete_mcp_server");
    assert("delete_mcp_server"@.len() == 17);
    reveal_strlit("toggle_mcp_app");
    assert("toggle_mcp_app"@.len() == 14);
    reveal_strlit("import_mcp_from_apps");
    assert("import_mcp_from_apps"@.len() == 20);
    reveal_strlit("get_prompts");
    assert("get_prompts"@.len() == 11);
    reveal_strlit("upsert_prompt");
    assert("upsert_prompt"@.len() == 13);
    reveal_strlit("delete_prompt");
    assert("delete_prompt"@.len() == 13);
    reveal_strlit("enable_prompt");
    assert("enable_prompt"@.len() == 13);
    reveal_strlit("import_prompt_from_file");
    assert("import_prompt_from_file"@.len() == 23);
    reveal_strlit("get_current_prompt_file_content");
    assert("get_current_prompt_file_content"@.len() == 31);
    reveal_strlit("fetch_models_for_config");
    assert("fetch_models_for_config"@.len() == 23);
    reveal_strlit("get_subscription_quota");
    assert("get_subscription_quota"@.len() == 22);
    reveal_strlit("get_codex_oauth_quota");
    assert("get_codex_oauth_quota"@.len() == 21);
    reveal_strlit("get_codex_oauth_models");
    assert("get_codex_oauth_models"@.len() == 22);
    reveal_strlit("get_coding_plan_quota");
    assert("get_coding_plan_quota"@.len() == 21);
    reveal_strlit("get_balance");
    assert("get_balance"@.len() == 11);
    reveal_strlit("start_proxy_server");
    assert("start_proxy_server"@.len() == 18);
    reveal_strlit("stop_proxy_server");
    assert("stop_proxy_server"@.len() == 17);
    reveal_strlit("stop_proxy_with_restore");
    assert("stop_proxy_with_restore"@.len() == 23);
    reveal_strlit("get_proxy_takeover_status");
    assert("get_proxy_takeover_status"@.len() == 25);
    reveal_strlit("set_proxy_takeover_for_app");
    assert("set_proxy_takeover_for_app"@.len() == 26);
    reveal_strlit("get_proxy_status");
    assert("get_proxy_status"@.len() == 16);
    reveal_strlit("get_proxy_config");
    assert("get_proxy_config"@.len() == 16);
    reveal_strlit("update_proxy_config");
    assert("update_proxy_config"@.len() == 19);
    reveal_strlit("get_global_proxy_config");
    assert("get_global_proxy_config"@.len() == 23);
    reveal_strlit("update_global_proxy_config");
    assert("update_global_proxy_config"@.len() == 26);
    reveal_strlit("get_proxy_config_for_app");
    assert("get_proxy_config_for_app"@.len() == 24);
    reveal_strlit("update_proxy_config_for_app");
    assert("update_proxy_config_for_app"@.len() == 27);
    reveal_strlit("get_default_cost_multiplier");
    assert("get_default_cost_multiplier"@.len() == 27);
    reveal_strlit("set_default_cost_multiplier");
    assert("set_default_cost_multiplier"@.len() == 27);
    reveal_strlit("get_pricing_model_source");
    assert("get_pricing_model_source"@.len() == 24);
    reveal_strlit("set_pricing_model_source");
    assert("set_pricing_model_source"@.len() == 24);
    reveal_strlit("is_proxy_running");
    assert("is_proxy_running"@.len() == 16);
    reveal_strlit("is_live_takeover_active");
    assert("is_live_takeover_active"@.len() == 23);
    reveal_strlit("switch_proxy_provider");
    assert("switch_proxy_provider"@.len() == 21);
    reveal_strlit("get_provider_health");
    assert("get_provider_health"@.len() == 19);
    reveal_strlit("reset_circuit_breaker");
    assert("reset_circuit_breaker"@.len() == 21);
    reveal_strlit("get_circuit_breaker_config");
    assert("get_circuit_breaker_config"@.len() == 26);
    reveal_strlit("update_circuit_breaker_config");
    assert("update_circuit_breaker_config"@.len() == 29);
    reveal_strlit("get_circuit_breaker_stats");
    assert("get_circuit_breaker_stats"@.len() == 25);
    reveal_strlit("get_failover_queue");
    assert("get_failover_queue"@.len() == 18);
    reveal_strlit("get_available_providers_for_failover");
    assert("get_available_providers_for_failover"@.len() == 36);
    reveal_strlit("add_to_failover_queue");
    assert("add_to_failover_queue"@.len() == 21);
    reveal_strlit("remove_from_failover_queue");
    assert("remove_from_failover_queue"@.len() == 26);
    reveal_strlit("get_auto_failover_enabled");
    assert("get_auto_failover_enabled"@.len() == 25);
    reveal_strlit("set_auto_failover_enabled");
    assert("set_auto_failover_enabled"@.len() == 25);
    reveal_strlit("get_usage_summary");
    assert("get_usage_summary"@.len() == 17);
    reveal_strlit("get_usage_summary_by_app");
    assert("get_usage_summary_by_app"@.len() == 24);
    reveal_strlit("get_usage_trends");
    assert("get_usage_trends"@.len() == 16);
    reveal_strlit("get_provider_stats");
    assert("get_provider_stats"@.len() == 18);
    reveal_strlit("get_model_stats");
    assert("get_model_stats"@.len() == 15);
    reveal_strlit("get_request_logs");
    assert("get_request_logs"@.len() == 16);
    reveal_strlit("get_request_detail");
    assert("get_request_detail"@.len() == 18);
    reveal_strlit("get_model_pricing");
    assert("get_model_pricing"@.len() == 17);
    reveal_strlit("update_model_pricing");
    assert("update_model_pricing"@.len() == 20);
    reveal_strlit("delete_model_pricing");
    assert("delete_model_pricing"@.len() == 20);
    reveal_strlit("check_provider_limits");
    assert("check_provider_limits"@.len() == 21);
    reveal_strlit("sync_session_usage");
    assert("sync_session_usage"@.len() == 18);
    reveal_strlit("get_usage_data_sources");
    assert("get_usage_data_sources"@.len() == 22);
    reveal_strlit("stream_check_provider");
    assert("stream_check_provider"@.len() == 21);
    reveal_strlit("stream_check_all_providers");
    assert("stream_check_all_providers"@.len() == 26);
    reveal_strlit("get_stream_check_config");
    assert("get_stream_check_config"@.len() == 23);
    reveal_strlit("save_stream_check_config");
    assert("save_stream_check_config"@.len() == 24);
    reveal_strlit("list_sessions");
    assert("list_sessions"@.len() == 13);
    reveal_strlit("get_session_messages");
    assert("get_session_messages"@.len() == 20);
    reveal_strlit("delete_session");
    assert("delete_session"@.len() == 14);
    reveal_strlit("delete_sessions");
    assert("delete_sessions"@.len() == 15);
    reveal_strlit("launch_session_terminal");
    assert("launch_session_terminal"@.len() == 23);
    reveal_strlit("import_openclaw_providers_from_live");
    assert("import_openclaw_providers_from_live"@.len() == 35);
    reveal_strlit("get_openclaw_live_provider_ids");
    assert("get_openclaw_live_provider_ids"@.len() == 30);
    reveal_strlit("get_openclaw_live_provider");
    assert("get_openclaw_live_provider"@.len() == 26);
    reveal_strlit("scan_openclaw_config_health");
    assert("scan_openclaw_config_health"@.len() == 27);
    reveal_strlit("get_openclaw_default_model");
    assert("get_openclaw_default_model"@.len() == 26);
    reveal_strlit("set_openclaw_default_model");
    assert("set_openclaw_default_model"@.len() == 26);
    reveal_strlit("get_openclaw_model_catalog");
    assert("get_openclaw_model_catalog"@.len() == 26);
    reveal_strlit("set_openclaw_model_catalog");
    assert("set_openclaw_model_catalog"@.len() == 26);
    reveal_strlit("get_openclaw_agents_defaults");
    assert("get_openclaw_agents_defaults"@.len() == 28);
    reveal_strlit("set_openclaw_agents_defaults");
    assert("set_openclaw_agents_defaults"@.len() == 28);
    reveal_strlit("get_openclaw_env");
    assert("get_openclaw_env"@.len() == 16);
    reveal_strlit("set_openclaw_env");
    assert("set_openclaw_env"@.len() == 16);
    reveal_strlit("get_openclaw_tools");
    assert("get_openclaw_tools"@.len() == 18);
    reveal_strlit("set_openclaw_tools");
    assert("set_openclaw_tools"@.len() == 18);
    reveal_strlit("import_hermes_providers_from_live");
    assert("import_hermes_providers_from_live"@.len() == 33);
    reveal_strlit("get_hermes_live_provider_ids");
    assert("get_hermes_live_provider_ids"@.len() == 28);
    reveal_strlit("get_hermes_live_provider");
    assert("get_hermes_live_provider"@.len() == 24);
    reveal_strlit("get_hermes_model_config");
    assert("get_hermes_model_config"@.len() == 23);
    reveal_strlit("open_hermes_web_ui");
    assert("open_hermes_web_ui"@.len() == 18);
    reveal_strlit("launch_hermes_dashboard");
    assert("launch_hermes_dashboard"@.len() == 23);
    reveal_strlit("get_hermes_memory");
    assert("get_hermes_memory"@.len() == 17);
    reveal_strlit("set_hermes_memory");
    assert("set_hermes_memory"@.len() == 17);
    reveal_strlit("get_hermes_memory_limits");
    assert("get_hermes_memory_limits"@.len() == 24);
    reveal_strlit("set_hermes_memory_enabled");
    assert("set_hermes_memory_enabled"@.len() == 25);
    reveal_strlit("get_global_proxy_url");
    assert("get_global_proxy_url"@.len() == 20);
    reveal_strlit("set_global_proxy_url");
    assert("set_global_proxy_url"@.len() == 20);
    reveal_strlit("test_proxy_url");
    assert("test_proxy_url"@.len() == 14);
    reveal_strlit("get_upstream_proxy_status");
    assert("get_upstream_proxy_status"@.len() == 25);
    reveal_strlit("scan_local_proxies");
    assert("scan_local_proxies"@.len() == 18);
    reveal_strlit("auth_start_login");
    assert("auth_start_login"@.len() == 16);
    reveal_strlit("auth_poll_for_account");
    assert("auth_poll_for_account"@.len() == 21);
    reveal_strlit("auth_list_accounts");
    assert("auth_list_accounts"@.len() == 18);
    reveal_strlit("auth_get_status");
    assert("auth_get_status"@.len() == 15);
    reveal_strlit("auth_remove_account");
    assert("auth_remove_account"@.len() == 19);
    reveal_strlit("auth_set_default_account");
    assert("auth_set_default_account"@.len() == 24);
    reveal_strlit("auth_logout");
    assert("auth_logout"@.len() == 11);
    reveal_strlit("copilot_start_device_flow");
    assert("copilot_start_device_flow"@.len() == 25);
    reveal_strlit("copilot_poll_for_auth");
    assert("copilot_poll_for_auth"@.len() == 21);
    reveal_strlit("copilot_poll_for_account");
    assert("copilot_poll_for_account"@.len() == 24);
    reveal_strlit("copilot_list_accounts");
    assert("copilot_list_accounts"@.len() == 21);
    reveal_strlit("copilot_remove_account");
    assert("copilot_remove_account"@.len() == 22);
    reveal_strlit("copilot_set_default_account");
    assert("copilot_set_default_account"@.len() == 27);
    reveal_strlit("copilot_get_auth_status");
    assert("copilot_get_auth_status"@.len() == 23);
    reveal_strlit("copilot_is_authenticated");
    assert("copilot_is_authenticated"@.len() == 24);
    reveal_strlit("copilot_logout");
    assert("copilot_logout"@.len() == 14);
    reveal_strlit("copilot_get_token");
    assert("copilot_get_token"@.len() == 17);
    reveal_strlit("copilot_get_token_for_account");
    assert("copilot_get_token_for_account"@.len() == 29);
    reveal_strlit("copilot_get_models");
    assert("copilot_get_models"@.len() == 18);
    reveal_strlit("copilot_get_models_for_account");
    assert("copilot_get_models_for_account"@.len() == 30);
    reveal_strlit("copilot_get_usage");
    assert("copilot_get_usage"@.len() == 17);
    reveal_strlit("copilot_get_usage_for_account");
    assert("copilot_get_usage_for_account"@.len() == 29);
    assert("get_global_proxy_url"@[4] != "get_current_provider"@[4]);
    assert("get_global_proxy_url"@[4] != "get_custom_endpoints"@[4]);
    assert("get_global_proxy_url"@[4] != "get_migration_result"@[4]);
    assert("get_global_proxy_url"@[4] != "get_rectifier_config"@[4]);
    assert("get_global_proxy_url"@[0] != "set_rectifier_config"@[0]);
    assert("get_global_proxy_url"@[4] != "get_optimizer_config"@[4]);
    assert("get_global_proxy_url"@[0] != "set_optimizer_config"@[0]);
    assert("get_global_proxy_url"@[0] != "validate_mcp_command"@[0]);
    assert("get_global_proxy_url"@[0] != "import_mcp_from_apps"@[0]);
    assert("get_global_proxy_url"@[0] != "update_model_pricing"@[0]);
    assert("get_global_proxy_url"@[0] != "delete_model_pricing"@[0]);
    assert("get_global_proxy_url"@[4] != "get_session_messages"@[4]);
    assert("set_global_proxy_url"@[0] != "get_current_provider"@[0]);
    assert("set_global_proxy_url"@[0] != "get_custom_endpoints"@[0]);
    assert("set_global_proxy_url"@[0] != "get_migration_result"@[0]);
    assert("set_global_proxy_url"@[0] != "get_rectifier_config"@[0]);
    assert("set_global_proxy_url"@[4] != "set_rectifier_config"@[4]);
    assert("set_global_proxy_url"@[0] != "get_optimizer_config"@[0]);
    assert("set_global_proxy_url"@[4] != "set_optimizer_config"@[4]);
    assert("set_global_proxy_url"@[0] != "validate_mcp_command"@[0]);
    assert("set_global_proxy_url"@[0] != "import_mcp_from_apps"@[0]);
    assert("set_global_proxy_url"@[0] != "update_model_pricing"@[0]);
    assert("set_global_proxy_url"@[0] != "delete_model_pricing"@[0]);
    assert("set_global_proxy_url"@[0] != "get_session_messages"@[0]);
    assert("set_global_proxy_url"@[0] != "get_global_proxy_url"@[0]);
    assert("test_proxy_url"@[0] != "get_config_dir"@[0]);
    assert("test_proxy_url"@[0] != "pick_directory"@[0]);
    assert("test_proxy_url"@[0] != "get_init_error"@[0]);
    assert("test_proxy_url"@[0] != "get_log_config"@[0]);
    assert("test_proxy_url"@[0] != "set_log_config"@[0]);
    assert("test_proxy_url"@[0] != "get_mcp_config"@[0]);
    assert("test_proxy_url"@[1] != "toggle_mcp_app"@[1]);
    assert("test_proxy_url"@[0] != "delete_session"@[0]);
    assert("get_upstream_proxy_status"@[4] != "get_claude_desktop_status"@[4]);
    assert("get_upstream_proxy_status"@[0] != "update_endpoint_last_used"@[0]);
    assert("get_upstream_proxy_status"@[0] != "upsert_universal_provider"@[0]);
    assert("get_upstream_proxy_status"@[0] != "delete_universal_provider"@[0]);
    assert("get_upstream_proxy_status"@[4] != "get_common_config_snippet"@[4]);
    assert("get_upstream_proxy_status"@[0] != "set_common_config_snippet"@[0]);
    assert("get_upstream_proxy_status"@[0] != "read_claude_plugin_config"@[0]);
    assert("get_upstream_proxy_status"@[4] != "get_proxy_takeover_status"@[4]);
    assert("get_upstream_proxy_status"@[4] != "get_circuit_breaker_stats"@[4]);
    assert("get_upstream_proxy_status"@[4] != "get_auto_failover_enabled"@[4]);
    assert("get_upstream_proxy_status"@[0] != "set_auto_failover_enabled"@[0]);
    assert("get_upstream_proxy_status"@[0] != "set_hermes_memory_enabled"@[0]);
    assert("scan_local_proxies"@[0] != "queryProviderUsage"@[0]);
    assert("scan_local_proxies"@[0] != "test_api_endpoints"@[0]);
    assert("scan_local_proxies"@[0] != "open_config_folder"@[0]);
    assert("scan_local_proxies"@[1] != "start_proxy_server"@[1]);
    assert("scan_local_proxies"@[0] != "get_failover_queue"@[0]);
    assert("scan_local_proxies"@[0] != "get_provider_stats"@[0]);
    assert("scan_local_proxies"@[0] != "get_request_detail"@[0]);
    assert("scan_local_proxies"@[1] != "sync_session_usage"@[1]);
    assert("scan_local_proxies"@[0] != "get_openclaw_tools"@[0]);
    assert("scan_local_proxies"@[1] != "set_openclaw_tools"@[1]);
    assert("scan_local_proxies"@[0] != "open_hermes_web_ui"@[0]);
    assert("auth_start_login"@[0] != "is_portable_mode"@[0]);
    assert("auth_start_login"@[0] != "set_window_theme"@[0]);
    assert("auth_start_login"@[0] != "get_proxy_status"@[0]);
    assert("auth_start_login"@[0] != "get_proxy_config"@[0]);
    assert("auth_start_login"@[0] != "is_proxy_running"@[0]);
    assert("auth_start_login"@[0] != "get_usage_trends"@[0]);
    assert("auth_start_login"@[0] != "get_request_logs"@[0]);
    assert("auth_start_login"@[0] != "get_openclaw_env"@[0]);
    assert("auth_start_login"@[0] != "set_openclaw_env"@[0]);
    assert("auth_poll_for_account"@[0] != "import_default_config"@[0]);
    assert("auth_poll_for_account"@[0] != "get_claude_mcp_status"@[0]);
    assert("auth_poll_for_account"@[0] != "get_codex_oauth_quota"@[0]);
    assert("auth_poll_for_account"@[0] != "get_coding_plan_quota"@[0]);
    assert("auth_poll_for_account"@[0] != "switch_proxy_provider"@[0]);
    assert("auth_poll_for_account"@[0] != "reset_circuit_breaker"@[0]);
    assert("auth_poll_for_account"@[1] != "add_to_failover_queue"@[1]);
    assert("auth_poll_for_account"@[0] != "check_provider_limits"@[0]);
    assert("auth_poll_for_account"@[0] != "stream_check_provider"@[0]);
    assert("auth_list_accounts"@[0] != "queryProviderUsage"@[0]);
    assert("auth_list_accounts"@[0] != "test_api_endpoints"@[0]);
    assert("auth_list_accounts"@[0] != "open_config_folder"@[0]);
    assert("auth_list_accounts"@[0] != "start_proxy_server"@[0]);
    assert("auth_list_accounts"@[0] != "get_failover_queue"@[0]);
    assert("auth_list_accounts"@[0] != "get_provider_stats"@[0]);
    assert("auth_list_accounts"@[0] != "get_request_detail"@[0]);
    assert("auth_list_accounts"@[0] != "sync_session_usage"@[0]);
    assert("auth_list_accounts"@[0] != "get_openclaw_tools"@[0]);
    assert("auth_list_accounts"@[0] != "set_openclaw_tools"@[0]);
    assert("auth_list_accounts"@[0] != "open_hermes_web_ui"@[0]);
    assert("auth_list_accounts"@[0] != "scan_local_proxies"@[0]);
    assert("auth_get_status"@[0] != "update_provider"@[0]);
    assert("auth_get_status"@[0] != "delete_provider"@[0]);
    assert("auth_get_status"@[0] != "switch_provider"@[0]);
    assert("auth_get_status"@[0] != "testUsageScript"@[0]);
    assert("auth_get_status"@[0] != "set_mcp_enabled"@[0]);
    assert("auth_get_status"@[0] != "get_mcp_servers"@[0]);
    assert("auth_get_status"@[0] != "get_model_stats"@[0]);
    assert("auth_get_status"@[0] != "delete_sessions"@[0]);
    assert("auth_remove_account"@[1] != "add_custom_endpoint"@[1]);
    assert("auth_remove_account"@[0] != "get_app_config_path"@[0]);
    assert("auth_remove_account"@[0] != "update_proxy_config"@[0]);
    assert("auth_remove_account"@[0] != "get_provider_health"@[0]);
    assert("auth_set_default_account"@[0] != "get_claude_config_status"@[0]);
    assert("auth_set_default_account"@[0] != "get_claude_plugin_status"@[0]);
    assert("auth_set_default_account"@[0] != "is_claude_plugin_applied"@[0]);
    assert("auth_set_default_account"@[0] != "upsert_claude_mcp_server"@[0]);
    assert("auth_set_default_account"@[0] != "delete_claude_mcp_server"@[0]);
    assert("auth_set_default_account"@[0] != "get_proxy_config_for_app"@[0]);
    assert("auth_set_default_account"@[0] != "get_pricing_model_source"@[0]);
    assert("auth_set_default_account"@[0] != "set_pricing_model_source"@[0]);
    assert("auth_set_default_account"@[0] != "get_usage_summary_by_app"@[0]);
    assert("auth_set_default_account"@[0] != "save_stream_check_config"@[0]);
    assert("auth_set_default_account"@[0] != "get_hermes_live_provider"@[0]);
    assert("auth_set_default_account"@[0] != "get_hermes_memory_limits"@[0]);
    assert("auth_logout"@[0] != "restart_app"@[0]);
    assert("auth_logout"@[0] != "get_prompts"@[0]);
    assert("auth_logout"@[0] != "get_balance"@[0]);
    assert("copilot_start_device_flow"@[0] != "get_claude_desktop_status"@[0]);
    assert("copilot_start_device_flow"@[0] != "update_endpoint_last_used"@[0]);
    assert("copilot_start_device_flow"@[0] != "upsert_universal_provider"@[0]);
    assert("copilot_start_device_flow"@[0] != "delete_universal_provider"@[0]);
    assert("copilot_start_device_flow"@[0] != "get_common_config_snippet"@[0]);
    assert("copilot_start_device_flow"@[0] != "set_common_config_snippet"@[0]);
    assert("copilot_start_device_flow"@[0] != "read_claude_plugin_config"@[0]);
    assert("copilot_start_device_flow"@[0] != "get_proxy_takeover_status"@[0]);
    assert("copilot_start_device_flow"@[0] != "get_circuit_breaker_stats"@[0]);
    assert("copilot_start_device_flow"@[0] != "get_auto_failover_enabled"@[0]);
    assert("copilot_start_device_flow"@[0] != "set_auto_failover_enabled"@[0]);
    assert("copilot_start_device_flow"@[0] != "set_hermes_memory_enabled"@[0]);
    assert("copilot_start_device_flow"@[0] != "get_upstream_proxy_status"@[0]);
    assert("copilot_poll_for_auth"@[0] != "import_default_config"@[0]);
    assert("copilot_poll_for_auth"@[0] != "get_claude_mcp_status"@[0]);
    assert("copilot_poll_for_auth"@[0] != "get_codex_oauth_quota"@[0]);
    assert("copilot_poll_for_auth"@[0] != "get_coding_plan_quota"@[0]);
    assert("copilot_poll_for_auth"@[0] != "switch_proxy_provider"@[0]);
    assert("copilot_poll_for_auth"@[0] != "reset_circuit_breaker"@[0]);
    assert("copilot_poll_for_auth"@[0] != "add_to_failover_queue"@[0]);
    assert("copilot_poll_for_auth"@[1] != "check_provider_limits"@[1]);
    assert("copilot_poll_for_auth"@[0] != "stream_check_provider"@[0]);
    assert("copilot_poll_for_auth"@[0] != "auth_poll_for_account"@[0]);
    assert("copilot_poll_for_account"@[0] != "get_claude_config_status"@[0]);
    assert("copilot_poll_for_account"@[0] != "get_claude_plugin_status"@[0]);
    assert("copilot_poll_for_account"@[0] != "is_claude_plugin_applied"@[0]);
    assert("copilot_poll_for_account"@[0] != "upsert_claude_mcp_server"@[0]);
    assert("copilot_poll_for_account"@[0] != "delete_claude_mcp_server"@[0]);
    assert("copilot_poll_for_account"@[0] != "get_proxy_config_for_app"@[0]);
    assert("copilot_poll_for_account"@[0] != "get_pricing_model_source"@[0]);
    assert("copilot_poll_for_account"@[0] != "set_pricing_model_source"@[0]);
    assert("copilot_poll_for_account"@[0] != "get_usage_summary_by_app"@[0]);
    assert("copilot_poll_for_account"@[0] != "save_stream_check_config"@[0]);
    assert("copilot_poll_for_account"@[0] != "get_hermes_live_provider"@[0]);
    assert("copilot_poll_for_account"@[0] != "get_hermes_memory_limits"@[0]);
    assert("copilot_poll_for_account"@[0] != "auth_set_default_account"@[0]);
    assert("copilot_list_accounts"@[0] != "import_default_config"@[0]);
    assert("copilot_list_accounts"@[0] != "get_claude_mcp_status"@[0]);
    assert("copilot_list_accounts"@[0] != "get_codex_oauth_quota"@[0]);
    assert("copilot_list_accounts"@[0] != "get_coding_plan_quota"@[0]);
    assert("copilot_list_accounts"@[0] != "switch_proxy_provider"@[0]);
    assert("copilot_list_accounts"@[0] != "reset_circuit_breaker"@[0]);
    assert("copilot_list_accounts"@[0] != "add_to_failover_queue"@[0]);
    assert("copilot_list_accounts"@[1] != "check_provider_limits"@[1]);
    assert("copilot_list_accounts"@[0] != "stream_check_provider"@[0]);
    assert("copilot_list_accounts"@[0] != "auth_poll_for_account"@[0]);
    assert("copilot_list_accounts"@[8] != "copilot_poll_for_auth"@[8]);
    assert("copilot_remove_account"@[0] != "remove_custom_endpoint"@[0]);
    assert("copilot_remove_account"@[0] != "get_universal_provider"@[0]);
    assert("copilot_remove_account"@[0] != "open_app_config_folder"@[0]);
    assert("copilot_remove_account"@[3] != "copy_text_to_clipboard"@[3]);
    assert("copilot_remove_account"@[0] != "open_provider_terminal"@[0]);
    assert("copilot_remove_account"@[0] != "read_claude_mcp_config"@[0]);
    assert("copilot_remove_account"@[0] != "get_subscription_quota"@[0]);
    assert("copilot_remove_account"@[0] != "get_codex_oauth_models"@[0]);
    assert("copilot_remove_account"@[0] != "get_usage_data_sources"@[0]);
    assert("copilot_set_default_account"@[0] != "read_live_provider_settings"@[0]);
    assert("copilot_set_default_account"@[0] != "update_providers_sort_order"@[0]);
    assert("copilot_set_default_account"@[0] != "get_claude_code_config_path"@[0]);
    assert("copilot_set_default_account"@[0] != "get_skills_migration_result"@[0]);
    assert("copilot_set_default_account"@[0] != "get_app_config_dir_override"@[0]);
    assert("copilot_set_default_account"@[0] != "set_app_config_dir_override"@[0]);
    assert("copilot_set_default_account"@[0] != "upsert_mcp_server_in_config"@[0]);
    assert("copilot_set_default_account"@[0] != "delete_mcp_server_in_config"@[0]);
    assert("copilot_set_default_account"@[0] != "update_proxy_config_for_app"@[0]);
    assert("copilot_set_default_account"@[0] != "get_default_cost_multiplier"@[0]);
    assert("copilot_set_default_account"@[0] != "set_default_cost_multiplier"@[0]);
    assert("copilot_set_default_account"@[0] != "scan_openclaw_config_health"@[0]);
    assert("copilot_get_auth_status"@[0] != "get_universal_providers"@[0]);
    assert("copilot_get_auth_status"@[0] != "sync_universal_provider"@[0]);
    assert("copilot_get_auth_status"@[0] != "import_prompt_from_file"@[0]);
    assert("copilot_get_auth_status"@[0] != "fetch_models_for_config"@[0]);
    assert("copilot_get_auth_status"@[0] != "stop_proxy_with_restore"@[0]);
    assert("copilot_get_auth_status"@[0] != "get_global_proxy_config"@[0]);
    assert("copilot_get_auth_status"@[0] != "is_live_takeover_active"@[0]);
    assert("copilot_get_auth_status"@[0] != "get_stream_check_config"@[0]);
    assert("copilot_get_auth_status"@[0] != "launch_session_terminal"@[0]);
    assert("copilot_get_auth_status"@[0] != "get_hermes_model_config"@[0]);
    assert("copilot_get_auth_status"@[0] != "launch_hermes_dashboard"@[0]);
    assert("copilot_is_authenticated"@[0] != "get_claude_config_status"@[0]);
    assert("copilot_is_authenticated"@[0] != "get_claude_plugin_status"@[0]);
    assert("copilot_is_authenticated"@[0] != "is_claude_plugin_applied"@[0]);
    assert("copilot_is_authenticated"@[0] != "upsert_claude_mcp_server"@[0]);
    assert("copilot_is_authenticated"@[0] != "delete_claude_mcp_server"@[0]);
    assert("copilot_is_authenticated"@[0] != "get_proxy_config_for_app"@[0]);
    assert("copilot_is_authenticated"@[0] != "get_pricing_model_source"@[0]);
    assert("copilot_is_authenticated"@[0] != "set_pricing_model_source"@[0]);
    assert("copilot_is_authenticated"@[0] != "get_usage_summary_by_app"@[0]);
    assert("copilot_is_authenticated"@[0] != "save_stream_check_config"@[0]);
    assert("copilot_is_authenticated"@[0] != "get_hermes_live_provider"@[0]);
    assert("copilot_is_authenticated"@[0] != "get_hermes_memory_limits"@[0]);
    assert("copilot_is_authenticated"@[0] != "auth_set_default_account"@[0]);
    assert("copilot_is_authenticated"@[8] != "copilot_poll_for_account"@[8]);
    assert("copilot_logout"@[0] != "get_config_dir"@[0]);
    assert("copilot_logout"@[0] != "pick_directory"@[0]);
    assert("copilot_logout"@[0] != "get_init_error"@[0]);
    assert("copilot_logout"@[0] != "get_log_config"@[0]);
    assert("copilot_logout"@[0] != "set_log_config"@[0]);
    assert("copilot_logout"@[0] != "get_mcp_config"@[0]);
    assert("copilot_logout"@[0] != "toggle_mcp_app"@[0]);
    assert("copilot_logout"@[0] != "delete_session"@[0]);
    assert("copilot_logout"@[0] != "test_proxy_url"@[0]);
    assert("copilot_get_token"@[0] != "get_config_status"@[0]);
    assert("copilot_get_token"@[1] != "check_for_updates"@[1]);
    assert("copilot_get_token"@[0] != "get_tool_versions"@[0]);
    assert("copilot_get_token"@[0] != "upsert_mcp_server"@[0]);
    assert("copilot_get_token"@[0] != "delete_mcp_server"@[0]);
    assert("copilot_get_token"@[0] != "stop_proxy_server"@[0]);
    assert("copilot_get_token"@[0] != "get_usage_summary"@[0]);
    assert("copilot_get_token"@[0] != "get_model_pricing"@[0]);
    assert("copilot_get_token"@[0] != "get_hermes_memory"@[0]);
    assert("copilot_get_token"@[0] != "set_hermes_memory"@[0]);
    assert("copilot_get_token_for_account"@[0] != "extract_common_config_snippet"@[0]);
    assert("copilot_get_token_for_account"@[0] != "update_circuit_breaker_config"@[0]);
    assert("copilot_get_models"@[0] != "queryProviderUsage"@[0]);
    assert("copilot_get_models"@[0] != "test_api_endpoints"@[0]);
    assert("copilot_get_models"@[0] != "open_config_folder"@[0]);
    assert("copilot_get_models"@[0] != "start_proxy_server"@[0]);
    assert("copilot_get_models"@[0] != "get_failover_queue"@[0]);
    assert("copilot_get_models"@[0] != "get_provider_stats"@[0]);
    assert("copilot_get_models"@[0] != "get_request_detail"@[0]);
    assert("copilot_get_models"@[0] != "sync_session_usage"@[0]);
    assert("copilot_get_models"@[0] != "get_openclaw_tools"@[0]);
    assert("copilot_get_models"@[0] != "set_openclaw_tools"@[0]);
    assert("copilot_get_models"@[0] != "open_hermes_web_ui"@[0]);
    assert("copilot_get_models"@[0] != "scan_local_proxies"@[0]);
    assert("copilot_get_models"@[0] != "auth_list_accounts"@[0]);
    assert("copilot_get_models_for_account"@[0] != "get_opencode_live_provider_ids"@[0]);
    assert("copilot_get_models_for_account"@[0] != "get_openclaw_live_provider_ids"@[0]);
    assert("copilot_get_usage"@[0] != "get_config_status"@[0]);
    assert("copilot_get_usage"@[1] != "check_for_updates"@[1]);
    assert("copilot_get_usage"@[0] != "get_tool_versions"@[0]);
    assert("copilot_get_usage"@[0] != "upsert_mcp_server"@[0]);
    assert("copilot_get_usage"@[0] != "delete_mcp_server"@[0]);
    assert("copilot_get_usage"@[0] != "stop_proxy_server"@[0]);
    assert("copilot_get_usage"@[0] != "get_usage_summary"@[0]);
    assert("copilot_get_usage"@[0] != "get_model_pricing"@[0]);
    assert("copilot_get_usage"@[0] != "get_hermes_memory"@[0]);
    assert("copilot_get_usage"@[0] != "set_hermes_memory"@[0]);
    assert("copilot_get_usage"@[12] != "copilot_get_token"@[12]);
    assert("copilot_get_usage_for_account"@[0] != "extract_common_config_snippet"@[0]);
    assert("copilot_get_usage_for_account"@[0] != "update_circuit_breaker_config"@[0]);
    assert("copilot_get_usage_for_account"@[12] != "copilot_get_token_for_account"@[12]);
}

/// The commands for OMO, workspace files, lightweight mode and WebDAV read these members of the request, in this
/// order, each as its kind says.
pub proof fn workspace_commands_read_their_members()
    ensures
        command_params("read_omo_local_file"@) == Some(Seq::<Param>::empty()),
        command_params("get_current_omo_provider_id"@) == Some(Seq::<Param>::empty()),
        command_params("disable_current_omo"@) == Some(Seq::<Param>::empty()),
        command_params("read_omo_slim_local_file"@) == Some(Seq::<Param>::empty()),
        command_params("get_current_omo_slim_provider_id"@) == Some(Seq::<Param>::empty()),
        command_params("disable_current_omo_slim"@) == Some(Seq::<Param>::empty()),
        command_params("read_workspace_file"@) == Some(seq![Param { key: "filename", kind: ParamKind::ReqStr }]),
        command_params("write_workspace_file"@) == Some(seq![Param { key: "filename", kind: ParamKind::ReqStr }, Param { key: "content", kind: ParamKind::ReqStr }]),
        command_params("list_daily_memory_files"@) == Some(Seq::<Param>::empty()),
        command_params("read_daily_memory_file"@) == Some(seq![Param { key: "filename", kind: ParamKind::ReqStr }]),
        command_params("write_daily_memory_file"@) == Some(seq![Param { key: "filename", kind: ParamKind::ReqStr }, Param { key: "content", kind: ParamKind::ReqStr }]),
        command_params("delete_daily_memory_file"@) == Some(seq![Param { key: "filename", kind: ParamKind::ReqStr }]),
        command_params("search_daily_memory_files"@) == Some(seq![Param { key: "query", kind: ParamKind::ReqStr }]),
        command_params("open_workspace_directory"@) == Some(seq![Param { key: "subdir", kind: ParamKind::ReqStr }]),
        command_params("enter_lightweight_mode"@) == Some(Seq::<Param>::empty()),
        command_params("exit_lightweight_mode"@) == Some(Seq::<Param>::empty()),
        command_params("is_lightweight_mode"@) == Some(Seq::<Param>::empty()),
        command_params("webdav_test_connection"@) == Some(seq![Param { key: "settings", kind: ParamKind::ReqTyped }, Param { key: "preserveEmptyPassword", kind: ParamKind::OptBool }]),
        command_params("webdav_sync_upload"@) == Some(Seq::<Param>::empty()),
        command_params("webdav_sync_download"@) == Some(Seq::<Param>::empty()),
        command_params("webdav_sync_save_settings"@) == Some(seq![Param { key: "settings", kind: ParamKind::ReqTyped }, Param { key: "passwordTouched", kind: ParamKind::OptBool }]),
        command_params("webdav_sync_fetch_remote_info"@) == Some(Seq::<Param>::empty()),
{
    reveal_strlit("get_providers");
    assert("get_providers"@.len() == 13);
    reveal_strlit("get_current_provider");
    assert("get_current_provider"@.len() == 20);
    reveal_strlit("add_provider");
    assert("add_provider"@.len() == 12);
    reveal_strlit("update_provider");
    assert("update_provider"@.len() == 15);
    reveal_strlit("delete_provider");
    assert("delete_provider"@.len() == 15);
    reveal_strlit("remove_provider_from_live_config");
    assert("remove_provider_from_live_config"@.len() == 32);
    reveal_strlit("switch_provider");
    assert("switch_provider"@.len() == 15);
    reveal_strlit("import_default_config");
    assert("import_default_config"@.len() == 21);
    reveal_strlit("get_claude_desktop_status");
    assert("get_claude_desktop_status"@.len() == 25);
    reveal_strlit("get_claude_desktop_default_routes");
    assert("get_claude_desktop_default_routes"@.len() == 33);
    reveal_strlit("import_claude_desktop_providers_from_claude");
    assert("import_claude_desktop_providers_from_claude"@.len() == 43);
    reveal_strlit("queryProviderUsage");
    assert("queryProviderUsage"@.len() == 18);
    reveal_strlit("testUsageScript");
    assert("testUsageScript"@.len() == 15);
    reveal_strlit("read_live_provider_settings");
    assert("read_live_provider_settings"@.len() == 27);
    reveal_strlit("test_api_endpoints");
    assert("test_api_endpoints"@.len() == 18);
    reveal_strlit("get_custom_endpoints");
    assert("get_custom_endpoints"@.len() == 20);
    reveal_strlit("add_custom_endpoint");
    assert("add_custom_endpoint"@.len() == 19);
    reveal_strlit("remove_custom_endpoint");
    assert("remove_custom_endpoint"@.len() == 22);
    reveal_strlit("update_endpoint_last_used");
    assert("update_endpoint_last_used"@.len() == 25);
    reveal_strlit("update_providers_sort_order");
    assert("update_providers_sort_order"@.len() == 27);
    reveal_strlit("get_universal_providers");
    assert("get_universal_providers"@.len() == 23);
    reveal_strlit("get_universal_provider");
    assert("get_universal_provider"@.len() == 22);
    reveal_strlit("upsert_universal_provider");
    assert("upsert_universal_provider"@.len() == 25);
    reveal_strlit("delete_universal_provider");
    assert("delete_universal_provider"@.len() == 25);
    reveal_strlit("sync_universal_provider");
    assert("sync_universal_provider"@.len() == 23);
    reveal_strlit("import_opencode_providers_from_live");
    assert("import_opencode_providers_from_live"@.len() == 35);
    reveal_strlit("get_opencode_live_provider_ids");
    assert("get_opencode_live_provider_ids"@.len() == 30);
    reveal_strlit("get_claude_config_status");
    assert("get_claude_config_status"@.len() == 24);
    reveal_strlit("get_config_status");
    assert("get_config_status"@.len() == 17);
    reveal_strlit("get_claude_code_config_path");
    assert("get_claude_code_config_path"@.len() == 27);
    reveal_strlit("get_config_dir");
    assert("get_config_dir"@.len() == 14);
    reveal_strlit("open_config_folder");
    assert("open_config_folder"@.len() == 18);
    reveal_strlit("pick_directory");
    assert("pick_directory"@.len() == 14);
    reveal_strlit("open_external");
    assert("open_external"@.len() == 13);
    reveal_strlit("get_init_error");
    assert("get_init_error"@.len() == 14);
    reveal_strlit("get_migration_result");
    assert("get_migration_result"@.len() == 20);
    reveal_strlit("get_skills_migration_result");
    assert("get_skills_migration_result"@.len() == 27);
    reveal_strlit("get_app_config_path");
    assert("get_app_config_path"@.len() == 19);
    reveal_strlit("open_app_config_folder");
    assert("open_app_config_folder"@.len() == 22);
    reveal_strlit("get_claude_common_config_snippet");
    assert("get_claude_common_config_snippet"@.len() == 32);
    reveal_strlit("set_claude_common_config_snippet");
    assert("set_claude_common_config_snippet"@.len() == 32);
    reveal_strlit("get_common_config_snippet");
    assert("get_common_config_snippet"@.len() == 25);
    reveal_strlit("set_common_config_snippet");
    assert("set_common_config_snippet"@.len() == 25);
    reveal_strlit("extract_common_config_snippet");
    assert("extract_common_config_snippet"@.len() == 29);
    reveal_strlit("copy_text_to_clipboard");
    assert("copy_text_to_clipboard"@.len() == 22);
    reveal_strlit("check_for_updates");
    assert("check_for_updates"@.len() == 17);
    reveal_strlit("is_portable_mode");
    assert("is_portable_mode"@.len() == 16);
    reveal_strlit("get_tool_versions");
    assert("get_tool_versions"@.len() == 17);
    reveal_strlit("open_provider_terminal");
    assert("open_provider_terminal"@.len() == 22);
    reveal_strlit("set_window_theme");
    assert("set_window_theme"@.len() == 16);
    reveal_strlit("get_settings");
    assert("get_settings"@.len() == 12);
    reveal_strlit("save_settings");
    assert("save_settings"@.len() == 13);
    reveal_strlit("restart_app");
    assert("restart_app"@.len() == 11);
    reveal_strlit("get_app_config_dir_override");
    assert("get_app_config_dir_override"@.len() == 27);
    reveal_strlit("set_app_config_dir_override");
    assert("set_app_config_dir_override"@.len() == 27);
    reveal_strlit("get_rectifier_config");
    assert("get_rectifier_config"@.len() == 20);
    reveal_strlit("set_rectifier_config");
    assert("set_rectifier_config"@.len() == 20);
    reveal_strlit("get_optimizer_config");
    assert("get_optimizer_config"@.len() == 20);
    reveal_strlit("set_optimizer_config");
    assert("set_optimizer_config"@.len() == 20);
    reveal_strlit("get_copilot_optimizer_config");
    assert("get_copilot_optimizer_config"@.len() == 28);
    reveal_strlit("set_copilot_optimizer_config");
    assert("set_copilot_optimizer_config"@.len() == 28);
    reveal_strlit("get_log_config");
    assert("get_log_config"@.len() == 14);
    reveal_strlit("set_log_config");
    assert("set_log_config"@.len() == 14);
    reveal_strlit("get_claude_plugin_status");
    assert("get_claude_plugin_status"@.len() == 24);
    reveal_strlit("read_claude_plugin_config");
    assert("read_claude_plugin_config"@.len() == 25);
    reveal_strlit("apply_claude_plugin_config");
    assert("apply_claude_plugin_config"@.len() == 26);
    reveal_strlit("is_claude_plugin_applied");
    assert("is_claude_plugin_applied"@.len() == 24);
    reveal_strlit("apply_claude_onboarding_skip");
    assert("apply_claude_onboarding_skip"@.len() == 28);
    reveal_strlit("clear_claude_onboarding_skip");
    assert("clear_claude_onboarding_skip"@.len() == 28);
    reveal_strlit("get_claude_mcp_status");
    assert("get_claude_mcp_status"@.len() == 21);
    reveal_strlit("read_claude_mcp_config");
    assert("read_claude_mcp_config"@.len() == 22);
    reveal_strlit("upsert_claude_mcp_server");
    assert("upsert_claude_mcp_server"@.len() == 24);
    reveal_strlit("delete_claude_mcp_server");
    assert("delete_claude_mcp_server"@.len() == 24);
    reveal_strlit("validate_mcp_command");
    assert("validate_mcp_command"@.len() == 20);
    reveal_strlit("get_mcp_config");
    assert("get_mcp_config"@.len() == 14);
    reveal_strlit("upsert_mcp_server_in_config");
    assert("upsert_mcp_server_in_config"@.len() == 27);
    reveal_strlit("delete_mcp_server_in_config");
    assert("delete_mcp_server_in_config"@.len() == 27);
    reveal_strlit("set_mcp_enabled");
    assert("set_mcp_enabled"@.len() == 15);
    reveal_strlit("get_mcp_servers");
    assert("get_mcp_servers"@.len() == 15);
    reveal_strlit("upsert_mcp_server");
    assert("upsert_mcp_server"@.len() == 17);
    reveal_strlit("delete_mcp_server");
    assert("delete_mcp_server"@.len() == 17);
    reveal_strlit("toggle_mcp_app");
    assert("toggle_mcp_app"@.len() == 14);
    reveal_strlit("import_mcp_from_apps");
    assert("import_mcp_from_apps"@.len() == 20);
    reveal_strlit("get_prompts");
    assert("get_prompts"@.len() == 11);
    reveal_strlit("upsert_prompt");
    assert("upsert_prompt"@.len() == 13);
    reveal_strlit("delete_prompt");
    assert("delete_prompt"@.len() == 13);
    reveal_strlit("enable_prompt");
    assert("enable_prompt"@.len() == 13);
    reveal_strlit("import_prompt_from_file");
    assert("import_prompt_from_file"@.len() == 23);
    reveal_strlit("get_current_prompt_file_content");
    assert("get_current_prompt_file_content"@.len() == 31);
    reveal_strlit("fetch_models_for_config");
    assert("fetch_models_for_config"@.len() == 23);
    reveal_strlit("get_subscription_quota");
    assert("get_subscription_quota"@.len() == 22);
    reveal_strlit("get_codex_oauth_quota");
    assert("get_codex_oauth_quota"@.len() == 21);
    reveal_strlit("get_codex_oauth_models");
    assert("get_codex_oauth_models"@.len() == 22);
    reveal_strlit("get_coding_plan_quota");
    assert("get_coding_plan_quota"@.len() == 21);
    reveal_strlit("get_balance");
    assert("get_balance"@.len() == 11);
    reveal_strlit("start_proxy_server");
    assert("start_proxy_server"@.len() == 18);
    reveal_strlit("stop_proxy_server");
    assert("stop_proxy_server"@.len() == 17);
    reveal_strlit("stop_proxy_with_restore");
    assert("stop_proxy_with_restore"@.len() == 23);
    reveal_strlit("get_proxy_takeover_status");
    assert("get_proxy_takeover_status"@.len() == 25);
    reveal_strlit("set_proxy_takeover_for_app");
    assert("set_proxy_takeover_for_app"@.len() == 26);
    reveal_strlit("get_proxy_status");
    assert("get_proxy_status"@.len() == 16);
    reveal_strlit("get_proxy_config");
    assert("get_proxy_config"@.len() == 16);
    reveal_strlit("update_proxy_config");
    assert("update_proxy_config"@.len() == 19);
    reveal_strlit("get_global_proxy_config");
    assert("get_global_proxy_config"@.len() == 23);
    reveal_strlit("update_global_proxy_config");
    assert("update_global_proxy_config"@.len() == 26);
    reveal_strlit("get_proxy_config_for_app");
    assert("get_proxy_config_for_app"@.len() == 24);
    reveal_strlit("update_proxy_config_for_app");
    assert("update_proxy_config_for_app"@.len() == 27);
    reveal_strlit("get_default_cost_multiplier");
    assert("get_default_cost_multiplier"@.len() == 27);
    reveal_strlit("set_default_cost_multiplier");
    assert("set_default_cost_multiplier"@.len() == 27);
    reveal_strlit("get_pricing_model_source");
    assert("get_pricing_model_source"@.len() == 24);
    reveal_strlit("set_pricing_model_source");
    assert("set_pricing_model_source"@.len() == 24);
    reveal_strlit("is_proxy_running");
    assert("is_proxy_running"@.len() == 16);
    reveal_strlit("is_live_takeover_active");
    assert("is_live_takeover_active"@.len() == 23);
    reveal_strlit("switch_proxy_provider");
    assert("switch_proxy_provider"@.len() == 21);
    reveal_strlit("get_provider_health");
    assert("get_provider_health"@.len() == 19);
    reveal_strlit("reset_circuit_breaker");
    assert("reset_circuit_breaker"@.len() == 21);
    reveal_strlit("get_circuit_breaker_config");
    assert("get_circuit_breaker_config"@.len() == 26);
    reveal_strlit("update_circuit_breaker_config");
    assert("update_circuit_breaker_config"@.len() == 29);
    reveal_strlit("get_circuit_breaker_stats");
    assert("get_circuit_breaker_stats"@.len() == 25);
    reveal_strlit("get_failover_queue");
    assert("get_failover_queue"@.len() == 18);
    reveal_strlit("get_available_providers_for_failover");
    assert("get_available_providers_for_failover"@.len() == 36);
    reveal_strlit("add_to_failover_queue");
    assert("add_to_failover_queue"@.len() == 21);
    reveal_strlit("remove_from_failover_queue");
    assert("remove_from_failover_queue"@.len() == 26);
    reveal_strlit("get_auto_failover_enabled");
    assert("get_auto_failover_enabled"@.len() == 25);
    reveal_strlit("set_auto_failover_enabled");
    assert("set_auto_failover_enabled"@.len() == 25);
    reveal_strlit("get_usage_summary");
    assert("get_usage_summary"@.len() == 17);
    reveal_strlit("get_usage_summary_by_app");
    assert("get_usage_summary_by_app"@.len() == 24);
    reveal_strlit("get_usage_trends");
    assert("get_usage_trends"@.len() == 16);
    reveal_strlit("get_provider_stats");
    assert("get_provider_stats"@.len() == 18);
    reveal_strlit("get_model_stats");
    assert("get_model_stats"@.len() == 15);
    reveal_strlit("get_request_logs");
    assert("get_request_logs"@.len() == 16);
    reveal_strlit("get_request_detail");
    assert("get_request_detail"@.len() == 18);
    reveal_strlit("get_model_pricing");
    assert("get_model_pricing"@.len() == 17);
    reveal_strlit("update_model_pricing");
    assert("update_model_pricing"@.len() == 20);
    reveal_strlit("delete_model_pricing");
    assert("delete_model_pricing"@.len() == 20);
    reveal_strlit("check_provider_limits");
    assert("check_provider_limits"@.len() == 21);
    reveal_strlit("sync_session_usage");
    assert("sync_session_usage"@.len() == 18);
    reveal_strlit("get_usage_data_sources");
    assert("get_usage_data_sources"@.len() == 22);
    reveal_strlit("stream_check_provider");
    assert("stream_check_provider"@.len() == 21);
    reveal_strlit("stream_check_all_providers");
    assert("stream_check_all_providers"@.len() == 26);
    reveal_strlit("get_stream_check_config");
    assert("get_stream_check_config"@.len() == 23);
    reveal_strlit("save_stream_check_config");
    assert("save_stream_check_config"@.len() == 24);
    reveal_strlit("list_sessions");
    assert("list_sessions"@.len() == 13);
    reveal_strlit("get_session_messages");
    assert("get_session_messages"@.len() == 20);
    reveal_strlit("delete_session");
    assert("delete_session"@.len() == 14);
    reveal_strlit("delete_sessions");
    assert("delete_sessions"@.len() == 15);
    reveal_strlit("launch_session_terminal");
    assert("launch_session_terminal"@.len() == 23);
    reveal_strlit("import_openclaw_providers_from_live");
    assert("import_openclaw_providers_from_live"@.len() == 35);
    reveal_strlit("get_openclaw_live_provider_ids");
    assert("get_openclaw_live_provider_ids"@.len() == 30);
    reveal_strlit("get_openclaw_live_provider");
    assert("get_openclaw_live_provider"@.len() == 26);
    reveal_strlit("scan_openclaw_config_health");
    assert("scan_openclaw_config_health"@.len() == 27);
    reveal_strlit("get_openclaw_default_model");
    assert("get_openclaw_default_model"@.len() == 26);
    reveal_strlit("set_openclaw_default_model");
    assert("set_openclaw_default_model"@.len() == 26);
    reveal_strlit("get_openclaw_model_catalog");
    assert("get_openclaw_model_catalog"@.len() == 26);
    reveal_strlit("set_openclaw_model_catalog");
    assert("set_openclaw_model_catalog"@.len() == 26);
    reveal_strlit("get_openclaw_agents_defaults");
    assert("get_openclaw_agents_defaults"@.len() == 28);
    reveal_strlit("set_openclaw_agents_defaults");
    assert("set_openclaw_agents_defaults"@.len() == 28);
    reveal_strlit("get_openclaw_env");
    assert("get_openclaw_env"@.len() == 16);
    reveal_strlit("set_openclaw_env");
    assert("set_openclaw_env"@.len() == 16);
    reveal_strlit("get_openclaw_tools");
    assert("get_openclaw_tools"@.len() == 18);
    reveal_strlit("set_openclaw_tools");
    assert("set_openclaw_tools"@.len() == 18);
    reveal_strlit("import_hermes_providers_from_live");
    assert("import_hermes_providers_from_live"@.len() == 33);
    reveal_strlit("get_hermes_live_provider_ids");
    assert("get_hermes_live_provider_ids"@.len() == 28);
    reveal_strlit("get_hermes_live_provider");
    assert("get_hermes_live_provider"@.len() == 24);
    reveal_strlit("get_hermes_model_config");
    assert("get_hermes_model_config"@.len() == 23);
    reveal_strlit("open_hermes_web_ui");
    assert("open_hermes_web_ui"@.len() == 18);
    reveal_strlit("launch_hermes_dashboard");
    assert("launch_hermes_dashboard"@.len() == 23);
    reveal_strlit("get_hermes_memory");
    assert("get_hermes_memory"@.len() == 17);
    reveal_strlit("set_hermes_memory");
    assert("set_hermes_memory"@.len() == 17);
    reveal_strlit("get_hermes_memory_limits");
    assert("get_hermes_memory_limits"@.len() == 24);
    reveal_strlit("set_hermes_memory_enabled");
    assert("set_hermes_memory_enabled"@.len() == 25);
    reveal_strlit("get_global_proxy_url");
    assert("get_global_proxy_url"@.len() == 20);
    reveal_strlit("set_global_proxy_url");
    assert("set_global_proxy_url"@.len() == 20);
    reveal_strlit("test_proxy_url");
    assert("test_proxy_url"@.len() == 14);
    reveal_strlit("get_upstream_proxy_status");
    assert("get_upstream_proxy_status"@.len() == 25);
    reveal_strlit("scan_local_proxies");
    assert("scan_local_proxies"@.len() == 18);
    reveal_strlit("auth_start_login");
    assert("auth_start_login"@.len() == 16);
    reveal_strlit("auth_poll_for_account");
    assert("auth_poll_for_account"@.len() == 21);
    reveal_strlit("auth_list_accounts");
    assert("auth_list_accounts"@.len() == 18);
    reveal_strlit("auth_get_status");
    assert("auth_get_status"@.len() == 15);
    reveal_strlit("auth_remove_account");
    assert("auth_remove_account"@.len() == 19);
    reveal_strlit("auth_set_default_account");
    assert("auth_set_default_account"@.len() == 24);
    reveal_strlit("auth_logout");
    assert("auth_logout"@.len() == 11);
    reveal_strlit("copilot_start_device_flow");
    assert("copilot_start_device_flow"@.len() == 25);
    reveal_strlit("copilot_poll_for_auth");
    assert("copilot_poll_for_auth"@.len() == 21);
    reveal_strlit("copilot_poll_for_account");
    assert("copilot_poll_for_account"@.len() == 24);
    reveal_strlit("copilot_list_accounts");
    assert("copilot_list_accounts"@.len() == 21);
    reveal_strlit("copilot_remove_account");
    assert("copilot_remove_account"@.len() == 22);
    reveal_strlit("copilot_set_default_account");
    assert("copilot_set_default_account"@.len() == 27);
    reveal_strlit("copilot_get_auth_status");
    assert("copilot_get_auth_status"@.len() == 23);
    reveal_strlit("copilot_is_authenticated");
    assert("copilot_is_authenticated"@.len() == 24);
    reveal_strlit("copilot_logout");
    assert("copilot_logout"@.len() == 14);
    reveal_strlit("copilot_get_token");
    assert("copilot_get_token"@.len() == 17);
    reveal_strlit("copilot_get_token_for_account");
    assert("copilot_get_token_for_account"@.len() == 29);
    reveal_strlit("copilot_get_models");
    assert("copilot_get_models"@.len() == 18);
    reveal_strlit("copilot_get_models_for_account");
    assert("copilot_get_models_for_account"@.len() == 30);
    reveal_strlit("copilot_get_usage");
    assert("copilot_get_usage"@.len() == 17);
    reveal_strlit("copilot_get_usage_for_account");
    assert("copilot_get_usage_for_account"@.len() == 29);
    reveal_strlit("read_omo_local_file");
    assert("read_omo_local_file"@.len() == 19);
    reveal_strlit("get_current_omo_provider_id");
    assert("get_current_omo_provider_id"@.len() == 27);
    reveal_strlit("disable_current_omo");
    assert("disable_current_omo"@.len() == 19);
    reveal_strlit("read_omo_slim_local_file");
    assert("read_omo_slim_local_file"@.len() == 24);
    reveal_strlit("get_current_omo_slim_provider_id");
    assert("get_current_omo_slim_provider_id"@.len() == 32);
    reveal_strlit("disable_current_omo_slim");
    assert("disable_current_omo_slim"@.len() == 24);
    reveal_strlit("read_workspace_file");
    assert("read_workspace_file"@.len() == 19);
    reveal_strlit("write_workspace_file");
    assert("write_workspace_file"@.len() == 20);
    reveal_strlit("list_daily_memory_files");
    assert("list_daily_memory_files"@.len() == 23);
    reveal_strlit("read_daily_memory_file");
    assert("read_daily_memory_file"@.len() == 22);
    reveal_strlit("write_daily_memory_file");
    assert("write_daily_memory_file"@.len() == 23);
    reveal_strlit("delete_daily_memory_file");
    assert("delete_daily_memory_file"@.len() == 24);
    reveal_strlit("search_daily_memory_files");
    assert("search_daily_memory_files"@.len() == 25);
    reveal_strlit("open_workspace_directory");
    assert("open_workspace_directory"@.len() == 24);
    reveal_strlit("enter_lightweight_mode");
    assert("enter_lightweight_mode"@.len() == 22);
    reveal_strlit("exit_lightweight_mode");
    assert("exit_lightweight_mode"@.len() == 21);
    reveal_strlit("is_lightweight_mode");
    assert("is_lightweight_mode"@.len() == 19);
    reveal_strlit("webdav_test_connection");
    assert("webdav_test_connection"@.len() == 22);
    reveal_strlit("webdav_sync_upload");
    assert("webdav_sync_upload"@.len() == 18);
    reveal_strlit("webdav_sync_download");
    assert("webdav_sync_download"@.len() == 20);
    reveal_strlit("webdav_sync_save_settings");
    assert("webdav_sync_save_settings"@.len() == 25);
    reveal_strlit("webdav_sync_fetch_remote_info");
    assert("webdav_sync_fetch_remote_info"@.len() == 29);
    assert("read_omo_local_file"@[0] != "add_custom_endpoint"@[0]);
    assert("read_omo_local_file"@[0] != "get_app_config_path"@[0]);
    assert("read_omo_local_file"@[0] != "update_proxy_config"@[0]);
    assert("read_omo_local_file"@[0] != "get_provider_health"@[0]);
    assert("read_omo_local_file"@[0] != "auth_remove_account"@[0]);
    assert("get_current_omo_provider_id"@[0] != "read_live_provider_settings"@[0]);
    assert("get_current_omo_provider_id"@[0] != "update_providers_sort_order"@[0]);
    assert("get_current_omo_provider_id"@[5] != "get_claude_code_config_path"@[5]);
    assert("get_current_omo_provider_id"@[4] != "get_skills_migration_result"@[4]);
    assert("get_current_omo_provider_id"@[4] != "get_app_config_dir_override"@[4]);
    assert("get_current_omo_provider_id"@[0] != "set_app_config_dir_override"@[0]);
    assert("get_current_omo_provider_id"@[0] != "upsert_mcp_server_in_config"@[0]);
    assert("get_current_omo_provider_id"@[0] != "delete_mcp_server_in_config"@[0]);
    assert("get_current_omo_provider_id"@[0] != "update_proxy_config_for_app"@[0]);
    assert("get_current_omo_provider_id"@[4] != "get_default_cost_multiplier"@[4]);
    assert("get_current_omo_provider_id"@[0] != "set_default_cost_multiplier"@[0]);
    assert("get_current_omo_provider_id"@[0] != "scan_openclaw_config_health"@[0]);
    assert("get_current_omo_provider_id"@[0] != "copilot_set_default_account"@[0]);
    assert("disable_current_omo"@[0] != "add_custom_endpoint"@[0]);
    assert("disable_current_omo"@[0] != "get_app_config_path"@[0]);
    assert("disable_current_omo"@[0] != "update_proxy_config"@[0]);
    assert("disable_current_omo"@[0] != "get_provider_health"@[0]);
    assert("disable_current_omo"@[0] != "auth_remove_account"@[0]);
    assert("disable_current_omo"@[0] != "read_omo_local_file"@[0]);
    assert("read_omo_slim_local_file"@[0] != "get_claude_config_status"@[0]);
    assert("read_omo_slim_local_file"@[0] != "get_claude_plugin_status"@[0]);
    assert("read_omo_slim_local_file"@[0] != "is_claude_plugin_applied"@[0]);
    assert("read_omo_slim_local_file"@[0] != "upsert_claude_mcp_server"@[0]);
    assert("read_omo_slim_local_file"@[0] != "delete_claude_mcp_server"@[0]);
    assert("read_omo_slim_local_file"@[0] != "get_proxy_config_for_app"@[0]);
    assert("read_omo_slim_local_file"@[0] != "get_pricing_model_source"@[0]);
    assert("read_omo_slim_local_file"@[0] != "set_pricing_model_source"@[0]);
    assert("read_omo_slim_local_file"@[0] != "get_usage_summary_by_app"@[0]);
    assert("read_omo_slim_local_file"@[0] != "save_stream_check_config"@[0]);
    assert("read_omo_slim_local_file"@[0] != "get_hermes_live_provider"@[0]);
    assert("read_omo_slim_local_file"@[0] != "get_hermes_memory_limits"@[0]);
    assert("read_omo_slim_local_file"@[0] != "auth_set_default_account"@[0]);
    assert("read_omo_slim_local_file"@[0] != "copilot_poll_for_account"@[0]);
    assert("read_omo_slim_local_file"@[0] != "copilot_is_authenticated"@[0]);
    assert("get_current_omo_slim_provider_id"@[0] != "remove_provider_from_live_config"@[0]);
    assert("get_current_omo_slim_provider_id"@[5] != "get_claude_common_config_snippet"@[5]);
    assert("get_current_omo_slim_provider_id"@[0] != "set_claude_common_config_snippet"@[0]);
    assert("disable_current_omo_slim"@[0] != "get_claude_config_status"@[0]);
    assert("disable_current_omo_slim"@[0] != "get_claude_plugin_status"@[0]);
    assert("disable_current_omo_slim"@[0] != "is_claude_plugin_applied"@[0]);
    assert("disable_current_omo_slim"@[0] != "upsert_claude_mcp_server"@[0]);
    assert("disable_current_omo_slim"@[1] != "delete_claude_mcp_server"@[1]);
    assert("disable_current_omo_slim"@[0] != "get_proxy_config_for_app"@[0]);
    assert("disable_current_omo_slim"@[0] != "get_pricing_model_source"@[0]);
    assert("disable_current_omo_slim"@[0] != "set_pricing_model_source"@[0]);
    assert("disable_current_omo_slim"@[0] != "get_usage_summary_by_app"@[0]);
    assert("disable_current_omo_slim"@[0] != "save_stream_check_config"@[0]);
    assert("disable_current_omo_slim"@[0] != "get_hermes_live_provider"@[0]);
    assert("disable_current_omo_slim"@[0] != "get_hermes_memory_limits"@[0]);
    assert("disable_current_omo_slim"@[0] != "auth_set_default_account"@[0]);
    assert("disable_current_omo_slim"@[0] != "copilot_poll_for_account"@[0]);
    assert("disable_current_omo_slim"@[0] != "copilot_is_authenticated"@[0]);
    assert("disable_current_omo_slim"@[0] != "read_omo_slim_local_file"@[0]);
    assert("read_workspace_file"@[0] != "add_custom_endpoint"@[0]);
    assert("read_workspace_file"@[0] != "get_app_config_path"@[0]);
    assert("read_workspace_file"@[0] != "update_proxy_config"@[0]);
    assert("read_workspace_file"@[0] != "get_provider_health"@[0]);
    assert("read_workspace_file"@[0] != "auth_remove_account"@[0]);
    assert("read_workspace_file"@[5] != "read_omo_local_file"@[5]);
    assert("read_workspace_file"@[0] != "disable_current_omo"@[0]);
    assert("write_workspace_file"@[0] != "get_current_provider"@[0]);
    assert("write_workspace_file"@[0] != "get_custom_endpoints"@[0]);
    assert("write_workspace_file"@[0] != "get_migration_result"@[0]);
    assert("write_workspace_file"@[0] != "get_rectifier_config"@[0]);
    assert("write_workspace_file"@[0] != "set_rectifier_config"@[0]);
    assert("write_workspace_file"@[0] != "get_optimizer_config"@[0]);
    assert("write_workspace_file"@[0] != "set_optimizer_config"@[0]);
    assert("write_workspace_file"@[0] != "validate_mcp_command"@[0]);
    assert("write_workspace_file"@[0] != "import_mcp_from_apps"@[0]);
    assert("write_workspace_file"@[0] != "update_model_pricing"@[0]);
    assert("write_workspace_file"@[0] != "delete_model_pricing"@[0]);
    assert("write_workspace_file"@[0] != "get_session_messages"@[0]);
    assert("write_workspace_file"@[0] != "get_global_proxy_url"@[0]);
    assert("write_workspace_file"@[0] != "set_global_proxy_url"@[0]);
    assert("list_daily_memory_files"@[0] != "get_universal_providers"@[0]);
    assert("list_daily_memory_files"@[0] != "sync_universal_provider"@[0]);
    assert("list_daily_memory_files"@[0] != "import_prompt_from_file"@[0]);
    assert("list_daily_memory_files"@[0] != "fetch_models_for_config"@[0]);
    assert("list_daily_memory_files"@[0] != "stop_proxy_with_restore"@[0]);
    assert("list_daily_memory_files"@[0] != "get_global_proxy_config"@[0]);
    assert("list_daily_memory_files"@[0] != "is_live_takeover_active"@[0]);
    assert("list_daily_memory_files"@[0] != "get_stream_check_config"@[0]);
    assert("list_daily_memory_files"@[1] != "launch_session_terminal"@[1]);
    assert("list_daily_memory_files"@[0] != "get_hermes_model_config"@[0]);
    assert("list_daily_memory_files"@[1] != "launch_hermes_dashboard"@[1]);
    assert("list_daily_memory_files"@[0] != "copilot_get_auth_status"@[0]);
    assert("read_daily_memory_file"@[2] != "remove_custom_endpoint"@[2]);
    assert("read_daily_memory_file"@[0] != "get_universal_provider"@[0]);
    assert("read_daily_memory_file"@[0] != "open_app_config_folder"@[0]);
    assert("read_daily_memory_file"@[0] != "copy_text_to_clipboard"@[0]);
    assert("read_daily_memory_file"@[0] != "open_provider_terminal"@[0]);
    assert("read_daily_memory_file"@[5] != "read_claude_mcp_config"@[5]);
    assert("read_daily_memory_file"@[0] != "get_subscription_quota"@[0]);
    assert("read_daily_memory_file"@[0] != "get_codex_oauth_models"@[0]);
    assert("read_daily_memory_file"@[0] != "get_usage_data_sources"@[0]);
    assert("read_daily_memory_file"@[0] != "copilot_remove_account"@[0]);
    assert("write_daily_memory_file"@[0] != "get_universal_providers"@[0]);
    assert("write_daily_memory_file"@[0] != "sync_universal_provider"@[0]);
    assert("write_daily_memory_file"@[0] != "import_prompt_from_file"@[0]);
    assert("write_daily_memory_file"@[0] != "fetch_models_for_config"@[0]);
    assert("write_daily_memory_file"@[0] != "stop_proxy_with_restore"@[0]);
    assert("write_daily_memory_file"@[0] != "get_global_proxy_config"@[0]);
    assert("write_daily_memory_file"@[0] != "is_live_takeover_active"@[0]);
    assert("write_daily_memory_file"@[0] != "get_stream_check_config"@[0]);
    assert("write_daily_memory_file"@[0] != "launch_session_terminal"@[0]);
    assert("write_daily_memory_file"@[0] != "get_hermes_model_config"@[0]);
    assert("write_daily_memory_file"@[0] != "launch_hermes_dashboard"@[0]);
    assert("write_daily_memory_file"@[0] != "copilot_get_auth_status"@[0]);
    assert("write_daily_memory_file"@[0] != "list_daily_memory_files"@[0]);
    assert("delete_daily_memory_file"@[0] != "get_claude_config_status"@[0]);
    assert("delete_daily_memory_file"@[0] != "get_claude_plugin_status"@[0]);
    assert("delete_daily_memory_file"@[0] != "is_claude_plugin_applied"@[0]);
    assert("delete_daily_memory_file"@[0] != "upsert_claude_mcp_server"@[0]);
    assert("delete_daily_memory_file"@[7] != "delete_claude_mcp_server"@[7]);
    assert("delete_daily_memory_file"@[0] != "get_proxy_config_for_app"@[0]);
    assert("delete_daily_memory_file"@[0] != "get_pricing_model_source"@[0]);
    assert("delete_daily_memory_file"@[0] != "set_pricing_model_source"@[0]);
    assert("delete_daily_memory_file"@[0] != "get_usage_summary_by_app"@[0]);
    assert("delete_daily_memory_file"@[0] != "save_stream_check_config"@[0]);
    assert("delete_daily_memory_file"@[0] != "get_hermes_live_provider"@[0]);
    assert("delete_daily_memory_file"@[0] != "get_hermes_memory_limits"@[0]);
    assert("delete_daily_memory_file"@[0] != "auth_set_default_account"@[0]);
    assert("delete_daily_memory_file"@[0] != "copilot_poll_for_account"@[0]);
    assert("delete_daily_memory_file"@[0] != "copilot_is_authenticated"@[0]);
    assert("delete_daily_memory_file"@[0] != "read_omo_slim_local_file"@[0]);
    assert("delete_daily_memory_file"@[1] != "disable_current_omo_slim"@[1]);
    assert("search_daily_memory_files"@[0] != "get_claude_desktop_status"@[0]);
    assert("search_daily_memory_files"@[0] != "update_endpoint_last_used"@[0]);
    assert("search_daily_memory_files"@[0] != "upsert_universal_provider"@[0]);
    assert("search_daily_memory_files"@[0] != "delete_universal_provider"@[0]);
    assert("search_daily_memory_files"@[0] != "get_common_config_snippet"@[0]);
    assert("search_daily_memory_files"@[2] != "set_common_config_snippet"@[2]);
    assert("search_daily_memory_files"@[0] != "read_claude_plugin_config"@[0]);
    assert("search_daily_memory_files"@[0] != "get_proxy_takeover_status"@[0]);
    assert("search_daily_memory_files"@[0] != "get_circuit_breaker_stats"@[0]);
    assert("search_daily_memory_files"@[0] != "get_auto_failover_enabled"@[0]);
    assert("search_daily_memory_files"@[2] != "set_auto_failover_enabled"@[2]);
    assert("search_daily_memory_files"@[2] != "set_hermes_memory_enabled"@[2]);
    assert("search_daily_memory_files"@[0] != "get_upstream_proxy_status"@[0]);
    assert("search_daily_memory_files"@[0] != "copilot_start_device_flow"@[0]);
    assert("open_workspace_directory"@[0] != "get_claude_config_status"@[0]);
    assert("open_workspace_directory"@[0] != "get_claude_plugin_status"@[0]);
    assert("open_workspace_directory"@[0] != "is_claude_plugin_applied"@[0]);
    assert("open_workspace_directory"@[0] != "upsert_claude_mcp_server"@[0]);
    assert("open_workspace_directory"@[0] != "delete_claude_mcp_server"@[0]);
    assert("open_workspace_directory"@[0] != "get_proxy_config_for_app"@[0]);
    assert("open_workspace_directory"@[0] != "get_pricing_model_source"@[0]);
    assert("open_workspace_directory"@[0] != "set_pricing_model_source"@[0]);
    assert("open_workspace_directory"@[0] != "get_usage_summary_by_app"@[0]);
    assert("open_workspace_directory"@[0] != "save_stream_check_config"@[0]);
    assert("open_workspace_directory"@[0] != "get_hermes_live_provider"@[0]);
    assert("open_workspace_directory"@[0] != "get_hermes_memory_limits"@[0]);
    assert("open_workspace_directory"@[0] != "auth_set_default_account"@[0]);
    assert("open_workspace_directory"@[0] != "copilot_poll_for_account"@[0]);
    assert("open_workspace_directory"@[0] != "copilot_is_authenticated"@[0]);
    assert("open_workspace_directory"@[0] != "read_omo_slim_local_file"@[0]);
    assert("open_workspace_directory"@[0] != "disable_current_omo_slim"@[0]);
    assert("open_workspace_directory"@[0] != "delete_daily_memory_file"@[0]);
    assert("enter_lightweight_mode"@[0] != "remove_custom_endpoint"@[0]);
    assert("enter_lightweight_mode"@[0] != "get_universal_provider"@[0]);
    assert("enter_lightweight_mode"@[0] != "open_app_config_folder"@[0]);
    assert("enter_lightweight_mode"@[0] != "copy_text_to_clipboard"@[0]);
    assert("enter_lightweight_mode"@[0] != "open_provider_terminal"@[0]);
    assert("enter_lightweight_mode"@[0] != "read_claude_mcp_config"@[0]);
    assert("enter_lightweight_mode"@[0] != "get_subscription_quota"@[0]);
    assert("enter_lightweight_mode"@[0] != "get_codex_oauth_models"@[0]);
    assert("enter_lightweight_mode"@[0] != "get_usage_data_sources"@[0]);
    assert("enter_lightweight_mode"@[0] != "copilot_remove_account"@[0]);
    assert("enter_lightweight_mode"@[0] != "read_daily_memory_file"@[0]);
    assert("exit_lightweight_mode"@[0] != "import_default_config"@[0]);
    assert("exit_lightweight_mode"@[0] != "get_claude_mcp_status"@[0]);
    assert("exit_lightweight_mode"@[0] != "get_codex_oauth_quota"@[0]);
    assert("exit_lightweight_mode"@[0] != "get_coding_plan_quota"@[0]);
    assert("exit_lightweight_mode"@[0] != "switch_proxy_provider"@[0]);
    assert("exit_lightweight_mode"@[0] != "reset_circuit_breaker"@[0]);
    assert("exit_lightweight_mode"@[0] != "add_to_failover_queue"@[0]);
    assert("exit_lightweight_mode"@[0] != "check_provider_limits"@[0]);
    assert("exit_lightweight_mode"@[0] != "stream_check_provider"@[0]);
    assert("exit_lightweight_mode"@[0] != "auth_poll_for_account"@[0]);
    assert("exit_lightweight_mode"@[0] != "copilot_poll_for_auth"@[0]);
    assert("exit_lightweight_mode"@[0] != "copilot_list_accounts"@[0]);
    assert("is_lightweight_mode"@[0] != "add_custom_endpoint"@[0]);
    assert("is_lightweight_mode"@[0] != "get_app_config_path"@[0]);
    assert("is_lightweight_mode"@[0] != "update_proxy_config"@[0]);
    assert("is_lightweight_mode"@[0] != "get_provider_health"@[0]);
    assert("is_lightweight_mode"@[0] != "auth_remove_account"@[0]);
    assert("is_lightweight_mode"@[0] != "read_omo_local_file"@[0]);
    assert("is_lightweight_mode"@[0] != "disable_current_omo"@[0]);
    assert("is_lightweight_mode"@[0] != "read_workspace_file"@[0]);
    assert("webdav_test_connection"@[0] != "remove_custom_endpoint"@[0]);
    assert("webdav_test_connection"@[0] != "get_universal_provider"@[0]);
    assert("webdav_test_connection"@[0] != "open_app_config_folder"@[0]);
    assert("webdav_test_connection"@[0] != "copy_text_to_clipboard"@[0]);
    assert("webdav_test_connection"@[0] != "open_provider_terminal"@[0]);
    assert("webdav_test_connection"@[0] != "read_claude_mcp_config"@[0]);
    assert("webdav_test_connection"@[0] != "get_subscription_quota"@[0]);
    assert("webdav_test_connection"@[0] != "get_codex_oauth_models"@[0]);
    assert("webdav_test_connection"@[0] != "get_usage_data_sources"@[0]);
    assert("webdav_test_connection"@[0] != "copilot_remove_account"@[0]);
    assert("webdav_test_connection"@[0] != "read_daily_memory_file"@[0]);
    assert("webdav_test_connection"@[0] != "enter_lightweight_mode"@[0]);
    assert("webdav_sync_upload"@[0] != "queryProviderUsage"@[0]);
    assert("webdav_sync_upload"@[0] != "test_api_endpoints"@[0]);
    assert("webdav_sync_upload"@[0] != "open_config_folder"@[0]);
    assert("webdav_sync_upload"@[0] != "start_proxy_server"@[0]);
    assert("webdav_sync_upload"@[0] != "get_failover_queue"@[0]);
    assert("webdav_sync_upload"@[0] != "get_provider_stats"@[0]);
    assert("webdav_sync_upload"@[0] != "get_request_detail"@[0]);
    assert("webdav_sync_upload"@[0] != "sync_session_usage"@[0]);
    assert("webdav_sync_upload"@[0] != "get_openclaw_tools"@[0]);
    assert("webdav_sync_upload"@[0] != "set_openclaw_tools"@[0]);
    assert("webdav_sync_upload"@[0] != "open_hermes_web_ui"@[0]);
    assert("webdav_sync_upload"@[0] != "scan_local_proxies"@[0]);
    assert("webdav_sync_upload"@[0] != "auth_list_accounts"@[0]);
    assert("webdav_sync_upload"@[0] != "copilot_get_models"@[0]);
    assert("webdav_sync_download"@[0] != "get_current_provider"@[0]);
    assert("webdav_sync_download"@[0] != "get_custom_endpoints"@[0]);
    assert("webdav_sync_download"@[0] != "get_migration_result"@[0]);
    assert("webdav_sync_download"@[0] != "get_rectifier_config"@[0]);
    assert("webdav_sync_download"@[0] != "set_rectifier_config"@[0]);
    assert("webdav_sync_download"@[0] != "get_optimizer_config"@[0]);
    assert("webdav_sync_download"@[0] != "set_optimizer_config"@[0]);
    assert("webdav_sync_download"@[0] != "validate_mcp_command"@[0]);
    assert("webdav_sync_download"@[0] != "import_mcp_from_apps"@[0]);
    assert("webdav_sync_download"@[0] != "update_model_pricing"@[0]);
    assert("webdav_sync_download"@[0] != "delete_model_pricing"@[0]);
    assert("webdav_sync_download"@[0] != "get_session_messages"@[0]);
    assert("webdav_sync_download"@[0] != "get_global_proxy_url"@[0]);
    assert("webdav_sync_download"@[0] != "set_global_proxy_url"@[0]);
    assert("webdav_sync_download"@[1] != "write_workspace_file"@[1]);
    assert("webdav_sync_save_settings"@[0] != "get_claude_desktop_status"@[0]);
    assert("webdav_sync_save_settings"@[0] != "update_endpoint_last_used"@[0]);
    assert("webdav_sync_save_settings"@[0] != "upsert_universal_provider"@[0]);
    assert("webdav_sync_save_settings"@[0] != "delete_universal_provider"@[0]);
    assert("webdav_sync_save_settings"@[0] != "get_common_config_snippet"@[0]);
    assert("webdav_sync_save_settings"@[0] != "set_common_config_snippet"@[0]);
    assert("webdav_sync_save_settings"@[0] != "read_claude_plugin_config"@[0]);
    assert("webdav_sync_save_settings"@[0] != "get_proxy_takeover_status"@[0]);
    assert("webdav_sync_save_settings"@[0] != "get_circuit_breaker_stats"@[0]);
    assert("webdav_sync_save_settings"@[0] != "get_auto_failover_enabled"@[0]);
    assert("webdav_sync_save_settings"@[0] != "set_auto_failover_enabled"@[0]);
    assert("webdav_sync_save_settings"@[0] != "set_hermes_memory_enabled"@[0]);
    assert("webdav_sync_save_settings"@[0] != "get_upstream_proxy_status"@[0]);
    assert("webdav_sync_save_settings"@[0] != "copilot_start_device_flow"@[0]);
    assert("webdav_sync_save_settings"@[0] != "search_daily_memory_files"@[0]);
    assert("webdav_sync_fetch_remote_info"@[0] != "extract_common_config_snippet"@[0]);
    assert("webdav_sync_fetch_remote_info"@[0] != "update_circuit_breaker_config"@[0]);
    assert("webdav_sync_fetch_remote_info"@[0] != "copilot_get_token_for_account"@[0]);
    assert("webdav_sync_fetch_remote_info"@[0] != "copilot_get_usage_for_account"@[0]);
}

/// The commands for import, export, backups, deep links and environment variables read these members of the request, in this
/// order, each as its kind says.
pub proof fn data_commands_read_their_members()
    ensures
        command_params("export_config_to_file"@) == Some(seq![Param { key: "filePath", kind: ParamKind::ReqStr }]),
        command_params("import_config_from_file"@) == Some(seq![Param { key: "filePath", kind: ParamKind::ReqStr }]),
        command_params("sync_current_providers_live"@) == Some(Seq::<Param>::empty()),
        command_params("save_file_dialog"@) == Some(seq![Param { key: "defaultName", kind: ParamKind::ReqStr }]),
        command_params("open_file_dialog"@) == Some(Seq::<Param>::empty()),
        command_params("open_zip_file_dialog"@) == Some(Seq::<Param>::empty()),
        command_params("create_db_backup"@) == Some(Seq::<Param>::empty()),
        command_params("list_db_backups"@) == Some(Seq::<Param>::empty()),
        command_params("restore_db_backup"@) == Some(seq![Param { key: "filename", kind: ParamKind::ReqStr }]),
        command_params("rename_db_backup"@) == Some(seq![Param { key: "oldFilename", kind: ParamKind::ReqStr }, Param { key: "newName", kind: ParamKind::ReqStr }]),
        command_params("delete_db_backup"@) == Some(seq![Param { key: "filename", kind: ParamKind::ReqStr }]),
        command_params("parse_deeplink"@) == Some(seq![Param { key: "url", kind: ParamKind::ReqStr }]),
        command_params("merge_deeplink_config"@) == Some(seq![Param { key: "request", kind: ParamKind::ReqTyped }]),
        command_params("import_from_deeplink"@) == Some(seq![Param { key: "request", kind: ParamKind::ReqTyped }]),
        command_params("import_from_deeplink_unified"@) == Some(seq![Param { key: "request", kind: ParamKind::ReqTyped }]),
        command_params("check_env_conflicts"@) == Some(seq![Param { key: "app", kind: ParamKind::ReqStr }]),
        command_params("delete_env_vars"@) == Some(seq![Param { key: "conflicts", kind: ParamKind::ReqTyped }]),
        command_params("restore_env_backup"@) == Some(seq![Param { key: "backupPath", kind: ParamKind::ReqStr }]),
{
    reveal_strlit("get_providers");
    assert("get_providers"@.len() == 13);
    reveal_strlit("get_current_provider");
    assert("get_current_provider"@.len() == 20);
    reveal_strlit("add_provider");
    assert("add_provider"@.len() == 12);
    reveal_strlit("update_provider");
    assert("update_provider"@.len() == 15);
    reveal_strlit("delete_provider");
    assert("delete_provider"@.len() == 15);
    reveal_strlit("remove_provider_from_live_config");
    assert("remove_provider_from_live_config"@.len() == 32);
    reveal_strlit("switch_provider");
    assert("switch_provider"@.len() == 15);
    reveal_strlit("import_default_config");
    assert("import_default_config"@.len() == 21);
    reveal_strlit("get_claude_desktop_status");
    assert("get_claude_desktop_status"@.len() == 25);
    reveal_strlit("get_claude_desktop_default_routes");
    assert("get_claude_desktop_default_routes"@.len() == 33);
    reveal_strlit("import_claude_desktop_providers_from_claude");
    assert("import_claude_desktop_providers_from_claude"@.len() == 43);
    reveal_strlit("queryProviderUsage");
    assert("queryProviderUsage"@.len() == 18);
    reveal_strlit("testUsageScript");
    assert("testUsageScript"@.len() == 15);
    reveal_strlit("read_live_provider_settings");
    assert("read_live_provider_settings"@.len() == 27);
    reveal_strlit("test_api_endpoints");
    assert("test_api_endpoints"@.len() == 18);
    reveal_strlit("get_custom_endpoints");
    assert("get_custom_endpoints"@.len() == 20);
    reveal_strlit("add_custom_endpoint");
    assert("add_custom_endpoint"@.len() == 19);
    reveal_strlit("remove_custom_endpoint");
    assert("remove_custom_endpoint"@.len() == 22);
    reveal_strlit("update_endpoint_last_used");
    assert("update_endpoint_last_used"@.len() == 25);
    reveal_strlit("update_providers_sort_order");
    assert("update_providers_sort_order"@.len() == 27);
    reveal_strlit("get_universal_providers");
    assert("get_universal_providers"@.len() == 23);
    reveal_strlit("get_universal_provider");
    assert("get_universal_provider"@.len() == 22);
    reveal_strlit("upsert_universal_provider");
    assert("upsert_universal_provider"@.len() == 25);
    reveal_strlit("delete_universal_provider");
    assert("delete_universal_provider"@.len() == 25);
    reveal_strlit("sync_universal_provider");
    assert("sync_universal_provider"@.len() == 23);
    reveal_strlit("import_opencode_providers_from_live");
    assert("import_opencode_providers_from_live"@.len() == 35);
    reveal_strlit("get_opencode_live_provider_ids");
    assert("get_opencode_live_provider_ids"@.len() == 30);
    reveal_strlit("get_claude_config_status");
    assert("get_claude_config_status"@.len() == 24);
    reveal_strlit("get_config_status");
    assert("get_config_status"@.len() == 17);
    reveal_strlit("get_claude_code_config_path");
    assert("get_claude_code_config_path"@.len() == 27);
    reveal_strlit("get_config_dir");
    assert("get_config_dir"@.len() == 14);
    reveal_strlit("open_config_folder");
    assert("open_config_folder"@.len() == 18);
    reveal_strlit("pick_directory");
    assert("pick_directory"@.len() == 14);
    reveal_strlit("open_external");
    assert("open_external"@.len() == 13);
    reveal_strlit("get_init_error");
    assert("get_init_error"@.len() == 14);
    reveal_strlit("get_migration_result");
    assert("get_migration_result"@.len() == 20);
    reveal_strlit("get_skills_migration_result");
    assert("get_skills_migration_result"@.len() == 27);
    reveal_strlit("get_app_config_path");
    assert("get_app_config_path"@.len() == 19);
    reveal_strlit("open_app_config_folder");
    assert("open_app_config_folder"@.len() == 22);
    reveal_strlit("get_claude_common_config_snippet");
    assert("get_claude_common_config_snippet"@.len() == 32);
    reveal_strlit("set_claude_common_config_snippet");
    assert("set_claude_common_config_snippet"@.len() == 32);
    reveal_strlit("get_common_config_snippet");
    assert("get_common_config_snippet"@.len() == 25);
    reveal_strlit("set_common_config_snippet");
    assert("set_common_config_snippet"@.len() == 25);
    reveal_strlit("extract_common_config_snippet");
    assert("extract_common_config_snippet"@.len() == 29);
    reveal_strlit("copy_text_to_clipboard");
    assert("copy_text_to_clipboard"@.len() == 22);
    reveal_strlit("check_for_updates");
    assert("check_for_updates"@.len() == 17);
    reveal_strlit("is_portable_mode");
    assert("is_portable_mode"@.len() == 16);
    reveal_strlit("get_tool_versions");
    assert("get_tool_versions"@.len() == 17);
    reveal_strlit("open_provider_terminal");
    assert("open_provider_terminal"@.len() == 22);
    reveal_strlit("set_window_theme");
    assert("set_window_theme"@.len() == 16);
    reveal_strlit("get_settings");
    assert("get_settings"@.len() == 12);
    reveal_strlit("save_settings");
    assert("save_settings"@.len() == 13);
    reveal_strlit("restart_app");
    assert("restart_app"@.len() == 11);
    reveal_strlit("get_app_config_dir_override");
    assert("get_app_config_dir_override"@.len() == 27);
    reveal_strlit("set_app_config_dir_override");
    assert("set_app_config_dir_override"@.len() == 27);
    reveal_strlit("get_rectifier_config");
    assert("get_rectifier_config"@.len() == 20);
    reveal_strlit("set_rectifier_config");
    assert("set_rectifier_config"@.len() == 20);
    reveal_strlit("get_optimizer_config");
    assert("get_optimizer_config"@.len() == 20);
    reveal_strlit("set_optimizer_config");
    assert("set_optimizer_config"@.len() == 20);
    reveal_strlit("get_copilot_optimizer_config");
    assert("get_copilot_optimizer_config"@.len() == 28);
    reveal_strlit("set_copilot_optimizer_config");
    assert("set_copilot_optimizer_config"@.len() == 28);
    reveal_strlit("get_log_config");
    assert("get_log_config"@.len() == 14);
    reveal_strlit("set_log_config");
    assert("set_log_config"@.len() == 14);
    reveal_strlit("get_claude_plugin_status");
    assert("get_claude_plugin_status"@.len() == 24);
    reveal_strlit("read_claude_plugin_config");
    assert("read_claude_plugin_config"@.len() == 25);
    reveal_strlit("apply_claude_plugin_config");
    assert("apply_claude_plugin_config"@.len() == 26);
    reveal_strlit("is_claude_plugin_applied");
    assert("is_claude_plugin_applied"@.len() == 24);
    reveal_strlit("apply_claude_onboarding_skip");
    assert("apply_claude_onboarding_skip"@.len() == 28);
    reveal_strlit("clear_claude_onboarding_skip");
    assert("clear_claude_onboarding_skip"@.len() == 28);
    reveal_strlit("get_claude_mcp_status");
    assert("get_claude_mcp_status"@.len() == 21);
    reveal_strlit("read_claude_mcp_config");
    assert("read_claude_mcp_config"@.len() == 22);
    reveal_strlit("upsert_claude_mcp_server");
    assert("upsert_claude_mcp_server"@.len() == 24);
    reveal_strlit("delete_claude_mcp_server");
    assert("delete_claude_mcp_server"@.len() == 24);
    reveal_strlit("validate_mcp_command");
    assert("validate_mcp_command"@.len() == 20);
    reveal_strlit("get_mcp_config");
    assert("get_mcp_config"@.len() == 14);
    reveal_strlit("upsert_mcp_server_in_config");
    assert("upsert_mcp_server_in_config"@.len() == 27);
    reveal_strlit("delete_mcp_server_in_config");
    assert("delete_mcp_server_in_config"@.len() == 27);
    reveal_strlit("set_mcp_enabled");
    assert("set_mcp_enabled"@.len() == 15);
    reveal_strlit("get_mcp_servers");
    assert("get_mcp_servers"@.len() == 15);
    reveal_strlit("upsert_mcp_server");
    assert("upsert_mcp_server"@.len() == 17);
    reveal_strlit("delete_mcp_server");
    assert("delete_mcp_server"@.len() == 17);
    reveal_strlit("toggle_mcp_app");
    assert("toggle_mcp_app"@.len() == 14);
    reveal_strlit("import_mcp_from_apps");
    assert("import_mcp_from_apps"@.len() == 20);
    reveal_strlit("get_prompts");
    assert("get_prompts"@.len() == 11);
    reveal_strlit("upsert_prompt");
    assert("upsert_prompt"@.len() == 13);
    reveal_strlit("delete_prompt");
    assert("delete_prompt"@.len() == 13);
    reveal_strlit("enable_prompt");
    assert("enable_prompt"@.len() == 13);
    reveal_strlit("import_prompt_from_file");
    assert("import_prompt_from_file"@.len() == 23);
    reveal_strlit("get_current_prompt_file_content");
    assert("get_current_prompt_file_content"@.len() == 31);
    reveal_strlit("fetch_models_for_config");
    assert("fetch_models_for_config"@.len() == 23);
    reveal_strlit("get_subscription_quota");
    assert("get_subscription_quota"@.len() == 22);
    reveal_strlit("get_codex_oauth_quota");
    assert("get_codex_oauth_quota"@.len() == 21);
    reveal_strlit("get_codex_oauth_models");
    assert("get_codex_oauth_models"@.len() == 22);
    reveal_strlit("get_coding_plan_quota");
    assert("get_coding_plan_quota"@.len() == 21);
    reveal_strlit("get_balance");
    assert("get_balance"@.len() == 11);
    reveal_strlit("start_proxy_server");
    assert("start_proxy_server"@.len() == 18);
    reveal_strlit("stop_proxy_server");
    assert("stop_proxy_server"@.len() == 17);
    reveal_strlit("stop_proxy_with_restore");
    assert("stop_proxy_with_restore"@.len() == 23);
    reveal_strlit("get_proxy_takeover_status");
    assert("get_proxy_takeover_status"@.len() == 25);
    reveal_strlit("set_proxy_takeover_for_app");
    assert("set_proxy_takeover_for_app"@.len() == 26);
    reveal_strlit("get_proxy_status");
    assert("get_proxy_status"@.len() == 16);
    reveal_strlit("get_proxy_config");
    assert("get_proxy_config"@.len() == 16);
    reveal_strlit("update_proxy_config");
    assert("update_proxy_config"@.len() == 19);
    reveal_strlit("get_global_proxy_config");
    assert("get_global_proxy_config"@.len() == 23);
    reveal_strlit("update_global_proxy_config");
    assert("update_global_proxy_config"@.len() == 26);
    reveal_strlit("get_proxy_config_for_app");
    assert("get_proxy_config_for_app"@.len() == 24);
    reveal_strlit("update_proxy_config_for_app");
    assert("update_proxy_config_for_app"@.len() == 27);
    reveal_strlit("get_default_cost_multiplier");
    assert("get_default_cost_multiplier"@.len() == 27);
    reveal_strlit("set_default_cost_multiplier");
    assert("set_default_cost_multiplier"@.len() == 27);
    reveal_strlit("get_pricing_model_source");
    assert("get_pricing_model_source"@.len() == 24);
    reveal_strlit("set_pricing_model_source");
    assert("set_pricing_model_source"@.len() == 24);
    reveal_strlit("is_proxy_running");
    assert("is_proxy_running"@.len() == 16);
    reveal_strlit("is_live_takeover_active");
    assert("is_live_takeover_active"@.len() == 23);
    reveal_strlit("switch_proxy_provider");
    assert("switch_proxy_provider"@.len() == 21);
    reveal_strlit("get_provider_health");
    assert("get_provider_health"@.len() == 19);
    reveal_strlit("reset_circuit_breaker");
    assert("reset_circuit_breaker"@.len() == 21);
    reveal_strlit("get_circuit_breaker_config");
    assert("get_circuit_breaker_config"@.len() == 26);
    reveal_strlit("update_circuit_breaker_config");
    assert("update_circuit_breaker_config"@.len() == 29);
    reveal_strlit("get_circuit_breaker_stats");
    assert("get_circuit_breaker_stats"@.len() == 25);
    reveal_strlit("get_failover_queue");
    assert("get_failover_queue"@.len() == 18);
    reveal_strlit("get_available_providers_for_failover");
    assert("get_available_providers_for_failover"@.len() == 36);
    reveal_strlit("add_to_failover_queue");
    assert("add_to_failover_queue"@.len() == 21);
    reveal_strlit("remove_from_failover_queue");
    assert("remove_from_failover_queue"@.len() == 26);
    reveal_strlit("get_auto_failover_enabled");
    assert("get_auto_failover_enabled"@.len() == 25);
    reveal_strlit("set_auto_failover_enabled");
    assert("set_auto_failover_enabled"@.len() == 25);
    reveal_strlit("get_usage_summary");
    assert("get_usage_summary"@.len() == 17);
    reveal_strlit("get_usage_summary_by_app");
    assert("get_usage_summary_by_app"@.len() == 24);
    reveal_strlit("get_usage_trends");
    assert("get_usage_trends"@.len() == 16);
    reveal_strlit("get_provider_stats");
    assert("get_provider_stats"@.len() == 18);
    reveal_strlit("get_model_stats");
    assert("get_model_stats"@.len() == 15);
    reveal_strlit("get_request_logs");
    assert("get_request_logs"@.len() == 16);
    reveal_strlit("get_request_detail");
    assert("get_request_detail"@.len() == 18);
    reveal_strlit("get_model_pricing");
    assert("get_model_pricing"@.len() == 17);
    reveal_strlit("update_model_pricing");
    assert("update_model_pricing"@.len() == 20);
    reveal_strlit("delete_model_pricing");
    assert("delete_model_pricing"@.len() == 20);
    reveal_strlit("check_provider_limits");
    assert("check_provider_limits"@.len() == 21);
    reveal_strlit("sync_session_usage");
    assert("sync_session_usage"@.len() == 18);
    reveal_strlit("get_usage_data_sources");
    assert("get_usage_data_sources"@.len() == 22);
    reveal_strlit("stream_check_provider");
    assert("stream_check_provider"@.len() == 21);
    reveal_strlit("stream_check_all_providers");
    assert("stream_check_all_providers"@.len() == 26);
    reveal_strlit("get_stream_check_config");
    assert("get_stream_check_config"@.len() == 23);
    reveal_strlit("save_stream_check_config");
    assert("save_stream_check_config"@.len() == 24);
    reveal_strlit("list_sessions");
    assert("list_sessions"@.len() == 13);
    reveal_strlit("get_session_messages");
    assert("get_session_messages"@.len() == 20);
    reveal_strlit("delete_session");
    assert("delete_session"@.len() == 14);
    reveal_strlit("delete_sessions");
    assert("delete_sessions"@.len() == 15);
    reveal_strlit("launch_session_terminal");
    assert("launch_session_terminal"@.len() == 23);
    reveal_strlit("import_openclaw_providers_from_live");
    assert("import_openclaw_providers_from_live"@.len() == 35);
    reveal_strlit("get_openclaw_live_provider_ids");
    assert("get_openclaw_live_provider_ids"@.len() == 30);
    reveal_strlit("get_openclaw_live_provider");
    assert("get_openclaw_live_provider"@.len() == 26);
    reveal_strlit("scan_openclaw_config_health");
    assert("scan_openclaw_config_health"@.len() == 27);
    reveal_strlit("get_openclaw_default_model");
    assert("get_openclaw_default_model"@.len() == 26);
    reveal_strlit("set_openclaw_default_model");
    assert("set_openclaw_default_model"@.len() == 26);
    reveal_strlit("get_openclaw_model_catalog");
    assert("get_openclaw_model_catalog"@.len() == 26);
    reveal_strlit("set_openclaw_model_catalog");
    assert("set_openclaw_model_catalog"@.len() == 26);
    reveal_strlit("get_openclaw_agents_defaults");
    assert("get_openclaw_agents_defaults"@.len() == 28);
    reveal_strlit("set_openclaw_agents_defaults");
    assert("set_openclaw_agents_defaults"@.len() == 28);
    reveal_strlit("get_openclaw_env");
    assert("get_openclaw_env"@.len() == 16);
    reveal_strlit("set_openclaw_env");
    assert("set_openclaw_env"@.len() == 16);
    reveal_strlit("get_openclaw_tools");
    assert("get_openclaw_tools"@.len() == 18);
    reveal_strlit("set_openclaw_tools");
    assert("set_openclaw_tools"@.len() == 18);
    reveal_strlit("import_hermes_providers_from_live");
    assert("import_hermes_providers_from_live"@.len() == 33);
    reveal_strlit("get_hermes_live_provider_ids");
    assert("get_hermes_live_provider_ids"@.len() == 28);
    reveal_strlit("get_hermes_live_provider");
    assert("get_hermes_live_provider"@.len() == 24);
    reveal_strlit("get_hermes_model_config");
    assert("get_hermes_model_config"@.len() == 23);
    reveal_strlit("open_hermes_web_ui");
    assert("open_hermes_web_ui"@.len() == 18);
    reveal_strlit("launch_hermes_dashboard");
    assert("launch_hermes_dashboard"@.len() == 23);
    reveal_strlit("get_hermes_memory");
    assert("get_hermes_memory"@.len() == 17);
    reveal_strlit("set_hermes_memory");
    assert("set_hermes_memory"@.len() == 17);
    reveal_strlit("get_hermes_memory_limits");
    assert("get_hermes_memory_limits"@.len() == 24);
    reveal_strlit("set_hermes_memory_enabled");
    assert("set_hermes_memory_enabled"@.len() == 25);
    reveal_strlit("get_global_proxy_url");
    assert("get_global_proxy_url"@.len() == 20);
    reveal_strlit("set_global_proxy_url");
    assert("set_global_proxy_url"@.len() == 20);
    reveal_strlit("test_proxy_url");
    assert("test_proxy_url"@.len() == 14);
    reveal_strlit("get_upstream_proxy_status");
    assert("get_upstream_proxy_status"@.len() == 25);
    reveal_strlit("scan_local_proxies");
    assert("scan_local_proxies"@.len() == 18);
    reveal_strlit("auth_start_login");
    assert("auth_start_login"@.len() == 16);
    reveal_strlit("auth_poll_for_account");
    assert("auth_poll_for_account"@.len() == 21);
    reveal_strlit("auth_list_accounts");
    assert("auth_list_accounts"@.len() == 18);
    reveal_strlit("auth_get_status");
    assert("auth_get_status"@.len() == 15);
    reveal_strlit("auth_remove_account");
    assert("auth_remove_account"@.len() == 19);
    reveal_strlit("auth_set_default_account");
    assert("auth_set_default_account"@.len() == 24);
    reveal_strlit("auth_logout");
    assert("auth_logout"@.len() == 11);
    reveal_strlit("copilot_start_device_flow");
    assert("copilot_start_device_flow"@.len() == 25);
    reveal_strlit("copilot_poll_for_auth");
    assert("copilot_poll_for_auth"@.len() == 21);
    reveal_strlit("copilot_poll_for_account");
    assert("copilot_poll_for_account"@.len() == 24);
    reveal_strlit("copilot_list_accounts");
    assert("copilot_list_accounts"@.len() == 21);
    reveal_strlit("copilot_remove_account");
    assert("copilot_remove_account"@.len() == 22);
    reveal_strlit("copilot_set_default_account");
    assert("copilot_set_default_account"@.len() == 27);
    reveal_strlit("copilot_get_auth_status");
    assert("copilot_get_auth_status"@.len() == 23);
    reveal_strlit("copilot_is_authenticated");
    assert("copilot_is_authenticated"@.len() == 24);
    reveal_strlit("copilot_logout");
    assert("copilot_logout"@.len() == 14);
    reveal_strlit("copilot_get_token");
    assert("copilot_get_token"@.len() == 17);
    reveal_strlit("copilot_get_token_for_account");
    assert("copilot_get_token_for_account"@.len() == 29);
    reveal_strlit("copilot_get_models");
    assert("copilot_get_models"@.len() == 18);
    reveal_strlit("copilot_get_models_for_account");
    assert("copilot_get_models_for_account"@.len() == 30);
    reveal_strlit("copilot_get_usage");
    assert("copilot_get_usage"@.len() == 17);
    reveal_strlit("copilot_get_usage_for_account");
    assert("copilot_get_usage_for_account"@.len() == 29);
    reveal_strlit("read_omo_local_file");
    assert("read_omo_local_file"@.len() == 19);
    reveal_strlit("get_current_omo_provider_id");
    assert("get_current_omo_provider_id"@.len() == 27);
    reveal_strlit("disable_current_omo");
    assert("disable_current_omo"@.len() == 19);
    reveal_strlit("read_omo_slim_local_file");
    assert("read_omo_slim_local_file"@.len() == 24);
    reveal_strlit("get_current_omo_slim_provider_id");
    assert("get_current_omo_slim_provider_id"@.len() == 32);
    reveal_strlit("disable_current_omo_slim");
    assert("disable_current_omo_slim"@.len() == 24);
    reveal_strlit("read_workspace_file");
    assert("read_workspace_file"@.len() == 19);
    reveal_strlit("write_workspace_file");
    assert("write_workspace_file"@.len() == 20);
    reveal_strlit("list_daily_memory_files");
    assert("list_daily_memory_files"@.len() == 23);
    reveal_strlit("read_daily_memory_file");
    assert("read_daily_memory_file"@.len() == 22);
    reveal_strlit("write_daily_memory_file");
    assert("write_daily_memory_file"@.len() == 23);
    reveal_strlit("delete_daily_memory_file");
    assert("delete_daily_memory_file"@.len() == 24);
    reveal_strlit("search_daily_memory_files");
    assert("search_daily_memory_files"@.len() == 25);
    reveal_strlit("open_workspace_directory");
    assert("open_workspace_directory"@.len() == 24);
    reveal_strlit("enter_lightweight_mode");
    assert("enter_lightweight_mode"@.len() == 22);
    reveal_strlit("exit_lightweight_mode");
    assert("exit_lightweight_mode"@.len() == 21);
    reveal_strlit("is_lightweight_mode");
    assert("is_lightweight_mode"@.len() == 19);
    reveal_strlit("webdav_test_connection");
    assert("webdav_test_connection"@.len() == 22);
    reveal_strlit("webdav_sync_upload");
    assert("webdav_sync_upload"@.len() == 18);
    reveal_strlit("webdav_sync_download");
    assert("webdav_sync_download"@.len() == 20);
    reveal_strlit("webdav_sync_save_settings");
    assert("webdav_sync_save_settings"@.len() == 25);
    reveal_strlit("webdav_sync_fetch_remote_info");
    assert("webdav_sync_fetch_remote_info"@.len() == 29);
    reveal_strlit("export_config_to_file");
    assert("export_config_to_file"@.len() == 21);
    reveal_strlit("import_config_from_file");
    assert("import_config_from_file"@.len() == 23);
    reveal_strlit("sync_current_providers_live");
    assert("sync_current_providers_live"@.len() == 27);
    reveal_strlit("save_file_dialog");
    assert("save_file_dialog"@.len() == 16);
    reveal_strlit("open_file_dialog");
    assert("open_file_dialog"@.len() == 16);
    reveal_strlit("open_zip_file_dialog");
    assert("open_zip_file_dialog"@.len() == 20);
    reveal_strlit("create_db_backup");
    assert("create_db_backup"@.len() == 16);
    reveal_strlit("list_db_backups");
    assert("list_db_backups"@.len() == 15);
    reveal_strlit("restore_db_backup");
    assert("restore_db_backup"@.len() == 17);
    reveal_strlit("rename_db_backup");
    assert("rename_db_backup"@.len() == 16);
    reveal_strlit("delete_db_backup");
    assert("delete_db_backup"@.len() == 16);
    reveal_strlit("parse_deeplink");
    assert("parse_deeplink"@.len() == 14);
    reveal_strlit("merge_deeplink_config");
    assert("merge_deeplink_config"@.len() == 21);
    reveal_strlit("import_from_deeplink");
    assert("import_from_deeplink"@.len() == 20);
    reveal_strlit("import_from_deeplink_unified");
    assert("import_from_deeplink_unified"@.len() == 28);
    reveal_strlit("check_env_conflicts");
    assert("check_env_conflicts"@.len() == 19);
    reveal_strlit("delete_env_vars");
    assert("delete_env_vars"@.len() == 15);
    reveal_strlit("restore_env_backup");
    assert("restore_env_backup"@.len() == 18);
    assert("export_config_to_file"@[0] != "import_default_config"@[0]);
    assert("export_config_to_file"@[0] != "get_claude_mcp_status"@[0]);
    assert("export_config_to_file"@[0] != "get_codex_oauth_quota"@[0]);
    assert("export_config_to_file"@[0] != "get_coding_plan_quota"@[0]);
    assert("export_config_to_file"@[0] != "switch_proxy_provider"@[0]);
    assert("export_config_to_file"@[0] != "reset_circuit_breaker"@[0]);
    assert("export_config_to_file"@[0] != "add_to_failover_queue"@[0]);
    assert("export_config_to_file"@[0] != "check_provider_limits"@[0]);
    assert("export_config_to_file"@[0] != "stream_check_provider"@[0]);
    assert("export_config_to_file"@[0] != "auth_poll_for_account"@[0]);
    assert("export_config_to_file"@[0] != "copilot_poll_for_auth"@[0]);
    assert("export_config_to_file"@[0] != "copilot_list_accounts"@[0]);
    assert("export_config_to_file"@[2] != "exit_lightweight_mode"@[2]);
    assert("import_config_from_file"@[0] != "get_universal_providers"@[0]);
    assert("import_config_from_file"@[0] != "sync_universal_provider"@[0]);
    assert("import_config_from_file"@[7] != "import_prompt_from_file"@[7]);
    assert("import_config_from_file"@[0] != "fetch_models_for_config"@[0]);
    assert("import_config_from_file"@[0] != "stop_proxy_with_restore"@[0]);
    assert("import_config_from_file"@[0] != "get_global_proxy_config"@[0]);
    assert("import_config_from_file"@[1] != "is_live_takeover_active"@[1]);
    assert("import_config_from_file"@[0] != "get_stream_check_config"@[0]);
    assert("import_config_from_file"@[0] != "launch_session_terminal"@[0]);
    assert("import_config_from_file"@[0] != "get_hermes_model_config"@[0]);
    assert("import_config_from_file"@[0] != "launch_hermes_dashboard"@[0]);
    assert("import_config_from_file"@[0] != "copilot_get_auth_status"@[0]);
    assert("import_config_from_file"@[0] != "list_daily_memory_files"@[0]);
    assert("import_config_from_file"@[0] != "write_daily_memory_file"@[0]);
    assert("sync_current_providers_live"@[0] != "read_live_provider_settings"@[0]);
    assert("sync_current_providers_live"@[0] != "update_providers_sort_order"@[0]);
    assert("sync_current_providers_live"@[0] != "get_claude_code_config_path"@[0]);
    assert("sync_current_providers_live"@[0] != "get_skills_migration_result"@[0]);
    assert("sync_current_providers_live"@[0] != "get_app_config_dir_override"@[0]);
    assert("sync_current_providers_live"@[1] != "set_app_config_dir_override"@[1]);
    assert("sync_current_providers_live"@[0] != "upsert_mcp_server_in_config"@[0]);
    assert("sync_current_providers_live"@[0] != "delete_mcp_server_in_config"@[0]);
    assert("sync_current_providers_live"@[0] != "update_proxy_config_for_app"@[0]);
    assert("sync_current_providers_live"@[0] != "get_default_cost_multiplier"@[0]);
    assert("sync_current_providers_live"@[1] != "set_default_cost_multiplier"@[1]);
    assert("sync_current_providers_live"@[1] != "scan_openclaw_config_health"@[1]);
    assert("sync_current_providers_live"@[0] != "copilot_set_default_account"@[0]);
    assert("sync_current_providers_live"@[0] != "get_current_omo_provider_id"@[0]);
    assert("save_file_dialog"@[0] != "is_portable_mode"@[0]);
    assert("save_file_dialog"@[1] != "set_window_theme"@[1]);
    assert("save_file_dialog"@[0] != "get_proxy_status"@[0]);
    assert("save_file_dialog"@[0] != "get_proxy_config"@[0]);
    assert("save_file_dialog"@[0] != "is_proxy_running"@[0]);
    assert("save_file_dialog"@[0] != "get_usage_trends"@[0]);
    assert("save_file_dialog"@[0] != "get_request_logs"@[0]);
    assert("save_file_dialog"@[0] != "get_openclaw_env"@[0]);
    assert("save_file_dialog"@[1] != "set_openclaw_env"@[1]);
    assert("save_file_dialog"@[0] != "auth_start_login"@[0]);
    assert("open_file_dialog"@[0] != "is_portable_mode"@[0]);
    assert("open_file_dialog"@[0] != "set_window_theme"@[0]);
    assert("open_file_dialog"@[0] != "get_proxy_status"@[0]);
    assert("open_file_dialog"@[0] != "get_proxy_config"@[0]);
    assert("open_file_dialog"@[0] != "is_proxy_running"@[0]);
    assert("open_file_dialog"@[0] != "get_usage_trends"@[0]);
    assert("open_file_dialog"@[0] != "get_request_logs"@[0]);
    assert("open_file_dialog"@[0] != "get_openclaw_env"@[0]);
    assert("open_file_dialog"@[0] != "set_openclaw_env"@[0]);
    assert("open_file_dialog"@[0] != "auth_start_login"@[0]);
    assert("open_file_dialog"@[0] != "save_file_dialog"@[0]);
    assert("open_zip_file_dialog"@[0] != "get_current_provider"@[0]);
    assert("open_zip_file_dialog"@[0] != "get_custom_endpoints"@[0]);
    assert("open_zip_file_dialog"@[0] != "get_migration_result"@[0]);
    assert("open_zip_file_dialog"@[0] != "get_rectifier_config"@[0]);
    assert("open_zip_file_dialog"@[0] != "set_rectifier_config"@[0]);
    assert("open_zip_file_dialog"@[0] != "get_optimizer_config"@[0]);
    assert("open_zip_file_dialog"@[0] != "set_optimizer_config"@[0]);
    assert("open_zip_file_dialog"@[0] != "validate_mcp_command"@[0]);
    assert("open_zip_file_dialog"@[0] != "import_mcp_from_apps"@[0]);
    assert("open_zip_file_dialog"@[0] != "update_model_pricing"@[0]);
    assert("open_zip_file_dialog"@[0] != "delete_model_pricing"@[0]);
    assert("open_zip_file_dialog"@[0] != "get_session_messages"@[0]);
    assert("open_zip_file_dialog"@[0] != "get_global_proxy_url"@[0]);
    assert("open_zip_file_dialog"@[0] != "set_global_proxy_url"@[0]);
    assert("open_zip_file_dialog"@[0] != "write_workspace_file"@[0]);
    assert("open_zip_file_dialog"@[0] != "webdav_sync_download"@[0]);
    assert("create_db_backup"@[0] != "is_portable_mode"@[0]);
    assert("create_db_backup"@[0] != "set_window_theme"@[0]);
    assert("create_db_backup"@[0] != "get_proxy_status"@[0]);
    assert("create_db_backup"@[0] != "get_proxy_config"@[0]);
    assert("create_db_backup"@[0] != "is_proxy_running"@[0]);
    assert("create_db_backup"@[0] != "get_usage_trends"@[0]);
    assert("create_db_backup"@[0] != "get_request_logs"@[0]);
    assert("create_db_backup"@[0] != "get_openclaw_env"@[0]);
    assert("create_db_backup"@[0] != "set_openclaw_env"@[0]);
    assert("create_db_backup"@[0] != "auth_start_login"@[0]);
    assert("create_db_backup"@[0] != "save_file_dialog"@[0]);
    assert("create_db_backup"@[0] != "open_file_dialog"@[0]);
    assert("list_db_backups"@[0] != "update_provider"@[0]);
    assert("list_db_backups"@[0] != "delete_provider"@[0]);
    assert("list_db_backups"@[0] != "switch_provider"@[0]);
    assert("list_db_backups"@[0] != "testUsageScript"@[0]);
    assert("list_db_backups"@[0] != "set_mcp_enabled"@[0]);
    assert("list_db_backups"@[0] != "get_mcp_servers"@[0]);
    assert("list_db_backups"@[0] != "get_model_stats"@[0]);
    assert("list_db_backups"@[0] != "delete_sessions"@[0]);
    assert("list_db_backups"@[0] != "auth_get_status"@[0]);
    assert("restore_db_backup"@[0] != "get_config_status"@[0]);
    assert("restore_db_backup"@[0] != "check_for_updates"@[0]);
    assert("restore_db_backup"@[0] != "get_tool_versions"@[0]);
    assert("restore_db_backup"@[0] != "upsert_mcp_server"@[0]);
    assert("restore_db_backup"@[0] != "delete_mcp_server"@[0]);
    assert("restore_db_backup"@[0] != "stop_proxy_server"@[0]);
    assert("restore_db_backup"@[0] != "get_usage_summary"@[0]);
    assert("restore_db_backup"@[0] != "get_model_pricing"@[0]);
    assert("restore_db_backup"@[0] != "get_hermes_memory"@[0]);
    assert("restore_db_backup"@[0] != "set_hermes_memory"@[0]);
    assert("restore_db_backup"@[0] != "copilot_get_token"@[0]);
    assert("restore_db_backup"@[0] != "copilot_get_usage"@[0]);
    assert("rename_db_backup"@[0] != "is_portable_mode"@[0]);
    assert("rename_db_backup"@[0] != "set_window_theme"@[0]);
    assert("rename_db_backup"@[0] != "get_proxy_status"@[0]);
    assert("rename_db_backup"@[0] != "get_proxy_config"@[0]);
    assert("rename_db_backup"@[0] != "is_proxy_running"@[0]);
    assert("rename_db_backup"@[0] != "get_usage_trends"@[0]);
    assert("rename_db_backup"@[0] != "get_request_logs"@[0]);
    assert("rename_db_backup"@[0] != "get_openclaw_env"@[0]);
    assert("rename_db_backup"@[0] != "set_openclaw_env"@[0]);
    assert("rename_db_backup"@[0] != "auth_start_login"@[0]);
    assert("rename_db_backup"@[0] != "save_file_dialog"@[0]);
    assert("rename_db_backup"@[0] != "open_file_dialog"@[0]);
    assert("rename_db_backup"@[0] != "create_db_backup"@[0]);
    assert("delete_db_backup"@[0] != "is_portable_mode"@[0]);
    assert("delete_db_backup"@[0] != "set_window_theme"@[0]);
    assert("delete_db_backup"@[0] != "get_proxy_status"@[0]);
    assert("delete_db_backup"@[0] != "get_proxy_config"@[0]);
    assert("delete_db_backup"@[0] != "is_proxy_running"@[0]);
    assert("delete_db_backup"@[0] != "get_usage_trends"@[0]);
    assert("delete_db_backup"@[0] != "get_request_logs"@[0]);
    assert("delete_db_backup"@[0] != "get_openclaw_env"@[0]);
    assert("delete_db_backup"@[0] != "set_openclaw_env"@[0]);
    assert("delete_db_backup"@[0] != "auth_start_login"@[0]);
    assert("delete_db_backup"@[0] != "save_file_dialog"@[0]);
    assert("delete_db_backup"@[0] != "open_file_dialog"@[0]);
    assert("delete_db_backup"@[0] != "create_db_backup"@[0]);
    assert("delete_db_backup"@[0] != "rename_db_backup"@[0]);
    assert("parse_deeplink"@[0] != "get_config_dir"@[0]);
    assert("parse_deeplink"@[1] != "pick_directory"@[1]);
    assert("parse_deeplink"@[0] != "get_init_error"@[0]);
    assert("parse_deeplink"@[0] != "get_log_config"@[0]);
    assert("parse_deeplink"@[0] != "set_log_config"@[0]);
    assert("parse_deeplink"@[0] != "get_mcp_config"@[0]);
    assert("parse_deeplink"@[0] != "toggle_mcp_app"@[0]);
    assert("parse_deeplink"@[0] != "delete_session"@[0]);
    assert("parse_deeplink"@[0] != "test_proxy_url"@[0]);
    assert("parse_deeplink"@[0] != "copilot_logout"@[0]);
    assert("merge_deeplink_config"@[0] != "import_default_config"@[0]);
    assert("merge_deeplink_config"@[0] != "get_claude_mcp_status"@[0]);
    assert("merge_deeplink_config"@[0] != "get_codex_oauth_quota"@[0]);
    assert("merge_deeplink_config"@[0] != "get_coding_plan_quota"@[0]);
    assert("merge_deeplink_config"@[0] != "switch_proxy_provider"@[0]);
    assert("merge_deeplink_config"@[0] != "reset_circuit_breaker"@[0]);
    assert("merge_deeplink_config"@[0] != "add_to_failover_queue"@[0]);
    assert("merge_deeplink_config"@[0] != "check_provider_limits"@[0]);
    assert("merge_deeplink_config"@[0] != "stream_check_provider"@[0]);
    assert("merge_deeplink_config"@[0] != "auth_poll_for_account"@[0]);
    assert("merge_deeplink_config"@[0] != "copilot_poll_for_auth"@[0]);
    assert("merge_deeplink_config"@[0] != "copilot_list_accounts"@[0]);
    assert("merge_deeplink_config"@[0] != "exit_lightweight_mode"@[0]);
    assert("merge_deeplink_config"@[0] != "export_config_to_file"@[0]);
    assert("import_from_deeplink"@[0] != "get_current_provider"@[0]);
    assert("import_from_deeplink"@[0] != "get_custom_endpoints"@[0]);
    assert("import_from_deeplink"@[0] != "get_migration_result"@[0]);
    assert("import_from_deeplink"@[0] != "get_rectifier_config"@[0]);
    assert("import_from_deeplink"@[0] != "set_rectifier_config"@[0]);
    assert("import_from_deeplink"@[0] != "get_optimizer_config"@[0]);
    assert("import_from_deeplink"@[0] != "set_optimizer_config"@[0]);
    assert("import_from_deeplink"@[0] != "validate_mcp_command"@[0]);
    assert("import_from_deeplink"@[7] != "import_mcp_from_apps"@[7]);
    assert("import_from_deeplink"@[0] != "update_model_pricing"@[0]);
    assert("import_from_deeplink"@[0] != "delete_model_pricing"@[0]);
    assert("import_from_deeplink"@[0] != "get_session_messages"@[0]);
    assert("import_from_deeplink"@[0] != "get_global_proxy_url"@[0]);
    assert("import_from_deeplink"@[0] != "set_global_proxy_url"@[0]);
    assert("import_from_deeplink"@[0] != "write_workspace_file"@[0]);
    assert("import_from_deeplink"@[0] != "webdav_sync_download"@[0]);
    assert("import_from_deeplink"@[0] != "open_zip_file_dialog"@[0]);
    assert("import_from_deeplink_unified"@[0] != "get_copilot_optimizer_config"@[0]);
    assert("import_from_deeplink_unified"@[0] != "set_copilot_optimizer_config"@[0]);
    assert("import_from_deeplink_unified"@[0] != "apply_claude_onboarding_skip"@[0]);
    assert("import_from_deeplink_unified"@[0] != "clear_claude_onboarding_skip"@[0]);
    assert("import_from_deeplink_unified"@[0] != "get_openclaw_agents_defaults"@[0]);
    assert("import_from_deeplink_unified"@[0] != "set_openclaw_agents_defaults"@[0]);
    assert("import_from_deeplink_unified"@[0] != "get_hermes_live_provider_ids"@[0]);
    assert("check_env_conflicts"@[0] != "add_custom_endpoint"@[0]);
    assert("check_env_conflicts"@[0] != "get_app_config_path"@[0]);
    assert("check_env_conflicts"@[0] != "update_proxy_config"@[0]);
    assert("check_env_conflicts"@[0] != "get_provider_health"@[0]);
    assert("check_env_conflicts"@[0] != "auth_remove_account"@[0]);
    assert("check_env_conflicts"@[0] != "read_omo_local_file"@[0]);
    assert("check_env_conflicts"@[0] != "disable_current_omo"@[0]);
    assert("check_env_conflicts"@[0] != "read_workspace_file"@[0]);
    assert("check_env_conflicts"@[0] != "is_lightweight_mode"@[0]);
    assert("delete_env_vars"@[0] != "update_provider"@[0]);
    assert("delete_env_vars"@[7] != "delete_provider"@[7]);
    assert("delete_env_vars"@[0] != "switch_provider"@[0]);
    assert("delete_env_vars"@[0] != "testUsageScript"@[0]);
    assert("delete_env_vars"@[0] != "set_mcp_enabled"@[0]);
    assert("delete_env_vars"@[0] != "get_mcp_servers"@[0]);
    assert("delete_env_vars"@[0] != "get_model_stats"@[0]);
    assert("delete_env_vars"@[7] != "delete_sessions"@[7]);
    assert("delete_env_vars"@[0] != "auth_get_status"@[0]);
    assert("delete_env_vars"@[0] != "list_db_backups"@[0]);
    assert("restore_env_backup"@[0] != "queryProviderUsage"@[0]);
    assert("restore_env_backup"@[0] != "test_api_endpoints"@[0]);
    assert("restore_env_backup"@[0] != "open_config_folder"@[0]);
    assert("restore_env_backup"@[0] != "start_proxy_server"@[0]);
    assert("restore_env_backup"@[0] != "get_failover_queue"@[0]);
    assert("restore_env_backup"@[0] != "get_provider_stats"@[0]);
    assert("restore_env_backup"@[0] != "get_request_detail"@[0]);
    assert("restore_env_backup"@[0] != "sync_session_usage"@[0]);
    assert("restore_env_backup"@[0] != "get_openclaw_tools"@[0]);
    assert("restore_env_backup"@[0] != "set_openclaw_tools"@[0]);
    assert("restore_env_backup"@[0] != "open_hermes_web_ui"@[0]);
    assert("restore_env_backup"@[0] != "scan_local_proxies"@[0]);
    assert("restore_env_backup"@[0] != "auth_list_accounts"@[0]);
    assert("restore_env_backup"@[0] != "copilot_get_models"@[0]);
    assert("restore_env_backup"@[0] != "webdav_sync_upload"@[0]);
}

/// The commands for skills and launch at login read these members of the request, in this
/// order, each as its kind says.
pub proof fn skill_commands_read_their_members()
    ensures
        command_params("get_installed_skills"@) == Some(Seq::<Param>::empty()),
        command_params("get_skill_backups"@) == Some(Seq::<Param>::empty()),
        command_params("delete_skill_backup"@) == Some(seq![Param { key: "backupId", kind: ParamKind::ReqStr }]),
        command_params("install_skill_unified"@) == Some(seq![Param { key: "skill", kind: ParamKind::ReqTyped }, Param { key: "currentApp", kind: ParamKind::ReqStr }]),
        command_params("uninstall_skill_unified"@) == Some(seq![Param { key: "id", kind: ParamKind::ReqStr }]),
        command_params("restore_skill_backup"@) == Some(seq![Param { key: "backupId", kind: ParamKind::ReqStr }, Param { key: "currentApp", kind: ParamKind::ReqStr }]),
        command_params("toggle_skill_app"@) == Some(seq![Param { key: "id", kind: ParamKind::ReqStr }, Param { key: "app", kind: ParamKind::ReqStr }, Param { key: "enabled", kind: ParamKind::ReqBool }]),
        command_params("scan_unmanaged_skills"@) == Some(Seq::<Param>::empty()),
        command_params("import_skills_from_apps"@) == Some(seq![Param { key: "imports", kind: ParamKind::ReqTyped }]),
        command_params("discover_available_skills"@) == Some(Seq::<Param>::empty()),
        command_params("check_skill_updates"@) == Some(Seq::<Param>::empty()),
        command_params("update_skill"@) == Some(seq![Param { key: "id", kind: ParamKind::ReqStr }]),
        command_params("migrate_skill_storage"@) == Some(seq![Param { key: "location", kind: ParamKind::ReqTyped }]),
        command_params("search_skills_sh"@) == Some(seq![Param { key: "query", kind: ParamKind::ReqStr }, Param { key: "limit", kind: ParamKind::ReqUsize }, Param { key: "offset", kind: ParamKind::ReqUsize }]),
        command_params("get_skills"@) == Some(Seq::<Param>::empty()),
        command_params("get_skills_for_app"@) == Some(seq![Param { key: "app", kind: ParamKind::ReqStr }]),
        command_params("install_skill"@) == Some(seq![Param { key: "directory", kind: ParamKind::ReqStr }]),
        command_params("install_skill_for_app"@) == Some(seq![Param { key: "app", kind: ParamKind::ReqStr }, Param { key: "directory", kind: ParamKind::ReqStr }]),
        command_params("uninstall_skill"@) == Some(seq![Param { key: "directory", kind: ParamKind::ReqStr }]),
        command_params("uninstall_skill_for_app"@) == Some(seq![Param { key: "app", kind: ParamKind::ReqStr }, Param { key: "directory", kind: ParamKind::ReqStr }]),
        command_params("get_skill_repos"@) == Some(Seq::<Param>::empty()),
        command_params("add_skill_repo"@) == Some(seq![Param { key: "repo", kind: ParamKind::ReqTyped }]),
        command_params("remove_skill_repo"@) == Some(seq![Param { key: "owner", kind: ParamKind::ReqStr }, Param { key: "name", kind: ParamKind::ReqStr }]),
        command_params("install_skills_from_zip"@) == Some(seq![Param { key: "filePath", kind: ParamKind::ReqStr }, Param { key: "currentApp", kind: ParamKind::ReqStr }]),
        command_params("set_auto_launch"@) == Some(seq![Param { key: "enabled", kind: ParamKind::ReqBool }]),
        command_params("get_auto_launch_status"@) == Some(Seq::<Param>::empty()),
{
    reveal_strlit("get_providers");
    assert("get_providers"@.len() == 13);
    reveal_strlit("get_current_provider");
    assert("get_current_provider"@.len() == 20);
    reveal_strlit("add_provider");
    assert("add_provider"@.len() == 12);
    reveal_strlit("update_provider");
    assert("update_provider"@.len() == 15);
    reveal_strlit("delete_provider");
    assert("delete_provider"@.len() == 15);
    reveal_strlit("remove_provider_from_live_config");
    assert("remove_provider_from_live_config"@.len() == 32);
    reveal_strlit("switch_provider");
    assert("switch_provider"@.len() == 15);
    reveal_strlit("import_default_config");
    assert("import_default_config"@.len() == 21);
    reveal_strlit("get_claude_desktop_status");
    assert("get_claude_desktop_status"@.len() == 25);
    reveal_strlit("get_claude_desktop_default_routes");
    assert("get_claude_desktop_default_routes"@.len() == 33);
    reveal_strlit("import_claude_desktop_providers_from_claude");
    assert("import_claude_desktop_providers_from_claude"@.len() == 43);
    reveal_strlit("queryProviderUsage");
    assert("queryProviderUsage"@.len() == 18);
    reveal_strlit("testUsageScript");
    assert("testUsageScript"@.len() == 15);
    reveal_strlit("read_live_provider_settings");
    assert("read_live_provider_settings"@.len() == 27);
    reveal_strlit("test_api_endpoints");
    assert("test_api_endpoints"@.len() == 18);
    reveal_strlit("get_custom_endpoints");
    assert("get_custom_endpoints"@.len() == 20);
    reveal_strlit("add_custom_endpoint");
    assert("add_custom_endpoint"@.len() == 19);
    reveal_strlit("remove_custom_endpoint");
    assert("remove_custom_endpoint"@.len() == 22);
    reveal_strlit("update_endpoint_last_used");
    assert("update_endpoint_last_used"@.len() == 25);
    reveal_strlit("update_providers_sort_order");
    assert("update_providers_sort_order"@.len() == 27);
    reveal_strlit("get_universal_providers");
    assert("get_universal_providers"@.len() == 23);
    reveal_strlit("get_universal_provider");
    assert("get_universal_provider"@.len() == 22);
    reveal_strlit("upsert_universal_provider");
    assert("upsert_universal_provider"@.len() == 25);
    reveal_strlit("delete_universal_provider");
    assert("delete_universal_provider"@.len() == 25);
    reveal_strlit("sync_universal_provider");
    assert("sync_universal_provider"@.len() == 23);
    reveal_strlit("import_opencode_providers_from_live");
    assert("import_opencode_providers_from_live"@.len() == 35);
    reveal_strlit("get_opencode_live_provider_ids");
    assert("get_opencode_live_provider_ids"@.len() == 30);
    reveal_strlit("get_claude_config_status");
    assert("get_claude_config_status"@.len() == 24);
    reveal_strlit("get_config_status");
    assert("get_config_status"@.len() == 17);
    reveal_strlit("get_claude_code_config_path");
    assert("get_claude_code_config_path"@.len() == 27);
    reveal_strlit("get_config_dir");
    assert("get_config_dir"@.len() == 14);
    reveal_strlit("open_config_folder");
    assert("open_config_folder"@.len() == 18);
    reveal_strlit("pick_directory");
    assert("pick_directory"@.len() == 14);
    reveal_strlit("open_external");
    assert("open_external"@.len() == 13);
    reveal_strlit("get_init_error");
    assert("get_init_error"@.len() == 14);
    reveal_strlit("get_migration_result");
    assert("get_migration_result"@.len() == 20);
    reveal_strlit("get_skills_migration_result");
    assert("get_skills_migration_result"@.len() == 27);
    reveal_strlit("get_app_config_path");
    assert("get_app_config_path"@.len() == 19);
    reveal_strlit("open_app_config_folder");
    assert("open_app_config_folder"@.len() == 22);
    reveal_strlit("get_claude_common_config_snippet");
    assert("get_claude_common_config_snippet"@.len() == 32);
    reveal_strlit("set_claude_common_config_snippet");
    assert("set_claude_common_config_snippet"@.len() == 32);
    reveal_strlit("get_common_config_snippet");
    assert("get_common_config_snippet"@.len() == 25);
    reveal_strlit("set_common_config_snippet");
    assert("set_common_config_snippet"@.len() == 25);
    reveal_strlit("extract_common_config_snippet");
    assert("extract_common_config_snippet"@.len() == 29);
    reveal_strlit("copy_text_to_clipboard");
    assert("copy_text_to_clipboard"@.len() == 22);
    reveal_strlit("check_for_updates");
    assert("check_for_updates"@.len() == 17);
    reveal_strlit("is_portable_mode");
    assert("is_portable_mode"@.len() == 16);
    reveal_strlit("get_tool_versions");
    assert("get_tool_versions"@.len() == 17);
    reveal_strlit("open_provider_terminal");
    assert("open_provider_terminal"@.len() == 22);
    reveal_strlit("set_window_theme");
    assert("set_window_theme"@.len() == 16);
    reveal_strlit("get_settings");
    assert("get_settings"@.len() == 12);
    reveal_strlit("save_settings");
    assert("save_settings"@.len() == 13);
    reveal_strlit("restart_app");
    assert("restart_app"@.len() == 11);
    reveal_strlit("get_app_config_dir_override");
    assert("get_app_config_dir_override"@.len() == 27);
    reveal_strlit("set_app_config_dir_override");
    assert("set_app_config_dir_override"@.len() == 27);
    reveal_strlit("get_rectifier_config");
    assert("get_rectifier_config"@.len() == 20);
    reveal_strlit("set_rectifier_config");
    assert("set_rectifier_config"@.len() == 20);
    reveal_strlit("get_optimizer_config");
    assert("get_optimizer_config"@.len() == 20);
    reveal_strlit("set_optimizer_config");
    assert("set_optimizer_config"@.len() == 20);
    reveal_strlit("get_copilot_optimizer_config");
    assert("get_copilot_optimizer_config"@.len() == 28);
    reveal_strlit("set_copilot_optimizer_config");
    assert("set_copilot_optimizer_config"@.len() == 28);
    reveal_strlit("get_log_config");
    assert("get_log_config"@.len() == 14);
    reveal_strlit("set_log_config");
    assert("set_log_config"@.len() == 14);
    reveal_strlit("get_claude_plugin_status");
    assert("get_claude_plugin_status"@.len() == 24);
    reveal_strlit("read_claude_plugin_config");
    assert("read_claude_plugin_config"@.len() == 25);
    reveal_strlit("apply_claude_plugin_config");
    assert("apply_claude_plugin_config"@.len() == 26);
    reveal_strlit("is_claude_plugin_applied");
    assert("is_claude_plugin_applied"@.len() == 24);
    reveal_strlit("apply_claude_onboarding_skip");
    assert("apply_claude_onboarding_skip"@.len() == 28);
    reveal_strlit("clear_claude_onboarding_skip");
    assert("clear_claude_onboarding_skip"@.len() == 28);
    reveal_strlit("get_claude_mcp_status");
    assert("get_claude_mcp_status"@.len() == 21);
    reveal_strlit("read_claude_mcp_config");
    assert("read_claude_mcp_config"@.len() == 22);
    reveal_strlit("upsert_claude_mcp_server");
    assert("upsert_claude_mcp_server"@.len() == 24);
    reveal_strlit("delete_claude_mcp_server");
    assert("delete_claude_mcp_server"@.len() == 24);
    reveal_strlit("validate_mcp_command");
    assert("validate_mcp_command"@.len() == 20);
    reveal_strlit("get_mcp_config");
    assert("get_mcp_config"@.len() == 14);
    reveal_strlit("upsert_mcp_server_in_config");
    assert("upsert_mcp_server_in_config"@.len() == 27);
    reveal_strlit("delete_mcp_server_in_config");
    assert("delete_mcp_server_in_config"@.len() == 27);
    reveal_strlit("set_mcp_enabled");
    assert("set_mcp_enabled"@.len() == 15);
    reveal_strlit("get_mcp_servers");
    assert("get_mcp_servers"@.len() == 15);
    reveal_strlit("upsert_mcp_server");
    assert("upsert_mcp_server"@.len() == 17);
    reveal_strlit("delete_mcp_server");
    assert("delete_mcp_server"@.len() == 17);
    reveal_strlit("toggle_mcp_app");
    assert("toggle_mcp_app"@.len() == 14);
    reveal_strlit("import_mcp_from_apps");
    assert("import_mcp_from_apps"@.len() == 20);
    reveal_strlit("get_prompts");
    assert("get_prompts"@.len() == 11);
    reveal_strlit("upsert_prompt");
    assert("upsert_prompt"@.len() == 13);
    reveal_strlit("delete_prompt");
    assert("delete_prompt"@.len() == 13);
    reveal_strlit("enable_prompt");
    assert("enable_prompt"@.len() == 13);
    reveal_strlit("import_prompt_from_file");
    assert("import_prompt_from_file"@.len() == 23);
    reveal_strlit("get_current_prompt_file_content");
    assert("get_current_prompt_file_content"@.len() == 31);
    reveal_strlit("fetch_models_for_config");
    assert("fetch_models_for_config"@.len() == 23);
    reveal_strlit("get_subscription_quota");
    assert("get_subscription_quota"@.len() == 22);
    reveal_strlit("get_codex_oauth_quota");
    assert("get_codex_oauth_quota"@.len() == 21);
    reveal_strlit("get_codex_oauth_models");
    assert("get_codex_oauth_models"@.len() == 22);
    reveal_strlit("get_coding_plan_quota");
    assert("get_coding_plan_quota"@.len() == 21);
    reveal_strlit("get_balance");
    assert("get_balance"@.len() == 11);
    reveal_strlit("start_proxy_server");
    assert("start_proxy_server"@.len() == 18);
    reveal_strlit("stop_proxy_server");
    assert("stop_proxy_server"@.len() == 17);
    reveal_strlit("stop_proxy_with_restore");
    assert("stop_proxy_with_restore"@.len() == 23);
    reveal_strlit("get_proxy_takeover_status");
    assert("get_proxy_takeover_status"@.len() == 25);
    reveal_strlit("set_proxy_takeover_for_app");
    assert("set_proxy_takeover_for_app"@.len() == 26);
    reveal_strlit("get_proxy_status");
    assert("get_proxy_status"@.len() == 16);
    reveal_strlit("get_proxy_config");
    assert("get_proxy_config"@.len() == 16);
    reveal_strlit("update_proxy_config");
    assert("update_proxy_config"@.len() == 19);
    reveal_strlit("get_global_proxy_config");
    assert("get_global_proxy_config"@.len() == 23);
    reveal_strlit("update_global_proxy_config");
    assert("update_global_proxy_config"@.len() == 26);
    reveal_strlit("get_proxy_config_for_app");
    assert("get_proxy_config_for_app"@.len() == 24);
    reveal_strlit("update_proxy_config_for_app");
    assert("update_proxy_config_for_app"@.len() == 27);
    reveal_strlit("get_default_cost_multiplier");
    assert("get_default_cost_multiplier"@.len() == 27);
    reveal_strlit("set_default_cost_multiplier");
    assert("set_default_cost_multiplier"@.len() == 27);
    reveal_strlit("get_pricing_model_source");
    assert("get_pricing_model_source"@.len() == 24);
    reveal_strlit("set_pricing_model_source");
    assert("set_pricing_model_source"@.len() == 24);
    reveal_strlit("is_proxy_running");
    assert("is_proxy_running"@.len() == 16);
    reveal_strlit("is_live_takeover_active");
    assert("is_live_takeover_active"@.len() == 23);
    reveal_strlit("switch_proxy_provider");
    assert("switch_proxy_provider"@.len() == 21);
    reveal_strlit("get_provider_health");
    assert("get_provider_health"@.len() == 19);
    reveal_strlit("reset_circuit_breaker");
    assert("reset_circuit_breaker"@.len() == 21);
    reveal_strlit("get_circuit_breaker_config");
    assert("get_circuit_breaker_config"@.len() == 26);
    reveal_strlit("update_circuit_breaker_config");
    assert("update_circuit_breaker_config"@.len() == 29);
    reveal_strlit("get_circuit_breaker_stats");
    assert("get_circuit_breaker_stats"@.len() == 25);
    reveal_strlit("get_failover_queue");
    assert("get_failover_queue"@.len() == 18);
    reveal_strlit("get_available_providers_for_failover");
    assert("get_available_providers_for_failover"@.len() == 36);
    reveal_strlit("add_to_failover_queue");
    assert("add_to_failover_queue"@.len() == 21);
    reveal_strlit("remove_from_failover_queue");
    assert("remove_from_failover_queue"@.len() == 26);
    reveal_strlit("get_auto_failover_enabled");
    assert("get_auto_failover_enabled"@.len() == 25);
    reveal_strlit("set_auto_failover_enabled");
    assert("set_auto_failover_enabled"@.len() == 25);
    reveal_strlit("get_usage_summary");
    assert("get_usage_summary"@.len() == 17);
    reveal_strlit("get_usage_summary_by_app");
    assert("get_usage_summary_by_app"@.len() == 24);
    reveal_strlit("get_usage_trends");
    assert("get_usage_trends"@.len() == 16);
    reveal_strlit("get_provider_stats");
    assert("get_provider_stats"@.len() == 18);
    reveal_strlit("get_model_stats");
    assert("get_model_stats"@.len() == 15);
    reveal_strlit("get_request_logs");
    assert("get_request_logs"@.len() == 16);
    reveal_strlit("get_request_detail");
    assert("get_request_detail"@.len() == 18);
    reveal_strlit("get_model_pricing");
    assert("get_model_pricing"@.len() == 17);
    reveal_strlit("update_model_pricing");
    assert("update_model_pricing"@.len() == 20);
    reveal_strlit("delete_model_pricing");
    assert("delete_model_pricing"@.len() == 20);
    reveal_strlit("check_provider_limits");
    assert("check_provider_limits"@.len() == 21);
    reveal_strlit("sync_session_usage");
    assert("sync_session_usage"@.len() == 18);
    reveal_strlit("get_usage_data_sources");
    assert("get_usage_data_sources"@.len() == 22);
    reveal_strlit("stream_check_provider");
    assert("stream_check_provider"@.len() == 21);
    reveal_strlit("stream_check_all_providers");
    assert("stream_check_all_providers"@.len() == 26);
    reveal_strlit("get_stream_check_config");
    assert("get_stream_check_config"@.len() == 23);
    reveal_strlit("save_stream_check_config");
    assert("save_stream_check_config"@.len() == 24);
    reveal_strlit("list_sessions");
    assert("list_sessions"@.len() == 13);
    reveal_strlit("get_session_messages");
    assert("get_session_messages"@.len() == 20);
    reveal_strlit("delete_session");
    assert("delete_session"@.len() == 14);
    reveal_strlit("delete_sessions");
    assert("delete_sessions"@.len() == 15);
    reveal_strlit("launch_session_terminal");
    assert("launch_session_terminal"@.len() == 23);
    reveal_strlit("import_openclaw_providers_from_live");
    assert("import_openclaw_providers_from_live"@.len() == 35);
    reveal_strlit("get_openclaw_live_provider_ids");
    assert("get_openclaw_live_provider_ids"@.len() == 30);
    reveal_strlit("get_openclaw_live_provider");
    assert("get_openclaw_live_provider"@.len() == 26);
    reveal_strlit("scan_openclaw_config_health");
    assert("scan_openclaw_config_health"@.len() == 27);
    reveal_strlit("get_openclaw_default_model");
    assert("get_openclaw_default_model"@.len() == 26);
    reveal_strlit("set_openclaw_default_model");
    assert("set_openclaw_default_model"@.len() == 26);
    reveal_strlit("get_openclaw_model_catalog");
    assert("get_openclaw_model_catalog"@.len() == 26);
    reveal_strlit("set_openclaw_model_catalog");
    assert("set_openclaw_model_catalog"@.len() == 26);
    reveal_strlit("get_openclaw_agents_defaults");
    assert("get_openclaw_agents_defaults"@.len() == 28);
    reveal_strlit("set_openclaw_agents_defaults");
    assert("set_openclaw_agents_defaults"@.len() == 28);
    reveal_strlit("get_openclaw_env");
    assert("get_openclaw_env"@.len() == 16);
    reveal_strlit("set_openclaw_env");
    assert("set_openclaw_env"@.len() == 16);
    reveal_strlit("get_openclaw_tools");
    assert("get_openclaw_tools"@.len() == 18);
    reveal_strlit("set_openclaw_tools");
    assert("set_openclaw_tools"@.len() == 18);
    reveal_strlit("import_hermes_providers_from_live");
    assert("import_hermes_providers_from_live"@.len() == 33);
    reveal_strlit("get_hermes_live_provider_ids");
    assert("get_hermes_live_provider_ids"@.len() == 28);
    reveal_strlit("get_hermes_live_provider");
    assert("get_hermes_live_provider"@.len() == 24);
    reveal_strlit("get_hermes_model_config");
    assert("get_hermes_model_config"@.len() == 23);
    reveal_strlit("open_hermes_web_ui");
    assert("open_hermes_web_ui"@.len() == 18);
    reveal_strlit("launch_hermes_dashboard");
    assert("launch_hermes_dashboard"@.len() == 23);
    reveal_strlit("get_hermes_memory");
    assert("get_hermes_memory"@.len() == 17);
    reveal_strlit("set_hermes_memory");
    assert("set_hermes_memory"@.len() == 17);
    reveal_strlit("get_hermes_memory_limits");
    assert("get_hermes_memory_limits"@.len() == 24);
    reveal_strlit("set_hermes_memory_enabled");
    assert("set_hermes_memory_enabled"@.len() == 25);
    reveal_strlit("get_global_proxy_url");
    assert("get_global_proxy_url"@.len() == 20);
    reveal_strlit("set_global_proxy_url");
    assert("set_global_proxy_url"@.len() == 20);
    reveal_strlit("test_proxy_url");
    assert("test_proxy_url"@.len() == 14);
    reveal_strlit("get_upstream_proxy_status");
    assert("get_upstream_proxy_status"@.len() == 25);
    reveal_strlit("scan_local_proxies");
    assert("scan_local_proxies"@.len() == 18);
    reveal_strlit("auth_start_login");
    assert("auth_start_login"@.len() == 16);
    reveal_strlit("auth_poll_for_account");
    assert("auth_poll_for_account"@.len() == 21);
    reveal_strlit("auth_list_accounts");
    assert("auth_list_accounts"@.len() == 18);
    reveal_strlit("auth_get_status");
    assert("auth_get_status"@.len() == 15);
    reveal_strlit("auth_remove_account");
    assert("auth_remove_account"@.len() == 19);
    reveal_strlit("auth_set_default_account");
    assert("auth_set_default_account"@.len() == 24);
    reveal_strlit("auth_logout");
    assert("auth_logout"@.len() == 11);
    reveal_strlit("copilot_start_device_flow");
    assert("copilot_start_device_flow"@.len() == 25);
    reveal_strlit("copilot_poll_for_auth");
    assert("copilot_poll_for_auth"@.len() == 21);
    reveal_strlit("copilot_poll_for_account");
    assert("copilot_poll_for_account"@.len() == 24);
    reveal_strlit("copilot_list_accounts");
    assert("copilot_list_accounts"@.len() == 21);
    reveal_strlit("copilot_remove_account");
    assert("copilot_remove_account"@.len() == 22);
    reveal_strlit("copilot_set_default_account");
    assert("copilot_set_default_account"@.len() == 27);
    reveal_strlit("copilot_get_auth_status");
    assert("copilot_get_auth_status"@.len() == 23);
    reveal_strlit("copilot_is_authenticated");
    assert("copilot_is_authenticated"@.len() == 24);
    reveal_strlit("copilot_logout");
    assert("copilot_logout"@.len() == 14);
    reveal_strlit("copilot_get_token");
    assert("copilot_get_token"@.len() == 17);
    reveal_strlit("copilot_get_token_for_account");
    assert("copilot_get_token_for_account"@.len() == 29);
    reveal_strlit("copilot_get_models");
    assert("copilot_get_models"@.len() == 18);
    reveal_strlit("copilot_get_models_for_account");
    assert("copilot_get_models_for_account"@.len() == 30);
    reveal_strlit("copilot_get_usage");
    assert("copilot_get_usage"@.len() == 17);
    reveal_strlit("copilot_get_usage_for_account");
    assert("copilot_get_usage_for_account"@.len() == 29);
    reveal_strlit("read_omo_local_file");
    assert("read_omo_local_file"@.len() == 19);
    reveal_strlit("get_current_omo_provider_id");
    assert("get_current_omo_provider_id"@.len() == 27);
    reveal_strlit("disable_current_omo");
    assert("disable_current_omo"@.len() == 19);
    reveal_strlit("read_omo_slim_local_file");
    assert("read_omo_slim_local_file"@.len() == 24);
    reveal_strlit("get_current_omo_slim_provider_id");
    assert("get_current_omo_slim_provider_id"@.len() == 32);
    reveal_strlit("disable_current_omo_slim");
    assert("disable_current_omo_slim"@.len() == 24);
    reveal_strlit("read_workspace_file");
    assert("read_workspace_file"@.len() == 19);
    reveal_strlit("write_workspace_file");
    assert("write_workspace_file"@.len() == 20);
    reveal_strlit("list_daily_memory_files");
    assert("list_daily_memory_files"@.len() == 23);
    reveal_strlit("read_daily_memory_file");
    assert("read_daily_memory_file"@.len() == 22);
    reveal_strlit("write_daily_memory_file");
    assert("write_daily_memory_file"@.len() == 23);
    reveal_strlit("delete_daily_memory_file");
    assert("delete_daily_memory_file"@.len() == 24);
    reveal_strlit("search_daily_memory_files");
    assert("search_daily_memory_files"@.len() == 25);
    reveal_strlit("open_workspace_directory");
    assert("open_workspace_directory"@.len() == 24);
    reveal_strlit("enter_lightweight_mode");
    assert("enter_lightweight_mode"@.len() == 22);
    reveal_strlit("exit_lightweight_mode");
    assert("exit_lightweight_mode"@.len() == 21);
    reveal_strlit("is_lightweight_mode");
    assert("is_lightweight_mode"@.len() == 19);
    reveal_strlit("webdav_test_connection");
    assert("webdav_test_connection"@.len() == 22);
    reveal_strlit("webdav_sync_upload");
    assert("webdav_sync_upload"@.len() == 18);
    reveal_strlit("webdav_sync_download");
    assert("webdav_sync_download"@.len() == 20);
    reveal_strlit("webdav_sync_save_settings");
    assert("webdav_sync_save_settings"@.len() == 25);
    reveal_strlit("webdav_sync_fetch_remote_info");
    assert("webdav_sync_fetch_remote_info"@.len() == 29);
    reveal_strlit("export_config_to_file");
    assert("export_config_to_file"@.len() == 21);
    reveal_strlit("import_config_from_file");
    assert("import_config_from_file"@.len() == 23);
    reveal_strlit("sync_current_providers_live");
    assert("sync_current_providers_live"@.len() == 27);
    reveal_strlit("save_file_dialog");
    assert("save_file_dialog"@.len() == 16);
    reveal_strlit("open_file_dialog");
    assert("open_file_dialog"@.len() == 16);
    reveal_strlit("open_zip_file_dialog");
    assert("open_zip_file_dialog"@.len() == 20);
    reveal_strlit("create_db_backup");
    assert("create_db_backup"@.len() == 16);
    reveal_strlit("list_db_backups");
    assert("list_db_backups"@.len() == 15);
    reveal_strlit("restore_db_backup");
    assert("restore_db_backup"@.len() == 17);
    reveal_strlit("rename_db_backup");
    assert("rename_db_backup"@.len() == 16);
    reveal_strlit("delete_db_backup");
    assert("delete_db_backup"@.len() == 16);
    reveal_strlit("parse_deeplink");
    assert("parse_deeplink"@.len() == 14);
    reveal_strlit("merge_deeplink_config");
    assert("merge_deeplink_config"@.len() == 21);
    reveal_strlit("import_from_deeplink");
    assert("import_from_deeplink"@.len() == 20);
    reveal_strlit("import_from_deeplink_unified");
    assert("import_from_deeplink_unified"@.len() == 28);
    reveal_strlit("check_env_conflicts");
    assert("check_env_conflicts"@.len() == 19);
    reveal_strlit("delete_env_vars");
    assert("delete_env_vars"@.len() == 15);
    reveal_strlit("restore_env_backup");
    assert("restore_env_backup"@.len() == 18);
    reveal_strlit("get_installed_skills");
    assert("get_installed_skills"@.len() == 20);
    reveal_strlit("get_skill_backups");
    assert("get_skill_backups"@.len() == 17);
    reveal_strlit("delete_skill_backup");
    assert("delete_skill_backup"@.len() == 19);
    reveal_strlit("install_skill_unified");
    assert("install_skill_unified"@.len() == 21);
    reveal_strlit("uninstall_skill_unified");
    assert("uninstall_skill_unified"@.len() == 23);
    reveal_strlit("restore_skill_backup");
    assert("restore_skill_backup"@.len() == 20);
    reveal_strlit("toggle_skill_app");
    assert("toggle_skill_app"@.len() == 16);
    reveal_strlit("scan_unmanaged_skills");
    assert("scan_unmanaged_skills"@.len() == 21);
    reveal_strlit("import_skills_from_apps");
    assert("import_skills_from_apps"@.len() == 23);
    reveal_strlit("discover_available_skills");
    assert("discover_available_skills"@.len() == 25);
    reveal_strlit("check_skill_updates");
    assert("check_skill_updates"@.len() == 19);
    reveal_strlit("update_skill");
    assert("update_skill"@.len() == 12);
    reveal_strlit("migrate_skill_storage");
    assert("migrate_skill_storage"@.len() == 21);
    reveal_strlit("search_skills_sh");
    assert("search_skills_sh"@.len() == 16);
    reveal_strlit("get_skills");
    assert("get_skills"@.len() == 10);
    reveal_strlit("get_skills_for_app");
    assert("get_skills_for_app"@.len() == 18);
    reveal_strlit("install_skill");
    assert("install_skill"@.len() == 13);
    reveal_strlit("install_skill_for_app");
    assert("install_skill_for_app"@.len() == 21);
    reveal_strlit("uninstall_skill");
    assert("uninstall_skill"@.len() == 15);
    reveal_strlit("uninstall_skill_for_app");
    assert("uninstall_skill_for_app"@.len() == 23);
    reveal_strlit("get_skill_repos");
    assert("get_skill_repos"@.len() == 15);
    reveal_strlit("add_skill_repo");
    assert("add_skill_repo"@.len() == 14);
    reveal_strlit("remove_skill_repo");
    assert("remove_skill_repo"@.len() == 17);
    reveal_strlit("install_skills_from_zip");
    assert("install_skills_from_zip"@.len() == 23);
    reveal_strlit("set_auto_launch");
    assert("set_auto_launch"@.len() == 15);
    reveal_strlit("get_auto_launch_status");
    assert("get_auto_launch_status"@.len() == 22);
    assert("get_installed_skills"@[4] != "get_current_provider"@[4]);
    assert("get_installed_skills"@[4] != "get_custom_endpoints"@[4]);
    assert("get_installed_skills"@[4] != "get_migration_result"@[4]);
    assert("get_installed_skills"@[4] != "get_rectifier_config"@[4]);
    assert("get_installed_skills"@[0] != "set_rectifier_config"@[0]);
    assert("get_installed_skills"@[4] != "get_optimizer_config"@[4]);
    assert("get_installed_skills"@[0] != "set_optimizer_config"@[0]);
    assert("get_installed_skills"@[0] != "validate_mcp_command"@[0]);
    assert("get_installed_skills"@[0] != "import_mcp_from_apps"@[0]);
    assert("get_installed_skills"@[0] != "update_model_pricing"@[0]);
    assert("get_installed_skills"@[0] != "delete_model_pricing"@[0]);
    assert("get_installed_skills"@[4] != "get_session_messages"@[4]);
    assert("get_installed_skills"@[4] != "get_global_proxy_url"@[4]);
    assert("get_installed_skills"@[0] != "set_global_proxy_url"@[0]);
    assert("get_installed_skills"@[0] != "write_workspace_file"@[0]);
    assert("get_installed_skills"@[0] != "webdav_sync_download"@[0]);
    assert("get_installed_skills"@[0] != "open_zip_file_dialog"@[0]);
    assert("get_installed_skills"@[0] != "import_from_deeplink"@[0]);
    assert("get_skill_backups"@[4] != "get_config_status"@[4]);
    assert("get_skill_backups"@[0] != "check_for_updates"@[0]);
    assert("get_skill_backups"@[4] != "get_tool_versions"@[4]);
    assert("get_skill_backups"@[0] != "upsert_mcp_server"@[0]);
    assert("get_skill_backups"@[0] != "delete_mcp_server"@[0]);
    assert("get_skill_backups"@[0] != "stop_proxy_server"@[0]);
    assert("get_skill_backups"@[4] != "get_usage_summary"@[4]);
    assert("get_skill_backups"@[4] != "get_model_pricing"@[4]);
    assert("get_skill_backups"@[4] != "get_hermes_memory"@[4]);
    assert("get_skill_backups"@[0] != "set_hermes_memory"@[0]);
    assert("get_skill_backups"@[0] != "copilot_get_token"@[0]);
    assert("get_skill_backups"@[0] != "copilot_get_usage"@[0]);
    assert("get_skill_backups"@[0] != "restore_db_backup"@[0]);
    assert("delete_skill_backup"@[0] != "add_custom_endpoint"@[0]);
    assert("delete_skill_backup"@[0] != "get_app_config_path"@[0]);
    assert("delete_skill_backup"@[0] != "update_proxy_config"@[0]);
    assert("delete_skill_backup"@[0] != "get_provider_health"@[0]);
    assert("delete_skill_backup"@[0] != "auth_remove_account"@[0]);
    assert("delete_skill_backup"@[0] != "read_omo_local_file"@[0]);
    assert("delete_skill_backup"@[1] != "disable_current_omo"@[1]);
    assert("delete_skill_backup"@[0] != "read_workspace_file"@[0]);
    assert("delete_skill_backup"@[0] != "is_lightweight_mode"@[0]);
    assert("delete_skill_backup"@[0] != "check_env_conflicts"@[0]);
    assert("install_skill_unified"@[1] != "import_default_config"@[1]);
    assert("install_skill_unified"@[0] != "get_claude_mcp_status"@[0]);
    assert("install_skill_unified"@[0] != "get_codex_oauth_quota"@[0]);
    assert("install_skill_unified"@[0] != "get_coding_plan_quota"@[0]);
    assert("install_skill_unified"@[0] != "switch_proxy_provider"@[0]);
    assert("install_skill_unified"@[0] != "reset_circuit_breaker"@[0]);
    assert("install_skill_unified"@[0] != "add_to_failover_queue"@[0]);
    assert("install_skill_unified"@[0] != "check_provider_limits"@[0]);
    assert("install_skill_unified"@[0] != "stream_check_provider"@[0]);
    assert("install_skill_unified"@[0] != "auth_poll_for_account"@[0]);
    assert("install_skill_unified"@[0] != "copilot_poll_for_auth"@[0]);
    assert("install_skill_unified"@[0] != "copilot_list_accounts"@[0]);
    assert("install_skill_unified"@[0] != "exit_lightweight_mode"@[0]);
    assert("install_skill_unified"@[0] != "export_config_to_file"@[0]);
    assert("install_skill_unified"@[0] != "merge_deeplink_config"@[0]);
    assert("uninstall_skill_unified"@[0] != "get_universal_providers"@[0]);
    assert("uninstall_skill_unified"@[0] != "sync_universal_provider"@[0]);
    assert("uninstall_skill_unified"@[0] != "import_prompt_from_file"@[0]);
    assert("uninstall_skill_unified"@[0] != "fetch_models_for_config"@[0]);
    assert("uninstall_skill_unified"@[0] != "stop_proxy_with_restore"@[0]);
    assert("uninstall_skill_unified"@[0] != "get_global_proxy_config"@[0]);
    assert("uninstall_skill_unified"@[0] != "is_live_takeover_active"@[0]);
    assert("uninstall_skill_unified"@[0] != "get_stream_check_config"@[0]);
    assert("uninstall_skill_unified"@[0] != "launch_session_terminal"@[0]);
    assert("uninstall_skill_unified"@[0] != "get_hermes_model_config"@[0]);
    assert("uninstall_skill_unified"@[0] != "launch_hermes_dashboard"@[0]);
    assert("uninstall_skill_unified"@[0] != "copilot_get_auth_status"@[0]);
    assert("uninstall_skill_unified"@[0] != "list_daily_memory_files"@[0]);
    assert("uninstall_skill_unified"@[0] != "write_daily_memory_file"@[0]);
    assert("uninstall_skill_unified"@[0] != "import_config_from_file"@[0]);
    assert("restore_skill_backup"@[0] != "get_current_provider"@[0]);
    assert("restore_skill_backup"@[0] != "get_custom_endpoints"@[0]);
    assert("restore_skill_backup"@[0] != "get_migration_result"@[0]);
    assert("restore_skill_backup"@[0] != "get_rectifier_config"@[0]);
    assert("restore_skill_backup"@[0] != "set_rectifier_config"@[0]);
    assert("restore_skill_backup"@[0] != "get_optimizer_config"@[0]);
    assert("restore_skill_backup"@[0] != "set_optimizer_config"@[0]);
    assert("restore_skill_backup"@[0] != "validate_mcp_command"@[0]);
    assert("restore_skill_backup"@[0] != "import_mcp_from_apps"@[0]);
    assert("restore_skill_backup"@[0] != "update_model_pricing"@[0]);
    assert("restore_skill_backup"@[0] != "delete_model_pricing"@[0]);
    assert("restore_skill_backup"@[0] != "get_session_messages"@[0]);
    assert("restore_skill_backup"@[0] != "get_global_proxy_url"@[0]);
    assert("restore_skill_backup"@[0] != "set_global_proxy_url"@[0]);
    assert("restore_skill_backup"@[0] != "write_workspace_file"@[0]);
    assert("restore_skill_backup"@[0] != "webdav_sync_download"@[0]);
    assert("restore_skill_backup"@[0] != "open_zip_file_dialog"@[0]);
    assert("restore_skill_backup"@[0] != "import_from_deeplink"@[0]);
    assert("restore_skill_backup"@[0] != "get_installed_skills"@[0]);
    assert("toggle_skill_app"@[0] != "is_portable_mode"@[0]);
    assert("toggle_skill_app"@[0] != "set_window_theme"@[0]);
    assert("toggle_skill_app"@[0] != "get_proxy_status"@[0]);
    assert("toggle_skill_app"@[0] != "get_proxy_config"@[0]);
    assert("toggle_skill_app"@[0] != "is_proxy_running"@[0]);
    assert("toggle_skill_app"@[0] != "get_usage_trends"@[0]);
    assert("toggle_skill_app"@[0] != "get_request_logs"@[0]);
    assert("toggle_skill_app"@[0] != "get_openclaw_env"@[0]);
    assert("toggle_skill_app"@[0] != "set_openclaw_env"@[0]);
    assert("toggle_skill_app"@[0] != "auth_start_login"@[0]);
    assert("toggle_skill_app"@[0] != "save_file_dialog"@[0]);
    assert("toggle_skill_app"@[0] != "open_file_dialog"@[0]);
    assert("toggle_skill_app"@[0] != "create_db_backup"@[0]);
    assert("toggle_skill_app"@[0] != "rename_db_backup"@[0]);
    assert("toggle_skill_app"@[0] != "delete_db_backup"@[0]);
    assert("scan_unmanaged_skills"@[0] != "import_default_config"@[0]);
    assert("scan_unmanaged_skills"@[0] != "get_claude_mcp_status"@[0]);
    assert("scan_unmanaged_skills"@[0] != "get_codex_oauth_quota"@[0]);
    assert("scan_unmanaged_skills"@[0] != "get_coding_plan_quota"@[0]);
    assert("scan_unmanaged_skills"@[1] != "switch_proxy_provider"@[1]);
    assert("scan_unmanaged_skills"@[0] != "reset_circuit_breaker"@[0]);
    assert("scan_unmanaged_skills"@[0] != "add_to_failover_queue"@[0]);
    assert("scan_unmanaged_skills"@[0] != "check_provider_limits"@[0]);
    assert("scan_unmanaged_skills"@[1] != "stream_check_provider"@[1]);
    assert("scan_unmanaged_skills"@[0] != "auth_poll_for_account"@[0]);
    assert("scan_unmanaged_skills"@[0] != "copilot_poll_for_auth"@[0]);
    assert("scan_unmanaged_skills"@[0] != "copilot_list_accounts"@[0]);
    assert("scan_unmanaged_skills"@[0] != "exit_lightweight_mode"@[0]);
    assert("scan_unmanaged_skills"@[0] != "export_config_to_file"@[0]);
    assert("scan_unmanaged_skills"@[0] != "merge_deeplink_config"@[0]);
    assert("scan_unmanaged_skills"@[0] != "install_skill_unified"@[0]);
    assert("import_skills_from_apps"@[0] != "get_universal_providers"@[0]);
    assert("import_skills_from_apps"@[0] != "sync_universal_provider"@[0]);
    assert("import_skills_from_apps"@[7] != "import_prompt_from_file"@[7]);
    assert("import_skills_from_apps"@[0] != "fetch_models_for_config"@[0]);
    assert("import_skills_from_apps"@[0] != "stop_proxy_with_restore"@[0]);
    assert("import_skills_from_apps"@[0] != "get_global_proxy_config"@[0]);
    assert("import_skills_from_apps"@[1] != "is_live_takeover_active"@[1]);
    assert("import_skills_from_apps"@[0] != "get_stream_check_config"@[0]);
    assert("import_skills_from_apps"@[0] != "launch_session_terminal"@[0]);
    assert("import_skills_from_apps"@[0] != "get_hermes_model_config"@[0]);
    assert("import_skills_from_apps"@[0] != "launch_hermes_dashboard"@[0]);
    assert("import_skills_from_apps"@[0] != "copilot_get_auth_status"@[0]);
    assert("import_skills_from_apps"@[0] != "list_daily_memory_files"@[0]);
    assert("import_skills_from_apps"@[0] != "write_daily_memory_file"@[0]);
    assert("import_skills_from_apps"@[7] != "import_config_from_file"@[7]);
    assert("import_skills_from_apps"@[0] != "uninstall_skill_unified"@[0]);
    assert("discover_available_skills"@[0] != "get_claude_desktop_status"@[0]);
    assert("discover_available_skills"@[0] != "update_endpoint_last_used"@[0]);
    assert("discover_available_skills"@[0] != "upsert_universal_provider"@[0]);
    assert("discover_available_skills"@[1] != "delete_universal_provider"@[1]);
    assert("discover_available_skills"@[0] != "get_common_config_snippet"@[0]);
    assert("discover_available_skills"@[0] != "set_common_config_snippet"@[0]);
    assert("discover_available_skills"@[0] != "read_claude_plugin_config"@[0]);
    assert("discover_available_skills"@[0] != "get_proxy_takeover_status"@[0]);
    assert("discover_available_skills"@[0] != "get_circuit_breaker_stats"@[0]);
    assert("discover_available_skills"@[0] != "get_auto_failover_enabled"@[0]);
    assert("discover_available_skills"@[0] != "set_auto_failover_enabled"@[0]);
    assert("discover_available_skills"@[0] != "set_hermes_memory_enabled"@[0]);
    assert("discover_available_skills"@[0] != "get_upstream_proxy_status"@[0]);
    assert("discover_available_skills"@[0] != "copilot_start_device_flow"@[0]);
    assert("discover_available_skills"@[0] != "search_daily_memory_files"@[0]);
    assert("discover_available_skills"@[0] != "webdav_sync_save_settings"@[0]);
    assert("check_skill_updates"@[0] != "add_custom_endpoint"@[0]);
    assert("check_skill_updates"@[0] != "get_app_config_path"@[0]);
    assert("check_skill_updates"@[0] != "update_proxy_config"@[0]);
    assert("check_skill_updates"@[0] != "get_provider_health"@[0]);
    assert("check_skill_updates"@[0] != "auth_remove_account"@[0]);
    assert("check_skill_updates"@[0] != "read_omo_local_file"@[0]);
    assert("check_skill_updates"@[0] != "disable_current_omo"@[0]);
    assert("check_skill_updates"@[0] != "read_workspace_file"@[0]);
    assert("check_skill_updates"@[0] != "is_lightweight_mode"@[0]);
    assert("check_skill_updates"@[6] != "check_env_conflicts"@[6]);
    assert("check_skill_updates"@[0] != "delete_skill_backup"@[0]);
    assert("update_skill"@[0] != "add_provider"@[0]);
    assert("update_skill"@[0] != "get_settings"@[0]);
    assert("migrate_skill_storage"@[0] != "import_default_config"@[0]);
    assert("migrate_skill_storage"@[0] != "get_claude_mcp_status"@[0]);
    assert("migrate_skill_storage"@[0] != "get_codex_oauth_quota"@[0]);
    assert("migrate_skill_storage"@[0] != "get_coding_plan_quota"@[0]);
    assert("migrate_skill_storage"@[0] != "switch_proxy_provider"@[0]);
    assert("migrate_skill_storage"@[0] != "reset_circuit_breaker"@[0]);
    assert("migrate_skill_storage"@[0] != "add_to_failover_queue"@[0]);
    assert("migrate_skill_storage"@[0] != "check_provider_limits"@[0]);
    assert("migrate_skill_storage"@[0] != "stream_check_provider"@[0]);
    assert("migrate_skill_storage"@[0] != "auth_poll_for_account"@[0]);
    assert("migrate_skill_storage"@[0] != "copilot_poll_for_auth"@[0]);
    assert("migrate_skill_storage"@[0] != "copilot_list_accounts"@[0]);
    assert("migrate_skill_storage"@[0] != "exit_lightweight_mode"@[0]);
    assert("migrate_skill_storage"@[0] != "export_config_to_file"@[0]);
    assert("migrate_skill_storage"@[1] != "merge_deeplink_config"@[1]);
    assert("migrate_skill_storage"@[0] != "install_skill_unified"@[0]);
    assert("migrate_skill_storage"@[0] != "scan_unmanaged_skills"@[0]);
    assert("search_skills_sh"@[0] != "is_portable_mode"@[0]);
    assert("search_skills_sh"@[2] != "set_window_theme"@[2]);
    assert("search_skills_sh"@[0] != "get_proxy_status"@[0]);
    assert("search_skills_sh"@[0] != "get_proxy_config"@[0]);
    assert("search_skills_sh"@[0] != "is_proxy_running"@[0]);
    assert("search_skills_sh"@[0] != "get_usage_trends"@[0]);
    assert("search_skills_sh"@[0] != "get_request_logs"@[0]);
    assert("search_skills_sh"@[0] != "get_openclaw_env"@[0]);
    assert("search_skills_sh"@[2] != "set_openclaw_env"@[2]);
    assert("search_skills_sh"@[0] != "auth_start_login"@[0]);
    assert("search_skills_sh"@[1] != "save_file_dialog"@[1]);
    assert("search_skills_sh"@[0] != "open_file_dialog"@[0]);
    assert("search_skills_sh"@[0] != "create_db_backup"@[0]);
    assert("search_skills_sh"@[0] != "rename_db_backup"@[0]);
    assert("search_skills_sh"@[0] != "delete_db_backup"@[0]);
    assert("search_skills_sh"@[0] != "toggle_skill_app"@[0]);
    assert("get_skills_for_app"@[0] != "queryProviderUsage"@[0]);
    assert("get_skills_for_app"@[0] != "test_api_endpoints"@[0]);
    assert("get_skills_for_app"@[0] != "open_config_folder"@[0]);
    assert("get_skills_for_app"@[0] != "start_proxy_server"@[0]);
    assert("get_skills_for_app"@[4] != "get_failover_queue"@[4]);
    assert("get_skills_for_app"@[4] != "get_provider_stats"@[4]);
    assert("get_skills_for_app"@[4] != "get_request_detail"@[4]);
    assert("get_skills_for_app"@[0] != "sync_session_usage"@[0]);
    assert("get_skills_for_app"@[4] != "get_openclaw_tools"@[4]);
    assert("get_skills_for_app"@[0] != "set_openclaw_tools"@[0]);
    assert("get_skills_for_app"@[0] != "open_hermes_web_ui"@[0]);
    assert("get_skills_for_app"@[0] != "scan_local_proxies"@[0]);
    assert("get_skills_for_app"@[0] != "auth_list_accounts"@[0]);
    assert("get_skills_for_app"@[0] != "copilot_get_models"@[0]);
    assert("get_skills_for_app"@[0] != "webdav_sync_upload"@[0]);
    assert("get_skills_for_app"@[0] != "restore_env_backup"@[0]);
    assert("install_skill"@[0] != "get_providers"@[0]);
    assert("install_skill"@[0] != "open_external"@[0]);
    assert("install_skill"@[0] != "save_settings"@[0]);
    assert("install_skill"@[0] != "upsert_prompt"@[0]);
    assert("install_skill"@[0] != "delete_prompt"@[0]);
    assert("install_skill"@[0] != "enable_prompt"@[0]);
    assert("install_skill"@[0] != "list_sessions"@[0]);
    assert("install_skill_for_app"@[1] != "import_default_config"@[1]);
    assert("install_skill_for_app"@[0] != "get_claude_mcp_status"@[0]);
    assert("install_skill_for_app"@[0] != "get_codex_oauth_quota"@[0]);
    assert("install_skill_for_app"@[0] != "get_coding_plan_quota"@[0]);
    assert("install_skill_for_app"@[0] != "switch_proxy_provider"@[0]);
    assert("install_skill_for_app"@[0] != "reset_circuit_breaker"@[0]);
    assert("install_skill_for_app"@[0] != "add_to_failover_queue"@[0]);
    assert("install_skill_for_app"@[0] != "check_provider_limits"@[0]);
    assert("install_skill_for_app"@[0] != "stream_check_provider"@[0]);
    assert("install_skill_for_app"@[0] != "auth_poll_for_account"@[0]);
    assert("install_skill_for_app"@[0] != "copilot_poll_for_auth"@[0]);
    assert("install_skill_for_app"@[0] != "copilot_list_accounts"@[0]);
    assert("install_skill_for_app"@[0] != "exit_lightweight_mode"@[0]);
    assert("install_skill_for_app"@[0] != "export_config_to_file"@[0]);
    assert("install_skill_for_app"@[0] != "merge_deeplink_config"@[0]);
    assert("install_skill_for_app"@[14] != "install_skill_unified"@[14]);
    assert("install_skill_for_app"@[0] != "scan_unmanaged_skills"@[0]);
    assert("install_skill_for_app"@[0] != "migrate_skill_storage"@[0]);
    assert("uninstall_skill"@[1] != "update_provider"@[1]);
    assert("uninstall_skill"@[0] != "delete_provider"@[0]);
    assert("uninstall_skill"@[0] != "switch_provider"@[0]);
    assert("uninstall_skill"@[0] != "testUsageScript"@[0]);
    assert("uninstall_skill"@[0] != "set_mcp_enabled"@[0]);
    assert("uninstall_skill"@[0] != "get_mcp_servers"@[0]);
    assert("uninstall_skill"@[0] != "get_model_stats"@[0]);
    assert("uninstall_skill"@[0] != "delete_sessions"@[0]);
    assert("uninstall_skill"@[0] != "auth_get_status"@[0]);
    assert("uninstall_skill"@[0] != "list_db_backups"@[0]);
    assert("uninstall_skill"@[0] != "delete_env_vars"@[0]);
    assert("uninstall_skill_for_app"@[0] != "get_universal_providers"@[0]);
    assert("uninstall_skill_for_app"@[0] != "sync_universal_provider"@[0]);
    assert("uninstall_skill_for_app"@[0] != "import_prompt_from_file"@[0]);
    assert("uninstall_skill_for_app"@[0] != "fetch_models_for_config"@[0]);
    assert("uninstall_skill_for_app"@[0] != "stop_proxy_with_restore"@[0]);
    assert("uninstall_skill_for_app"@[0] != "get_global_proxy_config"@[0]);
    assert("uninstall_skill_for_app"@[0] != "is_live_takeover_active"@[0]);
    assert("uninstall_skill_for_app"@[0] != "get_stream_check_config"@[0]);
    assert("uninstall_skill_for_app"@[0] != "launch_session_terminal"@[0]);
    assert("uninstall_skill_for_app"@[0] != "get_hermes_model_config"@[0]);
    assert("uninstall_skill_for_app"@[0] != "launch_hermes_dashboard"@[0]);
    assert("uninstall_skill_for_app"@[0] != "copilot_get_auth_status"@[0]);
    assert("uninstall_skill_for_app"@[0] != "list_daily_memory_files"@[0]);
    assert("uninstall_skill_for_app"@[0] != "write_daily_memory_file"@[0]);
    assert("uninstall_skill_for_app"@[0] != "import_config_from_file"@[0]);
    assert("uninstall_skill_for_app"@[16] != "uninstall_skill_unified"@[16]);
    assert("uninstall_skill_for_app"@[0] != "import_skills_from_apps"@[0]);
    assert("get_skill_repos"@[0] != "update_provider"@[0]);
    assert("get_skill_repos"@[0] != "delete_provider"@[0]);
    assert("get_skill_repos"@[0] != "switch_provider"@[0]);
    assert("get_skill_repos"@[0] != "testUsageScript"@[0]);
    assert("get_skill_repos"@[0] != "set_mcp_enabled"@[0]);
    assert("get_skill_repos"@[4] != "get_mcp_servers"@[4]);
    assert("get_skill_repos"@[4] != "get_model_stats"@[4]);
    assert("get_skill_repos"@[0] != "delete_sessions"@[0]);
    assert("get_skill_repos"@[0] != "auth_get_status"@[0]);
    assert("get_skill_repos"@[0] != "list_db_backups"@[0]);
    assert("get_skill_repos"@[0] != "delete_env_vars"@[0]);
    assert("get_skill_repos"@[0] != "uninstall_skill"@[0]);
    assert("add_skill_repo"@[0] != "get_config_dir"@[0]);
    assert("add_skill_repo"@[0] != "pick_directory"@[0]);
    assert("add_skill_repo"@[0] != "get_init_error"@[0]);
    assert("add_skill_repo"@[0] != "get_log_config"@[0]);
    assert("add_skill_repo"@[0] != "set_log_config"@[0]);
    assert("add_skill_repo"@[0] != "get_mcp_config"@[0]);
    assert("add_skill_repo"@[0] != "toggle_mcp_app"@[0]);
    assert("add_skill_repo"@[0] != "delete_session"@[0]);
    assert("add_skill_repo"@[0] != "test_proxy_url"@[0]);
    assert("add_skill_repo"@[0] != "copilot_logout"@[0]);
    assert("add_skill_repo"@[0] != "parse_deeplink"@[0]);
    assert("remove_skill_repo"@[0] != "get_config_status"@[0]);
    assert("remove_skill_repo"@[0] != "check_for_updates"@[0]);
    assert("remove_skill_repo"@[0] != "get_tool_versions"@[0]);
    assert("remove_skill_repo"@[0] != "upsert_mcp_server"@[0]);
    assert("remove_skill_repo"@[0] != "delete_mcp_server"@[0]);
    assert("remove_skill_repo"@[0] != "stop_proxy_server"@[0]);
    assert("remove_skill_repo"@[0] != "get_usage_summary"@[0]);
    assert("remove_skill_repo"@[0] != "get_model_pricing"@[0]);
    assert("remove_skill_repo"@[0] != "get_hermes_memory"@[0]);
    assert("remove_skill_repo"@[0] != "set_hermes_memory"@[0]);
    assert("remove_skill_repo"@[0] != "copilot_get_token"@[0]);
    assert("remove_skill_repo"@[0] != "copilot_get_usage"@[0]);
    assert("remove_skill_repo"@[2] != "restore_db_backup"@[2]);
    assert("remove_skill_repo"@[0] != "get_skill_backups"@[0]);
    assert("install_skills_from_zip"@[0] != "get_universal_providers"@[0]);
    assert("install_skills_from_zip"@[0] != "sync_universal_provider"@[0]);
    assert("install_skills_from_zip"@[1] != "import_prompt_from_file"@[1]);
    assert("install_skills_from_zip"@[0] != "fetch_models_for_config"@[0]);
    assert("install_skills_from_zip"@[0] != "stop_proxy_with_restore"@[0]);
    assert("install_skills_from_zip"@[0] != "get_global_proxy_config"@[0]);
    assert("install_skills_from_zip"@[1] != "is_live_takeover_active"@[1]);
    assert("install_skills_from_zip"@[0] != "get_stream_check_config"@[0]);
    assert("install_skills_from_zip"@[0] != "launch_session_terminal"@[0]);
    assert("install_skills_from_zip"@[0] != "get_hermes_model_config"@[0]);
    assert("install_skills_from_zip"@[0] != "launch_hermes_dashboard"@[0]);
    assert("install_skills_from_zip"@[0] != "copilot_get_auth_status"@[0]);
    assert("install_skills_from_zip"@[0] != "list_daily_memory_files"@[0]);
    assert("install_skills_from_zip"@[0] != "write_daily_memory_file"@[0]);
    assert("install_skills_from_zip"@[1] != "import_config_from_file"@[1]);
    assert("install_skills_from_zip"@[0] != "uninstall_skill_unified"@[0]);
    assert("install_skills_from_zip"@[1] != "import_skills_from_apps"@[1]);
    assert("install_skills_from_zip"@[0] != "uninstall_skill_for_app"@[0]);
    assert("set_auto_launch"@[0] != "update_provider"@[0]);
    assert("set_auto_launch"@[0] != "delete_provider"@[0]);
    assert("set_auto_launch"@[1] != "switch_provider"@[1]);
    assert("set_auto_launch"@[0] != "testUsageScript"@[0]);
    assert("set_auto_launch"@[4] != "set_mcp_enabled"@[4]);
    assert("set_auto_launch"@[0] != "get_mcp_servers"@[0]);
    assert("set_auto_launch"@[0] != "get_model_stats"@[0]);
    assert("set_auto_launch"@[0] != "delete_sessions"@[0]);
    assert("set_auto_launch"@[0] != "auth_get_status"@[0]);
    assert("set_auto_launch"@[0] != "list_db_backups"@[0]);
    assert("set_auto_launch"@[0] != "delete_env_vars"@[0]);
    assert("set_auto_launch"@[0] != "uninstall_skill"@[0]);
    assert("set_auto_launch"@[0] != "get_skill_repos"@[0]);
    assert("get_auto_launch_status"@[0] != "remove_custom_endpoint"@[0]);
    assert("get_auto_launch_status"@[4] != "get_universal_provider"@[4]);
    assert("get_auto_launch_status"@[0] != "open_app_config_folder"@[0]);
    assert("get_auto_launch_status"@[0] != "copy_text_to_clipboard"@[0]);
    assert("get_auto_launch_status"@[0] != "open_provider_terminal"@[0]);
    assert("get_auto_launch_status"@[0] != "read_claude_mcp_config"@[0]);
    assert("get_auto_launch_status"@[4] != "get_subscription_quota"@[4]);
    assert("get_auto_launch_status"@[4] != "get_codex_oauth_models"@[4]);
    assert("get_auto_launch_status"@[4] != "get_usage_data_sources"@[4]);
    assert("get_auto_launch_status"@[0] != "copilot_remove_account"@[0]);
    assert("get_auto_launch_status"@[0] != "read_daily_memory_file"@[0]);
    assert("get_auto_launch_status"@[0] != "enter_lightweight_mode"@[0]);
    assert("get_auto_launch_status"@[0] != "webdav_test_connection"@[0]);
}

} // verus!
