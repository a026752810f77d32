use compactveteran::hook_input::{checkpoint_reply, continue_reply, hook_route, HookInput, HookRoute};
use compactveteran::paths::{
    catalog_cache, config_file, home, map_file, overlay_file, ownership_file, plugin_data,
    source_candidates, stock_binary,
};
use compactveteran::text::join;
use compactveteran::trust::{check_stock, doctor, TrustError};

fn sol() -> HookInput {
    let mut i = HookInput::empty();
    i.model = Some("gpt-5.6-sol".to_string());
    i
}

#[test]
fn sol_root_detection() {
    assert!(sol().is_sol_root());
    let mut i = sol();
    i.agent_id = Some("sub".to_string());
    assert!(!i.is_sol_root());
    let mut i = sol();
    i.agent_type = Some("worker".to_string());
    assert!(!i.is_sol_root());
    let mut i = sol();
    i.model = Some("gpt-5.6-terra".to_string());
    assert!(!i.is_sol_root());
    assert!(!HookInput::empty().is_sol_root());
}

#[test]
fn hook_routing() {
    assert_eq!(hook_route("prompt", &sol()), HookRoute::SaveState);
    assert_eq!(hook_route("session-start", &sol()), HookRoute::SaveState);
    assert_eq!(hook_route("precompact", &sol()), HookRoute::Checkpoint { stop_compaction: true });
    assert_eq!(hook_route("stop", &sol()), HookRoute::Checkpoint { stop_compaction: false });
    assert_eq!(hook_route("prompt", &HookInput::empty()), HookRoute::PassThrough);
    assert_eq!(continue_reply(), "{\"continue\":true}");
    assert_eq!(checkpoint_reply(false), "{\"continue\":true}");
    assert_eq!(
        checkpoint_reply(true),
        "{\"continue\":false,\"stopReason\":\"Context compaction dodged.\",\"systemMessage\":\"Context compaction dodged.\"}"
    );
}

#[test]
fn host_paths() {
    assert_eq!(home(Some(b"/c".to_vec()), Some(b"/h".to_vec())), Some(b"/c".to_vec()));
    assert_eq!(home(None, Some(b"/h".to_vec())), Some(b"/h/.codex".to_vec()));
    assert_eq!(home(None, None), None);
    assert_eq!(config_file(b"/c"), b"/c/config.toml".to_vec());
    assert_eq!(catalog_cache(b"/c"), b"/c/models_cache.json".to_vec());
    assert_eq!(overlay_file(b"/s"), b"/s/models-overlay.json".to_vec());
    assert_eq!(ownership_file(b"/s"), b"/s/config-ownership.json".to_vec());
    assert_eq!(map_file(b"/c", b"ab"), b"/c/project-maps/ab.md".to_vec());
    assert_eq!(stock_binary(b"/c"), b"/c/packages/standalone/current/bin/codex".to_vec());
    assert_eq!(plugin_data(None, b"/c"), b"/c/plugins/data/compactveteran-compactveteran".to_vec());
    assert_eq!(plugin_data(Some(b"/p".to_vec()), b"/c"), b"/p".to_vec());
    let c = source_candidates(b"/r", b"/c");
    assert_eq!(c.len(), 5);
    assert_eq!(c[0], b"/r/AGENTS.md".to_vec());
    assert_eq!(c[4], b"/c/project-truth/registry.toml".to_vec());
}

#[test]
fn path_join_rules() {
    assert_eq!(join(b"", b"a"), b"a".to_vec());
    assert_eq!(join(b"/x/", b"a"), b"/x/a".to_vec());
    assert_eq!(join(b"/x", b"/abs"), b"/abs".to_vec());
}

#[test]
fn app_server_lines() {
    let lines = compactveteran::trust::set("/repo \"q\"");
    assert_eq!(lines[0], "{\"id\":1,\"method\":\"initialize\",\"params\":{}}");
    assert_eq!(lines[1], "{\"method\":\"initialized\"}");
    assert_eq!(lines[2], "{\"id\":2,\"method\":\"hooks/list\",\"params\":{\"cwd\":\"/repo \\\"q\\\"\"}}");
    assert_eq!(check_stock(true), Err(TrustError::ResolvesToSelf));
    assert_eq!(check_stock(false), Ok(()));
    assert_eq!(TrustError::ResolvesToSelf.message(), "stock codex resolves to CompactVeteran");
}

#[test]
fn doctor_stops_at_first_failure() {
    let r = doctor(true, true, false, true, true);
    assert_eq!(r.lines, vec!["platform   ok", "stock      ok", "binary     fail"]);
    assert_eq!(r.failure, Some("doctor: binary".to_string()));
    let r = doctor(true, true, true, true, true);
    assert_eq!(r.lines.len(), 5);
    assert_eq!(r.lines[4], "maps       ok");
    assert_eq!(r.failure, None);
}

#[test]
fn app_server_cwd_escapes() {
    let lines = compactveteran::trust::set("a\\b\n\t\u{1}\u{1f}é");
    assert_eq!(
        lines[2],
        "{\"id\":2,\"method\":\"hooks/list\",\"params\":{\"cwd\":\"a\\\\b\\n\\t\\u0001\\u001fé\"}}"
    );
}
