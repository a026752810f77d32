use compactveteran::config::{install, restore, ConfigDocument};

#[test]
fn install_points_at_overlay_and_drops_overrides() {
    let text = "model = \"gpt-5.6-sol\"\nmodel_context_window = 272000\nmodel_auto_compact_token_limit = 200000\n\n[features]\nx = true\n";
    let mut doc = ConfigDocument::parse(text).unwrap();
    install(&mut doc, "/state/models-overlay.json");
    let out = doc.render();
    let v: toml_edit::DocumentMut = out.parse().unwrap();
    assert_eq!(v["model_catalog_json"].as_str(), Some("/state/models-overlay.json"));
    assert!(v.get("model_context_window").is_none());
    assert!(v.get("model_auto_compact_token_limit").is_none());
    assert_eq!(v["model"].as_str(), Some("gpt-5.6-sol"));
    assert_eq!(v["features"]["x"].as_bool(), Some(true));
}

#[test]
fn install_on_empty_config() {
    let mut doc = ConfigDocument::parse("").unwrap();
    install(&mut doc, "/o.json");
    assert_eq!(doc.render(), "model_catalog_json = \"/o.json\"\n");
}

#[test]
fn bad_toml_is_refused() {
    assert!(ConfigDocument::parse("= =").is_err());
}

#[test]
fn restore_succeeds() {
    assert!(restore().is_ok());
}

#[test]
fn install_keeps_numbers_arrays_and_tables() {
    let text = "keep = 7\nlist = [1, 2]\nmodel_context_window = 1000\n\n[tools]\nweb = { on = true }\n";
    let mut doc = ConfigDocument::parse(text).unwrap();
    install(&mut doc, "/o.json");
    let v: toml_edit::DocumentMut = doc.render().parse().unwrap();
    assert_eq!(v["keep"].as_integer(), Some(7));
    assert_eq!(v["list"].as_array().map(|a| a.len()), Some(2));
    assert_eq!(v["list"][1].as_integer(), Some(2));
    assert_eq!(v["tools"]["web"]["on"].as_bool(), Some(true));
    assert!(v.get("model_context_window").is_none());
    assert_eq!(v["model_catalog_json"].as_str(), Some("/o.json"));
}

#[test]
fn install_keeps_comments_and_layout() {
    let text = "# top comment\nkeep   =   7 # why\nmodel_context_window = 1000 # gone\nname = 'literal'\n";
    let mut doc = ConfigDocument::parse(text).unwrap();
    install(&mut doc, "/o.json");
    let out = doc.render();
    assert!(out.contains("# top comment\nkeep   =   7 # why"));
    assert!(out.contains("name = 'literal'"));
    assert!(!out.contains("# gone"));
    assert!(out.contains("model_catalog_json = \"/o.json\""));
}
