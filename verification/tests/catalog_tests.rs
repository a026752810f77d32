use compactveteran::catalog::{plan_catalog, refresh, CatalogError, CatalogModel};

fn m(slug: Option<&str>) -> CatalogModel {
    CatalogModel { is_object: true, slug: slug.map(|s| s.to_string()) }
}

#[test]
fn plan_targets_sol_only() {
    let models = Some(vec![m(Some("gpt-5.6-luna")), m(Some("gpt-5.6-sol")), m(None), m(Some("gpt-5.6-terra"))]);
    let edits = plan_catalog(&models).unwrap();
    assert_eq!(edits.len(), 3);
    assert!(edits.iter().all(|e| e.index == 1));
    assert_eq!(edits[0].key, "context_window");
    assert_eq!(edits[0].value, 1050000);
    assert_eq!(edits[1].key, "max_context_window");
    assert_eq!(edits[1].value, 1050000);
    assert_eq!(edits[2].key, "auto_compact_token_limit");
    assert_eq!(edits[2].value, 950000);
}

#[test]
fn plan_errors() {
    assert!(matches!(plan_catalog(&None), Err(CatalogError::ModelsNotArray)));
    let bad = Some(vec![m(Some("gpt-5.6-sol")), CatalogModel { is_object: false, slug: None }]);
    assert!(matches!(plan_catalog(&bad), Err(CatalogError::ModelNotObject)));
    let two_sols = Some(vec![m(Some("gpt-5.6-sol")), m(Some("gpt-5.6-sol")), m(Some("gpt-5.6-terra")), m(Some("gpt-5.6-luna"))]);
    assert!(matches!(plan_catalog(&two_sols), Err(CatalogError::FamilyCount)));
    let no_luna = Some(vec![m(Some("gpt-5.6-sol")), m(Some("gpt-5.6-terra"))]);
    assert!(matches!(plan_catalog(&no_luna), Err(CatalogError::FamilyCount)));
}

#[test]
fn refresh_patches_sol_and_keeps_others() {
    let text = r#"{"models":[{"slug":"gpt-5.6-terra","context_window":1},{"slug":"gpt-5.6-sol","context_window":2,"extra":true},{"slug":"gpt-5.6-luna"}],"other":5}"#;
    let out = refresh(text).unwrap();
    let v: serde_json::Value = serde_json::from_slice(&out).unwrap();
    assert_eq!(v["models"][1]["context_window"], 1050000);
    assert_eq!(v["models"][1]["max_context_window"], 1050000);
    assert_eq!(v["models"][1]["auto_compact_token_limit"], 950000);
    assert_eq!(v["models"][1]["extra"], true);
    assert_eq!(v["models"][0]["context_window"], 1);
    assert!(v["models"][0].get("max_context_window").is_none());
    assert!(v["models"][2].get("context_window").is_none());
    assert_eq!(v["other"], 5);
}

#[test]
fn refresh_errors() {
    assert!(matches!(refresh("not json"), Err(CatalogError::NotJson(_))));
    assert!(matches!(refresh(r#"{"models":{}}"#), Err(CatalogError::ModelsNotArray)));
    assert!(matches!(refresh(r#"{"models":[1]}"#), Err(CatalogError::ModelNotObject)));
    assert!(matches!(refresh(r#"{"models":[{"slug":"gpt-5.6-sol"}]}"#), Err(CatalogError::FamilyCount)));
    assert_eq!(CatalogError::FamilyCount.message(), "catalog requires exactly one Sol, Terra, and Luna");
    assert_eq!(CatalogError::ModelsNotArray.message(), "models must be an array");
    assert_eq!(CatalogError::ModelNotObject.message(), "model must be an object");
}

#[test]
fn refresh_writes_other_entries_as_read() {
    let text = r#"{"models":[{"slug":"gpt-5.6-terra","context_window":1},{"slug":"gpt-5.6-sol"},{"slug":"gpt-5.6-luna","t":0.5}],"other":5}"#;
    let out = String::from_utf8(refresh(text).unwrap()).unwrap();
    assert_eq!(
        out,
        r#"{"models":[{"context_window":1,"slug":"gpt-5.6-terra"},{"auto_compact_token_limit":950000,"context_window":1050000,"max_context_window":1050000,"slug":"gpt-5.6-sol"},{"slug":"gpt-5.6-luna","t":0.5}],"other":5}"#
    );
}
