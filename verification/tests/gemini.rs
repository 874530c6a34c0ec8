use cc_switch::gemini::{
    apply_gemini_live_write_steps, backfill_target, build_incoming_gemini_config,
    gemini_live_write_mode, gemini_switch_target, parse_common_gemini_config_snippet,
    plan_snippet_migration, strip_official_env_keys, GeminiApplySteps, GeminiAuthType,
    GeminiConfigError, GeminiLiveWrite, MigrationRun, MigrationStep, ProviderError, ProviderManager,
    SnippetError,
};
use cc_switch::json::{set_entry, Json};

fn obj(entries: Vec<(&str, Json)>) -> Json {
    Json::Object(entries.into_iter().map(|(k, v)| (k.to_string(), v)).collect())
}

fn s(v: &str) -> Json {
    Json::Str(v.to_string())
}

fn get<'a>(j: &'a Json, key: &str) -> Option<&'a Json> {
    match j {
        Json::Object(e) => e.iter().find(|(k, _)| k == key).map(|(_, v)| v),
        _ => None,
    }
}

fn selected_type(j: &Json) -> Option<String> {
    match get(get(get(j, "security")?, "auth")?, "selectedType")? {
        Json::Str(t) => Some(t.clone()),
        _ => None,
    }
}

fn manager(ids: &[&str], current: &str) -> ProviderManager {
    ProviderManager {
        provider_ids: ids.iter().map(|s| s.to_string()).collect(),
        current: current.to_string(),
    }
}

#[test]
fn missing_or_null_config_becomes_a_fresh_object() {
    let out = build_incoming_gemini_config(obj(vec![("env", obj(vec![]))]), GeminiAuthType::ApiKey)
        .expect("ok");
    assert_eq!(selected_type(&out).as_deref(), Some("gemini-api-key"));
    let out = build_incoming_gemini_config(obj(vec![("config", Json::Null)]), GeminiAuthType::GoogleOfficial)
        .expect("ok");
    assert_eq!(selected_type(&out).as_deref(), Some("oauth-personal"));
    let out = build_incoming_gemini_config(Json::Null, GeminiAuthType::ApiKey).expect("ok");
    assert!(matches!(&out, Json::Object(e) if e.len() == 1));
}

#[test]
fn existing_config_keeps_its_entries() {
    let content = obj(vec![(
        "config",
        obj(vec![
            ("theme", s("dark")),
            ("security", obj(vec![("auth", obj(vec![("selectedType", s("old")), ("x", s("y"))])), ("k", s("v"))])),
        ]),
    )]);
    let out = build_incoming_gemini_config(content, GeminiAuthType::ApiKey).expect("ok");
    assert_eq!(selected_type(&out).as_deref(), Some("gemini-api-key"));
    assert!(matches!(get(&out, "theme"), Some(Json::Str(t)) if t == "dark"));
    let security = get(&out, "security").unwrap();
    assert!(matches!(get(security, "k"), Some(Json::Str(t)) if t == "v"));
    assert!(matches!(get(get(security, "auth").unwrap(), "x"), Some(Json::Str(t)) if t == "y"));
    match &out {
        Json::Object(e) => assert_eq!(e.len(), 2),
        _ => panic!("not an object"),
    }
}

#[test]
fn malformed_config_levels_are_rejected() {
    let bad = obj(vec![("config", s("nope"))]);
    assert_eq!(
        build_incoming_gemini_config(bad, GeminiAuthType::ApiKey).err(),
        Some(GeminiConfigError::InvalidConfig)
    );
    let bad = obj(vec![("config", obj(vec![("security", Json::Bool(true))]))]);
    assert_eq!(
        build_incoming_gemini_config(bad, GeminiAuthType::ApiKey).err(),
        Some(GeminiConfigError::InvalidSecurity)
    );
    let bad = obj(vec![("config", obj(vec![("security", obj(vec![("auth", Json::Array(vec![]))]))]))]);
    assert_eq!(
        build_incoming_gemini_config(bad, GeminiAuthType::ApiKey).err(),
        Some(GeminiConfigError::InvalidSecurityAuth)
    );
}

#[test]
fn set_entry_replaces_in_place_or_appends() {
    let mut e = vec![("a".to_string(), Json::Null), ("b".to_string(), Json::Null)];
    set_entry(&mut e, "a", Json::Bool(true));
    assert_eq!(e.len(), 2);
    assert!(matches!(e[0].1, Json::Bool(true)));
    set_entry(&mut e, "c", Json::Bool(false));
    assert_eq!(e.len(), 3);
    assert_eq!(e[2].0, "c");
}

#[test]
fn official_login_drops_inherited_keys() {
    let env: Vec<(String, String)> = [
        ("GEMINI_API_KEY", "k"),
        ("HTTP_PROXY", "p"),
        ("GEMINI_MODEL", "m"),
        ("GOOGLE_GEMINI_BASE_URL", "u"),
        ("GEMINI_BASE_URL", "u2"),
    ]
    .iter()
    .map(|(k, v)| (k.to_string(), v.to_string()))
    .collect();
    let kept = strip_official_env_keys(env.clone(), GeminiAuthType::GoogleOfficial);
    assert_eq!(kept, vec![("HTTP_PROXY".to_string(), "p".to_string())]);
    assert_eq!(strip_official_env_keys(env.clone(), GeminiAuthType::ApiKey), env);
}

#[test]
fn live_write_mode_and_apply_steps() {
    assert_eq!(
        gemini_live_write_mode(false, false, GeminiAuthType::ApiKey),
        GeminiLiveWrite::SecurityFlag { auth_type: GeminiAuthType::ApiKey }
    );
    assert_eq!(
        gemini_live_write_mode(true, false, GeminiAuthType::ApiKey),
        GeminiLiveWrite::Files { auth_type: GeminiAuthType::ApiKey }
    );
    assert_eq!(
        apply_gemini_live_write_steps(Some(GeminiLiveWrite::SecurityFlag {
            auth_type: GeminiAuthType::GoogleOfficial
        })),
        GeminiApplySteps { write_files: false, security_flag: Some(GeminiAuthType::GoogleOfficial) }
    );
    assert_eq!(
        apply_gemini_live_write_steps(None),
        GeminiApplySteps { write_files: false, security_flag: None }
    );
}

#[test]
fn switch_target_reports_missing_app_and_provider() {
    assert!(matches!(gemini_switch_target(None, "a"), Err(ProviderError::AppNotFound)));
    let m = manager(&["a", "b"], "a");
    assert!(matches!(gemini_switch_target(Some(&m), "b"), Ok(1)));
    assert!(matches!(
        gemini_switch_target(Some(&m), "zz"),
        Err(ProviderError::ProviderNotFound { id }) if id == "zz"
    ));
    let mut m = m;
    m.set_current("b");
    assert_eq!(m.current, "b");
}

#[test]
fn backfill_only_for_a_different_known_current_provider() {
    let m = manager(&["a", "b"], "a");
    assert_eq!(backfill_target(true, Some("a"), "b", Some(&m)), Some(0));
    assert_eq!(backfill_target(false, Some("a"), "b", Some(&m)), None);
    assert_eq!(backfill_target(true, Some("b"), "b", Some(&m)), None);
    assert_eq!(backfill_target(true, Some(""), "b", Some(&m)), None);
    assert_eq!(backfill_target(true, None, "b", Some(&m)), None);
    assert_eq!(backfill_target(true, Some("gone"), "b", Some(&m)), None);
}

#[test]
fn snippet_migration_order() {
    let m = manager(&["a", "b", "c"], "a");
    let (snippet, steps) = plan_snippet_migration("  {\"k\":1}\n", Some("b"), Some(&m));
    assert_eq!(snippet, "{\"k\":1}");
    assert_eq!(
        steps,
        vec![
            MigrationStep { index: 1, stop_on_error: true },
            MigrationStep { index: 0, stop_on_error: false },
            MigrationStep { index: 2, stop_on_error: false },
        ]
    );
    let (_, steps) = plan_snippet_migration("{}", Some("zz"), Some(&m));
    assert_eq!(steps.len(), 3);
    assert!(steps.iter().all(|s| s.stop_on_error));
    assert!(plan_snippet_migration("   ", Some("a"), Some(&m)).1.is_empty());
    assert!(plan_snippet_migration("{}", None, None).1.is_empty());
}

#[test]
fn migration_run_skips_other_failures_when_current_leads() {
    let m = manager(&["a", "b", "c"], "a");
    let (_, steps) = plan_snippet_migration("{}", Some("b"), Some(&m));
    let mut run = MigrationRun::new(steps);
    assert_eq!(run.next_step(), Some(1));
    run.record(true);
    assert_eq!(run.next_step(), Some(0));
    run.record(false);
    assert_eq!(run.failed_at, None);
    assert_eq!(run.next_step(), Some(2));
    run.record(false);
    assert_eq!(run.failed_at, None);
    assert_eq!(run.next_step(), None);
}

#[test]
fn migration_run_stops_at_current_failure_or_first_failure() {
    let m = manager(&["a", "b", "c"], "a");
    let (_, steps) = plan_snippet_migration("{}", Some("c"), Some(&m));
    let mut run = MigrationRun::new(steps);
    assert_eq!(run.next_step(), Some(2));
    run.record(false);
    assert_eq!(run.failed_at, Some(0));
    assert_eq!(run.next_step(), None);

    let (_, steps) = plan_snippet_migration("{}", None, Some(&m));
    let mut run = MigrationRun::new(steps);
    assert_eq!(run.next_step(), Some(0));
    run.record(true);
    assert_eq!(run.next_step(), Some(1));
    run.record(false);
    assert_eq!(run.failed_at, Some(1));
    assert_eq!(run.next_step(), None);
}

#[test]
fn common_config_snippet_must_be_a_json_object() {
    assert!(parse_common_gemini_config_snippet("{\"a\": 1}").is_ok());
    assert!(matches!(
        parse_common_gemini_config_snippet("[1, 2]"),
        Err(SnippetError::NotObject)
    ));
    assert!(matches!(
        parse_common_gemini_config_snippet("{oops"),
        Err(SnippetError::InvalidJson { .. })
    ));
}
