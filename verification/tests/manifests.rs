use claw_core::agent::manifest::{
    inherit_base, is_kind_dir, merge_unique, parse_common, parse_kind, parse_meta, parse_names, resolve_kinds,
    CommonBase, KindFiles, ParsedManifest,
};

const HEADER: &str = r#"{"schema_version": 1, "kind": "scout", "description": "Looks around.",
    "spawn": {"enabled": true, "allowed_kinds": ["worker"]}, "runtime": {"retries": 2}}"#;

fn names(list: &[&str]) -> Vec<String> {
    list.iter().map(|n| n.to_string()).collect()
}

fn files(header: &str) -> KindFiles {
    KindFiles {
        agent_json: Ok(header.into()),
        capabilities_json: Ok(r#"{"schema_version": 1, "capabilities": ["files", "time"]}"#.into()),
        skills_json: Ok(r#"{"schema_version": 1, "skills": ["maps"]}"#.into()),
        has_instructions: true,
    }
}

fn kind(name: &str, capabilities: &[&str]) -> ParsedManifest {
    ParsedManifest {
        kind: name.into(),
        description: String::new(),
        spawn_enabled: false,
        allowed_kinds: Vec::new(),
        retries: 0,
        tool_block_retries: None,
        capabilities: names(capabilities),
        skills: Vec::new(),
        instructions_path: format!("/agents/{name}/instructions.md"),
    }
}

#[test]
fn header_is_read() {
    let meta = parse_meta(HEADER).expect("a header");
    assert_eq!(meta.kind, "scout");
    assert_eq!(meta.description, "Looks around.");
    assert!(meta.spawn_enabled);
    assert_eq!(meta.allowed_kinds, names(&["worker"]));
    assert_eq!(meta.retries, 2);
    assert_eq!(meta.tool_block_retries, None);
}

#[test]
fn header_without_a_field_is_refused() {
    let header = r#"{"schema_version": 1, "kind": "scout", "description": "d", "spawn": {"enabled": true}}"#;
    assert_eq!(parse_meta(header).unwrap_err(), "missing or invalid field `spawn.allowed_kinds`");
    assert!(parse_meta("{").is_err());
}

#[test]
fn list_document_is_read() {
    let text = r#"{"schema_version": 1, "skills": ["maps", "tides"]}"#;
    assert_eq!(parse_names(text, "skills"), Ok(names(&["maps", "tides"])));
    assert!(parse_names(text, "capabilities").is_err());
}

#[test]
fn kind_directory_is_read() {
    let kind = parse_kind("/agents/scout", "scout", &files(HEADER)).expect("a kind");
    assert_eq!(kind.kind, "scout");
    assert_eq!(kind.capabilities, names(&["files", "time"]));
    assert_eq!(kind.skills, names(&["maps"]));
    assert_eq!(kind.instructions_path, "/agents/scout/instructions.md");
}

#[test]
fn kind_directory_must_bear_the_name_of_the_kind() {
    assert_eq!(
        parse_kind("/agents/ranger", "ranger", &files(HEADER)).unwrap_err(),
        "kind mismatch in /agents/ranger: directory is 'ranger' but agent.json declares 'scout'",
    );
}

#[test]
fn kind_directory_must_be_complete() {
    let unread = KindFiles { skills_json: Err("no such file".into()), ..files(HEADER) };
    assert_eq!(
        parse_kind("/agents/scout", "scout", &unread).unwrap_err(),
        "reading /agents/scout/skills/skills.json: no such file",
    );
    let silent = KindFiles { has_instructions: false, ..files(HEADER) };
    assert_eq!(
        parse_kind("/agents/scout", "scout", &silent).unwrap_err(),
        "missing instructions.md in /agents/scout",
    );
    let broken = KindFiles { capabilities_json: Ok("[".into()), ..files(HEADER) };
    let error = parse_kind("/agents/scout", "scout", &broken).unwrap_err();
    assert!(error.starts_with("parsing /agents/scout/capabilities/capabilities.json: "), "{error}");
}

#[test]
fn shared_base_declares_no_kind() {
    let capabilities = Ok(r#"{"schema_version": 1, "capabilities": ["time"]}"#.to_string());
    let skills = Ok(r#"{"schema_version": 1, "skills": []}"#.to_string());
    let base = parse_common("/agents/common", false, &capabilities, &skills).expect("a base");
    assert_eq!(base, CommonBase { capabilities: names(&["time"]), skills: Vec::new() });
    let error = parse_common("/agents/common", true, &capabilities, &skills).unwrap_err();
    assert!(error.starts_with("/agents/common must not contain agent.json"), "{error}");
}

#[test]
fn merged_names_come_once() {
    let merged = merge_unique(&names(&["a", "b", "a"]), &names(&["c", "b", "d"]));
    assert_eq!(merged, names(&["a", "b", "c", "d"]));
    assert_eq!(merge_unique(&merged, &Vec::new()), merged);
}

#[test]
fn base_comes_before_what_is_a_kinds_own() {
    let mut scout = kind("scout", &["files", "time"]);
    inherit_base(&mut scout, &CommonBase { capabilities: names(&["time", "log"]), skills: names(&["maps"]) });
    assert_eq!(scout.capabilities, names(&["time", "log", "files"]));
    assert_eq!(scout.skills, names(&["maps"]));
    assert_eq!(scout.kind, "scout");
}

#[test]
fn kinds_stand_in_the_order_of_their_names() {
    let common = CommonBase { capabilities: names(&["log"]), skills: Vec::new() };
    let kinds = vec![kind("worker", &["w"]), kind("a", &["first"]), kind("work", &[]), kind("a", &["second"])];
    let resolved = resolve_kinds("/agents", kinds, &common).expect("kinds");
    let order: Vec<&str> = resolved.iter().map(|k| k.kind.as_str()).collect();
    assert_eq!(order, ["a", "a", "work", "worker"]);
    assert_eq!(resolved[0].capabilities, names(&["log", "first"]));
    assert_eq!(resolved[1].capabilities, names(&["log", "second"]));
    assert_eq!(resolved[3].capabilities, names(&["log", "w"]));
}

#[test]
fn some_kind_must_be_there() {
    let common = CommonBase { capabilities: Vec::new(), skills: Vec::new() };
    assert_eq!(
        resolve_kinds("/agents", Vec::new(), &common).unwrap_err(),
        "no agent kinds found under /agents",
    );
}

#[test]
fn hidden_and_shared_directories_hold_no_kind() {
    assert!(is_kind_dir("scout"));
    assert!(!is_kind_dir(".git"));
    assert!(!is_kind_dir("common"));
    assert!(is_kind_dir("commons"));
}

#[test]
fn documents_may_be_lists_of_their_fields() {
    let header = r#"[1, "scout", "Looks around.", [true, ["worker"]], [2]]"#;
    assert_eq!(parse_meta(header), parse_meta(HEADER));
    let counted = r#"[1, "scout", "Looks around.", {"enabled": true, "allowed_kinds": ["worker"]}, [2, 5]]"#;
    assert_eq!(parse_meta(counted).unwrap().tool_block_retries, Some(5));
    assert_eq!(
        parse_meta(r#"[1, "scout", "d", [true, []]]"#).unwrap_err(),
        "missing or invalid field `runtime`"
    );
    assert_eq!(
        parse_meta(r#"[1, "scout", "d", [true, [], 0], [2]]"#).unwrap_err(),
        "missing or invalid field `spawn`"
    );
    assert_eq!(parse_meta(r#"[1, "scout", "d", [true, []], [2], 0]"#).unwrap_err(), "not a header");
    assert_eq!(parse_meta("7").unwrap_err(), "not a header");
    assert_eq!(parse_names(r#"[1, ["maps"]]"#, "skills"), Ok(names(&["maps"])));
    assert_eq!(parse_names(r#"[1, ["maps"], 2]"#, "skills").unwrap_err(), "not a list document");
    assert_eq!(parse_names("[1]", "skills").unwrap_err(), "missing or invalid field `skills`");
}

#[test]
fn fields_of_documents_are_given_once() {
    let header = |spawn: &str, rest: &str| {
        format!(
            r#"{{"schema_version": 1, "kind": "scout", "description": "d", "spawn": {spawn}, "runtime": {{"retries": 2}}{rest}}}"#
        )
    };
    let spawn = r#"{"enabled": true, "allowed_kinds": [], "note": 1e999, "note": "\ud800"}"#;
    assert!(parse_meta(&header(spawn, r#", "x": 1e999, "x": {"kind": 1}"#)).is_ok());
    assert!(parse_meta(&header(spawn, r#", "kind": "scout""#)).is_err());
    assert!(parse_meta(&header(spawn, r#", "runtime": {"retries": 2}"#)).is_err());
    let twice = r#"{"enabled": true, "enabled": true, "allowed_kinds": []}"#;
    assert_eq!(parse_meta(&header(twice, "")).unwrap_err(), "missing or invalid field `spawn.enabled`");
    assert_eq!(
        parse_names(r#"{"schema_version": 1, "skills": [], "skills": []}"#, "skills").unwrap_err(),
        "missing or invalid field `skills`"
    );
}
