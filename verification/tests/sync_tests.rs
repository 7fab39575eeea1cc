use fumosync::codec::parse_configuration;
use fumosync::config::Configuration;
use fumosync::error::Error;
use fumosync::init::{ensure_target_absent, init_plan};
use fumosync::modules::{is_module_file_name, module_stem, select_modules, EntryKind, PkgEntry};
use fumosync::pull::{pull_plan, wrap_init_error, EditorState};
use fumosync::push::{assemble_actions, build_push, EditorUpdate};

fn demo_state() -> EditorState {
    EditorState {
        name: "demo".to_string(),
        description: "demo".to_string(),
        whitelist: vec!["alice".to_string()],
        is_public: true,
        main_source: "print(1)".to_string(),
        modules: vec![("util".to_string(), "return 1".to_string())],
    }
}

#[test]
fn init_plan_scaffolds_fresh_project() {
    let plan = init_plan(Some("demo".to_string()));
    assert_eq!(plan.subdirs, vec!["pkg".to_string(), ".vscode".to_string()]);
    let paths: Vec<&str> = plan.files.iter().map(|f| f.path.as_str()).collect();
    assert_eq!(
        paths,
        vec![
            ".vscode/settings.json",
            "init.server.luau",
            "README.md",
            "types.d.luau",
            "fumosync.json"
        ]
    );
    assert_eq!(plan.files[2].contents, "# stuff here");
    assert!(plan.files[0].contents.contains("luau-lsp.types.definitionFiles"));
    assert!(plan.files[3].contents.starts_with("declare loadstringEnabled: boolean"));
    let cfg = parse_configuration(&plan.files[4].contents).unwrap();
    assert_eq!(cfg.script_name, "demo");
    assert_eq!(cfg.script_id, "???");
    assert_eq!(cfg.whitelist, Vec::<String>::new());
    assert!(!cfg.is_public);
}

#[test]
fn init_plan_without_name_segment_falls_back_to_unknown() {
    let plan = init_plan(None);
    let cfg = parse_configuration(&plan.files[4].contents).unwrap();
    assert_eq!(cfg.script_name, "unknown");
    assert_eq!(cfg.script_id, "???");
}

#[test]
fn init_refuses_existing_target() {
    assert_eq!(ensure_target_absent("demo".to_string(), false), Ok(()));
    assert_eq!(
        ensure_target_absent("demo".to_string(), true),
        Err(Error::DirectoryAlreadyExists("demo".to_string()))
    );
}

#[test]
fn pull_plan_materializes_snapshot() {
    let writes = pull_plan("42".to_string(), demo_state());
    assert_eq!(writes.len(), 4);
    assert_eq!(writes[0].path, "README.md");
    assert_eq!(writes[0].contents, "demo");
    assert_eq!(writes[1].path, "init.server.luau");
    assert_eq!(writes[1].contents, "print(1)");
    assert_eq!(writes[2].path, "fumosync.json");
    let cfg = parse_configuration(&writes[2].contents).unwrap();
    assert_eq!(cfg.script_name, "demo");
    assert_eq!(cfg.script_id, "42");
    assert_eq!(cfg.whitelist, vec!["alice".to_string()]);
    assert!(cfg.is_public);
    assert_eq!(writes[3].path, "pkg/util.luau");
    assert_eq!(writes[3].contents, "return 1");
}

#[test]
fn pull_wraps_init_failures_distinctly() {
    let inner = Error::CreateDirectory("demo".to_string(), "denied".to_string());
    let wrapped = wrap_init_error(Error::CreateDirectory(
        "demo".to_string(),
        "denied".to_string(),
    ));
    assert_eq!(wrapped, Error::ProjectDidntInitialize(Box::new(inner)));
}

#[test]
fn module_file_names_filter_by_extension() {
    assert!(is_module_file_name("a.luau"));
    assert!(is_module_file_name("a.b.luau"));
    assert!(!is_module_file_name(".luau"));
    assert!(!is_module_file_name("notes.txt"));
    assert!(!is_module_file_name("luau"));
    assert!(!is_module_file_name("a.LUAU"));
    assert_eq!(module_stem("util.luau"), "util");
    assert_eq!(module_stem("a.b.luau"), "a.b");
}

#[test]
fn discovery_keeps_only_module_files() {
    let entries = vec![
        PkgEntry { file_name: "a.luau".to_string(), kind: EntryKind::File },
        PkgEntry { file_name: "b.luau".to_string(), kind: EntryKind::File },
        PkgEntry { file_name: "notes.txt".to_string(), kind: EntryKind::File },
        PkgEntry { file_name: "sub".to_string(), kind: EntryKind::Directory },
        PkgEntry { file_name: "c.luau".to_string(), kind: EntryKind::Directory },
        PkgEntry { file_name: "d.luau".to_string(), kind: EntryKind::Unknown },
    ];
    let selected = select_modules(&entries);
    assert_eq!(
        selected,
        vec![
            ("a".to_string(), "a.luau".to_string()),
            ("b".to_string(), "b.luau".to_string())
        ]
    );
}

#[test]
fn assembled_actions_keep_the_push_order() {
    let cfg = Configuration {
        script_name: "demo".to_string(),
        script_id: "42".to_string(),
        whitelist: vec!["alice".to_string()],
        is_public: true,
    };
    let actions = assemble_actions(
        &cfg,
        "demo".to_string(),
        "print(1)".to_string(),
        vec![
            ("util".to_string(), "return 1".to_string()),
            ("extra".to_string(), "return 2".to_string()),
        ],
    );
    assert_eq!(
        actions,
        vec![
            EditorUpdate::Name("demo".to_string()),
            EditorUpdate::Whitelist(vec!["alice".to_string()]),
            EditorUpdate::Publicity(true),
            EditorUpdate::Description("demo".to_string()),
            EditorUpdate::MainSource("print(1)".to_string()),
            EditorUpdate::Module { name: "util".to_string(), source: "return 1".to_string() },
            EditorUpdate::Module { name: "extra".to_string(), source: "return 2".to_string() },
        ]
    );
}

#[test]
fn push_fails_fast_without_configuration() {
    let r = build_push("", "d".to_string(), "m".to_string(), Vec::new());
    assert_eq!(r, Err(Error::Deserialize));
    let r = build_push("{broken", "d".to_string(), "m".to_string(), Vec::new());
    assert_eq!(r, Err(Error::Deserialize));
}

#[test]
fn pull_then_push_reconstructs_the_snapshot() {
    let state = demo_state();
    let writes = pull_plan("42".to_string(), state.clone());
    let config_text = writes
        .iter()
        .find(|w| w.path == "fumosync.json")
        .map(|w| w.contents.clone())
        .unwrap();
    let entries: Vec<PkgEntry> = writes
        .iter()
        .filter(|w| w.path.starts_with("pkg/"))
        .map(|w| PkgEntry { file_name: w.path["pkg/".len()..].to_string(), kind: EntryKind::File })
        .collect();
    let discovered = select_modules(&entries);
    let modules: Vec<(String, String)> = discovered
        .iter()
        .map(|(name, file)| {
            let w = writes.iter().find(|w| w.path == format!("pkg/{}", file)).unwrap();
            (name.clone(), w.contents.clone())
        })
        .collect();
    let (id, actions) = build_push(
        &config_text,
        writes[0].contents.clone(),
        writes[1].contents.clone(),
        modules,
    )
    .unwrap();
    assert_eq!(id, "42");
    assert_eq!(
        actions,
        vec![
            EditorUpdate::Name(state.name.clone()),
            EditorUpdate::Whitelist(state.whitelist.clone()),
            EditorUpdate::Publicity(state.is_public),
            EditorUpdate::Description(state.description.clone()),
            EditorUpdate::MainSource(state.main_source.clone()),
            EditorUpdate::Module { name: "util".to_string(), source: "return 1".to_string() },
        ]
    );
}

#[test]
fn sentinel_marks_unlinked_projects_only() {
    let init_cfg = parse_configuration(&init_plan(Some("demo".to_string())).files[4].contents)
        .unwrap();
    assert_eq!(init_cfg.script_id, "???");
    assert!(!init_cfg.is_linked());
    let writes = pull_plan("42".to_string(), demo_state());
    let pulled_cfg = parse_configuration(&writes[2].contents).unwrap();
    assert_ne!(pulled_cfg.script_id, "???");
    assert!(pulled_cfg.is_linked());
}
