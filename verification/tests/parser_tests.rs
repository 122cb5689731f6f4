use scaffolder::toml_parser::TomlTemplate;

const MOCK_TOML: &str = r#"
title = "toml_test_template"

[subfolders]
l0foo = {}
l0bar = {}
l0baz = {}

[subfolders.single_depth]
l1foo = {}
l1bar = {}
l1baz = {}

[subfolders.single_depth.double_depth]
l2foo = {}
l2bar = {}
l2baz = {}

[deps]
npm = [
    { name = "test_npm_dep_min" },
    { name = "test_npm_dev_dep_full", version = "^1.0.0", dev = true, then = [["naked_command"], ["command_with_args", "arg1", "arg2"]] },
]
cargo = [
    { name = "test_cargo_dep_min" },
    { name = "test_cargo_dev_dep_full", version = "^1.0.0", dev = true, then = [["naked_command"], ["command_with_args", "arg1", "arg2"]] },
]
composer = [
    { name = "test_composer_dep_min" },
    { name = "test_composer_dev_dep_full", version = "^1.0.0", dev = true, then = [["naked_command"], ["command_with_args", "arg1", "arg2"]] },
]

[scripts.npm]
dev = "test dev"
start = "test prod"
build = "test build"
preview = "test preview"

[scripts.cargo]
dev = "test dev"
start = "test prod"
build = "test build"
preview = "test preview"

[scripts.composer]
dev = "test dev"
start = "test prod"
build = "test build"
preview = "test preview"
"#;

fn ecosystem_keys() -> Vec<String> {
    vec!["npm".to_string(), "cargo".to_string(), "composer".to_string()]
}

#[test]
fn mod_test_parse_toml() {
    let table = TomlTemplate::get_table(MOCK_TOML).expect("Error parsing toml");
    let title = table.get("title").expect("No title key in table");
    match title {
        scaffolder::doc_tree::DocValue::Str(s) => assert_eq!(s.as_str(), "toml_test_template"),
        _ => panic!("Error parsing title"),
    }
}

#[test]
fn extract_npm_deps() {
    let table = TomlTemplate::get_table(MOCK_TOML).expect("Error reading file");
    let parsed_deps = TomlTemplate::parse_deps(&table).expect("Error parsing deps");
    assert!(parsed_deps.contains_key("npm"));

    let npm_deps = parsed_deps.get("npm").expect("Error finding dep");
    assert!(npm_deps.iter().any(|dep| dep.get_name() == "test_npm_dep_min"));
    assert!(npm_deps.iter().any(|dep| dep.get_name() == "test_npm_dev_dep_full"));

    let full_dev_dep = npm_deps
        .iter()
        .find(|dep| dep.get_name() == "test_npm_dev_dep_full")
        .expect("Error finding dep");
    assert_eq!(full_dev_dep.get_version(), "^1.0.0");
    assert_eq!(full_dev_dep.is_dev(), true);

    let then_cmds = full_dev_dep.get_then().expect("Error getting then cmds");
    assert_eq!(then_cmds.len(), 2);
    assert_eq!(then_cmds[0].len(), 1);
    assert_eq!(then_cmds[1].len(), 3);
    assert_eq!(then_cmds[0][0], "naked_command");
    assert_eq!(then_cmds[1][0], "command_with_args");
    assert_eq!(then_cmds[1][1], "arg1");
    assert_eq!(then_cmds[1][2], "arg2");
}

#[test]
fn toml_parser_test_parse_toml() {
    let template = TomlTemplate::new(MOCK_TOML).expect("Error parsing toml");

    let title = template.get_title();
    let deps_table = template.get_dependencies();
    let scripts_table = template.get_scripts().expect("No scripts extracted");
    let subfolders = template.get_subfolders().expect("No subfolders extracted");

    assert_eq!(title, "toml_test_template");

    assert!(deps_table.contains_key("npm"));
    assert!(deps_table.contains_key("cargo"));
    assert!(deps_table.contains_key("composer"));

    assert!(scripts_table.contains_key("npm"));
    assert!(scripts_table.contains_key("cargo"));
    assert!(scripts_table.contains_key("composer"));

    assert!(!subfolders.is_empty());
}

#[test]
fn test_parse_deps() {
    let table = get_doc_table();
    let deps_table = table.get("deps").expect("No deps keys found in TOML template file");
    let parsed_deps = TomlTemplate::fetch_deps(&ecosystem_keys(), deps_table)
        .expect("Error parsing deps");
    assert!(parsed_deps.contains_key("npm"));
    assert!(parsed_deps.contains_key("cargo"));
    assert!(parsed_deps.contains_key("composer"));
}

#[test]
fn fetch_npm_deps() {
    let table = get_doc_table();
    let deps_table = table.get("deps").expect("No deps keys found in TOML template file");
    let parsed_deps = TomlTemplate::fetch_deps(&vec!["npm".to_string()], deps_table)
        .expect("Error parsing deps");
    assert!(parsed_deps.contains_key("npm"));

    let npm_deps = parsed_deps.get("npm").expect("Error finding dep");
    assert!(npm_deps.iter().any(|dep| dep.get_name() == "test_npm_dep_min"));
    assert!(npm_deps.iter().any(|dep| dep.get_name() == "test_npm_dev_dep_full"));

    let full_dev_dep = npm_deps
        .iter()
        .find(|dep| dep.get_name() == "test_npm_dev_dep_full")
        .expect("Error finding dep");
    assert_eq!(full_dev_dep.get_version(), "^1.0.0");
    assert_eq!(full_dev_dep.is_dev(), true);

    let then_cmds = full_dev_dep.get_then().expect("Error getting then cmds");
    assert_eq!(then_cmds.len(), 2);
    assert_eq!(then_cmds[0].len(), 1);
    assert_eq!(then_cmds[1].len(), 3);
    assert_eq!(then_cmds[0][0], "naked_command");
    assert_eq!(then_cmds[1][0], "command_with_args");
    assert_eq!(then_cmds[1][1], "arg1");
    assert_eq!(then_cmds[1][2], "arg2");
}

#[test]
fn fetch_cargo_deps() {
    let table = get_doc_table();
    let deps_table = table.get("deps").expect("No deps keys found in TOML template file");
    let parsed_deps = TomlTemplate::fetch_deps(&vec!["cargo".to_string()], deps_table)
        .expect("Error parsing deps");
    assert!(parsed_deps.contains_key("cargo"));

    let cargo_deps = parsed_deps.get("cargo").expect("Error finding dep");
    assert!(cargo_deps.iter().any(|dep| dep.get_name() == "test_cargo_dep_min"));
    assert!(cargo_deps.iter().any(|dep| dep.get_name() == "test_cargo_dev_dep_full"));

    let full_dev_dep = cargo_deps
        .iter()
        .find(|dep| dep.get_name() == "test_cargo_dev_dep_full")
        .expect("Error finding dep");
    assert_eq!(full_dev_dep.get_version(), "^1.0.0");
    assert_eq!(full_dev_dep.is_dev(), true);

    let then_cmds = full_dev_dep.get_then().expect("Error getting then cmds");
    assert_eq!(then_cmds.len(), 2);
    assert_eq!(then_cmds[0].len(), 1);
    assert_eq!(then_cmds[1].len(), 3);
    assert_eq!(then_cmds[0][0], "naked_command");
    assert_eq!(then_cmds[1][0], "command_with_args");
    assert_eq!(then_cmds[1][1], "arg1");
    assert_eq!(then_cmds[1][2], "arg2");
}

#[test]
fn fetch_composer_deps() {
    let table = get_doc_table();
    let deps_table = table.get("deps").expect("No deps keys found in TOML template file");
    let parsed_deps =
        TomlTemplate::fetch_deps(&vec!["composer".to_string()], deps_table)
            .expect("Error parsing deps");
    assert!(parsed_deps.contains_key("composer"));

    let composer_deps = parsed_deps.get("composer").expect("Error finding dep");
    assert!(composer_deps.iter().any(|dep| dep.get_name() == "test_composer_dep_min"));
    assert!(composer_deps.iter().any(|dep| dep.get_name() == "test_composer_dev_dep_full"));

    let full_dev_dep = composer_deps
        .iter()
        .find(|dep| dep.get_name() == "test_composer_dev_dep_full")
        .expect("Error finding dep");
    assert_eq!(full_dev_dep.get_version(), "^1.0.0");
    assert_eq!(full_dev_dep.is_dev(), true);

    let then_cmds = full_dev_dep.get_then().expect("Error getting then cmds");
    assert_eq!(then_cmds.len(), 2);
    assert_eq!(then_cmds[0].len(), 1);
    assert_eq!(then_cmds[1].len(), 3);
    assert_eq!(then_cmds[0][0], "naked_command");
    assert_eq!(then_cmds[1][0], "command_with_args");
    assert_eq!(then_cmds[1][1], "arg1");
    assert_eq!(then_cmds[1][2], "arg2");
}

#[test]
fn extract_npm_scripts() {
    let table = TomlTemplate::get_table(MOCK_TOML).expect("Error reading file");
    let parsed_scripts = TomlTemplate::parse_scripts(&table)
        .expect("Error parsing deps")
        .expect("Error parsing deps");

    assert!(parsed_scripts.contains_key("npm"));
    let npm_scripts = parsed_scripts.get("npm").expect("Error getting npm scripts");

    assert_eq!(npm_scripts.get("dev").unwrap().as_str(), "test dev");
    assert_eq!(npm_scripts.get("start").unwrap().as_str(), "test prod");
    assert_eq!(npm_scripts.get("build").unwrap().as_str(), "test build");
    assert_eq!(npm_scripts.get("preview").unwrap().as_str(), "test preview");
}

#[test]
fn extract_composer_scripts() {
    let table = TomlTemplate::get_table(MOCK_TOML).expect("Error reading file");
    let parsed_scripts = TomlTemplate::parse_scripts(&table)
        .expect("Error parsing deps")
        .expect("Error parsing deps");

    assert!(parsed_scripts.contains_key("composer"));
    let composer_scripts = parsed_scripts.get("composer").expect("Error getting composer scripts");

    assert_eq!(composer_scripts.get("dev").unwrap().as_str(), "test dev");
    assert_eq!(composer_scripts.get("start").unwrap().as_str(), "test prod");
    assert_eq!(composer_scripts.get("build").unwrap().as_str(), "test build");
    assert_eq!(composer_scripts.get("preview").unwrap().as_str(), "test preview");
}

#[test]
fn extract_subfolders() {
    let table = TomlTemplate::get_table(MOCK_TOML).expect("Error reading file");
    let folder_tree = TomlTemplate::parse_subfolders(&table).expect("Error parsing toml");

    assert!(folder_tree.is_some());
    let folder_tree = folder_tree.unwrap();

    assert_eq!(folder_tree.len(), 9);
    assert!(folder_tree.iter().any(|p| p == "l0foo"));
    assert!(folder_tree.iter().any(|p| p == "l0bar"));
    assert!(folder_tree.iter().any(|p| p == "l0baz"));
    assert!(folder_tree.iter().any(|p| p == "single_depth/l1foo"));
    assert!(folder_tree.iter().any(|p| p == "single_depth/l1bar"));
    assert!(folder_tree.iter().any(|p| p == "single_depth/l1baz"));
    assert!(folder_tree.iter().any(|p| p == "single_depth/double_depth/l2foo"));
    assert!(folder_tree.iter().any(|p| p == "single_depth/double_depth/l2bar"));
    assert!(folder_tree.iter().any(|p| p == "single_depth/double_depth/l2baz"));
}

// Helpers
fn get_doc_table() -> scaffolder::doc_tree::DocValue {
    TomlTemplate::get_table(MOCK_TOML).expect("Error reading file")
}
