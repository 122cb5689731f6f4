use scaffolder::pipeline::ContextValue;
use scaffolder::template_generator::{render_tree, RenderError, TemplateTree};
use scaffolder::toml_parser::TomlTemplate;

fn demo_context() -> Vec<(String, ContextValue)> {
    vec![("name".to_string(), ContextValue::Text("demo".to_string()))]
}

#[test]
fn render_tree_substitutes_and_preserves_structure() {
    // A source tree {a.txt, b/c.txt} renders to the same relative paths
    // with the context substituted into each file.
    let tree = TemplateTree {
        files: vec![
            ("a.txt".to_string(), "Hello {{name}}".to_string()),
            ("b/c.txt".to_string(), "{{name}}!".to_string()),
        ],
    };
    let out = render_tree(&tree, &demo_context()).expect("renders");
    assert_eq!(
        out.files,
        vec![
            ("a.txt".to_string(), "Hello demo".to_string()),
            ("b/c.txt".to_string(), "demo!".to_string()),
        ]
    );
}

#[test]
fn render_tree_substitutes_flags() {
    let tree = TemplateTree {
        files: vec![(
            "compose.yml".to_string(),
            "{{#if database}}db: {{app_name}}{{/if}}".to_string(),
        )],
    };
    let context = vec![
        ("database".to_string(), ContextValue::Flag(true)),
        ("app_name".to_string(), ContextValue::Text("demo-app".to_string())),
    ];
    let out = render_tree(&tree, &context).expect("renders");
    assert_eq!(out.files[0].1, "db: demo-app");

    let off = vec![
        ("database".to_string(), ContextValue::Flag(false)),
        ("app_name".to_string(), ContextValue::Text("demo-app".to_string())),
    ];
    let out = render_tree(&tree, &off).expect("renders");
    assert_eq!(out.files[0].1, "");
}

#[test]
fn render_tree_names_the_failing_file() {
    let tree = TemplateTree {
        files: vec![
            ("ok.txt".to_string(), "fine".to_string()),
            ("broken.txt".to_string(), "{{#if}}".to_string()),
        ],
    };
    let err = render_tree(&tree, &demo_context()).unwrap_err();
    assert_eq!(err, RenderError::InvalidTemplate { path: "broken.txt".to_string() });
}

#[test]
fn flatten_end_to_end_scenario() {
    // The folder tree {src, test/{unit, integration}} flattens to exactly
    // that set of leaf paths.
    let text = r#"
title = "scenario"

[deps]

[subfolders]
src = {}

[subfolders.test]
unit = {}
integration = {}
"#;
    let template = TomlTemplate::new(text).expect("parses");
    let subfolders = template.get_subfolders().expect("subfolders present");
    let mut paths: Vec<&str> = subfolders.iter().map(|s| s.as_str()).collect();
    paths.sort();
    assert_eq!(paths, vec!["src", "test/integration", "test/unit"]);
}

#[test]
fn reparsing_yields_the_same_path_set() {
    // Flattening is a pure function of the document: parsing the same text
    // twice yields the same path set.
    let text = r#"
title = "pure"

[deps]

[subfolders]
alpha = {}

[subfolders.beta]
gamma = {}
"#;
    let first = TomlTemplate::new(text).expect("parses");
    let second = TomlTemplate::new(text).expect("parses");
    let mut a: Vec<String> = first.get_subfolders().expect("paths").clone();
    let mut b: Vec<String> = second.get_subfolders().expect("paths").clone();
    a.sort();
    b.sort();
    assert_eq!(a, b);
}
