use scaffolder::config::{ConfigError, Language, ScaffoldConfig};
use scaffolder::formatters::Formatter;
use scaffolder::linters::Linter;
use scaffolder::db_client::DbClient;
use scaffolder::dialogue::{supports_orm, Database, StackTemplate, UserOptions};
use scaffolder::test_frameworks::TestFramework;
use scaffolder::toml_parser::{TemplateParseError, TomlTemplate};

const SMALL_TOML: &str = r#"
title = "small_template"

[deps]
npm = [ { name = "left-pad" } ]
cargo = [ { name = "serde", version = "^1.0.0" } ]
"#;

fn options(stack: StackTemplate, db: Option<Database>, orm: bool) -> UserOptions {
    UserOptions {
        stack,
        output_dir: "demo-app".to_string(),
        app_name: "Demo App".to_string(),
        db,
        orm,
        spa: false,
        template_engine: false,
        containers: false,
        test_frameworks: vec![],
    }
}

fn small_template() -> TomlTemplate {
    TomlTemplate::new(SMALL_TOML).expect("template parses")
}

#[test]
fn dependency_defaults_resolve() {
    // A record with only `name` set gets the deferring version, no dev
    // flag, no features and no hooks.
    let template = small_template();
    let deps = template.get_dependencies();
    let npm = deps.get("npm").expect("npm list");
    assert_eq!(npm.len(), 1);
    let dep = &npm[0];
    assert_eq!(dep.get_name(), "left-pad");
    assert_eq!(dep.get_version(), "latest");
    assert_eq!(dep.is_dev(), false);
    assert!(dep.get_features().is_none());
    assert!(dep.get_then().is_none());
}

#[test]
fn missing_dep_name_is_rejected() {
    let text = r#"
title = "broken"

[deps]
npm = [ { version = "^1.0.0" } ]
"#;
    let err = TomlTemplate::new(text).unwrap_err();
    assert_eq!(err, TemplateParseError::MissingField("name".to_string()));
}

#[test]
fn malformed_then_is_rejected() {
    let text = r#"
title = "broken"

[deps]
npm = [ { name = "x", then = [[]] } ]
"#;
    let err = TomlTemplate::new(text).unwrap_err();
    assert_eq!(err, TemplateParseError::MalformedField("then".to_string()));
}

#[test]
fn malformed_version_is_rejected() {
    let text = r#"
title = "broken"

[deps]
npm = [ { name = "x", version = 3 } ]
"#;
    let err = TomlTemplate::new(text).unwrap_err();
    assert_eq!(err, TemplateParseError::MalformedField("version".to_string()));
}

#[test]
fn missing_title_is_rejected() {
    let err = TomlTemplate::new("[deps]\n").unwrap_err();
    assert_eq!(err, TemplateParseError::MissingField("title".to_string()));
}

#[test]
fn missing_deps_is_rejected() {
    let err = TomlTemplate::new("title = \"t\"\n").unwrap_err();
    assert_eq!(err, TemplateParseError::MissingField("deps".to_string()));
}

#[test]
fn garbage_document_is_rejected() {
    let err = TomlTemplate::new("this is [ not toml").unwrap_err();
    assert_eq!(err, TemplateParseError::InvalidDocument);
}

#[test]
fn rust_postgres_orm_selects_diesel() {
    // Decision table: (Rust stack, Postgres, orm) selects Diesel, and the
    // client's install command carries the Postgres feature flag.
    let template = small_template();
    let config = ScaffoldConfig::new(&template, &options(
        StackTemplate::RSAPI,
        Some(Database::Postgres),
        true,
    ))
    .expect("resolves");
    assert_eq!(config.db_client, Some(DbClient::Diesel));

    let cmds = DbClient::Diesel.get_install_commands(&config);
    assert_eq!(cmds.len(), 1);
    assert_eq!(cmds[0].program, "cargo");
    assert_eq!(
        cmds[0].args,
        vec![
            "add".to_string(),
            "diesel".to_string(),
            "--features".to_string(),
            "postgres".to_string(),
        ]
    );

    // The merge appended the client's package to the cargo list, after the
    // template-declared entries.
    let last = config.cargo_deps.last().expect("merged entry");
    assert_eq!(last.get_name(), "diesel");
    assert_eq!(
        last.get_features().expect("features"),
        &vec!["postgres".to_string()]
    );
    assert_eq!(config.cargo_deps[0].get_name(), "serde");
}

#[test]
fn rust_mongo_orm_is_unsupported() {
    let template = small_template();
    let err = ScaffoldConfig::new(&template, &options(
        StackTemplate::RSAPI,
        Some(Database::Mongo),
        true,
    ))
    .unwrap_err();
    assert_eq!(err, ConfigError::UnsupportedCombination);
}

#[test]
fn decision_table_covers_script_stacks() {
    let template = small_template();
    let cases = [
        (StackTemplate::TSAPI, Database::Postgres, true, DbClient::Prisma),
        (StackTemplate::TSAPI, Database::Postgres, false, DbClient::Slonik),
        (StackTemplate::TSCLI, Database::Sqlite, true, DbClient::Prisma),
        (StackTemplate::TSCLI, Database::Sqlite, false, DbClient::BetterSqlite),
        (StackTemplate::TSAPI, Database::Mongo, true, DbClient::Mongoose),
        (StackTemplate::TSAPI, Database::Mongo, false, DbClient::MongoDb),
        (StackTemplate::RSCLI, Database::Sqlite, true, DbClient::Diesel),
        (StackTemplate::RSCLI, Database::Sqlite, false, DbClient::Sqlx),
        (StackTemplate::RSAPI, Database::Mongo, false, DbClient::MongoDb),
    ];
    for (stack, db, orm, expected) in cases {
        let config = ScaffoldConfig::new(&template, &options(stack, Some(db), orm))
            .expect("resolves");
        assert_eq!(config.db_client, Some(expected));
    }
}

#[test]
fn no_database_no_client() {
    let template = small_template();
    let config =
        ScaffoldConfig::new(&template, &options(StackTemplate::TSAPI, None, false)).expect("ok");
    assert_eq!(config.db, None);
    assert_eq!(config.db_client, None);
    // No client: the dependency lists stay as the template declared them.
    assert_eq!(config.npm_deps.len(), 1);
    assert_eq!(config.cargo_deps.len(), 1);
}

#[test]
fn derived_tool_sets_follow_the_stack() {
    let template = small_template();

    let rust = ScaffoldConfig::new(&template, &options(StackTemplate::RSCLI, None, false))
        .expect("ok");
    assert_eq!(rust.languages, vec![Language::Rust]);
    assert_eq!(rust.linters, vec![Linter::Clippy]);
    assert_eq!(rust.formatters, vec![Formatter::Rustfmt]);
    assert!(rust.has_language(&Language::Rust));
    assert!(!rust.has_language(&Language::TypeScript));

    let mut spa_options = options(StackTemplate::TSAPI, None, false);
    spa_options.spa = true;
    let ts = ScaffoldConfig::new(&template, &spa_options).expect("ok");
    assert_eq!(ts.languages, vec![Language::TypeScript, Language::JavaScript]);
    assert_eq!(ts.linters, vec![Linter::ESLint, Linter::Stylelint]);
    assert_eq!(ts.formatters, vec![]);
}

#[test]
fn selected_test_frameworks_carry_over() {
    let template = small_template();
    let mut opts = options(StackTemplate::TSAPI, None, false);
    opts.test_frameworks = vec![TestFramework::Vitest, TestFramework::Playwright];
    let config = ScaffoldConfig::new(&template, &opts).expect("ok");
    assert_eq!(
        config.test_frameworks,
        vec![TestFramework::Vitest, TestFramework::Playwright]
    );
}

#[test]
fn orm_support_rules() {
    assert!(!supports_orm(StackTemplate::RSAPI, Database::Mongo));
    assert!(!supports_orm(StackTemplate::RSCLI, Database::Mongo));
    assert!(supports_orm(StackTemplate::RSAPI, Database::Postgres));
    assert!(supports_orm(StackTemplate::TSAPI, Database::Mongo));
}

#[test]
fn template_already_declaring_client_is_not_duplicated() {
    let text = r#"
title = "declares_client"

[deps]
cargo = [ { name = "diesel", version = "^2.0.0" } ]
"#;
    let template = TomlTemplate::new(text).expect("parses");
    let config = ScaffoldConfig::new(&template, &options(
        StackTemplate::RSAPI,
        Some(Database::Postgres),
        true,
    ))
    .expect("resolves");
    // The template's own pin is kept; no second diesel entry is appended.
    assert_eq!(config.cargo_deps.len(), 1);
    assert_eq!(config.cargo_deps[0].get_version(), "^2.0.0");
}

#[test]
fn output_dir_is_the_slug_of_the_name() {
    assert_eq!(scaffolder::dialogue::derive_output_dir("My Test App!!"), "my-test-app");
    assert_eq!(scaffolder::dialogue::derive_output_dir("demo"), "demo");
}

#[test]
fn stack_paths_are_fixed() {
    assert_eq!(StackTemplate::RSAPI.get_path(), "templates/rsapi/stack_template.toml");
    assert_eq!(StackTemplate::TSCLI.get_path(), "templates/tscli/stack_template.toml");
    assert_eq!(StackTemplate::RSCLI.template_dir(), "templates/rscli");
    assert_eq!(StackTemplate::TSAPI.template_dir(), "templates/tsapi");
}
