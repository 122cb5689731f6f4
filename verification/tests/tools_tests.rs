use scaffolder::db_client::DbClient;
use scaffolder::dialogue::{Database, StackTemplate, UserOptions};
use scaffolder::config::ScaffoldConfig;
use scaffolder::formatters::Formatter;
use scaffolder::linters::Linter;
use scaffolder::test_frameworks::TestFramework;
use scaffolder::toml_parser::TomlTemplate;

fn args(list: &[&str]) -> Vec<String> {
    list.iter().map(|s| s.to_string()).collect()
}

#[test]
fn linter_install_commands() {
    let eslint = Linter::ESLint.get_install_commands();
    assert_eq!(eslint.len(), 1);
    assert_eq!(eslint[0].program, "bun");
    assert_eq!(eslint[0].args, args(&["add", "eslint", "--dev"]));

    let stylelint = Linter::Stylelint.get_install_commands();
    assert_eq!(stylelint[0].args, args(&["add", "stylelint", "--dev"]));

    let clippy = Linter::Clippy.get_install_commands();
    assert_eq!(clippy.len(), 2);
    assert_eq!(clippy[0].program, "rustup");
    assert_eq!(clippy[0].args, args(&["update"]));
    assert_eq!(clippy[1].args, args(&["component", "add", "clippy"]));
}

#[test]
fn formatter_install_commands() {
    let pint = Formatter::Pint.get_install_commands();
    assert_eq!(pint.len(), 1);
    assert_eq!(pint[0].program, "npm");
    assert_eq!(pint[0].args, args(&["install", "pint", "--save-dev"]));

    let rustfmt = Formatter::Rustfmt.get_install_commands();
    assert_eq!(rustfmt.len(), 2);
    assert_eq!(rustfmt[1].args, args(&["component", "add", "rustfmt"]));
}

#[test]
fn test_framework_install_commands() {
    assert_eq!(
        TestFramework::Jest.get_install_commands()[0].args,
        args(&["add", "jest", "--dev"])
    );
    assert_eq!(
        TestFramework::Vitest.get_install_commands()[0].args,
        args(&["add", "vitest", "--dev"])
    );
    let pest = TestFramework::Pest.get_install_commands();
    assert_eq!(pest[0].program, "composer");
    assert_eq!(pest[0].args, args(&["require", "pestphp/pest", "--dev"]));
    assert_eq!(
        TestFramework::Playwright.get_install_commands()[0].args,
        args(&["add", "playwright", "--dev"])
    );
}

fn config_for(stack: StackTemplate, db: Database, orm: bool) -> ScaffoldConfig {
    let template = TomlTemplate::new("title = \"t\"\n\n[deps]\n").expect("parses");
    let options = UserOptions {
        stack,
        output_dir: "t".to_string(),
        app_name: "t".to_string(),
        db: Some(db),
        orm,
        spa: false,
        template_engine: false,
        containers: false,
        test_frameworks: vec![],
    };
    ScaffoldConfig::new(&template, &options).expect("resolves")
}

#[test]
fn db_client_install_commands() {
    let sqlx = config_for(StackTemplate::RSAPI, Database::Sqlite, false);
    let cmds = DbClient::Sqlx.get_install_commands(&sqlx);
    assert_eq!(cmds.len(), 1);
    assert_eq!(cmds[0].program, "cargo");
    assert_eq!(
        cmds[0].args,
        args(&["add", "sqlx", "--features", "runtime-tokio,tls-native-tls,time,migrate,sqlite"])
    );

    let prisma = config_for(StackTemplate::TSAPI, Database::Postgres, true);
    let cmds = DbClient::Prisma.get_install_commands(&prisma);
    assert_eq!(cmds.len(), 2);
    assert_eq!(cmds[0].program, "bun");
    assert_eq!(cmds[0].args, args(&["add", "prisma", "--dev"]));
    assert_eq!(cmds[1].program, "bunx");
    assert_eq!(cmds[1].args, args(&["prisma", "init"]));

    let slonik = config_for(StackTemplate::TSAPI, Database::Postgres, false);
    let cmds = DbClient::Slonik.get_install_commands(&slonik);
    assert_eq!(cmds[0].args, args(&["add", "slonik", "--dev"]));

    let better = config_for(StackTemplate::TSCLI, Database::Sqlite, false);
    let cmds = DbClient::BetterSqlite.get_install_commands(&better);
    assert_eq!(cmds[0].args, args(&["add", "better-sqlite3"]));

    let mongo_rs = config_for(StackTemplate::RSCLI, Database::Mongo, false);
    let cmds = DbClient::MongoDb.get_install_commands(&mongo_rs);
    assert_eq!(cmds[0].program, "cargo");
    assert_eq!(cmds[0].args, args(&["add", "mongodb"]));

    let mongo_ts = config_for(StackTemplate::TSAPI, Database::Mongo, false);
    let cmds = DbClient::MongoDb.get_install_commands(&mongo_ts);
    assert_eq!(cmds[0].program, "bun");

    let mongoose = config_for(StackTemplate::TSAPI, Database::Mongo, true);
    let cmds = DbClient::Mongoose.get_install_commands(&mongoose);
    assert_eq!(cmds[0].args, args(&["add", "mongoose"]));
}
