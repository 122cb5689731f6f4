use scaffolder::builder::ProjectBuilder;
use scaffolder::config::ScaffoldConfig;
use scaffolder::db_client::DbClient;
use scaffolder::dialogue::{Database, StackTemplate, UserOptions};
use scaffolder::engine::PipelineRun;
use scaffolder::module::{generate_then_cmds, get_cargo_cmds, get_npm_cmds, Module, NpmDeps};
use scaffolder::pipeline::{ContextValue, Operation, StageKind};
use scaffolder::toml_parser::TomlTemplate;

const PIPELINE_TOML: &str = r#"
title = "pipeline_template"

[subfolders]
src = {}

[deps]
npm = [ { name = "left-pad" } ]
cargo = [ { name = "serde" } ]

[scripts.npm]
dev = "vite dev"
"#;

fn demo_options() -> UserOptions {
    UserOptions {
        stack: StackTemplate::RSAPI,
        output_dir: "demo-app".to_string(),
        app_name: "Demo App".to_string(),
        db: Some(Database::Postgres),
        orm: true,
        spa: false,
        template_engine: false,
        containers: true,
        test_frameworks: vec![],
    }
}

fn demo_config() -> ScaffoldConfig {
    let template = TomlTemplate::new(PIPELINE_TOML).expect("parses");
    ScaffoldConfig::new(&template, &demo_options()).expect("resolves")
}

fn stage_kinds(p: &scaffolder::pipeline::Pipeline) -> Vec<StageKind> {
    p.stages.iter().map(|s| s.kind).collect()
}

#[test]
fn stage_order_is_fixed() {
    // The compiled stage order never depends on the configuration.
    let p = ProjectBuilder::build(&demo_config());
    assert_eq!(
        stage_kinds(&p),
        vec![
            StageKind::MakeFolders,
            StageKind::PreInstallTemplates,
            StageKind::EcosystemInit,
            StageKind::DependencyInstall,
            StageKind::DatabaseClientInstall,
            StageKind::LinterInstall,
            StageKind::FormatterInstall,
            StageKind::TestFrameworkInstall,
            StageKind::StackSpecificPostInstall,
            StageKind::PostInstallTemplates,
            StageKind::ContainerGeneration,
            StageKind::ScriptConfiguration,
            StageKind::VersionControlInit,
        ]
    );

    // MakeFolders precedes every stage that runs a command, and the
    // post-install template stage follows every install stage.
    let first_run_command = p
        .stages
        .iter()
        .position(|s| {
            s.operations.iter().any(|op| matches!(op, Operation::RunCommand { .. }))
        })
        .expect("some stage runs a command");
    assert!(first_run_command > 0);
    let post_install = p
        .stages
        .iter()
        .position(|s| s.kind == StageKind::PostInstallTemplates)
        .unwrap();
    let last_install = p
        .stages
        .iter()
        .rposition(|s| {
            matches!(
                s.kind,
                StageKind::DependencyInstall
                    | StageKind::DatabaseClientInstall
                    | StageKind::LinterInstall
                    | StageKind::FormatterInstall
                    | StageKind::TestFrameworkInstall
            )
        })
        .unwrap();
    assert!(post_install > last_install);
}

#[test]
fn make_folders_creates_each_subfolder() {
    let p = ProjectBuilder::build(&demo_config());
    let folders = &p.stages[0].operations;
    assert_eq!(folders.len(), 1);
    assert_eq!(
        folders[0],
        Operation::CreateDirectory { path: "demo-app/src".to_string() }
    );
}

#[test]
fn dependency_install_follows_document_order() {
    // One install command per dependency, hooks right after their own
    // dependency, npm before cargo, derived client entry last.
    let config = demo_config();
    let p = ProjectBuilder::build(&config);
    let install = &p.stages[3].operations;
    let programs: Vec<(String, Vec<String>)> = install
        .iter()
        .map(|op| match op {
            Operation::RunCommand { command } => (command.program.clone(), command.args.clone()),
            other => panic!("unexpected operation {:?}", other),
        })
        .collect();
    assert_eq!(programs.len(), 3);
    assert_eq!(programs[0].0, "bun");
    assert_eq!(programs[0].1, vec!["add".to_string(), "left-pad".to_string()]);
    assert_eq!(programs[1].0, "cargo");
    assert_eq!(programs[1].1, vec!["add".to_string(), "serde".to_string()]);
    assert_eq!(programs[2].0, "cargo");
    assert_eq!(
        programs[2].1,
        vec![
            "add".to_string(),
            "diesel".to_string(),
            "--features".to_string(),
            "postgres".to_string(),
        ]
    );
}

#[test]
fn hooks_follow_their_dependency_in_order() {
    // A dependency with hooks contributes exactly its install command, then
    // its hook commands, in document order.
    let dep = Module::new(
        "tool".to_string(),
        "^1.0.0".to_string(),
        true,
        Some(vec![
            vec!["naked_command".to_string()],
            vec!["command_with_args".to_string(), "arg1".to_string(), "arg2".to_string()],
        ]),
        None,
    );
    let cmds = get_npm_cmds(&vec![dep]);
    assert_eq!(cmds.len(), 3);
    assert_eq!(cmds[0].program, "bun");
    assert_eq!(
        cmds[0].args,
        vec!["add".to_string(), "tool@^1.0.0".to_string(), "--dev".to_string()]
    );
    assert_eq!(cmds[1].program, "naked_command");
    assert!(cmds[1].args.is_empty());
    assert_eq!(cmds[2].program, "command_with_args");
    assert_eq!(cmds[2].args, vec!["arg1".to_string(), "arg2".to_string()]);
}

#[test]
fn cargo_commands_carry_features_and_env() {
    let dep = Module::new(
        "sqlx".to_string(),
        "latest".to_string(),
        false,
        None,
        Some(vec!["runtime-tokio".to_string(), "postgres".to_string()]),
    );
    let cmds = get_cargo_cmds(&vec![dep]);
    assert_eq!(cmds.len(), 1);
    assert_eq!(cmds[0].program, "cargo");
    assert_eq!(
        cmds[0].args,
        vec![
            "add".to_string(),
            "sqlx".to_string(),
            "--features".to_string(),
            "runtime-tokio,postgres".to_string(),
        ]
    );
    assert_eq!(
        cmds[0].env,
        vec![("CARGO_NET_GIT_FETCH_WITH_CLI".to_string(), "true".to_string())]
    );
}

#[test]
fn then_cmds_expand_in_order() {
    let cmds = generate_then_cmds(&vec![
        vec!["a".to_string(), "x".to_string()],
        vec!["b".to_string()],
    ]);
    assert_eq!(cmds.len(), 2);
    assert_eq!(cmds[0].program, "a");
    assert_eq!(cmds[0].args, vec!["x".to_string()]);
    assert_eq!(cmds[1].program, "b");
    assert!(cmds[1].args.is_empty());
}

#[test]
fn npm_deps_accumulate() {
    let mut deps = NpmDeps::new();
    deps.add(Module::new(
        "left-pad".to_string(),
        "latest".to_string(),
        false,
        None,
        None,
    ));
    let list = deps.get();
    assert_eq!(list.len(), 1);
    assert_eq!(list[0].get_name(), "left-pad");
}

#[test]
fn prisma_setup_lands_in_client_stage() {
    let template = TomlTemplate::new(PIPELINE_TOML).expect("parses");
    let mut opts = demo_options();
    opts.stack = StackTemplate::TSAPI;
    opts.db = Some(Database::Postgres);
    opts.orm = true;
    opts.containers = false;
    let config = ScaffoldConfig::new(&template, &opts).expect("resolves");
    assert_eq!(config.db_client, Some(DbClient::Prisma));
    let p = ProjectBuilder::build(&config);
    let setup = &p.stages[4].operations;
    assert_eq!(setup.len(), 1);
    match &setup[0] {
        Operation::RunCommand { command } => {
            assert_eq!(command.program, "bunx");
            assert_eq!(command.args, vec!["prisma".to_string(), "init".to_string()]);
        },
        other => panic!("unexpected operation {:?}", other),
    }
}

#[test]
fn container_stage_renders_and_relocates() {
    let p = ProjectBuilder::build(&demo_config());
    let ops = &p.stages[10].operations;
    assert_eq!(ops.len(), 2);
    match &ops[0] {
        Operation::RenderTemplateTree { src, dst, context } => {
            assert_eq!(src, "templates/rsapi/docker");
            assert_eq!(dst, "docker");
            assert!(context.contains(&(
                "app_name".to_string(),
                ContextValue::Text("demo-app".to_string())
            )));
            assert!(context.contains(&(
                "deps_name".to_string(),
                ContextValue::Text("demo_app".to_string())
            )));
            assert!(context.contains(&("postgres".to_string(), ContextValue::Flag(true))));
            assert!(context.contains(&("mongo".to_string(), ContextValue::Flag(false))));
        },
        other => panic!("unexpected operation {:?}", other),
    }
    match &ops[1] {
        Operation::RunCommand { command } => {
            assert_eq!(command.program, "mv");
        },
        other => panic!("unexpected operation {:?}", other),
    }
}

#[test]
fn scripts_and_vcs_close_the_pipeline() {
    let p = ProjectBuilder::build(&demo_config());
    let scripts = &p.stages[11].operations;
    assert_eq!(
        scripts[0],
        Operation::SetScript {
            ecosystem: "npm".to_string(),
            name: "dev".to_string(),
            value: "vite dev".to_string(),
        }
    );
    let vcs = &p.stages[12].operations;
    assert_eq!(vcs.len(), 4);
    match &vcs[0] {
        Operation::RunCommand { command } => {
            assert_eq!(command.program, "git");
            assert_eq!(command.args, vec!["init".to_string()]);
        },
        other => panic!("unexpected operation {:?}", other),
    }
}

#[test]
fn engine_hands_operations_out_in_order_and_reports() {
    let p = ProjectBuilder::build(&demo_config());
    let total: usize = p.stages.iter().map(|s| s.operations.len()).sum();
    let first_path = match &p.stages[0].operations[0] {
        Operation::CreateDirectory { path } => path.clone(),
        other => panic!("unexpected first operation {:?}", other),
    };
    let mut run = PipelineRun::new(p);
    let mut seen: usize = 0;
    loop {
        let created = match run.current_operation() {
            None => break,
            Some(Operation::CreateDirectory { path }) => Some(path.clone()),
            Some(_) => None,
        };
        if seen == 0 {
            assert_eq!(created.expect("first operation creates a directory"), first_path);
        }
        run.record_success(format!("out{}", seen), String::new());
        seen += 1;
    }
    assert_eq!(seen, total);
    assert!(run.is_finished());
    let report = run.into_result().expect("completed run");
    assert_eq!(report.outputs.len(), total);
    assert_eq!(report.outputs[0].stdout, "out0");
}

#[test]
fn engine_halts_at_the_first_failure() {
    let p = ProjectBuilder::build(&demo_config());
    let mut run = PipelineRun::new(p);
    assert!(run.current_operation().is_some());
    run.record_success("".to_string(), "".to_string());
    assert!(run.current_operation().is_some());
    run.record_failure("directory exists".to_string());
    assert!(run.current_operation().is_none());
    assert!(run.is_finished());
    let err = run.into_result().unwrap_err();
    assert_eq!(err.stage, StageKind::PreInstallTemplates);
    assert_eq!(err.operation_index, 0);
    assert_eq!(err.message, "directory exists");
}

#[test]
fn no_subfolders_creates_root_only() {
    let template = TomlTemplate::new("title = \"bare\"\n\n[deps]\n").expect("parses");
    let mut opts = demo_options();
    opts.db = None;
    opts.orm = false;
    opts.containers = false;
    let config = ScaffoldConfig::new(&template, &opts).expect("resolves");
    let p = ProjectBuilder::build(&config);
    assert_eq!(
        p.stages[0].operations,
        vec![Operation::CreateDirectory { path: "demo-app".to_string() }]
    );
    // No dependencies: no ecosystem initialisation and no installs.
    assert!(p.stages[2].operations.is_empty());
    assert!(p.stages[3].operations.is_empty());
    // No containers: the container stage is present but empty.
    assert!(p.stages[10].operations.is_empty());
}

#[test]
fn stack_specific_stage_follows_the_flags() {
    let template = TomlTemplate::new(PIPELINE_TOML).expect("parses");
    let mut opts = demo_options();
    opts.stack = StackTemplate::TSAPI;
    opts.db = None;
    opts.orm = false;
    opts.containers = false;
    opts.spa = true;
    opts.template_engine = true;
    let config = ScaffoldConfig::new(&template, &opts).expect("resolves");
    let p = ProjectBuilder::build(&config);
    let ops = &p.stages[8].operations;
    assert_eq!(ops.len(), 2);
    match &ops[0] {
        Operation::RunCommand { command } => {
            assert_eq!(command.program, "bun");
            assert_eq!(
                command.args,
                vec![
                    "add".to_string(),
                    "handlebars".to_string(),
                    "--features".to_string(),
                    "dir_source".to_string(),
                ]
            );
        }
        other => panic!("unexpected operation {:?}", other),
    }
    match &ops[1] {
        Operation::RunCommand { command } => {
            assert_eq!(command.program, "bun");
            assert_eq!(command.args, vec!["create".to_string(), "vue@latest".to_string()]);
        }
        other => panic!("unexpected operation {:?}", other),
    }
    // A TypeScript stack removes its boilerplate entry file before the
    // post-install templates are copied.
    let post = &p.stages[9].operations;
    assert_eq!(post.len(), 2);
    match &post[0] {
        Operation::RunCommand { command } => {
            assert_eq!(command.program, "rm");
            assert_eq!(command.args, vec!["-f".to_string(), "index.ts".to_string()]);
        }
        other => panic!("unexpected operation {:?}", other),
    }
    match &post[1] {
        Operation::CopyTree { src, dst } => {
            assert_eq!(src, "templates/tsapi/after_install");
            assert_eq!(dst, ".");
        }
        other => panic!("unexpected operation {:?}", other),
    }
}

#[test]
fn init_commands_follow_the_merged_lists() {
    let p = ProjectBuilder::build(&demo_config());
    let init = &p.stages[2].operations;
    // Both ecosystems hold dependencies: cargo initialises first, then npm,
    // and the package name is registered.
    assert_eq!(init.len(), 3);
    match &init[0] {
        Operation::RunCommand { command } => {
            assert_eq!(command.program, "cargo");
            assert_eq!(command.args, vec!["init".to_string()]);
        }
        other => panic!("unexpected operation {:?}", other),
    }
    match &init[2] {
        Operation::RunCommand { command } => {
            assert_eq!(command.program, "npm");
            assert_eq!(
                command.args,
                vec![
                    "pkg".to_string(),
                    "set".to_string(),
                    "name".to_string(),
                    "Demo App".to_string(),
                ]
            );
        }
        other => panic!("unexpected operation {:?}", other),
    }
}
