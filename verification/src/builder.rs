//! The command plan compiler: turns a resolved configuration into the fixed
//! thirteen-stage pipeline. Compilation is total — every fallible check
//! happened during resolution — and the stage order never depends on the
//! input.

use vstd::prelude::*;
use vstd::string::StringExecFns;
use crate::config::{ScaffoldConfig, ScaffoldConfigView};
use crate::container::spec_container_ops;
use crate::db_client::{
    client_dep, client_ecosystem, client_setup_cmds, db_client_cmds, DbClient,
};
use crate::dialogue::StackTemplate;
use crate::formatters::{formatter_cmds, Formatter};
use crate::linters::{linter_cmds, Linter};
use crate::module::{
    cargo_cmds, cargo_module_cmds, get_cargo_cmds, get_npm_cmds, module_hook_cmds, npm_cmds,
    npm_module_cmds, then_wf,
};
use crate::pipeline::{
    args1, args2, args3, args4, plain_command, single_command, stage_kind_order, CommandSpec,
    CommandSpecView, Operation, OperationView, Pipeline, Stage, StageKind, StageView,
    is_run_command, stage_runs_commands,
};
use crate::test_frameworks::{test_framework_cmds, TestFramework};
use crate::toml_parser::StringMap;
use crate::container::ContainerBuilder;

verus! {

/// Commands wrapped as run-command operations, in order.
pub open spec fn cmds_to_ops(cs: Seq<CommandSpecView>) -> Seq<OperationView> {
    cs.map_values(|c: CommandSpecView| OperationView::RunCommand { command: c })
}

/// The folder-creation operations: one directory per flattened subfolder
/// path under the project root, in flattening order; a template without
/// subfolders creates the root alone.
pub open spec fn spec_make_folder_ops(root: Seq<char>, sf: Option<Seq<Seq<char>>>) -> Seq<
    OperationView,
> {
    match sf {
        Option::Some(paths) => if paths.len() == 0 {
            seq![OperationView::CreateDirectory { path: root }]
        } else {
            Seq::new(
                paths.len(),
                |i: int| OperationView::CreateDirectory { path: root + "/"@ + paths[i] },
            )
        },
        Option::None => seq![OperationView::CreateDirectory { path: root }],
    }
}

/// The pre-install template copy: the `before_install` subtree into the
/// project root.
pub open spec fn spec_pre_install_ops(c: ScaffoldConfigView) -> Seq<OperationView> {
    seq![
        OperationView::CopyTree { src: c.template_dir + "/before_install"@, dst: "."@ },
    ]
}

/// The ecosystem initialisation commands: one initialiser per ecosystem
/// that has at least one dependency.
pub open spec fn spec_init_cmds(c: ScaffoldConfigView) -> Seq<CommandSpecView> {
    (if c.cargo_deps.len() > 0 {
        seq![plain_command("cargo"@, seq!["init"@])]
    } else {
        Seq::<CommandSpecView>::empty()
    }) + (if c.npm_deps.len() > 0 {
        seq![
            plain_command("bun"@, seq!["init"@, "-y"@]),
            plain_command("npm"@, seq!["pkg"@, "set"@, "name"@, c.title]),
        ]
    } else {
        Seq::<CommandSpecView>::empty()
    })
}

/// The dependency install commands of the whole configuration: the npm
/// list, then the cargo list, each in document order with derived entries
/// last.
pub open spec fn spec_install_cmds(c: ScaffoldConfigView) -> Seq<CommandSpecView> {
    npm_cmds(c.npm_deps) + cargo_cmds(c.cargo_deps)
}

/// The client setup commands of the configuration, if a client is resolved.
pub open spec fn spec_db_setup_cmds(c: ScaffoldConfigView) -> Seq<CommandSpecView> {
    match c.db_client {
        Option::Some(cl) => client_setup_cmds(cl),
        Option::None => Seq::empty(),
    }
}

/// The install commands of a linter list, in order.
pub open spec fn all_linter_cmds(ls: Seq<Linter>) -> Seq<CommandSpecView>
    decreases ls.len(),
{
    if ls.len() == 0 {
        Seq::empty()
    } else {
        all_linter_cmds(ls.drop_last()) + linter_cmds(ls.last())
    }
}

/// The install commands of a formatter list, in order.
pub open spec fn all_formatter_cmds(fs: Seq<Formatter>) -> Seq<CommandSpecView>
    decreases fs.len(),
{
    if fs.len() == 0 {
        Seq::empty()
    } else {
        all_formatter_cmds(fs.drop_last()) + formatter_cmds(fs.last())
    }
}

/// The install commands of a test framework list, in order.
pub open spec fn all_test_framework_cmds(ts: Seq<TestFramework>) -> Seq<CommandSpecView>
    decreases ts.len(),
{
    if ts.len() == 0 {
        Seq::empty()
    } else {
        all_test_framework_cmds(ts.drop_last()) + test_framework_cmds(ts.last())
    }
}

/// The stack-specific post-install commands: a template-rendering library
/// when the template-engine flag is set on a web stack, and a single-page
/// frontend scaffold when the frontend flag is set there.
pub open spec fn spec_stack_specific_ops(c: ScaffoldConfigView) -> Seq<OperationView> {
    cmds_to_ops(
        (if (c.stack == StackTemplate::RSAPI || c.stack == StackTemplate::TSAPI)
            && c.template_engine {
            if c.stack == StackTemplate::TSAPI {
                seq![
                    plain_command(
                        "bun"@,
                        seq!["add"@, "handlebars"@, "--features"@, "dir_source"@],
                    ),
                ]
            } else {
                seq![plain_command("cargo"@, seq!["add"@, "handlebars"@])]
            }
        } else {
            Seq::<CommandSpecView>::empty()
        }) + (if (c.stack == StackTemplate::RSAPI || c.stack == StackTemplate::TSAPI) && c.spa {
            seq![plain_command("bun"@, seq!["create"@, "vue@latest"@])]
        } else {
            Seq::<CommandSpecView>::empty()
        }),
    )
}

/// The post-install template operations: first remove the stack's
/// boilerplate entry file where one exists, then copy the `after_install`
/// subtree into the project root.
pub open spec fn spec_post_templates_ops(c: ScaffoldConfigView) -> Seq<OperationView> {
    (if c.stack == StackTemplate::TSAPI || c.stack == StackTemplate::TSCLI {
        seq![
            OperationView::RunCommand {
                command: plain_command("rm"@, seq!["-f"@, "index.ts"@]),
            },
        ]
    } else {
        Seq::<OperationView>::empty()
    }) + seq![
        OperationView::CopyTree { src: c.template_dir + "/after_install"@, dst: "."@ },
    ]
}

/// One script-registration operation per declared script of one ecosystem.
pub open spec fn script_ops(eco: Seq<char>, m: Option<Seq<(Seq<char>, Seq<char>)>>) -> Seq<
    OperationView,
> {
    match m {
        Option::Some(entries) => entries.map_values(
            |e: (Seq<char>, Seq<char>)|
                OperationView::SetScript { ecosystem: eco, name: e.0, value: e.1 },
        ),
        Option::None => Seq::empty(),
    }
}

/// All script-registration operations: npm scripts, then cargo scripts.
pub open spec fn spec_script_ops(c: ScaffoldConfigView) -> Seq<OperationView> {
    script_ops("npm"@, c.npm_scripts) + script_ops("cargo"@, c.cargo_scripts)
}

/// The version-control initialisation commands, delegated to git.
pub open spec fn spec_vcs_cmds() -> Seq<CommandSpecView> {
    seq![
        plain_command("git"@, seq!["init"@]),
        plain_command("git"@, seq!["checkout"@, "-b"@, "main"@]),
        plain_command("git"@, seq!["add"@, "."@]),
        plain_command("git"@, seq!["commit"@, "-m"@, "Initial commit"@]),
    ]
}

/// The whole compiled pipeline: the thirteen stages in their fixed order,
/// each with exactly the operations its stage contributes.
pub open spec fn spec_compile(c: ScaffoldConfigView) -> Seq<StageView> {
    seq![
        StageView {
            kind: StageKind::MakeFolders,
            operations: spec_make_folder_ops(c.root_dir, c.subfolders),
        },
        StageView { kind: StageKind::PreInstallTemplates, operations: spec_pre_install_ops(c) },
        StageView { kind: StageKind::EcosystemInit, operations: cmds_to_ops(spec_init_cmds(c)) },
        StageView {
            kind: StageKind::DependencyInstall,
            operations: cmds_to_ops(spec_install_cmds(c)),
        },
        StageView {
            kind: StageKind::DatabaseClientInstall,
            operations: cmds_to_ops(spec_db_setup_cmds(c)),
        },
        StageView {
            kind: StageKind::LinterInstall,
            operations: cmds_to_ops(all_linter_cmds(c.linters)),
        },
        StageView {
            kind: StageKind::FormatterInstall,
            operations: cmds_to_ops(all_formatter_cmds(c.formatters)),
        },
        StageView {
            kind: StageKind::TestFrameworkInstall,
            operations: cmds_to_ops(all_test_framework_cmds(c.test_frameworks)),
        },
        StageView {
            kind: StageKind::StackSpecificPostInstall,
            operations: spec_stack_specific_ops(c),
        },
        StageView {
            kind: StageKind::PostInstallTemplates,
            operations: spec_post_templates_ops(c),
        },
        StageView {
            kind: StageKind::ContainerGeneration,
            operations: if c.containers {
                spec_container_ops(c)
            } else {
                Seq::empty()
            },
        },
        StageView { kind: StageKind::ScriptConfiguration, operations: spec_script_ops(c) },
        StageView {
            kind: StageKind::VersionControlInit,
            operations: cmds_to_ops(spec_vcs_cmds()),
        },
    ]
}

/// Wraps commands as run-command operations.
#[verifier::loop_isolation(false)]
fn commands_to_operations(cs: &Vec<CommandSpec>) -> (r: Vec<Operation>)
    ensures
        r.deep_view() == cmds_to_ops(cs.deep_view()),
{
    let mut out: Vec<Operation> = Vec::new();
    let mut i: usize = 0;
    while i < cs.len()
        invariant
            i <= cs@.len(),
            out@.len() == i,
            forall|k: int| 0 <= k < i ==> out.deep_view()[k] == cmds_to_ops(cs.deep_view())[k],
        decreases cs@.len() - i,
    {
        let ghost pre = out.deep_view();
        out.push(Operation::RunCommand { command: cs[i].clone() });
        proof {
            assert forall|k: int| 0 <= k < i + 1 implies out.deep_view()[k] == cmds_to_ops(
                cs.deep_view(),
            )[k] by {
                if k < i {
                    assert(out.deep_view()[k] == pre[k]);
                } else {
                    assert(out.deep_view()[k] == (OperationView::RunCommand {
                        command: cs.deep_view()[k],
                    }));
                }
            }
        }
        i = i + 1;
    }
    proof {
        assert(out.deep_view() =~= cmds_to_ops(cs.deep_view()));
    }
    out
}

/// The folder-creation operations for a root directory and its flattened
/// subfolder paths.
#[verifier::loop_isolation(false)]
pub fn make_folders(root_dir: &String, subfolders: &Option<Vec<String>>) -> (r: Vec<Operation>)
    ensures
        r.deep_view() == spec_make_folder_ops(root_dir@, subfolders.deep_view()),
{
    match subfolders {
        Option::Some(paths) if paths.len() > 0 => {
            let mut out: Vec<Operation> = Vec::new();
            let mut i: usize = 0;
            while i < paths.len()
                invariant
                    i <= paths@.len(),
                    out@.len() == i,
                    forall|k: int| 0 <= k < i ==> out.deep_view()[k]
                        == (OperationView::CreateDirectory {
                        path: root_dir@ + "/"@ + paths.deep_view()[k],
                    }),
                decreases paths@.len() - i,
            {
                let ghost pre = out.deep_view();
                let joined = root_dir.clone().concat("/").concat(paths[i].as_str());
                let ghost jv = joined@;
                out.push(Operation::CreateDirectory { path: joined });
                proof {
                    assert forall|k: int| 0 <= k < i + 1 implies out.deep_view()[k]
                        == (OperationView::CreateDirectory {
                        path: root_dir@ + "/"@ + paths.deep_view()[k],
                    }) by {
                        if k < i {
                            assert(out.deep_view()[k] == pre[k]);
                        } else {
                            assert(out.deep_view()[k] == (OperationView::CreateDirectory {
                                path: jv,
                            }));
                            assert(jv == root_dir@ + "/"@ + paths.deep_view()[k]);
                        }
                    }
                }
                i = i + 1;
            }
            proof {
                assert(out.deep_view() =~= spec_make_folder_ops(
                    root_dir@,
                    subfolders.deep_view(),
                ));
            }
            out
        },
        _ => {
            let mut out: Vec<Operation> = Vec::new();
            out.push(Operation::CreateDirectory { path: root_dir.clone() });
            proof {
                assert(out.deep_view() =~= spec_make_folder_ops(
                    root_dir@,
                    subfolders.deep_view(),
                ));
            }
            out
        },
    }
}

/// The pre-install template copy for a configuration.
pub fn pre_install_commands(config: &ScaffoldConfig) -> (r: Vec<Operation>)
    ensures
        r.deep_view() == spec_pre_install_ops(config@),
{
    let mut out: Vec<Operation> = Vec::new();
    out.push(
        Operation::CopyTree {
            src: config.template_dir.clone().concat("/before_install"),
            dst: ".".to_owned(),
        },
    );
    proof {
        assert(out.deep_view() =~= spec_pre_install_ops(config@));
    }
    out
}

/// The ecosystem initialisation commands for a configuration.
pub fn generate_init_cmds(config: &ScaffoldConfig) -> (r: Vec<CommandSpec>)
    ensures
        r.deep_view() == spec_init_cmds(config@),
{
    let mut commands: Vec<CommandSpec> = Vec::new();
    if config.cargo_deps.len() > 0 {
        commands.push(CommandSpec::new("cargo".to_owned(), args1("init")));
    }
    let ghost first = commands.deep_view();
    if config.npm_deps.len() > 0 {
        commands.push(CommandSpec::new("bun".to_owned(), args2("init", "-y")));
        let mut name_args = args3("pkg", "set", "name");
        let ghost pre_args = name_args.deep_view();
        name_args.push(config.title.clone());
        proof {
            assert(name_args.deep_view() =~= pre_args.push(config.title@));
            assert(name_args.deep_view() =~= seq!["pkg"@, "set"@, "name"@, config.title@]);
        }
        commands.push(CommandSpec::new("npm".to_owned(), name_args));
    }
    proof {
        assert(commands.deep_view() =~= spec_init_cmds(config@));
    }
    commands
}

/// The dependency install commands of a configuration: the npm list, then
/// the cargo list.
pub fn install_commands(config: &ScaffoldConfig) -> (r: Vec<CommandSpec>)
    requires
        config.wf(),
    ensures
        r.deep_view() == spec_install_cmds(config@),
{
    proof {
        assert forall|i: int| 0 <= i < config.npm_deps@.len() implies (
        #[trigger] config.npm_deps@[i]).wf() by {
            assert(then_wf(config@.npm_deps[i].then_cmds));
        }
        assert forall|i: int| 0 <= i < config.cargo_deps@.len() implies (
        #[trigger] config.cargo_deps@[i]).wf() by {
            assert(then_wf(config@.cargo_deps[i].then_cmds));
        }
    }
    let mut commands = get_npm_cmds(&config.npm_deps);
    let ghost npm = commands.deep_view();
    let mut cargo = get_cargo_cmds(&config.cargo_deps);
    let ghost cg = cargo.deep_view();
    commands.append(&mut cargo);
    proof {
        assert(commands.deep_view() =~= npm + cg);
    }
    commands
}

/// The client setup commands of a configuration.
pub fn db_setup_commands(config: &ScaffoldConfig) -> (r: Vec<CommandSpec>)
    ensures
        r.deep_view() == spec_db_setup_cmds(config@),
{
    match &config.db_client {
        Option::Some(DbClient::Prisma) => {
            let r = single_command(
                CommandSpec::new("bunx".to_owned(), args2("prisma", "init")),
            );
            proof {
                assert(r.deep_view() =~= spec_db_setup_cmds(config@));
            }
            r
        },
        _ => {
            let r: Vec<CommandSpec> = Vec::new();
            proof {
                assert(r.deep_view() =~= spec_db_setup_cmds(config@));
            }
            r
        },
    }
}

/// The install commands of a linter list.
#[verifier::loop_isolation(false)]
pub fn generate_linter_cmds(linters: &Vec<Linter>) -> (r: Vec<CommandSpec>)
    ensures
        r.deep_view() == all_linter_cmds(linters@),
{
    let mut commands: Vec<CommandSpec> = Vec::new();
    proof {
        assert(linters@.take(0) =~= Seq::<Linter>::empty());
        assert(commands.deep_view() =~= Seq::<CommandSpecView>::empty());
    }
    let mut i: usize = 0;
    while i < linters.len()
        invariant
            i <= linters@.len(),
            commands.deep_view() == all_linter_cmds(linters@.take(i as int)),
        decreases linters@.len() - i,
    {
        let mut cs = linters[i].get_install_commands();
        let ghost pre = commands.deep_view();
        let ghost csv = cs.deep_view();
        commands.append(&mut cs);
        proof {
            assert(linters@.take(i + 1).drop_last() =~= linters@.take(i as int));
            assert(commands.deep_view() =~= pre + csv);
        }
        i = i + 1;
    }
    proof {
        assert(linters@.take(linters@.len() as int) =~= linters@);
    }
    commands
}

/// The install commands of a formatter list.
#[verifier::loop_isolation(false)]
pub fn generate_formatter_cmds(formatters: &Vec<Formatter>) -> (r: Vec<CommandSpec>)
    ensures
        r.deep_view() == all_formatter_cmds(formatters@),
{
    let mut commands: Vec<CommandSpec> = Vec::new();
    proof {
        assert(formatters@.take(0) =~= Seq::<Formatter>::empty());
        assert(commands.deep_view() =~= Seq::<CommandSpecView>::empty());
    }
    let mut i: usize = 0;
    while i < formatters.len()
        invariant
            i <= formatters@.len(),
            commands.deep_view() == all_formatter_cmds(formatters@.take(i as int)),
        decreases formatters@.len() - i,
    {
        let mut cs = formatters[i].get_install_commands();
        let ghost pre = commands.deep_view();
        let ghost csv = cs.deep_view();
        commands.append(&mut cs);
        proof {
            assert(formatters@.take(i + 1).drop_last() =~= formatters@.take(i as int));
            assert(commands.deep_view() =~= pre + csv);
        }
        i = i + 1;
    }
    proof {
        assert(formatters@.take(formatters@.len() as int) =~= formatters@);
    }
    commands
}

/// The install commands of a test framework list.
#[verifier::loop_isolation(false)]
pub fn generate_test_framework_cmds(frameworks: &Vec<TestFramework>) -> (r: Vec<CommandSpec>)
    ensures
        r.deep_view() == all_test_framework_cmds(frameworks@),
{
    let mut commands: Vec<CommandSpec> = Vec::new();
    proof {
        assert(frameworks@.take(0) =~= Seq::<TestFramework>::empty());
        assert(commands.deep_view() =~= Seq::<CommandSpecView>::empty());
    }
    let mut i: usize = 0;
    while i < frameworks.len()
        invariant
            i <= frameworks@.len(),
            commands.deep_view() == all_test_framework_cmds(frameworks@.take(i as int)),
        decreases frameworks@.len() - i,
    {
        let mut cs = frameworks[i].get_install_commands();
        let ghost pre = commands.deep_view();
        let ghost csv = cs.deep_view();
        commands.append(&mut cs);
        proof {
            assert(frameworks@.take(i + 1).drop_last() =~= frameworks@.take(i as int));
            assert(commands.deep_view() =~= pre + csv);
        }
        i = i + 1;
    }
    proof {
        assert(frameworks@.take(frameworks@.len() as int) =~= frameworks@);
    }
    commands
}

/// The stack-specific post-install operations of a configuration.
pub fn stack_specific_commands(config: &ScaffoldConfig) -> (r: Vec<Operation>)
    ensures
        r.deep_view() == spec_stack_specific_ops(config@),
{
    let web = match config.stack {
        StackTemplate::RSAPI => true,
        StackTemplate::TSAPI => true,
        _ => false,
    };
    let mut commands: Vec<CommandSpec> = Vec::new();
    if web && config.template_engine {
        match config.stack {
            StackTemplate::TSAPI => {
                commands.push(
                    CommandSpec::new(
                        "bun".to_owned(),
                        args4("add", "handlebars", "--features", "dir_source"),
                    ),
                );
            },
            _ => {
                commands.push(CommandSpec::new("cargo".to_owned(), args2("add", "handlebars")));
            },
        }
    }
    let ghost first = commands.deep_view();
    if web && config.spa {
        commands.push(CommandSpec::new("bun".to_owned(), args2("create", "vue@latest")));
    }
    let r = commands_to_operations(&commands);
    proof {
        assert(r.deep_view() =~= spec_stack_specific_ops(config@));
    }
    r
}

/// The post-install template operations of a configuration.
pub fn post_template_commands(config: &ScaffoldConfig) -> (r: Vec<Operation>)
    ensures
        r.deep_view() == spec_post_templates_ops(config@),
{
    let mut out: Vec<Operation> = Vec::new();
    let ts = match config.stack {
        StackTemplate::TSAPI => true,
        StackTemplate::TSCLI => true,
        _ => false,
    };
    if ts {
        out.push(
            Operation::RunCommand {
                command: CommandSpec::new("rm".to_owned(), args2("-f", "index.ts")),
            },
        );
    }
    out.push(
        Operation::CopyTree {
            src: config.template_dir.clone().concat("/after_install"),
            dst: ".".to_owned(),
        },
    );
    proof {
        assert(out.deep_view() =~= spec_post_templates_ops(config@));
    }
    out
}

/// The script-registration operations of one ecosystem's script map.
#[verifier::loop_isolation(false)]
pub fn set_scripts(ecosystem: &str, scripts: &StringMap) -> (r: Vec<Operation>)
    ensures
        r.deep_view() == script_ops(ecosystem@, Option::Some(scripts@)),
{
    let entries = scripts.entries();
    let ghost es = scripts@;
    let mut out: Vec<Operation> = Vec::new();
    let mut i: usize = 0;
    while i < entries.len()
        invariant
            i <= entries@.len(),
            es == entries.deep_view(),
            out@.len() == i,
            forall|k: int| 0 <= k < i ==> out.deep_view()[k] == script_ops(
                ecosystem@,
                Option::Some(es),
            )[k],
        decreases entries@.len() - i,
    {
        let ghost pre = out.deep_view();
        out.push(
            Operation::SetScript {
                ecosystem: ecosystem.to_owned(),
                name: entries[i].0.clone(),
                value: entries[i].1.clone(),
            },
        );
        proof {
            assert forall|k: int| 0 <= k < i + 1 implies out.deep_view()[k] == script_ops(
                ecosystem@,
                Option::Some(es),
            )[k] by {
                if k < i {
                    assert(out.deep_view()[k] == pre[k]);
                } else {
                    assert(es[k] == (entries@[k].0@, entries@[k].1@));
                    assert(out.deep_view()[k] == (OperationView::SetScript {
                        ecosystem: ecosystem@,
                        name: es[k].0,
                        value: es[k].1,
                    }));
                }
            }
        }
        i = i + 1;
    }
    proof {
        assert(out.deep_view() =~= script_ops(ecosystem@, Option::Some(es)));
    }
    out
}

/// The version-control initialisation operations.
pub fn create_repo() -> (r: Vec<Operation>)
    ensures
        r.deep_view() == cmds_to_ops(spec_vcs_cmds()),
{
    let mut commands: Vec<CommandSpec> = Vec::new();
    commands.push(CommandSpec::new("git".to_owned(), args1("init")));
    commands.push(CommandSpec::new("git".to_owned(), args3("checkout", "-b", "main")));
    commands.push(CommandSpec::new("git".to_owned(), args2("add", ".")));
    commands.push(CommandSpec::new("git".to_owned(), args3("commit", "-m", "Initial commit")));
    proof {
        assert(commands.deep_view() =~= spec_vcs_cmds());
    }
    commands_to_operations(&commands)
}

/// The stages that run after every install: stack-specific commands, the
/// post-install templates, container generation, script registration, and
/// version-control initialisation, in that order.
pub fn post_install_commands(config: &ScaffoldConfig) -> (r: Vec<Stage>)
    ensures
        r.deep_view() == spec_compile(config@).subrange(8, 13),
{
    let mut stages: Vec<Stage> = Vec::new();
    stages.push(
        Stage {
            kind: StageKind::StackSpecificPostInstall,
            operations: stack_specific_commands(config),
        },
    );
    stages.push(
        Stage { kind: StageKind::PostInstallTemplates, operations: post_template_commands(config) },
    );
    let container_ops: Vec<Operation> = if config.containers {
        ContainerBuilder::new(config).build()
    } else {
        let v: Vec<Operation> = Vec::new();
        proof {
            assert(v.deep_view() =~= Seq::<OperationView>::empty());
        }
        v
    };
    stages.push(Stage { kind: StageKind::ContainerGeneration, operations: container_ops });
    let mut script_op_list: Vec<Operation> = match &config.npm_scripts {
        Option::Some(m) => set_scripts("npm", m),
        Option::None => {
            let v: Vec<Operation> = Vec::new();
            proof {
                assert(v.deep_view() =~= Seq::<OperationView>::empty());
            }
            v
        },
    };
    let ghost npm_ops = script_op_list.deep_view();
    let mut cargo_script_ops: Vec<Operation> = match &config.cargo_scripts {
        Option::Some(m) => set_scripts("cargo", m),
        Option::None => {
            let v: Vec<Operation> = Vec::new();
            proof {
                assert(v.deep_view() =~= Seq::<OperationView>::empty());
            }
            v
        },
    };
    let ghost cargo_ops = cargo_script_ops.deep_view();
    script_op_list.append(&mut cargo_script_ops);
    proof {
        assert(script_op_list.deep_view() =~= npm_ops + cargo_ops);
        assert(script_op_list.deep_view() =~= spec_script_ops(config@));
    }
    stages.push(Stage { kind: StageKind::ScriptConfiguration, operations: script_op_list });
    stages.push(Stage { kind: StageKind::VersionControlInit, operations: create_repo() });
    proof {
        assert(stages.deep_view() =~= spec_compile(config@).subrange(8, 13));
    }
    stages
}

/// The command plan compiler.
pub struct ProjectBuilder {

}

impl ProjectBuilder {
    /// Compiles a resolved configuration into the fixed thirteen-stage
    /// pipeline. Total: no step can fail here.
    pub fn build(config: &ScaffoldConfig) -> (r: Pipeline)
        requires
            config.wf(),
        ensures
            r@ == spec_compile(config@),
            r.well_formed(),
    {
        let mut stages: Vec<Stage> = Vec::new();
        stages.push(
            Stage {
                kind: StageKind::MakeFolders,
                operations: make_folders(&config.root_dir, &config.subfolders),
            },
        );
        stages.push(
            Stage {
                kind: StageKind::PreInstallTemplates,
                operations: pre_install_commands(config),
            },
        );
        stages.push(
            Stage {
                kind: StageKind::EcosystemInit,
                operations: commands_to_operations(&generate_init_cmds(config)),
            },
        );
        stages.push(
            Stage {
                kind: StageKind::DependencyInstall,
                operations: commands_to_operations(&install_commands(config)),
            },
        );
        stages.push(
            Stage {
                kind: StageKind::DatabaseClientInstall,
                operations: commands_to_operations(&db_setup_commands(config)),
            },
        );
        stages.push(
            Stage {
                kind: StageKind::LinterInstall,
                operations: commands_to_operations(&generate_linter_cmds(&config.linters)),
            },
        );
        stages.push(
            Stage {
                kind: StageKind::FormatterInstall,
                operations: commands_to_operations(&generate_formatter_cmds(&config.formatters)),
            },
        );
        stages.push(
            Stage {
                kind: StageKind::TestFrameworkInstall,
                operations: commands_to_operations(
                    &generate_test_framework_cmds(&config.test_frameworks),
                ),
            },
        );
        let mut tail = post_install_commands(config);
        let ghost head = stages.deep_view();
        let ghost tailv = tail.deep_view();
        stages.append(&mut tail);
        proof {
            assert(stages.deep_view() =~= head + tailv);
            assert(stages.deep_view() =~= spec_compile(config@));
        }
        let p = Pipeline { stages };
        proof {
            assert(p@.map_values(|s: StageView| s.kind) =~= stage_kind_order());
        }
        p
    }
}

/// Which stage kinds install something.
pub open spec fn is_install_stage(k: StageKind) -> bool {
    k == StageKind::DependencyInstall || k == StageKind::DatabaseClientInstall || k
        == StageKind::LinterInstall || k == StageKind::FormatterInstall || k
        == StageKind::TestFrameworkInstall
}

/// The stage order is invariant: whatever the configuration, the
/// folder-creation stage comes first and runs no command, so it precedes
/// every stage that runs one; and the post-install template stage comes
/// after every stage that installs anything.
pub proof fn lemma_stage_order(c: ScaffoldConfigView)
    ensures
        spec_compile(c).map_values(|s: StageView| s.kind) =~= stage_kind_order(),
        spec_compile(c)[0].kind == StageKind::MakeFolders,
        !stage_runs_commands(spec_compile(c)[0]),
        forall|j: int|
            0 <= j < spec_compile(c).len() && stage_runs_commands(spec_compile(c)[j]) ==> 0 < j,
        spec_compile(c)[9].kind == StageKind::PostInstallTemplates,
        forall|j: int|
            0 <= j < spec_compile(c).len() && is_install_stage(spec_compile(c)[j].kind) ==> j < 9,
{
    let p = spec_compile(c);
    assert forall|i: int| 0 <= i < p[0].operations.len() implies !is_run_command(
        p[0].operations[i],
    ) by {
        match c.subfolders {
            Option::Some(paths) => {
                if paths.len() > 0 {
                    assert(p[0].operations[i] == (OperationView::CreateDirectory {
                        path: c.root_dir + "/"@ + paths[i],
                    }));
                }
            },
            Option::None => {},
        }
    }
}

/// The commands the pipeline runs for a resolved client — its package
/// install inside the dependency-install stage, then its setup commands in
/// the client stage — are exactly the client's own install commands.
pub proof fn lemma_client_install_coverage(cl: DbClient, db: crate::dialogue::Database, rust: bool)
    ensures
        db_client_cmds(cl, db, rust) == (if client_ecosystem(cl, rust) == "cargo"@ {
            cargo_module_cmds(client_dep(cl, db))
        } else {
            npm_module_cmds(client_dep(cl, db))
        }) + client_setup_cmds(cl),
{
    assert(module_hook_cmds(client_dep(cl, db)) =~= Seq::<CommandSpecView>::empty());
    if client_ecosystem(cl, rust) == "cargo"@ {
        assert(cargo_module_cmds(client_dep(cl, db)) =~= seq![
            crate::module::cargo_install_cmd(client_dep(cl, db)),
        ]);
        assert(db_client_cmds(cl, db, rust) =~= cargo_module_cmds(client_dep(cl, db))
            + client_setup_cmds(cl));
    } else {
        assert(npm_module_cmds(client_dep(cl, db)) =~= seq![
            crate::module::npm_install_cmd(client_dep(cl, db)),
        ]);
        assert(db_client_cmds(cl, db, rust) =~= npm_module_cmds(client_dep(cl, db))
            + client_setup_cmds(cl));
    }
}

} // verus!
