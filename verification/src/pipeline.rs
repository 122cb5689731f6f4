//! The command-plan model: a pipeline of named stages, each an ordered list
//! of operations. A pipeline is compiled once from a resolved configuration
//! and consumed exactly once by the execution engine.

use vstd::prelude::*;
use vstd::string::StringExecFns;

verus! {

/// One external command, fully determined: program, arguments, the directory
/// it runs in (relative to the project root; empty means the root itself) and
/// environment overrides.
#[derive(Debug, PartialEq)]
pub struct CommandSpec {
    pub program: String,
    pub args: Vec<String>,
    pub working_dir: String,
    pub env: Vec<(String, String)>,
}

/// The mathematical value of a `CommandSpec`.
pub struct CommandSpecView {
    pub program: Seq<char>,
    pub args: Seq<Seq<char>>,
    pub working_dir: Seq<char>,
    pub env: Seq<(Seq<char>, Seq<char>)>,
}

impl View for CommandSpec {
    type V = CommandSpecView;

    open spec fn view(&self) -> CommandSpecView {
        CommandSpecView {
            program: self.program@,
            args: self.args.deep_view(),
            working_dir: self.working_dir@,
            env: self.env.deep_view(),
        }
    }
}

impl DeepView for CommandSpec {
    type V = CommandSpecView;

    open spec fn deep_view(&self) -> CommandSpecView {
        self.view()
    }
}

/// A command view that runs in the project root with no environment
/// overrides.
pub open spec fn plain_command(program: Seq<char>, args: Seq<Seq<char>>) -> CommandSpecView {
    CommandSpecView { program, args, working_dir: Seq::empty(), env: Seq::empty() }
}

impl CommandSpec {
    /// A command that runs in the project root with no environment overrides.
    pub fn new(program: String, args: Vec<String>) -> (r: CommandSpec)
        ensures
            r@ == plain_command(program@, args.deep_view()),
    {
        let r = CommandSpec { program, args, working_dir: String::new(), env: Vec::new() };
        proof {
            assert(r.env.deep_view() =~= Seq::<(Seq<char>, Seq<char>)>::empty());
        }
        r
    }
}

/// Copies a vector of strings, keeping its value.
pub fn clone_strings(xs: &Vec<String>) -> (r: Vec<String>)
    ensures
        r.deep_view() == xs.deep_view(),
{
    let mut out: Vec<String> = Vec::new();
    let mut i: usize = 0;
    while i < xs.len()
        invariant
            i <= xs.len(),
            out@.len() == i,
            forall|j: int| 0 <= j < i ==> out.deep_view()[j] == xs.deep_view()[j],
        decreases xs.len() - i,
    {
        out.push(xs[i].clone());
        i = i + 1;
    }
    proof {
        assert(out.deep_view() =~= xs.deep_view());
    }
    out
}

/// Copies a vector of string pairs, keeping its value.
pub fn clone_string_pairs(xs: &Vec<(String, String)>) -> (r: Vec<(String, String)>)
    ensures
        r.deep_view() == xs.deep_view(),
{
    let mut out: Vec<(String, String)> = Vec::new();
    let mut i: usize = 0;
    while i < xs.len()
        invariant
            i <= xs.len(),
            out@.len() == i,
            forall|j: int| 0 <= j < i ==> out.deep_view()[j] == xs.deep_view()[j],
        decreases xs.len() - i,
    {
        let ghost pre = out.deep_view();
        out.push((xs[i].0.clone(), xs[i].1.clone()));
        proof {
            assert forall|j: int| 0 <= j < i + 1 implies out.deep_view()[j]
                == xs.deep_view()[j] by {
                if j < i {
                    assert(out.deep_view()[j] == pre[j]);
                } else {
                    assert(out.deep_view()[j] == (xs@[j].0@, xs@[j].1@));
                }
            }
        }
        i = i + 1;
    }
    proof {
        assert(out.deep_view() =~= xs.deep_view());
    }
    out
}

impl Clone for ContextValue {
    fn clone(&self) -> (r: Self)
        ensures
            r@ == self@,
    {
        match self {
            ContextValue::Text(s) => ContextValue::Text(s.clone()),
            ContextValue::Flag(b) => ContextValue::Flag(*b),
        }
    }
}

impl Clone for CommandSpec {
    fn clone(&self) -> (r: Self)
        ensures
            r@ == self@,
    {
        CommandSpec {
            program: self.program.clone(),
            args: clone_strings(&self.args),
            working_dir: self.working_dir.clone(),
            env: clone_string_pairs(&self.env),
        }
    }
}

/// An individual side-effecting action within a stage.
#[derive(Debug, PartialEq)]
pub enum Operation {
    /// Create a directory (and, by the collaborator's contract, its parents).
    CreateDirectory { path: String },
    /// Run an external command through the process executor.
    RunCommand { command: CommandSpec },
    /// Recursively copy a directory tree, overwriting on conflict.
    CopyTree { src: String, dst: String },
    /// Render a parameterized template tree into a destination directory.
    RenderTemplateTree { src: String, dst: String, context: Vec<(String, ContextValue)> },
    /// Register a named script with an ecosystem's manifest.
    SetScript { ecosystem: String, name: String, value: String },
}

/// A value a template context can hold: a string to substitute, or a flag
/// that guards conditional blocks.
#[derive(Debug, PartialEq)]
pub enum ContextValue {
    Text(String),
    Flag(bool),
}

/// A one-argument vector of strings.
pub fn args1(a: &str) -> (r: Vec<String>)
    ensures
        r.deep_view() == seq![a@],
{
    let mut v: Vec<String> = Vec::new();
    v.push(a.to_owned());
    proof {
        assert(v.deep_view() =~= seq![a@]);
    }
    v
}

/// A two-argument vector of strings.
pub fn args2(a: &str, b: &str) -> (r: Vec<String>)
    ensures
        r.deep_view() == seq![a@, b@],
{
    let mut v: Vec<String> = Vec::new();
    v.push(a.to_owned());
    v.push(b.to_owned());
    proof {
        assert(v.deep_view() =~= seq![a@, b@]);
    }
    v
}

/// A three-argument vector of strings.
pub fn args3(a: &str, b: &str, c: &str) -> (r: Vec<String>)
    ensures
        r.deep_view() == seq![a@, b@, c@],
{
    let mut v: Vec<String> = Vec::new();
    v.push(a.to_owned());
    v.push(b.to_owned());
    v.push(c.to_owned());
    proof {
        assert(v.deep_view() =~= seq![a@, b@, c@]);
    }
    v
}

/// A four-argument vector of strings.
pub fn args4(a: &str, b: &str, c: &str, d: &str) -> (r: Vec<String>)
    ensures
        r.deep_view() == seq![a@, b@, c@, d@],
{
    let mut v: Vec<String> = Vec::new();
    v.push(a.to_owned());
    v.push(b.to_owned());
    v.push(c.to_owned());
    v.push(d.to_owned());
    proof {
        assert(v.deep_view() =~= seq![a@, b@, c@, d@]);
    }
    v
}

/// A command with program and arguments only, as a one-element vector.
pub fn single_command(c: CommandSpec) -> (r: Vec<CommandSpec>)
    ensures
        r.deep_view() == seq![c@],
{
    let mut v: Vec<CommandSpec> = Vec::new();
    v.push(c);
    proof {
        assert(v.deep_view() =~= seq![c@]);
    }
    v
}

/// The mathematical value of a `ContextValue`.
pub enum ContextValueView {
    Text(Seq<char>),
    Flag(bool),
}

impl View for ContextValue {
    type V = ContextValueView;

    open spec fn view(&self) -> ContextValueView {
        match self {
            ContextValue::Text(s) => ContextValueView::Text(s@),
            ContextValue::Flag(b) => ContextValueView::Flag(*b),
        }
    }
}

impl DeepView for ContextValue {
    type V = ContextValueView;

    open spec fn deep_view(&self) -> ContextValueView {
        self.view()
    }
}

/// The mathematical value of an `Operation`.
pub enum OperationView {
    CreateDirectory { path: Seq<char> },
    RunCommand { command: CommandSpecView },
    CopyTree { src: Seq<char>, dst: Seq<char> },
    RenderTemplateTree { src: Seq<char>, dst: Seq<char>, context: Seq<(Seq<char>, ContextValueView)> },
    SetScript { ecosystem: Seq<char>, name: Seq<char>, value: Seq<char> },
}

impl View for Operation {
    type V = OperationView;

    open spec fn view(&self) -> OperationView {
        match self {
            Operation::CreateDirectory { path } => (OperationView::CreateDirectory { path: path@ }),
            Operation::RunCommand { command } => (OperationView::RunCommand { command: command@ }),
            Operation::CopyTree { src, dst } => (OperationView::CopyTree { src: src@, dst: dst@ }),
            Operation::RenderTemplateTree { src, dst, context } => (OperationView::RenderTemplateTree {
                src: src@,
                dst: dst@,
                context: context.deep_view(),
            }),
            Operation::SetScript { ecosystem, name, value } => (OperationView::SetScript {
                ecosystem: ecosystem@,
                name: name@,
                value: value@,
            }),
        }
    }
}

impl DeepView for Operation {
    type V = OperationView;

    open spec fn deep_view(&self) -> OperationView {
        self.view()
    }
}

/// The fixed kinds of pipeline stage, in the order they always run.
#[derive(Debug, Clone, Copy, PartialEq, Eq, Structural)]
pub enum StageKind {
    MakeFolders,
    PreInstallTemplates,
    EcosystemInit,
    DependencyInstall,
    DatabaseClientInstall,
    LinterInstall,
    FormatterInstall,
    TestFrameworkInstall,
    StackSpecificPostInstall,
    PostInstallTemplates,
    ContainerGeneration,
    ScriptConfiguration,
    VersionControlInit,
}

/// A named, ordered list of operations. The failure policy is uniform: the
/// whole pipeline aborts on the first operation that fails.
#[derive(Debug, PartialEq)]
pub struct Stage {
    pub kind: StageKind,
    pub operations: Vec<Operation>,
}

/// An ordered list of stages, constructed once and consumed exactly once.
#[derive(Debug, PartialEq)]
pub struct Pipeline {
    pub stages: Vec<Stage>,
}

/// The mathematical value of a `Stage`.
pub struct StageView {
    pub kind: StageKind,
    pub operations: Seq<OperationView>,
}

impl View for Stage {
    type V = StageView;

    open spec fn view(&self) -> StageView {
        StageView { kind: self.kind, operations: self.operations.deep_view() }
    }
}

impl DeepView for Stage {
    type V = StageView;

    open spec fn deep_view(&self) -> StageView {
        self.view()
    }
}

impl View for Pipeline {
    type V = Seq<StageView>;

    open spec fn view(&self) -> Seq<StageView> {
        self.stages.deep_view()
    }
}

/// The order in which stage kinds always appear in a compiled pipeline.
pub open spec fn stage_kind_order() -> Seq<StageKind> {
    seq![
        StageKind::MakeFolders,
        StageKind::PreInstallTemplates,
        StageKind::EcosystemInit,
        StageKind::DependencyInstall,
        StageKind::DatabaseClientInstall,
        StageKind::LinterInstall,
        StageKind::FormatterInstall,
        StageKind::TestFrameworkInstall,
        StageKind::StackSpecificPostInstall,
        StageKind::PostInstallTemplates,
        StageKind::ContainerGeneration,
        StageKind::ScriptConfiguration,
        StageKind::VersionControlInit,
    ]
}

/// Whether an operation runs an external command.
pub open spec fn is_run_command(op: OperationView) -> bool {
    op matches OperationView::RunCommand { .. }
}

/// Whether a stage carries at least one `RunCommand` operation.
pub open spec fn stage_runs_commands(s: StageView) -> bool {
    exists|i: int| 0 <= i < s.operations.len() && is_run_command(s.operations[i])
}

impl Pipeline {
    /// A pipeline compiled by this crate always holds the thirteen stage
    /// kinds, in their fixed order.
    pub open spec fn well_formed(&self) -> bool {
        self@.map_values(|s: StageView| s.kind) == stage_kind_order()
    }
}

} // verus!
