//! One declared dependency: name, version, a development flag, an optional
//! feature list, and optional post-install hook commands that run right after
//! the dependency's own install command.

use vstd::prelude::*;
use vstd::string::StringExecFns;
use crate::pipeline::{clone_strings, plain_command, CommandSpec, CommandSpecView};
use crate::{latest_version, str_equal};

verus! {

/// The ordered list of extra commands run after a dependency installs; each
/// inner vector is one command: program first, then its arguments.
pub type ThenCommands = Vec<Vec<String>>;

/// A dependency specification. The version sentinel `"latest"` means the
/// package manager picks the version.
#[derive(Debug, PartialEq)]
pub struct Module {
    name: String,
    version: String,
    dev: bool,
    features: Option<Vec<String>>,
    then_cmds: Option<ThenCommands>,
}

/// The mathematical value of a `Module`.
pub struct ModuleView {
    pub name: Seq<char>,
    pub version: Seq<char>,
    pub dev: bool,
    pub features: Option<Seq<Seq<char>>>,
    pub then_cmds: Option<Seq<Seq<Seq<char>>>>,
}

impl View for Module {
    type V = ModuleView;

    closed spec fn view(&self) -> ModuleView {
        ModuleView {
            name: self.name@,
            version: self.version@,
            dev: self.dev,
            features: self.features.deep_view(),
            then_cmds: self.then_cmds.deep_view(),
        }
    }
}

impl DeepView for Module {
    type V = ModuleView;

    open spec fn deep_view(&self) -> ModuleView {
        self.view()
    }
}

/// Every post-install hook command names at least a program to run.
pub open spec fn then_wf(hooks: Option<Seq<Seq<Seq<char>>>>) -> bool {
    hooks matches Some(cmds) ==> forall|i: int|
        0 <= i < cmds.len() ==> (#[trigger] cmds[i]).len() > 0
}

impl Module {
    /// A module is well formed when each of its hook commands is non-empty.
    pub open spec fn wf(&self) -> bool {
        then_wf(self@.then_cmds)
    }

    pub fn new(
        name: String,
        version: String,
        dev: bool,
        then_cmds: Option<ThenCommands>,
        features: Option<Vec<String>>,
    ) -> (r: Self)
        ensures
            r@.name == name@,
            r@.version == version@,
            r@.dev == dev,
            r@.then_cmds == then_cmds.deep_view(),
            r@.features == features.deep_view(),
    {
        Self { name, version, dev, features, then_cmds }
    }

    pub fn get_name(&self) -> (r: &str)
        ensures
            r@ == self@.name,
    {
        self.name.as_str()
    }

    pub fn get_version(&self) -> (r: &str)
        ensures
            r@ == self@.version,
    {
        self.version.as_str()
    }

    pub fn is_dev(&self) -> (r: bool)
        ensures
            r == self@.dev,
    {
        self.dev
    }

    pub fn get_features(&self) -> (r: Option<&Vec<String>>)
        ensures
            r.deep_view() == self@.features,
    {
        self.features.as_ref()
    }

    pub fn get_then(&self) -> (r: Option<&ThenCommands>)
        ensures
            r.deep_view() == self@.then_cmds,
    {
        self.then_cmds.as_ref()
    }
}

impl Clone for Module {
    fn clone(&self) -> (r: Self)
        ensures
            r@ == self@,
            r.wf() == self.wf(),
    {
        Module {
            name: self.name.clone(),
            version: self.version.clone(),
            dev: self.dev,
            features: match &self.features {
                Option::None => Option::None,
                Option::Some(f) => Option::Some(clone_strings(f)),
            },
            then_cmds: match &self.then_cmds {
                Option::None => Option::None,
                Option::Some(t) => Option::Some(clone_commands(t)),
            },
        }
    }
}

/// The argument that names a package to install: bare name when the version
/// is left to the package manager, `name@version` otherwise.
pub open spec fn package_arg(m: ModuleView) -> Seq<char> {
    if m.version == latest_version() {
        m.name
    } else {
        m.name + "@"@ + m.version
    }
}

/// The `bun add` command that installs one npm dependency.
pub open spec fn npm_install_cmd(m: ModuleView) -> CommandSpecView {
    plain_command(
        "bun"@,
        seq!["add"@, package_arg(m)] + if m.dev {
            seq!["--dev"@]
        } else {
            Seq::<Seq<char>>::empty()
        },
    )
}

/// The given strings joined with a comma between each pair of neighbours.
pub open spec fn join_comma(fs: Seq<Seq<char>>) -> Seq<char>
    decreases fs.len(),
{
    if fs.len() == 0 {
        Seq::empty()
    } else if fs.len() == 1 {
        fs[0]
    } else {
        join_comma(fs.drop_last()) + ","@ + fs.last()
    }
}

/// The environment override every cargo install command carries.
pub open spec fn cargo_env() -> Seq<(Seq<char>, Seq<char>)> {
    seq![("CARGO_NET_GIT_FETCH_WITH_CLI"@, "true"@)]
}

/// The `cargo add` command that installs one cargo dependency.
pub open spec fn cargo_install_cmd(m: ModuleView) -> CommandSpecView {
    CommandSpecView {
        program: "cargo"@,
        args: seq!["add"@, package_arg(m)] + (if m.dev {
            seq!["--dev"@]
        } else {
            Seq::<Seq<char>>::empty()
        }) + (match m.features {
            Some(fs) => seq!["--features"@, join_comma(fs)],
            None => Seq::<Seq<char>>::empty(),
        }),
        working_dir: Seq::empty(),
        env: cargo_env(),
    }
}

/// Each hook command as a command specification: the first string is the
/// program, the rest are its arguments.
pub open spec fn hook_cmd_views(cmds: Seq<Seq<Seq<char>>>) -> Seq<CommandSpecView> {
    cmds.map_values(|c: Seq<Seq<char>>| plain_command(c[0], c.drop_first()))
}

/// The hook commands of one module, empty when it declares none.
pub open spec fn module_hook_cmds(m: ModuleView) -> Seq<CommandSpecView> {
    match m.then_cmds {
        Some(cmds) => hook_cmd_views(cmds),
        None => Seq::empty(),
    }
}

/// All commands one npm module contributes: its install command, then its
/// hooks, in order.
pub open spec fn npm_module_cmds(m: ModuleView) -> Seq<CommandSpecView> {
    seq![npm_install_cmd(m)] + module_hook_cmds(m)
}

/// All commands one cargo module contributes.
pub open spec fn cargo_module_cmds(m: ModuleView) -> Seq<CommandSpecView> {
    seq![cargo_install_cmd(m)] + module_hook_cmds(m)
}

/// The full npm install sequence for a dependency list, in document order.
pub open spec fn npm_cmds(ms: Seq<ModuleView>) -> Seq<CommandSpecView>
    decreases ms.len(),
{
    if ms.len() == 0 {
        Seq::empty()
    } else {
        npm_cmds(ms.drop_last()) + npm_module_cmds(ms.last())
    }
}

/// The full cargo install sequence for a dependency list, in document order.
pub open spec fn cargo_cmds(ms: Seq<ModuleView>) -> Seq<CommandSpecView>
    decreases ms.len(),
{
    if ms.len() == 0 {
        Seq::empty()
    } else {
        cargo_cmds(ms.drop_last()) + cargo_module_cmds(ms.last())
    }
}

/// Builds the package argument for one module.
fn package_argument(m: &Module) -> (r: String)
    ensures
        r@ == package_arg(m@),
{
    if str_equal(m.get_version(), "latest") {
        m.get_name().to_owned()
    } else {
        let with_at: String = m.get_name().to_owned().concat("@");
        with_at.concat(m.get_version())
    }
}

/// Joins feature names with commas, as the cargo flag expects them.
fn join_with_commas(fs: &Vec<String>) -> (r: String)
    ensures
        r@ == join_comma(fs.deep_view()),
{
    let mut out = String::new();
    let mut i: usize = 0;
    while i < fs.len()
        invariant
            i <= fs.len(),
            out@ == join_comma(fs.deep_view().take(i as int)),
        decreases fs.len() - i,
    {
        if i > 0 {
            out.append(",");
        }
        out.append(fs[i].as_str());
        proof {
            assert(fs.deep_view().take(i + 1 as int).drop_last() =~= fs.deep_view().take(
                i as int,
            ));
            assert(fs.deep_view().take(i + 1 as int).last() == fs.deep_view()[i as int]);
        }
        i = i + 1;
    }
    proof {
        assert(fs.deep_view().take(fs.deep_view().len() as int) =~= fs.deep_view());
    }
    out
}

/// Turns one well-formed hook command into a command specification.
fn hook_command(cmd: &Vec<String>) -> (r: CommandSpec)
    requires
        cmd@.len() > 0,
    ensures
        r@ == plain_command(cmd.deep_view()[0], cmd.deep_view().drop_first()),
{
    let program = cmd[0].clone();
    let mut args: Vec<String> = Vec::new();
    let mut j: usize = 1;
    while j < cmd.len()
        invariant
            1 <= j <= cmd.len(),
            args@.len() == j - 1,
            forall|k: int| 0 <= k < j - 1 ==> args.deep_view()[k] == cmd.deep_view()[k + 1],
        decreases cmd.len() - j,
    {
        let ghost pre = args.deep_view();
        args.push(cmd[j].clone());
        proof {
            assert forall|k: int| 0 <= k < j implies args.deep_view()[k] == cmd.deep_view()[k
                + 1] by {
                if k < j - 1 {
                    assert(args.deep_view()[k] == pre[k]);
                } else {
                    assert(args.deep_view()[k] == cmd.deep_view()[j as int]);
                }
            }
        }
        j = j + 1;
    }
    proof {
        assert(args.deep_view() =~= cmd.deep_view().drop_first());
    }
    CommandSpec::new(program, args)
}

/// Expands a module's post-install hooks, in document order.
pub fn generate_then_cmds(then_commands: &ThenCommands) -> (r: Vec<CommandSpec>)
    requires
        forall|i: int| 0 <= i < then_commands@.len() ==> then_commands.deep_view()[i].len() > 0,
    ensures
        r.deep_view() == hook_cmd_views(then_commands.deep_view()),
{
    let mut out: Vec<CommandSpec> = Vec::new();
    let mut i: usize = 0;
    while i < then_commands.len()
        invariant
            i <= then_commands@.len(),
            out@.len() == i,
            forall|k: int| 0 <= k < then_commands@.len() ==> then_commands.deep_view()[k].len()
                > 0,
            forall|k: int| 0 <= k < i ==> out.deep_view()[k] == hook_cmd_views(
                then_commands.deep_view(),
            )[k],
        decreases then_commands@.len() - i,
    {
        proof {
            assert(then_commands.deep_view()[i as int].len() > 0);
            assert(then_commands@[i as int].deep_view() == then_commands.deep_view()[i as int]);
        }
        let ghost pre = out.deep_view();
        out.push(hook_command(&then_commands[i]));
        proof {
            let tc = then_commands.deep_view();
            assert forall|k: int| 0 <= k < i + 1 implies out.deep_view()[k] == hook_cmd_views(
                tc,
            )[k] by {
                if k < i {
                    assert(out.deep_view()[k] == pre[k]);
                } else {
                    assert(out.deep_view()[k] == plain_command(tc[k][0], tc[k].drop_first()));
                }
            }
        }
        i = i + 1;
    }
    proof {
        assert(out.deep_view() =~= hook_cmd_views(then_commands.deep_view()));
    }
    out
}

/// Builds the `bun add` command for one npm module.
pub(crate) fn npm_install_command(m: &Module) -> (r: CommandSpec)
    ensures
        r@ == npm_install_cmd(m@),
{
    let mut args: Vec<String> = Vec::new();
    args.push("add".to_owned());
    args.push(package_argument(m));
    if m.is_dev() {
        args.push("--dev".to_owned());
    }
    let r = CommandSpec::new("bun".to_owned(), args);
    proof {
        assert(r@.args =~= npm_install_cmd(m@).args);
    }
    r
}

/// Builds the `cargo add` command for one cargo module.
pub(crate) fn cargo_install_command(m: &Module) -> (r: CommandSpec)
    ensures
        r@ == cargo_install_cmd(m@),
{
    let mut args: Vec<String> = Vec::new();
    args.push("add".to_owned());
    args.push(package_argument(m));
    if m.is_dev() {
        args.push("--dev".to_owned());
    }
    match m.get_features() {
        Option::Some(fs) => {
            args.push("--features".to_owned());
            args.push(join_with_commas(fs));
        },
        Option::None => (),
    }
    let mut env: Vec<(String, String)> = Vec::new();
    env.push(("CARGO_NET_GIT_FETCH_WITH_CLI".to_owned(), "true".to_owned()));
    let r = CommandSpec { program: "cargo".to_owned(), args, working_dir: String::new(), env };
    proof {
        assert(r@.args =~= cargo_install_cmd(m@).args);
        assert(r@.env =~= cargo_env());
    }
    r
}

/// All install commands for an npm dependency list: for each module, its
/// install command immediately followed by its hooks, in document order.
pub fn get_npm_cmds(npm_modules: &Vec<Module>) -> (r: Vec<CommandSpec>)
    requires
        forall|i: int| 0 <= i < npm_modules@.len() ==> (#[trigger] npm_modules@[i]).wf(),
    ensures
        r.deep_view() == npm_cmds(npm_modules.deep_view()),
{
    let mut out: Vec<CommandSpec> = Vec::new();
    let mut i: usize = 0;
    while i < npm_modules.len()
        invariant
            i <= npm_modules@.len(),
            forall|k: int| 0 <= k < npm_modules@.len() ==> (#[trigger] npm_modules@[k]).wf(),
            out.deep_view() == npm_cmds(npm_modules.deep_view().take(i as int)),
        decreases npm_modules@.len() - i,
    {
        let m = &npm_modules[i];
        out.push(npm_install_command(m));
        match m.get_then() {
            Option::Some(t) => {
                proof {
                    assert(npm_modules@[i as int].wf());
                    assert(m@.then_cmds == Some(t.deep_view()));
                    assert forall|k: int| 0 <= k < t@.len() implies t.deep_view()[k].len()
                        > 0 by {
                        assert(t.deep_view().len() == t@.len());
                        assert(then_wf(Some(t.deep_view())));
                        assert(Some(t.deep_view())->Some_0 == t.deep_view());
                        assert(t.deep_view()[k].len() > 0);
                    }
                }
                let mut hooks = generate_then_cmds(t);
                out.append(&mut hooks);
            },
            Option::None => (),
        }
        proof {
            let ms = npm_modules.deep_view();
            assert(ms.take(i + 1 as int).drop_last() =~= ms.take(i as int));
            assert(ms.take(i + 1 as int).last() == ms[i as int]);
            assert(out.deep_view() =~= npm_cmds(ms.take(i + 1 as int)));
        }
        i = i + 1;
    }
    proof {
        let ms = npm_modules.deep_view();
        assert(ms.take(ms.len() as int) =~= ms);
    }
    out
}

/// All install commands for a cargo dependency list, in document order.
pub fn get_cargo_cmds(cargo_modules: &Vec<Module>) -> (r: Vec<CommandSpec>)
    requires
        forall|i: int| 0 <= i < cargo_modules@.len() ==> (#[trigger] cargo_modules@[i]).wf(),
    ensures
        r.deep_view() == cargo_cmds(cargo_modules.deep_view()),
{
    let mut out: Vec<CommandSpec> = Vec::new();
    let mut i: usize = 0;
    while i < cargo_modules.len()
        invariant
            i <= cargo_modules@.len(),
            forall|k: int| 0 <= k < cargo_modules@.len() ==> (#[trigger] cargo_modules@[k]).wf(),
            out.deep_view() == cargo_cmds(cargo_modules.deep_view().take(i as int)),
        decreases cargo_modules@.len() - i,
    {
        let m = &cargo_modules[i];
        out.push(cargo_install_command(m));
        match m.get_then() {
            Option::Some(t) => {
                proof {
                    assert(cargo_modules@[i as int].wf());
                    assert(m@.then_cmds == Some(t.deep_view()));
                    assert forall|k: int| 0 <= k < t@.len() implies t.deep_view()[k].len()
                        > 0 by {
                        assert(t.deep_view().len() == t@.len());
                        assert(then_wf(Some(t.deep_view())));
                        assert(Some(t.deep_view())->Some_0 == t.deep_view());
                        assert(t.deep_view()[k].len() > 0);
                    }
                }
                let mut hooks = generate_then_cmds(t);
                out.append(&mut hooks);
            },
            Option::None => (),
        }
        proof {
            let ms = cargo_modules.deep_view();
            assert(ms.take(i + 1 as int).drop_last() =~= ms.take(i as int));
            assert(ms.take(i + 1 as int).last() == ms[i as int]);
            assert(out.deep_view() =~= cargo_cmds(ms.take(i + 1 as int)));
        }
        i = i + 1;
    }
    proof {
        let ms = cargo_modules.deep_view();
        assert(ms.take(ms.len() as int) =~= ms);
    }
    out
}

/// Copies a list of hook commands, keeping its value.
pub fn clone_commands(cmds: &ThenCommands) -> (r: ThenCommands)
    ensures
        r.deep_view() == cmds.deep_view(),
{
    let mut out: ThenCommands = Vec::new();
    let mut i: usize = 0;
    while i < cmds.len()
        invariant
            i <= cmds.len(),
            out@.len() == i,
            forall|j: int| 0 <= j < i ==> out.deep_view()[j] == cmds.deep_view()[j],
        decreases cmds.len() - i,
    {
        out.push(clone_strings(&cmds[i]));
        i = i + 1;
    }
    proof {
        assert(out.deep_view() =~= cmds.deep_view());
    }
    out
}

/// A growable npm dependency list.
#[derive(Debug)]
pub struct NpmDeps {
    deps: Vec<Module>,
}

impl View for NpmDeps {
    type V = Seq<ModuleView>;

    closed spec fn view(&self) -> Seq<ModuleView> {
        self.deps.deep_view()
    }
}

impl NpmDeps {
    /// An empty list.
    pub fn new() -> (r: Self)
        ensures
            r@ == Seq::<ModuleView>::empty(),
    {
        let r = NpmDeps { deps: Vec::new() };
        proof {
            assert(r@ =~= Seq::<ModuleView>::empty());
        }
        r
    }

    /// Appends one module.
    pub fn add(&mut self, module: Module)
        ensures
            final(self)@ =~= old(self)@.push(module@),
    {
        let ghost mv = module@;
        let ghost pre = self.deps.deep_view();
        self.deps.push(module);
        proof {
            assert(self.deps.deep_view() =~= pre.push(mv));
        }
    }

    /// The list's modules, copied.
    pub fn get(&self) -> (r: Vec<Module>)
        ensures
            r.deep_view() == self@,
    {
        let mut out: Vec<Module> = Vec::new();
        let mut i: usize = 0;
        while i < self.deps.len()
            invariant
                i <= self.deps@.len(),
                out@.len() == i,
                forall|k: int| 0 <= k < i ==> out.deep_view()[k] == self.deps.deep_view()[k],
            decreases self.deps@.len() - i,
        {
            let ghost pre = out.deep_view();
            out.push(self.deps[i].clone());
            proof {
                assert forall|k: int| 0 <= k < i + 1 implies out.deep_view()[k]
                    == self.deps.deep_view()[k] by {
                    if k < i {
                        assert(out.deep_view()[k] == pre[k]);
                    } else {
                        assert(out.deep_view()[k] == self.deps@[k]@);
                    }
                }
            }
            i = i + 1;
        }
        proof {
            assert(out.deep_view() =~= self.deps.deep_view());
        }
        out
    }
}

} // verus!
