//! The configuration resolver: merges a parsed stack template with the
//! user's choices into a fully determined, immutable configuration — the
//! database-client decision table, the derived linter, formatter and test
//! framework sets, and the merged per-ecosystem dependency lists.

use vstd::prelude::*;
use crate::db_client::{client_dep, client_ecosystem, DbClient};
use crate::dialogue::{is_rust_stack, stack_dir, Database, StackTemplate, UserOptions, UserOptionsView};
use crate::formatters::Formatter;
use crate::linters::Linter;
use crate::module::{then_wf, Module, ModuleView};
use crate::pipeline::clone_strings;
use crate::test_frameworks::TestFramework;
use crate::toml_parser::{assoc_get, StringMap, TomlTemplate, TomlTemplateView};

verus! {

/// The languages a stack writes its project in.
#[derive(Debug, Clone, Copy, PartialEq, Eq, Structural)]
pub enum Language {
    Rust,
    JavaScript,
    TypeScript,
}

/// Why a template and a set of choices cannot be resolved.
#[derive(Debug, Clone, Copy, PartialEq, Eq, Structural)]
pub enum ConfigError {
    /// The stack, database and mapper choice have no client in the table.
    UnsupportedCombination,
    /// The template lacks a part the resolver needs.
    MissingTemplateField,
}

/// The database-client decision table, keyed by stack variant, database
/// engine and mapper preference. A Rust stack with MongoDB and a mapper
/// requested has no client: no such mapper exists in this domain.
pub open spec fn spec_db_client(stack: StackTemplate, db: Option<Database>, orm: bool) -> Result<
    Option<DbClient>,
    ConfigError,
> {
    match db {
        Option::None => Result::Ok(Option::None),
        Option::Some(d) => if is_rust_stack(stack) {
            match d {
                Database::Postgres => Result::Ok(
                    Option::Some(
                        if orm {
                            DbClient::Diesel
                        } else {
                            DbClient::Sqlx
                        },
                    ),
                ),
                Database::Sqlite => Result::Ok(
                    Option::Some(
                        if orm {
                            DbClient::Diesel
                        } else {
                            DbClient::Sqlx
                        },
                    ),
                ),
                Database::Mongo => if orm {
                    Result::Err(ConfigError::UnsupportedCombination)
                } else {
                    Result::Ok(Option::Some(DbClient::MongoDb))
                },
            }
        } else {
            match d {
                Database::Postgres => Result::Ok(
                    Option::Some(
                        if orm {
                            DbClient::Prisma
                        } else {
                            DbClient::Slonik
                        },
                    ),
                ),
                Database::Sqlite => Result::Ok(
                    Option::Some(
                        if orm {
                            DbClient::Prisma
                        } else {
                            DbClient::BetterSqlite
                        },
                    ),
                ),
                Database::Mongo => Result::Ok(
                    Option::Some(
                        if orm {
                            DbClient::Mongoose
                        } else {
                            DbClient::MongoDb
                        },
                    ),
                ),
            }
        },
    }
}

/// The languages of each stack variant.
pub open spec fn spec_languages(stack: StackTemplate) -> Seq<Language> {
    if is_rust_stack(stack) {
        seq![Language::Rust]
    } else {
        seq![Language::TypeScript, Language::JavaScript]
    }
}

/// The linters of each stack variant; a stylesheet linter is added only
/// when a single-page frontend is present.
pub open spec fn spec_linters(stack: StackTemplate, spa: bool) -> Seq<Linter> {
    match stack {
        StackTemplate::TSCLI => seq![Linter::ESLint],
        StackTemplate::TSAPI => if spa {
            seq![Linter::ESLint, Linter::Stylelint]
        } else {
            seq![Linter::ESLint]
        },
        StackTemplate::RSCLI => seq![Linter::Clippy],
        StackTemplate::RSAPI => seq![Linter::Clippy],
    }
}

/// The formatters of each stack variant.
pub open spec fn spec_formatters(stack: StackTemplate) -> Seq<Formatter> {
    if is_rust_stack(stack) {
        seq![Formatter::Rustfmt]
    } else {
        Seq::empty()
    }
}

/// The dependency list a template declares for one ecosystem; empty when it
/// declares none.
pub open spec fn spec_eco_deps(t: TomlTemplateView, eco: Seq<char>) -> Seq<ModuleView> {
    match assoc_get(t.dependencies, eco) {
        Option::Some(ms) => ms,
        Option::None => Seq::empty(),
    }
}

/// Whether a dependency of the given name is already declared.
pub open spec fn declares_dep(ms: Seq<ModuleView>, name: Seq<char>) -> bool {
    exists|i: int| 0 <= i < ms.len() && ms[i].name == name
}

/// A template's list for one ecosystem, with the resolved client's own
/// package appended — unless the template already declared it, or the
/// client belongs to another ecosystem. Template entries keep their order;
/// the derived entry comes last.
pub open spec fn spec_merged_deps(
    base: Seq<ModuleView>,
    client: Option<DbClient>,
    db: Option<Database>,
    rust: bool,
    eco: Seq<char>,
) -> Seq<ModuleView> {
    match (client, db) {
        (Option::Some(c), Option::Some(d)) => if client_ecosystem(c, rust) == eco
            && !declares_dep(base, client_dep(c, d).name) {
            base.push(client_dep(c, d))
        } else {
            base
        },
        _ => base,
    }
}

/// The script map a template declares for one ecosystem, if any.
pub open spec fn spec_eco_scripts(t: TomlTemplateView, eco: Seq<char>) -> Option<
    Seq<(Seq<char>, Seq<char>)>,
> {
    match t.scripts {
        Option::Some(sc) => assoc_get(sc, eco),
        Option::None => Option::None,
    }
}

/// The mathematical value of a `ScaffoldConfig`.
pub struct ScaffoldConfigView {
    pub stack: StackTemplate,
    pub title: Seq<char>,
    pub root_dir: Seq<char>,
    pub template_dir: Seq<char>,
    pub languages: Seq<Language>,
    pub db: Option<Database>,
    pub db_client: Option<DbClient>,
    pub linters: Seq<Linter>,
    pub formatters: Seq<Formatter>,
    pub test_frameworks: Seq<TestFramework>,
    pub npm_scripts: Option<Seq<(Seq<char>, Seq<char>)>>,
    pub cargo_scripts: Option<Seq<(Seq<char>, Seq<char>)>>,
    pub npm_deps: Seq<ModuleView>,
    pub cargo_deps: Seq<ModuleView>,
    pub subfolders: Option<Seq<Seq<char>>>,
    pub containers: bool,
    pub spa: bool,
    pub template_engine: bool,
}

/// What resolving a template against the user's choices yields: the
/// decision table picks the client, the per-stack tables pick the tool
/// sets, and the client's package is merged into its ecosystem's list.
/// The only failure is an unsupported stack, database and mapper
/// combination.
pub open spec fn spec_resolve(t: TomlTemplateView, o: UserOptionsView) -> Result<
    ScaffoldConfigView,
    ConfigError,
> {
    match spec_db_client(o.stack, o.db, o.orm) {
        Result::Err(e) => Result::Err(e),
        Result::Ok(client) => Result::Ok(
            ScaffoldConfigView {
                stack: o.stack,
                title: o.app_name,
                root_dir: o.output_dir,
                template_dir: stack_dir(o.stack),
                languages: spec_languages(o.stack),
                db: o.db,
                db_client: client,
                linters: spec_linters(o.stack, o.spa),
                formatters: spec_formatters(o.stack),
                test_frameworks: o.test_frameworks,
                npm_scripts: spec_eco_scripts(t, "npm"@),
                cargo_scripts: spec_eco_scripts(t, "cargo"@),
                npm_deps: spec_merged_deps(
                    spec_eco_deps(t, "npm"@),
                    client,
                    o.db,
                    is_rust_stack(o.stack),
                    "npm"@,
                ),
                cargo_deps: spec_merged_deps(
                    spec_eco_deps(t, "cargo"@),
                    client,
                    o.db,
                    is_rust_stack(o.stack),
                    "cargo"@,
                ),
                subfolders: t.subfolders,
                containers: o.containers,
                spa: o.spa,
                template_engine: o.template_engine,
            },
        ),
    }
}

/// A fully resolved configuration, immutable once built, consumed by the
/// command plan compiler.
#[derive(Debug)]
pub struct ScaffoldConfig {
    pub stack: StackTemplate,
    pub title: String,
    pub root_dir: String,
    pub template_dir: String,
    pub languages: Vec<Language>,
    pub db: Option<Database>,
    pub db_client: Option<DbClient>,
    pub linters: Vec<Linter>,
    pub formatters: Vec<Formatter>,
    pub test_frameworks: Vec<TestFramework>,
    pub npm_scripts: Option<StringMap>,
    pub cargo_scripts: Option<StringMap>,
    pub npm_deps: Vec<Module>,
    pub cargo_deps: Vec<Module>,
    pub subfolders: Option<Vec<String>>,
    pub containers: bool,
    pub spa: bool,
    pub template_engine: bool,
}

impl View for ScaffoldConfig {
    type V = ScaffoldConfigView;

    open spec fn view(&self) -> ScaffoldConfigView {
        ScaffoldConfigView {
            stack: self.stack,
            title: self.title@,
            root_dir: self.root_dir@,
            template_dir: self.template_dir@,
            languages: self.languages@,
            db: self.db,
            db_client: self.db_client,
            linters: self.linters@,
            formatters: self.formatters@,
            test_frameworks: self.test_frameworks@,
            npm_scripts: match self.npm_scripts {
                Option::Some(m) => Option::Some(m@),
                Option::None => Option::None,
            },
            cargo_scripts: match self.cargo_scripts {
                Option::Some(m) => Option::Some(m@),
                Option::None => Option::None,
            },
            npm_deps: self.npm_deps.deep_view(),
            cargo_deps: self.cargo_deps.deep_view(),
            subfolders: self.subfolders.deep_view(),
            containers: self.containers,
            spa: self.spa,
            template_engine: self.template_engine,
        }
    }
}

impl ScaffoldConfig {
    /// Every dependency the configuration holds has well-formed hooks.
    pub open spec fn wf(&self) -> bool {
        (forall|i: int| 0 <= i < self@.npm_deps.len() ==> then_wf(
            (#[trigger] self@.npm_deps[i]).then_cmds,
        )) && (forall|i: int| 0 <= i < self@.cargo_deps.len() ==> then_wf(
            (#[trigger] self@.cargo_deps[i]).then_cmds,
        ))
    }

    /// Resolves a parsed template against the user's choices.
    pub fn new(template: &TomlTemplate, options: &UserOptions) -> (r: Result<
        ScaffoldConfig,
        ConfigError,
    >)
        requires
            template.wf(),
        ensures
            match spec_resolve(template@, options@) {
                Result::Ok(cv) => r matches Result::Ok(c) && c@ == cv && c.wf(),
                Result::Err(e) => r matches Result::Err(e2) && e2 == e,
            },
    {
        let db_client = match resolve_db_client(options.stack, &options.db, options.orm) {
            Result::Ok(c) => c,
            Result::Err(e) => {
                return Result::Err(e);
            },
        };
        let rust = options.stack.is_rust();
        let npm_base = eco_dep_list(template, "npm");
        let cargo_base = eco_dep_list(template, "cargo");
        let npm_deps = merge_client_dep(npm_base, &db_client, &options.db, rust, "npm");
        let cargo_deps = merge_client_dep(cargo_base, &db_client, &options.db, rust, "cargo");
        let config = ScaffoldConfig {
            stack: options.stack,
            title: options.app_name.clone(),
            root_dir: options.output_dir.clone(),
            template_dir: options.stack.template_dir(),
            languages: derive_languages(options.stack),
            db: options.db,
            db_client,
            linters: derive_linters(options.stack, options.spa),
            formatters: derive_formatters(options.stack),
            test_frameworks: clone_test_frameworks(&options.test_frameworks),
            npm_scripts: eco_script_map(template, "npm"),
            cargo_scripts: eco_script_map(template, "cargo"),
            npm_deps,
            cargo_deps,
            subfolders: match template.get_subfolders() {
                Option::Some(sf) => Option::Some(clone_strings(sf)),
                Option::None => Option::None,
            },
            containers: options.containers,
            spa: options.spa,
            template_engine: options.template_engine,
        };
        Result::Ok(config)
    }

    /// Whether the configuration's project is written in a language.
    pub fn has_language(&self, language: &Language) -> (r: bool)
        ensures
            r == self.languages@.contains(*language),
    {
        let mut i: usize = 0;
        while i < self.languages.len()
            invariant
                i <= self.languages@.len(),
                forall|k: int| 0 <= k < i ==> self.languages@[k] != *language,
            decreases self.languages@.len() - i,
        {
            if self.languages[i] == *language {
                return true;
            }
            i = i + 1;
        }
        false
    }
}

/// Applies the decision table.
pub fn resolve_db_client(stack: StackTemplate, db: &Option<Database>, orm: bool) -> (r: Result<
    Option<DbClient>,
    ConfigError,
>)
    ensures
        r == spec_db_client(stack, *db, orm),
{
    match db {
        Option::None => Result::Ok(Option::None),
        Option::Some(d) => {
            if stack.is_rust() {
                match d {
                    Database::Postgres => Result::Ok(
                        Option::Some(
                            if orm {
                                DbClient::Diesel
                            } else {
                                DbClient::Sqlx
                            },
                        ),
                    ),
                    Database::Sqlite => Result::Ok(
                        Option::Some(
                            if orm {
                                DbClient::Diesel
                            } else {
                                DbClient::Sqlx
                            },
                        ),
                    ),
                    Database::Mongo => if orm {
                        Result::Err(ConfigError::UnsupportedCombination)
                    } else {
                        Result::Ok(Option::Some(DbClient::MongoDb))
                    },
                }
            } else {
                match d {
                    Database::Postgres => Result::Ok(
                        Option::Some(
                            if orm {
                                DbClient::Prisma
                            } else {
                                DbClient::Slonik
                            },
                        ),
                    ),
                    Database::Sqlite => Result::Ok(
                        Option::Some(
                            if orm {
                                DbClient::Prisma
                            } else {
                                DbClient::BetterSqlite
                            },
                        ),
                    ),
                    Database::Mongo => Result::Ok(
                        Option::Some(
                            if orm {
                                DbClient::Mongoose
                            } else {
                                DbClient::MongoDb
                            },
                        ),
                    ),
                }
            }
        },
    }
}

/// The languages of a stack, as a list.
fn derive_languages(stack: StackTemplate) -> (r: Vec<Language>)
    ensures
        r@ == spec_languages(stack),
{
    let mut v: Vec<Language> = Vec::new();
    if stack.is_rust() {
        v.push(Language::Rust);
        proof {
            assert(v@ =~= spec_languages(stack));
        }
    } else {
        v.push(Language::TypeScript);
        v.push(Language::JavaScript);
        proof {
            assert(v@ =~= spec_languages(stack));
        }
    }
    v
}

/// The linters of a stack, refined by the frontend flag.
fn derive_linters(stack: StackTemplate, spa: bool) -> (r: Vec<Linter>)
    ensures
        r@ == spec_linters(stack, spa),
{
    let mut v: Vec<Linter> = Vec::new();
    match stack {
        StackTemplate::TSCLI => v.push(Linter::ESLint),
        StackTemplate::TSAPI => {
            v.push(Linter::ESLint);
            if spa {
                v.push(Linter::Stylelint);
            }
        },
        StackTemplate::RSCLI => v.push(Linter::Clippy),
        StackTemplate::RSAPI => v.push(Linter::Clippy),
    }
    proof {
        assert(v@ =~= spec_linters(stack, spa));
    }
    v
}

/// The formatters of a stack.
fn derive_formatters(stack: StackTemplate) -> (r: Vec<Formatter>)
    ensures
        r@ == spec_formatters(stack),
{
    let mut v: Vec<Formatter> = Vec::new();
    if stack.is_rust() {
        v.push(Formatter::Rustfmt);
    }
    proof {
        assert(v@ =~= spec_formatters(stack));
    }
    v
}

/// Copies the selected test frameworks.
fn clone_test_frameworks(ts: &Vec<TestFramework>) -> (r: Vec<TestFramework>)
    ensures
        r@ == ts@,
{
    let mut v: Vec<TestFramework> = Vec::new();
    let mut i: usize = 0;
    while i < ts.len()
        invariant
            i <= ts@.len(),
            v@ =~= ts@.take(i as int),
        decreases ts@.len() - i,
    {
        v.push(ts[i]);
        i = i + 1;
    }
    proof {
        assert(ts@.take(ts@.len() as int) =~= ts@);
    }
    v
}

/// Copies one ecosystem's dependency list out of the template.
#[verifier::loop_isolation(false)]
fn eco_dep_list(template: &TomlTemplate, eco: &str) -> (r: Vec<Module>)
    requires
        template.wf(),
    ensures
        r.deep_view() == spec_eco_deps(template@, eco@),
        forall|i: int| 0 <= i < r.deep_view().len() ==> then_wf(
            (#[trigger] r.deep_view()[i]).then_cmds,
        ),
{
    match template.get_dependencies().get(eco) {
        Option::None => {
            let v: Vec<Module> = Vec::new();
            proof {
                assert(v.deep_view() =~= Seq::<ModuleView>::empty());
            }
            v
        },
        Option::Some(ms) => {
            let ghost base = ms.deep_view();
            proof {
                let deps = template@.dependencies;
                lemma_assoc_get_in(deps, eco@);
            }
            let mut v: Vec<Module> = Vec::new();
            let mut i: usize = 0;
            while i < ms.len()
                invariant
                    i <= ms@.len(),
                    v@.len() == i,
                    forall|k: int| 0 <= k < i ==> v.deep_view()[k] == ms.deep_view()[k],
                decreases ms@.len() - i,
            {
                let ghost pre = v.deep_view();
                v.push(ms[i].clone());
                proof {
                    assert(v.deep_view()[i as int] == ms.deep_view()[i as int]);
                    assert(forall|k: int| 0 <= k < i ==> v.deep_view()[k] == pre[k]);
                }
                i = i + 1;
            }
            proof {
                assert(v.deep_view() =~= ms.deep_view());
                let deps = template@.dependencies;
                assert forall|k: int| 0 <= k < v.deep_view().len() implies then_wf(
                    v.deep_view()[k].then_cmds,
                ) by {
                    let i0 = choose|i0: int|
                        0 <= i0 < deps.len() && deps[i0].1 == ms.deep_view();
                    assert(then_wf(deps[i0].1[k].then_cmds));
                }
            }
            v
        },
    }
}

/// Every list an association lookup can yield is one of the association's
/// entries.
proof fn lemma_assoc_get_in<V>(entries: Seq<(Seq<char>, V)>, key: Seq<char>)
    ensures
        assoc_get(entries, key) matches Option::Some(v) ==> exists|i: int|
            0 <= i < entries.len() && entries[i].1 == v,
    decreases entries.len(),
{
    if entries.len() > 0 {
        lemma_assoc_get_in(entries.drop_first(), key);
        if !(entries.first().0 == key) {
            assert forall|j: int| 0 <= j < entries.drop_first().len() implies entries.drop_first()[j]
                == entries[j + 1] by {}
        }
    }
}

/// Appends the resolved client's package to a dependency list when it
/// belongs there and is not already declared.
#[verifier::loop_isolation(false)]
pub fn merge_client_dep(
    base: Vec<Module>,
    client: &Option<DbClient>,
    db: &Option<Database>,
    rust: bool,
    eco: &str,
) -> (r: Vec<Module>)
    requires
        forall|i: int| 0 <= i < base.deep_view().len() ==> then_wf(
            (#[trigger] base.deep_view()[i]).then_cmds,
        ),
    ensures
        r.deep_view() == spec_merged_deps(base.deep_view(), *client, *db, rust, eco@),
        forall|i: int| 0 <= i < r.deep_view().len() ==> then_wf(
            (#[trigger] r.deep_view()[i]).then_cmds,
        ),
{
    let ghost basev = base.deep_view();
    match (client, db) {
        (Option::Some(c), Option::Some(d)) => {
            let dep = c.client_dependency(d);
            let ghost depv = dep@;
            let eco_match = {
                let ce: String = match c {
                    DbClient::Diesel => "cargo".to_owned(),
                    DbClient::Sqlx => "cargo".to_owned(),
                    DbClient::MongoDb => if rust {
                        "cargo".to_owned()
                    } else {
                        "npm".to_owned()
                    },
                    _ => "npm".to_owned(),
                };
                proof {
                    assert(ce@ == client_ecosystem(*c, rust));
                }
                crate::str_equal(ce.as_str(), eco)
            };
            if !eco_match {
                base
            } else {
                let mut found = false;
                let mut i: usize = 0;
                while i < base.len()
                    invariant
                        i <= base@.len(),
                        found == exists|k: int|
                            0 <= k < i && basev[k].name == depv.name,
                    decreases base@.len() - i,
                {
                    if crate::str_equal(base[i].get_name(), dep.get_name()) {
                        proof {
                            assert(basev[i as int].name == depv.name);
                        }
                        found = true;
                    } else {
                        proof {
                            assert(basev[i as int].name != depv.name);
                        }
                    }
                    i = i + 1;
                }
                if found {
                    base
                } else {
                    let mut r = base;
                    let ghost pre = r.deep_view();
                    r.push(dep);
                    proof {
                        assert(!declares_dep(basev, depv.name));
                        assert(r.deep_view() =~= pre.push(depv));
                        assert forall|k: int| 0 <= k < r.deep_view().len() implies then_wf(
                            r.deep_view()[k].then_cmds,
                        ) by {
                            if k < pre.len() {
                                assert(r.deep_view()[k] == pre[k]);
                                assert(then_wf(basev[k].then_cmds));
                            }
                        }
                    }
                    r
                }
            }
        },
        _ => base,
    }
}

/// Copies one ecosystem's script map out of the template.
fn eco_script_map(template: &TomlTemplate, eco: &str) -> (r: Option<StringMap>)
    ensures
        match r {
            Option::Some(m) => spec_eco_scripts(template@, eco@) == Option::Some(m@),
            Option::None => spec_eco_scripts(template@, eco@) is None,
        },
{
    match template.get_scripts() {
        Option::None => Option::None,
        Option::Some(sc) => match sc.get(eco) {
            Option::None => Option::None,
            Option::Some(m) => Option::Some(m.duplicate()),
        },
    }
}

} // verus!
