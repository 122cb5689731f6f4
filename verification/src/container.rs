//! Container generation: the variable context rendered into the container
//! definition templates, and the operations that produce and place them.

use vstd::prelude::*;
use vstd::string::StringExecFns;
use crate::config::ScaffoldConfig;
use crate::dialogue::Database;
use crate::pipeline::{
    args2, plain_command, CommandSpec, ContextValue, ContextValueView, Operation, OperationView,
};

verus! {

/// A project name with every dash turned into an underscore, as generated
/// artifact prefixes are written.
pub open spec fn snake_of(s: Seq<char>) -> Seq<char> {
    s.map_values(
        |c: char|
            if c == '-' {
                '_'
            } else {
                c
            },
    )
}

/// Relies on `str::replace`: with a one-character pattern and a
/// one-character replacement, each occurrence of the pattern is replaced
/// and every other character is kept.
#[verifier::external_body]
fn replace_dashes(s: &str) -> (r: String)
    ensures
        r@ == snake_of(s@),
{
    s.replace('-', "_")
}

/// The variable context the container templates are rendered with.
#[derive(Debug)]
pub struct DockerVariables {
    app_name: String,
    deps_name: String,
    database: bool,
    postgres: bool,
    mongo: bool,
    sqlite: bool,
}

/// The mathematical value of a `DockerVariables`.
pub struct DockerVariablesView {
    pub app_name: Seq<char>,
    pub deps_name: Seq<char>,
    pub database: bool,
    pub postgres: bool,
    pub mongo: bool,
    pub sqlite: bool,
}

impl View for DockerVariables {
    type V = DockerVariablesView;

    closed spec fn view(&self) -> DockerVariablesView {
        DockerVariablesView {
            app_name: self.app_name@,
            deps_name: self.deps_name@,
            database: self.database,
            postgres: self.postgres,
            mongo: self.mongo,
            sqlite: self.sqlite,
        }
    }
}

impl crate::template_generator::TemplateData for DockerVariables {

}

impl DockerVariables {
    /// Derives the context from the project's directory name and the
    /// selected database engine.
    pub fn new(app_name: &str, db: &Option<Database>) -> (r: DockerVariables)
        ensures
            r@.app_name == app_name@,
            r@.deps_name == snake_of(app_name@),
            r@.database == (db is Some),
            r@.postgres == (*db == Option::Some(Database::Postgres)),
            r@.mongo == (*db == Option::Some(Database::Mongo)),
            r@.sqlite == (*db == Option::Some(Database::Sqlite)),
    {
        DockerVariables {
            app_name: app_name.to_owned(),
            deps_name: replace_dashes(app_name),
            database: match db {
                Option::Some(_) => true,
                Option::None => false,
            },
            postgres: match db {
                Option::Some(Database::Postgres) => true,
                _ => false,
            },
            mongo: match db {
                Option::Some(Database::Mongo) => true,
                _ => false,
            },
            sqlite: match db {
                Option::Some(Database::Sqlite) => true,
                _ => false,
            },
        }
    }

    /// The context as name-value pairs for the template renderer.
    pub fn to_context(&self) -> (r: Vec<(String, ContextValue)>)
        ensures
            r.deep_view() == docker_context(self@),
    {
        let mut v: Vec<(String, ContextValue)> = Vec::new();
        v.push(("app_name".to_owned(), ContextValue::Text(self.app_name.clone())));
        v.push(("deps_name".to_owned(), ContextValue::Text(self.deps_name.clone())));
        v.push(("database".to_owned(), ContextValue::Flag(self.database)));
        v.push(("postgres".to_owned(), ContextValue::Flag(self.postgres)));
        v.push(("mongo".to_owned(), ContextValue::Flag(self.mongo)));
        v.push(("sqlite".to_owned(), ContextValue::Flag(self.sqlite)));
        proof {
            assert(v.deep_view() =~= docker_context(self@));
        }
        v
    }
}

/// The rendering context of a container variable set, in field order.
pub open spec fn docker_context(d: DockerVariablesView) -> Seq<(Seq<char>, ContextValueView)> {
    seq![
        ("app_name"@, ContextValueView::Text(d.app_name)),
        ("deps_name"@, ContextValueView::Text(d.deps_name)),
        ("database"@, ContextValueView::Flag(d.database)),
        ("postgres"@, ContextValueView::Flag(d.postgres)),
        ("mongo"@, ContextValueView::Flag(d.mongo)),
        ("sqlite"@, ContextValueView::Flag(d.sqlite)),
    ]
}

/// The container variables a configuration renders with: derived from its
/// root directory name and database engine.
pub open spec fn spec_docker_variables(c: crate::config::ScaffoldConfigView) -> DockerVariablesView {
    DockerVariablesView {
        app_name: c.root_dir,
        deps_name: snake_of(c.root_dir),
        database: c.db is Some,
        postgres: c.db == Option::<Database>::Some(Database::Postgres),
        mongo: c.db == Option::<Database>::Some(Database::Mongo),
        sqlite: c.db == Option::<Database>::Some(Database::Sqlite),
    }
}

/// The operations that generate the container files: render the container
/// template tree, then move the compose file up into the project root.
pub open spec fn spec_container_ops(c: crate::config::ScaffoldConfigView) -> Seq<OperationView> {
    seq![
        OperationView::RenderTemplateTree {
            src: c.template_dir + "/docker"@,
            dst: "docker"@,
            context: docker_context(spec_docker_variables(c)),
        },
        OperationView::RunCommand {
            command: plain_command(
                "mv"@,
                seq!["docker/docker-compose.yml"@, "docker-compose.yml"@],
            ),
        },
    ]
}

/// Plans the container generation for one configuration.
pub struct ContainerBuilder<'a> {
    pub config: &'a ScaffoldConfig,
}

impl<'a> ContainerBuilder<'a> {
    pub fn new(config: &'a ScaffoldConfig) -> (r: ContainerBuilder<'a>)
        ensures
            r.config == config,
    {
        ContainerBuilder { config }
    }

    /// The container-generation operations, in order.
    pub fn build(&self) -> (r: Vec<Operation>)
        ensures
            r.deep_view() == spec_container_ops(self.config@),
    {
        let vars = DockerVariables::new(self.config.root_dir.as_str(), &self.config.db);
        let mut ops: Vec<Operation> = Vec::new();
        let src = self.config.template_dir.clone().concat("/docker");
        ops.push(
            Operation::RenderTemplateTree {
                src,
                dst: "docker".to_owned(),
                context: vars.to_context(),
            },
        );
        ops.push(
            Operation::RunCommand {
                command: CommandSpec::new(
                    "mv".to_owned(),
                    args2("docker/docker-compose.yml", "docker-compose.yml"),
                ),
            },
        );
        proof {
            assert(ops.deep_view() =~= spec_container_ops(self.config@));
        }
        ops
    }
}

} // verus!
