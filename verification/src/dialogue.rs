//! The choices a user makes before a scaffold run: the stack variant, the
//! project name and output directory, the database engine, and the feature
//! flags. Collecting these interactively is the caller's concern; this module
//! holds the data and the few rules that constrain it.

use vstd::prelude::*;
use crate::test_frameworks::TestFramework;

verus! {

/// The stack variants a project can be scaffolded from.
#[derive(Debug, Clone, Copy, PartialEq, Eq, Structural)]
pub enum StackTemplate {
    TSAPI,
    RSAPI,
    RSCLI,
    TSCLI,
}

/// Whether a stack variant builds on the Rust toolchain.
pub open spec fn is_rust_stack(s: StackTemplate) -> bool {
    s == StackTemplate::RSAPI || s == StackTemplate::RSCLI
}

/// The template document path of each stack variant.
pub open spec fn stack_path(s: StackTemplate) -> Seq<char> {
    match s {
        StackTemplate::RSAPI => "templates/rsapi/stack_template.toml"@,
        StackTemplate::TSCLI => "templates/tscli/stack_template.toml"@,
        StackTemplate::RSCLI => "templates/rscli/stack_template.toml"@,
        StackTemplate::TSAPI => "templates/tsapi/stack_template.toml"@,
    }
}

/// The template directory of each stack variant.
pub open spec fn stack_dir(s: StackTemplate) -> Seq<char> {
    match s {
        StackTemplate::RSAPI => "templates/rsapi"@,
        StackTemplate::TSCLI => "templates/tscli"@,
        StackTemplate::RSCLI => "templates/rscli"@,
        StackTemplate::TSAPI => "templates/tsapi"@,
    }
}

impl StackTemplate {
    /// The path of the declarative template document for this stack.
    pub fn get_path(&self) -> (r: String)
        ensures
            r@ == stack_path(*self),
    {
        match self {
            StackTemplate::RSAPI => "templates/rsapi/stack_template.toml".to_owned(),
            StackTemplate::TSCLI => "templates/tscli/stack_template.toml".to_owned(),
            StackTemplate::RSCLI => "templates/rscli/stack_template.toml".to_owned(),
            StackTemplate::TSAPI => "templates/tsapi/stack_template.toml".to_owned(),
        }
    }

    /// The directory holding this stack's template trees.
    pub fn template_dir(&self) -> (r: String)
        ensures
            r@ == stack_dir(*self),
    {
        match self {
            StackTemplate::RSAPI => "templates/rsapi".to_owned(),
            StackTemplate::TSCLI => "templates/tscli".to_owned(),
            StackTemplate::RSCLI => "templates/rscli".to_owned(),
            StackTemplate::TSAPI => "templates/tsapi".to_owned(),
        }
    }

    /// Whether this stack builds on the Rust toolchain.
    pub fn is_rust(&self) -> (r: bool)
        ensures
            r == is_rust_stack(*self),
    {
        match self {
            StackTemplate::RSAPI => true,
            StackTemplate::RSCLI => true,
            StackTemplate::TSAPI => false,
            StackTemplate::TSCLI => false,
        }
    }
}

/// The database engines a template can be resolved against.
#[derive(Debug, Clone, Copy, PartialEq, Eq, Structural)]
pub enum Database {
    Postgres,
    Mongo,
    Sqlite,
}

/// Whether an object-relational mapper can be offered for the combination:
/// no Rust mapper exists for MongoDB in this domain.
pub open spec fn orm_supported(stack: StackTemplate, db: Database) -> bool {
    !(is_rust_stack(stack) && db == Database::Mongo)
}

/// Decides whether the ORM choice may be offered for a stack and database.
pub fn supports_orm(stack: StackTemplate, db: Database) -> (r: bool)
    ensures
        r == orm_supported(stack, db),
{
    if stack.is_rust() {
        match db {
            Database::Mongo => false,
            Database::Postgres => true,
            Database::Sqlite => true,
        }
    } else {
        true
    }
}

/// Everything the user decides before a run.
#[derive(Debug, Clone)]
pub struct UserOptions {
    pub stack: StackTemplate,
    pub output_dir: String,
    pub app_name: String,
    pub db: Option<Database>,
    pub orm: bool,
    pub spa: bool,
    pub template_engine: bool,
    pub containers: bool,
    pub test_frameworks: Vec<TestFramework>,
}

/// The mathematical value of a `UserOptions`.
pub struct UserOptionsView {
    pub stack: StackTemplate,
    pub output_dir: Seq<char>,
    pub app_name: Seq<char>,
    pub db: Option<Database>,
    pub orm: bool,
    pub spa: bool,
    pub template_engine: bool,
    pub containers: bool,
    pub test_frameworks: Seq<TestFramework>,
}

impl View for UserOptions {
    type V = UserOptionsView;

    open spec fn view(&self) -> UserOptionsView {
        UserOptionsView {
            stack: self.stack,
            output_dir: self.output_dir@,
            app_name: self.app_name@,
            db: self.db,
            orm: self.orm,
            spa: self.spa,
            template_engine: self.template_engine,
            containers: self.containers,
            test_frameworks: self.test_frameworks@,
        }
    }
}

/// What `slug::slugify` returns for a string: a function of the input
/// characters alone.
pub uninterp spec fn slug_of(s: Seq<char>) -> Seq<char>;

/// Relies on `slug::slugify`: the slug is derived from the input characters
/// alone, deterministically.
#[verifier::external_body]
fn slugify_str(s: &str) -> (r: String)
    ensures
        r@ == slug_of(s@),
{
    slug::slugify(s)
}

/// The output directory a project gets by default: the slug of its name.
pub fn derive_output_dir(app_name: &str) -> (r: String)
    ensures
        r@ == slug_of(app_name@),
{
    slugify_str(app_name)
}

} // verus!
