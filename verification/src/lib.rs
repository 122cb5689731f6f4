//! A project-scaffolding engine: stack templates are parsed into a structured
//! model, resolved against the user's choices into a fully determined
//! configuration, and compiled into an ordered pipeline of operations.

pub mod builder;
pub mod config;
pub mod container;
pub mod db_client;
pub mod dialogue;
pub mod doc_tree;
pub mod engine;
pub mod formatters;
pub mod linters;
pub mod module;
pub mod pipeline;
pub mod template_generator;
pub mod test_frameworks;
pub mod toml_parser;

use vstd::prelude::*;

verus! {

/// A dependency version that defers the choice to the package manager.
pub open spec fn latest_version() -> Seq<char> {
    "latest"@
}

/// Compares two string slices by their character sequences.
pub fn str_equal(a: &str, b: &str) -> (r: bool)
    ensures
        r == (a@ == b@),
{
    let sa: String = a.to_owned();
    let sb: String = b.to_owned();
    sa == sb
}

} // verus!
