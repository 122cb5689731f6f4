//! The linters a resolved configuration can install, with the exact commands
//! each one contributes.

use vstd::prelude::*;
use crate::pipeline::{args1, args3, plain_command, single_command, CommandSpec, CommandSpecView};

verus! {

/// The linters this engine knows how to install.
#[derive(Debug, Clone, Copy, PartialEq, Eq, Structural)]
pub enum Linter {
    ESLint,
    Stylelint,
    Clippy,
}

/// The install commands of each linter.
pub open spec fn linter_cmds(l: Linter) -> Seq<CommandSpecView> {
    match l {
        Linter::ESLint => seq![plain_command("bun"@, seq!["add"@, "eslint"@, "--dev"@])],
        Linter::Stylelint => seq![plain_command("bun"@, seq!["add"@, "stylelint"@, "--dev"@])],
        Linter::Clippy => seq![
            plain_command("rustup"@, seq!["update"@]),
            plain_command("rustup"@, seq!["component"@, "add"@, "clippy"@]),
        ],
    }
}

impl Linter {
    /// The commands that install this linter, in order.
    pub fn get_install_commands(&self) -> (r: Vec<CommandSpec>)
        ensures
            r.deep_view() == linter_cmds(*self),
    {
        match self {
            Linter::ESLint => single_command(
                CommandSpec::new("bun".to_owned(), args3("add", "eslint", "--dev")),
            ),
            Linter::Stylelint => single_command(
                CommandSpec::new("bun".to_owned(), args3("add", "stylelint", "--dev")),
            ),
            Linter::Clippy => {
                let mut commands: Vec<CommandSpec> = Vec::new();
                commands.push(CommandSpec::new("rustup".to_owned(), args1("update")));
                commands.push(
                    CommandSpec::new("rustup".to_owned(), args3("component", "add", "clippy")),
                );
                proof {
                    assert(commands.deep_view() =~= linter_cmds(Linter::Clippy));
                }
                commands
            },
        }
    }
}

} // verus!
