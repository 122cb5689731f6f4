//! The code formatters a resolved configuration can install, with the exact
//! commands each one contributes.

use vstd::prelude::*;
use crate::pipeline::{args1, args3, plain_command, single_command, CommandSpec, CommandSpecView};

verus! {

/// The formatters this engine knows how to install.
#[derive(Debug, Clone, Copy, PartialEq, Eq, Structural)]
pub enum Formatter {
    Pint,
    Rustfmt,
}

/// The install commands of each formatter.
pub open spec fn formatter_cmds(f: Formatter) -> Seq<CommandSpecView> {
    match f {
        Formatter::Pint => seq![plain_command("npm"@, seq!["install"@, "pint"@, "--save-dev"@])],
        Formatter::Rustfmt => seq![
            plain_command("rustup"@, seq!["update"@]),
            plain_command("rustup"@, seq!["component"@, "add"@, "rustfmt"@]),
        ],
    }
}

impl Formatter {
    /// The commands that install this formatter, in order.
    pub fn get_install_commands(&self) -> (r: Vec<CommandSpec>)
        ensures
            r.deep_view() == formatter_cmds(*self),
    {
        match self {
            Formatter::Pint => single_command(
                CommandSpec::new("npm".to_owned(), args3("install", "pint", "--save-dev")),
            ),
            Formatter::Rustfmt => {
                let mut commands: Vec<CommandSpec> = Vec::new();
                commands.push(CommandSpec::new("rustup".to_owned(), args1("update")));
                commands.push(
                    CommandSpec::new("rustup".to_owned(), args3("component", "add", "rustfmt")),
                );
                proof {
                    assert(commands.deep_view() =~= formatter_cmds(Formatter::Rustfmt));
                }
                commands
            },
        }
    }
}

} // verus!
