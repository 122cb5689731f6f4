//! The test frameworks a user can select, with the exact commands each one
//! contributes.

use vstd::prelude::*;
use crate::pipeline::{args3, plain_command, single_command, CommandSpec, CommandSpecView};

verus! {

/// The test frameworks this engine knows how to install.
#[derive(Debug, Clone, Copy, PartialEq, Eq, Structural)]
pub enum TestFramework {
    Jest,
    Vitest,
    Pest,
    Playwright,
}

/// The install commands of each test framework.
pub open spec fn test_framework_cmds(t: TestFramework) -> Seq<CommandSpecView> {
    match t {
        TestFramework::Jest => seq![plain_command("bun"@, seq!["add"@, "jest"@, "--dev"@])],
        TestFramework::Vitest => seq![plain_command("bun"@, seq!["add"@, "vitest"@, "--dev"@])],
        TestFramework::Pest => seq![
            plain_command("composer"@, seq!["require"@, "pestphp/pest"@, "--dev"@]),
        ],
        TestFramework::Playwright => seq![
            plain_command("bun"@, seq!["add"@, "playwright"@, "--dev"@]),
        ],
    }
}

impl TestFramework {
    /// The commands that install this test framework, in order.
    pub fn get_install_commands(&self) -> (r: Vec<CommandSpec>)
        ensures
            r.deep_view() == test_framework_cmds(*self),
    {
        match self {
            TestFramework::Jest => single_command(
                CommandSpec::new("bun".to_owned(), args3("add", "jest", "--dev")),
            ),
            TestFramework::Vitest => single_command(
                CommandSpec::new("bun".to_owned(), args3("add", "vitest", "--dev")),
            ),
            TestFramework::Pest => single_command(
                CommandSpec::new("composer".to_owned(), args3("require", "pestphp/pest", "--dev")),
            ),
            TestFramework::Playwright => single_command(
                CommandSpec::new("bun".to_owned(), args3("add", "playwright", "--dev")),
            ),
        }
    }
}

} // verus!
