//! The build-tool operation that one invocation performs.

use vstd::prelude::*;

verus! {

/// Which build-tool operation is run: type-check only, compile, or run tests.
#[derive(Debug, Clone, Copy, PartialEq, Eq, Structural)]
pub enum Phase {
    Check,
    Build,
    Test,
}

/// The subcommand name of each phase.
pub open spec fn phase_name(phase: Phase) -> Seq<char> {
    match phase {
        Phase::Check => "check"@,
        Phase::Build => "build"@,
        Phase::Test => "test"@,
    }
}

impl Phase {
    /// The build-tool subcommand that runs this phase.
    pub fn name(&self) -> (r: &'static str)
        ensures
            r@ == phase_name(*self),
    {
        match self {
            Phase::Check => "check",
            Phase::Build => "build",
            Phase::Test => "test",
        }
    }
}

} // verus!
