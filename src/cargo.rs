//! Running the build tool: argument lists, outcome classification and
//! locating the enclosing project.

use vstd::prelude::*;

use crate::options::Options;
use crate::phase::{phase_name, Phase};

verus! {

/// The result of running a single build-tool command.
#[derive(Debug, Clone, Copy, PartialEq, Eq, Structural)]
pub enum CargoResult {
    /// The build tool was killed by a timeout.
    Timeout,
    /// The build tool exited successfully.
    Success,
    /// The build tool failed for some reason.
    Failure,
}

impl CargoResult {
    pub fn success(&self) -> (r: bool)
        ensures
            r == (*self == CargoResult::Success),
    {
        match self {
            CargoResult::Success => true,
            _ => false,
        }
    }
}

/// The strings that a vector of `String` holds.
pub open spec fn strings(v: Seq<String>) -> Seq<Seq<char>> {
    v.map_values(|s: String| s@)
}

/// The argument list of one invocation: the subcommand, the flag that builds
/// test targets for check and build, the blanket arguments, and for tests the
/// test-only arguments after them.
pub open spec fn cargo_args_spec(phase: Phase, blanket: Seq<Seq<char>>, test_only: Seq<Seq<char>>)
    -> Seq<Seq<char>> {
    match phase {
        Phase::Test => seq![phase_name(phase)] + blanket + test_only,
        _ => seq![phase_name(phase), "--tests"@] + blanket,
    }
}

/// The argument list of every phase starts with the phase's subcommand,
/// followed for check and build by the flag that builds test targets; then
/// come the blanket arguments in their order, and only for tests, after all
/// of them, the test-only arguments in theirs.
pub proof fn lemma_argument_order(phase: Phase, blanket: Seq<Seq<char>>, test_only: Seq<Seq<char>>)
    ensures
        ({
            let args = cargo_args_spec(phase, blanket, test_only);
            let head: int = if phase == Phase::Test { 1 } else { 2 };
            &&& args[0] == phase_name(phase)
            &&& phase != Phase::Test ==> args[1] == "--tests"@
            &&& args.subrange(head, head + blanket.len()) == blanket
            &&& phase == Phase::Test ==> args.subrange(head + blanket.len(), args.len() as int)
                == test_only
            &&& phase != Phase::Test ==> args.len() == head + blanket.len()
        }),
{
    let args = cargo_args_spec(phase, blanket, test_only);
    let head: int = if phase == Phase::Test { 1 } else { 2 };
    assert(args.subrange(head, head + blanket.len()) =~= blanket);
    if phase == Phase::Test {
        assert(args.subrange(head + blanket.len(), args.len() as int) =~= test_only);
    }
}

/// Append a copy of each string of `src` to `dst`, in order.
fn extend_cloned(dst: &mut Vec<String>, src: &Vec<String>)
    ensures
        strings(final(dst)@) == strings(old(dst)@) + strings(src@),
{
    let ghost start = strings(dst@);
    let mut i: usize = 0;
    while i < src.len()
        invariant
            i <= src@.len(),
            strings(dst@) == start + strings(src@.subrange(0, i as int)),
        decreases src@.len() - i,
    {
        let ghost before = strings(dst@);
        dst.push(src[i].clone());
        proof {
            assert(src@.subrange(0, i + 1) =~= src@.subrange(0, i as int).push(src@[i as int]));
            assert(strings(dst@) =~= before.push(src@[i as int]@));
            assert(strings(src@.subrange(0, i + 1)) =~= strings(src@.subrange(0, i as int)).push(
                src@[i as int]@,
            ));
        }
        i += 1;
    }
    proof {
        assert(src@.subrange(0, src@.len() as int) == src@);
    }
}

/// Make up the argument list for a check, build or test invocation, not
/// including the build-tool binary itself.
pub fn cargo_args(phase: Phase, options: &Options) -> (r: Vec<String>)
    ensures
        strings(r@) == cargo_args_spec(
            phase,
            strings(options.additional_cargo_args@),
            strings(options.additional_cargo_test_args@),
        ),
{
    let mut cargo_args: Vec<String> = Vec::new();
    cargo_args.push(phase.name().to_string());
    if phase == Phase::Check || phase == Phase::Build {
        cargo_args.push("--tests".to_string());
    }
    extend_cloned(&mut cargo_args, &options.additional_cargo_args);
    if phase == Phase::Test {
        extend_cloned(&mut cargo_args, &options.additional_cargo_test_args);
    }
    proof {
        reveal_strlit("--tests");
        let b = strings(options.additional_cargo_args@);
        let t = strings(options.additional_cargo_test_args@);
        assert(strings(cargo_args@) =~= cargo_args_spec(phase, b, t));
    }
    cargo_args
}

/// The name of the build-tool binary when no override is set.
pub open spec fn default_cargo_bin() -> Seq<char> {
    "cargo"@
}

/// Return the name of the build-tool binary: the value of the override
/// variable when it is set, else the default name. When run as a subcommand
/// the override names the exact entry point of the matching toolchain.
pub fn cargo_bin(env_override: Option<String>) -> (r: String)
    ensures
        r@ == match env_override {
            Some(v) => v@,
            None => default_cargo_bin(),
        },
{
    match env_override {
        Some(v) => v,
        None => {
            proof {
                reveal_strlit("cargo");
            }
            "cargo".to_string()
        },
    }
}

/// The full command line: the binary followed by its arguments.
pub fn command_argv(bin: String, args: &Vec<String>) -> (r: Vec<String>)
    ensures
        strings(r@) == seq![bin@] + strings(args@),
{
    let mut argv: Vec<String> = Vec::new();
    argv.push(bin);
    extend_cloned(&mut argv, args);
    proof {
        assert(strings(seq![bin]) =~= seq![bin@]);
    }
    argv
}

/// The words of `v` separated by single spaces.
pub open spec fn join_spaced(v: Seq<Seq<char>>) -> Seq<char>
    decreases v.len(),
{
    if v.len() == 0 {
        seq![]
    } else if v.len() == 1 {
        v[0]
    } else {
        join_spaced(v.drop_last()) + " "@ + v.last()
    }
}

/// The command line as one string, words separated by single spaces, as it
/// is logged before the spawn.
pub fn command_line(argv: &Vec<String>) -> (r: String)
    ensures
        r@ == join_spaced(strings(argv@)),
{
    let mut line = String::new();
    let mut i: usize = 0;
    while i < argv.len()
        invariant
            i <= argv@.len(),
            line@ == join_spaced(strings(argv@.subrange(0, i as int))),
        decreases argv@.len() - i,
    {
        let ghost prefix = strings(argv@.subrange(0, i as int));
        if i > 0 {
            line.append(" ");
        }
        line.append(argv[i].as_str());
        proof {
            reveal_strlit(" ");
            let next = strings(argv@.subrange(0, i + 1));
            assert(next =~= prefix.push(argv@[i as int]@));
            assert(next.drop_last() =~= prefix);
            if i == 0 {
                assert(line@ =~= next[0]);
            }
        }
        i += 1;
    }
    proof {
        assert(argv@.subrange(0, argv@.len() as int) =~= argv@);
    }
    line
}

/// The flag that caps every lint at "allow".
pub open spec fn cap_lints_flag() -> Seq<char> {
    "--cap-lints=allow"@
}

/// How the lint cap is combined with flags already in the environment.
#[derive(Debug, Clone, Copy, PartialEq, Eq, Structural)]
pub enum LintCapMode {
    /// Add the cap after any existing flags.
    Append,
    /// Use the cap alone, discarding existing flags.
    Replace,
}

impl Default for LintCapMode {
    fn default() -> (r: LintCapMode)
        ensures
            r == LintCapMode::Append,
    {
        LintCapMode::Append
    }
}

/// The compiler flags given to the child: the lint cap, after the existing
/// non-empty flags when appending.
pub open spec fn rustflags_spec(existing: Option<Seq<char>>, mode: LintCapMode) -> Seq<char> {
    match existing {
        Some(v) => if mode == LintCapMode::Append && v.len() > 0 {
            v + " "@ + cap_lints_flag()
        } else {
            cap_lints_flag()
        },
        None => cap_lints_flag(),
    }
}

/// Compute the compiler-flags variable for the child, so that warnings
/// introduced by a mutation are never promoted to errors by the project's own
/// lint configuration.
pub fn child_rustflags(existing: Option<String>, mode: LintCapMode) -> (r: String)
    ensures
        r@ == rustflags_spec(
            match existing {
                Some(v) => Some(v@),
                None => None,
            },
            mode,
        ),
{
    proof {
        reveal_strlit("--cap-lints=allow");
        reveal_strlit(" ");
    }
    match existing {
        Some(v) => {
            if mode == LintCapMode::Append && !v.as_str().is_empty() {
                let mut flags = v;
                flags.append(" ");
                flags.append("--cap-lints=allow");
                flags
            } else {
                "--cap-lints=allow".to_string()
            }
        },
        None => "--cap-lints=allow".to_string(),
    }
}

} // verus!
