//! Options for running experiments, as consumed by the supervisor.

use vstd::prelude::*;

use crate::cargo::strings;

verus! {

#[verifier::external_type_specification]
#[verifier::external_body]
pub struct ExGlobSet(globset::GlobSet);

#[verifier::external_type_specification]
#[verifier::external_body]
pub struct ExGlobSetBuilder(globset::GlobSetBuilder);

#[verifier::external_type_specification]
#[verifier::external_body]
pub struct ExGlobError(globset::Error);

#[verifier::external_type_specification]
#[verifier::external_body]
pub struct ExUtf8PathBuf(camino::Utf8PathBuf);

/// Options for running experiments.
#[derive(Debug, Clone)]
pub struct Options {
    /// Don't run the tests, just see if each mutant builds.
    pub check_only: bool,
    /// Maximum run time of test invocations in nanoseconds; `None` is unbounded.
    pub test_timeout: Option<u128>,
    pub print_caught: bool,
    pub print_unviable: bool,
    pub show_times: bool,
    /// Show logs even from mutants that were caught, or source/unmutated builds.
    pub show_all_logs: bool,
    /// Test mutants in random order.
    pub shuffle: bool,
    /// Additional arguments for every build-tool invocation.
    pub additional_cargo_args: Vec<String>,
    /// Additional arguments for test invocations only.
    pub additional_cargo_test_args: Vec<String>,
    /// Copy the `target` directory from the source tree.
    pub copy_target: bool,
    /// Build the source directory before copying it.
    pub build_source: bool,
    /// Files to examine.
    pub examine_globset: Option<globset::GlobSet>,
    /// Files to exclude.
    pub exclude_globset: Option<globset::GlobSet>,
    /// Directory in which to create the output directory.
    pub output_in_dir: Option<camino::Utf8PathBuf>,
}

impl Options {
    /// The configured test timeout in nanoseconds, if any.
    pub open spec fn spec_test_timeout(&self) -> Option<u128> {
        self.test_timeout
    }

    /// Return the maximum run time of test invocations, in nanoseconds;
    /// `None` means unbounded. Build and check are not affected.
    pub fn test_timeout(&self) -> (r: Option<u128>)
        ensures
            r == self.spec_test_timeout(),
    {
        self.test_timeout
    }

    /// Whether test invocations are bounded in time.
    pub fn has_test_timeout(&self) -> (r: bool)
        ensures
            r == self.spec_test_timeout().is_some(),
    {
        self.test_timeout.is_some()
    }

    /// Set the maximum run time of test invocations, in nanoseconds.
    pub fn set_test_timeout(&mut self, test_timeout: Option<u128>)
        ensures
            *final(self) == (Options { test_timeout, ..*old(self) }),
    {
        self.test_timeout = test_timeout;
    }
}

impl Default for Options {
    fn default() -> (r: Options)
        ensures
            r.additional_cargo_args@.len() == 0,
            r.additional_cargo_test_args@.len() == 0,
            r.spec_test_timeout().is_none(),
            !r.check_only && !r.print_caught && !r.print_unviable && !r.show_times,
            !r.show_all_logs && !r.shuffle && !r.copy_target && !r.build_source,
            r.examine_globset.is_none() && r.exclude_globset.is_none(),
            r.output_in_dir.is_none(),
    {
        Options {
            check_only: false,
            test_timeout: None,
            print_caught: false,
            print_unviable: false,
            show_times: false,
            show_all_logs: false,
            shuffle: false,
            additional_cargo_args: Vec::new(),
            additional_cargo_test_args: Vec::new(),
            copy_target: false,
            build_source: false,
            examine_globset: None,
            exclude_globset: None,
            output_in_dir: None,
        }
    }
}

/// The patterns added so far to a glob-set builder, in order.
pub uninterp spec fn builder_patterns(b: globset::GlobSetBuilder) -> Seq<Seq<char>>;

/// The number of globs in a glob set.
pub uninterp spec fn set_len(s: globset::GlobSet) -> nat;

/// Whether `pattern` is a valid glob with default options, but for whether
/// a backslash escapes the next character.
pub uninterp spec fn glob_parses(pattern: Seq<char>, backslash_escape: bool) -> bool;

/// Relies on `globset::GlobSetBuilder::new`: a builder with no patterns.
#[verifier::external_body]
fn new_builder() -> (r: globset::GlobSetBuilder)
    ensures
        builder_patterns(r) == Seq::<Seq<char>>::empty(),
{
    globset::GlobSetBuilder::new()
}

/// Relies on `globset::GlobBuilder::new`, `GlobBuilder::backslash_escape`
/// and `GlobBuilder::build` to parse the pattern, and on
/// `globset::GlobSetBuilder::add` to append the parsed glob to the builder.
#[verifier::external_body]
fn add_glob(builder: &mut globset::GlobSetBuilder, pattern: &str, backslash_escape: bool) -> (r:
    Result<(), globset::Error>)
    ensures
        r is Ok <==> glob_parses(pattern@, backslash_escape),
        r is Ok ==> builder_patterns(*final(builder)) == builder_patterns(*old(builder)).push(
            pattern@,
        ),
{
    let glob = globset::GlobBuilder::new(pattern).backslash_escape(backslash_escape).build()?;
    builder.add(glob);
    Ok(())
}

/// Relies on `globset::GlobSetBuilder::build`: a set of as many globs as
/// were added, or an error when they cannot be compiled together.
#[verifier::external_body]
fn build_set(builder: &globset::GlobSetBuilder) -> (r: Result<globset::GlobSet, globset::Error>)
    ensures
        r is Ok ==> set_len(r->Ok_0) == builder_patterns(*builder).len(),
{
    builder.build()
}

/// Relies on `std::path::MAIN_SEPARATOR`: the platform's primary path
/// separator, `/` or `\`.
#[verifier::external_body]
fn main_separator() -> (r: char)
    ensures
        r == '/' || r == '\\',
{
    std::path::MAIN_SEPARATOR
}

/// The glob for a user-supplied pattern: a pattern that names a directory
/// separator is taken as it is; any other matches the name in any directory.
pub open spec fn glob_for(s: Seq<char>, sep: char) -> Seq<char> {
    if s.contains('/') || s.contains(sep) {
        s
    } else {
        "**/"@ + s
    }
}

/// The globs for a list of user-supplied patterns.
pub open spec fn globs_for(globs: Seq<Seq<char>>, sep: char) -> Seq<Seq<char>> {
    globs.map_values(|s: Seq<char>| glob_for(s, sep))
}

/// Whether a backslash escapes the next character in globs for a platform
/// whose path separator is `sep`: exactly when it is not the separator.
pub open spec fn escapes_with(sep: char) -> bool {
    sep != '\\'
}

/// Whether `r` is the outcome of building a glob set from `globs` with path
/// separator `sep`: no set for no patterns; an error when a glob does not
/// parse; else, unless the globs cannot be compiled together, a set of one
/// glob for each pattern.
pub open spec fn glob_set_outcome(
    globs: Seq<Seq<char>>,
    sep: char,
    r: Result<Option<globset::GlobSet>, globset::Error>,
) -> bool {
    if globs.len() == 0 {
        r matches Ok(None)
    } else if exists|i: int| 0 <= i < globs.len() && !glob_parses(
        #[trigger] glob_for(globs[i], sep),
        escapes_with(sep),
    ) {
        r is Err
    } else {
        match r {
            Ok(Some(set)) => set_len(set) == globs.len(),
            Ok(None) => false,
            Err(_) => true,
        }
    }
}

/// Whether `c` occurs in `s`.
fn has_char(s: &str, c: char) -> (r: bool)
    ensures
        r == s@.contains(c),
{
    let n = s.unicode_len();
    let mut i: usize = 0;
    while i < n
        invariant
            n == s@.len(),
            i <= n,
            forall|j: int| 0 <= j < i ==> s@[j] != c,
        decreases n - i,
    {
        if s.get_char(i) == c {
            return true;
        }
        i += 1;
    }
    false
}

/// The glob for one user-supplied pattern, given the path separator.
fn glob_string(s: &String, sep: char) -> (r: String)
    ensures
        r@ == glob_for(s@, sep),
{
    if has_char(s.as_str(), '/') || has_char(s.as_str(), sep) {
        s.clone()
    } else {
        let mut g = "**/".to_string();
        g.append(s.as_str());
        proof {
            reveal_strlit("**/");
        }
        g
    }
}

/// Build a glob set from user-supplied patterns, with `sep` as the path
/// separator; `None` when there are no patterns.
pub fn build_glob_set_with(glob_set: &Vec<String>, sep: char) -> (r: Result<Option<globset::GlobSet>, globset::Error>)
    ensures
        glob_set_outcome(strings(glob_set@), sep, r),
{
    let ghost globs = strings(glob_set@);
    if glob_set.len() == 0 {
        return Ok(None);
    }
    let mut builder = new_builder();
    let mut i: usize = 0;
    while i < glob_set.len()
        invariant
            i <= glob_set@.len(),
            globs == strings(glob_set@),
            builder_patterns(builder) == globs_for(globs.subrange(0, i as int), sep),
            forall|j: int| 0 <= j < i ==> glob_parses(#[trigger] glob_for(globs[j], sep), escapes_with(sep)),
        decreases glob_set@.len() - i,
    {
        let g = glob_string(&glob_set[i], sep);
        let added = add_glob(&mut builder, g.as_str(), sep != '\\');
        match added {
            Err(e) => {
                proof {
                    assert(!glob_parses(glob_for(globs[i as int], sep), escapes_with(sep)));
                }
                return Err(e);
            },
            Ok(()) => {},
        }
        proof {
            assert(globs.subrange(0, i + 1) =~= globs.subrange(0, i as int).push(globs[i as int]));
            assert(globs_for(globs.subrange(0, i + 1), sep) =~= globs_for(
                globs.subrange(0, i as int),
                sep,
            ).push(glob_for(globs[i as int], sep)));
        }
        i += 1;
    }
    proof {
        assert(globs.subrange(0, globs.len() as int) =~= globs);
    }
    match build_set(&builder) {
        Ok(set) => Ok(Some(set)),
        Err(e) => Err(e),
    }
}

/// Build a glob set from user-supplied patterns with the platform's path
/// separator; `None` when there are no patterns.
pub fn build_glob_set(glob_set: &Vec<String>) -> (r: Result<Option<globset::GlobSet>, globset::Error>)
    ensures
        glob_set_outcome(strings(glob_set@), '/', r) || glob_set_outcome(strings(glob_set@), '\\', r),
{
    let sep = main_separator();
    build_glob_set_with(glob_set, sep)
}

} // verus!
