//! Locating the project that encloses a directory, from the output of the
//! build tool's project-locating subcommand.

use vstd::prelude::*;

use crate::cargo::strings;
use crate::supervisor::ExitStatus;

verus! {

#[verifier::external_type_specification]
#[verifier::external_body]
pub struct ExJsonError(serde_json::Error);

/// What parsing `text` as one JSON value and looking up `key` gives: `None`
/// when the text is not a JSON value, `Some(None)` when the value has no
/// string under that key, and `Some(Some(s))` when it holds the string `s`.
pub uninterp spec fn json_string_field(text: Seq<char>, key: Seq<char>) -> Option<Option<Seq<char>>>;

/// The view of an optional string.
pub open spec fn opt_view(o: Option<String>) -> Option<Seq<char>> {
    match o {
        Some(s) => Some(s@),
        None => None,
    }
}

/// Relies on `serde_json::from_str::<serde_json::Value>` to parse the text,
/// and on `Value::get` and `Value::as_str` to read the string under `key`.
#[verifier::external_body]
fn lookup_json_string(text: &str, key: &str) -> (r: Result<Option<String>, serde_json::Error>)
    ensures
        match r {
            Ok(v) => json_string_field(text@, key@) == Some(opt_view(v)),
            Err(_) => json_string_field(text@, key@) is None,
        },
{
    let value: serde_json::Value = serde_json::from_str(text)?;
    let field = value.get(key).and_then(serde_json::Value::as_str);
    Ok(field.map(str::to_owned))
}

/// Why the enclosing project could not be located.
#[derive(Debug)]
pub enum LocateError {
    /// The subcommand failed or printed nothing; this is what it wrote to
    /// standard error.
    Failed(String),
    /// Its output is not a JSON value.
    Malformed(serde_json::Error),
    /// Its output, given here, has no string field naming the root.
    NoRoot(String),
}

/// The arguments of the project-locating invocation, after the binary.
pub open spec fn locate_args() -> Seq<Seq<char>> {
    seq!["locate-project"@]
}

/// The full command line that locates the project: the binary and the
/// project-locating subcommand.
pub fn locate_argv(bin: String) -> (r: Vec<String>)
    ensures
        strings(r@) == seq![bin@] + locate_args(),
{
    let mut argv: Vec<String> = Vec::new();
    argv.push(bin);
    argv.push("locate-project".to_string());
    proof {
        reveal_strlit("locate-project");
        assert(strings(argv@) =~= seq![bin@] + locate_args());
    }
    argv
}

/// The name of the field that holds the project root.
pub open spec fn root_key() -> Seq<char> {
    "root"@
}

/// Whether `r` is the root found in output `stdout`, given what parsing it
/// and looking up the root field gave.
pub open spec fn root_outcome(
    lookup: Option<Option<Seq<char>>>,
    stdout: Seq<char>,
    r: Result<String, LocateError>,
) -> bool {
    match lookup {
        None => r matches Err(LocateError::Malformed(_)),
        Some(None) => match r {
            Err(LocateError::NoRoot(out)) => out@ == stdout,
            _ => false,
        },
        Some(Some(root)) => match r {
            Ok(p) => p@ == root,
            _ => false,
        },
    }
}

/// Turn the result of parsing the locator's output and looking up its root
/// field into the root path, or the reason why there is none.
pub fn root_from_lookup(parsed: Result<Option<String>, serde_json::Error>, stdout: &str) -> (r: Result<
    String,
    LocateError,
>)
    ensures
        root_outcome(
            match parsed {
                Ok(v) => Some(opt_view(v)),
                Err(_) => None,
            },
            stdout@,
            r,
        ),
{
    match parsed {
        Err(e) => Err(LocateError::Malformed(e)),
        Ok(None) => Err(LocateError::NoRoot(stdout.to_string())),
        Ok(Some(root)) => Ok(root),
    }
}

/// Interpret the exit status and output of the project-locating
/// subcommand: it fails, with standard error as the detail, when the
/// subcommand failed or printed nothing; otherwise the output is parsed as
/// JSON and its string field `root` is the path of the project's manifest.
pub fn locate_from_output(status: ExitStatus, stdout: &str, stderr: &str) -> (r: Result<
    String,
    LocateError,
>)
    ensures
        (status != ExitStatus::Exited(0) || stdout@.len() == 0) ==> match r {
            Err(LocateError::Failed(m)) => m@ == stderr@,
            _ => false,
        },
        (status == ExitStatus::Exited(0) && stdout@.len() > 0) ==> root_outcome(
            json_string_field(stdout@, root_key()),
            stdout@,
            r,
        ),
{
    if !status.success() || stdout.is_empty() {
        return Err(LocateError::Failed(stderr.to_string()));
    }
    proof {
        reveal_strlit("root");
    }
    let parsed = lookup_json_string(stdout, "root");
    root_from_lookup(parsed, stdout)
}

} // verus!
