//! Typed inputs and outputs of an automation step whose parameters arrive as
//! environment variables and whose results leave as `::set-output` lines.
//!
//! Reading the environment and printing are left to the caller: the functions
//! here take the value that was read and hand back the line to print.
use vstd::prelude::*;

pub mod decimal;
pub mod io;
mod sealed;
pub mod text;

use crate::io::{FromInputEnv, IoError, ToOutput, VarError};
use crate::text::{dashes_to_underscores, replace_dashes, uppercase, uppered};

verus! {

/// Failure of a step's environment handling.
#[derive(Debug, PartialEq, Eq)]
pub enum Error {
    /// Reading a typed input failed.
    IoError(IoError),
    /// A variable that the step needs could not be read.
    EnvVarError(VarError),
}

impl Error {
    /// The human-readable description of the error.
    pub fn to_string(&self) -> (r: String)
        ensures
            r@ == match self {
                Error::IoError(e) => "io error: "@ + io_error_text(*e),
                Error::EnvVarError(VarError::NotPresent) => "env var error: environment variable not found"@,
                Error::EnvVarError(VarError::NotUnicode) => "env var error: environment variable was not valid unicode"@,
            },
    {
        match self {
            Error::IoError(e) => {
                let mut r = String::from_str("io error: ");
                r.append(e.to_string().as_str());
                r
            },
            Error::EnvVarError(VarError::NotPresent) => String::from_str(
                "env var error: environment variable not found",
            ),
            Error::EnvVarError(VarError::NotUnicode) => String::from_str(
                "env var error: environment variable was not valid unicode",
            ),
        }
    }
}

/// The description of an input error, as `IoError::to_string` writes it.
pub open spec fn io_error_text(e: IoError) -> Seq<char> {
    match e {
        IoError::MissingRequired(name) => "required input '"@ + name@ + "' is missing"@,
        IoError::ParseError(msg) => "parse error: "@ + msg@,
    }
}

/// The fixed start of every input's environment variable name.
pub open spec fn key_prefix() -> Seq<char> {
    "PREFIX_"@
}

/// The environment variable that holds the input `name`: the prefix, then
/// the name uppercased with each `-` replaced by `_`.
pub open spec fn env_key_spec(name: Seq<char>) -> Seq<char> {
    key_prefix() + dashes_to_underscores(uppered(name))
}

/// The environment variable that holds the input `name`.
pub fn env_key(name: &str) -> (r: String)
    ensures
        r@ == env_key_spec(name@),
{
    env_key_from_upper(uppercase(name).as_str())
}

/// The environment variable for an input, given `upper`, its name uppercased.
pub fn env_key_from_upper(upper: &str) -> (r: String)
    ensures
        r@ == key_prefix() + dashes_to_underscores(upper@),
{
    let mut r = String::from_str("PREFIX_");
    r.append(replace_dashes(upper).as_str());
    r
}

/// Reads the input `name` as `T` from `raw`, the value of its environment
/// variable `env_key(name)`. With `T` a scalar type the input is required;
/// with `Option<T>` it is optional.
pub fn input<T: FromInputEnv>(name: &str, raw: &Result<String, VarError>) -> (r: Result<T, Error>)
    ensures
        match r {
            Ok(v) => T::env_spec(name@, *raw, Ok(v)),
            Err(Error::IoError(e)) => T::env_spec(name@, *raw, Err(e)),
            Err(Error::EnvVarError(_)) => false,
        },
{
    match T::from_input_env(name, raw) {
        Ok(v) => Ok(v),
        Err(e) => Err(Error::IoError(e)),
    }
}

/// The line that reports `text` as the output `name`.
pub open spec fn output_line_spec(name: Seq<char>, text: Seq<char>) -> Seq<char> {
    "::set-output name="@ + name + "::"@ + text
}

/// The line, without its line break, that reports `value` as the output `name`.
pub fn output_line<T: ToOutput>(name: &str, value: &T) -> (r: String)
    ensures
        r@ == output_line_spec(name@, T::output_spec(value.deep_view())),
{
    let mut r = String::from_str("::set-output name=");
    r.append(name);
    r.append("::");
    r.append(value.to_output().as_str());
    r
}

/// A repository, as `owner/name`.
#[derive(Debug, Clone, PartialEq, Eq)]
pub struct Repository {
    pub owner: String,
    pub name: String,
}

/// The index of the first `c` in `s`, or `s.len()` where there is none.
pub open spec fn first_index_of(s: Seq<char>, c: char) -> int
    decreases s.len(),
{
    if s.len() == 0 {
        0
    } else if s[0] == c {
        0
    } else {
        1 + first_index_of(s.skip(1), c)
    }
}

/// The owner and name of a slug: the text before its first `/`, and the
/// text between that `/` and the next one or the end.
pub open spec fn slug_parts(s: Seq<char>) -> (Seq<char>, Seq<char>) {
    let i = first_index_of(s, '/');
    let rest = s.skip(i + 1);
    (s.take(i), rest.take(first_index_of(rest, '/')))
}

proof fn lemma_first_index_of(s: Seq<char>, c: char)
    ensures
        0 <= first_index_of(s, c) <= s.len(),
        first_index_of(s, c) < s.len() ==> s[first_index_of(s, c)] == c,
        forall|k: int| 0 <= k < first_index_of(s, c) ==> s[k] != c,
    decreases s.len(),
{
    if s.len() > 0 && s[0] != c {
        lemma_first_index_of(s.skip(1), c);
        assert forall|k: int| 0 <= k < first_index_of(s, c) implies s[k] != c by {
            if k > 0 {
                assert(s[k] == s.skip(1)[k - 1]);
            }
        }
    }
}

/// The index of the first `c` in `s` at or after `from`, or `s.len()`.
fn find_char(s: &str, c: char, from: usize) -> (r: usize)
    requires
        from <= s@.len(),
    ensures
        r == from + first_index_of(s@.skip(from as int), c),
{
    let n = s.unicode_len();
    let mut i: usize = from;
    while i < n
        invariant
            n == s@.len(),
            from <= i <= n,
            first_index_of(s@.skip(from as int), c) == (i - from) + first_index_of(
                s@.skip(i as int),
                c,
            ),
        decreases n - i,
    {
        if s.get_char(i) == c {
            return i;
        }
        assert(s@.skip(i as int).skip(1) =~= s@.skip(i + 1));
        i = i + 1;
    }
    i
}

/// Splits the slug `raw` into owner and name, or reports why the variable
/// that holds it could not be read. A slug must hold a `/`.
pub fn repository(raw: &Result<String, VarError>) -> (r: Result<Repository, Error>)
    requires
        raw matches Ok(s) ==> s@.contains('/'),
    ensures
        match raw {
            Ok(s) => r matches Ok(repo) && repo.owner@ == slug_parts(s@).0 && repo.name@
                == slug_parts(s@).1,
            Err(e) => r matches Err(Error::EnvVarError(x)) && x == *e,
        },
{
    match raw {
        Err(e) => Err(Error::EnvVarError(*e)),
        Ok(full) => {
            let s = full.as_str();
            let n = s.unicode_len();
            let i = find_char(s, '/', 0);
            proof {
                assert(s@.skip(0) =~= s@);
                lemma_first_index_of(s@, '/');
                if i == n {
                    let k = choose|k: int| 0 <= k < s@.len() && s@[k] == '/';
                    assert(s@[k] != '/');
                }
            }
            let j = find_char(s, '/', i + 1);
            proof {
                lemma_first_index_of(s@.skip(i + 1), '/');
            }
            let owner = String::from_str(s.substring_char(0, i));
            let name = String::from_str(s.substring_char(i + 1, j));
            assert(name@ =~= s@.skip(i + 1).take(j - (i + 1)));
            Ok(Repository { owner, name })
        },
    }
}

} // verus!
