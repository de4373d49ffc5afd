use vstd::prelude::*;
use vstd::string::StrSliceExecFns;

verus! {

/// Command-line options.
#[derive(Debug, Clone, PartialEq)]
pub struct Cli {
    /// How verbose logging is (the number of `-v` given).
    pub verbose: u8,
    /// File the report is written to, if any.
    pub report: Option<String>,
    pub command: Commands,
}

/// What to do with a scenario file or a directory of scenario files.
#[derive(Debug, Clone, PartialEq)]
pub enum Commands {
    /// Run the scenarios.
    Run { scenario_path: String },
    /// Check the scenarios without starting anything.
    Validate { scenario_path: String },
}

/// Log level name chosen for a verbosity count given on the command line.
pub open spec fn level_name(verbosity: u8) -> Seq<char> {
    if verbosity == 0 {
        "warn"@
    } else if verbosity == 1 {
        "info"@
    } else if verbosity == 2 {
        "debug"@
    } else {
        "trace"@
    }
}

/// `warn` without `-v`, then `info`, `debug`, and `trace` from three on.
pub fn log_level(verbosity: u8) -> (level: &'static str)
    ensures
        level@ == level_name(verbosity),
{
    if verbosity == 0 {
        "warn"
    } else if verbosity == 1 {
        "info"
    } else if verbosity == 2 {
        "debug"
    } else {
        "trace"
    }
}

/// A file name whose extension is `toml`: a non-empty stem followed by `.toml`
/// (a name such as `.toml` has no extension).
pub open spec fn is_toml_name(name: Seq<char>) -> bool {
    &&& name.len() > 5
    &&& name.subrange(name.len() - 5, name.len() as int) == ".toml"@
}

/// Whether a file name has the extension `toml` (see [`is_toml_name`]).
pub fn is_toml_file_name(name: &str) -> (b: bool)
    ensures
        b == is_toml_name(name@),
{
    proof {
        reveal_strlit(".toml");
    }
    let n = name.unicode_len();
    if n <= 5 {
        return false;
    }
    let b = name.get_char(n - 5) == '.' && name.get_char(n - 4) == 't' && name.get_char(n - 3) == 'o'
        && name.get_char(n - 2) == 'm' && name.get_char(n - 1) == 'l';
    proof {
        let tail = name@.subrange(n - 5, n as int);
        if b {
            assert(tail =~= ".toml"@);
        } else {
            assert(tail != ".toml"@) by {
                if tail == ".toml"@ {
                    assert(tail[0] == name@[n - 5]);
                    assert(tail[1] == name@[n - 4]);
                    assert(tail[2] == name@[n - 3]);
                    assert(tail[3] == name@[n - 2]);
                    assert(tail[4] == name@[n - 1]);
                }
            }
        }
    }
    b
}

/// The positions, in order, of the names among `names` that have the extension `toml`.
pub fn toml_positions(names: &Vec<String>) -> (pos: Vec<usize>)
    ensures
        forall|i: int, j: int| 0 <= i < j < pos@.len() ==> pos@[i] < pos@[j],
        forall|i: int| 0 <= i < pos@.len() ==> #[trigger] pos@[i] < names@.len() && is_toml_name(names@[pos@[i] as int]@),
        forall|k: int| 0 <= k < names@.len() && is_toml_name(#[trigger] names@[k]@) ==> pos@.contains(k as usize),
{
    let mut pos: Vec<usize> = Vec::new();
    let mut k: usize = 0;
    while k < names.len()
        invariant
            k <= names@.len(),
            forall|i: int, j: int| 0 <= i < j < pos@.len() ==> pos@[i] < pos@[j],
            forall|i: int| 0 <= i < pos@.len() ==> #[trigger] pos@[i] < k && is_toml_name(names@[pos@[i] as int]@),
            forall|m: int| 0 <= m < k && is_toml_name(#[trigger] names@[m]@) ==> pos@.contains(m as usize),
        decreases names@.len() - k,
    {
        if is_toml_file_name(names[k].as_str()) {
            let ghost before = pos@;
            pos.push(k);
            proof {
                assert forall|m: int| 0 <= m < k + 1 && is_toml_name(#[trigger] names@[m]@) implies pos@.contains(m as usize) by {
                    if m < k {
                        let t = choose|t: int| 0 <= t < before.len() && before[t] == m as usize;
                        assert(pos@[t] == m as usize);
                    } else {
                        assert(pos@[pos@.len() - 1] == k);
                    }
                }
            }
        }
        k = k + 1;
    }
    pos
}

} // verus!
