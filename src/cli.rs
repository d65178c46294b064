//! The command-line model: what the user asked for, and the decisions taken
//! from it (where output goes, how much is logged).
use crate::mode::CryptoMode;
use vstd::prelude::*;
use vstd::string::{StrSliceExecFns, StringExecFns};

verus! {

/// The kinds of file that can be processed.
#[derive(Debug, Clone, Copy, PartialEq, Eq, Structural)]
pub enum Categories {
    /// `Progress.dat`: the ciphertext carries a SHA-1 header.
    Progress,
    /// `.contraption`: the bare ciphertext.
    Contraption,
}

/// The parsed command line.
#[derive(Debug, PartialEq, Eq)]
pub struct Cli {
    /// What to do.
    pub command: Commands,
    /// Log at debug level.
    pub verbose: bool,
    /// Log errors only.
    pub quiet: bool,
}

/// The subcommands.
#[derive(Debug, PartialEq, Eq)]
pub enum Commands {
    /// Encrypt a file.
    Encrypt(CryptoArgs),
    /// Decrypt a file.
    Decrypt(CryptoArgs),
    /// Write a sample `Progress.dat.xml` file.
    InitSample(InitSampleArgs),
}

/// The arguments of an encryption or a decryption.
#[derive(Debug, PartialEq, Eq)]
pub struct CryptoArgs {
    /// The category of the file.
    pub category: Categories,
    /// The path of the input file.
    pub input: String,
    /// The path of the output file, if one was given.
    pub output: Option<String>,
}

/// The arguments of the sample generator.
#[derive(Debug, PartialEq, Eq)]
pub struct InitSampleArgs {
    /// The path of the file to write.
    pub output: String,
}

/// The arguments of the template generator.
#[derive(Debug, PartialEq, Eq)]
pub struct GenerateArgs {
    /// The path of the file to write.
    pub output: String,
}

/// The log levels the command line can ask for.
#[derive(Debug, Clone, Copy, PartialEq, Eq, Structural)]
pub enum LogLevel {
    Debug,
    Info,
    Error,
}

/// The index of the last `c` in `s`, or -1 where there is none.
pub open spec fn last_index_of(s: Seq<char>, c: char) -> int
    decreases s.len(),
{
    if s.len() == 0 {
        -1
    } else if s.last() == c {
        s.len() - 1
    } else {
        last_index_of(s.drop_last(), c)
    }
}

/// What is inserted into the file name of the output.
pub open spec fn mode_suffix(mode: CryptoMode) -> Seq<char> {
    match mode {
        CryptoMode::Encrypt => "_encrypted"@,
        CryptoMode::Decrypt => "_decrypted"@,
    }
}

/// A file name that names no file of its own: empty, `.` or `..`.
pub open spec fn is_placeholder_name(name: Seq<char>) -> bool {
    name.len() == 0 || name == seq!['.'] || name == seq!['.', '.']
}

/// The path without its trailing separators and trailing `.` components,
/// which name no file of their own: `d/` and `d/.` both become `d`. A lone
/// `/` or `.` stays.
pub open spec fn trim_trailing(path: Seq<char>) -> Seq<char>
    decreases path.len(),
{
    if path.len() >= 2 && (path.last() == '/' || (path.last() == '.' && path[path.len() - 2]
        == '/')) {
        trim_trailing(path.drop_last())
    } else {
        path
    }
}

/// `name` inside the directory `dir`: a separator goes between them unless
/// `dir` is empty or already ends with one.
pub open spec fn joined(dir: Seq<char>, name: Seq<char>) -> Seq<char> {
    if dir.len() == 0 || dir.last() == '/' {
        dir + name
    } else {
        dir + "/"@ + name
    }
}

/// The output path derived from an input path, in the manner of
/// `std::path`. The file name is the last component once trailing
/// separators and `.` components are dropped. The suffix goes before its
/// extension, which starts at its last `.` unless that `.` begins the name;
/// without an extension the suffix is appended. The new name replaces the
/// old one in its directory. Where the input names no file (it is empty,
/// the root, `.`, or ends in `..`), a file called `output` plus the suffix
/// is placed inside the input path.
pub open spec fn default_output_file(input: Seq<char>, mode: CryptoMode) -> Seq<char> {
    let path = trim_trailing(input);
    let start = last_index_of(path, '/') + 1;
    let name = path.subrange(start, path.len() as int);
    let dot = last_index_of(name, '.');
    let parent = trim_trailing(path.subrange(0, start));
    if is_placeholder_name(name) {
        joined(input, "output"@ + mode_suffix(mode))
    } else if dot > 0 {
        joined(
            parent,
            name.subrange(0, dot) + mode_suffix(mode) + name.subrange(dot, name.len() as int),
        )
    } else {
        joined(parent, name + mode_suffix(mode))
    }
}

/// The level that the command line sets, if any; `None` leaves it to the
/// logging environment variable.
pub open spec fn log_level_spec(verbose: bool, quiet: bool, env_filter_set: bool) -> Option<
    LogLevel,
> {
    if verbose {
        Some(LogLevel::Debug)
    } else if quiet {
        Some(LogLevel::Error)
    } else if !env_filter_set {
        Some(LogLevel::Info)
    } else {
        None
    }
}

/// The index of the last `c` in `s`.
fn rfind_char(s: &str, c: char) -> (r: Option<usize>)
    ensures
        r is None ==> last_index_of(s@, c) == -1,
        r matches Some(i) ==> i as int == last_index_of(s@, c) && i < s@.len(),
{
    let n = s.unicode_len();
    let mut i: usize = n;
    assert(s@.subrange(0, n as int) == s@);
    while i > 0
        invariant
            i <= n,
            n == s@.len(),
            last_index_of(s@, c) == last_index_of(s@.subrange(0, i as int), c),
        decreases i,
    {
        assert(s@.subrange(0, i as int).drop_last() == s@.subrange(0, i - 1));
        if s.get_char(i - 1) == c {
            return Some(i - 1);
        }
        i = i - 1;
    }
    None
}

impl Cli {
    /// The log level to set: debug when verbose, errors only when quiet,
    /// otherwise info unless the logging environment variable is set
    /// (`env_filter_set`), in which case it decides.
    pub fn log_level(&self, env_filter_set: bool) -> (r: Option<LogLevel>)
        ensures
            r == log_level_spec(self.verbose, self.quiet, env_filter_set),
    {
        if self.verbose {
            Some(LogLevel::Debug)
        } else if self.quiet {
            Some(LogLevel::Error)
        } else if !env_filter_set {
            Some(LogLevel::Info)
        } else {
            None
        }
    }
}

/// The length of the prefix of `s` that `trim_trailing` keeps.
fn trimmed_len(s: &str) -> (r: usize)
    ensures
        r <= s@.len(),
        s@.subrange(0, r as int) == trim_trailing(s@),
{
    let n = s.unicode_len();
    let mut e: usize = n;
    assert(s@.subrange(0, n as int) == s@);
    loop
        invariant
            e <= n,
            n == s@.len(),
            trim_trailing(s@) == trim_trailing(s@.subrange(0, e as int)),
        decreases e,
    {
        if e >= 2 {
            let last = s.get_char(e - 1);
            if last == '/' || (last == '.' && s.get_char(e - 2) == '/') {
                assert(s@.subrange(0, e as int).drop_last() == s@.subrange(0, e - 1));
                e = e - 1;
                continue;
            }
        }
        return e;
    }
}

/// `name` inside the directory `dir`.
fn join(dir: &str, name: String) -> (r: String)
    ensures
        r@ == joined(dir@, name@),
{
    let n = dir.unicode_len();
    if n == 0 || dir.get_char(n - 1) == '/' {
        String::from_str(dir).concat(name.as_str())
    } else {
        String::from_str(dir).concat("/").concat(name.as_str())
    }
}

impl CryptoArgs {
    /// The output path: the one given, or else one derived from the input
    /// path, such as `Progress_decrypted.dat` for `Progress.dat`.
    pub fn get_output_file(&self, mode: CryptoMode) -> (r: String)
        ensures
            self.output matches Some(path) ==> r@ == path@,
            self.output is None ==> r@ == default_output_file(self.input@, mode),
    {
        if let Some(path) = &self.output {
            return path.clone();
        }
        let suffix: &str = match mode {
            CryptoMode::Encrypt => "_encrypted",
            CryptoMode::Decrypt => "_decrypted",
        };
        let input = self.input.as_str();
        let path = input.substring_char(0, trimmed_len(input));
        let n = path.unicode_len();
        let start: usize = match rfind_char(path, '/') {
            Some(i) => i + 1,
            None => 0,
        };
        let name = path.substring_char(start, n);
        let name_len = name.unicode_len();
        let placeholder = name_len == 0 || (name_len == 1 && name.get_char(0) == '.') || (
        name_len == 2 && name.get_char(0) == '.' && name.get_char(1) == '.');
        proof {
            if name_len == 1 && name@[0] == '.' {
                assert(name@ == seq!['.']);
            }
            if name_len == 2 && name@[0] == '.' && name@[1] == '.' {
                assert(name@ == seq!['.', '.']);
            }
        }
        if placeholder {
            return join(input, String::from_str("output").concat(suffix));
        }
        let dir = path.substring_char(0, start);
        let parent = dir.substring_char(0, trimmed_len(dir));
        let new_name = match rfind_char(name, '.') {
            Some(dot) => {
                if dot > 0 {
                    String::from_str(name.substring_char(0, dot)).concat(suffix).concat(
                        name.substring_char(dot, name_len),
                    )
                } else {
                    String::from_str(name).concat(suffix)
                }
            },
            None => String::from_str(name).concat(suffix),
        };
        join(parent, new_name)
    }
}

} // verus!
