//! Building a `wesl metadata` invocation and reading its output.
//!
//! [`MetadataCommand`] is pure configuration: building the invocation is a
//! data transformation and never touches the filesystem or the network.
//! Running the external process is the caller's job; what comes back —
//! exit status, captured standard output and standard error — goes through
//! [`MetadataCommand::process_output`], which classifies every failure and
//! isolates the single JSON payload line from interleaved diagnostics.
use vstd::prelude::*;
use vstd::string::StrSliceExecFns;
use vstd::string::StringExecFns;

use crate::errors::Error;
use crate::json::parse_json;
use crate::json::parsed_json;
use crate::Metadata;

verus! {

/// A builder for configuring a `wesl metadata` invocation.
#[derive(Debug)]
pub struct MetadataCommand {
    /// Path to the `wesl` executable.  If not set, the caller's `WESL`
    /// environment variable is used, and failing that, plain `wesl`.
    wesl_path: Option<String>,
    /// Path to `wesl.toml`.
    manifest_path: Option<String>,
    /// Current directory of the `wesl metadata` process.
    current_dir: Option<String>,
    /// Output information only about the root package and don't fetch
    /// dependencies.
    no_dependencies: bool,
    /// Arbitrary command line flags to pass to `wesl`.  These are added to
    /// the end of the command line invocation.
    other_options: Vec<String>,
    /// Arbitrary environment variables to set (`Some`) or remove (`None`)
    /// when running `wesl`, applied in order over the inherited
    /// environment; a later entry for the same name overrides an earlier
    /// one.
    env: Vec<(String, Option<String>)>,
    /// Show stderr instead of capturing it.
    verbose: bool,
}

/// The mathematical value of a [`MetadataCommand`].
pub struct MetadataCommandView {
    /// The explicit executable path, if set.
    pub wesl_path: Option<Seq<char>>,
    /// The manifest path, if set.
    pub manifest_path: Option<Seq<char>>,
    /// The working directory, if set.
    pub current_dir: Option<Seq<char>>,
    /// Whether dependency resolution is skipped.
    pub no_dependencies: bool,
    /// The trailing extra arguments.
    pub other_options: Seq<Seq<char>>,
    /// The environment overlay entries, in order.
    pub env: Seq<(Seq<char>, Option<Seq<char>>)>,
    /// Whether stderr is passed through instead of captured.
    pub verbose: bool,
}

impl View for MetadataCommand {
    type V = MetadataCommandView;

    closed spec fn view(&self) -> MetadataCommandView {
        MetadataCommandView {
            wesl_path: self.wesl_path.deep_view(),
            manifest_path: self.manifest_path.deep_view(),
            current_dir: self.current_dir.deep_view(),
            no_dependencies: self.no_dependencies,
            other_options: self.other_options.deep_view(),
            env: self.env.deep_view(),
            verbose: self.verbose,
        }
    }
}

/// One fully assembled invocation: the program, its arguments in order,
/// the working directory and the environment overlay.  Running it is the
/// caller's job.
#[derive(Debug)]
pub struct Invocation {
    /// The program to run.
    pub program: String,
    /// The arguments, in order.
    pub args: Vec<String>,
    /// The working directory, if one is to be set.
    pub current_dir: Option<String>,
    /// The environment overlay: set (`Some`) or remove (`None`), applied
    /// in order; a later entry for the same name overrides an earlier one.
    pub env: Vec<(String, Option<String>)>,
}

/// The mathematical value of an [`Invocation`].
pub struct InvocationView {
    /// The program.
    pub program: Seq<char>,
    /// The arguments.
    pub args: Seq<Seq<char>>,
    /// The working directory, if any.
    pub current_dir: Option<Seq<char>>,
    /// The environment overlay entries.
    pub env: Seq<(Seq<char>, Option<Seq<char>>)>,
}

impl View for Invocation {
    type V = InvocationView;

    open spec fn view(&self) -> InvocationView {
        InvocationView {
            program: self.program@,
            args: self.args.deep_view(),
            current_dir: self.current_dir.deep_view(),
            env: self.env.deep_view(),
        }
    }
}

/// The program a configuration names: the explicit path where set, else
/// the caller's `WESL` environment variable, else plain `wesl`.
pub open spec fn spec_program(c: MetadataCommandView, wesl_env: Option<Seq<char>>) -> Seq<char> {
    match c.wesl_path {
        Some(p) => p,
        None => match wesl_env {
            Some(e) => e,
            None => "wesl"@,
        },
    }
}

/// The argument list a configuration produces: the `metadata` subcommand,
/// then the fixed-position flags, with the caller's extra options last so
/// they can override what precedes them.
pub open spec fn spec_args(c: MetadataCommandView) -> Seq<Seq<char>> {
    seq!["metadata"@] + (if c.no_dependencies {
        seq!["--no-dependencies"@]
    } else {
        Seq::empty()
    }) + (match c.manifest_path {
        Some(p) => seq!["--manifest-path"@, p],
        None => Seq::empty(),
    }) + c.other_options
}

impl Default for MetadataCommand {
    /// The empty configuration.
    fn default() -> (r: Self)
        ensures
            r@ == spec_default_command(),
    {
        let r = MetadataCommand {
            wesl_path: None,
            manifest_path: None,
            current_dir: None,
            no_dependencies: false,
            other_options: Vec::new(),
            env: Vec::new(),
            verbose: false,
        };
        proof {
            assert(r@.other_options =~= Seq::<Seq<char>>::empty());
            assert(r@.env =~= Seq::<(Seq<char>, Option<Seq<char>>)>::empty());
        }
        r
    }
}

/// The value of a freshly built command: nothing set.
pub open spec fn spec_default_command() -> MetadataCommandView {
    MetadataCommandView {
        wesl_path: None,
        manifest_path: None,
        current_dir: None,
        no_dependencies: false,
        other_options: Seq::empty(),
        env: Seq::empty(),
        verbose: false,
    }
}

impl MetadataCommand {
    /// Creates a default `wesl metadata` command, which will look for
    /// `wesl.toml` in the ancestors of the current directory.
    pub fn new() -> (r: Self)
        ensures
            r@ == spec_default_command(),
    {
        Self::default()
    }

    /// Path to the `wesl` executable.  If not set, the `WESL` environment
    /// variable is used, and if that is not set, plain `wesl`.
    pub fn wesl_path(&mut self, path: &str)
        ensures
            final(self)@ == (MetadataCommandView { wesl_path: Some(path@), ..old(self)@ }),
    {
        self.wesl_path = Some(String::from_str(path));
    }

    /// Path to `wesl.toml`.
    pub fn manifest_path(&mut self, path: &str)
        ensures
            final(self)@ == (MetadataCommandView { manifest_path: Some(path@), ..old(self)@ }),
    {
        self.manifest_path = Some(String::from_str(path));
    }

    /// Current directory of the `wesl metadata` process.
    pub fn current_dir(&mut self, path: &str)
        ensures
            final(self)@ == (MetadataCommandView { current_dir: Some(path@), ..old(self)@ }),
    {
        self.current_dir = Some(String::from_str(path));
    }

    /// Output information only about the root package and don't fetch
    /// dependencies.
    pub fn no_dependencies(&mut self)
        ensures
            final(self)@ == (MetadataCommandView { no_dependencies: true, ..old(self)@ }),
    {
        self.no_dependencies = true;
    }

    /// Arbitrary command line flags to pass to `wesl`.  These are added to
    /// the end of the command line invocation.
    pub fn other_options(&mut self, options: Vec<String>)
        ensures
            final(self)@ == (MetadataCommandView { other_options: options.deep_view(), ..old(self)@ }),
    {
        self.other_options = options;
    }

    /// Arbitrary environment variable to set when running `wesl`.  The
    /// overlay entries are applied in order over the inherited
    /// environment, so a later entry for the same name overrides an
    /// earlier one.
    pub fn env(&mut self, key: &str, val: &str)
        ensures
            final(self)@ == (MetadataCommandView {
                env: old(self)@.env.push((key@, Some(val@))),
                ..old(self)@
            }),
    {
        self.env.push((String::from_str(key), Some(String::from_str(val))));
        proof {
            assert(final(self)@.env =~= old(self)@.env.push((key@, Some(val@))));
        }
    }

    /// Arbitrary environment variable to remove when running `wesl`, as an
    /// explicit-removal entry of the overlay.
    pub fn env_remove(&mut self, key: &str)
        ensures
            final(self)@ == (MetadataCommandView { env: old(self)@.env.push((key@, None)), ..old(self)@ }),
    {
        self.env.push((String::from_str(key), None));
        proof {
            assert(final(self)@.env =~= old(self)@.env.push((key@, None::<Seq<char>>)));
        }
    }

    /// Set whether to show stderr.
    pub fn verbose(&mut self, verbose: bool)
        ensures
            final(self)@ == (MetadataCommandView { verbose: verbose, ..old(self)@ }),
    {
        self.verbose = verbose;
    }

    /// Whether stderr is passed through instead of captured.
    pub fn is_verbose(&self) -> (r: bool)
        ensures
            r == self@.verbose,
    {
        self.verbose
    }

    /// Assembles the invocation for `wesl metadata`.  This is the first
    /// part of the work of running the command; `wesl_env` is the caller's
    /// `WESL` environment variable, consulted only where no explicit
    /// executable path was set.
    pub fn wesl_command(&self, wesl_env: Option<String>) -> (r: Invocation)
        ensures
            r@.program == spec_program(self@, wesl_env.deep_view()),
            r@.args == spec_args(self@),
            r@.current_dir == self@.current_dir,
            r@.env == self@.env,
    {
        let program = match &self.wesl_path {
            Some(p) => p.clone(),
            None => match wesl_env {
                Some(e) => e,
                None => String::from_str("wesl"),
            },
        };
        let mut args: Vec<String> = Vec::new();
        args.push(String::from_str("metadata"));
        if self.no_dependencies {
            args.push(String::from_str("--no-dependencies"));
        }
        match &self.manifest_path {
            Some(p) => {
                args.push(String::from_str("--manifest-path"));
                args.push(p.clone());
            },
            None => {},
        }
        let n = self.other_options.len();
        let ghost base = args.deep_view();
        let mut i: usize = 0;
        while i < n
            invariant
                i <= n,
                n == self.other_options@.len(),
                args.deep_view() == base + self@.other_options.take(i as int),
            decreases n - i,
        {
            let ghost prev = args.deep_view();
            args.push(self.other_options[i].clone());
            proof {
                assert(args.deep_view() =~= prev.push(self@.other_options[i as int]));
                assert(base + self@.other_options.take(i + 1) =~= (base
                    + self@.other_options.take(i as int)).push(self@.other_options[i as int]));
            }
            i = i + 1;
        }
        proof {
            assert(self@.other_options.take(n as int) =~= self@.other_options);
            assert(args.deep_view() =~= spec_args(self@));
        }
        let current_dir = match &self.current_dir {
            Some(p) => Some(p.clone()),
            None => None,
        };
        let m = self.env.len();
        let mut env: Vec<(String, Option<String>)> = Vec::new();
        let mut k: usize = 0;
        while k < m
            invariant
                k <= m,
                m == self.env@.len(),
                env.deep_view() == self@.env.take(k as int),
            decreases m - k,
        {
            let ghost prev = env.deep_view();
            let key = self.env[k].0.clone();
            let val = match &self.env[k].1 {
                Some(v) => Some(v.clone()),
                None => None,
            };
            env.push((key, val));
            proof {
                assert(env.deep_view() =~= prev.push(self@.env[k as int]));
                assert(self@.env.take(k + 1) =~= self@.env.take(k as int).push(
                    self@.env[k as int],
                ));
            }
            k = k + 1;
        }
        proof {
            assert(self@.env.take(m as int) =~= self@.env);
        }
        Invocation { program, args, current_dir, env }
    }
}

/// Whether position `i` starts a line: the very beginning, or the
/// position right after a line feed.
pub open spec fn is_line_start(s: Seq<char>, i: int) -> bool {
    i == 0 || s[i - 1] == '\n'
}

/// The first position at or after `i` where a line starts with `{`, if
/// any.
pub open spec fn first_json_start(s: Seq<char>, i: int) -> Option<int>
    decreases s.len() - i,
{
    if i < 0 || i >= s.len() {
        None
    } else if s[i] == '{' && is_line_start(s, i) {
        Some(i)
    } else {
        first_json_start(s, i + 1)
    }
}

/// The position of the first line feed at or after `i`, or the end of the
/// text.
pub open spec fn line_end(s: Seq<char>, i: int) -> int
    decreases s.len() - i,
{
    if i < 0 || i >= s.len() {
        s.len() as int
    } else if s[i] == '\n' {
        i
    } else {
        line_end(s, i + 1)
    }
}

/// The JSON payload line: the first line whose first character is `{`,
/// without its line ending (a carriage return before the line feed goes
/// with the ending).  Tools interleave diagnostics with the payload on one
/// stream; exactly one line is taken to be the real payload.
pub open spec fn spec_json_line(s: Seq<char>) -> Option<Seq<char>> {
    match first_json_start(s, 0) {
        None => None,
        Some(start) => {
            let end = line_end(s, start);
            let stop = if start < end < s.len() && s[end - 1] == '\r' {
                end - 1
            } else {
                end
            };
            Some(s.subrange(start, stop))
        },
    }
}

/// Scans the captured output for the JSON payload line.
pub fn extract_json_line(chars: &Vec<char>) -> (r: Option<Vec<char>>)
    ensures
        match r {
            Some(line) => spec_json_line(chars@) == Some(line@),
            None => spec_json_line(chars@) is None,
        },
{
    let ghost s = chars@;
    let n = chars.len();
    let mut i: usize = 0;
    let mut start: usize = 0;
    let mut found = false;
    while i < n && !found
        invariant
            i <= n,
            n == s.len(),
            s == chars@,
            !found ==> first_json_start(s, 0) == first_json_start(s, i as int),
            found ==> first_json_start(s, 0) == Some(start as int) && start < n && s[start as int]
                == '{',
        decreases n - i, (if found { 0int } else { 1int }),
    {
        if chars[i] == '{' && (i == 0 || chars[i - 1] == '\n') {
            start = i;
            found = true;
        } else {
            proof {
                assert(first_json_start(s, i as int) == first_json_start(s, i + 1));
            }
            i = i + 1;
        }
    }
    if !found {
        proof {
            assert(first_json_start(s, n as int) is None);
        }
        return None;
    }
    let mut j: usize = start;
    while j < n && chars[j] != '\n'
        invariant
            start <= j <= n,
            n == s.len(),
            s == chars@,
            line_end(s, start as int) == line_end(s, j as int),
            s[start as int] == '{',
        decreases n - j,
    {
        proof {
            assert(line_end(s, j as int) == line_end(s, j + 1));
        }
        j = j + 1;
    }
    let end = j;
    proof {
        assert(line_end(s, start as int) == end as int);
    }
    let stop = if end < n && end > start && chars[end - 1] == '\r' {
        end - 1
    } else {
        end
    };
    let mut line: Vec<char> = Vec::new();
    let mut k: usize = start;
    proof {
        assert(line@ =~= s.subrange(start as int, start as int));
    }
    while k < stop
        invariant
            start <= k <= stop <= n,
            n == s.len(),
            s == chars@,
            line@ =~= s.subrange(start as int, k as int),
        decreases stop - k,
    {
        let ghost prev = line@;
        line.push(chars[k]);
        proof {
            assert(line@ =~= prev.push(s[k as int]));
            assert(s.subrange(start as int, k + 1) =~= s.subrange(start as int, k as int).push(
                s[k as int],
            ));
        }
        k = k + 1;
    }
    Some(line)
}

/// Relies on `str::from_utf8`: the bytes decode iff they are valid UTF-8,
/// and the characters re-encode to exactly those bytes.
#[verifier::external_body]
fn utf8_chars(bytes: &Vec<u8>) -> (r: Result<Vec<char>, String>)
    ensures
        match r {
            Ok(cs) => vstd::utf8::valid_utf8(bytes@) && vstd::utf8::encode_utf8(cs@) == bytes@,
            Err(_) => !vstd::utf8::valid_utf8(bytes@),
        },
{
    match std::str::from_utf8(bytes.as_slice()) {
        Ok(s) => Ok(s.chars().collect()),
        Err(e) => Err(e.to_string()),
    }
}

/// Relies on `String::from_utf8`: the bytes decode iff they are valid
/// UTF-8, and the string's characters re-encode to exactly those bytes.
#[verifier::external_body]
fn utf8_string(bytes: Vec<u8>) -> (r: Result<String, String>)
    ensures
        match r {
            Ok(s) => vstd::utf8::valid_utf8(bytes@) && vstd::utf8::encode_utf8(s@) == bytes@,
            Err(_) => !vstd::utf8::valid_utf8(bytes@),
        },
{
    match String::from_utf8(bytes) {
        Ok(s) => Ok(s),
        Err(e) => Err(e.to_string()),
    }
}

/// What reading one JSON text as metadata returns: a schema or syntax
/// failure is a `Json` error; success carries exactly the decoded value.
pub open spec fn matches_parse_result(s: Seq<char>, r: Result<Metadata, Error>) -> bool {
    match parsed_json(s) {
        None => r is Err && r->Err_0 is Json,
        Some(jm) => match crate::decode::spec_metadata(jm) {
            None => r is Err && r->Err_0 is Json,
            Some(mv) => r is Ok && r->Ok_0@ == mv,
        },
    }
}

/// What reading a whole captured standard output returns: no payload line
/// is the distinct `NoJson` failure; otherwise the payload line is read as
/// metadata.
pub open spec fn matches_stdout_result(cs: Seq<char>, r: Result<Metadata, Error>) -> bool {
    match spec_json_line(cs) {
        None => r is Err && r->Err_0 is NoJson,
        Some(line) => matches_parse_result(line, r),
    }
}

impl MetadataCommand {
    /// Parses `wesl metadata` output.  `data` must be the JSON payload
    /// line, as a command built with `wesl_command` produces it.
    pub fn parse(data: &str) -> (r: Result<Metadata, Error>)
        ensures
            matches_parse_result(data@, r),
    {
        let len = data.unicode_len();
        let mut chars: Vec<char> = Vec::new();
        let mut i: usize = 0;
        while i < len
            invariant
                i <= len,
                len == data@.len(),
                chars@ =~= data@.take(i as int),
            decreases len - i,
        {
            let ghost prev = chars@;
            chars.push(data.get_char(i));
            proof {
                assert(chars@ =~= prev.push(data@[i as int]));
                assert(data@.take(i + 1) =~= data@.take(i as int).push(data@[i as int]));
            }
            i = i + 1;
        }
        proof {
            assert(data@.take(len as int) =~= data@);
        }
        Self::parse_chars(&chars)
    }

    /// Parses the JSON payload line, given as characters.
    fn parse_chars(chars: &Vec<char>) -> (r: Result<Metadata, Error>)
        ensures
            matches_parse_result(chars@, r),
    {
        match parse_json(chars) {
            Ok(doc) => Metadata::from_json(&doc),
            Err(e) => Err(e),
        }
    }

    /// Reads a whole captured standard output: scans for the payload line
    /// and decodes it.
    pub fn metadata_from_stdout(chars: &Vec<char>) -> (r: Result<Metadata, Error>)
        ensures
            matches_stdout_result(chars@, r),
    {
        match extract_json_line(chars) {
            Some(line) => Self::parse_chars(&line),
            None => Err(Error::NoJson),
        }
    }

    /// Classifies what running `wesl metadata` produced.
    ///
    /// A nonzero exit turns the captured standard error text into a
    /// [`Error::WeslMetadata`] failure (with verbose mode, where stderr
    /// was passed through rather than captured, that text is empty: the
    /// documented tradeoff).  On success, the captured standard output is
    /// decoded strictly as UTF-8 and its payload line is read as metadata.
    pub fn process_output(success: bool, stdout: &Vec<u8>, stderr: Vec<u8>) -> (r: Result<
        Metadata,
        Error,
    >)
        ensures
            !success ==> (match r {
                Err(e) => match e {
                    Error::WeslMetadata { stderr: t } => vstd::utf8::valid_utf8(stderr@)
                        && vstd::utf8::encode_utf8(t@) == stderr@,
                    Error::ErrUtf8(_) => !vstd::utf8::valid_utf8(stderr@),
                    _ => false,
                },
                Ok(_) => false,
            }),
            success ==> (match r {
                Err(Error::Utf8(_)) => !vstd::utf8::valid_utf8(stdout@),
                _ => vstd::utf8::valid_utf8(stdout@) && (exists|cs: Seq<char>|
                    #[trigger] vstd::utf8::encode_utf8(cs) == stdout@ && matches_stdout_result(
                        cs,
                        r,
                    )),
            }),
    {
        if !success {
            return match utf8_string(stderr) {
                Ok(text) => Err(Error::WeslMetadata { stderr: text }),
                Err(cause) => Err(Error::ErrUtf8(cause)),
            };
        }
        match utf8_chars(stdout) {
            Ok(chars) => {
                let r = Self::metadata_from_stdout(&chars);
                proof {
                    assert(vstd::utf8::encode_utf8(chars@) == stdout@ && matches_stdout_result(
                        chars@,
                        r,
                    ));
                }
                r
            },
            Err(cause) => Err(Error::Utf8(cause)),
        }
    }
}

} // verus!
