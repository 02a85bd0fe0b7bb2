use vstd::prelude::*;
use vstd::utf8::{decode_utf8, valid_utf8};
use crate::text::{chars_of, contains, contains_chars, lemma_trim_idempotent, string_of, trim, trim_chars};

verus! {

/// A program and its arguments, to be run without a shell.
#[derive(Debug)]
pub struct CommandRequest {
    pub program: String,
    pub args: Vec<String>,
}

/// What a finished process handed back.
#[derive(Debug)]
pub struct CommandOutput {
    /// The exit status reported success.
    pub success: bool,
    /// The exit code, when the process exited with one.
    pub code: Option<i32>,
    pub stdout: Vec<u8>,
    pub stderr: Vec<u8>,
}

/// Outside work that an operation of the library asks its caller to do.
#[derive(Debug)]
pub enum Probe {
    /// Run a program and report its output (or the I/O error that prevented it).
    Run(CommandRequest),
    /// Report, for each path, whether it exists in the file system.
    PathsExist(Vec<String>),
    /// Report the names of the entries of a directory.
    ListDir(String),
    /// Report the text content of a file.
    ReadFile(String),
    /// Report whether a local TCP port is in use.
    PortInUse(u16),
    /// Report, for each program name, the executable that `$PATH` resolves
    /// it to (none where it does not resolve).
    Which(Vec<String>),
}

/// The answer to a `Probe`.
#[derive(Debug)]
pub enum Observation {
    Command(Result<CommandOutput, String>),
    Exists(Vec<bool>),
    Listing(Option<Vec<String>>),
    Contents(Option<String>),
    InUse(bool),
    Resolved(Vec<Option<String>>),
}

/// One step of an operation that needs outside work: either the next probe,
/// with the state to resume from, or the final result.
#[derive(Debug)]
pub enum Step<S, T> {
    Need(S, Probe),
    Done(T),
}

/// The characters of each string of a vector.
pub open spec fn strings(v: Seq<String>) -> Seq<Seq<char>> {
    v.map_values(|s: String| s@)
}

/// A description of a probe, for stating which probe an operation asks for.
pub enum ProbeSpec {
    Run(Seq<char>, Seq<Seq<char>>),
    Paths(Seq<Seq<char>>),
    Which(Seq<Seq<char>>),
}

/// `p` is the probe that `e` describes.
pub open spec fn probe_matches(p: Probe, e: ProbeSpec) -> bool {
    match e {
        ProbeSpec::Run(program, args) => is_run(p, program, args),
        ProbeSpec::Paths(paths) => is_paths_probe(p, paths),
        ProbeSpec::Which(names) => is_which_probe(p, names),
    }
}

/// `p` asks to look `names` up in `$PATH`.
pub open spec fn is_which_probe(p: Probe, names: Seq<Seq<char>>) -> bool {
    match p {
        Probe::Which(v) => strings(v@) == names,
        _ => false,
    }
}

/// An operation whose only state is that it waits for program lookups.
#[derive(Debug)]
pub struct LookupQuery;

/// `res` asks to look `names` up in `$PATH`.
pub open spec fn lookup_asks<T>(res: Step<LookupQuery, T>, names: Seq<Seq<char>>) -> bool {
    match res {
        Step::Need(_, p) => is_which_probe(p, names),
        Step::Done(_) => false,
    }
}

/// The path that an observation gives for the program looked up at
/// position `i` (none where it was not found or not reported).
pub open spec fn observed_path(obs: Observation, i: int) -> Option<Seq<char>> {
    match obs {
        Observation::Resolved(v) => if 0 <= i < v.len() {
            opt_view(v@[i])
        } else {
            None
        },
        _ => None,
    }
}

/// The program looked up at position `i` was found.
pub open spec fn observed_found(obs: Observation, i: int) -> bool {
    observed_path(obs, i) is Some
}

/// Some program of the lookup was found.
pub open spec fn some_found(obs: Observation) -> bool {
    match obs {
        Observation::Resolved(v) => exists|i: int| 0 <= i < v.len() && #[trigger] v@[i] is Some,
        _ => false,
    }
}

/// A lookup of program names in `$PATH`.
pub fn which_probe(names: Vec<String>) -> (res: Probe)
    ensures
        is_which_probe(res, strings(names@)),
{
    Probe::Which(names)
}

/// See `observed_path`.
pub fn resolved_path(obs: &Observation, i: usize) -> (res: Option<String>)
    ensures
        opt_view(res) == observed_path(*obs, i as int),
{
    match obs {
        Observation::Resolved(v) => {
            if i < v.len() {
                match &v[i] {
                    Some(p) => Some(p.clone()),
                    None => None,
                }
            } else {
                None
            }
        },
        _ => None,
    }
}

/// See `observed_found`.
pub fn found(obs: &Observation, i: usize) -> (res: bool)
    ensures
        res == observed_found(*obs, i as int),
{
    resolved_path(obs, i).is_some()
}

/// Whether some program of a lookup was found: the answer to a lookup
/// begun by an `is_available`.
pub fn availability_advance(q: LookupQuery, obs: &Observation) -> (res: Step<LookupQuery, bool>)
    ensures
        res matches Step::Done(b) && b == some_found(*obs),
{
    match obs {
        Observation::Resolved(v) => {
            let mut i: usize = 0;
            while i < v.len()
                invariant
                    i <= v.len(),
                    *obs == Observation::Resolved(*v),
                    forall|j: int| 0 <= j < i ==> !(#[trigger] v@[j] is Some),
                decreases v.len() - i,
            {
                if v[i].is_some() {
                    assert(v@[i as int] is Some);
                    return Step::Done(true);
                }
                i += 1;
            }
            Step::Done(false)
        },
        _ => Step::Done(false),
    }
}

/// The characters of an optional string.
pub open spec fn opt_view(o: Option<String>) -> Option<Seq<char>> {
    match o {
        Some(s) => Some(s@),
        None => None,
    }
}

/// The characters of an optional string slice.
pub open spec fn opt_str(o: Option<&str>) -> Option<Seq<char>> {
    match o {
        Some(s) => Some(s@),
        None => None,
    }
}

/// `req` runs `program` with `args`.
pub open spec fn is_command(req: CommandRequest, program: Seq<char>, args: Seq<Seq<char>>) -> bool {
    req.program@ == program && strings(req.args@) == args
}

/// `p` asks to run `program` with `args`.
pub open spec fn is_run(p: Probe, program: Seq<char>, args: Seq<Seq<char>>) -> bool {
    match p {
        Probe::Run(req) => is_command(req, program, args),
        _ => false,
    }
}

/// `p` asks which of `paths` exist.
pub open spec fn is_paths_probe(p: Probe, paths: Seq<Seq<char>>) -> bool {
    match p {
        Probe::PathsExist(q) => strings(q@) == paths,
        _ => false,
    }
}

/// The text that `String::from_utf8_lossy` makes of some bytes.
pub uninterp spec fn spec_utf8_lossy(bytes: Seq<u8>) -> Seq<char>;

/// `String::from_utf8_lossy`: decodes UTF-8, replacing each invalid sequence
/// by U+FFFD. Stated: the result is a function of the bytes alone, and for
/// valid UTF-8 it is the decoded text. The replacement of invalid sequences
/// is not stated beyond that name.
#[verifier::external_body]
pub(crate) fn utf8_lossy(bytes: &Vec<u8>) -> (res: String)
    ensures
        res@ == spec_utf8_lossy(bytes@),
        valid_utf8(bytes@) ==> res@ == decode_utf8(bytes@),
{
    String::from_utf8_lossy(bytes.as_slice()).to_string()
}

/// The trimmed standard output of a successful run, if it is not empty.
pub open spec fn stdout_text(outcome: Result<CommandOutput, String>) -> Option<Seq<char>> {
    match outcome {
        Ok(out) => if out.success && trim(spec_utf8_lossy(out.stdout@)).len() > 0 {
            Some(trim(spec_utf8_lossy(out.stdout@)))
        } else {
            None
        },
        Err(_) => None,
    }
}

/// The standard output handed on from a run is never blank and never has
/// white space at either end.
pub proof fn lemma_stdout_text_trimmed(outcome: Result<CommandOutput, String>)
    ensures
        stdout_text(outcome) matches Some(t) ==> t.len() > 0 && trim(t) == t,
{
    if let Ok(out) = outcome {
        lemma_trim_idempotent(spec_utf8_lossy(out.stdout@));
    }
}

/// The command outcome that an observation carries, seen through `stdout_text`.
pub open spec fn observed_stdout(obs: Observation) -> Option<Seq<char>> {
    match obs {
        Observation::Command(r) => stdout_text(r),
        _ => None,
    }
}

/// What an observation says of the existence of the probed paths (anything
/// else counts as none existing).
pub open spec fn observed_exists(obs: Observation) -> Seq<bool> {
    match obs {
        Observation::Exists(b) => b@,
        _ => Seq::<bool>::empty(),
    }
}

/// A `Probe::Run` for `program` with literal arguments.
pub fn run_probe(program: &str, args: Vec<String>) -> (res: Probe)
    ensures
        is_run(res, program@, strings(args@)),
{
    Probe::Run(CommandRequest { program: String::from_str(program), args })
}

/// A one-element argument vector.
pub fn args1(a: &str) -> (res: Vec<String>)
    ensures
        strings(res@) == seq![a@],
{
    let mut v: Vec<String> = Vec::new();
    v.push(String::from_str(a));
    assert(strings(v@) =~= seq![a@]);
    v
}

/// A two-element argument vector.
pub fn args2(a: &str, b: &str) -> (res: Vec<String>)
    ensures
        strings(res@) == seq![a@, b@],
{
    let mut v: Vec<String> = Vec::new();
    v.push(String::from_str(a));
    v.push(String::from_str(b));
    assert(strings(v@) =~= seq![a@, b@]);
    v
}

/// A three-element argument vector.
pub fn args3(a: &str, b: &str, c: &str) -> (res: Vec<String>)
    ensures
        strings(res@) == seq![a@, b@, c@],
{
    let mut v: Vec<String> = Vec::new();
    v.push(String::from_str(a));
    v.push(String::from_str(b));
    v.push(String::from_str(c));
    assert(strings(v@) =~= seq![a@, b@, c@]);
    v
}

/// A four-element argument vector.
pub fn args4(a: &str, b: &str, c: &str, d: &str) -> (res: Vec<String>)
    ensures
        strings(res@) == seq![a@, b@, c@, d@],
{
    let mut v: Vec<String> = Vec::new();
    v.push(String::from_str(a));
    v.push(String::from_str(b));
    v.push(String::from_str(c));
    v.push(String::from_str(d));
    assert(strings(v@) =~= seq![a@, b@, c@, d@]);
    v
}

/// Builds an argument vector from literal pieces.
pub fn arg_list(parts: &[&str]) -> (res: Vec<String>)
    ensures
        strings(res@) == parts@.map_values(|p: &str| p@),
{
    let mut res: Vec<String> = Vec::new();
    let mut i: usize = 0;
    while i < parts.len()
        invariant
            i <= parts.len(),
            strings(res@) == parts@.map_values(|p: &str| p@).take(i as int),
        decreases parts.len() - i,
    {
        let ghost before = res@;
        let item = String::from_str(parts[i]);
        res.push(item);
        assert(strings(res@) =~= strings(before).push(item@));
        assert(parts@.map_values(|p: &str| p@).take(i + 1) =~= parts@.map_values(|p: &str| p@).take(i as int).push(parts@[i as int]@));
        i += 1;
    }
    assert(parts@.map_values(|p: &str| p@).take(parts.len() as int) =~= parts@.map_values(|p: &str| p@));
    res
}

pub struct SafeCommand;

impl SafeCommand {
    /// The trimmed standard output of a run, when the run succeeded and
    /// printed something other than white space.
    pub fn run_and_get_stdout(outcome: &Result<CommandOutput, String>) -> (res: Option<String>)
        ensures
            res.is_some() == stdout_text(*outcome).is_some(),
            res.is_some() ==> res.unwrap()@ == stdout_text(*outcome).unwrap(),
    {
        match outcome {
            Ok(out) => {
                if out.success {
                    let text = utf8_lossy(&out.stdout);
                    let t = trim_chars(&chars_of(text.as_str()));
                    if t.len() == 0 {
                        None
                    } else {
                        Some(string_of(&t))
                    }
                } else {
                    None
                }
            },
            Err(_) => None,
        }
    }

    /// The trimmed standard output that an observation carries (see `run_and_get_stdout`).
    pub fn observed_stdout(obs: &Observation) -> (res: Option<String>)
        ensures
            res.is_some() == observed_stdout(*obs).is_some(),
            res.is_some() ==> res.unwrap()@ == observed_stdout(*obs).unwrap(),
    {
        match obs {
            Observation::Command(r) => Self::run_and_get_stdout(r),
            _ => None,
        }
    }
}

/// The explanation that a failed run gives: its trimmed standard error, or,
/// when that is empty, its trimmed standard output.
pub open spec fn failure_details(out: CommandOutput) -> Seq<char> {
    let err = trim(spec_utf8_lossy(out.stderr@));
    if err.len() > 0 {
        err
    } else {
        trim(spec_utf8_lossy(out.stdout@))
    }
}

/// A failed privileged run means that the PolicyKit prompt was dismissed:
/// exit code 126 or 127 (a missing code counts as -1), or the explanation
/// mentions `dismissed` or `cancelled`.
pub open spec fn authorization_refused(code: Option<i32>, details: Seq<char>) -> bool {
    let c = match code {
        Some(c) => c as int,
        None => -1,
    };
    c == 126 || c == 127 || contains(details, "dismissed"@) || contains(details, "cancelled"@)
}

/// See `failure_details`.
pub fn failure_details_of(out: &CommandOutput) -> (res: String)
    ensures
        res@ == failure_details(*out),
{
    let err = trim_chars(&chars_of(utf8_lossy(&out.stderr).as_str()));
    if err.len() > 0 {
        string_of(&err)
    } else {
        string_of(&trim_chars(&chars_of(utf8_lossy(&out.stdout).as_str())))
    }
}

/// See `authorization_refused`.
pub fn authorization_refused_of(code: Option<i32>, details: &String) -> (res: bool)
    ensures
        res == authorization_refused(code, details@),
{
    let c: i32 = match code {
        Some(c) => c,
        None => -1,
    };
    let d = chars_of(details.as_str());
    c == 126 || c == 127 || contains_chars(&d, &chars_of("dismissed")) || contains_chars(&d, &chars_of("cancelled"))
}

} // verus!
