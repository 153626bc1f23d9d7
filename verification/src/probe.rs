//! Questions the library puts to the machine it runs on, the answers it
//! takes back, and the probes that weigh an answer as evidence.
//!
//! The library never touches the machine itself. A detection or an
//! installation is a value that says what it needs to know next
//! (`pending`), and moves on when it is told (`advance`).
use crate::host::{join, joined, Platform};
use crate::text::{first_line, first_line_of, starts_with, trim, trimmed};
use vstd::prelude::*;
use vstd::string::*;

verus! {

/// Something the library needs done or looked up.
#[derive(Clone, Debug, PartialEq, Eq)]
pub enum Question {
    /// Does this path exist?
    PathExists { path: String },
    /// Which names does this directory hold?
    ListDir { path: String },
    /// Run a program to its end, keep what it writes, and report how it
    /// went.
    Run { program: String, args: Vec<String> },
    /// Run a program to its end and let it write where the setup itself
    /// writes; report how it went, without what it wrote.
    Execute { program: String, args: Vec<String> },
    /// Start a program and do not wait for it.
    Launch { program: String, args: Vec<String> },
    /// Create a fresh temporary directory.
    MakeTempDir,
    /// Send an HTTP GET and report the status of the response.
    Fetch { url: String },
    /// Read the body of the response fetched last.
    ReadBody,
    /// Write a file, replacing what is there.
    WriteFile { path: String, contents: Vec<u8> },
}

/// What the machine said to a `Question`.
#[derive(Clone, Debug, PartialEq, Eq)]
pub enum Answer {
    Exists(bool),
    Entries(Vec<String>),
    /// The program ran; `success` is whether it exited with status zero.
    Ran { success: bool, stdout: String, stderr: String },
    Launched,
    TempDir { path: String },
    /// A response arrived; `status_line` is its status as text.
    Response { status: u16, status_line: String },
    Body(Vec<u8>),
    Written,
    /// The question could not be carried out at all.
    Failed { reason: String },
}

pub enum QuestionView {
    PathExists { path: Seq<char> },
    ListDir { path: Seq<char> },
    Run { program: Seq<char>, args: Seq<Seq<char>> },
    Execute { program: Seq<char>, args: Seq<Seq<char>> },
    Launch { program: Seq<char>, args: Seq<Seq<char>> },
    MakeTempDir,
    Fetch { url: Seq<char> },
    ReadBody,
    WriteFile { path: Seq<char>, contents: Seq<u8> },
}

pub enum AnswerView {
    Exists(bool),
    Entries(Seq<Seq<char>>),
    Ran { success: bool, stdout: Seq<char>, stderr: Seq<char> },
    Launched,
    TempDir { path: Seq<char> },
    Response { status: u16, status_line: Seq<char> },
    Body(Seq<u8>),
    Written,
    Failed { reason: Seq<char> },
}

impl View for Question {
    type V = QuestionView;

    open spec fn view(&self) -> QuestionView {
        match self {
            Question::PathExists { path } => QuestionView::PathExists { path: path@ },
            Question::ListDir { path } => QuestionView::ListDir { path: path@ },
            Question::Run { program, args } => QuestionView::Run {
                program: program@,
                args: args.deep_view(),
            },
            Question::Execute { program, args } => QuestionView::Execute {
                program: program@,
                args: args.deep_view(),
            },
            Question::Launch { program, args } => QuestionView::Launch {
                program: program@,
                args: args.deep_view(),
            },
            Question::MakeTempDir => QuestionView::MakeTempDir,
            Question::Fetch { url } => QuestionView::Fetch { url: url@ },
            Question::ReadBody => QuestionView::ReadBody,
            Question::WriteFile { path, contents } => QuestionView::WriteFile {
                path: path@,
                contents: contents@,
            },
        }
    }
}

impl DeepView for Question {
    type V = QuestionView;

    open spec fn deep_view(&self) -> QuestionView {
        self.view()
    }
}

impl View for Answer {
    type V = AnswerView;

    open spec fn view(&self) -> AnswerView {
        match self {
            Answer::Exists(b) => AnswerView::Exists(*b),
            Answer::Entries(names) => AnswerView::Entries(names.deep_view()),
            Answer::Ran { success, stdout, stderr } => AnswerView::Ran {
                success: *success,
                stdout: stdout@,
                stderr: stderr@,
            },
            Answer::Launched => AnswerView::Launched,
            Answer::TempDir { path } => AnswerView::TempDir { path: path@ },
            Answer::Response { status, status_line } => AnswerView::Response {
                status: *status,
                status_line: status_line@,
            },
            Answer::Body(bytes) => AnswerView::Body(bytes@),
            Answer::Written => AnswerView::Written,
            Answer::Failed { reason } => AnswerView::Failed { reason: reason@ },
        }
    }
}

impl DeepView for Answer {
    type V = AnswerView;

    open spec fn deep_view(&self) -> AnswerView {
        self.view()
    }
}

/// Whether an HTTP status says that the request succeeded.
pub open spec fn is_success(status: u16) -> bool {
    200 <= status <= 299
}

/// Whether an HTTP status says that the request succeeded.
pub fn status_is_success(status: u16) -> (r: bool)
    ensures
        r == is_success(status),
{
    200 <= status && status <= 299
}

impl AnswerView {
    /// Why a step failed, as far as the answer says: the reason of a
    /// `Failed`, and a fixed text for an answer of the wrong kind.
    pub open spec fn reason(self) -> Seq<char> {
        match self {
            AnswerView::Failed { reason } => reason,
            _ => "unexpected answer"@,
        }
    }
}

impl Answer {
    /// Why a step failed, as far as this answer says.
    pub fn reason(&self) -> (r: String)
        ensures
            r@ == self@.reason(),
    {
        match self {
            Answer::Failed { reason } => reason.clone(),
            _ => String::from_str("unexpected answer"),
        }
    }
}

/// A copy of a list of strings.
pub fn clone_strings(list: &Vec<String>) -> (r: Vec<String>)
    ensures
        r.deep_view() == list.deep_view(),
{
    let mut out: Vec<String> = Vec::new();
    let mut i: usize = 0;
    while i < list.len()
        invariant
            i <= list@.len(),
            out@.len() == i,
            forall|j: int| 0 <= j < i ==> out@[j]@ == list@[j]@,
        decreases list@.len() - i,
    {
        out.push(list[i].clone());
        i += 1;
    }
    assert(out.deep_view() =~= list.deep_view());
    out
}

/// The tool that looks a command up on the search path.
#[derive(Clone, Copy, Debug, PartialEq, Eq, Structural)]
pub enum Locator {
    Which,
    Where,
}

impl Locator {
    /// The program to run.
    pub open spec fn program(self) -> Seq<char> {
        match self {
            Locator::Which => "which"@,
            Locator::Where => "where"@,
        }
    }
}

/// Whether `name` begins with one of `prefixes`.
pub open spec fn has_any_prefix(name: Seq<char>, prefixes: Seq<Seq<char>>) -> bool {
    exists|i: int| 0 <= i < prefixes.len() && (#[trigger] prefixes[i]).is_prefix_of(name)
}

/// The directories under `root` whose name begins with one of `prefixes`,
/// in the order in which `names` lists them.
pub open spec fn matching_dirs(
    platform: Platform,
    root: Seq<char>,
    prefixes: Seq<Seq<char>>,
    names: Seq<Seq<char>>,
) -> Seq<Seq<char>>
    decreases names.len(),
{
    if names.len() == 0 {
        Seq::empty()
    } else {
        let before = matching_dirs(platform, root, prefixes, names.drop_last());
        if has_any_prefix(names.last(), prefixes) {
            before.push(joined(platform, root, names.last()))
        } else {
            before
        }
    }
}

/// Whether `name` begins with one of `prefixes`.
pub fn begins_with_any(name: &str, prefixes: &Vec<String>) -> (r: bool)
    ensures
        r == has_any_prefix(name@, prefixes.deep_view()),
{
    let mut i: usize = 0;
    while i < prefixes.len()
        invariant
            i <= prefixes@.len(),
            forall|j: int| 0 <= j < i ==> !(#[trigger] prefixes@[j])@.is_prefix_of(name@),
        decreases prefixes@.len() - i,
    {
        if starts_with(name, prefixes[i].as_str()) {
            assert(prefixes.deep_view()[i as int] == prefixes@[i as int]@);
            return true;
        }
        i += 1;
    }
    assert forall|j: int| 0 <= j < prefixes.deep_view().len() implies !(
    #[trigger] prefixes.deep_view()[j]).is_prefix_of(name@) by {
        assert(prefixes.deep_view()[j] == prefixes@[j]@);
    }
    false
}

/// The directories under `root` whose name begins with one of `prefixes`.
pub fn dirs_matching(platform: Platform, root: &str, prefixes: &Vec<String>, names: &Vec<String>) -> (r:
    Vec<String>)
    ensures
        r.deep_view() == matching_dirs(platform, root@, prefixes.deep_view(), names.deep_view()),
{
    let mut out: Vec<String> = Vec::new();
    let mut i: usize = 0;
    assert(names.deep_view().take(0) =~= Seq::<Seq<char>>::empty());
    while i < names.len()
        invariant
            i <= names@.len(),
            out.deep_view() == matching_dirs(
                platform,
                root@,
                prefixes.deep_view(),
                names.deep_view().take(i as int),
            ),
        decreases names@.len() - i,
    {
        let ghost before = out.deep_view();
        proof {
            let next = names.deep_view().take(i + 1);
            assert(next.drop_last() =~= names.deep_view().take(i as int));
            assert(next.last() == names@[i as int]@);
        }
        if begins_with_any(names[i].as_str(), prefixes) {
            out.push(join(platform, root, names[i].as_str()));
            assert(out.deep_view() =~= before.push(joined(platform, root@, names@[i as int]@)));
        }
        i += 1;
    }
    assert(names.deep_view().take(i as int) =~= names.deep_view());
    out
}

/// One way of looking for evidence that something is there.
#[derive(Clone, Debug, PartialEq, Eq)]
pub enum Probe {
    /// Ask the platform's lookup tool for a command on the search path.
    Locate { tool: Locator, command: String },
    /// Look for a path.
    Exists { path: String },
    /// Look under `root` for a directory whose name begins with one of
    /// `prefixes`.
    ConfigDir { platform: Platform, root: String, prefixes: Vec<String> },
    /// Run a program and see whether it exits with status zero.
    Succeeds { program: String, args: Vec<String> },
}

pub enum ProbeView {
    Locate { tool: Locator, command: Seq<char> },
    Exists { path: Seq<char> },
    ConfigDir { platform: Platform, root: Seq<char>, prefixes: Seq<Seq<char>> },
    Succeeds { program: Seq<char>, args: Seq<Seq<char>> },
}

impl View for Probe {
    type V = ProbeView;

    open spec fn view(&self) -> ProbeView {
        match self {
            Probe::Locate { tool, command } => ProbeView::Locate { tool: *tool, command: command@ },
            Probe::Exists { path } => ProbeView::Exists { path: path@ },
            Probe::ConfigDir { platform, root, prefixes } => ProbeView::ConfigDir {
                platform: *platform,
                root: root@,
                prefixes: prefixes.deep_view(),
            },
            Probe::Succeeds { program, args } => ProbeView::Succeeds {
                program: program@,
                args: args.deep_view(),
            },
        }
    }
}

impl DeepView for Probe {
    type V = ProbeView;

    open spec fn deep_view(&self) -> ProbeView {
        self.view()
    }
}

/// `Some(s)` unless `s` is empty.
pub open spec fn non_empty(s: Seq<char>) -> Option<Seq<char>> {
    if s.len() == 0 {
        None
    } else {
        Some(s)
    }
}

impl ProbeView {
    /// What this probe asks.
    pub open spec fn question(self) -> QuestionView {
        match self {
            ProbeView::Locate { tool, command } => QuestionView::Run {
                program: tool.program(),
                args: seq![command],
            },
            ProbeView::Exists { path } => QuestionView::PathExists { path },
            ProbeView::ConfigDir { root, .. } => QuestionView::ListDir { path: root },
            ProbeView::Succeeds { program, args } => QuestionView::Run { program, args },
        }
    }

    /// What the probe found, given the answer to its question: a path, or
    /// nothing. Every answer that is not the good one is a miss, a failure
    /// to run the probe included.
    pub open spec fn evidence(self, answer: AnswerView) -> Option<Seq<char>> {
        match self {
            ProbeView::Locate { tool, .. } => match answer {
                AnswerView::Ran { success: true, stdout, .. } => match tool {
                    Locator::Which => non_empty(trimmed(stdout)),
                    Locator::Where => non_empty(trimmed(first_line_of(stdout))),
                },
                _ => None,
            },
            ProbeView::Exists { path } => match answer {
                AnswerView::Exists(true) => Some(path),
                _ => None,
            },
            ProbeView::ConfigDir { platform, root, prefixes } => match answer {
                AnswerView::Entries(names) => {
                    let dirs = matching_dirs(platform, root, prefixes, names);
                    if dirs.len() > 0 {
                        Some(dirs[0])
                    } else {
                        None
                    }
                },
                _ => None,
            },
            ProbeView::Succeeds { program, .. } => match answer {
                AnswerView::Ran { success: true, .. } => Some(program),
                _ => None,
            },
        }
    }
}

impl Probe {
    /// What this probe asks.
    pub fn question(&self) -> (r: Question)
        ensures
            r@ == self@.question(),
    {
        match self {
            Probe::Locate { tool, command } => {
                let program = match tool {
                    Locator::Which => String::from_str("which"),
                    Locator::Where => String::from_str("where"),
                };
                let mut args: Vec<String> = Vec::new();
                args.push(command.clone());
                assert(args.deep_view() =~= seq![command@]);
                Question::Run { program, args }
            },
            Probe::Exists { path } => Question::PathExists { path: path.clone() },
            Probe::ConfigDir { root, .. } => Question::ListDir { path: root.clone() },
            Probe::Succeeds { program, args } => Question::Run {
                program: program.clone(),
                args: clone_strings(args),
            },
        }
    }

    /// What the probe found, given the answer to its question.
    pub fn evidence(&self, answer: &Answer) -> (r: Option<String>)
        ensures
            r.deep_view() == self@.evidence(answer@),
    {
        match self {
            Probe::Locate { tool, .. } => match answer {
                Answer::Ran { success: true, stdout, .. } => {
                    let found = match tool {
                        Locator::Which => trim(stdout.as_str()),
                        Locator::Where => trim(first_line(stdout.as_str())),
                    };
                    if found.is_empty() {
                        None
                    } else {
                        Some(String::from_str(found))
                    }
                },
                _ => None,
            },
            Probe::Exists { path } => match answer {
                Answer::Exists(true) => Some(path.clone()),
                _ => None,
            },
            Probe::ConfigDir { platform, root, prefixes } => match answer {
                Answer::Entries(names) => {
                    let dirs = dirs_matching(*platform, root.as_str(), prefixes, names);
                    if dirs.len() > 0 {
                        assert(dirs.deep_view()[0] == dirs@[0]@);
                        Some(dirs[0].clone())
                    } else {
                        None
                    }
                },
                _ => None,
            },
            Probe::Succeeds { program, .. } => match answer {
                Answer::Ran { success: true, .. } => Some(program.clone()),
                _ => None,
            },
        }
    }
}

/// A probe for each path of `paths`, in their order.
pub open spec fn exists_probes(paths: Seq<Seq<char>>) -> Seq<ProbeView> {
    Seq::new(paths.len(), |i: int| ProbeView::Exists { path: paths[i] })
}

/// A probe for each path of `paths`, in their order, added to `probes`.
pub fn push_exists_probes(probes: &mut Vec<Probe>, paths: Vec<String>)
    ensures
        final(probes).deep_view() == old(probes).deep_view() + exists_probes(paths.deep_view()),
{
    let ghost before = probes.deep_view();
    let mut paths = paths;
    let ghost all = paths.deep_view();
    let mut i: usize = 0;
    let n: usize = paths.len();
    while i < n
        invariant
            n == paths@.len(),
            i <= n,
            paths.deep_view() == all,
            probes.deep_view() == before + exists_probes(all).take(i as int),
        decreases n - i,
    {
        let ghost prior = probes.deep_view();
        let path = paths[i].clone();
        assert(path@ == all[i as int]) by {
            assert(paths.deep_view()[i as int] == paths@[i as int]@);
        }
        probes.push(Probe::Exists { path });
        assert(probes.deep_view() =~= prior.push(ProbeView::Exists { path: all[i as int] }));
        assert(exists_probes(all).take(i + 1) =~= exists_probes(all).take(i as int).push(
            ProbeView::Exists { path: all[i as int] },
        ));
        i += 1;
    }
    assert(exists_probes(all).take(n as int) =~= exists_probes(all));
}

} // verus!
