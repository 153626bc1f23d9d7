//! Why an installation failed, and the installation that goes through an
//! editor's own command-line tool.
use crate::editor_plugins::xcode::{XcodeInstall, XcodeInstallView};
use crate::probe::{clone_strings, Answer, AnswerView, Question, QuestionView};
use crate::search::{Search, SearchView, World};
use vstd::prelude::*;
use vstd::string::*;

verus! {

/// What an editor calls the thing that gets installed into it.
#[derive(Clone, Copy, Debug, PartialEq, Eq, Structural)]
pub enum Addon {
    Extension,
    Plugin,
}

/// Why an installation failed. Each step that can fail has a variant of its
/// own, and `message` gives each a text of its own.
#[derive(Clone, Debug, PartialEq, Eq)]
pub enum InstallError {
    /// The editor's command-line tool is nowhere to be found.
    CliNotFound { editor: String },
    /// The tool ran and exited with a status other than zero.
    CliFailed { editor: String, what: Addon },
    /// The tool could not be run at all.
    CliNotRun { reason: String },
    /// The editor does not exist on this platform.
    Unsupported,
    TempDir { reason: String },
    Download { reason: String },
    /// The download was answered with a status outside 200..=299.
    HttpStatus { status_line: String },
    ReadBody { reason: String },
    WriteArchive { reason: String },
    /// The extraction tool could not be run.
    UnpackNotRun { reason: String },
    /// The extraction tool exited with a status other than zero.
    Unpack { stderr: String },
    /// The archive did not hold the application.
    MissingApp,
    /// The copy tool could not be run.
    CopyNotRun { reason: String },
    /// The copy tool exited with a status other than zero.
    Copy { stderr: String },
    Launch { reason: String },
}

pub enum InstallErrorView {
    CliNotFound { editor: Seq<char> },
    CliFailed { editor: Seq<char>, what: Addon },
    CliNotRun { reason: Seq<char> },
    Unsupported,
    TempDir { reason: Seq<char> },
    Download { reason: Seq<char> },
    HttpStatus { status_line: Seq<char> },
    ReadBody { reason: Seq<char> },
    WriteArchive { reason: Seq<char> },
    UnpackNotRun { reason: Seq<char> },
    Unpack { stderr: Seq<char> },
    MissingApp,
    CopyNotRun { reason: Seq<char> },
    Copy { stderr: Seq<char> },
    Launch { reason: Seq<char> },
}

impl View for InstallError {
    type V = InstallErrorView;

    open spec fn view(&self) -> InstallErrorView {
        match self {
            InstallError::CliNotFound { editor } => InstallErrorView::CliNotFound { editor: editor@ },
            InstallError::CliFailed { editor, what } => InstallErrorView::CliFailed {
                editor: editor@,
                what: *what,
            },
            InstallError::CliNotRun { reason } => InstallErrorView::CliNotRun { reason: reason@ },
            InstallError::Unsupported => InstallErrorView::Unsupported,
            InstallError::TempDir { reason } => InstallErrorView::TempDir { reason: reason@ },
            InstallError::Download { reason } => InstallErrorView::Download { reason: reason@ },
            InstallError::HttpStatus { status_line } => InstallErrorView::HttpStatus {
                status_line: status_line@,
            },
            InstallError::ReadBody { reason } => InstallErrorView::ReadBody { reason: reason@ },
            InstallError::WriteArchive { reason } => InstallErrorView::WriteArchive {
                reason: reason@,
            },
            InstallError::UnpackNotRun { reason } => InstallErrorView::UnpackNotRun {
                reason: reason@,
            },
            InstallError::Unpack { stderr } => InstallErrorView::Unpack { stderr: stderr@ },
            InstallError::MissingApp => InstallErrorView::MissingApp,
            InstallError::CopyNotRun { reason } => InstallErrorView::CopyNotRun { reason: reason@ },
            InstallError::Copy { stderr } => InstallErrorView::Copy { stderr: stderr@ },
            InstallError::Launch { reason } => InstallErrorView::Launch { reason: reason@ },
        }
    }
}

impl DeepView for InstallError {
    type V = InstallErrorView;

    open spec fn deep_view(&self) -> InstallErrorView {
        self.view()
    }
}

impl InstallErrorView {
    /// The reason, for a person to read.
    pub open spec fn message(self) -> Seq<char> {
        match self {
            InstallErrorView::CliNotFound { editor } => editor + " CLI not found"@,
            InstallErrorView::CliFailed { editor, what } => match what {
                Addon::Extension => "Failed to install WakaTime extension for "@ + editor,
                Addon::Plugin => "Failed to install WakaTime plugin for "@ + editor,
            },
            InstallErrorView::CliNotRun { reason } => reason,
            InstallErrorView::Unsupported => "Xcode is only supported on macOS"@,
            InstallErrorView::TempDir { reason } => "Failed to create temp directory: "@ + reason,
            InstallErrorView::Download { reason } => "Failed to download WakaTime for Mac: "@
                + reason,
            InstallErrorView::HttpStatus { status_line } => "Failed to download WakaTime for Mac (HTTP "@
                + status_line + ")"@,
            InstallErrorView::ReadBody { reason } => "Failed to read download: "@ + reason,
            InstallErrorView::WriteArchive { reason } => "Failed to write zip file: "@ + reason,
            InstallErrorView::UnpackNotRun { reason } => "Failed to unzip: "@ + reason,
            InstallErrorView::Unpack { stderr } => "Failed to unzip WakaTime.app: "@ + stderr,
            InstallErrorView::MissingApp => "WakaTime.app not found in downloaded archive"@,
            InstallErrorView::CopyNotRun { reason } => "Failed to move WakaTime.app to /Applications: "@
                + reason,
            InstallErrorView::Copy { stderr } => "Failed to copy WakaTime.app to /Applications: "@
                + stderr,
            InstallErrorView::Launch { reason } => "Failed to launch WakaTime.app: "@ + reason,
        }
    }
}

/// `prefix` followed by `rest`.
pub fn prefixed(prefix: &str, rest: &str) -> (r: String)
    ensures
        r@ == prefix@ + rest@,
{
    let mut out = String::from_str(prefix);
    out.append(rest);
    out
}

impl InstallError {
    /// The reason, for a person to read.
    pub fn message(&self) -> (r: String)
        ensures
            r@ == self@.message(),
    {
        match self {
            InstallError::CliNotFound { editor } => prefixed(editor.as_str(), " CLI not found"),
            InstallError::CliFailed { editor, what } => match what {
                Addon::Extension => prefixed(
                    "Failed to install WakaTime extension for ",
                    editor.as_str(),
                ),
                Addon::Plugin => prefixed("Failed to install WakaTime plugin for ", editor.as_str()),
            },
            InstallError::CliNotRun { reason } => reason.clone(),
            InstallError::Unsupported => String::from_str("Xcode is only supported on macOS"),
            InstallError::TempDir { reason } => prefixed(
                "Failed to create temp directory: ",
                reason.as_str(),
            ),
            InstallError::Download { reason } => prefixed(
                "Failed to download WakaTime for Mac: ",
                reason.as_str(),
            ),
            InstallError::HttpStatus { status_line } => {
                let mut out = prefixed(
                    "Failed to download WakaTime for Mac (HTTP ",
                    status_line.as_str(),
                );
                out.append(")");
                out
            },
            InstallError::ReadBody { reason } => prefixed("Failed to read download: ", reason.as_str()),
            InstallError::WriteArchive { reason } => prefixed(
                "Failed to write zip file: ",
                reason.as_str(),
            ),
            InstallError::UnpackNotRun { reason } => prefixed("Failed to unzip: ", reason.as_str()),
            InstallError::Unpack { stderr } => prefixed(
                "Failed to unzip WakaTime.app: ",
                stderr.as_str(),
            ),
            InstallError::MissingApp => String::from_str(
                "WakaTime.app not found in downloaded archive",
            ),
            InstallError::CopyNotRun { reason } => prefixed(
                "Failed to move WakaTime.app to /Applications: ",
                reason.as_str(),
            ),
            InstallError::Copy { stderr } => prefixed(
                "Failed to copy WakaTime.app to /Applications: ",
                stderr.as_str(),
            ),
            InstallError::Launch { reason } => prefixed(
                "Failed to launch WakaTime.app: ",
                reason.as_str(),
            ),
        }
    }
}

/// How an installation ended, over views.
pub type OutcomeView = Result<(), InstallErrorView>;

/// The view of an outcome.
pub open spec fn outcome_view(outcome: Result<(), InstallError>) -> OutcomeView {
    match outcome {
        Ok(()) => Ok(()),
        Err(e) => Err(e@),
    }
}

/// The view of an outcome that may not be there yet.
pub open spec fn pending_outcome_view(outcome: Option<Result<(), InstallError>>) -> Option<
    OutcomeView,
> {
    match outcome {
        Some(o) => Some(outcome_view(o)),
        None => None,
    }
}

/// An installation through an editor's command-line tool: find the tool,
/// then run it with the editor's arguments.
#[derive(Clone, Debug, PartialEq, Eq)]
pub struct CliInstall {
    editor: String,
    what: Addon,
    args: Vec<String>,
    search: Search,
    result: Option<Result<(), InstallError>>,
}

pub struct CliInstallView {
    pub editor: Seq<char>,
    pub what: Addon,
    pub args: Seq<Seq<char>>,
    pub search: SearchView,
    pub result: Option<OutcomeView>,
}

impl View for CliInstall {
    type V = CliInstallView;

    closed spec fn view(&self) -> CliInstallView {
        CliInstallView {
            editor: self.editor@,
            what: self.what,
            args: self.args.deep_view(),
            search: self.search@,
            result: pending_outcome_view(self.result),
        }
    }
}

impl DeepView for CliInstall {
    type V = CliInstallView;

    open spec fn deep_view(&self) -> CliInstallView {
        self.view()
    }
}

impl CliInstallView {
    /// An installation that has asked nothing yet.
    pub open spec fn start(
        editor: Seq<char>,
        what: Addon,
        args: Seq<Seq<char>>,
        search: SearchView,
    ) -> CliInstallView {
        CliInstallView { editor, what, args, search, result: None }
    }

    /// How the installation ended, once it has: with the result of running
    /// the tool, or with `CliNotFound` when the search found no tool.
    pub open spec fn outcome(self) -> Option<OutcomeView> {
        if self.result is Some {
            self.result
        } else if self.search.finished() && self.search.hit is None {
            Some(Err(InstallErrorView::CliNotFound { editor: self.editor }))
        } else {
            None
        }
    }

    /// What to ask next: the search's question while the tool is being
    /// looked for, then the run of the tool that was found.
    pub open spec fn pending(self) -> Option<QuestionView> {
        if self.outcome() is Some {
            None
        } else if !self.search.finished() {
            self.search.pending()
        } else {
            Some(QuestionView::Execute { program: self.search.hit->0, args: self.args })
        }
    }

    /// How the run of the tool ended.
    pub open spec fn judge(self, answer: AnswerView) -> OutcomeView {
        match answer {
            AnswerView::Ran { success, .. } => if success {
                Ok(())
            } else {
                Err(InstallErrorView::CliFailed { editor: self.editor, what: self.what })
            },
            _ => Err(InstallErrorView::CliNotRun { reason: answer.reason() }),
        }
    }

    /// The installation after the answer to its pending question.
    pub open spec fn advance(self, answer: AnswerView) -> CliInstallView {
        if self.outcome() is Some {
            self
        } else if !self.search.finished() {
            CliInstallView { search: self.search.advance(answer), ..self }
        } else {
            CliInstallView { result: Some(self.judge(answer)), ..self }
        }
    }

    /// How many questions may still be asked.
    pub open spec fn remaining(self) -> nat {
        if self.outcome() is Some {
            0
        } else {
            self.search.remaining() + 1
        }
    }

    /// The installation driven to its end in `world`.
    pub open spec fn run(self, world: World) -> CliInstallView
        decreases self.remaining(),
    {
        if self.outcome() is Some {
            self
        } else {
            self.advance(world(self.pending()->0)).run(world)
        }
    }
}

impl CliInstall {
    /// An installation for `editor` that looks for the tool with `search`
    /// and runs it with `args`.
    pub fn new(editor: &str, what: Addon, args: Vec<String>, search: Search) -> (r: CliInstall)
        ensures
            r@ == CliInstallView::start(editor@, what, args.deep_view(), search@),
    {
        CliInstall { editor: String::from_str(editor), what, args, search, result: None }
    }

    /// How the installation ended; `None` while it is still going.
    pub fn outcome(&self) -> (r: Option<Result<(), InstallError>>)
        ensures
            pending_outcome_view(r) == self@.outcome(),
    {
        match &self.result {
            Some(Ok(())) => Some(Ok(())),
            Some(Err(e)) => Some(Err(e.clone_error())),
            None => match self.search.outcome() {
                Some(None) => Some(Err(InstallError::CliNotFound { editor: self.editor.clone() })),
                _ => None,
            },
        }
    }

    /// What to ask next; `None` once the installation is over.
    pub fn pending(&self) -> (r: Option<Question>)
        ensures
            r.deep_view() == self@.pending(),
    {
        if self.result.is_some() {
            return None;
        }
        match self.search.outcome() {
            None => self.search.pending(),
            Some(None) => None,
            Some(Some(cli)) => Some(
                Question::Execute { program: cli, args: clone_strings(&self.args) },
            ),
        }
    }

    /// Takes the answer to the pending question.
    pub fn advance(self, answer: Answer) -> (r: CliInstall)
        ensures
            r@ == self@.advance(answer@),
    {
        if self.result.is_some() {
            return self;
        }
        match self.search.outcome() {
            None => CliInstall {
                editor: self.editor,
                what: self.what,
                args: self.args,
                search: self.search.advance(&answer),
                result: None,
            },
            Some(None) => self,
            Some(Some(_)) => {
                let verdict = match answer {
                    Answer::Ran { success, .. } => if success {
                        Ok(())
                    } else {
                        Err(InstallError::CliFailed { editor: self.editor.clone(), what: self.what })
                    },
                    other => Err(InstallError::CliNotRun { reason: other.reason() }),
                };
                CliInstall {
                    editor: self.editor,
                    what: self.what,
                    args: self.args,
                    search: self.search,
                    result: Some(verdict),
                }
            },
        }
    }
}

impl InstallError {
    /// A copy of this error.
    pub fn clone_error(&self) -> (r: InstallError)
        ensures
            r@ == self@,
    {
        match self {
            InstallError::CliNotFound { editor } => InstallError::CliNotFound {
                editor: editor.clone(),
            },
            InstallError::CliFailed { editor, what } => InstallError::CliFailed {
                editor: editor.clone(),
                what: *what,
            },
            InstallError::CliNotRun { reason } => InstallError::CliNotRun { reason: reason.clone() },
            InstallError::Unsupported => InstallError::Unsupported,
            InstallError::TempDir { reason } => InstallError::TempDir { reason: reason.clone() },
            InstallError::Download { reason } => InstallError::Download { reason: reason.clone() },
            InstallError::HttpStatus { status_line } => InstallError::HttpStatus {
                status_line: status_line.clone(),
            },
            InstallError::ReadBody { reason } => InstallError::ReadBody { reason: reason.clone() },
            InstallError::WriteArchive { reason } => InstallError::WriteArchive {
                reason: reason.clone(),
            },
            InstallError::UnpackNotRun { reason } => InstallError::UnpackNotRun {
                reason: reason.clone(),
            },
            InstallError::Unpack { stderr } => InstallError::Unpack { stderr: stderr.clone() },
            InstallError::MissingApp => InstallError::MissingApp,
            InstallError::CopyNotRun { reason } => InstallError::CopyNotRun {
                reason: reason.clone(),
            },
            InstallError::Copy { stderr } => InstallError::Copy { stderr: stderr.clone() },
            InstallError::Launch { reason } => InstallError::Launch { reason: reason.clone() },
        }
    }
}

impl CliInstallView {
    /// The outcome of an installation whose tool was not found.
    pub open spec fn not_found(self) -> OutcomeView {
        Err(InstallErrorView::CliNotFound { editor: self.editor })
    }

    /// How the installation ends in `world` when it starts with the probe
    /// at `from`: with the result of running the first tool that a probe
    /// finds, or with `CliNotFound` when none finds one.
    pub open spec fn expected(self, world: World, from: nat) -> OutcomeView {
        match crate::search::first_evidence(self.search.probes, world, from) {
            Some(cli) => self.judge(
                world(QuestionView::Execute { program: cli, args: self.args }),
            ),
            None => self.not_found(),
        }
    }
}

/// An installation whose tool is nowhere to be found ends with
/// `CliNotFound`, and the text of that error names the editor and says
/// "CLI not found".
pub proof fn lemma_cli_not_found(install: CliInstallView, world: World)
    requires
        install.result is None,
        install.search.hit is None,
        forall|i: int|
            install.search.position <= i < install.search.probes.len() ==> (
            #[trigger] install.search.probes[i]).evidence(
                world(install.search.probes[i].question()),
            ) is None,
    ensures
        install.run(world).outcome() == Some(install.not_found()),
        install.not_found()->Err_0.message() == install.editor + " CLI not found"@,
    decreases install.remaining(),
{
    if install.outcome() is None {
        let next = install.advance(world(install.pending()->0));
        let probe = install.search.probes[install.search.position as int];
        assert(probe.evidence(world(probe.question())) is None);
        lemma_cli_not_found(next, world);
    }
}

/// An installation driven to its end has an outcome: the result of running
/// the first tool that the search finds, or `CliNotFound` when it finds
/// none.
pub proof fn lemma_cli_install_runs(install: CliInstallView, world: World)
    requires
        install.result is None,
        install.search.hit is None,
    ensures
        install.run(world).outcome() == Some(install.expected(world, install.search.position)),
    decreases install.remaining(),
{
    if install.outcome() is None {
        let next = install.advance(world(install.pending()->0));
        if next.search.hit is None {
            lemma_cli_install_runs(next, world);
        } else {
            let done = next.advance(world(next.pending()->0));
            assert(done.outcome() is Some);
            assert(next.run(world) == done.run(world));
        }
    }
}

/// An installation under way, whatever the editor: one value that says what
/// it needs next and takes the answer.
#[derive(Debug, PartialEq, Eq)]
pub enum Installation {
    Cli(CliInstall),
    Xcode(XcodeInstall),
}

pub enum InstallationView {
    Cli(CliInstallView),
    Xcode(XcodeInstallView),
}

impl View for Installation {
    type V = InstallationView;

    open spec fn view(&self) -> InstallationView {
        match self {
            Installation::Cli(install) => InstallationView::Cli(install@),
            Installation::Xcode(install) => InstallationView::Xcode(install@),
        }
    }
}

impl DeepView for Installation {
    type V = InstallationView;

    open spec fn deep_view(&self) -> InstallationView {
        self.view()
    }
}

impl InstallationView {
    /// How the installation ended, once it has.
    pub open spec fn outcome(self) -> Option<OutcomeView> {
        match self {
            InstallationView::Cli(install) => install.outcome(),
            InstallationView::Xcode(install) => install.outcome(),
        }
    }

    /// What to ask next; `None` exactly when there is an outcome.
    pub open spec fn pending(self) -> Option<QuestionView> {
        match self {
            InstallationView::Cli(install) => install.pending(),
            InstallationView::Xcode(install) => install.pending(),
        }
    }

    /// The installation after the answer to its pending question.
    pub open spec fn advance(self, answer: AnswerView) -> InstallationView {
        match self {
            InstallationView::Cli(install) => InstallationView::Cli(install.advance(answer)),
            InstallationView::Xcode(install) => InstallationView::Xcode(install.advance(answer)),
        }
    }

    /// How many questions may still be asked.
    pub open spec fn remaining(self) -> nat {
        match self {
            InstallationView::Cli(install) => install.remaining(),
            InstallationView::Xcode(install) => install.remaining(),
        }
    }

    /// The installation driven to its end in `world`.
    pub open spec fn run(self, world: World) -> InstallationView
        decreases self.remaining(),
    {
        if self.outcome() is Some {
            self
        } else {
            self.advance(world(self.pending()->0)).run(world)
        }
    }
}

/// Every installation comes to an end, whatever the machine answers: each
/// answer leaves fewer questions to ask, there is a question as long as
/// there is no outcome, and driving the installation yields an outcome.
pub proof fn lemma_installation_ends(install: InstallationView, world: World)
    ensures
        install.pending() is None <==> install.outcome() is Some,
        install.outcome() is None ==> forall|answer: AnswerView|
            (#[trigger] install.advance(answer)).remaining() < install.remaining(),
        install.run(world).outcome() is Some,
    decreases install.remaining(),
{
    if install.outcome() is None {
        lemma_installation_ends(install.advance(world(install.pending()->0)), world);
    }
}

impl Installation {
    /// How the installation ended; `None` while it is still going.
    pub fn outcome(&self) -> (r: Option<Result<(), InstallError>>)
        ensures
            pending_outcome_view(r) == self@.outcome(),
    {
        match self {
            Installation::Cli(install) => install.outcome(),
            Installation::Xcode(install) => install.outcome(),
        }
    }

    /// What to ask next; `None` once the installation is over.
    pub fn pending(&self) -> (r: Option<Question>)
        ensures
            r.deep_view() == self@.pending(),
    {
        match self {
            Installation::Cli(install) => install.pending(),
            Installation::Xcode(install) => install.pending(),
        }
    }

    /// Takes the answer to the pending question.
    pub fn advance(self, answer: Answer) -> (r: Installation)
        ensures
            r@ == self@.advance(answer@),
    {
        match self {
            Installation::Cli(install) => Installation::Cli(install.advance(answer)),
            Installation::Xcode(install) => Installation::Xcode(install.advance(answer)),
        }
    }
}

} // verus!
