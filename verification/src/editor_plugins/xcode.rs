//! Xcode, which exists on macOS only and has no plugin of its own: what
//! gets installed is a helper application, downloaded as an archive,
//! unpacked, copied into the system's applications and started.
use crate::editor_plugins::install::{
    outcome_view, InstallError, InstallErrorView, Installation, InstallationView, OutcomeView,
};
use crate::editor_plugins::EditorPlugin;
use crate::host::{join, joined, Host, Platform};
use crate::probe::{
    is_success, status_is_success, Answer, AnswerView, Probe, ProbeView, Question, QuestionView,
};
use crate::search::{exists_in, lemma_run_finds_first, Search, SearchView, World};
use vstd::prelude::*;
use vstd::string::*;

verus! {

/// Xcode.
#[derive(Clone, Copy, Debug, PartialEq, Eq)]
pub struct Xcode;

/// Where the helper application ends up.
pub open spec fn app_path_of() -> Seq<char> {
    "/Applications/WakaTime.app"@
}

/// Where the archive that holds the helper application is downloaded from.
pub open spec fn download_url() -> Seq<char> {
    "https://github.com/wakatime/macos-wakatime/releases/latest/download/macos-wakatime.zip"@
}

/// Where the archive is kept inside the temporary directory `tmp`.
pub open spec fn archive_path_of(tmp: Seq<char>) -> Seq<char> {
    joined(Platform::MacOs, tmp, "macos-wakatime.zip"@)
}

/// Where the application lies once the archive is unpacked into `tmp`.
pub open spec fn unpacked_app_of(tmp: Seq<char>) -> Seq<char> {
    joined(Platform::MacOs, tmp, "WakaTime.app"@)
}

/// The installation of the helper application, step by step.
#[derive(Debug, PartialEq, Eq)]
pub enum XcodeInstall {
    /// Is the helper application there already?
    CheckingApp,
    MakingTempDir,
    Fetching { tmp: String },
    ReadingBody { tmp: String },
    WritingArchive { tmp: String, contents: Vec<u8> },
    Unpacking { tmp: String },
    /// Did the archive hold the application?
    CheckingUnpacked { tmp: String },
    Copying { tmp: String },
    Launching,
    Finished(Result<(), InstallError>),
}

pub enum XcodeInstallView {
    CheckingApp,
    MakingTempDir,
    Fetching { tmp: Seq<char> },
    ReadingBody { tmp: Seq<char> },
    WritingArchive { tmp: Seq<char>, contents: Seq<u8> },
    Unpacking { tmp: Seq<char> },
    CheckingUnpacked { tmp: Seq<char> },
    Copying { tmp: Seq<char> },
    Launching,
    Finished(OutcomeView),
}

impl View for XcodeInstall {
    type V = XcodeInstallView;

    open spec fn view(&self) -> XcodeInstallView {
        match self {
            XcodeInstall::CheckingApp => XcodeInstallView::CheckingApp,
            XcodeInstall::MakingTempDir => XcodeInstallView::MakingTempDir,
            XcodeInstall::Fetching { tmp } => XcodeInstallView::Fetching { tmp: tmp@ },
            XcodeInstall::ReadingBody { tmp } => XcodeInstallView::ReadingBody { tmp: tmp@ },
            XcodeInstall::WritingArchive { tmp, contents } => XcodeInstallView::WritingArchive {
                tmp: tmp@,
                contents: contents@,
            },
            XcodeInstall::Unpacking { tmp } => XcodeInstallView::Unpacking { tmp: tmp@ },
            XcodeInstall::CheckingUnpacked { tmp } => XcodeInstallView::CheckingUnpacked {
                tmp: tmp@,
            },
            XcodeInstall::Copying { tmp } => XcodeInstallView::Copying { tmp: tmp@ },
            XcodeInstall::Launching => XcodeInstallView::Launching,
            XcodeInstall::Finished(outcome) => XcodeInstallView::Finished(outcome_view(*outcome)),
        }
    }
}

impl DeepView for XcodeInstall {
    type V = XcodeInstallView;

    open spec fn deep_view(&self) -> XcodeInstallView {
        self.view()
    }
}

/// The outcome that is the failure `error`.
pub open spec fn failed(error: InstallErrorView) -> XcodeInstallView {
    XcodeInstallView::Finished(Err(error))
}

impl XcodeInstallView {
    /// Where the installation starts: it fails at once off macOS.
    pub open spec fn start(platform: Platform) -> XcodeInstallView {
        match platform {
            Platform::MacOs => XcodeInstallView::CheckingApp,
            _ => failed(InstallErrorView::Unsupported),
        }
    }

    /// How the installation ended, once it has.
    pub open spec fn outcome(self) -> Option<OutcomeView> {
        match self {
            XcodeInstallView::Finished(outcome) => Some(outcome),
            _ => None,
        }
    }

    /// What to ask next.
    pub open spec fn pending(self) -> Option<QuestionView> {
        match self {
            XcodeInstallView::CheckingApp => Some(QuestionView::PathExists { path: app_path_of() }),
            XcodeInstallView::MakingTempDir => Some(QuestionView::MakeTempDir),
            XcodeInstallView::Fetching { .. } => Some(QuestionView::Fetch { url: download_url() }),
            XcodeInstallView::ReadingBody { .. } => Some(QuestionView::ReadBody),
            XcodeInstallView::WritingArchive { tmp, contents } => Some(
                QuestionView::WriteFile { path: archive_path_of(tmp), contents },
            ),
            XcodeInstallView::Unpacking { tmp } => Some(
                QuestionView::Run {
                    program: "ditto"@,
                    args: seq!["-xk"@, archive_path_of(tmp), tmp],
                },
            ),
            XcodeInstallView::CheckingUnpacked { tmp } => Some(
                QuestionView::PathExists { path: unpacked_app_of(tmp) },
            ),
            XcodeInstallView::Copying { tmp } => Some(
                QuestionView::Run {
                    program: "cp"@,
                    args: seq!["-R"@, unpacked_app_of(tmp), app_path_of()],
                },
            ),
            XcodeInstallView::Launching => Some(
                QuestionView::Launch { program: "open"@, args: seq![app_path_of()] },
            ),
            XcodeInstallView::Finished(_) => None,
        }
    }

    /// The installation after the answer to its pending question. The one
    /// good answer leads to the next step; every other answer ends the
    /// installation with the error of the step that was under way. Nothing
    /// is tried twice and no step is skipped, except that an application
    /// that is there already ends the installation well at once.
    pub open spec fn advance(self, answer: AnswerView) -> XcodeInstallView {
        match self {
            XcodeInstallView::CheckingApp => match answer {
                AnswerView::Exists(true) => XcodeInstallView::Finished(Ok(())),
                _ => XcodeInstallView::MakingTempDir,
            },
            XcodeInstallView::MakingTempDir => match answer {
                AnswerView::TempDir { path } => XcodeInstallView::Fetching { tmp: path },
                _ => failed(InstallErrorView::TempDir { reason: answer.reason() }),
            },
            XcodeInstallView::Fetching { tmp } => match answer {
                AnswerView::Response { status, status_line } => if is_success(status) {
                    XcodeInstallView::ReadingBody { tmp }
                } else {
                    failed(InstallErrorView::HttpStatus { status_line })
                },
                _ => failed(InstallErrorView::Download { reason: answer.reason() }),
            },
            XcodeInstallView::ReadingBody { tmp } => match answer {
                AnswerView::Body(contents) => XcodeInstallView::WritingArchive { tmp, contents },
                _ => failed(InstallErrorView::ReadBody { reason: answer.reason() }),
            },
            XcodeInstallView::WritingArchive { tmp, .. } => match answer {
                AnswerView::Written => XcodeInstallView::Unpacking { tmp },
                _ => failed(InstallErrorView::WriteArchive { reason: answer.reason() }),
            },
            XcodeInstallView::Unpacking { tmp } => match answer {
                AnswerView::Ran { success, stderr, .. } => if success {
                    XcodeInstallView::CheckingUnpacked { tmp }
                } else {
                    failed(InstallErrorView::Unpack { stderr })
                },
                _ => failed(InstallErrorView::UnpackNotRun { reason: answer.reason() }),
            },
            XcodeInstallView::CheckingUnpacked { tmp } => match answer {
                AnswerView::Exists(true) => XcodeInstallView::Copying { tmp },
                _ => failed(InstallErrorView::MissingApp),
            },
            XcodeInstallView::Copying { .. } => match answer {
                AnswerView::Ran { success, stderr, .. } => if success {
                    XcodeInstallView::Launching
                } else {
                    failed(InstallErrorView::Copy { stderr })
                },
                _ => failed(InstallErrorView::CopyNotRun { reason: answer.reason() }),
            },
            XcodeInstallView::Launching => match answer {
                AnswerView::Launched => XcodeInstallView::Finished(Ok(())),
                _ => failed(InstallErrorView::Launch { reason: answer.reason() }),
            },
            XcodeInstallView::Finished(_) => self,
        }
    }

    /// How many questions may still be asked.
    pub open spec fn remaining(self) -> nat {
        match self {
            XcodeInstallView::CheckingApp => 9,
            XcodeInstallView::MakingTempDir => 8,
            XcodeInstallView::Fetching { .. } => 7,
            XcodeInstallView::ReadingBody { .. } => 6,
            XcodeInstallView::WritingArchive { .. } => 5,
            XcodeInstallView::Unpacking { .. } => 4,
            XcodeInstallView::CheckingUnpacked { .. } => 3,
            XcodeInstallView::Copying { .. } => 2,
            XcodeInstallView::Launching => 1,
            XcodeInstallView::Finished(_) => 0,
        }
    }

    /// The installation driven to its end in `world`.
    pub open spec fn run(self, world: World) -> XcodeInstallView
        decreases self.remaining(),
    {
        if self.outcome() is Some {
            self
        } else {
            self.advance(world(self.pending()->0)).run(world)
        }
    }
}

/// Whether, in `world`, every step from the temporary directory `tmp` on
/// goes well: the download, the unpacking, the copy and the launch.
pub open spec fn steps_go_well(world: World, tmp: Seq<char>) -> bool {
    &&& world(QuestionView::Fetch { url: download_url() }) matches AnswerView::Response {
        status,
        ..
    } && is_success(status)
    &&& world(QuestionView::ReadBody) matches AnswerView::Body(contents) && world(
        QuestionView::WriteFile { path: archive_path_of(tmp), contents },
    ) is Written
    &&& world(XcodeInstallView::Unpacking { tmp }.pending()->0) matches AnswerView::Ran {
        success: true,
        ..
    }
    &&& world(QuestionView::PathExists { path: unpacked_app_of(tmp) }) == AnswerView::Exists(true)
    &&& world(XcodeInstallView::Copying { tmp }.pending()->0) matches AnswerView::Ran {
        success: true,
        ..
    }
    &&& world(XcodeInstallView::Launching.pending()->0) is Launched
}

/// Whether the helper application is there already in `world`.
pub open spec fn app_present(world: World) -> bool {
    world(QuestionView::PathExists { path: app_path_of() }) == AnswerView::Exists(true)
}

/// An installation always comes to an end. It ends well in exactly two
/// cases: the helper application is there already, in which case nothing
/// but that one question is asked; or a temporary directory could be made
/// and every step after it went well. There is no other way to success.
pub proof fn lemma_xcode_install_runs(world: World)
    ensures
        XcodeInstallView::CheckingApp.run(world).outcome() is Some,
        app_present(world) ==> XcodeInstallView::CheckingApp.advance(
            world(XcodeInstallView::CheckingApp.pending()->0),
        ).outcome() == Some(Ok::<(), InstallErrorView>(())),
        XcodeInstallView::CheckingApp.run(world).outcome() == Some(Ok::<(), InstallErrorView>(()))
            <==> app_present(world) || (world(QuestionView::MakeTempDir) matches AnswerView::TempDir {
            path,
        } && steps_go_well(world, path)),
{
    reveal_with_fuel(XcodeInstallView::run, 11);
}

/// Off macOS the installation is over before it asks anything, with
/// `Unsupported`.
pub proof fn lemma_xcode_unsupported(platform: Platform)
    requires
        platform != Platform::MacOs,
    ensures
        XcodeInstallView::start(platform).outcome() == Some(
            Err::<(), InstallErrorView>(InstallErrorView::Unsupported),
        ),
        XcodeInstallView::start(platform).pending() is None,
{
}

/// A copy of a list of bytes.
pub fn clone_bytes(bytes: &Vec<u8>) -> (r: Vec<u8>)
    ensures
        r@ == bytes@,
{
    let mut out: Vec<u8> = Vec::new();
    let mut i: usize = 0;
    while i < bytes.len()
        invariant
            i <= bytes@.len(),
            out@ == bytes@.take(i as int),
        decreases bytes@.len() - i,
    {
        out.push(bytes[i]);
        assert(bytes@.take(i + 1) =~= bytes@.take(i as int).push(bytes@[i as int]));
        i += 1;
    }
    assert(bytes@.take(i as int) =~= bytes@);
    out
}

impl Xcode {
    /// How Xcode is detected on `platform`: by its application bundle, then
    /// by its developer tools. Off macOS nothing is looked for.
    pub open spec fn detection_probes_of(platform: Platform) -> Seq<ProbeView> {
        match platform {
            Platform::MacOs => seq![
                ProbeView::Exists { path: "/Applications/Xcode.app"@ },
                ProbeView::Succeeds { program: "xcrun"@, args: seq!["--version"@] },
            ],
            _ => seq![],
        }
    }

    /// Where the helper application ends up.
    pub fn app_path() -> (r: String)
        ensures
            r@ == app_path_of(),
    {
        String::from_str("/Applications/WakaTime.app")
    }
}

/// Whether Xcode is installed on the machine `world`: the machine runs
/// macOS, and either the application bundle exists or the developer tools
/// answer.
pub open spec fn xcode_is_detected(platform: Platform, world: World) -> bool {
    &&& platform == Platform::MacOs
    &&& {
        ||| exists_in(world, "/Applications/Xcode.app"@)
        ||| world(
            QuestionView::Run { program: "xcrun"@, args: seq!["--version"@] },
        ) matches AnswerView::Ran { success: true, .. }
    }
}

/// The detection of Xcode finds something if and only if Xcode is
/// installed, as `xcode_is_detected` says.
pub proof fn lemma_xcode_detection(platform: Platform, world: World)
    ensures
        SearchView::start(Xcode::detection_probes_of(platform)).run(world).hit is Some
            <==> xcode_is_detected(platform, world),
{
    lemma_run_finds_first(SearchView::start(Xcode::detection_probes_of(platform)), world);
    reveal_with_fuel(crate::search::first_evidence, 3);
}

impl EditorPlugin for Xcode {
    open spec fn name_of(&self) -> Seq<char> {
        "Xcode"@
    }

    open spec fn detection_probes(&self, host: &Host) -> Seq<ProbeView> {
        Self::detection_probes_of(host.platform)
    }

    open spec fn installation(&self, host: &Host) -> InstallationView {
        InstallationView::Xcode(XcodeInstallView::start(host.platform))
    }

    fn name(&self) -> (r: String)
        ensures
            r@ == "Xcode"@,
    {
        String::from_str("Xcode")
    }

    fn is_installed(&self, host: &Host) -> (r: Search)
        ensures
            r@ == SearchView::start(Self::detection_probes_of(host.platform)),
    {
        let mut probes: Vec<Probe> = Vec::new();
        match host.platform {
            Platform::MacOs => {
                probes.push(Probe::Exists { path: String::from_str("/Applications/Xcode.app") });
                let mut args: Vec<String> = Vec::new();
                args.push(String::from_str("--version"));
                assert(args.deep_view() =~= seq!["--version"@]);
                probes.push(Probe::Succeeds { program: String::from_str("xcrun"), args });
            },
            _ => {},
        }
        assert(probes.deep_view() =~= Self::detection_probes_of(host.platform));
        Search::new(probes)
    }

    fn install(&self, host: &Host) -> (r: Installation)
        ensures
            r@ == self.installation(host),
    {
        match host.platform {
            Platform::MacOs => Installation::Xcode(XcodeInstall::CheckingApp),
            _ => Installation::Xcode(XcodeInstall::Finished(Err(InstallError::Unsupported))),
        }
    }
}

/// The archive's place inside `tmp`.
fn archive_path(tmp: &str) -> (r: String)
    ensures
        r@ == archive_path_of(tmp@),
{
    join(Platform::MacOs, tmp, "macos-wakatime.zip")
}

/// The unpacked application's place inside `tmp`.
fn unpacked_app(tmp: &str) -> (r: String)
    ensures
        r@ == unpacked_app_of(tmp@),
{
    join(Platform::MacOs, tmp, "WakaTime.app")
}

impl XcodeInstall {
    /// How the installation ended; `None` while it is still going.
    pub fn outcome(&self) -> (r: Option<Result<(), InstallError>>)
        ensures
            crate::editor_plugins::install::pending_outcome_view(r) == self@.outcome(),
    {
        match self {
            XcodeInstall::Finished(Ok(())) => Some(Ok(())),
            XcodeInstall::Finished(Err(e)) => Some(Err(e.clone_error())),
            _ => None,
        }
    }

    /// What to ask next; `None` once the installation is over.
    pub fn pending(&self) -> (r: Option<Question>)
        ensures
            r.deep_view() == self@.pending(),
    {
        match self {
            XcodeInstall::CheckingApp => Some(Question::PathExists { path: Xcode::app_path() }),
            XcodeInstall::MakingTempDir => Some(Question::MakeTempDir),
            XcodeInstall::Fetching { .. } => Some(
                Question::Fetch {
                    url: String::from_str(
                        "https://github.com/wakatime/macos-wakatime/releases/latest/download/macos-wakatime.zip",
                    ),
                },
            ),
            XcodeInstall::ReadingBody { .. } => Some(Question::ReadBody),
            XcodeInstall::WritingArchive { tmp, contents } => Some(
                Question::WriteFile {
                    path: archive_path(tmp.as_str()),
                    contents: clone_bytes(contents),
                },
            ),
            XcodeInstall::Unpacking { tmp } => {
                let mut args: Vec<String> = Vec::new();
                args.push(String::from_str("-xk"));
                args.push(archive_path(tmp.as_str()));
                args.push(tmp.clone());
                assert(args.deep_view() =~= seq!["-xk"@, archive_path_of(tmp@), tmp@]);
                Some(Question::Run { program: String::from_str("ditto"), args })
            },
            XcodeInstall::CheckingUnpacked { tmp } => Some(
                Question::PathExists { path: unpacked_app(tmp.as_str()) },
            ),
            XcodeInstall::Copying { tmp } => {
                let mut args: Vec<String> = Vec::new();
                args.push(String::from_str("-R"));
                args.push(unpacked_app(tmp.as_str()));
                args.push(Xcode::app_path());
                assert(args.deep_view() =~= seq!["-R"@, unpacked_app_of(tmp@), app_path_of()]);
                Some(Question::Run { program: String::from_str("cp"), args })
            },
            XcodeInstall::Launching => {
                let mut args: Vec<String> = Vec::new();
                args.push(Xcode::app_path());
                assert(args.deep_view() =~= seq![app_path_of()]);
                Some(Question::Launch { program: String::from_str("open"), args })
            },
            XcodeInstall::Finished(_) => None,
        }
    }

    /// Takes the answer to the pending question.
    pub fn advance(self, answer: Answer) -> (r: XcodeInstall)
        ensures
            r@ == self@.advance(answer@),
    {
        match self {
            XcodeInstall::CheckingApp => match answer {
                Answer::Exists(true) => XcodeInstall::Finished(Ok(())),
                _ => XcodeInstall::MakingTempDir,
            },
            XcodeInstall::MakingTempDir => match answer {
                Answer::TempDir { path } => XcodeInstall::Fetching { tmp: path },
                other => XcodeInstall::Finished(
                    Err(InstallError::TempDir { reason: other.reason() }),
                ),
            },
            XcodeInstall::Fetching { tmp } => match answer {
                Answer::Response { status, status_line } => if status_is_success(status) {
                    XcodeInstall::ReadingBody { tmp }
                } else {
                    XcodeInstall::Finished(Err(InstallError::HttpStatus { status_line }))
                },
                other => XcodeInstall::Finished(
                    Err(InstallError::Download { reason: other.reason() }),
                ),
            },
            XcodeInstall::ReadingBody { tmp } => match answer {
                Answer::Body(contents) => XcodeInstall::WritingArchive { tmp, contents },
                other => XcodeInstall::Finished(
                    Err(InstallError::ReadBody { reason: other.reason() }),
                ),
            },
            XcodeInstall::WritingArchive { tmp, .. } => match answer {
                Answer::Written => XcodeInstall::Unpacking { tmp },
                other => XcodeInstall::Finished(
                    Err(InstallError::WriteArchive { reason: other.reason() }),
                ),
            },
            XcodeInstall::Unpacking { tmp } => match answer {
                Answer::Ran { success, stderr, .. } => if success {
                    XcodeInstall::CheckingUnpacked { tmp }
                } else {
                    XcodeInstall::Finished(Err(InstallError::Unpack { stderr }))
                },
                other => XcodeInstall::Finished(
                    Err(InstallError::UnpackNotRun { reason: other.reason() }),
                ),
            },
            XcodeInstall::CheckingUnpacked { tmp } => match answer {
                Answer::Exists(true) => XcodeInstall::Copying { tmp },
                _ => XcodeInstall::Finished(Err(InstallError::MissingApp)),
            },
            XcodeInstall::Copying { .. } => match answer {
                Answer::Ran { success, stderr, .. } => if success {
                    XcodeInstall::Launching
                } else {
                    XcodeInstall::Finished(Err(InstallError::Copy { stderr }))
                },
                other => XcodeInstall::Finished(
                    Err(InstallError::CopyNotRun { reason: other.reason() }),
                ),
            },
            XcodeInstall::Launching => match answer {
                Answer::Launched => XcodeInstall::Finished(Ok(())),
                other => XcodeInstall::Finished(
                    Err(InstallError::Launch { reason: other.reason() }),
                ),
            },
            XcodeInstall::Finished(outcome) => XcodeInstall::Finished(outcome),
        }
    }
}

} // verus!
