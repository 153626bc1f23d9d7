//! The setup from its first step to its last, as a sequence of decisions:
//! the program around the library does what the setup asks for, reports
//! what happened, and is told what to do next.
use crate::config::{
    base_settings, build_config, config_file_text, config_sections, ends_lines_with_crlf,
    help_comment, is_hostname, key_verdict, settings_of, text_of, uuid_parsed, validate_api_key,
    wants_hostname,
};
use crate::editor_plugins::{all_editors, registry, Editor, EditorPlugin, EditorView};
use crate::host::{join, joined, Host};
use vstd::prelude::*;
use vstd::string::*;

verus! {

/// Where the last words of the setup go.
#[derive(Clone, Copy, Debug, PartialEq, Eq, Structural)]
pub enum Stream {
    /// Standard output: the setup ends as it should, with nothing to do.
    Stdout,
    /// Standard error: the setup was broken off, or failed.
    Stderr,
}

/// What the setup asks the program around it to do next.
#[derive(Clone, Debug, PartialEq, Eq)]
pub enum Action {
    /// Ask for the quick or the advanced setup; the quick one is the
    /// default.
    ChooseMode,
    /// Ask whether branch names should be hidden; the default is no.
    AskHideBranch,
    /// Ask whether the machine's name should be replaced; the default is
    /// no.
    AskAnonymize,
    /// Show `preview`, the text of the configuration file, and ask whether
    /// to write it; the default is yes. `hostname` is the host name that
    /// was generated, if one was.
    ConfirmWrite { preview: String, hostname: Option<String> },
    /// Write the configuration file, replacing what is there. The
    /// contents are the text that was shown.
    WriteConfig { path: String, contents: String },
    /// Find out which editors of the registry are installed.
    Detect,
    /// Offer the installed editors, all of them chosen beforehand.
    ChooseEditors { names: Vec<String> },
    /// Install the plugin into these editors of the registry, one after the
    /// other; a failure is reported and the next editor is tried.
    Install { editors: Vec<usize> },
    /// Send the test heartbeat.
    SendHeartbeat,
    /// Say `message` on `stream`, unless it is empty, and leave with `code`.
    Exit { code: u8, message: String, stream: Stream },
}

/// What the program around the setup reports back.
#[derive(Clone, Debug, PartialEq, Eq)]
pub enum Event {
    ModeChosen { advanced: bool },
    Answered { yes: bool },
    Written,
    /// For each editor of the registry, in its order: whether it is
    /// installed.
    Detected { installed: Vec<bool> },
    /// Which of the editors offered were chosen, by their place in the
    /// list that was offered.
    Selected { picks: Vec<usize> },
    Installed,
    HeartbeatDone,
    /// What was asked for could not be done.
    Failed { reason: String },
}

pub enum ActionView {
    ChooseMode,
    AskHideBranch,
    AskAnonymize,
    ConfirmWrite { preview: Seq<char>, hostname: Option<Seq<char>> },
    WriteConfig { path: Seq<char>, contents: Seq<char> },
    Detect,
    ChooseEditors { names: Seq<Seq<char>> },
    Install { editors: Seq<usize> },
    SendHeartbeat,
    Exit { code: u8, message: Seq<char>, stream: Stream },
}

pub enum EventView {
    ModeChosen { advanced: bool },
    Answered { yes: bool },
    Written,
    Detected { installed: Seq<bool> },
    Selected { picks: Seq<usize> },
    Installed,
    HeartbeatDone,
    Failed { reason: Seq<char> },
}

impl View for Action {
    type V = ActionView;

    open spec fn view(&self) -> ActionView {
        match self {
            Action::ChooseMode => ActionView::ChooseMode,
            Action::AskHideBranch => ActionView::AskHideBranch,
            Action::AskAnonymize => ActionView::AskAnonymize,
            Action::ConfirmWrite { preview, hostname } => ActionView::ConfirmWrite {
                preview: preview@,
                hostname: hostname.deep_view(),
            },
            Action::WriteConfig { path, contents } => ActionView::WriteConfig {
                path: path@,
                contents: contents@,
            },
            Action::Detect => ActionView::Detect,
            Action::ChooseEditors { names } => ActionView::ChooseEditors {
                names: names.deep_view(),
            },
            Action::Install { editors } => ActionView::Install { editors: editors@ },
            Action::SendHeartbeat => ActionView::SendHeartbeat,
            Action::Exit { code, message, stream } => ActionView::Exit {
                code: *code,
                message: message@,
                stream: *stream,
            },
        }
    }
}

impl View for Event {
    type V = EventView;

    open spec fn view(&self) -> EventView {
        match self {
            Event::ModeChosen { advanced } => EventView::ModeChosen { advanced: *advanced },
            Event::Answered { yes } => EventView::Answered { yes: *yes },
            Event::Written => EventView::Written,
            Event::Detected { installed } => EventView::Detected { installed: installed@ },
            Event::Selected { picks } => EventView::Selected { picks: picks@ },
            Event::Installed => EventView::Installed,
            Event::HeartbeatDone => EventView::HeartbeatDone,
            Event::Failed { reason } => EventView::Failed { reason: reason@ },
        }
    }
}

/// Where the setup stands.
#[derive(Clone, Debug, PartialEq, Eq)]
pub enum Stage {
    ChoosingMode,
    AskingHideBranch,
    AskingAnonymize { hide_branch: bool },
    Confirming { contents: String, hostname: Option<String> },
    Writing { path: String, contents: String },
    Detecting,
    Choosing { offered: Vec<usize> },
    Installing { editors: Vec<usize> },
    SendingHeartbeat,
    Finished { code: u8, message: String, stream: Stream },
}

pub enum StageView {
    ChoosingMode,
    AskingHideBranch,
    AskingAnonymize { hide_branch: bool },
    Confirming { contents: Seq<char>, hostname: Option<Seq<char>> },
    Writing { path: Seq<char>, contents: Seq<char> },
    Detecting,
    Choosing { offered: Seq<usize> },
    Installing { editors: Seq<usize> },
    SendingHeartbeat,
    Finished { code: u8, message: Seq<char>, stream: Stream },
}

impl View for Stage {
    type V = StageView;

    open spec fn view(&self) -> StageView {
        match self {
            Stage::ChoosingMode => StageView::ChoosingMode,
            Stage::AskingHideBranch => StageView::AskingHideBranch,
            Stage::AskingAnonymize { hide_branch } => StageView::AskingAnonymize {
                hide_branch: *hide_branch,
            },
            Stage::Confirming { contents, hostname } => StageView::Confirming {
                contents: contents@,
                hostname: hostname.deep_view(),
            },
            Stage::Writing { path, contents } => StageView::Writing {
                path: path@,
                contents: contents@,
            },
            Stage::Detecting => StageView::Detecting,
            Stage::Choosing { offered } => StageView::Choosing { offered: offered@ },
            Stage::Installing { editors } => StageView::Installing { editors: editors@ },
            Stage::SendingHeartbeat => StageView::SendingHeartbeat,
            Stage::Finished { code, message, stream } => StageView::Finished {
                code: *code,
                message: message@,
                stream: *stream,
            },
        }
    }
}

/// A setup under way.
#[derive(Clone, Debug)]
pub struct Setup {
    api_key: String,
    api_url: String,
    host: Host,
    stage: Stage,
}

pub struct SetupView {
    pub api_key: Seq<char>,
    pub api_url: Seq<char>,
    pub host: Host,
    pub stage: StageView,
}

impl View for Setup {
    type V = SetupView;

    closed spec fn view(&self) -> SetupView {
        SetupView {
            api_key: self.api_key@,
            api_url: self.api_url@,
            host: self.host,
            stage: self.stage@,
        }
    }
}

/// The name of an editor of the registry.
pub open spec fn entry_name(editor: EditorView) -> Seq<char> {
    match editor {
        EditorView::VsCode { name, .. } => name,
        EditorView::Xcode => "Xcode"@,
        EditorView::Zed => "Zed"@,
        EditorView::JetBrains { name, .. } => name,
    }
}

/// The places, in rising order and below `limit`, at which `installed`
/// says yes.
pub open spec fn marked(installed: Seq<bool>, limit: nat) -> Seq<usize>
    decreases installed.len(),
{
    if installed.len() == 0 {
        seq![]
    } else {
        let before = marked(installed.drop_last(), limit);
        let at = installed.len() - 1;
        if installed.last() && at < limit && at <= usize::MAX {
            before.push(at as usize)
        } else {
            before
        }
    }
}

/// The editors that `picks` choose among those `offered`, in the order of
/// the picks; a pick that points at nothing chooses nothing.
pub open spec fn picked(offered: Seq<usize>, picks: Seq<usize>) -> Seq<usize>
    decreases picks.len(),
{
    if picks.len() == 0 {
        seq![]
    } else {
        let before = picked(offered, picks.drop_last());
        if picks.last() < offered.len() {
            before.push(offered[picks.last() as int])
        } else {
            before
        }
    }
}

/// The names of the editors of the registry at the places `offered`; a
/// place outside the registry has no name.
pub open spec fn names_of(offered: Seq<usize>) -> Seq<Seq<char>>
    decreases offered.len(),
{
    if offered.len() == 0 {
        seq![]
    } else {
        let before = names_of(offered.drop_last());
        if offered.last() < registry().len() {
            before.push(entry_name(registry()[offered.last() as int]))
        } else {
            before
        }
    }
}

/// The stage that ends the setup with `code` and with `message` on
/// standard error.
pub open spec fn finished(code: u8, message: Seq<char>) -> StageView {
    StageView::Finished { code, message, stream: Stream::Stderr }
}

/// The stage that ends the setup with code 0 and with `message` on
/// standard output.
pub open spec fn informed(message: Seq<char>) -> StageView {
    StageView::Finished { code: 0, message, stream: Stream::Stdout }
}

impl SetupView {
    /// The stage in which the configuration, built from the answers given,
    /// waits to be confirmed. Its contents are the text of the file: the
    /// settings as text, and the closing comment after them. `hostname` is
    /// the host name that was drawn; it counts only where the answers ask
    /// for one.
    pub open spec fn confirming(
        self,
        advanced: bool,
        hide_branch: bool,
        anonymize: bool,
        hostname: Seq<char>,
    ) -> StageView {
        let chosen = if wants_hostname(advanced, anonymize) {
            Some(hostname)
        } else {
            None
        };
        let settings = settings_of(self.api_key, self.api_url, advanced && hide_branch, chosen);
        StageView::Confirming {
            contents: text_of(
                config_sections(settings),
                " = "@,
                ends_lines_with_crlf(self.host.platform),
            ) + help_comment(),
            hostname: chosen,
        }
    }

    /// The stage that follows `self.stage` on the event `event`.
    ///
    /// Every stage waits for one kind of event. `Failed` ends the setup
    /// with code 1 and the reason given, except that a test heartbeat that
    /// fails ends it with code 0: that failure is a warning and no more.
    /// An event of a kind that the stage does not wait for ends the setup
    /// with code 1.
    pub open spec fn next_stage(self, event: EventView, hostname: Seq<char>) -> StageView {
        match self.stage {
            StageView::Finished { .. } => self.stage,
            StageView::SendingHeartbeat => match event {
                EventView::HeartbeatDone => finished(0, ""@),
                EventView::Failed { reason } => finished(0, ""@),
                _ => finished(1, "unexpected event"@),
            },
            _ => match event {
                EventView::Failed { reason } => finished(1, reason),
                _ => self.answered(event, hostname),
            },
        }
    }

    /// The stage that follows on an event that is no failure.
    pub open spec fn answered(self, event: EventView, hostname: Seq<char>) -> StageView {
        match (self.stage, event) {
            (StageView::ChoosingMode, EventView::ModeChosen { advanced }) => if advanced {
                StageView::AskingHideBranch
            } else {
                self.confirming(false, false, false, hostname)
            },
            (StageView::AskingHideBranch, EventView::Answered { yes }) => StageView::AskingAnonymize {
                hide_branch: yes,
            },
            (StageView::AskingAnonymize { hide_branch }, EventView::Answered { yes }) => self.confirming(
                true,
                hide_branch,
                yes,
                hostname,
            ),
            (StageView::Confirming { contents, .. }, EventView::Answered { yes }) => if !yes {
                finished(0, "Understood, exiting now."@)
            } else {
                match self.host.home {
                    Some(home) => StageView::Writing {
                        path: joined(self.host.platform, home@, ".wakatime.cfg"@),
                        contents,
                    },
                    None => finished(1, "Could not find home directory"@),
                }
            },
            (StageView::Writing { .. }, EventView::Written) => StageView::Detecting,
            (StageView::Detecting, EventView::Detected { installed }) => {
                let offered = marked(installed, registry().len());
                if offered.len() == 0 {
                    informed("No supported editors found."@)
                } else {
                    StageView::Choosing { offered }
                }
            },
            (StageView::Choosing { offered }, EventView::Selected { picks }) => {
                let editors = picked(offered, picks);
                if editors.len() == 0 {
                    informed("No editors selected."@)
                } else {
                    StageView::Installing { editors }
                }
            },
            (StageView::Installing { .. }, EventView::Installed) => StageView::SendingHeartbeat,
            _ => finished(1, "unexpected event"@),
        }
    }

    /// What the setup asks for in its stage.
    pub open spec fn pending(self) -> ActionView {
        match self.stage {
            StageView::ChoosingMode => ActionView::ChooseMode,
            StageView::AskingHideBranch => ActionView::AskHideBranch,
            StageView::AskingAnonymize { .. } => ActionView::AskAnonymize,
            StageView::Confirming { contents, hostname } => ActionView::ConfirmWrite {
                preview: contents,
                hostname,
            },
            StageView::Writing { path, contents } => ActionView::WriteConfig { path, contents },
            StageView::Detecting => ActionView::Detect,
            StageView::Choosing { offered } => ActionView::ChooseEditors { names: names_of(offered) },
            StageView::Installing { editors } => ActionView::Install { editors },
            StageView::SendingHeartbeat => ActionView::SendHeartbeat,
            StageView::Finished { code, message, stream } => ActionView::Exit {
                code,
                message,
                stream,
            },
        }
    }

    /// The setup after `event`, where `hostname` is the host name that was
    /// drawn, if one was.
    pub open spec fn after(self, event: EventView, hostname: Seq<char>) -> SetupView {
        SetupView { stage: self.next_stage(event, hostname), ..self }
    }

    /// Whether `after` may follow `self` on `event`: it is `self.after` for
    /// some host name of six upper-case letters.
    pub open spec fn leads_to(self, event: EventView, after: SetupView) -> bool {
        exists|hostname: Seq<char>|
            is_hostname(hostname) && after == #[trigger] self.after(event, hostname)
    }

    /// How far the setup is from its end, in stages.
    pub open spec fn remaining(self) -> nat {
        match self.stage {
            StageView::ChoosingMode => 9,
            StageView::AskingHideBranch => 8,
            StageView::AskingAnonymize { .. } => 7,
            StageView::Confirming { .. } => 6,
            StageView::Writing { .. } => 5,
            StageView::Detecting => 4,
            StageView::Choosing { .. } => 3,
            StageView::Installing { .. } => 2,
            StageView::SendingHeartbeat => 1,
            StageView::Finished { .. } => 0,
        }
    }

    /// Whether the setup has come to its end.
    pub open spec fn is_finished(self) -> bool {
        self.stage is Finished
    }

    /// Where the setup starts: a key that does not pass ends it at once,
    /// with code 1 and what is wrong with the key.
    pub open spec fn start(api_key: Seq<char>, api_url: Seq<char>, host: Host) -> SetupView {
        SetupView {
            api_key,
            api_url,
            host,
            stage: match key_verdict(uuid_parsed(api_key)) {
                Ok(()) => StageView::ChoosingMode,
                Err(message) => finished(1, message),
            },
        }
    }
}

/// A key that does not pass ends the setup before anything is asked,
/// written or looked for: the first thing the setup asks for is to leave
/// with code 1, and it never asks for anything else.
pub proof fn lemma_bad_key_ends_setup(
    api_key: Seq<char>,
    api_url: Seq<char>,
    host: Host,
    event: EventView,
    hostname: Seq<char>,
)
    requires
        key_verdict(uuid_parsed(api_key)) is Err,
    ensures
        SetupView::start(api_key, api_url, host).pending() matches ActionView::Exit { code, .. }
            && code == 1,
        SetupView::start(api_key, api_url, host).next_stage(event, hostname) == SetupView::start(
            api_key,
            api_url,
            host,
        ).stage,
{
}

/// Every event brings the setup nearer to its end, so that it ends after
/// nine events at most, and a setup that has ended stays as it is.
pub proof fn lemma_setup_advances(setup: SetupView, event: EventView, hostname: Seq<char>)
    ensures
        !setup.is_finished() ==> setup.after(event, hostname).remaining() < setup.remaining(),
        setup.is_finished() ==> setup.after(event, hostname) == setup,
        setup.remaining() <= 9,
{
}

/// The setup leaves with code 0 when the writing is declined, when no
/// editor is found, and when none is chosen; only a failure, an event out
/// of turn, a missing home directory or a bad key make it leave with
/// code 1.
pub proof fn lemma_exit_codes(setup: SetupView, event: EventView, hostname: Seq<char>)
    requires
        !setup.is_finished(),
        setup.next_stage(event, hostname) matches StageView::Finished { code, .. } && code != 0,
    ensures
        event is Failed || setup.answered(event, hostname) == finished(1, "unexpected event"@) || (
        setup.stage is Confirming && setup.host.home is None),
{
}

/// Whether `installed` says no everywhere.
pub open spec fn nothing_installed(installed: Seq<bool>) -> bool {
    forall|i: int| 0 <= i < installed.len() ==> !#[trigger] installed[i]
}

/// Where nothing is installed, nothing is marked.
proof fn lemma_nothing_marked(installed: Seq<bool>, limit: nat)
    requires
        nothing_installed(installed),
    ensures
        marked(installed, limit).len() == 0,
    decreases installed.len(),
{
    if installed.len() > 0 {
        let head = installed.drop_last();
        assert forall|i: int| 0 <= i < head.len() implies !#[trigger] head[i] by {
            assert(head[i] == installed[i]);
        }
        lemma_nothing_marked(head, limit);
        assert(!installed[installed.len() - 1]);
    }
}

/// The quick setup as far as the detection of the editors, on a machine
/// with a home directory: the mode is chosen, the writing confirmed, the
/// file written, and the editors reported as `installed`.
pub open spec fn quick_setup(
    api_key: Seq<char>,
    api_url: Seq<char>,
    host: Host,
    installed: Seq<bool>,
    hostname: Seq<char>,
) -> SetupView {
    SetupView::start(api_key, api_url, host).after(
        EventView::ModeChosen { advanced: false },
        hostname,
    ).after(EventView::Answered { yes: true }, hostname).after(EventView::Written, hostname).after(
        EventView::Detected { installed },
        hostname,
    )
}

/// The text that the quick setup writes: the four base settings as text
/// (the header `[settings]` and a line for each, where the key and the URL
/// need no escaping) and the closing comment after them.
pub open spec fn quick_contents(api_key: Seq<char>, api_url: Seq<char>, host: Host) -> Seq<char> {
    text_of(
        config_sections(base_settings(api_key, api_url)),
        " = "@,
        ends_lines_with_crlf(host.platform),
    ) + help_comment()
}

/// A quick setup with a good key on a machine where no editor is found:
/// what it asks to be written, into `.wakatime.cfg` in the home directory,
/// is the configuration with the four base settings and no others,
/// followed by the closing comment, and it ends with code 0 and the words
/// that no editor was found.
pub proof fn lemma_quick_setup_without_editors(
    api_key: Seq<char>,
    api_url: Seq<char>,
    host: Host,
    installed: Seq<bool>,
    hostname: Seq<char>,
)
    requires
        key_verdict(uuid_parsed(api_key)) is Ok,
        host.home is Some,
        nothing_installed(installed),
    ensures
        SetupView::start(api_key, api_url, host).after(
            EventView::ModeChosen { advanced: false },
            hostname,
        ).after(EventView::Answered { yes: true }, hostname).pending() == (ActionView::WriteConfig {
            path: joined(host.platform, host.home->0@, ".wakatime.cfg"@),
            contents: quick_contents(api_key, api_url, host),
        }),
        quick_setup(api_key, api_url, host, installed, hostname).pending() == (ActionView::Exit {
            code: 0,
            message: "No supported editors found."@,
            stream: Stream::Stdout,
        }),
{
    lemma_nothing_marked(installed, registry().len());
    assert(settings_of(api_key, api_url, false, None) =~= base_settings(api_key, api_url));
}

/// What is written is what was shown, and it always ends with the closing
/// comment: whatever the answers of the setup were, the text that waits to
/// be confirmed is the settings as text and the closing comment after
/// them, that text is what is shown, and once the writing is confirmed on
/// a machine with a home directory, that same text is what is written.
pub proof fn lemma_written_as_shown(
    setup: SetupView,
    advanced: bool,
    hide_branch: bool,
    anonymize: bool,
    hostname: Seq<char>,
)
    requires
        setup.host.home is Some,
    ensures
        setup.confirming(advanced, hide_branch, anonymize, hostname) matches StageView::Confirming {
            contents,
            hostname: chosen,
        } && {
            let waiting = SetupView {
                stage: setup.confirming(advanced, hide_branch, anonymize, hostname),
                ..setup
            };
            &&& contents == text_of(
                config_sections(
                    settings_of(setup.api_key, setup.api_url, advanced && hide_branch, chosen),
                ),
                " = "@,
                ends_lines_with_crlf(setup.host.platform),
            ) + help_comment()
            &&& waiting.pending() == (ActionView::ConfirmWrite { preview: contents, hostname: chosen })
            &&& waiting.after(EventView::Answered { yes: true }, hostname).pending() == (
            ActionView::WriteConfig {
                path: joined(setup.host.platform, setup.host.home->0@, ".wakatime.cfg"@),
                contents,
            })
        },
{
}

/// Failures of single installations do not stop the setup. The setup
/// does not even hear of them: once the installations are reported as done
/// it goes on to the test heartbeat, and after that it ends with code 0,
/// whether the heartbeat went through or failed.
pub proof fn lemma_setup_ends_well_after_installing(
    setup: SetupView,
    heartbeat_failed: Option<Seq<char>>,
    hostname: Seq<char>,
)
    requires
        setup.stage is Installing,
    ensures
        setup.after(EventView::Installed, hostname).pending() == ActionView::SendHeartbeat,
        setup.after(EventView::Installed, hostname).after(
            match heartbeat_failed {
                Some(reason) => EventView::Failed { reason },
                None => EventView::HeartbeatDone,
            },
            hostname,
        ).pending() == (ActionView::Exit { code: 0, message: ""@, stream: Stream::Stderr }),
{
}

/// The places at which `installed` says yes, as far as the registry goes.
fn mark(installed: &Vec<bool>, limit: usize) -> (r: Vec<usize>)
    ensures
        r@ == marked(installed@, limit as nat),
{
    let mut out: Vec<usize> = Vec::new();
    let mut i: usize = 0;
    assert(installed@.take(0) =~= Seq::<bool>::empty());
    while i < installed.len()
        invariant
            i <= installed@.len(),
            out@ == marked(installed@.take(i as int), limit as nat),
        decreases installed@.len() - i,
    {
        proof {
            let upto = installed@.take(i + 1);
            assert(upto.drop_last() =~= installed@.take(i as int));
            assert(upto.last() == installed@[i as int]);
        }
        if installed[i] && i < limit {
            out.push(i);
        }
        i += 1;
    }
    assert(installed@.take(i as int) =~= installed@);
    out
}

/// The editors that `picks` choose among those `offered`.
fn pick(offered: &Vec<usize>, picks: &Vec<usize>) -> (r: Vec<usize>)
    ensures
        r@ == picked(offered@, picks@),
{
    let mut out: Vec<usize> = Vec::new();
    let mut i: usize = 0;
    assert(picks@.take(0) =~= Seq::<usize>::empty());
    while i < picks.len()
        invariant
            i <= picks@.len(),
            out@ == picked(offered@, picks@.take(i as int)),
        decreases picks@.len() - i,
    {
        proof {
            let upto = picks@.take(i + 1);
            assert(upto.drop_last() =~= picks@.take(i as int));
            assert(upto.last() == picks@[i as int]);
        }
        if picks[i] < offered.len() {
            out.push(offered[picks[i]]);
        }
        i += 1;
    }
    assert(picks@.take(i as int) =~= picks@);
    out
}

/// The name that `editor` has in the registry is its name.
proof fn lemma_entry_name(editor: Editor)
    ensures
        entry_name(editor@) == editor.name_of(),
{
}

/// The names of the editors of the registry at the places `offered`.
fn names(offered: &Vec<usize>) -> (r: Vec<String>)
    ensures
        r.deep_view() == names_of(offered@),
{
    let editors = all_editors();
    let mut out: Vec<String> = Vec::new();
    let mut i: usize = 0;
    assert(offered@.take(0) =~= Seq::<usize>::empty());
    while i < offered.len()
        invariant
            i <= offered@.len(),
            editors.deep_view() == registry(),
            out.deep_view() == names_of(offered@.take(i as int)),
        decreases offered@.len() - i,
    {
        let ghost before = out.deep_view();
        proof {
            let upto = offered@.take(i + 1);
            assert(upto.drop_last() =~= offered@.take(i as int));
            assert(upto.last() == offered@[i as int]);
        }
        let at: usize = offered[i];
        if at < editors.len() {
            proof {
                lemma_entry_name(editors@[at as int]);
                assert(editors.deep_view()[at as int] == editors@[at as int]@);
            }
            out.push(editors[at].name());
            assert(out.deep_view() =~= before.push(entry_name(registry()[at as int])));
        }
        i += 1;
    }
    assert(offered@.take(i as int) =~= offered@);
    out
}

/// A stage that ends the setup with its last words on standard error.
fn finish(code: u8, message: &str) -> (r: Stage)
    ensures
        r@ == finished(code, message@),
{
    Stage::Finished { code, message: String::from_str(message), stream: Stream::Stderr }
}

/// A stage that ends the setup well, with its last words on standard
/// output.
fn inform(message: &str) -> (r: Stage)
    ensures
        r@ == informed(message@),
{
    Stage::Finished { code: 0, message: String::from_str(message), stream: Stream::Stdout }
}

impl Setup {
    /// Begins a setup with the key and the URL given, on the machine
    /// `host`.
    pub fn start(api_key: &str, api_url: &str, host: Host) -> (r: Setup)
        ensures
            r@ == SetupView::start(api_key@, api_url@, host),
    {
        let stage = match validate_api_key(api_key) {
            Ok(()) => Stage::ChoosingMode,
            Err(message) => Stage::Finished { code: 1, message, stream: Stream::Stderr },
        };
        Setup { api_key: String::from_str(api_key), api_url: String::from_str(api_url), host, stage }
    }

    /// Builds the configuration from the answers given and waits for it to
    /// be confirmed.
    fn confirm(&self, advanced: bool, hide_branch: bool, anonymize: bool) -> (r: Stage)
        ensures
            exists|hostname: Seq<char>|
                is_hostname(hostname) && r@ == #[trigger] self@.confirming(
                    advanced,
                    hide_branch,
                    anonymize,
                    hostname,
                ),
    {
        let (conf, hostname) = build_config(
            self.api_key.as_str(),
            self.api_url.as_str(),
            advanced,
            hide_branch,
            anonymize,
        );
        let contents = config_file_text(&conf, self.host.platform);
        let ghost witness = match hostname.deep_view() {
            Some(name) => name,
            None => Seq::new(6, |i: int| 'A'),
        };
        let stage = Stage::Confirming { contents, hostname };
        proof {
            assert(is_hostname(witness));
            assert(stage@ == self@.confirming(advanced, hide_branch, anonymize, witness));
        }
        stage
    }

    /// What the setup asks for in its stage.
    pub fn pending(&self) -> (r: Action)
        ensures
            r@ == self@.pending(),
    {
        match &self.stage {
            Stage::ChoosingMode => Action::ChooseMode,
            Stage::AskingHideBranch => Action::AskHideBranch,
            Stage::AskingAnonymize { .. } => Action::AskAnonymize,
            Stage::Confirming { contents, hostname } => Action::ConfirmWrite {
                preview: contents.clone(),
                hostname: hostname.clone(),
            },
            Stage::Writing { path, contents } => Action::WriteConfig {
                path: path.clone(),
                contents: contents.clone(),
            },
            Stage::Detecting => Action::Detect,
            Stage::Choosing { offered } => Action::ChooseEditors { names: names(offered) },
            Stage::Installing { editors } => Action::Install { editors: editors.clone() },
            Stage::SendingHeartbeat => Action::SendHeartbeat,
            Stage::Finished { code, message, stream } => Action::Exit {
                code: *code,
                message: message.clone(),
                stream: *stream,
            },
        }
    }

    /// Whether the setup has come to its end.
    pub fn is_finished(&self) -> (r: bool)
        ensures
            r == self@.is_finished(),
    {
        match &self.stage {
            Stage::Finished { .. } => true,
            _ => false,
        }
    }

    /// Takes what the program around the setup reports.
    pub fn advance(self, event: Event) -> (r: Setup)
        ensures
            self@.leads_to(event@, r@),
    {
        let ghost before = self@;
        let ghost mut witness: Seq<char> = Seq::new(6, |i: int| 'A');
        assert(is_hostname(witness));
        let stage = match (&self.stage, event) {
            (Stage::Finished { code, message, stream }, _) => Stage::Finished {
                code: *code,
                message: message.clone(),
                stream: *stream,
            },
            (Stage::SendingHeartbeat, Event::HeartbeatDone) => finish(0, ""),
            (Stage::SendingHeartbeat, Event::Failed { .. }) => finish(0, ""),
            (Stage::SendingHeartbeat, _) => finish(1, "unexpected event"),
            (_, Event::Failed { reason }) => Stage::Finished {
                code: 1,
                message: reason,
                stream: Stream::Stderr,
            },
            (Stage::ChoosingMode, Event::ModeChosen { advanced }) => if advanced {
                Stage::AskingHideBranch
            } else {
                let stage = self.confirm(false, false, false);
                proof {
                    witness = choose|hostname: Seq<char>|
                        is_hostname(hostname) && stage@ == #[trigger] before.confirming(
                            false,
                            false,
                            false,
                            hostname,
                        );
                }
                stage
            },
            (Stage::AskingHideBranch, Event::Answered { yes }) => Stage::AskingAnonymize {
                hide_branch: yes,
            },
            (Stage::AskingAnonymize { hide_branch }, Event::Answered { yes }) => {
                let stage = self.confirm(true, *hide_branch, yes);
                proof {
                    witness = choose|hostname: Seq<char>|
                        is_hostname(hostname) && stage@ == #[trigger] before.confirming(
                            true,
                            *hide_branch,
                            yes,
                            hostname,
                        );
                }
                stage
            },
            (Stage::Confirming { contents, .. }, Event::Answered { yes }) => if !yes {
                finish(0, "Understood, exiting now.")
            } else {
                match &self.host.home {
                    Some(home) => Stage::Writing {
                        path: join(self.host.platform, home.as_str(), ".wakatime.cfg"),
                        contents: contents.clone(),
                    },
                    None => finish(1, "Could not find home directory"),
                }
            },
            (Stage::Writing { .. }, Event::Written) => Stage::Detecting,
            (Stage::Detecting, Event::Detected { installed }) => {
                let editors = all_editors();
                assert(editors.deep_view().len() == registry().len());
                let offered = mark(&installed, editors.len());
                if offered.len() == 0 {
                    inform("No supported editors found.")
                } else {
                    Stage::Choosing { offered }
                }
            },
            (Stage::Choosing { offered }, Event::Selected { picks }) => {
                let editors = pick(offered, &picks);
                if editors.len() == 0 {
                    inform("No editors selected.")
                } else {
                    Stage::Installing { editors }
                }
            },
            (Stage::Installing { .. }, Event::Installed) => Stage::SendingHeartbeat,
            _ => finish(1, "unexpected event"),
        };
        assert(stage@ == before.next_stage(event@, witness));
        let after = Setup { api_key: self.api_key, api_url: self.api_url, host: self.host, stage };
        assert(after@ == before.after(event@, witness));
        after
    }
}

} // verus!
