//! Zed, which is found by its command-line tool and gets its extension
//! through that tool.
use crate::editor_plugins::install::{
    Addon, CliInstall, CliInstallView, Installation, InstallationView,
};
use crate::editor_plugins::EditorPlugin;
use crate::host::{Host, Platform};
use crate::probe::{Locator, Probe, ProbeView};
use crate::search::{first_evidence, lemma_run_finds_first, Search, SearchView, World};
use vstd::prelude::*;
use vstd::string::*;

verus! {

/// Zed.
#[derive(Clone, Copy, Debug, PartialEq, Eq)]
pub struct Zed;

impl Zed {
    /// How the command-line tool is looked for: on the search path, with
    /// `which`, and on Windows with `where` after it. No other place is
    /// tried.
    pub open spec fn cli_probes_of(platform: Platform) -> Seq<ProbeView> {
        let which = ProbeView::Locate { tool: Locator::Which, command: "zed"@ };
        match platform {
            Platform::Windows => seq![
                which,
                ProbeView::Locate { tool: Locator::Where, command: "zed"@ },
            ],
            _ => seq![which],
        }
    }

    /// The arguments that make the tool install the extension.
    pub open spec fn install_args() -> Seq<Seq<char>> {
        seq!["--install-extension"@, "wakatime"@]
    }

    /// The probes that look for the command-line tool.
    pub fn cli_probes(&self, host: &Host) -> (r: Vec<Probe>)
        ensures
            r.deep_view() == Self::cli_probes_of(host.platform),
    {
        let mut probes: Vec<Probe> = Vec::new();
        probes.push(Probe::Locate { tool: Locator::Which, command: String::from_str("zed") });
        match host.platform {
            Platform::Windows => {
                probes.push(
                    Probe::Locate { tool: Locator::Where, command: String::from_str("zed") },
                );
            },
            _ => {},
        }
        assert(probes.deep_view() =~= Self::cli_probes_of(host.platform));
        probes
    }

    /// A search for the command-line tool.
    pub fn find_cli(&self, host: &Host) -> (r: Search)
        ensures
            r@ == SearchView::start(Self::cli_probes_of(host.platform)),
    {
        Search::new(self.cli_probes(host))
    }
}

/// What the lookup tool `tool` finds for Zed's command on the machine
/// `world`.
pub open spec fn zed_located(tool: Locator, world: World) -> Option<Seq<char>> {
    let probe = ProbeView::Locate { tool, command: "zed"@ };
    probe.evidence(world(probe.question()))
}

/// Whether Zed is installed on the machine `world`: its command-line tool
/// is found on the search path, by `which` or, on Windows, by `where`.
pub open spec fn zed_is_detected(platform: Platform, world: World) -> bool {
    ||| zed_located(Locator::Which, world) is Some
    ||| platform == Platform::Windows && zed_located(Locator::Where, world) is Some
}

/// The detection of Zed, and the search for its tool before an
/// installation, find something if and only if Zed is installed, as
/// `zed_is_detected` says.
pub proof fn lemma_zed_detection(platform: Platform, world: World)
    ensures
        SearchView::start(Zed::cli_probes_of(platform)).run(world).hit is Some <==> zed_is_detected(
            platform,
            world,
        ),
{
    lemma_run_finds_first(SearchView::start(Zed::cli_probes_of(platform)), world);
    reveal_with_fuel(first_evidence, 3);
}

impl EditorPlugin for Zed {
    open spec fn name_of(&self) -> Seq<char> {
        "Zed"@
    }

    /// Zed counts as installed where its command-line tool is found.
    open spec fn detection_probes(&self, host: &Host) -> Seq<ProbeView> {
        Self::cli_probes_of(host.platform)
    }

    open spec fn installation(&self, host: &Host) -> InstallationView {
        InstallationView::Cli(
            CliInstallView::start(
                "Zed"@,
                Addon::Extension,
                Self::install_args(),
                SearchView::start(Self::cli_probes_of(host.platform)),
            ),
        )
    }

    fn name(&self) -> (r: String)
        ensures
            r@ == "Zed"@,
    {
        String::from_str("Zed")
    }

    fn is_installed(&self, host: &Host) -> (r: Search)
        ensures
            r@ == SearchView::start(Self::cli_probes_of(host.platform)),
    {
        self.find_cli(host)
    }

    fn install(&self, host: &Host) -> (r: Installation)
        ensures
            r@ == self.installation(host),
    {
        let mut args: Vec<String> = Vec::new();
        args.push(String::from_str("--install-extension"));
        args.push(String::from_str("wakatime"));
        assert(args.deep_view() =~= Self::install_args());
        Installation::Cli(CliInstall::new("Zed", Addon::Extension, args, self.find_cli(host)))
    }
}

} // verus!
