//! Editors built on VS Code: they keep their extensions under a directory
//! in the user's home and install extensions through their own
//! command-line tool.
use crate::editor_plugins::install::{
    Addon, CliInstall, CliInstallView, Installation, InstallationView,
};
use crate::editor_plugins::EditorPlugin;
use crate::host::{join, joined, Host, Platform};
use crate::probe::{exists_probes, push_exists_probes, Locator, Probe, ProbeView};
use crate::search::{
    exists_in, lemma_search_in_turn, lemma_search_one, Search, SearchView, World,
};
use vstd::prelude::*;
use vstd::string::*;

verus! {

/// One editor of the VS Code family.
#[derive(Clone, Copy, Debug, PartialEq, Eq)]
pub struct VsCodeFamily {
    pub name: &'static str,
    pub config_subdir: &'static str,
    pub cli_command: &'static str,
    pub macos_app_name: &'static str,
    pub windows_app_folder: &'static str,
}

impl VsCodeFamily {
    /// The directory under the user's home that holds the editor's own
    /// files; `None` without a home directory.
    pub open spec fn config_dir_of(&self, host: &Host) -> Option<Seq<char>> {
        match host.home {
            Some(home) => Some(joined(host.platform, home@, self.config_subdir@)),
            None => None,
        }
    }

    /// The directory that holds the editor's extensions.
    pub open spec fn extensions_dir_of(&self, host: &Host) -> Option<Seq<char>> {
        match self.config_dir_of(host) {
            Some(dir) => Some(joined(host.platform, dir, "extensions"@)),
            None => None,
        }
    }

    /// Where the command-line tool is installed at best, in the order in
    /// which the places are tried.
    pub open spec fn cli_paths_of(&self, host: &Host) -> Seq<Seq<char>> {
        match host.platform {
            Platform::MacOs => {
                let bundle = self.macos_app_name@ + ".app/Contents/Resources/app/bin/"@
                    + self.cli_command@;
                seq!["/Applications/"@ + bundle] + match host.home {
                    Some(home) => seq![joined(host.platform, home@, "Applications/"@ + bundle)],
                    None => seq![],
                }
            },
            Platform::Linux => seq![
                "/usr/bin/"@ + self.cli_command@,
                "/usr/local/bin/"@ + self.cli_command@,
            ] + match host.home {
                Some(home) => seq![
                    joined(host.platform, home@, ".local/bin/"@ + self.cli_command@),
                ],
                None => seq![],
            },
            Platform::Windows => {
                let tool = self.windows_app_folder@ + "/bin/"@ + self.cli_command@ + ".cmd"@;
                (match host.local_app_data {
                    Some(dir) => seq![dir@ + "/Programs/"@ + tool],
                    None => seq![],
                }) + match host.program_files {
                    Some(dir) => seq![dir@ + "/"@ + tool],
                    None => seq![],
                }
            },
        }
    }

    /// The lookups on the search path that come before the well-known
    /// places: `which`, and on Windows `where` after it.
    pub open spec fn lookups_of(&self, host: &Host) -> Seq<ProbeView> {
        match host.platform {
            Platform::Windows => seq![
                ProbeView::Locate { tool: Locator::Which, command: self.cli_command@ + ".cmd"@ },
                ProbeView::Locate { tool: Locator::Where, command: self.cli_command@ },
            ],
            _ => seq![ProbeView::Locate { tool: Locator::Which, command: self.cli_command@ }],
        }
    }

    /// How the command-line tool is looked for: on the search path first,
    /// then in the well-known places, in their order.
    pub open spec fn cli_probes_of(&self, host: &Host) -> Seq<ProbeView> {
        self.lookups_of(host) + exists_probes(self.cli_paths_of(host))
    }

    /// How the editor is detected: by the directory that holds its
    /// extensions directory, then by its command-line tool.
    pub open spec fn detection_probes_of(&self, host: &Host) -> Seq<ProbeView> {
        (match self.config_dir_of(host) {
            Some(path) => seq![ProbeView::Exists { path }],
            None => seq![],
        }) + self.cli_probes_of(host)
    }

    /// The arguments that make the tool install the extension.
    pub open spec fn install_args() -> Seq<Seq<char>> {
        seq!["--install-extension"@, "WakaTime.vscode-wakatime"@]
    }

    /// The directory under the user's home that holds the editor's own
    /// files.
    pub fn config_dir(&self, host: &Host) -> (r: Option<String>)
        ensures
            r.deep_view() == self.config_dir_of(host),
    {
        match &host.home {
            Some(home) => Some(join(host.platform, home.as_str(), self.config_subdir)),
            None => None,
        }
    }

    /// The directory that holds the editor's extensions.
    pub fn extensions_dir(&self, host: &Host) -> (r: Option<String>)
        ensures
            r.deep_view() == self.extensions_dir_of(host),
    {
        match self.config_dir(host) {
            Some(dir) => Some(join(host.platform, dir.as_str(), "extensions")),
            None => None,
        }
    }

    /// Where the command-line tool is installed at best, in the order in
    /// which the places are tried.
    pub fn get_cli_paths(&self, host: &Host) -> (r: Vec<String>)
        ensures
            r.deep_view() == self.cli_paths_of(host),
    {
        let mut paths: Vec<String> = Vec::new();
        match host.platform {
            Platform::MacOs => {
                let mut bundle = String::from_str(self.macos_app_name);
                bundle.append(".app/Contents/Resources/app/bin/");
                bundle.append(self.cli_command);
                let mut system = String::from_str("/Applications/");
                system.append(bundle.as_str());
                paths.push(system);
                if let Some(home) = &host.home {
                    let mut rel = String::from_str("Applications/");
                    rel.append(bundle.as_str());
                    paths.push(join(host.platform, home.as_str(), rel.as_str()));
                }
            },
            Platform::Linux => {
                let mut first = String::from_str("/usr/bin/");
                first.append(self.cli_command);
                paths.push(first);
                let mut second = String::from_str("/usr/local/bin/");
                second.append(self.cli_command);
                paths.push(second);
                if let Some(home) = &host.home {
                    let mut rel = String::from_str(".local/bin/");
                    rel.append(self.cli_command);
                    paths.push(join(host.platform, home.as_str(), rel.as_str()));
                }
            },
            Platform::Windows => {
                let mut tool = String::from_str(self.windows_app_folder);
                tool.append("/bin/");
                tool.append(self.cli_command);
                tool.append(".cmd");
                if let Some(dir) = &host.local_app_data {
                    let mut path = String::from_str(dir.as_str());
                    path.append("/Programs/");
                    path.append(tool.as_str());
                    paths.push(path);
                }
                if let Some(dir) = &host.program_files {
                    let mut path = String::from_str(dir.as_str());
                    path.append("/");
                    path.append(tool.as_str());
                    paths.push(path);
                }
            },
        }
        assert(paths.deep_view() =~= self.cli_paths_of(host));
        paths
    }

    /// The probes that look for the command-line tool.
    pub fn cli_probes(&self, host: &Host) -> (r: Vec<Probe>)
        ensures
            r.deep_view() == self.cli_probes_of(host),
    {
        let mut probes: Vec<Probe> = Vec::new();
        match host.platform {
            Platform::Windows => {
                let mut command = String::from_str(self.cli_command);
                command.append(".cmd");
                probes.push(Probe::Locate { tool: Locator::Which, command });
                probes.push(
                    Probe::Locate { tool: Locator::Where, command: String::from_str(self.cli_command) },
                );
            },
            _ => {
                probes.push(
                    Probe::Locate { tool: Locator::Which, command: String::from_str(self.cli_command) },
                );
            },
        }
        assert(probes.deep_view() =~= self.lookups_of(host));
        push_exists_probes(&mut probes, self.get_cli_paths(host));
        probes
    }

    /// A search for the editor's command-line tool.
    pub fn find_cli(&self, host: &Host) -> (r: Search)
        ensures
            r@ == SearchView::start(self.cli_probes_of(host)),
    {
        Search::new(self.cli_probes(host))
    }
}

impl VsCodeFamily {
    /// Whether the editor is installed on the machine `world`: the directory
    /// that holds its extensions directory exists, or its command-line tool
    /// can be found.
    pub open spec fn is_detected(&self, host: &Host, world: World) -> bool {
        ||| self.config_dir_of(host) matches Some(dir) && exists_in(world, dir)
        ||| SearchView::start(self.cli_probes_of(host)).run(world).hit is Some
    }
}

/// The detection of an editor of the VS Code family finds something if and
/// only if the editor is installed, as `is_detected` says.
pub proof fn lemma_vscode_detection(editor: VsCodeFamily, host: Host, world: World)
    ensures
        SearchView::start(editor.detection_probes_of(&host)).run(world).hit is Some
            <==> editor.is_detected(&host, world),
{
    let tail = editor.cli_probes_of(&host);
    match editor.config_dir_of(&host) {
        Some(path) => {
            let probe = ProbeView::Exists { path };
            lemma_search_in_turn(seq![probe], tail, world);
            lemma_search_one(probe, world);
        },
        None => {
            assert(Seq::<ProbeView>::empty() + tail =~= tail);
        },
    }
}

impl EditorPlugin for VsCodeFamily {
    open spec fn name_of(&self) -> Seq<char> {
        self.name@
    }

    open spec fn detection_probes(&self, host: &Host) -> Seq<ProbeView> {
        self.detection_probes_of(host)
    }

    open spec fn installation(&self, host: &Host) -> InstallationView {
        InstallationView::Cli(
            CliInstallView::start(
                self.name@,
                Addon::Extension,
                Self::install_args(),
                SearchView::start(self.cli_probes_of(host)),
            ),
        )
    }

    fn name(&self) -> (r: String)
        ensures
            r@ == self.name@,
    {
        String::from_str(self.name)
    }

    fn is_installed(&self, host: &Host) -> (r: Search)
        ensures
            r@ == SearchView::start(self.detection_probes_of(host)),
    {
        let mut probes: Vec<Probe> = Vec::new();
        if let Some(path) = self.config_dir(host) {
            probes.push(Probe::Exists { path });
        }
        let ghost first = probes.deep_view();
        assert(first =~= match self.config_dir_of(host) {
            Some(path) => seq![ProbeView::Exists { path }],
            None => seq![],
        });
        let mut rest = self.cli_probes(host);
        let ghost tail = rest.deep_view();
        probes.append(&mut rest);
        assert(probes.deep_view() =~= first + tail);
        Search::new(probes)
    }

    fn install(&self, host: &Host) -> (r: Installation)
        ensures
            r@ == self.installation(host),
    {
        let mut args: Vec<String> = Vec::new();
        args.push(String::from_str("--install-extension"));
        args.push(String::from_str("WakaTime.vscode-wakatime"));
        assert(args.deep_view() =~= Self::install_args());
        Installation::Cli(CliInstall::new(self.name, Addon::Extension, args, self.find_cli(host)))
    }
}

} // verus!
