//! The JetBrains IDEs: each keeps its settings in a directory named after
//! its product code, and installs plugins through its own command-line
//! tool.
use crate::editor_plugins::install::{
    Addon, CliInstall, CliInstallView, Installation, InstallationView,
};
use crate::editor_plugins::EditorPlugin;
use crate::host::{join, joined, Host, Platform};
use crate::probe::{
    dirs_matching, exists_probes, matching_dirs, push_exists_probes, Locator, Probe, ProbeView,
};
use crate::probe::{AnswerView, QuestionView};
use crate::search::{lemma_search_in_turn, lemma_search_one, Search, SearchView, World};
use vstd::prelude::*;
use vstd::string::*;

verus! {

/// One JetBrains IDE. An IDE that ships in several editions has a product
/// code and an application name for each.
#[derive(Clone, Copy, Debug, PartialEq, Eq)]
pub struct JetBrainsFamily {
    pub name: &'static str,
    pub product_codes: &'static [&'static str],
    pub cli_command: &'static str,
    pub macos_app_names: &'static [&'static str],
}

/// Where an application named `app` keeps the tool `cli` on macOS: in the
/// system's applications first, then in the user's.
pub open spec fn mac_tool_paths(app: Seq<char>, cli: Seq<char>, home: Option<Seq<char>>) -> Seq<
    Seq<char>,
> {
    let bundle = app + ".app/Contents/MacOS/"@ + cli;
    seq!["/Applications/"@ + bundle] + match home {
        Some(home) => seq![joined(Platform::MacOs, home, "Applications/"@ + bundle)],
        None => seq![],
    }
}

/// The paths of `mac_tool_paths` for each of `apps`, in their order.
pub open spec fn mac_paths(apps: Seq<Seq<char>>, cli: Seq<char>, home: Option<Seq<char>>) -> Seq<
    Seq<char>,
>
    decreases apps.len(),
{
    if apps.len() == 0 {
        seq![]
    } else {
        mac_paths(apps.drop_last(), cli, home) + mac_tool_paths(apps.last(), cli, home)
    }
}

/// Where the applications named `apps` keep the tool `cli` under
/// `%ProgramFiles%`, in the order of `apps`.
pub open spec fn program_files_paths(apps: Seq<Seq<char>>, cli: Seq<char>, dir: Seq<char>) -> Seq<
    Seq<char>,
> {
    Seq::new(apps.len(), |i: int| dir + "/JetBrains/"@ + apps[i] + "/bin/"@ + cli + ".bat"@)
}

/// The strings of `list`, owned.
pub fn owned_strings(list: &[&'static str]) -> (r: Vec<String>)
    ensures
        r.deep_view() == list.deep_view(),
{
    let mut out: Vec<String> = Vec::new();
    let mut i: usize = 0;
    while i < list.len()
        invariant
            i <= list@.len(),
            out@.len() == i,
            forall|j: int| 0 <= j < i ==> out@[j]@ == list@[j]@,
        decreases list@.len() - i,
    {
        out.push(String::from_str(list[i]));
        i += 1;
    }
    assert(out.deep_view() =~= list.deep_view());
    out
}

impl JetBrainsFamily {
    /// The directory under which the IDEs keep their settings; `None` where
    /// the environment does not name its parent.
    pub open spec fn settings_root_of(host: &Host) -> Option<Seq<char>> {
        match host.platform {
            Platform::MacOs => match host.home {
                Some(home) => Some(
                    joined(host.platform, home@, "Library/Application Support/JetBrains"@),
                ),
                None => None,
            },
            Platform::Linux => match host.home {
                Some(home) => Some(joined(host.platform, home@, ".config/JetBrains"@)),
                None => None,
            },
            Platform::Windows => match host.app_data {
                Some(dir) => Some(joined(host.platform, dir@, "JetBrains"@)),
                None => None,
            },
        }
    }

    /// The settings directories of this IDE among `entries`, the names
    /// that the settings root holds.
    pub open spec fn config_dirs_of(&self, host: &Host, entries: Seq<Seq<char>>) -> Seq<Seq<char>> {
        match Self::settings_root_of(host) {
            Some(root) => matching_dirs(
                host.platform,
                root,
                self.product_codes.deep_view(),
                entries,
            ),
            None => seq![],
        }
    }

    /// Where the command-line tool is installed at best, in the order in
    /// which the places are tried.
    pub open spec fn cli_paths_of(&self, host: &Host) -> Seq<Seq<char>> {
        let cli = self.cli_command@;
        match host.platform {
            Platform::MacOs => mac_paths(
                self.macos_app_names.deep_view(),
                cli,
                host.home.deep_view(),
            ),
            Platform::Linux => (match host.home {
                Some(home) => seq![
                    joined(
                        host.platform,
                        home@,
                        ".local/share/JetBrains/Toolbox/apps/"@ + cli + "/bin/"@ + cli,
                    ),
                ],
                None => seq![],
            }) + seq![
                "/opt/"@ + cli + "/bin/"@ + cli,
                "/usr/local/bin/"@ + cli,
                "/snap/bin/"@ + cli,
            ],
            Platform::Windows => (match host.local_app_data {
                Some(dir) => seq![
                    dir@ + "/JetBrains/Toolbox/apps/"@ + cli + "/bin/"@ + cli + ".cmd"@,
                ],
                None => seq![],
            }) + match host.program_files {
                Some(dir) => program_files_paths(self.macos_app_names.deep_view(), cli, dir@),
                None => seq![],
            },
        }
    }

    /// The lookups on the search path that come before the well-known
    /// places: `which`, and on Windows `where` after it.
    pub open spec fn lookups_of(&self, host: &Host) -> Seq<ProbeView> {
        let which = ProbeView::Locate { tool: Locator::Which, command: self.cli_command@ };
        match host.platform {
            Platform::Windows => seq![
                which,
                ProbeView::Locate { tool: Locator::Where, command: self.cli_command@ },
            ],
            _ => seq![which],
        }
    }

    /// How the command-line tool is looked for: on the search path first,
    /// then in the well-known places, in their order.
    pub open spec fn cli_probes_of(&self, host: &Host) -> Seq<ProbeView> {
        self.lookups_of(host) + exists_probes(self.cli_paths_of(host))
    }

    /// How the IDE is detected: by a settings directory, then by its
    /// command-line tool.
    pub open spec fn detection_probes_of(&self, host: &Host) -> Seq<ProbeView> {
        (match Self::settings_root_of(host) {
            Some(root) => seq![
                ProbeView::ConfigDir {
                    platform: host.platform,
                    root,
                    prefixes: self.product_codes.deep_view(),
                },
            ],
            None => seq![],
        }) + self.cli_probes_of(host)
    }

    /// The arguments that make the tool install the plugin.
    pub open spec fn install_args() -> Seq<Seq<char>> {
        seq!["installPlugins"@, "com.wakatime.intellij.plugin"@]
    }

    /// The directory under which the IDEs keep their settings.
    pub fn settings_root(host: &Host) -> (r: Option<String>)
        ensures
            r.deep_view() == Self::settings_root_of(host),
    {
        match host.platform {
            Platform::MacOs => match &host.home {
                Some(home) => Some(
                    join(host.platform, home.as_str(), "Library/Application Support/JetBrains"),
                ),
                None => None,
            },
            Platform::Linux => match &host.home {
                Some(home) => Some(join(host.platform, home.as_str(), ".config/JetBrains")),
                None => None,
            },
            Platform::Windows => match &host.app_data {
                Some(dir) => Some(join(host.platform, dir.as_str(), "JetBrains")),
                None => None,
            },
        }
    }

    /// The settings directories of this IDE among `entries`, the names
    /// that the settings root holds.
    pub fn config_dirs(&self, host: &Host, entries: &Vec<String>) -> (r: Vec<String>)
        ensures
            r.deep_view() == self.config_dirs_of(host, entries.deep_view()),
    {
        match Self::settings_root(host) {
            Some(root) => {
                let codes = owned_strings(self.product_codes);
                dirs_matching(host.platform, root.as_str(), &codes, entries)
            },
            None => {
                let none: Vec<String> = Vec::new();
                assert(none.deep_view() =~= Seq::<Seq<char>>::empty());
                none
            },
        }
    }

    /// Where the command-line tool is installed at best, in the order in
    /// which the places are tried.
    pub fn get_cli_paths(&self, host: &Host) -> (r: Vec<String>)
        ensures
            r.deep_view() == self.cli_paths_of(host),
    {
        let mut paths: Vec<String> = Vec::new();
        let cli = self.cli_command;
        let ghost apps = self.macos_app_names.deep_view();
        match host.platform {
            Platform::MacOs => {
                let mut i: usize = 0;
                assert(apps.take(0) =~= Seq::<Seq<char>>::empty());
                while i < self.macos_app_names.len()
                    invariant
                        host.platform == Platform::MacOs,
                        apps == self.macos_app_names.deep_view(),
                        cli@ == self.cli_command@,
                        i <= self.macos_app_names@.len(),
                        paths.deep_view() == mac_paths(
                            apps.take(i as int),
                            cli@,
                            host.home.deep_view(),
                        ),
                    decreases self.macos_app_names@.len() - i,
                {
                    let ghost before = paths.deep_view();
                    let app: &str = self.macos_app_names[i];
                    proof {
                        assert(apps.take(i + 1).drop_last() =~= apps.take(i as int));
                        assert(apps.take(i + 1).last() == app@);
                    }
                    let mut bundle = String::from_str(app);
                    bundle.append(".app/Contents/MacOS/");
                    bundle.append(cli);
                    let mut system = String::from_str("/Applications/");
                    system.append(bundle.as_str());
                    paths.push(system);
                    if let Some(home) = &host.home {
                        let mut rel = String::from_str("Applications/");
                        rel.append(bundle.as_str());
                        paths.push(join(host.platform, home.as_str(), rel.as_str()));
                    }
                    assert(paths.deep_view() =~= before + mac_tool_paths(
                        app@,
                        cli@,
                        host.home.deep_view(),
                    ));
                    i += 1;
                }
                assert(apps.take(i as int) =~= apps);
            },
            Platform::Linux => {
                if let Some(home) = &host.home {
                    let mut rel = String::from_str(".local/share/JetBrains/Toolbox/apps/");
                    rel.append(cli);
                    rel.append("/bin/");
                    rel.append(cli);
                    paths.push(join(host.platform, home.as_str(), rel.as_str()));
                }
                let mut opt = String::from_str("/opt/");
                opt.append(cli);
                opt.append("/bin/");
                opt.append(cli);
                paths.push(opt);
                let mut local = String::from_str("/usr/local/bin/");
                local.append(cli);
                paths.push(local);
                let mut snap = String::from_str("/snap/bin/");
                snap.append(cli);
                paths.push(snap);
                assert(paths.deep_view() =~= self.cli_paths_of(host));
            },
            Platform::Windows => {
                if let Some(dir) = &host.local_app_data {
                    let mut path = String::from_str(dir.as_str());
                    path.append("/JetBrains/Toolbox/apps/");
                    path.append(cli);
                    path.append("/bin/");
                    path.append(cli);
                    path.append(".cmd");
                    paths.push(path);
                }
                let ghost first = paths.deep_view();
                if let Some(dir) = &host.program_files {
                    let ghost all = program_files_paths(apps, cli@, dir@);
                    let mut i: usize = 0;
                    while i < self.macos_app_names.len()
                        invariant
                            apps == self.macos_app_names.deep_view(),
                            cli@ == self.cli_command@,
                            all == program_files_paths(apps, cli@, dir@),
                            i <= self.macos_app_names@.len(),
                            paths.deep_view() == first + all.take(i as int),
                        decreases self.macos_app_names@.len() - i,
                    {
                        let ghost before = paths.deep_view();
                        let app: &str = self.macos_app_names[i];
                        assert(apps[i as int] == app@);
                        let mut path = String::from_str(dir.as_str());
                        path.append("/JetBrains/");
                        path.append(app);
                        path.append("/bin/");
                        path.append(cli);
                        path.append(".bat");
                        paths.push(path);
                        assert(paths.deep_view() =~= before.push(all[i as int]));
                        assert(all.take(i + 1) =~= all.take(i as int).push(all[i as int]));
                        i += 1;
                    }
                    assert(all.take(i as int) =~= all);
                }
                assert(paths.deep_view() =~= self.cli_paths_of(host));
            },
        }
        paths
    }

    /// The probes that look for the command-line tool.
    pub fn cli_probes(&self, host: &Host) -> (r: Vec<Probe>)
        ensures
            r.deep_view() == self.cli_probes_of(host),
    {
        let mut probes: Vec<Probe> = Vec::new();
        probes.push(Probe::Locate { tool: Locator::Which, command: String::from_str(self.cli_command) });
        match host.platform {
            Platform::Windows => {
                probes.push(
                    Probe::Locate { tool: Locator::Where, command: String::from_str(self.cli_command) },
                );
            },
            _ => {},
        }
        assert(probes.deep_view() =~= self.lookups_of(host));
        push_exists_probes(&mut probes, self.get_cli_paths(host));
        probes
    }

    /// A search for the IDE's command-line tool.
    pub fn find_cli(&self, host: &Host) -> (r: Search)
        ensures
            r@ == SearchView::start(self.cli_probes_of(host)),
    {
        Search::new(self.cli_probes(host))
    }
}

impl JetBrainsFamily {
    /// Whether the IDE has a settings directory on the machine `world`: the
    /// settings root can be listed, and one of the names in it begins with
    /// one of the IDE's product codes.
    pub open spec fn has_config_dir(&self, host: &Host, world: World) -> bool {
        &&& Self::settings_root_of(host) matches Some(root)
        &&& world(QuestionView::ListDir { path: root }) matches AnswerView::Entries(names)
        &&& self.config_dirs_of(host, names).len() > 0
    }

    /// Whether the IDE is installed on the machine `world`: it has a
    /// settings directory, or its command-line tool can be found.
    pub open spec fn is_detected(&self, host: &Host, world: World) -> bool {
        ||| self.has_config_dir(host, world)
        ||| SearchView::start(self.cli_probes_of(host)).run(world).hit is Some
    }
}

/// The detection of a JetBrains IDE finds something if and only if the IDE
/// is installed, as `is_detected` says.
pub proof fn lemma_jetbrains_detection(ide: JetBrainsFamily, host: Host, world: World)
    ensures
        SearchView::start(ide.detection_probes_of(&host)).run(world).hit is Some
            <==> ide.is_detected(&host, world),
{
    let tail = ide.cli_probes_of(&host);
    match JetBrainsFamily::settings_root_of(&host) {
        Some(root) => {
            let probe = ProbeView::ConfigDir {
                platform: host.platform,
                root,
                prefixes: ide.product_codes.deep_view(),
            };
            lemma_search_in_turn(seq![probe], tail, world);
            lemma_search_one(probe, world);
        },
        None => {
            assert(Seq::<ProbeView>::empty() + tail =~= tail);
        },
    }
}

impl EditorPlugin for JetBrainsFamily {
    open spec fn name_of(&self) -> Seq<char> {
        self.name@
    }

    open spec fn detection_probes(&self, host: &Host) -> Seq<ProbeView> {
        self.detection_probes_of(host)
    }

    open spec fn installation(&self, host: &Host) -> InstallationView {
        InstallationView::Cli(
            CliInstallView::start(
                self.name@,
                Addon::Plugin,
                Self::install_args(),
                SearchView::start(self.cli_probes_of(host)),
            ),
        )
    }

    fn name(&self) -> (r: String)
        ensures
            r@ == self.name@,
    {
        String::from_str(self.name)
    }

    fn is_installed(&self, host: &Host) -> (r: Search)
        ensures
            r@ == SearchView::start(self.detection_probes_of(host)),
    {
        let mut probes: Vec<Probe> = Vec::new();
        if let Some(root) = Self::settings_root(host) {
            let prefixes = owned_strings(self.product_codes);
            probes.push(Probe::ConfigDir { platform: host.platform, root, prefixes });
        }
        let ghost first = probes.deep_view();
        assert(first =~= match Self::settings_root_of(host) {
            Some(root) => seq![
                ProbeView::ConfigDir {
                    platform: host.platform,
                    root,
                    prefixes: self.product_codes.deep_view(),
                },
            ],
            None => seq![],
        });
        let mut rest = self.cli_probes(host);
        let ghost tail = rest.deep_view();
        probes.append(&mut rest);
        assert(probes.deep_view() =~= first + tail);
        Search::new(probes)
    }

    fn install(&self, host: &Host) -> (r: Installation)
        ensures
            r@ == self.installation(host),
    {
        let mut args: Vec<String> = Vec::new();
        args.push(String::from_str("installPlugins"));
        args.push(String::from_str("com.wakatime.intellij.plugin"));
        assert(args.deep_view() =~= Self::install_args());
        Installation::Cli(CliInstall::new(self.name, Addon::Plugin, args, self.find_cli(host)))
    }
}

} // verus!
