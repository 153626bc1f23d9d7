//! The editors that the setup knows, and what each of them can do: say its
//! name, say how to find out whether it is installed, and say how the
//! plugin gets into it.
pub mod install;
pub mod jetbrains;
pub mod vscode;
pub mod xcode;
pub mod zed;

use crate::host::Host;
use crate::probe::ProbeView;
use crate::search::{
    all_fails, all_miss, is_first_existing, lemma_failures_find_nothing, lemma_fallback_order,
    lemma_run_finds_first, none_exists, Search, SearchView, World,
};
use vstd::prelude::*;
use vstd::string::*;

pub use install::{Installation, InstallationView};
pub use jetbrains::JetBrainsFamily;
pub use vscode::VsCodeFamily;
pub use xcode::Xcode;
pub use zed::Zed;

verus! {

/// What every editor can do.
pub trait EditorPlugin: Send + Sync {
    /// The editor's name, as a person would write it.
    spec fn name_of(&self) -> Seq<char>;

    /// The probes, in their order, of which one must find something for the
    /// editor to count as installed.
    spec fn detection_probes(&self, host: &Host) -> Seq<ProbeView>;

    /// The installation of the plugin, before anything has been asked.
    spec fn installation(&self, host: &Host) -> InstallationView;

    /// The editor's name.
    fn name(&self) -> (r: String)
        ensures
            r@ == self.name_of(),
    ;

    /// A search that ends with something found if and only if the editor is
    /// installed. It cannot fail: a probe that cannot be carried out counts
    /// as a miss.
    fn is_installed(&self, host: &Host) -> (r: Search)
        ensures
            r@ == SearchView::start(self.detection_probes(host)),
    ;

    /// The installation of the plugin for this editor.
    fn install(&self, host: &Host) -> (r: Installation)
        ensures
            r@ == self.installation(host),
    ;
}

/// One editor of the registry.
#[derive(Clone, Copy, Debug, PartialEq, Eq)]
pub enum Editor {
    VsCode(VsCodeFamily),
    Xcode(Xcode),
    Zed(Zed),
    JetBrains(JetBrainsFamily),
}

pub enum EditorView {
    VsCode {
        name: Seq<char>,
        config_subdir: Seq<char>,
        cli_command: Seq<char>,
        macos_app_name: Seq<char>,
        windows_app_folder: Seq<char>,
    },
    Xcode,
    Zed,
    JetBrains {
        name: Seq<char>,
        product_codes: Seq<Seq<char>>,
        cli_command: Seq<char>,
        macos_app_names: Seq<Seq<char>>,
    },
}

impl View for Editor {
    type V = EditorView;

    open spec fn view(&self) -> EditorView {
        match self {
            Editor::VsCode(editor) => EditorView::VsCode {
                name: editor.name@,
                config_subdir: editor.config_subdir@,
                cli_command: editor.cli_command@,
                macos_app_name: editor.macos_app_name@,
                windows_app_folder: editor.windows_app_folder@,
            },
            Editor::Xcode(_) => EditorView::Xcode,
            Editor::Zed(_) => EditorView::Zed,
            Editor::JetBrains(ide) => EditorView::JetBrains {
                name: ide.name@,
                product_codes: ide.product_codes.deep_view(),
                cli_command: ide.cli_command@,
                macos_app_names: ide.macos_app_names.deep_view(),
            },
        }
    }
}

impl DeepView for Editor {
    type V = EditorView;

    open spec fn deep_view(&self) -> EditorView {
        self.view()
    }
}

impl EditorPlugin for Editor {
    open spec fn name_of(&self) -> Seq<char> {
        match self {
            Editor::VsCode(editor) => editor.name_of(),
            Editor::Xcode(editor) => editor.name_of(),
            Editor::Zed(editor) => editor.name_of(),
            Editor::JetBrains(ide) => ide.name_of(),
        }
    }

    open spec fn detection_probes(&self, host: &Host) -> Seq<ProbeView> {
        match self {
            Editor::VsCode(editor) => editor.detection_probes(host),
            Editor::Xcode(editor) => editor.detection_probes(host),
            Editor::Zed(editor) => editor.detection_probes(host),
            Editor::JetBrains(ide) => ide.detection_probes(host),
        }
    }

    open spec fn installation(&self, host: &Host) -> InstallationView {
        match self {
            Editor::VsCode(editor) => editor.installation(host),
            Editor::Xcode(editor) => editor.installation(host),
            Editor::Zed(editor) => editor.installation(host),
            Editor::JetBrains(ide) => ide.installation(host),
        }
    }

    fn name(&self) -> (r: String)
        ensures
            r@ == self.name_of(),
    {
        match self {
            Editor::VsCode(editor) => editor.name(),
            Editor::Xcode(editor) => editor.name(),
            Editor::Zed(editor) => editor.name(),
            Editor::JetBrains(ide) => ide.name(),
        }
    }

    fn is_installed(&self, host: &Host) -> (r: Search)
        ensures
            r@ == SearchView::start(self.detection_probes(host)),
    {
        match self {
            Editor::VsCode(editor) => editor.is_installed(host),
            Editor::Xcode(editor) => editor.is_installed(host),
            Editor::Zed(editor) => editor.is_installed(host),
            Editor::JetBrains(ide) => ide.is_installed(host),
        }
    }

    fn install(&self, host: &Host) -> (r: Installation)
        ensures
            r@ == self.installation(host),
    {
        match self {
            Editor::VsCode(editor) => editor.install(host),
            Editor::Xcode(editor) => editor.install(host),
            Editor::Zed(editor) => editor.install(host),
            Editor::JetBrains(ide) => ide.install(host),
        }
    }
}

/// An editor of the VS Code family, as the registry lists it.
pub open spec fn vscode_entry(
    name: &str,
    config_subdir: &str,
    cli_command: &str,
    macos_app_name: &str,
    windows_app_folder: &str,
) -> EditorView {
    EditorView::VsCode {
        name: name@,
        config_subdir: config_subdir@,
        cli_command: cli_command@,
        macos_app_name: macos_app_name@,
        windows_app_folder: windows_app_folder@,
    }
}

/// A JetBrains IDE that ships in one edition, as the registry lists it.
pub open spec fn jetbrains_entry(name: &str, product: &str, cli_command: &str, app: &str) -> EditorView
{
    EditorView::JetBrains {
        name: name@,
        product_codes: seq![product@],
        cli_command: cli_command@,
        macos_app_names: seq![app@],
    }
}

/// A JetBrains IDE that ships in two editions, as the registry lists it.
pub open spec fn jetbrains_pair_entry(
    name: &str,
    products: (&str, &str),
    cli_command: &str,
    apps: (&str, &str),
) -> EditorView {
    EditorView::JetBrains {
        name: name@,
        product_codes: seq![products.0@, products.1@],
        cli_command: cli_command@,
        macos_app_names: seq![apps.0@, apps.1@],
    }
}

/// The editors that the setup knows, in the order in which it offers them.
pub open spec fn registry() -> Seq<EditorView> {
    seq![
        vscode_entry("VS Code", ".vscode", "code", "Visual Studio Code", "Microsoft VS Code"),
        vscode_entry("Cursor", ".cursor", "cursor", "Cursor", "cursor"),
        vscode_entry("Windsurf", ".windsurf", "windsurf", "Windsurf", "windsurf"),
        vscode_entry("Antigravity", ".antigravity", "antigravity", "Antigravity", "antigravity"),
        vscode_entry("VSCodium", ".vscode-oss", "codium", "VSCodium", "VSCodium"),
        vscode_entry("Trae", ".trae", "trae", "Trae", "Trae"),
        EditorView::Xcode,
        EditorView::Zed,
        jetbrains_pair_entry(
            "IntelliJ IDEA",
            ("IntelliJIdea", "IdeaIC"),
            "idea",
            ("IntelliJ IDEA", "IntelliJ IDEA CE"),
        ),
        jetbrains_pair_entry("PyCharm", ("PyCharm", "PyCharmCE"), "pycharm", ("PyCharm", "PyCharm CE")),
        jetbrains_entry("WebStorm", "WebStorm", "webstorm", "WebStorm"),
        jetbrains_entry("GoLand", "GoLand", "goland", "GoLand"),
        jetbrains_entry("RustRover", "RustRover", "rustrover", "RustRover"),
        jetbrains_entry("RubyMine", "RubyMine", "rubymine", "RubyMine"),
        jetbrains_entry("PhpStorm", "PhpStorm", "phpstorm", "PhpStorm"),
        jetbrains_entry("CLion", "CLion", "clion", "CLion"),
        jetbrains_entry("DataGrip", "DataGrip", "datagrip", "DataGrip"),
        jetbrains_entry("Rider", "Rider", "rider", "Rider"),
        jetbrains_entry("Android Studio", "AndroidStudio", "studio", "Android Studio"),
        jetbrains_entry("AppCode", "AppCode", "appcode", "AppCode"),
    ]
}

/// An editor of the VS Code family.
fn vscode(
    name: &'static str,
    config_subdir: &'static str,
    cli_command: &'static str,
    macos_app_name: &'static str,
    windows_app_folder: &'static str,
) -> (r: Editor)
    ensures
        r@ == vscode_entry(name, config_subdir, cli_command, macos_app_name, windows_app_folder),
{
    Editor::VsCode(
        VsCodeFamily { name, config_subdir, cli_command, macos_app_name, windows_app_folder },
    )
}

/// A JetBrains IDE that ships in one edition.
fn jetbrains_single(
    name: &'static str,
    product: &'static [&'static str],
    cli_command: &'static str,
    apps: &'static [&'static str],
) -> (r: Editor)
    requires
        product@.len() == 1,
        apps@.len() == 1,
    ensures
        r@ == (EditorView::JetBrains {
            name: name@,
            product_codes: seq![product@[0]@],
            cli_command: cli_command@,
            macos_app_names: seq![apps@[0]@],
        }),
{
    assert(product.deep_view() =~= seq![product@[0]@]);
    assert(apps.deep_view() =~= seq![apps@[0]@]);
    Editor::JetBrains(
        JetBrainsFamily { name, product_codes: product, cli_command, macos_app_names: apps },
    )
}

/// A JetBrains IDE that ships in two editions.
fn jetbrains_pair(
    name: &'static str,
    products: &'static [&'static str],
    cli_command: &'static str,
    apps: &'static [&'static str],
) -> (r: Editor)
    requires
        products@.len() == 2,
        apps@.len() == 2,
    ensures
        r@ == jetbrains_pair_entry(
            name,
            (products@[0], products@[1]),
            cli_command,
            (apps@[0], apps@[1]),
        ),
{
    assert(products.deep_view() =~= seq![products@[0]@, products@[1]@]);
    assert(apps.deep_view() =~= seq![apps@[0]@, apps@[1]@]);
    Editor::JetBrains(
        JetBrainsFamily { name, product_codes: products, cli_command, macos_app_names: apps },
    )
}

/// The editors that the setup knows, in the order in which it offers them.
pub fn all_editors() -> (r: Vec<Editor>)
    ensures
        r.deep_view() == registry(),
        r@.len() == 20,
{
    let mut editors: Vec<Editor> = Vec::new();
    editors.push(vscode("VS Code", ".vscode", "code", "Visual Studio Code", "Microsoft VS Code"));
    editors.push(vscode("Cursor", ".cursor", "cursor", "Cursor", "cursor"));
    editors.push(vscode("Windsurf", ".windsurf", "windsurf", "Windsurf", "windsurf"));
    editors.push(vscode("Antigravity", ".antigravity", "antigravity", "Antigravity", "antigravity"));
    editors.push(vscode("VSCodium", ".vscode-oss", "codium", "VSCodium", "VSCodium"));
    editors.push(vscode("Trae", ".trae", "trae", "Trae", "Trae"));
    editors.push(Editor::Xcode(Xcode));
    editors.push(Editor::Zed(Zed));
    editors.push(
        jetbrains_pair(
            "IntelliJ IDEA",
            &["IntelliJIdea", "IdeaIC"],
            "idea",
            &["IntelliJ IDEA", "IntelliJ IDEA CE"],
        ),
    );
    editors.push(
        jetbrains_pair("PyCharm", &["PyCharm", "PyCharmCE"], "pycharm", &["PyCharm", "PyCharm CE"]),
    );
    editors.push(jetbrains_single("WebStorm", &["WebStorm"], "webstorm", &["WebStorm"]));
    editors.push(jetbrains_single("GoLand", &["GoLand"], "goland", &["GoLand"]));
    editors.push(jetbrains_single("RustRover", &["RustRover"], "rustrover", &["RustRover"]));
    editors.push(jetbrains_single("RubyMine", &["RubyMine"], "rubymine", &["RubyMine"]));
    editors.push(jetbrains_single("PhpStorm", &["PhpStorm"], "phpstorm", &["PhpStorm"]));
    editors.push(jetbrains_single("CLion", &["CLion"], "clion", &["CLion"]));
    editors.push(jetbrains_single("DataGrip", &["DataGrip"], "datagrip", &["DataGrip"]));
    editors.push(jetbrains_single("Rider", &["Rider"], "rider", &["Rider"]));
    editors.push(
        jetbrains_single("Android Studio", &["AndroidStudio"], "studio", &["Android Studio"]),
    );
    editors.push(jetbrains_single("AppCode", &["AppCode"], "appcode", &["AppCode"]));
    assert(editors.deep_view() =~= registry());
    editors
}

/// Detection always comes to a verdict, and never to an error: driven to
/// its end on any machine, the search that `is_installed` hands out is
/// finished, and on a machine where nothing can be carried out it has found
/// nothing, so that the editor counts as not installed.
pub proof fn lemma_detection_never_fails<E: EditorPlugin>(editor: E, host: Host, world: World)
    ensures
        SearchView::start(editor.detection_probes(&host)).run(world).finished(),
        all_fails(world) ==> SearchView::start(editor.detection_probes(&host)).run(world).hit
            is None,
{
    let search = SearchView::start(editor.detection_probes(&host));
    lemma_run_finds_first(search, world);
    if all_fails(world) {
        lemma_failures_find_nothing(editor.detection_probes(&host), world);
    }
}

/// The fallback order for an editor of the VS Code family: where the
/// lookups on the search path miss, the search for the tool finds the first
/// of the well-known places that exists, in their declared order, and
/// nothing if none exists.
pub proof fn lemma_vscode_fallback_order(editor: VsCodeFamily, host: Host, world: World)
    requires
        all_miss(editor.lookups_of(&host), world),
    ensures
        match SearchView::start(editor.cli_probes_of(&host)).run(world).hit {
            Some(found) => exists|at: int|
                is_first_existing(editor.cli_paths_of(&host), world, at)
                    && #[trigger] editor.cli_paths_of(&host)[at] == found,
            None => none_exists(editor.cli_paths_of(&host), world),
        },
{
    lemma_fallback_order(editor.lookups_of(&host), editor.cli_paths_of(&host), world);
}

/// The fallback order for a JetBrains IDE: as for the VS Code family.
pub proof fn lemma_jetbrains_fallback_order(ide: JetBrainsFamily, host: Host, world: World)
    requires
        all_miss(ide.lookups_of(&host), world),
    ensures
        match SearchView::start(ide.cli_probes_of(&host)).run(world).hit {
            Some(found) => exists|at: int|
                is_first_existing(ide.cli_paths_of(&host), world, at)
                    && #[trigger] ide.cli_paths_of(&host)[at] == found,
            None => none_exists(ide.cli_paths_of(&host), world),
        },
{
    lemma_fallback_order(ide.lookups_of(&host), ide.cli_paths_of(&host), world);
}

} // verus!
