use hackatime_setup::editor_plugins::install::{Addon, InstallError};
use hackatime_setup::editor_plugins::xcode::XcodeInstall;
use hackatime_setup::editor_plugins::{
    all_editors, Editor, EditorPlugin, Installation, JetBrainsFamily, VsCodeFamily, Xcode, Zed,
};
use hackatime_setup::host::{Host, Platform};
use hackatime_setup::probe::{Answer, Question};
use hackatime_setup::search::Search;

/// A machine that is made up: the paths that exist, the commands that the
/// lookup tools find, the programs that fail, and what a directory holds.
#[derive(Default)]
struct World {
    existing: Vec<String>,
    on_path: Vec<(String, String)>,
    listing: Vec<(String, Vec<String>)>,
    failing: Vec<String>,
    asked: std::cell::RefCell<Vec<Question>>,
}

impl World {
    fn answer(&self, question: &Question) -> Answer {
        self.asked.borrow_mut().push(question.clone());
        match question {
            Question::PathExists { path } => Answer::Exists(self.existing.contains(path)),
            Question::ListDir { path } => match self.listing.iter().find(|(dir, _)| dir == path) {
                Some((_, names)) => Answer::Entries(names.clone()),
                None => Answer::Failed { reason: "No such file or directory".to_string() },
            },
            Question::Run { program, args } if program == "which" || program == "where" => {
                match self.on_path.iter().find(|(command, _)| Some(command) == args.first()) {
                    Some((_, path)) => Answer::Ran {
                        success: true,
                        stdout: format!("{path}\n"),
                        stderr: String::new(),
                    },
                    None => Answer::Ran {
                        success: false,
                        stdout: String::new(),
                        stderr: "not found".to_string(),
                    },
                }
            }
            Question::Run { program, .. } | Question::Execute { program, .. } => {
                if self.failing.contains(program) {
                    Answer::Ran {
                        success: false,
                        stdout: String::new(),
                        stderr: "it broke".to_string(),
                    }
                } else if self.existing.contains(program) {
                    Answer::Ran { success: true, stdout: String::new(), stderr: String::new() }
                } else {
                    Answer::Failed { reason: "No such file or directory (os error 2)".to_string() }
                }
            }
            _ => Answer::Failed { reason: "not in this world".to_string() },
        }
    }

    fn asked_paths(&self) -> Vec<String> {
        self.asked
            .borrow()
            .iter()
            .filter_map(|q| match q {
                Question::PathExists { path } => Some(path.clone()),
                _ => None,
            })
            .collect()
    }
}

fn nothing_works(_: &Question) -> Answer {
    Answer::Failed { reason: "Permission denied".to_string() }
}

fn drive(mut search: Search, world: &dyn Fn(&Question) -> Answer) -> Option<String> {
    let mut steps = 0;
    while let Some(question) = search.pending() {
        let answer = world(&question);
        search = search.advance(&answer);
        steps += 1;
        assert!(steps < 100, "the search does not end");
    }
    assert!(search.is_finished());
    search.outcome().expect("a finished search has an outcome")
}

fn complete(mut installation: Installation, world: &dyn Fn(&Question) -> Answer) -> Result<(), InstallError> {
    let mut steps = 0;
    while let Some(question) = installation.pending() {
        assert_eq!(installation.outcome(), None);
        installation = installation.advance(world(&question));
        steps += 1;
        assert!(steps < 100, "the installation does not end");
    }
    installation.outcome().expect("an installation without a question has an outcome")
}

fn host(platform: Platform) -> Host {
    Host {
        platform,
        home: Some(match platform {
            Platform::Windows => "C:\\Users\\me".to_string(),
            Platform::MacOs => "/Users/me".to_string(),
            Platform::Linux => "/home/me".to_string(),
        }),
        app_data: Some("C:\\Users\\me\\AppData\\Roaming".to_string()),
        local_app_data: Some("C:\\Users\\me\\AppData\\Local".to_string()),
        program_files: Some("C:\\Program Files".to_string()),
    }
}

fn bare(platform: Platform) -> Host {
    Host { platform, home: None, app_data: None, local_app_data: None, program_files: None }
}

fn code() -> VsCodeFamily {
    VsCodeFamily {
        name: "VS Code",
        config_subdir: ".vscode",
        cli_command: "code",
        macos_app_name: "Visual Studio Code",
        windows_app_folder: "Microsoft VS Code",
    }
}

fn idea() -> JetBrainsFamily {
    JetBrainsFamily {
        name: "IntelliJ IDEA",
        product_codes: &["IntelliJIdea", "IdeaIC"],
        cli_command: "idea",
        macos_app_names: &["IntelliJ IDEA", "IntelliJ IDEA CE"],
    }
}

fn strings(list: &[&str]) -> Vec<String> {
    list.iter().map(|s| s.to_string()).collect()
}

#[test]
fn registry_lists_the_editors_in_order() {
    let names: Vec<String> = all_editors().iter().map(|e| e.name()).collect();
    assert_eq!(
        names,
        strings(&[
            "VS Code",
            "Cursor",
            "Windsurf",
            "Antigravity",
            "VSCodium",
            "Trae",
            "Xcode",
            "Zed",
            "IntelliJ IDEA",
            "PyCharm",
            "WebStorm",
            "GoLand",
            "RustRover",
            "RubyMine",
            "PhpStorm",
            "CLion",
            "DataGrip",
            "Rider",
            "Android Studio",
            "AppCode",
        ])
    );
}

#[test]
fn registry_entries_are_the_descriptors() {
    let editors = all_editors();
    assert_eq!(editors[0], Editor::VsCode(code()));
    assert_eq!(
        editors[4],
        Editor::VsCode(VsCodeFamily {
            name: "VSCodium",
            config_subdir: ".vscode-oss",
            cli_command: "codium",
            macos_app_name: "VSCodium",
            windows_app_folder: "VSCodium",
        })
    );
    assert_eq!(editors[6], Editor::Xcode(Xcode));
    assert_eq!(editors.len(), 20);
    assert_eq!(editors[7], Editor::Zed(Zed));
    assert_eq!(editors[8], Editor::JetBrains(idea()));
    assert_eq!(editors[19].name(), "AppCode");
    assert_eq!(
        editors[18],
        Editor::JetBrains(JetBrainsFamily {
            name: "Android Studio",
            product_codes: &["AndroidStudio"],
            cli_command: "studio",
            macos_app_names: &["Android Studio"],
        })
    );
}

#[test]
fn vscode_directories() {
    assert_eq!(code().config_dir(&host(Platform::Linux)), Some("/home/me/.vscode".to_string()));
    assert_eq!(
        code().extensions_dir(&host(Platform::Linux)),
        Some("/home/me/.vscode/extensions".to_string())
    );
    assert_eq!(
        code().extensions_dir(&host(Platform::Windows)),
        Some("C:\\Users\\me\\.vscode\\extensions".to_string())
    );
    assert_eq!(code().extensions_dir(&bare(Platform::Linux)), None);
    let mut slash = host(Platform::MacOs);
    slash.home = Some("/Users/me/".to_string());
    assert_eq!(code().extensions_dir(&slash), Some("/Users/me/.vscode/extensions".to_string()));
}

#[test]
fn vscode_cli_paths_per_platform() {
    assert_eq!(
        code().get_cli_paths(&host(Platform::Linux)),
        strings(&["/usr/bin/code", "/usr/local/bin/code", "/home/me/.local/bin/code"])
    );
    assert_eq!(
        code().get_cli_paths(&bare(Platform::Linux)),
        strings(&["/usr/bin/code", "/usr/local/bin/code"])
    );
    assert_eq!(
        code().get_cli_paths(&host(Platform::MacOs)),
        strings(&[
            "/Applications/Visual Studio Code.app/Contents/Resources/app/bin/code",
            "/Users/me/Applications/Visual Studio Code.app/Contents/Resources/app/bin/code",
        ])
    );
    assert_eq!(
        code().get_cli_paths(&host(Platform::Windows)),
        strings(&[
            "C:\\Users\\me\\AppData\\Local/Programs/Microsoft VS Code/bin/code.cmd",
            "C:\\Program Files/Microsoft VS Code/bin/code.cmd",
        ])
    );
    assert_eq!(code().get_cli_paths(&bare(Platform::Windows)), Vec::<String>::new());
}

#[test]
fn jetbrains_cli_paths_per_platform() {
    assert_eq!(
        idea().get_cli_paths(&host(Platform::Linux)),
        strings(&[
            "/home/me/.local/share/JetBrains/Toolbox/apps/idea/bin/idea",
            "/opt/idea/bin/idea",
            "/usr/local/bin/idea",
            "/snap/bin/idea",
        ])
    );
    assert_eq!(
        idea().get_cli_paths(&host(Platform::MacOs)),
        strings(&[
            "/Applications/IntelliJ IDEA.app/Contents/MacOS/idea",
            "/Users/me/Applications/IntelliJ IDEA.app/Contents/MacOS/idea",
            "/Applications/IntelliJ IDEA CE.app/Contents/MacOS/idea",
            "/Users/me/Applications/IntelliJ IDEA CE.app/Contents/MacOS/idea",
        ])
    );
    assert_eq!(
        idea().get_cli_paths(&bare(Platform::MacOs)),
        strings(&[
            "/Applications/IntelliJ IDEA.app/Contents/MacOS/idea",
            "/Applications/IntelliJ IDEA CE.app/Contents/MacOS/idea",
        ])
    );
    assert_eq!(
        idea().get_cli_paths(&host(Platform::Windows)),
        strings(&[
            "C:\\Users\\me\\AppData\\Local/JetBrains/Toolbox/apps/idea/bin/idea.cmd",
            "C:\\Program Files/JetBrains/IntelliJ IDEA/bin/idea.bat",
            "C:\\Program Files/JetBrains/IntelliJ IDEA CE/bin/idea.bat",
        ])
    );
}

#[test]
fn jetbrains_config_dirs_match_by_product_code() {
    let entries = strings(&["IdeaIC2024.1", "PyCharm2023.3", "IntelliJIdea2023.2", "consentOptions", "Idea"]);
    assert_eq!(
        idea().config_dirs(&host(Platform::Linux), &entries),
        strings(&[
            "/home/me/.config/JetBrains/IdeaIC2024.1",
            "/home/me/.config/JetBrains/IntelliJIdea2023.2",
        ])
    );
    assert_eq!(
        idea().config_dirs(&host(Platform::MacOs), &entries),
        strings(&[
            "/Users/me/Library/Application Support/JetBrains/IdeaIC2024.1",
            "/Users/me/Library/Application Support/JetBrains/IntelliJIdea2023.2",
        ])
    );
    assert_eq!(
        idea().config_dirs(&host(Platform::Windows), &entries),
        strings(&[
            "C:\\Users\\me\\AppData\\Roaming\\JetBrains\\IdeaIC2024.1",
            "C:\\Users\\me\\AppData\\Roaming\\JetBrains\\IntelliJIdea2023.2",
        ])
    );
    assert_eq!(idea().config_dirs(&bare(Platform::Linux), &entries), Vec::<String>::new());
    assert_eq!(idea().config_dirs(&host(Platform::Linux), &Vec::new()), Vec::<String>::new());
    assert_eq!(
        JetBrainsFamily::settings_root(&host(Platform::Linux)),
        Some("/home/me/.config/JetBrains".to_string())
    );
}

#[test]
fn cli_found_on_the_search_path_wins() {
    let world = World {
        on_path: vec![("code".to_string(), "  /opt/bin/code ".to_string())],
        existing: strings(&["/usr/bin/code"]),
        ..World::default()
    };
    let found = drive(code().find_cli(&host(Platform::Linux)), &|q| world.answer(q));
    assert_eq!(found, Some("/opt/bin/code".to_string()));
    assert_eq!(world.asked_paths(), Vec::<String>::new());
}

#[test]
fn fallback_paths_are_tried_in_declared_order() {
    let world = World {
        existing: strings(&["/home/me/.local/bin/code", "/usr/local/bin/code"]),
        ..World::default()
    };
    let found = drive(code().find_cli(&host(Platform::Linux)), &|q| world.answer(q));
    assert_eq!(found, Some("/usr/local/bin/code".to_string()));
    assert_eq!(world.asked_paths(), strings(&["/usr/bin/code", "/usr/local/bin/code"]));
    assert_eq!(
        world.asked.borrow()[0],
        Question::Run { program: "which".to_string(), args: strings(&["code"]) }
    );
}

#[test]
fn last_fallback_path_is_reached() {
    let world = World { existing: strings(&["/snap/bin/idea"]), ..World::default() };
    let found = drive(idea().find_cli(&host(Platform::Linux)), &|q| world.answer(q));
    assert_eq!(found, Some("/snap/bin/idea".to_string()));
    assert_eq!(
        world.asked_paths(),
        strings(&[
            "/home/me/.local/share/JetBrains/Toolbox/apps/idea/bin/idea",
            "/opt/idea/bin/idea",
            "/usr/local/bin/idea",
            "/snap/bin/idea",
        ])
    );
}

#[test]
fn cli_not_found_anywhere() {
    let world = World::default();
    assert_eq!(drive(code().find_cli(&host(Platform::Linux)), &|q| world.answer(q)), None);
    assert_eq!(world.asked_paths().len(), 3);
    assert_eq!(drive(idea().find_cli(&host(Platform::MacOs)), &|q| world.answer(q)), None);
    assert_eq!(drive(code().find_cli(&bare(Platform::Windows)), &|q| world.answer(q)), None);
}

#[test]
fn empty_lookup_output_is_a_miss() {
    let world = World {
        on_path: vec![("code".to_string(), " \t ".to_string())],
        existing: strings(&["/usr/bin/code"]),
        ..World::default()
    };
    let found = drive(code().find_cli(&host(Platform::Linux)), &|q| world.answer(q));
    assert_eq!(found, Some("/usr/bin/code".to_string()));
}

#[test]
fn windows_asks_which_then_where() {
    let world = World {
        on_path: vec![("code".to_string(), "C:\\bin\\code.cmd\r\nC:\\other\\code.cmd\r".to_string())],
        ..World::default()
    };
    let found = drive(code().find_cli(&host(Platform::Windows)), &|q| world.answer(q));
    assert_eq!(found, Some("C:\\bin\\code.cmd".to_string()));
    let asked = world.asked.borrow();
    assert_eq!(asked[0], Question::Run { program: "which".to_string(), args: strings(&["code.cmd"]) });
    assert_eq!(asked[1], Question::Run { program: "where".to_string(), args: strings(&["code"]) });
    assert_eq!(asked.len(), 2);
}

#[test]
fn vscode_is_installed_by_its_directory_or_its_cli() {
    let by_dir = World { existing: strings(&["/home/me/.vscode"]), ..World::default() };
    assert!(drive(code().is_installed(&host(Platform::Linux)), &|q| by_dir.answer(q)).is_some());
    assert_eq!(by_dir.asked.borrow().len(), 1);

    let by_cli = World { existing: strings(&["/usr/bin/code"]), ..World::default() };
    assert!(drive(code().is_installed(&host(Platform::Linux)), &|q| by_cli.answer(q)).is_some());

    let only_extensions = World { existing: strings(&["/home/me/.vscode-oss"]), ..World::default() };
    assert!(drive(code().is_installed(&host(Platform::Linux)), &|q| only_extensions.answer(q)).is_none());

    let empty = World::default();
    assert!(drive(code().is_installed(&host(Platform::Linux)), &|q| empty.answer(q)).is_none());
    assert!(drive(code().is_installed(&bare(Platform::Linux)), &|q| empty.answer(q)).is_none());
}

#[test]
fn jetbrains_is_installed_by_a_settings_directory_or_its_cli() {
    let by_dir = World {
        listing: vec![("/home/me/.config/JetBrains".to_string(), strings(&["GoLand2024.1", "IdeaIC2024.1"]))],
        ..World::default()
    };
    assert_eq!(
        drive(idea().is_installed(&host(Platform::Linux)), &|q| by_dir.answer(q)),
        Some("/home/me/.config/JetBrains/IdeaIC2024.1".to_string())
    );

    let other_products = World {
        listing: vec![("/home/me/.config/JetBrains".to_string(), strings(&["GoLand2024.1"]))],
        ..World::default()
    };
    assert!(drive(idea().is_installed(&host(Platform::Linux)), &|q| other_products.answer(q)).is_none());

    let by_cli = World {
        on_path: vec![("idea".to_string(), "/usr/local/bin/idea".to_string())],
        ..World::default()
    };
    assert!(drive(idea().is_installed(&host(Platform::Linux)), &|q| by_cli.answer(q)).is_some());
}

#[test]
fn xcode_is_looked_for_on_macos_only() {
    let world = World { existing: strings(&["/Applications/Xcode.app", "xcrun"]), ..World::default() };
    assert!(drive(Xcode.is_installed(&host(Platform::MacOs)), &|q| world.answer(q)).is_some());
    assert!(drive(Xcode.is_installed(&host(Platform::Linux)), &|q| world.answer(q)).is_none());
    assert!(drive(Xcode.is_installed(&host(Platform::Windows)), &|q| world.answer(q)).is_none());
    assert!(Xcode.is_installed(&host(Platform::Linux)).pending().is_none());

    let tools_only = World { existing: strings(&["xcrun"]), ..World::default() };
    assert!(drive(Xcode.is_installed(&host(Platform::MacOs)), &|q| tools_only.answer(q)).is_some());
    assert_eq!(
        tools_only.asked.borrow()[1],
        Question::Run { program: "xcrun".to_string(), args: strings(&["--version"]) }
    );
    let broken_tools = World { failing: strings(&["xcrun"]), ..World::default() };
    assert!(drive(Xcode.is_installed(&host(Platform::MacOs)), &|q| broken_tools.answer(q)).is_none());
}

#[test]
fn detection_never_fails_where_nothing_works() {
    for platform in [Platform::MacOs, Platform::Linux, Platform::Windows] {
        for machine in [host(platform), bare(platform)] {
            for editor in all_editors() {
                assert_eq!(drive(editor.is_installed(&machine), &nothing_works), None, "{}", editor.name());
            }
        }
    }
}

#[test]
fn install_fails_when_the_cli_is_not_found() {
    let world = World::default();
    let outcome = complete(code().install(&host(Platform::Linux)), &|q| world.answer(q));
    assert_eq!(outcome, Err(InstallError::CliNotFound { editor: "VS Code".to_string() }));
    assert_eq!(outcome.unwrap_err().message(), "VS Code CLI not found");

    let outcome = complete(idea().install(&host(Platform::Linux)), &nothing_works);
    assert_eq!(outcome.unwrap_err().message(), "IntelliJ IDEA CLI not found");
}

#[test]
fn install_runs_the_cli_with_the_right_arguments() {
    let world = World { existing: strings(&["/usr/local/bin/code"]), ..World::default() };
    assert_eq!(complete(code().install(&host(Platform::Linux)), &|q| world.answer(q)), Ok(()));
    assert_eq!(
        world.asked.borrow().last(),
        Some(&Question::Execute {
            program: "/usr/local/bin/code".to_string(),
            args: strings(&["--install-extension", "WakaTime.vscode-wakatime"]),
        })
    );

    let world = World { existing: strings(&["/opt/idea/bin/idea"]), ..World::default() };
    assert_eq!(complete(idea().install(&host(Platform::Linux)), &|q| world.answer(q)), Ok(()));
    assert_eq!(
        world.asked.borrow().last(),
        Some(&Question::Execute {
            program: "/opt/idea/bin/idea".to_string(),
            args: strings(&["installPlugins", "com.wakatime.intellij.plugin"]),
        })
    );
}

#[test]
fn install_reports_a_cli_that_fails() {
    let world = World {
        existing: strings(&["/usr/bin/code"]),
        failing: strings(&["/usr/bin/code"]),
        ..World::default()
    };
    let outcome = complete(code().install(&host(Platform::Linux)), &|q| world.answer(q));
    assert_eq!(
        outcome,
        Err(InstallError::CliFailed { editor: "VS Code".to_string(), what: Addon::Extension })
    );
    assert_eq!(outcome.unwrap_err().message(), "Failed to install WakaTime extension for VS Code");

    let world = World {
        existing: strings(&["/snap/bin/idea"]),
        failing: strings(&["/snap/bin/idea"]),
        ..World::default()
    };
    let outcome = complete(idea().install(&host(Platform::Linux)), &|q| world.answer(q));
    assert_eq!(outcome.unwrap_err().message(), "Failed to install WakaTime plugin for IntelliJ IDEA");
}

#[test]
fn install_reports_a_cli_that_cannot_be_run() {
    let world = World {
        on_path: vec![("code".to_string(), "/gone/code".to_string())],
        ..World::default()
    };
    let outcome = complete(code().install(&host(Platform::Linux)), &|q| world.answer(q));
    assert_eq!(
        outcome,
        Err(InstallError::CliNotRun { reason: "No such file or directory (os error 2)".to_string() })
    );
    assert_eq!(outcome.unwrap_err().message(), "No such file or directory (os error 2)");
}

fn xcode_world(fail_at: &'static str) -> impl Fn(&Question) -> Answer {
    move |question: &Question| {
        let ran = |ok: bool| Answer::Ran {
            success: ok,
            stdout: String::new(),
            stderr: "stderr text".to_string(),
        };
        let failed = Answer::Failed { reason: "the reason".to_string() };
        match question {
            Question::PathExists { path } if path == "/Applications/WakaTime.app" => {
                Answer::Exists(fail_at == "present")
            }
            Question::MakeTempDir if fail_at == "tempdir" => failed,
            Question::MakeTempDir => Answer::TempDir { path: "/tmp/x1".to_string() },
            Question::Fetch { .. } if fail_at == "fetch" => failed,
            Question::Fetch { url } => {
                assert_eq!(
                    url,
                    "https://github.com/wakatime/macos-wakatime/releases/latest/download/macos-wakatime.zip"
                );
                if fail_at == "status" {
                    Answer::Response { status: 404, status_line: "404 Not Found".to_string() }
                } else {
                    Answer::Response { status: 200, status_line: "200 OK".to_string() }
                }
            }
            Question::ReadBody if fail_at == "body" => failed,
            Question::ReadBody => Answer::Body(vec![80, 75, 3, 4]),
            Question::WriteFile { path, contents } => {
                assert_eq!(path, "/tmp/x1/macos-wakatime.zip");
                assert_eq!(contents, &vec![80, 75, 3, 4]);
                if fail_at == "write" { failed } else { Answer::Written }
            }
            Question::Run { program, args } if program == "ditto" => {
                assert_eq!(args, &strings(&["-xk", "/tmp/x1/macos-wakatime.zip", "/tmp/x1"]));
                match fail_at {
                    "ditto" => failed,
                    "unzip" => ran(false),
                    _ => ran(true),
                }
            }
            Question::PathExists { path } => {
                assert_eq!(path, "/tmp/x1/WakaTime.app");
                Answer::Exists(fail_at != "missing")
            }
            Question::Run { program, args } => {
                assert_eq!(program, "cp");
                assert_eq!(args, &strings(&["-R", "/tmp/x1/WakaTime.app", "/Applications/WakaTime.app"]));
                match fail_at {
                    "cp" => failed,
                    "copy" => ran(false),
                    _ => ran(true),
                }
            }
            Question::Launch { program, args } => {
                assert_eq!(program, "open");
                assert_eq!(args, &strings(&["/Applications/WakaTime.app"]));
                if fail_at == "launch" { failed } else { Answer::Launched }
            }
            other => panic!("not asked for in this installation: {other:?}"),
        }
    }
}

fn xcode_message(fail_at: &'static str) -> String {
    complete(Xcode.install(&host(Platform::MacOs)), &xcode_world(fail_at)).unwrap_err().message()
}

#[test]
fn xcode_install_goes_through_every_step() {
    assert_eq!(Xcode::app_path(), "/Applications/WakaTime.app");
    assert_eq!(complete(Xcode.install(&host(Platform::MacOs)), &xcode_world("")), Ok(()));
}

#[test]
fn xcode_install_stops_at_once_when_the_app_is_there() {
    let installation = Xcode.install(&host(Platform::MacOs));
    assert_eq!(
        installation.pending(),
        Some(Question::PathExists { path: "/Applications/WakaTime.app".to_string() })
    );
    let installation = installation.advance(Answer::Exists(true));
    assert_eq!(installation.pending(), None);
    assert_eq!(installation.outcome(), Some(Ok(())));
    assert_eq!(installation, Installation::Xcode(XcodeInstall::Finished(Ok(()))));
}

#[test]
fn xcode_install_is_for_macos_only() {
    for platform in [Platform::Linux, Platform::Windows] {
        let installation = Xcode.install(&host(platform));
        assert_eq!(installation.pending(), None);
        assert_eq!(installation.outcome(), Some(Err(InstallError::Unsupported)));
    }
    assert_eq!(InstallError::Unsupported.message(), "Xcode is only supported on macOS");
}

#[test]
fn xcode_install_names_the_step_that_failed() {
    assert_eq!(xcode_message("tempdir"), "Failed to create temp directory: the reason");
    assert_eq!(xcode_message("fetch"), "Failed to download WakaTime for Mac: the reason");
    assert_eq!(xcode_message("status"), "Failed to download WakaTime for Mac (HTTP 404 Not Found)");
    assert_eq!(xcode_message("body"), "Failed to read download: the reason");
    assert_eq!(xcode_message("write"), "Failed to write zip file: the reason");
    assert_eq!(xcode_message("ditto"), "Failed to unzip: the reason");
    assert_eq!(xcode_message("unzip"), "Failed to unzip WakaTime.app: stderr text");
    assert_eq!(xcode_message("missing"), "WakaTime.app not found in downloaded archive");
    assert_eq!(xcode_message("cp"), "Failed to move WakaTime.app to /Applications: the reason");
    assert_eq!(xcode_message("copy"), "Failed to copy WakaTime.app to /Applications: stderr text");
    assert_eq!(xcode_message("launch"), "Failed to launch WakaTime.app: the reason");
}

#[test]
fn xcode_install_takes_only_statuses_of_success() {
    for (status, good) in [(199, false), (200, true), (204, true), (299, true), (300, false), (500, false)] {
        let stage = XcodeInstall::Fetching { tmp: "/t".to_string() }
            .advance(Answer::Response { status, status_line: format!("{status} X") });
        if good {
            assert_eq!(stage, XcodeInstall::ReadingBody { tmp: "/t".to_string() });
        } else {
            assert_eq!(
                stage,
                XcodeInstall::Finished(Err(InstallError::HttpStatus { status_line: format!("{status} X") }))
            );
        }
    }
}

#[test]
fn an_answer_of_the_wrong_kind_is_a_failure() {
    let stage = XcodeInstall::MakingTempDir.advance(Answer::Written);
    assert_eq!(
        stage,
        XcodeInstall::Finished(Err(InstallError::TempDir { reason: "unexpected answer".to_string() }))
    );
    assert_eq!(Answer::Written.reason(), "unexpected answer");
    assert_eq!(Answer::Failed { reason: "why".to_string() }.reason(), "why");
}

#[test]
fn a_finished_installation_stays_as_it_is() {
    let done = Xcode.install(&host(Platform::Linux)).advance(Answer::Exists(true));
    assert_eq!(done.outcome(), Some(Err(InstallError::Unsupported)));
    let world = World::default();
    let mut installation = code().install(&bare(Platform::Windows));
    while let Some(question) = installation.pending() {
        installation = installation.advance(world.answer(&question));
    }
    let again = installation.advance(Answer::Ran { success: true, stdout: String::new(), stderr: String::new() });
    assert_eq!(again.outcome(), Some(Err(InstallError::CliNotFound { editor: "VS Code".to_string() })));
}

#[test]
fn zed_is_found_by_its_cli_on_the_search_path() {
    let on_path = World {
        on_path: vec![("zed".to_string(), "/usr/local/bin/zed".to_string())],
        ..World::default()
    };
    assert_eq!(
        drive(Zed.is_installed(&host(Platform::Linux)), &|q| on_path.answer(q)),
        Some("/usr/local/bin/zed".to_string())
    );
    assert_eq!(
        *on_path.asked.borrow(),
        vec![Question::Run { program: "which".to_string(), args: strings(&["zed"]) }]
    );

    // a file of that name somewhere else does not count
    let elsewhere = World { existing: strings(&["/usr/bin/zed"]), ..World::default() };
    assert_eq!(drive(Zed.is_installed(&host(Platform::Linux)), &|q| elsewhere.answer(q)), None);
    assert_eq!(elsewhere.asked_paths(), Vec::<String>::new());
    assert_eq!(drive(Zed.is_installed(&host(Platform::MacOs)), &nothing_works), None);
}

#[test]
fn zed_is_looked_up_with_where_on_windows() {
    let world = |question: &Question| match question {
        Question::Run { program, args } if program == "where" && args == &strings(&["zed"]) => {
            Answer::Ran {
                success: true,
                stdout: "C:\\zed\\zed.exe\r\n".to_string(),
                stderr: String::new(),
            }
        }
        _ => Answer::Failed { reason: "program not found".to_string() },
    };
    assert_eq!(
        drive(Zed.find_cli(&host(Platform::Windows)), &world),
        Some("C:\\zed\\zed.exe".to_string())
    );
    assert_eq!(drive(Zed.find_cli(&host(Platform::Linux)), &world), None);
}

#[test]
fn zed_installs_through_its_cli() {
    assert_eq!(Zed.name(), "Zed");
    let world = World {
        on_path: vec![("zed".to_string(), "/opt/zed/bin/zed".to_string())],
        existing: strings(&["/opt/zed/bin/zed"]),
        ..World::default()
    };
    assert_eq!(complete(Zed.install(&host(Platform::Linux)), &|q| world.answer(q)), Ok(()));
    assert_eq!(
        world.asked.borrow().last(),
        Some(&Question::Execute {
            program: "/opt/zed/bin/zed".to_string(),
            args: strings(&["--install-extension", "wakatime"]),
        })
    );

    let failing = World {
        on_path: vec![("zed".to_string(), "/opt/zed/bin/zed".to_string())],
        failing: strings(&["/opt/zed/bin/zed"]),
        ..World::default()
    };
    let outcome = complete(Zed.install(&host(Platform::Linux)), &|q| failing.answer(q));
    assert_eq!(outcome.unwrap_err().message(), "Failed to install WakaTime extension for Zed");

    let missing = World::default();
    let outcome = complete(Zed.install(&host(Platform::Linux)), &|q| missing.answer(q));
    assert_eq!(outcome, Err(InstallError::CliNotFound { editor: "Zed".to_string() }));
    assert_eq!(outcome.unwrap_err().message(), "Zed CLI not found");
}
