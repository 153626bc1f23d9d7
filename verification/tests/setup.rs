use hackatime_setup::editor_plugins::install::InstallError;
use hackatime_setup::editor_plugins::{all_editors, EditorPlugin, Installation};
use hackatime_setup::host::{Host, Platform};
use hackatime_setup::probe::{Answer, Question};
use hackatime_setup::search::Search;
use hackatime_setup::setup::{Action, Event, Setup, Stream};
use ini::Ini;

const KEY: &str = "123e4567-e89b-42d3-a456-426614174000";
const URL: &str = "https://hackatime.hackclub.com/api/hackatime/v1";
const HELP: &str = "\n# help with config: https://github.com/wakatime/wakatime-cli/blob/develop/USAGE.md#ini-config-file";

fn linux() -> Host {
    Host {
        platform: Platform::Linux,
        home: Some("/home/me".to_string()),
        app_data: None,
        local_app_data: None,
        program_files: None,
    }
}

fn homeless() -> Host {
    Host { platform: Platform::Linux, home: None, app_data: None, local_app_data: None, program_files: None }
}

fn detect(mut search: Search, world: &dyn Fn(&Question) -> Answer) -> bool {
    while let Some(question) = search.pending() {
        search = search.advance(&world(&question));
    }
    search.outcome().unwrap().is_some()
}

fn install(mut installation: Installation, world: &dyn Fn(&Question) -> Answer) -> Result<(), InstallError> {
    while let Some(question) = installation.pending() {
        installation = installation.advance(world(&question));
    }
    installation.outcome().unwrap()
}

fn nothing_there(question: &Question) -> Answer {
    match question {
        Question::PathExists { .. } => Answer::Exists(false),
        Question::Run { .. } | Question::Execute { .. } => Answer::Ran {
            success: false,
            stdout: String::new(),
            stderr: String::new(),
        },
        _ => Answer::Failed { reason: "nothing here".to_string() },
    }
}

fn keys_of(text: &str) -> Vec<(String, String)> {
    let parsed = Ini::load_from_str(text).unwrap();
    let names: Vec<Option<&str>> = parsed.sections().collect();
    assert_eq!(names, vec![None, Some("settings")]);
    parsed
        .section(Some("settings"))
        .unwrap()
        .iter()
        .map(|(k, v)| (k.to_string(), v.to_string()))
        .collect()
}

fn pair(key: &str, value: &str) -> (String, String) {
    (key.to_string(), value.to_string())
}

fn exit(code: u8, message: &str) -> Action {
    Action::Exit { code, message: message.to_string(), stream: Stream::Stderr }
}

fn told(message: &str) -> Action {
    Action::Exit { code: 0, message: message.to_string(), stream: Stream::Stdout }
}

/// A setup that has got as far as asking which editors to install into,
/// with the editors at `installed` found.
fn up_to_choice(installed: &[usize]) -> Setup {
    let setup = Setup::start(KEY, URL, linux())
        .advance(Event::ModeChosen { advanced: false })
        .advance(Event::Answered { yes: true })
        .advance(Event::Written);
    assert_eq!(setup.pending(), Action::Detect);
    let flags = (0..all_editors().len()).map(|i| installed.contains(&i)).collect();
    setup.advance(Event::Detected { installed: flags })
}

#[test]
fn invalid_key_exits_with_status_1_before_anything_else() {
    let setup = Setup::start("not-a-uuid", URL, linux());
    assert!(setup.is_finished());
    assert_eq!(
        setup.pending(),
        exit(1, "API key must be a valid UUID. Did you copy the command incorrectly?")
    );
    let still = setup.advance(Event::ModeChosen { advanced: false });
    assert_eq!(
        still.pending(),
        exit(1, "API key must be a valid UUID. Did you copy the command incorrectly?")
    );
    let v1 = Setup::start("123e4567-e89b-12d3-a456-426614174000", URL, linux());
    assert_eq!(v1.pending(), exit(1, "API key must be a valid UUIDv4"));
}

#[test]
fn quick_setup_without_editors_writes_the_config_and_exits_0() {
    let setup = Setup::start(KEY, URL, linux());
    assert!(!setup.is_finished());
    assert_eq!(setup.pending(), Action::ChooseMode);

    let setup = setup.advance(Event::ModeChosen { advanced: false });
    let Action::ConfirmWrite { preview, hostname } = setup.pending() else {
        panic!("the configuration is not shown: {:?}", setup.pending());
    };
    assert_eq!(hostname, None);
    assert!(preview.ends_with(HELP));

    let setup = setup.advance(Event::Answered { yes: true });
    let Action::WriteConfig { path, contents } = setup.pending() else {
        panic!("the configuration is not written: {:?}", setup.pending());
    };
    assert_eq!(path, "/home/me/.wakatime.cfg");
    // what is written is what was shown, closing comment and all
    assert_eq!(contents, preview);
    assert!(contents.ends_with(HELP));
    assert_eq!(
        contents,
        format!(
            "[settings]\napi_url = {URL}\napi_key = {KEY}\nheartbeat_rate_limit_seconds = 30\n\
             exclude_unknown_project = true\n{HELP}"
        )
    );
    assert_eq!(
        keys_of(&contents),
        vec![
            pair("api_url", URL),
            pair("api_key", KEY),
            pair("heartbeat_rate_limit_seconds", "30"),
            pair("exclude_unknown_project", "true"),
        ]
    );

    let setup = setup.advance(Event::Written);
    assert_eq!(setup.pending(), Action::Detect);
    let installed: Vec<bool> =
        all_editors().iter().map(|e| detect(e.is_installed(&linux()), &nothing_there)).collect();
    assert!(installed.iter().all(|found| !found));

    let setup = setup.advance(Event::Detected { installed });
    assert!(setup.is_finished());
    assert_eq!(setup.pending(), told("No supported editors found."));
}

#[test]
fn an_editor_without_cli_fails_to_install_and_the_run_goes_on() {
    // only the directory of VSCodium is there, so it is detected, and its
    // command-line tool is nowhere
    let world = |question: &Question| match question {
        Question::PathExists { path } => Answer::Exists(path == "/home/me/.vscode-oss"),
        other => nothing_there(other),
    };
    let editors = all_editors();
    let installed: Vec<bool> = editors.iter().map(|e| detect(e.is_installed(&linux()), &world)).collect();
    assert_eq!(installed.iter().filter(|found| **found).count(), 1);
    assert!(installed[4]);

    let setup = Setup::start(KEY, URL, linux())
        .advance(Event::ModeChosen { advanced: false })
        .advance(Event::Answered { yes: true })
        .advance(Event::Written)
        .advance(Event::Detected { installed });
    assert_eq!(setup.pending(), Action::ChooseEditors { names: vec!["VSCodium".to_string()] });

    let setup = setup.advance(Event::Selected { picks: vec![0] });
    assert_eq!(setup.pending(), Action::Install { editors: vec![4] });
    let outcome = install(editors[4].install(&linux()), &world);
    let message = outcome.unwrap_err().message();
    assert!(message.contains("CLI not found"), "{message}");
    assert_eq!(message, "VSCodium CLI not found");

    let setup = setup.advance(Event::Installed);
    assert_eq!(setup.pending(), Action::SendHeartbeat);
    let setup = setup.advance(Event::HeartbeatDone);
    assert!(setup.is_finished());
    assert_eq!(setup.pending(), exit(0, ""));
}

#[test]
fn advanced_setup_asks_both_questions() {
    let setup = Setup::start(KEY, URL, linux()).advance(Event::ModeChosen { advanced: true });
    assert_eq!(setup.pending(), Action::AskHideBranch);
    let setup = setup.advance(Event::Answered { yes: true });
    assert_eq!(setup.pending(), Action::AskAnonymize);
    let setup = setup.advance(Event::Answered { yes: true });
    let Action::ConfirmWrite { preview, hostname } = setup.pending() else {
        panic!("the configuration is not shown: {:?}", setup.pending());
    };
    let name = hostname.expect("a host name was asked for");
    assert_eq!(name.len(), 6);
    assert!(name.chars().all(|c| c.is_ascii_uppercase()));
    assert_eq!(
        keys_of(&preview),
        vec![
            pair("api_url", URL),
            pair("api_key", KEY),
            pair("heartbeat_rate_limit_seconds", "30"),
            pair("exclude_unknown_project", "true"),
            pair("hide_branch_names", "true"),
            pair("hostname", &name),
        ]
    );
    // the same configuration is shown and written
    let Action::WriteConfig { contents, .. } = setup.advance(Event::Answered { yes: true }).pending() else {
        panic!("the configuration is not written");
    };
    assert_eq!(contents, preview);
    assert!(contents.ends_with(HELP));
}

#[test]
fn advanced_setup_with_both_answers_no_is_the_quick_setup() {
    let setup = Setup::start(KEY, URL, linux())
        .advance(Event::ModeChosen { advanced: true })
        .advance(Event::Answered { yes: false })
        .advance(Event::Answered { yes: false });
    let quick = Setup::start(KEY, URL, linux()).advance(Event::ModeChosen { advanced: false });
    assert_eq!(setup.pending(), quick.pending());
}

#[test]
fn declining_the_write_exits_0() {
    let setup = Setup::start(KEY, URL, linux())
        .advance(Event::ModeChosen { advanced: false })
        .advance(Event::Answered { yes: false });
    assert_eq!(setup.pending(), exit(0, "Understood, exiting now."));
}

#[test]
fn missing_home_directory_is_fatal() {
    let setup = Setup::start(KEY, URL, homeless())
        .advance(Event::ModeChosen { advanced: false })
        .advance(Event::Answered { yes: true });
    assert_eq!(setup.pending(), exit(1, "Could not find home directory"));
}

#[test]
fn selecting_no_editor_exits_0() {
    let setup = up_to_choice(&[0, 9]);
    assert_eq!(
        setup.pending(),
        Action::ChooseEditors { names: vec!["VS Code".to_string(), "PyCharm".to_string()] }
    );
    let setup = setup.advance(Event::Selected { picks: vec![] });
    assert_eq!(setup.pending(), told("No editors selected."));
}

#[test]
fn selection_picks_among_the_editors_offered() {
    let setup = up_to_choice(&[1, 6, 19]);
    assert_eq!(
        setup.pending(),
        Action::ChooseEditors {
            names: vec!["Cursor".to_string(), "Xcode".to_string(), "AppCode".to_string()]
        }
    );
    assert_eq!(
        up_to_choice(&[1, 6, 19]).advance(Event::Selected { picks: vec![2, 0] }).pending(),
        Action::Install { editors: vec![19, 1] }
    );
    assert_eq!(
        up_to_choice(&[1, 6, 19]).advance(Event::Selected { picks: vec![0, 1, 2] }).pending(),
        Action::Install { editors: vec![1, 6, 19] }
    );
    // a pick that points past the list chooses nothing
    assert_eq!(
        up_to_choice(&[1, 6, 19]).advance(Event::Selected { picks: vec![3, 1] }).pending(),
        Action::Install { editors: vec![6] }
    );
    assert_eq!(
        up_to_choice(&[1]).advance(Event::Selected { picks: vec![7] }).pending(),
        told("No editors selected.")
    );
}

#[test]
fn detection_report_of_the_wrong_length() {
    let setup = Setup::start(KEY, URL, linux())
        .advance(Event::ModeChosen { advanced: false })
        .advance(Event::Answered { yes: true })
        .advance(Event::Written);
    let short = setup.clone().advance(Event::Detected { installed: vec![false, true] });
    assert_eq!(short.pending(), Action::ChooseEditors { names: vec!["Cursor".to_string()] });
    let mut long = vec![false; 25];
    long[19] = true;
    long[20] = true;
    long[24] = true;
    let long = setup.advance(Event::Detected { installed: long });
    assert_eq!(long.pending(), Action::ChooseEditors { names: vec!["AppCode".to_string()] });
}

#[test]
fn a_failure_ends_the_setup_with_status_1() {
    let failed = Event::Failed { reason: "IO error: not a terminal".to_string() };
    let setup = Setup::start(KEY, URL, linux()).advance(failed.clone());
    assert_eq!(setup.pending(), exit(1, "IO error: not a terminal"));
    let setup = Setup::start(KEY, URL, linux())
        .advance(Event::ModeChosen { advanced: false })
        .advance(Event::Answered { yes: true })
        .advance(Event::Failed { reason: "Permission denied (os error 13)".to_string() });
    assert_eq!(setup.pending(), exit(1, "Permission denied (os error 13)"));
}

#[test]
fn a_failed_heartbeat_is_only_a_warning() {
    let setup = up_to_choice(&[0]).advance(Event::Selected { picks: vec![0] }).advance(Event::Installed);
    assert_eq!(setup.pending(), Action::SendHeartbeat);
    let setup = setup.advance(Event::Failed { reason: "Test heartbeat failed (500): ".to_string() });
    assert_eq!(setup.pending(), exit(0, ""));
}

#[test]
fn an_event_out_of_turn_ends_the_setup() {
    let setup = Setup::start(KEY, URL, linux()).advance(Event::Written);
    assert_eq!(setup.pending(), exit(1, "unexpected event"));
    let setup = Setup::start(KEY, URL, linux())
        .advance(Event::ModeChosen { advanced: true })
        .advance(Event::ModeChosen { advanced: true });
    assert_eq!(setup.pending(), exit(1, "unexpected event"));
}

#[test]
fn windows_config_goes_into_the_home_directory_with_cr_lf() {
    let host = Host {
        platform: Platform::Windows,
        home: Some("C:\\Users\\me".to_string()),
        app_data: None,
        local_app_data: None,
        program_files: None,
    };
    let setup = Setup::start(KEY, URL, host)
        .advance(Event::ModeChosen { advanced: false })
        .advance(Event::Answered { yes: true });
    let Action::WriteConfig { path, contents } = setup.pending() else {
        panic!("the configuration is not written");
    };
    assert_eq!(path, "C:\\Users\\me\\.wakatime.cfg");
    assert!(contents.starts_with("[settings]\r\napi_url = "));
    assert!(contents.ends_with(&format!("exclude_unknown_project = true\r\n{HELP}")));
}

#[test]
fn zed_is_offered_between_xcode_and_intellij() {
    let setup = up_to_choice(&[6, 7, 8]);
    assert_eq!(
        setup.pending(),
        Action::ChooseEditors {
            names: vec!["Xcode".to_string(), "Zed".to_string(), "IntelliJ IDEA".to_string()]
        }
    );
    assert_eq!(
        setup.advance(Event::Selected { picks: vec![1] }).pending(),
        Action::Install { editors: vec![7] }
    );
}

#[test]
fn declining_goes_to_standard_error_and_no_editors_to_standard_output() {
    let declined = Setup::start(KEY, URL, linux())
        .advance(Event::ModeChosen { advanced: false })
        .advance(Event::Answered { yes: false });
    assert_eq!(
        declined.pending(),
        Action::Exit {
            code: 0,
            message: "Understood, exiting now.".to_string(),
            stream: Stream::Stderr
        }
    );
    assert_eq!(
        up_to_choice(&[]).pending(),
        Action::Exit {
            code: 0,
            message: "No supported editors found.".to_string(),
            stream: Stream::Stdout
        }
    );
}
