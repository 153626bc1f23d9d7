use hackatime_setup::config::{
    build_config, check_parsed_key, config_file_text, config_text, config_with,
    generate_random_hostname, hostname_from_draws, validate_api_key,
};
use hackatime_setup::host::Platform;
use hackatime_setup::reader::{read_property, read_settings};
use ini::Ini;

const MALFORMED: &str = "API key must be a valid UUID. Did you copy the command incorrectly?";
const NOT_V4: &str = "API key must be a valid UUIDv4";
const HELP: &str = "\n# help with config: https://github.com/wakatime/wakatime-cli/blob/develop/USAGE.md#ini-config-file";

fn settings(conf: &Ini) -> Vec<(String, String)> {
    conf.section(Some("settings"))
        .map(|props| props.iter().map(|(k, v)| (k.to_string(), v.to_string())).collect())
        .unwrap_or_default()
}

fn pair(key: &str, value: &str) -> (String, String) {
    (key.to_string(), value.to_string())
}

#[test]
fn accepts_a_version_4_key() {
    assert_eq!(validate_api_key("123e4567-e89b-42d3-a456-426614174000"), Ok(()));
}

#[test]
fn accepts_a_version_4_key_in_every_spelling() {
    assert_eq!(validate_api_key("123e4567e89b42d3a456426614174000"), Ok(()));
    assert_eq!(validate_api_key("{123e4567-e89b-42d3-a456-426614174000}"), Ok(()));
    assert_eq!(validate_api_key("urn:uuid:123e4567-e89b-42d3-a456-426614174000"), Ok(()));
    assert_eq!(validate_api_key("123E4567-E89B-42D3-A456-426614174000"), Ok(()));
}

#[test]
fn rejects_a_malformed_key() {
    assert_eq!(validate_api_key("not-a-uuid"), Err(MALFORMED.to_string()));
    assert_eq!(validate_api_key(""), Err(MALFORMED.to_string()));
    assert_eq!(validate_api_key("123e4567-e89b-42d3-a456-42661417400"), Err(MALFORMED.to_string()));
    assert_eq!(validate_api_key("123e4567-e89b-42d3-a456-42661417400g"), Err(MALFORMED.to_string()));
    assert_eq!(validate_api_key(" 123e4567-e89b-42d3-a456-426614174000"), Err(MALFORMED.to_string()));
}

#[test]
fn rejects_other_versions() {
    // version 1, 3 and 5
    assert_eq!(validate_api_key("123e4567-e89b-12d3-a456-426614174000"), Err(NOT_V4.to_string()));
    assert_eq!(validate_api_key("02f09a3f-1624-3b1d-8409-44eff7708208"), Err(NOT_V4.to_string()));
    assert_eq!(validate_api_key("123e4567-e89b-52d3-a456-426614174000"), Err(NOT_V4.to_string()));
    // the nil UUID has version 0
    assert_eq!(validate_api_key("00000000-0000-0000-0000-000000000000"), Err(NOT_V4.to_string()));
}

#[test]
fn judges_a_parsed_key_by_its_version_field() {
    assert_eq!(check_parsed_key(None), Err(MALFORMED.to_string()));
    assert_eq!(check_parsed_key(Some(0x123e4567_e89b_42d3_a456_426614174000)), Ok(()));
    assert_eq!(check_parsed_key(Some(4u128 << 76)), Ok(()));
    assert_eq!(check_parsed_key(Some(u128::MAX)), Err(NOT_V4.to_string()));
    assert_eq!(check_parsed_key(Some(4)), Err(NOT_V4.to_string()));
    assert_eq!(check_parsed_key(Some(7u128 << 76)), Err(NOT_V4.to_string()));
}

#[test]
fn random_hostnames_are_six_upper_case_letters() {
    for _ in 0..200 {
        let name = generate_random_hostname();
        assert_eq!(name.chars().count(), 6);
        assert!(name.chars().all(|c| c.is_ascii_uppercase()), "{name}");
    }
}

#[test]
fn hostname_spelled_by_given_draws() {
    assert_eq!(hostname_from_draws(&vec![65, 66, 67, 88, 89, 90]), Some("ABCXYZ".to_string()));
    assert_eq!(hostname_from_draws(&vec![72, 72, 72, 72, 72, 72]), Some("HHHHHH".to_string()));
}

#[test]
fn hostname_needs_six_letters() {
    assert_eq!(hostname_from_draws(&vec![]), None);
    assert_eq!(hostname_from_draws(&vec![65, 66, 67, 68, 69]), None);
    assert_eq!(hostname_from_draws(&vec![65, 66, 67, 68, 69, 70, 71]), None);
    assert_eq!(hostname_from_draws(&vec![65, 66, 67, 68, 69, 64]), None);
    assert_eq!(hostname_from_draws(&vec![91, 66, 67, 68, 69, 70]), None);
    assert_eq!(hostname_from_draws(&vec![97, 98, 99, 100, 101, 102]), None);
}

#[test]
fn quick_setup_holds_the_four_base_settings() {
    let (conf, hostname) = build_config("the-key", "https://example.test/api", false, true, true);
    assert_eq!(hostname, None);
    assert_eq!(
        settings(&conf),
        vec![
            pair("api_url", "https://example.test/api"),
            pair("api_key", "the-key"),
            pair("heartbeat_rate_limit_seconds", "30"),
            pair("exclude_unknown_project", "true"),
        ]
    );
    let names: Vec<Option<&str>> = conf.sections().collect();
    assert_eq!(names, vec![None, Some("settings")]);
    assert!(conf.general_section().is_empty());
}

#[test]
fn advanced_setup_adds_what_was_asked_for() {
    let (conf, hostname) = build_config("k", "u", true, true, false);
    assert_eq!(hostname, None);
    assert_eq!(settings(&conf).len(), 5);
    assert_eq!(settings(&conf)[4], pair("hide_branch_names", "true"));

    let (conf, hostname) = build_config("k", "u", true, false, true);
    let name = hostname.expect("a host name was asked for");
    assert_eq!(name.len(), 6);
    assert!(name.chars().all(|c| c.is_ascii_uppercase()));
    assert_eq!(settings(&conf).len(), 5);
    assert_eq!(settings(&conf)[4], pair("hostname", &name));

    let (conf, hostname) = build_config("k", "u", true, true, true);
    let name = hostname.expect("a host name was asked for");
    assert_eq!(settings(&conf).len(), 6);
    assert_eq!(settings(&conf)[4], pair("hide_branch_names", "true"));
    assert_eq!(settings(&conf)[5], pair("hostname", &name));

    let (conf, hostname) = build_config("k", "u", true, false, false);
    assert_eq!(hostname, None);
    assert_eq!(settings(&conf).len(), 4);
}

#[test]
fn config_with_a_given_hostname() {
    let conf = config_with("k", "u", false, Some("QWERTY"));
    assert_eq!(
        settings(&conf),
        vec![
            pair("api_url", "u"),
            pair("api_key", "k"),
            pair("heartbeat_rate_limit_seconds", "30"),
            pair("exclude_unknown_project", "true"),
            pair("hostname", "QWERTY"),
        ]
    );
}

#[test]
fn text_of_the_file() {
    let conf = config_with("123e4567-e89b-42d3-a456-426614174000", "https://h.test/v1", false, None);
    assert_eq!(
        config_text(&conf, Platform::Linux),
        "[settings]\n\
         api_url = https://h.test/v1\n\
         api_key = 123e4567-e89b-42d3-a456-426614174000\n\
         heartbeat_rate_limit_seconds = 30\n\
         exclude_unknown_project = true\n"
    );
    assert_eq!(config_text(&conf, Platform::MacOs), config_text(&conf, Platform::Linux));
}

#[test]
fn text_of_the_file_on_windows_ends_lines_with_cr_lf() {
    let conf = config_with("k", "u", true, None);
    assert_eq!(
        config_text(&conf, Platform::Windows),
        "[settings]\r\napi_url = u\r\napi_key = k\r\nheartbeat_rate_limit_seconds = 30\r\n\
         exclude_unknown_project = true\r\nhide_branch_names = true\r\n"
    );
}

#[test]
fn file_text_is_the_settings_and_the_help_comment() {
    let conf = config_with("k", "u", false, None);
    for platform in [Platform::Linux, Platform::MacOs, Platform::Windows] {
        let text = config_text(&conf, platform);
        let preview = config_file_text(&conf, platform);
        assert_eq!(preview, format!("{text}{HELP}"));
        assert!(preview.ends_with("#ini-config-file"));
    }
}

#[test]
fn separator_is_space_equals_space() {
    let conf = config_with("k", "u", true, Some("ABCDEF"));
    let text = config_text(&conf, Platform::Linux);
    let mut lines = text.lines();
    assert_eq!(lines.next(), Some("[settings]"));
    let mut count = 0;
    for line in lines {
        let (key, value) = line.split_once(" = ").expect("a separator on every line");
        assert!(!key.contains('=') && !key.ends_with(' '));
        assert!(!value.starts_with(' '));
        count += 1;
    }
    assert_eq!(count, 6);
}

#[test]
fn written_text_parses_back_to_the_same_settings() {
    let cases = [
        ("123e4567-e89b-42d3-a456-426614174000", "https://hackatime.hackclub.com/api/hackatime/v1"),
        ("key with spaces", "http://localhost:3000/a?b=c&d=e"),
        ("back\\slash", "tab\there"),
        ("", "x"),
    ];
    for (key, url) in cases {
        for platform in [Platform::Linux, Platform::Windows] {
            let conf = config_with(key, url, true, Some("HOSTNM"));
            let parsed = Ini::load_from_str(&config_text(&conf, platform)).unwrap();
            assert_eq!(settings(&parsed), settings(&conf));
            let previewed = Ini::load_from_str(&config_file_text(&conf, platform)).unwrap();
            assert_eq!(settings(&previewed), settings(&conf));
        }
    }
}

#[test]
fn a_line_holds_one_property_or_none() {
    assert_eq!(read_property("api_url = https://h.test/v1"), Some(pair("api_url", "https://h.test/v1")));
    assert_eq!(read_property("  key=value  "), Some(pair("key", "value")));
    assert_eq!(read_property("key: value"), Some(pair("key", "value")));
    assert_eq!(read_property("a = b = c"), Some(pair("a", "b = c")));
    assert_eq!(read_property("a ="), Some(pair("a", "")));
    assert_eq!(read_property("= b"), Some(pair("", "b")));
    assert_eq!(read_property(""), None);
    assert_eq!(read_property("   \t"), None);
    assert_eq!(read_property("# a = b"), None);
    assert_eq!(read_property("  ; a = b"), None);
    assert_eq!(read_property("[settings]"), None);
    assert_eq!(read_property(" [a=b]"), None);
    assert_eq!(read_property("no delimiter here"), None);
}

#[test]
fn reading_what_was_written_gives_the_settings_back() {
    let cases = [
        ("123e4567-e89b-42d3-a456-426614174000", "https://hackatime.hackclub.com/api/hackatime/v1"),
        ("key with spaces", "http://localhost:3000/a?b=c&d=e#f;g"),
        ("k", "u"),
        ("", ""),
    ];
    for (key, url) in cases {
        for platform in [Platform::Linux, Platform::MacOs, Platform::Windows] {
            for hide in [false, true] {
                for hostname in [None, Some("ABCDEF")] {
                    let conf = config_with(key, url, hide, hostname);
                    assert_eq!(read_settings(&config_text(&conf, platform)), settings(&conf));
                    assert_eq!(read_settings(&config_file_text(&conf, platform)), settings(&conf));
                }
            }
        }
    }
}

#[test]
fn reading_agrees_with_the_ini_parser() {
    let texts = [
        "[settings]\napi_url = u\napi_key = k\n",
        "[settings]\r\napi_url = u\r\n\r\n# comment\r\napi_key=k\r\n",
        "; nothing\n[a]\nx = 1\n[b]\ny : 2\n",
        "",
    ];
    for text in texts {
        let parsed = Ini::load_from_str(text).unwrap();
        let mut all = Vec::new();
        for (_, props) in parsed.iter() {
            for (k, v) in props.iter() {
                all.push(pair(k, v));
            }
        }
        assert_eq!(read_settings(text), all, "{text:?}");
    }
}

#[test]
fn what_is_not_read_back_as_it_was_written() {
    // a value with a blank at its end comes back without it
    let conf = config_with("key ", "u", false, None);
    assert_eq!(read_settings(&config_text(&conf, Platform::Linux))[1], pair("api_key", "key"));
    // a backslash is written as two
    let conf = config_with("a\\b", "u", false, None);
    assert_eq!(read_settings(&config_text(&conf, Platform::Linux))[1], pair("api_key", "a\\\\b"));
}
