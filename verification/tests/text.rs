use hackatime_setup::heartbeat::{heartbeat_outcome, send_test_heartbeat, Heartbeat};
use hackatime_setup::host::{join, Platform};
use hackatime_setup::preview::{boxed, chunk_line, content_width, wrap_text};
use hackatime_setup::probe::{begins_with_any, dirs_matching, Answer, Locator, Probe, Question};
use hackatime_setup::text::{chars_of, first_line, is_space, split_lines, starts_with, trim};

fn strings(list: &[&str]) -> Vec<String> {
    list.iter().map(|s| s.to_string()).collect()
}

#[test]
fn trim_agrees_with_std() {
    let cases = [
        "",
        " ",
        "a",
        "  a  ",
        "\t\n a b \r\n",
        "\u{a0}x\u{3000}",
        "\u{2000}\u{200a}y\u{2028}\u{2029}\u{202f}\u{205f}\u{1680}\u{85}",
        "\u{200b}z\u{200b}",
        "\u{b}\u{c}q\u{1c}",
        "   ",
        "é ",
    ];
    for case in cases {
        assert_eq!(trim(case), case.trim(), "{case:?}");
    }
}

#[test]
fn whitespace_is_what_std_calls_whitespace() {
    for code in 0..0x11000u32 {
        if let Some(c) = char::from_u32(code) {
            assert_eq!(is_space(c), c.is_whitespace(), "U+{code:04X}");
        }
    }
}

#[test]
fn prefixes() {
    assert!(starts_with("IntelliJIdea2024.1", "IntelliJIdea"));
    assert!(starts_with("abc", ""));
    assert!(starts_with("abc", "abc"));
    assert!(!starts_with("abc", "abcd"));
    assert!(!starts_with("abc", "b"));
    assert!(!starts_with("", "a"));
    assert!(begins_with_any("PyCharmCE2024", &strings(&["Idea", "PyCharm"])));
    assert!(!begins_with_any("PyCharmCE2024", &strings(&["Idea", "yCharm"])));
    assert!(!begins_with_any("PyCharmCE2024", &Vec::new()));
}

#[test]
fn first_lines() {
    assert_eq!(first_line("one\ntwo\n"), "one");
    assert_eq!(first_line("one"), "one");
    assert_eq!(first_line("\ntwo"), "");
    assert_eq!(first_line(""), "");
    assert_eq!(first_line("a\r\nb"), "a\r");
    assert_eq!(chars_of("héllo"), vec!['h', 'é', 'l', 'l', 'o']);
}

#[test]
fn joining_paths() {
    assert_eq!(join(Platform::Linux, "/home/me", ".vscode"), "/home/me/.vscode");
    assert_eq!(join(Platform::Linux, "/home/me/", ".vscode"), "/home/me/.vscode");
    assert_eq!(join(Platform::Linux, "", ".vscode"), ".vscode");
    assert_eq!(join(Platform::Linux, "/", "x"), "/x");
    assert_eq!(join(Platform::MacOs, "/Users/me", "Library/Application Support/JetBrains"),
        "/Users/me/Library/Application Support/JetBrains");
    assert_eq!(join(Platform::Windows, "C:\\Users\\me", "JetBrains"), "C:\\Users\\me\\JetBrains");
    assert_eq!(join(Platform::Windows, "C:\\Users\\me\\", "JetBrains"), "C:\\Users\\me\\JetBrains");
    assert_eq!(join(Platform::Windows, "C:/Users/me/", "JetBrains"), "C:/Users/me/JetBrains");
    assert_eq!(join(Platform::Linux, "a\\", "b"), "a\\/b");
}

#[test]
fn directories_that_match() {
    assert_eq!(
        dirs_matching(Platform::Linux, "/r", &strings(&["Go", "Web"]), &strings(&["WebStorm1", "x", "GoLand2", "Go"])),
        strings(&["/r/WebStorm1", "/r/GoLand2", "/r/Go"])
    );
}

#[test]
fn probes_ask_and_weigh() {
    let which = Probe::Locate { tool: Locator::Which, command: "code".to_string() };
    assert_eq!(which.question(), Question::Run { program: "which".to_string(), args: strings(&["code"]) });
    let ran = |success: bool, stdout: &str| Answer::Ran {
        success,
        stdout: stdout.to_string(),
        stderr: String::new(),
    };
    assert_eq!(which.evidence(&ran(true, "/usr/bin/code\n")), Some("/usr/bin/code".to_string()));
    assert_eq!(which.evidence(&ran(true, "/a\n/b\n")), Some("/a\n/b".to_string()));
    assert_eq!(which.evidence(&ran(false, "/usr/bin/code\n")), None);
    assert_eq!(which.evidence(&ran(true, "\n")), None);
    assert_eq!(which.evidence(&Answer::Exists(true)), None);
    let wher = Probe::Locate { tool: Locator::Where, command: "code".to_string() };
    assert_eq!(wher.question(), Question::Run { program: "where".to_string(), args: strings(&["code"]) });
    assert_eq!(wher.evidence(&ran(true, " C:\\a \r\nC:\\b\r\n")), Some("C:\\a".to_string()));
    assert_eq!(wher.evidence(&ran(true, "\r\nC:\\b\r\n")), None);
    let exists = Probe::Exists { path: "/p".to_string() };
    assert_eq!(exists.question(), Question::PathExists { path: "/p".to_string() });
    assert_eq!(exists.evidence(&Answer::Exists(true)), Some("/p".to_string()));
    assert_eq!(exists.evidence(&Answer::Exists(false)), None);
    assert_eq!(exists.evidence(&Answer::Failed { reason: "denied".to_string() }), None);
    let runs = Probe::Succeeds { program: "xcrun".to_string(), args: strings(&["--version"]) };
    assert_eq!(runs.evidence(&ran(true, "")), Some("xcrun".to_string()));
    assert_eq!(runs.evidence(&ran(false, "")), None);
}

#[test]
fn lines_as_std_splits_them() {
    let cases = ["", "a", "a\n", "a\nb", "a\n\nb\n", "\n", "\n\n", "a\r\nb\r\n", "a\rb", "a\r", "\r\n", "a\r\r\nb", "é\nü"];
    for case in cases {
        let expected: Vec<String> = case.lines().map(|l| l.to_string()).collect();
        assert_eq!(split_lines(case), expected, "{case:?}");
    }
}

#[test]
fn chunks_of_a_line() {
    assert_eq!(chunk_line("abcdefgh", 3), strings(&["abc", "def", "gh"]));
    assert_eq!(chunk_line("abcdef", 3), strings(&["abc", "def"]));
    assert_eq!(chunk_line("abc", 3), strings(&["abc"]));
    assert_eq!(chunk_line("", 3), strings(&[""]));
    assert_eq!(chunk_line("ab", 1), strings(&["a", "b"]));
    assert_eq!(chunk_line("abc", 0), strings(&["abc"]));
    assert_eq!(chunk_line("äöüß", 3), strings(&["äöü", "ß"]));
    assert_eq!(wrap_text("abcd\n\nxy\n", 3), strings(&["abc", "d", "", "xy"]));
    assert_eq!(wrap_text("", 3), Vec::<String>::new());
}

#[test]
fn width_of_the_contents() {
    assert_eq!(content_width(None), 76);
    assert_eq!(content_width(Some(80)), 76);
    assert_eq!(content_width(Some(120)), 116);
    assert_eq!(content_width(Some(24)), 20);
    assert_eq!(content_width(Some(25)), 21);
    assert_eq!(content_width(Some(23)), 20);
    assert_eq!(content_width(Some(3)), 20);
    assert_eq!(content_width(Some(0)), 20);
    assert_eq!(content_width(Some(u16::MAX)), 65531);
}

#[test]
fn box_around_a_text() {
    let lines = boxed("[settings]\napi_key = 0123456789abcdefghij\n", Some(24));
    assert_eq!(
        lines,
        strings(&[
            "┌──────────────────────┐",
            "│ [settings]           │",
            "│ api_key = 0123456789 │",
            "│ abcdefghij           │",
            "└──────────────────────┘",
        ])
    );
    for line in &lines {
        assert_eq!(line.chars().count(), 24);
    }
    assert_eq!(boxed("", None), vec![format!("┌{}┐", "─".repeat(78)), format!("└{}┘", "─".repeat(78))]);
    assert_eq!(boxed("x", None)[1], format!("│ x{} │", " ".repeat(75)));
}

#[test]
fn test_heartbeat_request() {
    let request = send_test_heartbeat("the-key", "https://h.test/api/v1", 1_700_000_000);
    assert_eq!(request.url, "https://h.test/api/v1/users/current/heartbeats");
    assert_eq!(request.token, "the-key");
    assert_eq!(
        request.heartbeats,
        vec![Heartbeat {
            kind: "file".to_string(),
            time: 1_700_000_000,
            entity: "test.txt".to_string(),
            language: "Text".to_string(),
        }]
    );
}

#[test]
fn heartbeat_response() {
    assert_eq!(heartbeat_outcome(200, "200 OK", ""), Ok(()));
    assert_eq!(heartbeat_outcome(202, "202 Accepted", "whatever"), Ok(()));
    assert_eq!(heartbeat_outcome(299, "299", ""), Ok(()));
    assert_eq!(
        heartbeat_outcome(401, "401 Unauthorized", "{\"error\":\"bad key\"}"),
        Err("Test heartbeat failed (401 Unauthorized): {\"error\":\"bad key\"}".to_string())
    );
    assert_eq!(heartbeat_outcome(199, "199", ""), Err("Test heartbeat failed (199): ".to_string()));
    assert_eq!(heartbeat_outcome(300, "300", "b"), Err("Test heartbeat failed (300): b".to_string()));
}
