//! The configuration that the setup writes: checking the API key, choosing
//! the settings, and turning them into the text of the file.
use crate::host::Platform;
use ini::{Ini, LineSeparator, WriteOption};
use rand::Rng;
use uuid::Uuid;
use vstd::prelude::*;
use vstd::string::*;

verus! {

/// How lines end in the text of a configuration.
#[derive(Clone, Copy, Debug, PartialEq, Eq, Structural)]
pub enum LineEnding {
    /// A line feed.
    Lf,
    /// A carriage return and a line feed.
    CrLf,
}

/// The sections of a configuration as plain values: each with its name
/// (`None` for the nameless section that comes first) and its properties,
/// key and value, in the order in which they are written.
pub type Sections = Seq<(Option<Seq<char>>, Seq<(Seq<char>, Seq<char>)>)>;

/// `ini::Ini`, a configuration as the INI crate holds it. Nothing is known
/// of it but what `ini_sections` says it holds.
#[verifier::external_type_specification]
#[verifier::external_body]
pub struct ExIni(Ini);

/// What `conf` holds: its sections in the order in which `Ini` walks them,
/// each with its properties in the order in which it walks those.
pub uninterp spec fn ini_sections(conf: Ini) -> Sections;

/// The text that `Ini::write_to_opt` writes for `sections` with the escape
/// policy `EscapePolicy::Basics`, `separator` between key and value, and
/// CR LF at the end of each line if `crlf`, LF if not.
pub uninterp spec fn ini_written(sections: Sections, separator: Seq<char>, crlf: bool) -> Seq<char>;

/// The 128 bits of the UUID that `uuid::Uuid::try_parse` reads from `text`,
/// first byte first, as `Uuid::as_u128` gives them; `None` where it reads
/// none.
pub uninterp spec fn uuid_parsed(text: Seq<char>) -> Option<u128>;

/// The version of a UUID: the upper half of its seventh byte.
pub open spec fn version_of(value: u128) -> nat {
    ((value >> 76) & 0xf) as nat
}

/// Where the first section named `name` stands in `sections`; their length
/// if there is none.
pub open spec fn section_index(sections: Sections, name: Seq<char>) -> int
    decreases sections.len(),
{
    if sections.len() == 0 {
        0
    } else if sections[0].0 == Some(name) {
        0
    } else {
        1 + section_index(sections.drop_first(), name)
    }
}

/// `properties` without those whose key is `key`.
pub open spec fn without_key(properties: Seq<(Seq<char>, Seq<char>)>, key: Seq<char>) -> Seq<
    (Seq<char>, Seq<char>),
>
    decreases properties.len(),
{
    if properties.len() == 0 {
        properties
    } else {
        let before = without_key(properties.drop_last(), key);
        if properties.last().0 == key {
            before
        } else {
            before.push(properties.last())
        }
    }
}

/// `sections` after `key` is set to `value` in the section `name`: the
/// first section of that name loses what it held under `key` and gets the
/// new property at its end; where there is no such section, a new one with
/// this one property comes last.
pub open spec fn sections_after_set(
    sections: Sections,
    name: Seq<char>,
    key: Seq<char>,
    value: Seq<char>,
) -> Sections {
    let at = section_index(sections, name);
    if at >= sections.len() {
        sections.push((Some(name), seq![(key, value)]))
    } else {
        sections.update(at, (Some(name), without_key(sections[at].1, key).push((key, value))))
    }
}

/// Whether `Ini` writes `c` as it is under `EscapePolicy::Basics`: every
/// character is, but for the backslash, the control characters up to
/// U+001F, and U+007F.
pub open spec fn is_plain_char(c: char) -> bool {
    c != '\\' && c as u32 > 0x1f && c as u32 != 0x7f
}

/// Whether all of `text` is written as it is.
pub open spec fn is_plain(text: Seq<char>) -> bool {
    forall|i: int| 0 <= i < text.len() ==> is_plain_char(#[trigger] text[i])
}

/// Whether all keys and values of `properties` are written as they are.
pub open spec fn all_plain(properties: Seq<(Seq<char>, Seq<char>)>) -> bool {
    forall|i: int|
        0 <= i < properties.len() ==> is_plain((#[trigger] properties[i]).0) && is_plain(
            properties[i].1,
        )
}

/// What ends a line: CR LF if `crlf`, LF if not.
pub open spec fn line_end(crlf: bool) -> Seq<char> {
    if crlf {
        "\r\n"@
    } else {
        "\n"@
    }
}

/// A line for each of `properties`, in their order: the key, `separator`,
/// the value, the end of the line.
pub open spec fn property_lines(
    properties: Seq<(Seq<char>, Seq<char>)>,
    separator: Seq<char>,
    crlf: bool,
) -> Seq<char>
    decreases properties.len(),
{
    if properties.len() == 0 {
        Seq::empty()
    } else {
        property_lines(properties.drop_last(), separator, crlf) + properties.last().0 + separator
            + properties.last().1 + line_end(crlf)
    }
}

/// Whether `sections` are the nameless section, empty, and after it one
/// section in which everything is written as it is.
pub open spec fn is_plain_config(sections: Sections) -> bool {
    &&& sections.len() == 2
    &&& sections[0].0 is None
    &&& sections[0].1.len() == 0
    &&& sections[1].0 matches Some(name) && is_plain(name)
    &&& all_plain(sections[1].1)
}

/// The text of `sections` that are as `is_plain_config` says: the name of
/// the section in square brackets on a line of its own, then the lines of
/// its properties.
pub open spec fn plain_text(sections: Sections, separator: Seq<char>, crlf: bool) -> Seq<char> {
    "["@ + sections[1].0->0 + "]"@ + line_end(crlf) + property_lines(
        sections[1].1,
        separator,
        crlf,
    )
}

/// The text of `sections`: what `plain_text` says where they are as
/// `is_plain_config` says, and what the INI crate writes for them where
/// they are not.
pub open spec fn text_of(sections: Sections, separator: Seq<char>, crlf: bool) -> Seq<char> {
    if is_plain_config(sections) {
        plain_text(sections, separator, crlf)
    } else {
        ini_written(sections, separator, crlf)
    }
}

/// `Ini::new`: a configuration that holds the nameless section, empty, and
/// nothing else.
#[verifier::external_body]
fn ini_new() -> (conf: Ini)
    ensures
        ini_sections(conf) == seq![(None::<Seq<char>>, Seq::<(Seq<char>, Seq<char>)>::empty())],
{
    Ini::new()
}

/// `Ini::with_section` and `SectionSetter::set` on what it returns: sets
/// `key` to `value` in the section `name`, as `sections_after_set` says.
#[verifier::external_body]
fn ini_set(conf: &mut Ini, name: &str, key: &str, value: &str)
    ensures
        ini_sections(*final(conf)) == sections_after_set(
            ini_sections(*old(conf)),
            name@,
            key@,
            value@,
        ),
{
    conf.with_section(Some(name)).set(key, value);
}

/// `Ini::write_to_opt` into memory: the text of `conf`, with `separator`
/// between key and value and the line ending `ending`. The contract names
/// the text. It says what the text is in one case only:
/// where nothing needs escaping and one named section follows the empty
/// nameless one, it is the header of that section and a line for each of
/// its properties, with no blank line anywhere.
#[verifier::external_body]
fn ini_write(conf: &Ini, separator: &'static str, ending: LineEnding) -> (text: String)
    ensures
        text@ == ini_written(ini_sections(*conf), separator@, ending is CrLf),
        is_plain_config(ini_sections(*conf)) ==> text@ == plain_text(
            ini_sections(*conf),
            separator@,
            ending is CrLf,
        ),
{
    let line_separator = match ending {
        LineEnding::Lf => LineSeparator::CR,
        LineEnding::CrLf => LineSeparator::CRLF,
    };
    let opt = WriteOption { kv_separator: separator, line_separator, ..Default::default() };
    let mut out: Vec<u8> = Vec::new();
    let _ = conf.write_to_opt(&mut out, opt);
    String::from_utf8_lossy(&out).into_owned()
}

/// `uuid::Uuid::try_parse`: the UUID that `text` spells, as its 128 bits.
/// The contract names the result and says no more of it.
#[verifier::external_body]
fn parse_uuid(text: &str) -> (r: Option<u128>)
    ensures
        r == uuid_parsed(text@),
{
    match Uuid::try_parse(text) {
        Ok(id) => Some(id.as_u128()),
        Err(_) => None,
    }
}

/// `uuid::Uuid::get_version_num` on the UUID with the bits `value`: the
/// upper half of the seventh byte.
#[verifier::external_body]
fn uuid_version(value: u128) -> (r: usize)
    ensures
        r == version_of(value),
{
    Uuid::from_u128(value).get_version_num()
}

/// `rand::Rng::random_range` on the generator of `rand::rng`: some byte
/// from `low` to `high`, both included. Nothing else is known of it, and
/// two calls may differ.
#[verifier::external_body]
fn random_byte(low: u8, high: u8) -> (r: u8)
    requires
        low <= high,
    ensures
        low <= r <= high,
{
    rand::rng().random_range(low..=high)
}

/// `String::push`: `c` added at the end of `text`.
#[verifier::external_body]
fn push_char(text: &mut String, c: char)
    ensures
        final(text)@ == old(text)@.push(c),
{
    text.push(c)
}

/// What is said of a key that spells no UUID.
pub open spec fn malformed_key() -> Seq<char> {
    "API key must be a valid UUID. Did you copy the command incorrectly?"@
}

/// What is said of a key that spells a UUID of another version than 4.
pub open spec fn wrong_version() -> Seq<char> {
    "API key must be a valid UUIDv4"@
}

/// Whether a key passes, given what it parses to: a UUID of version 4
/// passes, and each other case has a message of its own.
pub open spec fn key_verdict(parsed: Option<u128>) -> Result<(), Seq<char>> {
    match parsed {
        None => Err(malformed_key()),
        Some(value) => if version_of(value) == 4 {
            Ok(())
        } else {
            Err(wrong_version())
        },
    }
}

/// The view of a verdict.
pub open spec fn verdict_view(verdict: Result<(), String>) -> Result<(), Seq<char>> {
    match verdict {
        Ok(()) => Ok(()),
        Err(message) => Err(message@),
    }
}

/// Judges a key by what it parsed to.
pub fn check_parsed_key(parsed: Option<u128>) -> (r: Result<(), String>)
    ensures
        verdict_view(r) == key_verdict(parsed),
{
    match parsed {
        None => Err(
            String::from_str("API key must be a valid UUID. Did you copy the command incorrectly?"),
        ),
        Some(value) => if uuid_version(value) == 4 {
            Ok(())
        } else {
            Err(String::from_str("API key must be a valid UUIDv4"))
        },
    }
}

/// Accepts `key` if and only if it spells a UUID of version 4.
pub fn validate_api_key(key: &str) -> (r: Result<(), String>)
    ensures
        verdict_view(r) == key_verdict(uuid_parsed(key@)),
{
    check_parsed_key(parse_uuid(key))
}

/// How long a generated host name is.
pub const HOSTNAME_LEN: usize = 6;

/// Whether `c` is one of the 26 upper-case letters of ASCII.
pub open spec fn is_upper(c: char) -> bool {
    'A' <= c <= 'Z'
}

/// Whether `name` could be a generated host name: six upper-case letters.
pub open spec fn is_hostname(name: Seq<char>) -> bool {
    name.len() == HOSTNAME_LEN && forall|i: int| 0 <= i < name.len() ==> is_upper(#[trigger] name[i])
}

/// The host name that `draws` spell, if they are six and each of them is
/// the code of an upper-case letter.
pub open spec fn hostname_of(draws: Seq<u8>) -> Option<Seq<char>> {
    if draws.len() == HOSTNAME_LEN && forall|i: int|
        0 <= i < draws.len() ==> 65 <= #[trigger] draws[i] <= 90 {
        Some(Seq::new(draws.len(), |i: int| draws[i] as char))
    } else {
        None
    }
}

/// The host name that `draws` spell: what `generate_random_hostname` makes
/// of the six bytes it draws.
pub fn hostname_from_draws(draws: &Vec<u8>) -> (r: Option<String>)
    ensures
        r.deep_view() == hostname_of(draws@),
        r matches Some(name) ==> is_hostname(name@),
{
    if draws.len() != HOSTNAME_LEN {
        return None;
    }
    let mut name = String::new();
    let mut i: usize = 0;
    while i < HOSTNAME_LEN
        invariant
            draws@.len() == HOSTNAME_LEN,
            i <= HOSTNAME_LEN,
            name@.len() == i,
            forall|j: int| 0 <= j < i ==> 65 <= #[trigger] draws@[j] <= 90,
            forall|j: int| 0 <= j < i ==> name@[j] == draws@[j] as char,
        decreases HOSTNAME_LEN - i,
    {
        let draw: u8 = draws[i];
        if draw < 65 || draw > 90 {
            return None;
        }
        push_char(&mut name, draw as char);
        i += 1;
    }
    assert(name@ =~= Seq::new(draws@.len(), |i: int| draws@[i] as char));
    Some(name)
}

/// A random host name: six upper-case letters, each drawn on its own.
pub fn generate_random_hostname() -> (r: String)
    ensures
        is_hostname(r@),
{
    let mut draws: Vec<u8> = Vec::new();
    while draws.len() < HOSTNAME_LEN
        invariant
            draws@.len() <= HOSTNAME_LEN,
            forall|j: int| 0 <= j < draws@.len() ==> 65 <= #[trigger] draws@[j] <= 90,
        decreases HOSTNAME_LEN - draws@.len(),
    {
        draws.push(random_byte(65, 90));
    }
    hostname_from_draws(&draws).unwrap()
}

/// The settings that every configuration holds, in their order.
pub open spec fn base_settings(api_key: Seq<char>, api_url: Seq<char>) -> Seq<
    (Seq<char>, Seq<char>),
> {
    seq![
        ("api_url"@, api_url),
        ("api_key"@, api_key),
        ("heartbeat_rate_limit_seconds"@, "30"@),
        ("exclude_unknown_project"@, "true"@),
    ]
}

/// The settings of a configuration: the base settings, then the flag that
/// hides branch names if it was asked for, then the host name if there is
/// one.
pub open spec fn settings_of(
    api_key: Seq<char>,
    api_url: Seq<char>,
    hide_branch: bool,
    hostname: Option<Seq<char>>,
) -> Seq<(Seq<char>, Seq<char>)> {
    base_settings(api_key, api_url) + (if hide_branch {
        seq![("hide_branch_names"@, "true"@)]
    } else {
        seq![]
    }) + (match hostname {
        Some(name) => seq![("hostname"@, name)],
        None => seq![],
    })
}

/// The sections of a configuration with `settings`: the nameless section,
/// empty, and after it the section `settings`, unless it would be empty.
pub open spec fn config_sections(settings: Seq<(Seq<char>, Seq<char>)>) -> Sections {
    if settings.len() == 0 {
        seq![(None, seq![])]
    } else {
        seq![(None, seq![]), (Some("settings"@), settings)]
    }
}

/// What is left of `properties` without `key` is all of them, where none
/// has that key.
proof fn lemma_without_absent_key(properties: Seq<(Seq<char>, Seq<char>)>, key: Seq<char>)
    requires
        forall|i: int| 0 <= i < properties.len() ==> (#[trigger] properties[i]).0 != key,
    ensures
        without_key(properties, key) == properties,
    decreases properties.len(),
{
    if properties.len() > 0 {
        let head = properties.drop_last();
        assert forall|i: int| 0 <= i < head.len() implies (#[trigger] head[i]).0 != key by {
            assert(head[i] == properties[i]);
        }
        lemma_without_absent_key(head, key);
        assert(properties.last() == properties[properties.len() - 1]);
        assert(head.push(properties.last()) =~= properties);
    }
}

/// Adds a setting under a key that the configuration does not hold yet.
fn add_setting(
    conf: &mut Ini,
    key: &str,
    value: &str,
    Ghost(settings): Ghost<Seq<(Seq<char>, Seq<char>)>>,
)
    requires
        ini_sections(*old(conf)) == config_sections(settings),
        forall|i: int| 0 <= i < settings.len() ==> (#[trigger] settings[i]).0 != key@,
    ensures
        ini_sections(*final(conf)) == config_sections(settings.push((key@, value@))),
{
    let ghost before = ini_sections(*conf);
    proof {
        reveal_with_fuel(section_index, 3);
        lemma_without_absent_key(settings, key@);
        let name = "settings"@;
        assert(before[0].0 != Some(name));
        if settings.len() == 0 {
            assert(before.drop_first() =~= Seq::empty());
            assert(section_index(before, name) == 1);
            assert(settings.push((key@, value@)) =~= seq![(key@, value@)]);
            assert(before.push((Some(name), seq![(key@, value@)])) =~= config_sections(
                settings.push((key@, value@)),
            ));
        } else {
            assert(before.drop_first()[0].0 == Some(name));
            assert(section_index(before, name) == 1);
            assert(before.update(1, (Some(name), settings.push((key@, value@))))
                =~= config_sections(settings.push((key@, value@))));
        }
    }
    ini_set(conf, "settings", key, value);
}

/// The keys of the settings differ from one another: by their length, but
/// for the first two, which differ in their fifth letter.
proof fn lemma_keys_differ()
    ensures
        "api_key"@ != "api_url"@,
        "heartbeat_rate_limit_seconds"@.len() == 28,
        "exclude_unknown_project"@.len() == 23,
        "hide_branch_names"@.len() == 17,
        "hostname"@.len() == 8,
        "api_key"@.len() == 7,
        "api_url"@.len() == 7,
{
    reveal_strlit("api_url");
    reveal_strlit("api_key");
    reveal_strlit("heartbeat_rate_limit_seconds");
    reveal_strlit("exclude_unknown_project");
    reveal_strlit("hide_branch_names");
    reveal_strlit("hostname");
    assert("api_url"@[4] != "api_key"@[4]);
}

/// The names that the library itself puts into a configuration are
/// written as they are.
proof fn lemma_names_are_plain()
    ensures
        is_plain("settings"@),
        is_plain("api_url"@),
        is_plain("api_key"@),
        is_plain("heartbeat_rate_limit_seconds"@),
        is_plain("exclude_unknown_project"@),
        is_plain("hide_branch_names"@),
        is_plain("hostname"@),
        is_plain("30"@),
        is_plain("true"@),
{
    reveal_strlit("settings");
    reveal_strlit("api_url");
    reveal_strlit("api_key");
    reveal_strlit("heartbeat_rate_limit_seconds");
    reveal_strlit("exclude_unknown_project");
    reveal_strlit("hide_branch_names");
    reveal_strlit("hostname");
    reveal_strlit("30");
    reveal_strlit("true");
}

/// A generated host name is written as it is.
pub proof fn lemma_hostname_is_plain(name: Seq<char>)
    requires
        is_hostname(name),
    ensures
        is_plain(name),
{
    assert forall|i: int| 0 <= i < name.len() implies is_plain_char(#[trigger] name[i]) by {
        assert(is_upper(name[i]));
    }
}

/// The configurations that the library builds need no escaping where the
/// key, the URL and the host name need none: their text is the header
/// `[settings]` and one line for each setting, key and value with `" = "`
/// between them.
pub proof fn lemma_config_is_plain(
    api_key: Seq<char>,
    api_url: Seq<char>,
    hide_branch: bool,
    hostname: Option<Seq<char>>,
)
    requires
        is_plain(api_key),
        is_plain(api_url),
        hostname matches Some(name) ==> is_plain(name),
    ensures
        is_plain_config(config_sections(settings_of(api_key, api_url, hide_branch, hostname))),
{
    lemma_names_are_plain();
}

/// The configuration with the settings given: `hide_branch` says whether
/// branch names are hidden, `hostname` is the name to go by in place of
/// the machine's own.
pub fn config_with(api_key: &str, api_url: &str, hide_branch: bool, hostname: Option<&str>) -> (conf:
    Ini)
    ensures
        ini_sections(conf) == config_sections(
            settings_of(api_key@, api_url@, hide_branch, hostname.deep_view()),
        ),
{
    proof {
        lemma_keys_differ();
    }
    let mut conf = ini_new();
    let ghost mut settings: Seq<(Seq<char>, Seq<char>)> = seq![];
    add_setting(&mut conf, "api_url", api_url, Ghost(settings));
    proof {
        settings = settings.push(("api_url"@, api_url@));
    }
    add_setting(&mut conf, "api_key", api_key, Ghost(settings));
    proof {
        settings = settings.push(("api_key"@, api_key@));
    }
    add_setting(&mut conf, "heartbeat_rate_limit_seconds", "30", Ghost(settings));
    proof {
        settings = settings.push(("heartbeat_rate_limit_seconds"@, "30"@));
    }
    add_setting(&mut conf, "exclude_unknown_project", "true", Ghost(settings));
    proof {
        settings = settings.push(("exclude_unknown_project"@, "true"@));
        assert(settings =~= base_settings(api_key@, api_url@));
    }
    if hide_branch {
        add_setting(&mut conf, "hide_branch_names", "true", Ghost(settings));
        proof {
            settings = settings.push(("hide_branch_names"@, "true"@));
        }
    }
    if let Some(name) = hostname {
        add_setting(&mut conf, "hostname", name, Ghost(settings));
        proof {
            settings = settings.push(("hostname"@, name@));
        }
    }
    assert(settings =~= settings_of(api_key@, api_url@, hide_branch, hostname.deep_view()));
    conf
}

/// The host name of a configuration built with the answers given: there is
/// one exactly when the advanced setup asked for it.
pub open spec fn wants_hostname(advanced: bool, anonymize_hostname: bool) -> bool {
    advanced && anonymize_hostname
}

/// Builds the configuration from the key, the URL and the answers of the
/// setup. The quick setup holds the base settings and nothing else,
/// whatever the other answers say. The advanced setup hides branch names
/// if `hide_branch`, and goes by a freshly generated host name if
/// `anonymize_hostname`; that name is handed back beside the
/// configuration.
pub fn build_config(
    api_key: &str,
    api_url: &str,
    advanced: bool,
    hide_branch: bool,
    anonymize_hostname: bool,
) -> (r: (Ini, Option<String>))
    ensures
        r.1 is Some <==> wants_hostname(advanced, anonymize_hostname),
        r.1 matches Some(name) ==> is_hostname(name@),
        ini_sections(r.0) == config_sections(
            settings_of(api_key@, api_url@, advanced && hide_branch, r.1.deep_view()),
        ),
{
    if advanced && anonymize_hostname {
        let name = generate_random_hostname();
        let conf = config_with(api_key, api_url, hide_branch, Some(name.as_str()));
        (conf, Some(name))
    } else {
        (config_with(api_key, api_url, advanced && hide_branch, None), None)
    }
}

/// The comment that closes the text of a configuration file.
pub open spec fn help_comment() -> Seq<char> {
    "\n# help with config: https://github.com/wakatime/wakatime-cli/blob/develop/USAGE.md#ini-config-file"@
}

/// Whether lines end in CR LF on `platform`.
pub open spec fn ends_lines_with_crlf(platform: Platform) -> bool {
    platform == Platform::Windows
}

/// The settings of `conf` as text: `conf` as `Ini` writes it, with `" = "`
/// between key and value and the line ending of `platform`. Where nothing
/// in `conf` needs escaping, that is the header of its section and a line
/// for each setting. The file holds this text and the closing comment
/// after it.
pub fn config_text(conf: &Ini, platform: Platform) -> (text: String)
    ensures
        text@ == text_of(ini_sections(*conf), " = "@, ends_lines_with_crlf(platform)),
{
    let ending = match platform {
        Platform::Windows => LineEnding::CrLf,
        _ => LineEnding::Lf,
    };
    ini_write(conf, " = ", ending)
}

/// `text` followed by the comment that says where to find help.
pub fn with_help_comment(text: &str) -> (r: String)
    ensures
        r@ == text@ + help_comment(),
{
    let mut out = String::from_str(text);
    out.append(
        "\n# help with config: https://github.com/wakatime/wakatime-cli/blob/develop/USAGE.md#ini-config-file",
    );
    out
}

/// The text of the configuration file, as it is shown and as it is
/// written: the settings as `config_text` gives them, always followed by
/// the comment that says where to find help.
pub fn config_file_text(conf: &Ini, platform: Platform) -> (text: String)
    ensures
        text@ == text_of(ini_sections(*conf), " = "@, ends_lines_with_crlf(platform))
            + help_comment(),
{
    with_help_comment(config_text(conf, platform).as_str())
}

} // verus!
