//! Reading the settings back out of the text of a configuration, and the
//! proof that what was written is what is read.
use crate::config::{
    all_plain, config_sections, help_comment, is_hostname, is_plain, is_plain_char,
    is_plain_config, is_upper, lemma_config_is_plain, lemma_hostname_is_plain, line_end,
    plain_text, property_lines, settings_of, text_of, Sections,
};
use crate::text::{
    chars_of, first_line_of, is_space, is_whitespace, leading_blank, lemma_first_line,
    lemma_leading_blank, lemma_trailing_blank, lines_of, split_lines, strip_cr, trailing_blank,
    trim, trimmed,
};
use vstd::prelude::*;
use vstd::string::*;

verus! {

/// Whether `c` parts a key from its value.
pub open spec fn is_delimiter(c: char) -> bool {
    c == '=' || c == ':'
}

/// How many characters of `line` come before its first delimiter; all of
/// them if it has none.
pub open spec fn key_len(line: Seq<char>) -> nat
    decreases line.len(),
{
    if line.len() == 0 || is_delimiter(line[0]) {
        0
    } else {
        1 + key_len(line.drop_first())
    }
}

/// The property that a line holds. A blank line holds none, nor does a
/// comment (a line that begins with `#` or `;`), the header of a section,
/// or a line without a delimiter. Of any other line, what comes before the
/// first delimiter is the key and what comes after it the value, both
/// without the whitespace around them.
pub open spec fn property_of(line: Seq<char>) -> Option<(Seq<char>, Seq<char>)> {
    let start = leading_blank(line) as int;
    let cut = key_len(line) as int;
    if start >= line.len() || line[start] == '#' || line[start] == ';' || line[start] == '[' {
        None
    } else if cut >= line.len() {
        None
    } else {
        Some((trimmed(line.take(cut)), trimmed(line.skip(cut + 1))))
    }
}

/// The properties that `lines` hold, in their order.
pub open spec fn properties_of(lines: Seq<Seq<char>>) -> Seq<(Seq<char>, Seq<char>)>
    decreases lines.len(),
{
    if lines.len() == 0 {
        seq![]
    } else {
        let before = properties_of(lines.drop_last());
        match property_of(lines.last()) {
            Some(property) => before.push(property),
            None => before,
        }
    }
}

/// The settings that `text` holds: the properties of its lines, whatever
/// section they stand in.
pub open spec fn settings_in(text: Seq<char>) -> Seq<(Seq<char>, Seq<char>)> {
    properties_of(lines_of(text))
}

/// Whether `key` is read back as it was written: it needs no escaping,
/// has no whitespace at either end and no delimiter inside, and does not
/// look like a comment or a header.
pub open spec fn is_key(key: Seq<char>) -> bool {
    &&& is_plain(key)
    &&& key.len() > 0
    &&& !is_whitespace(key[0])
    &&& !is_whitespace(key.last())
    &&& key[0] != '#' && key[0] != ';' && key[0] != '['
    &&& forall|i: int| 0 <= i < key.len() ==> !is_delimiter(#[trigger] key[i])
}

/// Whether `value` is read back as it was written: it needs no escaping
/// and has no whitespace at either end.
pub open spec fn is_value(value: Seq<char>) -> bool {
    &&& is_plain(value)
    &&& value.len() > 0 ==> !is_whitespace(value[0]) && !is_whitespace(value.last())
}

/// Whether every key and value of `properties` is read back as it was
/// written.
pub open spec fn all_readable(properties: Seq<(Seq<char>, Seq<char>)>) -> bool {
    forall|i: int|
        0 <= i < properties.len() ==> is_key((#[trigger] properties[i]).0) && is_value(
            properties[i].1,
        )
}

/// The key is the `n` characters before the first delimiter.
proof fn lemma_key_len(line: Seq<char>, n: int)
    requires
        0 <= n <= line.len(),
        forall|j: int| 0 <= j < n ==> !is_delimiter(#[trigger] line[j]),
        n == line.len() || is_delimiter(line[n]),
    ensures
        key_len(line) == n,
    decreases n,
{
    if n > 0 {
        let rest = line.drop_first();
        assert forall|j: int| 0 <= j < n - 1 implies !is_delimiter(#[trigger] rest[j]) by {
            assert(rest[j] == line[j + 1]);
        }
        lemma_key_len(rest, n - 1);
    }
}

/// The lines of a text that ends with a line feed, or is empty, stay as
/// they are when more text follows.
proof fn lemma_lines_append(head: Seq<char>, tail: Seq<char>)
    requires
        head.len() == 0 || head.last() == '\n',
    ensures
        lines_of(head + tail) == lines_of(head) + lines_of(tail),
    decreases head.len(),
{
    if head.len() == 0 {
        assert(head + tail =~= tail);
        assert(lines_of(head) + lines_of(tail) =~= lines_of(tail));
    } else {
        let whole = head + tail;
        let n = first_line_of(head).len() as int;
        lemma_first_line_is_prefix(head);
        assert(n < head.len()) by {
            if n >= head.len() {
                assert(first_line_of(head) == head);
                assert(head[head.len() - 1] != '\n');
            }
        }
        assert forall|j: int| 0 <= j < n implies #[trigger] whole[j] != '\n' by {
            assert(whole[j] == head[j]);
        }
        assert(whole[n] == head[n]);
        lemma_first_line(whole, n);
        assert(whole.take(n) =~= head.take(n));
        assert(whole.skip(n + 1) =~= head.skip(n + 1) + tail);
        let rest = head.skip(n + 1);
        if rest.len() > 0 {
            assert(rest.last() == head.last());
        }
        lemma_lines_append(rest, tail);
        assert(lines_of(whole) =~= lines_of(head) + lines_of(tail));
    }
}

/// The first line of a text is the part before its first line feed: it is
/// no longer than the text, holds no line feed, and is followed by one
/// unless it is the whole text.
proof fn lemma_first_line_is_prefix(text: Seq<char>)
    ensures
        first_line_of(text).len() <= text.len(),
        first_line_of(text) == text.take(first_line_of(text).len() as int),
        forall|j: int| 0 <= j < first_line_of(text).len() ==> #[trigger] text[j] != '\n',
        first_line_of(text).len() < text.len() ==> text[first_line_of(text).len() as int] == '\n',
    decreases text.len(),
{
    if text.len() == 0 || text[0] == '\n' {
        assert(text.take(0) =~= Seq::<char>::empty());
    } else {
        let rest = text.drop_first();
        lemma_first_line_is_prefix(rest);
        let n = first_line_of(rest).len() as int;
        assert(text.take(n + 1) =~= seq![text[0]] + rest.take(n));
        assert forall|j: int| 0 <= j < n + 1 implies #[trigger] text[j] != '\n' by {
            if j > 0 {
                assert(text[j] == rest[j - 1]);
            }
        }
        if n < rest.len() {
            assert(text[n + 1] == rest[n]);
        }
    }
}

/// A line that needs no escaping, followed by the end of a line, is that
/// one line.
proof fn lemma_one_line(line: Seq<char>, crlf: bool)
    requires
        is_plain(line),
    ensures
        lines_of(line + line_end(crlf)) == seq![line],
{
    reveal_strlit("\r\n");
    reveal_strlit("\n");
    let text = line + line_end(crlf);
    let n: int = if crlf {
        line.len() as int + 1
    } else {
        line.len() as int
    };
    assert forall|j: int| 0 <= j < n implies #[trigger] text[j] != '\n' by {
        if j < line.len() {
            assert(text[j] == line[j]);
            assert(is_plain_char(line[j]));
        }
    }
    assert(text[n] == '\n');
    lemma_first_line(text, n);
    assert(strip_cr(text.take(n)) =~= line) by {
        if crlf {
            assert(text.take(n).last() == '\r');
            assert(text.take(n).drop_last() =~= line);
        } else {
            assert(text.take(n) =~= line);
            if line.len() > 0 {
                assert(is_plain_char(line.last()));
            }
        }
    }
    assert(text.skip(n + 1) =~= Seq::<char>::empty());
    assert(first_line_of(text).len() == n);
    assert(lines_of(text.skip(n + 1)) =~= Seq::<Seq<char>>::empty());
    assert(lines_of(text) =~= seq![line]);
}

/// The lines of the properties, one for each.
pub open spec fn lines_of_properties(properties: Seq<(Seq<char>, Seq<char>)>, separator: Seq<char>) -> Seq<
    Seq<char>,
> {
    Seq::new(properties.len(), |i: int| properties[i].0 + separator + properties[i].1)
}

/// The text of properties that need no escaping splits into one line for
/// each of them.
proof fn lemma_lines_of_properties(
    properties: Seq<(Seq<char>, Seq<char>)>,
    separator: Seq<char>,
    crlf: bool,
)
    requires
        all_plain(properties),
        is_plain(separator),
    ensures
        lines_of(property_lines(properties, separator, crlf)) == lines_of_properties(
            properties,
            separator,
        ),
        property_lines(properties, separator, crlf).len() == 0 || property_lines(
            properties,
            separator,
            crlf,
        ).last() == '\n',
    decreases properties.len(),
{
    reveal_strlit("\r\n");
    reveal_strlit("\n");
    if properties.len() == 0 {
        assert(lines_of_properties(properties, separator) =~= Seq::<Seq<char>>::empty());
    } else {
        let head = properties.drop_last();
        let last = properties.last();
        let line = last.0 + separator + last.1;
        assert(all_plain(head)) by {
            assert forall|i: int| 0 <= i < head.len() implies is_plain((#[trigger] head[i]).0)
                && is_plain(head[i].1) by {
                assert(head[i] == properties[i]);
            }
        }
        lemma_lines_of_properties(head, separator, crlf);
        assert(is_plain(line)) by {
            assert(is_plain(last.0) && is_plain(last.1));
        }
        lemma_one_line(line, crlf);
        let before = property_lines(head, separator, crlf);
        assert(property_lines(properties, separator, crlf) =~= before + (line + line_end(crlf)));
        lemma_lines_append(before, line + line_end(crlf));
        assert(lines_of_properties(properties, separator) =~= lines_of_properties(
            head,
            separator,
        ).push(line));
        assert(lines_of_properties(head, separator) + seq![line] =~= lines_of_properties(
            head,
            separator,
        ).push(line));
    }
}

/// The line written for a property is read back as that property.
proof fn lemma_property_line(key: Seq<char>, value: Seq<char>)
    requires
        is_key(key),
        is_value(value),
    ensures
        property_of(key + " = "@ + value) == Some((key, value)),
{
    reveal_strlit(" = ");
    let line = key + " = "@ + value;
    let cut: int = key.len() as int + 1;
    assert(line[0] == key[0]);
    lemma_leading_blank(line, 0);
    assert forall|j: int| 0 <= j < cut implies !is_delimiter(#[trigger] line[j]) by {
        if j < key.len() {
            assert(line[j] == key[j]);
        }
    }
    assert(line[cut] == '=');
    lemma_key_len(line, cut);
    // the key: what comes before the delimiter, without the blank at its end
    let before = line.take(cut);
    assert(before =~= key.push(' '));
    assert(before[0] == key[0]);
    lemma_leading_blank(before, 0);
    assert(before.skip(0) =~= before);
    assert(before[key.len() - 1] == key.last());
    lemma_trailing_blank(before, key.len() as int);
    assert(before.take(key.len() as int) =~= key);
    assert(trimmed(before) == key);
    // the value: what comes after the delimiter, without the blank before it
    let after = line.skip(cut + 1);
    assert(after =~= seq![' '] + value);
    if value.len() == 0 {
        lemma_leading_blank(after, 1);
        assert(after.skip(1) =~= value);
        assert(trailing_blank(value) == 0);
        assert(value.take(0) =~= value);
    } else {
        assert(after[1] == value[0]);
        lemma_leading_blank(after, 1);
        assert(after.skip(1) =~= value);
        lemma_trailing_blank(value, value.len() as int);
        assert(value.take(value.len() as int) =~= value);
    }
    assert(trimmed(after) == value);
}

/// The lines written for properties are read back as those properties.
proof fn lemma_properties_of_lines(properties: Seq<(Seq<char>, Seq<char>)>)
    requires
        all_readable(properties),
    ensures
        properties_of(lines_of_properties(properties, " = "@)) == properties,
    decreases properties.len(),
{
    let lines = lines_of_properties(properties, " = "@);
    if properties.len() > 0 {
        let head = properties.drop_last();
        assert(all_readable(head)) by {
            assert forall|i: int| 0 <= i < head.len() implies is_key((#[trigger] head[i]).0)
                && is_value(head[i].1) by {
                assert(head[i] == properties[i]);
            }
        }
        lemma_properties_of_lines(head);
        assert(lines.drop_last() =~= lines_of_properties(head, " = "@));
        let last = properties.last();
        assert(is_key(last.0) && is_value(last.1));
        lemma_property_line(last.0, last.1);
        assert(head.push(last) =~= properties);
    } else {
        assert(properties =~= seq![]);
    }
}

/// The properties of lines put one after the other are the properties of
/// the first followed by those of the second.
proof fn lemma_properties_append(head: Seq<Seq<char>>, tail: Seq<Seq<char>>)
    ensures
        properties_of(head + tail) == properties_of(head) + properties_of(tail),
    decreases tail.len(),
{
    if tail.len() == 0 {
        assert(head + tail =~= head);
        assert(properties_of(head) + properties_of(tail) =~= properties_of(head));
    } else {
        assert((head + tail).drop_last() =~= head + tail.drop_last());
        assert((head + tail).last() == tail.last());
        lemma_properties_append(head, tail.drop_last());
        assert(properties_of(head + tail) =~= properties_of(head) + properties_of(tail));
    }
}

/// The closing comment without the line feed before it.
pub open spec fn help_comment_line() -> Seq<char> {
    help_comment().skip(1)
}

/// The comment that closes the text of a configuration file is two lines,
/// an empty one and the comment itself, and neither holds a property.
proof fn lemma_help_comment_lines()
    ensures
        lines_of(help_comment()) == seq![Seq::<char>::empty(), help_comment_line()],
        settings_in(help_comment()) == Seq::<(Seq<char>, Seq<char>)>::empty(),
{
    reveal_strlit(
        "\n# help with config: https://github.com/wakatime/wakatime-cli/blob/develop/USAGE.md#ini-config-file",
    );
    let help = help_comment();
    let comment = help.skip(1);
    assert(help[0] == '\n');
    lemma_first_line(help, 0);
    assert(comment.len() == help.len() - 1);
    assert forall|j: int| 0 <= j < comment.len() implies #[trigger] comment[j] != '\n' by {
        assert(comment[j] == help[j + 1]);
    }
    lemma_first_line(comment, comment.len() as int);
    assert(first_line_of(comment).len() == comment.len()) by {
        assert(comment.take(comment.len() as int) =~= comment);
    }
    assert(lines_of(comment) == seq![comment]);
    assert(strip_cr(help.take(0)) =~= Seq::<char>::empty());
    assert(lines_of(help) =~= seq![Seq::<char>::empty(), comment]);
    assert(comment[0] == '#');
    lemma_leading_blank(comment, 0);
    assert(property_of(comment) is None);
    assert(property_of(Seq::<char>::empty()) is None);
    let lines = lines_of(help);
    assert(lines.drop_last() =~= seq![Seq::<char>::empty()]);
    assert(lines.drop_last().drop_last() =~= Seq::<Seq<char>>::empty());
    reveal_with_fuel(properties_of, 3);
}

/// The lines of the text of a configuration in which nothing needs
/// escaping: the name of its section in square brackets, then for each
/// property one line that is the key, `" = "` and the value, and nothing
/// else. With the closing comment after the text, an empty line and the
/// line of the comment follow.
pub proof fn lemma_lines_of_text(sections: Sections, crlf: bool)
    requires
        is_plain_config(sections),
    ensures
        lines_of(text_of(sections, " = "@, crlf)) == seq!["["@ + sections[1].0->0 + "]"@]
            + lines_of_properties(sections[1].1, " = "@),
        lines_of(text_of(sections, " = "@, crlf) + help_comment()) == seq![
            "["@ + sections[1].0->0 + "]"@,
        ] + lines_of_properties(sections[1].1, " = "@) + seq![
            Seq::<char>::empty(),
            help_comment_line(),
        ],
{
    reveal_strlit(" = ");
    reveal_strlit("[");
    reveal_strlit("]");
    reveal_strlit("\r\n");
    reveal_strlit("\n");
    let name = sections[1].0->0;
    let properties = sections[1].1;
    let header = "["@ + name + "]"@;
    let body = property_lines(properties, " = "@, crlf);
    let text = plain_text(sections, " = "@, crlf);
    assert(is_plain(header)) by {
        assert forall|i: int| 0 <= i < header.len() implies is_plain_char(#[trigger] header[i]) by {
            if 1 <= i <= name.len() {
                assert(header[i] == name[i - 1]);
            }
        }
    }
    lemma_one_line(header, crlf);
    lemma_lines_of_properties(properties, " = "@, crlf);
    assert(text =~= (header + line_end(crlf)) + body);
    assert((header + line_end(crlf)).last() == '\n');
    lemma_lines_append(header + line_end(crlf), body);
    assert(text.last() == '\n') by {
        if properties.len() == 0 {
            assert(body =~= Seq::<char>::empty());
        }
    }
    lemma_lines_append(text, help_comment());
    lemma_help_comment_lines();
}

/// Writing, then reading: the text written for a configuration that holds
/// one section, with keys and values that are read back as they are,
/// holds exactly the settings of that section, in their order. The same is
/// true of the text with the closing comment after it, which is the text
/// of the file.
pub proof fn lemma_round_trip(sections: Sections, crlf: bool)
    requires
        is_plain_config(sections),
        all_readable(sections[1].1),
    ensures
        settings_in(text_of(sections, " = "@, crlf)) == sections[1].1,
        settings_in(text_of(sections, " = "@, crlf) + help_comment()) == sections[1].1,
{
    reveal_strlit("[");
    let properties = sections[1].1;
    let header = "["@ + sections[1].0->0 + "]"@;
    let text = text_of(sections, " = "@, crlf);
    let lines = lines_of_properties(properties, " = "@);
    lemma_lines_of_text(sections, crlf);
    lemma_properties_append(seq![header], lines);
    lemma_properties_of_lines(properties);
    assert(properties_of(seq![header]) =~= seq![]) by {
        assert(header[0] == '[');
        lemma_leading_blank(header, 0);
        assert(property_of(header) is None);
        assert(seq![header].drop_last() =~= Seq::<Seq<char>>::empty());
        reveal_with_fuel(properties_of, 2);
    }
    assert(settings_in(text) =~= properties);
    lemma_properties_append(lines_of(text), lines_of(help_comment()));
    lemma_help_comment_lines();
    assert(lines_of(text + help_comment()) =~= lines_of(text) + lines_of(help_comment()));
    assert(settings_in(text + help_comment()) =~= properties);
}

/// The lines of the file that the library writes, where the key, the URL
/// and the host name need no escaping: the header `[settings]`, one line
/// for each setting with `" = "` between key and value, an empty line and
/// the closing comment.
pub proof fn lemma_lines_of_config_file(
    api_key: Seq<char>,
    api_url: Seq<char>,
    hide_branch: bool,
    hostname: Option<Seq<char>>,
    crlf: bool,
)
    requires
        is_plain(api_key),
        is_plain(api_url),
        hostname matches Some(name) ==> is_plain(name),
    ensures
        lines_of(
            text_of(
                config_sections(settings_of(api_key, api_url, hide_branch, hostname)),
                " = "@,
                crlf,
            ) + help_comment(),
        ) == seq!["[settings]"@] + lines_of_properties(
            settings_of(api_key, api_url, hide_branch, hostname),
            " = "@,
        ) + seq![Seq::<char>::empty(), help_comment_line()],
{
    reveal_strlit("[");
    reveal_strlit("]");
    reveal_strlit("settings");
    reveal_strlit("[settings]");
    assert("["@ + "settings"@ + "]"@ =~= "[settings]"@);
    lemma_config_is_plain(api_key, api_url, hide_branch, hostname);
    lemma_lines_of_text(config_sections(settings_of(api_key, api_url, hide_branch, hostname)), crlf);
}

/// The keys that the library itself writes, and the values that it writes
/// under them, are read back as they are.
proof fn lemma_names_are_readable()
    ensures
        is_key("api_url"@),
        is_key("api_key"@),
        is_key("heartbeat_rate_limit_seconds"@),
        is_key("exclude_unknown_project"@),
        is_key("hide_branch_names"@),
        is_key("hostname"@),
        is_value("30"@),
        is_value("true"@),
{
    reveal_strlit("api_url");
    reveal_strlit("api_key");
    reveal_strlit("heartbeat_rate_limit_seconds");
    reveal_strlit("exclude_unknown_project");
    reveal_strlit("hide_branch_names");
    reveal_strlit("hostname");
    reveal_strlit("30");
    reveal_strlit("true");
}

/// Writing, then reading, for the configurations that the library builds:
/// where the key and the URL are read back as they are, the text of the
/// configuration holds exactly its settings, with or without the closing
/// comment. A generated host name is always read back as it is.
pub proof fn lemma_config_round_trip(
    api_key: Seq<char>,
    api_url: Seq<char>,
    hide_branch: bool,
    hostname: Option<Seq<char>>,
    crlf: bool,
)
    requires
        is_value(api_key),
        is_value(api_url),
        hostname matches Some(name) ==> is_hostname(name),
    ensures
        settings_in(
            text_of(
                config_sections(settings_of(api_key, api_url, hide_branch, hostname)),
                " = "@,
                crlf,
            ),
        ) == settings_of(api_key, api_url, hide_branch, hostname),
        settings_in(
            text_of(
                config_sections(settings_of(api_key, api_url, hide_branch, hostname)),
                " = "@,
                crlf,
            ) + help_comment(),
        ) == settings_of(api_key, api_url, hide_branch, hostname),
{
    let settings = settings_of(api_key, api_url, hide_branch, hostname);
    lemma_names_are_readable();
    if let Some(name) = hostname {
        lemma_hostname_is_plain(name);
        assert(is_upper(name[0]) && is_upper(name.last()));
        assert(is_value(name));
    }
    lemma_config_is_plain(api_key, api_url, hide_branch, hostname);
    assert(all_readable(settings));
    lemma_round_trip(config_sections(settings), crlf);
}

/// The property that `line` holds.
pub fn read_property(line: &str) -> (r: Option<(String, String)>)
    ensures
        r.deep_view() == property_of(line@),
{
    let chars = chars_of(line);
    let len: usize = chars.len();
    let mut start: usize = 0;
    while start < len && is_space(chars[start])
        invariant
            len == chars@.len(),
            start <= len,
            forall|j: int| 0 <= j < start ==> is_whitespace(#[trigger] chars@[j]),
        decreases len - start,
    {
        start += 1;
    }
    proof {
        lemma_leading_blank(line@, start as int);
    }
    if start == len || chars[start] == '#' || chars[start] == ';' || chars[start] == '[' {
        return None;
    }
    let mut cut: usize = 0;
    while cut < len && chars[cut] != '=' && chars[cut] != ':'
        invariant
            len == chars@.len(),
            cut <= len,
            forall|j: int| 0 <= j < cut ==> !is_delimiter(#[trigger] chars@[j]),
        decreases len - cut,
    {
        cut += 1;
    }
    proof {
        lemma_key_len(line@, cut as int);
    }
    if cut == len {
        return None;
    }
    let key = trim(line.substring_char(0, cut));
    let value = trim(line.substring_char(cut + 1, len));
    proof {
        assert(line@.subrange(0, cut as int) =~= line@.take(cut as int));
        assert(line@.subrange(cut + 1, len as int) =~= line@.skip(cut + 1));
    }
    Some((String::from_str(key), String::from_str(value)))
}

/// The settings that `text` holds, in their order.
pub fn read_settings(text: &str) -> (r: Vec<(String, String)>)
    ensures
        r.deep_view() == settings_in(text@),
{
    let lines = split_lines(text);
    let mut settings: Vec<(String, String)> = Vec::new();
    let mut i: usize = 0;
    assert(lines.deep_view().take(0) =~= Seq::<Seq<char>>::empty());
    while i < lines.len()
        invariant
            i <= lines@.len(),
            settings.deep_view() == properties_of(lines.deep_view().take(i as int)),
        decreases lines@.len() - i,
    {
        let ghost before = settings.deep_view();
        proof {
            let upto = lines.deep_view().take(i + 1);
            assert(upto.drop_last() =~= lines.deep_view().take(i as int));
            assert(upto.last() == lines@[i as int]@);
        }
        match read_property(lines[i].as_str()) {
            Some(property) => {
                settings.push(property);
                assert(settings.deep_view() =~= before.push(property.deep_view()));
            },
            None => {},
        }
        i += 1;
    }
    assert(lines.deep_view().take(i as int) =~= lines.deep_view());
    settings
}

} // verus!
