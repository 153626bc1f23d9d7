//! Text helpers shared by the rest of the crate: character lists, trimming,
//! prefixes and lines, all stated over `Seq<char>`.
use vstd::prelude::*;
use vstd::string::*;

verus! {

/// Unicode `White_Space`: what `char::is_whitespace` accepts.
pub open spec fn is_whitespace(c: char) -> bool {
    let n = c as u32;
    ||| 0x09 <= n <= 0x0D
    ||| n == 0x20
    ||| n == 0x85
    ||| n == 0xA0
    ||| n == 0x1680
    ||| 0x2000 <= n <= 0x200A
    ||| n == 0x2028
    ||| n == 0x2029
    ||| n == 0x202F
    ||| n == 0x205F
    ||| n == 0x3000
}

/// How many whitespace characters `s` begins with.
pub open spec fn leading_blank(s: Seq<char>) -> nat
    decreases s.len(),
{
    if s.len() > 0 && is_whitespace(s[0]) {
        1 + leading_blank(s.drop_first())
    } else {
        0
    }
}

/// How many whitespace characters `s` ends with.
pub open spec fn trailing_blank(s: Seq<char>) -> nat
    decreases s.len(),
{
    if s.len() > 0 && is_whitespace(s.last()) {
        1 + trailing_blank(s.drop_last())
    } else {
        0
    }
}

/// `s` without its leading and trailing whitespace.
pub open spec fn trimmed(s: Seq<char>) -> Seq<char> {
    let rest = s.skip(leading_blank(s) as int);
    rest.take(rest.len() - trailing_blank(rest))
}

/// `s` up to, and without, its first line feed; all of `s` if it has none.
pub open spec fn first_line_of(s: Seq<char>) -> Seq<char>
    decreases s.len(),
{
    if s.len() == 0 || s[0] == '\n' {
        Seq::empty()
    } else {
        seq![s[0]] + first_line_of(s.drop_first())
    }
}

/// `line` without the carriage return at its end, if it has one.
pub open spec fn strip_cr(line: Seq<char>) -> Seq<char> {
    if line.len() > 0 && line.last() == '\r' {
        line.drop_last()
    } else {
        line
    }
}

/// The lines of `text`. A line ends with a line feed, or with a carriage
/// return and a line feed; neither belongs to the line. What follows the
/// last line feed is a line too, unless it is empty.
pub open spec fn lines_of(text: Seq<char>) -> Seq<Seq<char>>
    decreases text.len(),
{
    if text.len() == 0 {
        seq![]
    } else {
        let n = first_line_of(text).len() as int;
        if n >= text.len() {
            seq![text]
        } else {
            seq![strip_cr(text.take(n))] + lines_of(text.skip(n + 1))
        }
    }
}

/// The leading run of whitespace is exactly the `n` characters before the
/// first one that is not whitespace.
pub proof fn lemma_leading_blank(s: Seq<char>, n: int)
    requires
        0 <= n <= s.len(),
        forall|j: int| 0 <= j < n ==> is_whitespace(#[trigger] s[j]),
        n == s.len() || !is_whitespace(s[n]),
    ensures
        leading_blank(s) == n,
    decreases n,
{
    if n > 0 {
        let t = s.drop_first();
        assert forall|j: int| 0 <= j < n - 1 implies is_whitespace(#[trigger] t[j]) by {
            assert(t[j] == s[j + 1]);
        }
        lemma_leading_blank(t, n - 1);
    }
}

/// The trailing run of whitespace is exactly the characters from `n` on,
/// where `n` follows the last character that is not whitespace.
pub proof fn lemma_trailing_blank(s: Seq<char>, n: int)
    requires
        0 <= n <= s.len(),
        forall|j: int| n <= j < s.len() ==> is_whitespace(#[trigger] s[j]),
        n == 0 || !is_whitespace(s[n - 1]),
    ensures
        trailing_blank(s) == s.len() - n,
    decreases s.len() - n,
{
    if n < s.len() {
        let t = s.drop_last();
        assert forall|j: int| n <= j < t.len() implies is_whitespace(#[trigger] t[j]) by {
            assert(t[j] == s[j]);
        }
        lemma_trailing_blank(t, n);
    }
}

/// The first line is the `n` characters before the first line feed.
pub proof fn lemma_first_line(s: Seq<char>, n: int)
    requires
        0 <= n <= s.len(),
        forall|j: int| 0 <= j < n ==> #[trigger] s[j] != '\n',
        n == s.len() || s[n] == '\n',
    ensures
        first_line_of(s) == s.take(n),
    decreases n,
{
    if n > 0 {
        let t = s.drop_first();
        assert forall|j: int| 0 <= j < n - 1 implies #[trigger] t[j] != '\n' by {
            assert(t[j] == s[j + 1]);
        }
        lemma_first_line(t, n - 1);
        assert(s.take(n) =~= seq![s[0]] + t.take(n - 1));
    } else {
        assert(s.take(0) =~= Seq::<char>::empty());
    }
}

/// The characters of `s`, in order.
pub fn chars_of(s: &str) -> (r: Vec<char>)
    ensures
        r@ == s@,
{
    let mut out: Vec<char> = Vec::new();
    for c in it: s.chars()
        invariant
            it.seq() == s@,
            out@ == it.seq().take(it.index()),
    {
        out.push(c);
    }
    out
}

/// Whether `c` is whitespace.
pub fn is_space(c: char) -> (r: bool)
    ensures
        r == is_whitespace(c),
{
    let n: u32 = c as u32;
    (0x09 <= n && n <= 0x0D) || n == 0x20 || n == 0x85 || n == 0xA0 || n == 0x1680 || (0x2000 <= n
        && n <= 0x200A) || n == 0x2028 || n == 0x2029 || n == 0x202F || n == 0x205F || n == 0x3000
}

/// `s` without its leading and trailing whitespace.
pub fn trim(s: &str) -> (r: &str)
    ensures
        r@ == trimmed(s@),
{
    let chars = chars_of(s);
    let n: usize = chars.len();
    let mut start: usize = 0;
    while start < n && is_space(chars[start])
        invariant
            n == chars@.len(),
            start <= n,
            forall|j: int| 0 <= j < start ==> is_whitespace(#[trigger] chars@[j]),
        decreases n - start,
    {
        start += 1;
    }
    let mut end: usize = n;
    while end > start && is_space(chars[end - 1])
        invariant
            n == chars@.len(),
            start <= end <= n,
            forall|j: int| end <= j < n ==> is_whitespace(#[trigger] chars@[j]),
        decreases end,
    {
        end -= 1;
    }
    proof {
        lemma_leading_blank(s@, start as int);
        let rest = s@.skip(start as int);
        assert forall|j: int| end - start <= j < rest.len() implies is_whitespace(
            #[trigger] rest[j],
        ) by {
            assert(rest[j] == s@[j + start]);
        }
        if end > start {
            assert(rest[end - start - 1] == s@[end - 1]);
        }
        lemma_trailing_blank(rest, end - start);
        assert(rest.take(end - start) =~= s@.subrange(start as int, end as int));
    }
    s.substring_char(start, end)
}

/// Whether `s` begins with `prefix`.
pub fn starts_with(s: &str, prefix: &str) -> (r: bool)
    ensures
        r == prefix@.is_prefix_of(s@),
{
    let text = chars_of(s);
    let head = chars_of(prefix);
    if head.len() > text.len() {
        return false;
    }
    let mut i: usize = 0;
    while i < head.len()
        invariant
            text@ == s@,
            head@ == prefix@,
            i <= head@.len() <= text@.len(),
            forall|j: int| 0 <= j < i ==> head@[j] == text@[j],
        decreases head@.len() - i,
    {
        if head[i] != text[i] {
            assert(text@.subrange(0, head@.len() as int)[i as int] == text@[i as int]);
            return false;
        }
        i += 1;
    }
    assert(text@.subrange(0, head@.len() as int) =~= head@);
    true
}

/// `s` up to, and without, its first line feed.
pub fn first_line(s: &str) -> (r: &str)
    ensures
        r@ == first_line_of(s@),
{
    let chars = chars_of(s);
    let mut i: usize = 0;
    while i < chars.len() && chars[i] != '\n'
        invariant
            i <= chars@.len(),
            forall|j: int| 0 <= j < i ==> #[trigger] chars@[j] != '\n',
        decreases chars@.len() - i,
    {
        i += 1;
    }
    proof {
        lemma_first_line(s@, i as int);
        assert(s@.take(i as int) =~= s@.subrange(0, i as int));
    }
    s.substring_char(0, i)
}

/// The characters of `text` from `from` up to `to`, as a string.
pub(crate) fn piece(text: &str, from: usize, to: usize) -> (r: String)
    requires
        from <= to <= text@.len(),
    ensures
        r@ == text@.subrange(from as int, to as int),
{
    String::from_str(text.substring_char(from, to))
}

/// The lines of `text`.
pub fn split_lines(text: &str) -> (r: Vec<String>)
    ensures
        r.deep_view() == lines_of(text@),
{
    let chars = chars_of(text);
    let len: usize = chars.len();
    let mut lines: Vec<String> = Vec::new();
    let mut pos: usize = 0;
    assert(text@.skip(0) =~= text@);
    while pos < len
        invariant
            chars@ == text@,
            len == chars@.len(),
            pos <= len,
            lines_of(text@) == lines.deep_view() + lines_of(text@.skip(pos as int)),
        decreases len - pos,
    {
        let ghost rest = text@.skip(pos as int);
        let ghost before = lines.deep_view();
        let mut end: usize = pos;
        while end < len && chars[end] != '\n'
            invariant
                chars@ == text@,
                len == chars@.len(),
                pos <= end <= len,
                forall|j: int| pos <= j < end ==> #[trigger] chars@[j] != '\n',
            decreases len - end,
        {
            end += 1;
        }
        proof {
            assert forall|j: int| 0 <= j < end - pos implies #[trigger] rest[j] != '\n' by {
                assert(rest[j] == chars@[pos + j]);
            }
            lemma_first_line(rest, end - pos);
            assert(rest.take(end - pos) =~= text@.subrange(pos as int, end as int));
        }
        if end == len {
            lines.push(piece(text, pos, len));
            proof {
                assert(rest.take(end - pos) =~= rest);
                assert(lines.deep_view() =~= before.push(rest));
                assert(text@.skip(len as int) =~= Seq::<char>::empty());
                assert(lines_of(rest) =~= seq![rest]);
            }
            pos = len;
        } else {
            let stop: usize = if end > pos && chars[end - 1] == '\r' {
                end - 1
            } else {
                end
            };
            lines.push(piece(text, pos, stop));
            proof {
                let line = rest.take(end - pos);
                assert(strip_cr(line) =~= text@.subrange(pos as int, stop as int)) by {
                    if end > pos {
                        assert(line.last() == chars@[end - 1]);
                    }
                }
                assert(lines.deep_view() =~= before.push(strip_cr(line)));
                assert(rest.skip(end - pos + 1) =~= text@.skip(end + 1));
            }
            pos = end + 1;
        }
    }
    proof {
        assert(text@.skip(len as int) =~= Seq::<char>::empty());
        assert(lines.deep_view() + Seq::<Seq<char>>::empty() =~= lines.deep_view());
    }
    lines
}

} // verus!
