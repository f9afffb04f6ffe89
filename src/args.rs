//! Parsers for command-line values: `key=value` pairs, field values with
//! their list and text-format notations, and text-format names.

use vstd::prelude::*;

verus! {

/// How the text of a formatted field value is to be read.
#[derive(Clone, Copy, Debug, PartialEq, Eq, Structural)]
pub enum TextFormat {
    Plain,
    Html,
    Markdown,
}

/// A value to store in a list item's field.
#[derive(Debug)]
pub enum FieldValue {
    /// A plain string.
    Str(String),
    /// Text in the given format.
    Formatted(String, TextFormat),
    /// A list of strings (people, labels, references).
    ArrStr(Vec<String>),
}

/// Abstract field value: its strings as character sequences.
pub enum FieldValueSpec {
    Str(Seq<char>),
    Formatted(Seq<char>, TextFormat),
    ArrStr(Seq<Seq<char>>),
}

impl View for FieldValue {
    type V = FieldValueSpec;

    open spec fn view(&self) -> FieldValueSpec {
        match self {
            FieldValue::Str(t) => FieldValueSpec::Str(t@),
            FieldValue::Formatted(t, f) => FieldValueSpec::Formatted(t@, *f),
            FieldValue::ArrStr(v) => FieldValueSpec::ArrStr(views_of(v@)),
        }
    }
}

/// The field value that the text `s` denotes.
pub open spec fn setval_of(s: Seq<char>) -> FieldValueSpec {
    if is_bracketed(s) {
        FieldValueSpec::ArrStr(split_on(s.subrange(1, s.len() - 1), ','))
    } else if has_prefix(s, plain_tag()) {
        FieldValueSpec::Formatted(s.subrange(plain_tag().len() as int, s.len() as int), TextFormat::Plain)
    } else if has_prefix(s, html_tag()) {
        FieldValueSpec::Formatted(s.subrange(html_tag().len() as int, s.len() as int), TextFormat::Html)
    } else if has_prefix(s, markdown_tag()) {
        FieldValueSpec::Formatted(
            s.subrange(markdown_tag().len() as int, s.len() as int),
            TextFormat::Markdown,
        )
    } else {
        FieldValueSpec::Str(s)
    }
}

/// `s` split at every occurrence of `sep`; there is always at least one part.
pub open spec fn split_on(s: Seq<char>, sep: char) -> Seq<Seq<char>>
    decreases s.len(),
{
    if s.len() == 0 {
        seq![Seq::empty()]
    } else {
        let parts = split_on(s.drop_last(), sep);
        if s.last() == sep {
            parts.push(Seq::empty())
        } else {
            parts.update(parts.len() - 1, parts.last().push(s.last()))
        }
    }
}

/// `s` begins with `p`.
pub open spec fn has_prefix(s: Seq<char>, p: Seq<char>) -> bool {
    p.len() <= s.len() && s.subrange(0, p.len() as int) == p
}

pub open spec fn plain_tag() -> Seq<char> {
    seq!['p', 'l', 'a', 'i', 'n', ':', ':']
}

pub open spec fn html_tag() -> Seq<char> {
    seq!['h', 't', 'm', 'l', ':', ':']
}

pub open spec fn markdown_tag() -> Seq<char> {
    seq!['m', 'a', 'r', 'k', 'd', 'o', 'w', 'n', ':', ':']
}

/// `s` is written as a bracketed list, `[a,b,...]`.
pub open spec fn is_bracketed(s: Seq<char>) -> bool {
    s.len() >= 2 && s[0] == '[' && s.last() == ']'
}

/// The strings that `v` holds.
pub open spec fn views_of(v: Seq<String>) -> Seq<Seq<char>> {
    v.map_values(|x: String| x@)
}

/// Name of a text format.
pub open spec fn format_name(f: TextFormat) -> Seq<char> {
    match f {
        TextFormat::Plain => seq!['p', 'l', 'a', 'i', 'n'],
        TextFormat::Html => seq!['h', 't', 'm', 'l'],
        TextFormat::Markdown => seq!['m', 'a', 'r', 'k', 'd', 'o', 'w', 'n'],
    }
}

/// The text format that `s` names exactly, if any.
pub open spec fn format_named(s: Seq<char>) -> Option<TextFormat> {
    if s == format_name(TextFormat::Plain) {
        Some(TextFormat::Plain)
    } else if s == format_name(TextFormat::Markdown) {
        Some(TextFormat::Markdown)
    } else if s == format_name(TextFormat::Html) {
        Some(TextFormat::Html)
    } else {
        None
    }
}

/// Whether `s` starts with `p`.
fn starts_with(s: &str, p: &str) -> (r: bool)
    ensures
        r == has_prefix(s@, p@),
{
    let n = s.unicode_len();
    let m = p.unicode_len();
    if m > n {
        return false;
    }
    let head = String::from_str(s.substring_char(0, m));
    let want = String::from_str(p);
    head == want
}

/// Splits `s` at every occurrence of `sep`.
pub fn split_at_char(s: &str, sep: char) -> (r: Vec<String>)
    ensures
        views_of(r@) == split_on(s@, sep),
{
    let n = s.unicode_len();
    let mut parts: Vec<String> = Vec::new();
    let mut start: usize = 0;
    let mut i: usize = 0;
    proof {
        assert(s@.subrange(0, 0) =~= Seq::<char>::empty());
        assert(views_of(parts@).push(s@.subrange(0, 0)) =~= seq![Seq::<char>::empty()]);
    }
    while i < n
        invariant
            n == s@.len(),
            start <= i <= n,
            views_of(parts@).push(s@.subrange(start as int, i as int)) == split_on(
                s@.subrange(0, i as int),
                sep,
            ),
        decreases n - i,
    {
        let c = s.get_char(i);
        let ghost before = s@.subrange(0, i as int);
        let ghost cur = s@.subrange(start as int, i as int);
        let ghost done = parts@;
        proof {
            assert(s@.subrange(0, i + 1).drop_last() =~= before);
            assert(s@.subrange(0, i + 1).last() == c);
        }
        if c == sep {
            let part = String::from_str(s.substring_char(start, i));
            parts.push(part);
            start = i + 1;
            proof {
                assert(views_of(parts@) =~= views_of(done).push(cur));
                assert(s@.subrange(start as int, i + 1) =~= Seq::<char>::empty());
                assert(views_of(parts@).push(s@.subrange(start as int, i + 1)) =~= split_on(
                    before,
                    sep,
                ).push(Seq::empty()));
            }
        } else {
            proof {
                let prev = split_on(before, sep);
                assert(s@.subrange(start as int, i + 1) =~= cur.push(c));
                assert(views_of(parts@).push(s@.subrange(start as int, i + 1)) =~= prev.update(
                    prev.len() - 1,
                    prev.last().push(c),
                ));
            }
        }
        i = i + 1;
    }
    let last = String::from_str(s.substring_char(start, n));
    parts.push(last);
    proof {
        assert(s@.subrange(0, n as int) =~= s@);
        assert(views_of(parts@) =~= views_of(parts@.drop_last()).push(last@));
    }
    parts
}

/// Reads a field value: `[a,b,...]` is a list of the comma-separated
/// strings between the brackets; `plain::t`, `html::t` and `markdown::t` are
/// the text `t` in that format; anything else is the plain string itself.
pub fn parse_setval(s: String) -> (r: FieldValue)
    ensures
        r@ == setval_of(s@),
{
    let text = s.as_str();
    let n = text.unicode_len();
    if n >= 2 && text.get_char(0) == '[' && text.get_char(n - 1) == ']' {
        let inner = text.substring_char(1, n - 1);
        return FieldValue::ArrStr(split_at_char(inner, ','));
    }
    proof {
        reveal_strlit("plain::");
        reveal_strlit("html::");
        reveal_strlit("markdown::");
        assert("plain::"@ =~= plain_tag());
        assert("html::"@ =~= html_tag());
        assert("markdown::"@ =~= markdown_tag());
    }
    if starts_with(text, "plain::") {
        let rest = String::from_str(text.substring_char(7, n));
        FieldValue::Formatted(rest, TextFormat::Plain)
    } else if starts_with(text, "html::") {
        let rest = String::from_str(text.substring_char(6, n));
        FieldValue::Formatted(rest, TextFormat::Html)
    } else if starts_with(text, "markdown::") {
        let rest = String::from_str(text.substring_char(10, n));
        FieldValue::Formatted(rest, TextFormat::Markdown)
    } else {
        FieldValue::Str(s)
    }
}

/// Reads a text format name: `plain`, `markdown` or `html`, exactly.
pub fn parse_try_text_format(s: &str) -> (r: Result<TextFormat, &'static str>)
    ensures
        format_named(s@) matches Some(f) ==> r == Ok::<TextFormat, &'static str>(f),
        format_named(s@) is None ==> (r matches Err(msg)
            && msg@ == "Invalid text format: should be plain, markdown, or html"@),
{
    proof {
        reveal_strlit("plain");
        reveal_strlit("markdown");
        reveal_strlit("html");
        assert("plain"@ =~= format_name(TextFormat::Plain));
        assert("markdown"@ =~= format_name(TextFormat::Markdown));
        assert("html"@ =~= format_name(TextFormat::Html));
    }
    let given = String::from_str(s);
    if given == String::from_str("plain") {
        Ok(TextFormat::Plain)
    } else if given == String::from_str("markdown") {
        Ok(TextFormat::Markdown)
    } else if given == String::from_str("html") {
        Ok(TextFormat::Html)
    } else {
        Err("Invalid text format: should be plain, markdown, or html")
    }
}

/// Reads a `key=value` pair, split at the first `=`.
pub fn parse_key_val(s: &str) -> (r: Result<(String, String), String>)
    ensures
        r is Ok <==> s@.contains('='),
        r matches Ok(kv) ==> kv.0@ + seq!['='] + kv.1@ == s@ && !kv.0@.contains('='),
        r matches Err(msg) ==> msg@ == "invalid KEY=value: no `=` found in `"@ + s@ + "`"@,
{
    let n = s.unicode_len();
    let mut i: usize = 0;
    while i < n
        invariant
            n == s@.len(),
            i <= n,
            forall|j: int| 0 <= j < i ==> s@[j] != '=',
        decreases n - i,
    {
        if s.get_char(i) == '=' {
            let key = String::from_str(s.substring_char(0, i));
            let value = String::from_str(s.substring_char(i + 1, n));
            proof {
                assert(key@ + seq!['='] + value@ =~= s@);
                assert(s@.contains('=')) by {
                    assert(s@[i as int] == '=');
                }
                assert(!key@.contains('=')) by {
                    if key@.contains('=') {
                        let j = choose|j: int| 0 <= j < key@.len() && key@[j] == '=';
                        assert(s@[j] == '=');
                    }
                }
            }
            return Ok((key, value));
        }
        i = i + 1;
    }
    let msg = String::from_str("invalid KEY=value: no `=` found in `").concat(s).concat("`");
    Err(msg)
}

} // verus!
