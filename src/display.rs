//! Output formats, and the lines that make up human-readable output.
use vstd::prelude::*;

use crate::parsed_args::ParsedArgs;
use crate::text::{join_spec, join};

verus! {

/// The format a command prints its result in.
#[derive(PartialEq, Eq, Structural, Clone, Copy, Debug)]
pub enum Format {
    JSON,
    TOML,
    YAML,
    HUMAN,
}

/// The format chosen by the flags of a command's arguments: `JSON` before
/// `TOML` before `YAML`; `HUMAN` where none of them is present.
pub open spec fn format_of(params: ParsedArgs) -> Format {
    if params.spec_is_present("JSON"@) {
        Format::JSON
    } else if params.spec_is_present("TOML"@) {
        Format::TOML
    } else if params.spec_is_present("YAML"@) {
        Format::YAML
    } else {
        Format::HUMAN
    }
}

impl Format {
    /// Retrieve the format from a command's arguments.
    pub fn from(params: &ParsedArgs) -> (r: Format)
        ensures
            r == format_of(*params),
    {
        if params.is_present("JSON") {
            Format::JSON
        } else if params.is_present("TOML") {
            Format::TOML
        } else if params.is_present("YAML") {
            Format::YAML
        } else {
            Format::HUMAN
        }
    }
}

/// One line of human-readable output.
#[derive(Debug)]
pub enum Line {
    /// An empty line.
    Blank,
    /// A value under a label.
    Info { key: String, value: String },
    /// A label with an on/off state.
    Flag { key: String, active: bool },
    /// Text printed as it is.
    Text(String),
}

/// A line of output, with its text as character sequences.
pub enum LineView {
    Blank,
    Info(Seq<char>, Seq<char>),
    Flag(Seq<char>, bool),
    Text(Seq<char>),
}

impl View for Line {
    type V = LineView;

    open spec fn view(&self) -> LineView {
        match self {
            Line::Blank => LineView::Blank,
            Line::Info { key, value } => LineView::Info(key@, value@),
            Line::Flag { key, active } => LineView::Flag(key@, *active),
            Line::Text(t) => LineView::Text(t@),
        }
    }
}

/// The views of a sequence of lines.
pub open spec fn lines_view(lines: Seq<Line>) -> Seq<LineView> {
    lines.map_values(|l: Line| l@)
}

/// The lines of each item of `items` by `f`, one item after the other.
pub open spec fn flatten_lines<T>(items: Seq<T>, f: spec_fn(T) -> Seq<LineView>) -> Seq<LineView>
    decreases items.len(),
{
    if items.len() == 0 {
        Seq::empty()
    } else {
        flatten_lines(items.drop_last(), f) + f(items.last())
    }
}

/// Extending the items by one extends their lines by that item's lines.
pub proof fn lemma_flatten_lines_step<T>(items: Seq<T>, f: spec_fn(T) -> Seq<LineView>, i: int)
    requires
        0 <= i < items.len(),
    ensures
        flatten_lines(items.take(i + 1), f) == flatten_lines(items.take(i), f) + f(items[i]),
{
    assert(items.take(i + 1).drop_last() =~= items.take(i));
}

/// The text of a line without colours: `key: value`, `key: active`,
/// `key: inactive`, the text itself, or nothing.
pub open spec fn line_text(l: LineView) -> Seq<char> {
    match l {
        LineView::Blank => Seq::empty(),
        LineView::Info(k, v) => k + ": "@ + v,
        LineView::Flag(k, a) => k + ": "@ + if a { "active"@ } else { "inactive"@ },
        LineView::Text(t) => t,
    }
}

/// The lines a list shows: its items, space-separated, under `name`; nothing
/// where the list is missing or empty.
pub open spec fn list_lines(name: Seq<char>, items: Option<Seq<Seq<char>>>) -> Seq<LineView> {
    match items {
        Some(s) => if s.len() > 0 {
            seq![LineView::Info(name, join_spec(s, " "@))]
        } else {
            Seq::empty()
        },
        None => Seq::empty(),
    }
}

/// The views of a sequence of strings.
pub open spec fn strings_view(v: Seq<String>) -> Seq<Seq<char>> {
    v.map_values(|s: String| s@)
}

/// The views of an optional list of strings.
pub open spec fn opt_strings_view(v: Option<Vec<String>>) -> Option<Seq<Seq<char>>> {
    match v {
        Some(s) => Some(strings_view(s@)),
        None => None,
    }
}

impl Line {
    /// A value under a label.
    pub fn info(key: &str, value: &str) -> (r: Line)
        ensures
            r@ == LineView::Info(key@, value@),
    {
        Line::Info { key: key.to_owned(), value: value.to_owned() }
    }

    /// A label with an on/off state.
    pub fn flag(key: &str, active: bool) -> (r: Line)
        ensures
            r@ == LineView::Flag(key@, active),
    {
        Line::Flag { key: key.to_owned(), active }
    }

    /// The line's text without colours.
    pub fn plain_text(&self) -> (r: String)
        ensures
            r@ == line_text(self@),
    {
        match self {
            Line::Blank => String::new(),
            Line::Info { key, value } => {
                let mut s = key.clone();
                s.append(": ");
                s.append(value.as_str());
                s
            },
            Line::Flag { key, active } => {
                let mut s = key.clone();
                s.append(": ");
                if *active {
                    s.append("active");
                } else {
                    s.append("inactive");
                }
                s
            },
            Line::Text(t) => t.clone(),
        }
    }
}

/// Append a value under a label to `out`.
pub fn print_info(out: &mut Vec<Line>, key: &str, value: &str)
    ensures
        lines_view(final(out)@) == lines_view(old(out)@).push(LineView::Info(key@, value@)),
{
    let ghost before = out@;
    out.push(Line::info(key, value));
    assert(lines_view(out@) =~= lines_view(before).push(LineView::Info(key@, value@)));
}

/// Append a label with an on/off state to `out`.
pub fn print_flag(out: &mut Vec<Line>, key: &str, active: bool)
    ensures
        lines_view(final(out)@) == lines_view(old(out)@).push(LineView::Flag(key@, active)),
{
    let ghost before = out@;
    out.push(Line::flag(key, active));
    assert(lines_view(out@) =~= lines_view(before).push(LineView::Flag(key@, active)));
}

/// Append text, printed as it is, to `out`.
pub fn print_line(out: &mut Vec<Line>, text: String)
    ensures
        lines_view(final(out)@) == lines_view(old(out)@).push(LineView::Text(text@)),
{
    let ghost before = out@;
    let ghost t = text@;
    out.push(Line::Text(text));
    assert(lines_view(out@) =~= lines_view(before).push(LineView::Text(t)));
}

/// Append an empty line to `out`.
pub fn print_blank(out: &mut Vec<Line>)
    ensures
        lines_view(final(out)@) == lines_view(old(out)@).push(LineView::Blank),
{
    let ghost before = out@;
    out.push(Line::Blank);
    assert(lines_view(out@) =~= lines_view(before).push(LineView::Blank));
}

/// Append the line that shows a list (see `list_lines`) to `out`.
pub fn print_list(out: &mut Vec<Line>, name: &str, items: &Option<Vec<String>>)
    ensures
        lines_view(final(out)@) == lines_view(old(out)@) + list_lines(name@, opt_strings_view(*items)),
{
    proof {
        broadcast use vstd::seq_lib::group_seq_properties;
    }
    let ghost before = out@;
    match items {
        Some(v) => {
            if v.len() > 0 {
                let joined = join(v, " ");
                out.push(Line::Info { key: name.to_owned(), value: joined });
                assert(lines_view(out@) =~= lines_view(before) + list_lines(name@, opt_strings_view(*items)));
            } else {
                assert(lines_view(out@) =~= lines_view(before) + list_lines(name@, opt_strings_view(*items)));
            }
        },
        None => {
            assert(lines_view(out@) =~= lines_view(before) + list_lines(name@, opt_strings_view(*items)));
        },
    }
}

/// Append the line that shows the tags (see `list_lines`) to `out`.
pub fn print_tags(out: &mut Vec<Line>, tags: &Option<Vec<String>>)
    ensures
        lines_view(final(out)@) == lines_view(old(out)@) + list_lines("tags"@, opt_strings_view(*tags)),
{
    print_list(out, "tags", tags);
}

} // verus!
