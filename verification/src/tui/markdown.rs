//! Markdown as styled lines.
//!
//! The renderer knows headers, rules, quotes, lists, table rows, fenced code
//! and, within a paragraph, code, bold, italic, struck-out text and links.
//! What it does not know is shown as it is written.

use vstd::prelude::*;
use crate::text::byte_len;
use crate::text::join_texts;
use crate::text::joined;
use crate::text::texts;
use crate::text::chars_of;
use crate::text::repeat_char;
use crate::text::repeated;
use crate::text::same_text;
use crate::text::slice_chars;
use crate::text::trim;
use crate::text::trim_start;
use crate::text::text_of;
use crate::text::trimmed;
use crate::text::trimmed_start;
use crate::text::trimmed_text;
use crate::tui::styled::copy_line;
use crate::tui::styled::no_lines;
use crate::tui::styled::no_spans;
use crate::tui::styled::push_line;
use crate::tui::styled::push_span;
use crate::tui::styled::raw;
use crate::tui::styled::styled;
use crate::tui::styled::Color;
use crate::tui::styled::Line;
use crate::tui::styled::LineView;
use crate::tui::styled::Span;
use crate::tui::styled::SpanView;
use crate::tui::styled::Style;

verus! {

/// The first position at or after `from` that holds `c`, or the length of
/// the text where there is none.
pub open spec fn find(text: Seq<char>, c: char, from: int) -> int
    decreases text.len() - from,
{
    if from < 0 || from >= text.len() {
        text.len() as int
    } else if text[from] == c {
        from
    } else {
        find(text, c, from + 1)
    }
}

/// The first position at or after `from` that holds `c` twice in a row, or
/// the length of the text where there is none.
pub open spec fn find_pair(text: Seq<char>, c: char, from: int) -> int
    decreases text.len() - from,
{
    if from < 0 || from >= text.len() {
        text.len() as int
    } else if text[from] == c && from + 1 < text.len() && text[from + 1] == c {
        from
    } else {
        find_pair(text, c, from + 1)
    }
}

/// A search ends between its start and the end of the text, and a pair that was found lies within the text.
pub proof fn lemma_find_bounds(text: Seq<char>, c: char, from: int)
    requires
        0 <= from <= text.len(),
    ensures
        from <= find(text, c, from) <= text.len(),
        from <= find_pair(text, c, from) <= text.len(),
        find_pair(text, c, from) < text.len() ==> find_pair(text, c, from) + 2 <= text.len(),
    decreases text.len() - from,
{
    if from < text.len() {
        lemma_find_bounds(text, c, from + 1);
    }
}

/// How inline code looks.
pub open spec fn code_style() -> Style {
    Style { fg: Some(Color::Yellow), bg: Some(Color::Rgb(40, 40, 40)), ..Style::plain() }
}

/// How bold text looks.
pub open spec fn bold_style() -> Style {
    Style { bold: true, ..Style::plain() }
}

/// How italic text looks.
pub open spec fn italic_style() -> Style {
    Style { italic: true, ..Style::plain() }
}

/// How struck-out text looks.
pub open spec fn struck_style() -> Style {
    Style { crossed_out: true, ..Style::plain() }
}

/// How the text of a link looks.
pub open spec fn link_style() -> Style {
    Style { fg: Some(Color::Blue), underlined: true, ..Style::plain() }
}

/// The plain text between `start` and `to`, where there is any.
pub open spec fn plain_between(text: Seq<char>, start: int, to: int) -> Seq<SpanView> {
    if 0 <= start < to <= text.len() {
        seq![raw(text.subrange(start, to))]
    } else {
        Seq::empty()
    }
}

/// The text between `from` and `to` in `style`, where there is any.
pub open spec fn styled_between(text: Seq<char>, from: int, to: int, style: Style) -> Seq<SpanView> {
    if 0 <= from < to <= text.len() {
        seq![styled(text.subrange(from, to), style)]
    } else {
        Seq::empty()
    }
}

/// The smaller of the two.
pub open spec fn at_most(a: int, limit: int) -> int {
    if a <= limit {
        a
    } else {
        limit
    }
}

/// The spans of a paragraph from position `at` on, where the text from
/// `start` to `at` is plain text that was not shown yet.
///
/// A backquote opens code up to the next backquote. Two `*`, `_` or `~` open
/// bold or struck-out text up to the next two of them, and a single `*` or `_`
/// that is not the last character opens italic text up to the next one. `[`
/// opens a link text up to `]`; a `(` right behind it opens the address up to
/// `)`, which is not shown. Where a closing mark is missing, the rest of the
/// paragraph takes its place; a `[` without `]` is plain text.
pub open spec fn inline_from(text: Seq<char>, start: int, at: int) -> Seq<SpanView>
    decreases text.len() - at,
    via inline_from_decreases
{
    let len = text.len() as int;
    if at < 0 || at >= len {
        plain_between(text, start, len)
    } else {
        let c = text[at];
        let before = plain_between(text, start, at);
        if c == '`' {
            let close = find(text, '`', at + 1);
            let next = at_most(close + 1, len);
            before + styled_between(text, at + 1, close, code_style()) + inline_from(
                text,
                next,
                next,
            )
        } else if (c == '*' || c == '_') && at + 1 < len && text[at + 1] == c {
            let close = find_pair(text, c, at + 2);
            let next = at_most(close + 2, len);
            before + styled_between(text, at + 2, close, bold_style()) + inline_from(
                text,
                next,
                next,
            )
        } else if (c == '*' || c == '_') && at + 1 < len {
            let close = find(text, c, at + 1);
            let next = at_most(close + 1, len);
            before + styled_between(text, at + 1, close, italic_style()) + inline_from(
                text,
                next,
                next,
            )
        } else if c == '[' {
            let close = find(text, ']', at + 1);
            if close >= len {
                before + inline_from(text, at, len)
            } else if close + 1 < len && text[close + 1] == '(' {
                let end = find(text, ')', close + 2);
                let shown = if end < len {
                    end + 1
                } else {
                    at_most(close + 3, len)
                };
                before + seq![styled(text.subrange(at + 1, close), link_style())] + inline_from(
                    text,
                    shown,
                    at_most(end + 1, len),
                )
            } else {
                before + seq![raw(text.subrange(at, close + 1))] + inline_from(
                    text,
                    close + 1,
                    close + 1,
                )
            }
        } else if c == '~' && at + 1 < len && text[at + 1] == '~' {
            let close = find_pair(text, '~', at + 2);
            let next = at_most(close + 2, len);
            before + styled_between(text, at + 2, close, struck_style()) + inline_from(
                text,
                next,
                next,
            )
        } else {
            inline_from(text, start, at + 1)
        }
    }
}

#[via_fn]
proof fn inline_from_decreases(text: Seq<char>, start: int, at: int) {
    if 0 <= at < text.len() {
        lemma_find_bounds(text, text[at], at + 1);
        lemma_find_bounds(text, '`', at + 1);
        lemma_find_bounds(text, ']', at + 1);
        if at + 2 <= text.len() {
            lemma_find_bounds(text, text[at], at + 2);
        }
        let close = find(text, ']', at + 1);
        if close + 2 <= text.len() {
            lemma_find_bounds(text, ')', close + 2);
        }
    }
}

/// The spans of a paragraph.
pub open spec fn inline_spans(text: Seq<char>) -> Seq<SpanView> {
    inline_from(text, 0, 0)
}

fn find_char(text: &Vec<char>, c: char, from: usize) -> (r: usize)
    requires
        from <= text.len(),
    ensures
        r == find(text@, c, from as int),
        from <= r <= text.len(),
{
    let mut i: usize = from;
    while i < text.len() && text[i] != c
        invariant
            from <= i <= text.len(),
            find(text@, c, from as int) == find(text@, c, i as int),
        decreases text.len() - i,
    {
        i += 1;
    }
    i
}

fn find_char_pair(text: &Vec<char>, c: char, from: usize) -> (r: usize)
    requires
        from <= text.len(),
    ensures
        r == find_pair(text@, c, from as int),
        from <= r <= text.len(),
        r < text.len() ==> r + 2 <= text.len(),
{
    let mut i: usize = from;
    while i < text.len() && !(text[i] == c && i + 1 < text.len() && text[i + 1] == c)
        invariant
            from <= i <= text.len(),
            find_pair(text@, c, from as int) == find_pair(text@, c, i as int),
        decreases text.len() - i,
    {
        i += 1;
    }
    i
}

fn push_plain(spans: &mut Vec<Span>, text: &Vec<char>, start: usize, to: usize)
    requires
        to <= text.len(),
    ensures
        final(spans).deep_view() == old(spans).deep_view() + plain_between(
            text@,
            start as int,
            to as int,
        ),
{
    if start < to {
        push_span(spans, text_of(text, start, to), Style::new());
        assert(old(spans).deep_view().push(raw(text@.subrange(start as int, to as int)))
            =~= old(spans).deep_view() + plain_between(text@, start as int, to as int));
    } else {
        assert(old(spans).deep_view() =~= old(spans).deep_view() + plain_between(
            text@,
            start as int,
            to as int,
        ));
    }
}

fn push_styled(spans: &mut Vec<Span>, text: &Vec<char>, from: usize, to: usize, style: Style)
    requires
        to <= text.len(),
    ensures
        final(spans).deep_view() == old(spans).deep_view() + styled_between(
            text@,
            from as int,
            to as int,
            style,
        ),
{
    if from < to {
        push_span(spans, text_of(text, from, to), style);
        assert(old(spans).deep_view().push(styled(text@.subrange(from as int, to as int), style))
            =~= old(spans).deep_view() + styled_between(text@, from as int, to as int, style));
    } else {
        assert(old(spans).deep_view() =~= old(spans).deep_view() + styled_between(
            text@,
            from as int,
            to as int,
            style,
        ));
    }
}

fn code() -> (r: Style)
    ensures
        r == code_style(),
{
    Style {
        fg: Some(Color::Yellow),
        bg: Some(Color::Rgb(40, 40, 40)),
        bold: false,
        italic: false,
        underlined: false,
        crossed_out: false,
    }
}

fn emphasis(bold: bool, italic: bool, crossed_out: bool) -> (r: Style)
    ensures
        r == (Style { bold, italic, crossed_out, ..Style::plain() }),
{
    Style { fg: None, bg: None, bold, italic, underlined: false, crossed_out }
}

fn link() -> (r: Style)
    ensures
        r == link_style(),
{
    Style {
        fg: Some(Color::Blue),
        bg: None,
        bold: false,
        italic: false,
        underlined: true,
        crossed_out: false,
    }
}

/// Where the paragraph goes on after a mark was handled: the plain text
/// not shown yet starts at `start`, and reading goes on at `at`.
struct Resume {
    start: usize,
    at: usize,
}

/// Whether `spans` and the position `resume` carry on what `shown` and the
/// position (`start`, `at`) stood for.
spec fn carries_on(
    text: Seq<char>,
    shown: Seq<SpanView>,
    start: int,
    at: int,
    spans: Seq<SpanView>,
    resume: Resume,
) -> bool {
    &&& at < resume.at <= text.len()
    &&& resume.start <= text.len()
    &&& spans + inline_from(text, resume.start as int, resume.at as int) == shown + inline_from(
        text,
        start,
        at,
    )
}

fn code_step(text: &Vec<char>, spans: &mut Vec<Span>, start: usize, at: usize) -> (r: Resume)
    requires
        at < text.len(),
        text[at as int] == '`',
    ensures
        carries_on(text@, old(spans).deep_view(), start as int, at as int, final(spans).deep_view(), r),
{
    let len = text.len();
    let close = find_char(text, '`', at + 1);
    let next = if close < len {
        close + 1
    } else {
        len
    };
    let ghost shown = spans.deep_view();
    push_plain(spans, text, start, at);
    push_styled(spans, text, at + 1, close, code());
    assert(spans.deep_view() + inline_from(text@, next as int, next as int) =~= shown
        + inline_from(text@, start as int, at as int));
    Resume { start: next, at: next }
}

fn pair_step(text: &Vec<char>, spans: &mut Vec<Span>, start: usize, at: usize) -> (r: Resume)
    requires
        at + 1 < text.len(),
        text[at as int] == '*' || text[at as int] == '_' || text[at as int] == '~',
        text[at + 1] == text[at as int],
    ensures
        carries_on(text@, old(spans).deep_view(), start as int, at as int, final(spans).deep_view(), r),
{
    let len = text.len();
    let c = text[at];
    let close = find_char_pair(text, c, at + 2);
    let next = if close < len {
        close + 2
    } else {
        len
    };
    let ghost shown = spans.deep_view();
    push_plain(spans, text, start, at);
    push_styled(spans, text, at + 2, close, emphasis(c != '~', false, c == '~'));
    assert(spans.deep_view() + inline_from(text@, next as int, next as int) =~= shown
        + inline_from(text@, start as int, at as int));
    Resume { start: next, at: next }
}

fn italic_step(text: &Vec<char>, spans: &mut Vec<Span>, start: usize, at: usize) -> (r: Resume)
    requires
        at + 1 < text.len(),
        text[at as int] == '*' || text[at as int] == '_',
        text[at + 1] != text[at as int],
    ensures
        carries_on(text@, old(spans).deep_view(), start as int, at as int, final(spans).deep_view(), r),
{
    let len = text.len();
    let close = find_char(text, text[at], at + 1);
    let next = if close < len {
        close + 1
    } else {
        len
    };
    let ghost shown = spans.deep_view();
    push_plain(spans, text, start, at);
    push_styled(spans, text, at + 1, close, emphasis(false, true, false));
    assert(spans.deep_view() + inline_from(text@, next as int, next as int) =~= shown
        + inline_from(text@, start as int, at as int));
    Resume { start: next, at: next }
}

fn link_step(text: &Vec<char>, spans: &mut Vec<Span>, start: usize, at: usize) -> (r: Resume)
    requires
        at < text.len(),
        text[at as int] == '[',
    ensures
        carries_on(text@, old(spans).deep_view(), start as int, at as int, final(spans).deep_view(), r),
{
    let len = text.len();
    let close = find_char(text, ']', at + 1);
    let ghost shown = spans.deep_view();
    let ghost rest = inline_from(text@, start as int, at as int);
    push_plain(spans, text, start, at);
    if close >= len {
        assert(spans.deep_view() + inline_from(text@, at as int, len as int) =~= shown + rest);
        Resume { start: at, at: len }
    } else if close + 1 < len && text[close + 1] == '(' {
        let end = find_char(text, ')', close + 2);
        let resume = if end < len {
            Resume { start: end + 1, at: end + 1 }
        } else if len - close >= 3 {
            Resume { start: close + 3, at: len }
        } else {
            Resume { start: len, at: len }
        };
        push_span(spans, text_of(text, at + 1, close), link());
        assert(spans.deep_view() + inline_from(text@, resume.start as int, resume.at as int)
            =~= shown + rest);
        resume
    } else {
        push_span(spans, text_of(text, at, close + 1), Style::new());
        assert(spans.deep_view() + inline_from(text@, close + 1, close + 1) =~= shown + rest);
        Resume { start: close + 1, at: close + 1 }
    }
}

/// The spans of a paragraph.
pub fn render_inline(text: &Vec<char>) -> (r: Line)
    ensures
        r@.spans == inline_spans(text@),
{
    let len = text.len();
    let mut spans = no_spans();
    let mut start: usize = 0;
    let mut at: usize = 0;
    assert(spans.deep_view() + inline_from(text@, 0, 0) =~= inline_spans(text@));
    while at < len
        invariant
            len == text.len(),
            at <= len,
            start <= len,
            spans.deep_view() + inline_from(text@, start as int, at as int) == inline_spans(text@),
        decreases len - at,
    {
        let c = text[at];
        if c == '`' {
            let resume = code_step(text, &mut spans, start, at);
            start = resume.start;
            at = resume.at;
        } else if (c == '*' || c == '_' || c == '~') && at + 1 < len && text[at + 1] == c {
            let resume = pair_step(text, &mut spans, start, at);
            start = resume.start;
            at = resume.at;
        } else if (c == '*' || c == '_') && at + 1 < len {
            let resume = italic_step(text, &mut spans, start, at);
            start = resume.start;
            at = resume.at;
        } else if c == '[' {
            let resume = link_step(text, &mut spans, start, at);
            start = resume.start;
            at = resume.at;
        } else {
            at += 1;
        }
    }
    push_plain(&mut spans, text, start, len);
    Line { spans }
}

/// The first position at or after `from` that does not hold `c`, or the
/// length of the text where every later position holds it.
pub open spec fn run_end(text: Seq<char>, c: char, from: int) -> int
    decreases text.len() - from,
{
    if from < 0 || from >= text.len() {
        text.len() as int
    } else if text[from] != c {
        from
    } else {
        run_end(text, c, from + 1)
    }
}

/// The position where the run of `c` that ends before `to` starts.
pub open spec fn run_start(text: Seq<char>, c: char, to: int) -> int
    decreases to,
{
    if to <= 0 || to > text.len() {
        0
    } else if text[to - 1] != c {
        to
    } else {
        run_start(text, c, to - 1)
    }
}

/// A run that ends before `to` starts behind any earlier character other
/// than `c`.
pub proof fn lemma_run_start_after(text: Seq<char>, c: char, to: int, at: int)
    requires
        0 <= at < to <= text.len(),
        text[at] != c,
    ensures
        at < run_start(text, c, to) <= to,
    decreases to,
{
    if text[to - 1] == c {
        lemma_run_start_after(text, c, to - 1, at);
    }
}

/// The text without the runs of `c` at its two ends.
pub open spec fn without_ends(text: Seq<char>, c: char) -> Seq<char> {
    let from = run_end(text, c, 0);
    if from >= text.len() {
        Seq::empty()
    } else {
        text.subrange(from, run_start(text, c, text.len() as int))
    }
}

/// Bold text in a colour.
pub open spec fn colored_bold(color: Color) -> Style {
    Style { fg: Some(color), bold: true, ..Style::plain() }
}

/// Dark gray text.
pub open spec fn dark_gray() -> Style {
    Style::colored(Color::DarkGray)
}

/// The colour of a header of the given level.
pub open spec fn header_color(level: int) -> Color {
    if level == 1 {
        Color::Magenta
    } else if level == 2 {
        Color::Cyan
    } else if level == 3 {
        Color::Blue
    } else {
        Color::Gray
    }
}

/// The block that a header of the given level starts with.
pub open spec fn header_mark(level: int) -> Seq<char> {
    if level == 1 {
        "\u{2588} "@
    } else if level == 2 {
        "\u{2593} "@
    } else if level == 3 {
        "\u{2592} "@
    } else {
        "\u{2591} "@
    }
}

/// A header: the block of its level, then its text in bold, both in the colour of the level.
pub open spec fn header_view(content: Seq<char>, level: int) -> LineView {
    LineView {
        spans: seq![
            styled(header_mark(level), Style::colored(header_color(level))),
            styled(content, colored_bold(header_color(level))),
        ],
    }
}

/// A rule: forty dashes.
pub open spec fn rule_view() -> LineView {
    LineView { spans: seq![styled(repeated('\u{2500}', 40), dark_gray())] }
}

/// A quote: a bar, then its text in italic.
pub open spec fn quote_view(content: Seq<char>) -> LineView {
    LineView {
        spans: seq![
            styled("\u{2502} "@, dark_gray()),
            styled(content, Style { fg: Some(Color::Gray), italic: true, ..Style::plain() }),
        ],
    }
}

/// A list item: the indentation as spaces, the mark in cyan, the text as it is.
pub open spec fn item_view(indent: nat, mark: Seq<char>, content: Seq<char>) -> LineView {
    LineView {
        spans: seq![
            raw(repeated(' ', indent)),
            styled(mark, Style::colored(Color::Cyan)),
            raw(content),
        ],
    }
}

/// How far a line is indented: the bytes of its leading white space.
pub open spec fn indent_of(line: Seq<char>) -> nat {
    byte_len(line.take(line.len() - trimmed_start(line).len())) as usize as nat
}

/// Whether a text starts with `- `, `* ` or `+ `.
pub open spec fn is_bullet(text: Seq<char>) -> bool {
    text.len() >= 2 && (text[0] == '-' || text[0] == '*' || text[0] == '+') && text[1] == ' '
}

/// Where the number of a numbered item ends and where its text starts: the
/// item starts with digits, a full stop and a space. Further groups of a
/// full stop and digits count as part of the number.
pub open spec fn ordered_marker(text: Seq<char>, at: int, digits_end: int) -> Option<(int, int)>
    decreases text.len() - at,
{
    if at < 0 || at >= text.len() {
        None
    } else if '0' <= text[at] <= '9' {
        ordered_marker(text, at + 1, at + 1)
    } else if text[at] == '.' && digits_end > 0 && at == digits_end {
        if at + 1 < text.len() && text[at + 1] == ' ' {
            Some((digits_end, at + 2))
        } else {
            ordered_marker(text, at + 1, digits_end)
        }
    } else {
        None
    }
}

/// The bar between the cells of a table.
pub open spec fn bar_span() -> SpanView {
    styled("\u{2502}"@, dark_gray())
}

/// Whether a table row only separates: it holds nothing but `|`, `-`, `:`
/// and spaces.
pub open spec fn is_separator_row(text: Seq<char>) -> bool {
    forall|i: int|
        0 <= i < text.len() ==> {
            let c = #[trigger] text[i];
            c == '|' || c == '-' || c == ':' || c == ' '
        }
}

/// The cells of `text[from..]`, split at `|`: each cell without the white
/// space around it, between two spaces, and a bar behind it.
pub open spec fn cell_spans(text: Seq<char>, from: int) -> Seq<SpanView>
    decreases text.len() - from,
    via cell_spans_decreases
{
    if from < 0 || from > text.len() {
        Seq::empty()
    } else {
        let end = find(text, '|', from);
        let cell = seq![
            raw(seq![' '] + trimmed(text.subrange(from, end)) + seq![' ']),
            bar_span(),
        ];
        if end >= text.len() {
            cell
        } else {
            cell + cell_spans(text, end + 1)
        }
    }
}

#[via_fn]
proof fn cell_spans_decreases(text: Seq<char>, from: int) {
    if 0 <= from <= text.len() {
        lemma_find_bounds(text, '|', from);
    }
}

/// A table row, given without the white space around it.
pub open spec fn table_row_view(row: Seq<char>) -> LineView {
    if is_separator_row(row) {
        LineView {
            spans: seq![
                styled(repeated('\u{2500}', at_most(row.len() as int, 60) as nat), dark_gray()),
            ],
        }
    } else {
        LineView { spans: seq![bar_span()] + cell_spans(without_ends(row, '|'), 0) }
    }
}

/// One line of markdown outside a code block.
///
/// In this order: a line that starts with `#` is a header, of the level of
/// its `#`s up to six; `---`, `***` or `___` is a rule; a line that starts with
/// `>` is a quote; `- `, `* ` or `+ ` after the indentation starts a list item,
/// and so does a number with a full stop and a space; a line that holds `|` and
/// starts with it is a table row; anything else is a paragraph.
pub open spec fn line_view(line: Seq<char>) -> LineView {
    let inner = trimmed(line);
    let body = trimmed_start(line);
    if line.len() > 0 && line[0] == '#' {
        let hashes = run_end(line, '#', 0);
        header_view(trimmed(line.subrange(hashes, line.len() as int)), at_most(hashes, 6))
    } else if inner == "---"@ || inner == "***"@ || inner == "___"@ {
        rule_view()
    } else if line.len() > 0 && line[0] == '>' {
        quote_view(trimmed(line.subrange(run_end(line, '>', 0), line.len() as int)))
    } else if is_bullet(body) {
        item_view(indent_of(line), "\u{2022} "@, body.subrange(2, body.len() as int))
    } else if ordered_marker(body, 0, 0) is Some {
        let marker = ordered_marker(body, 0, 0)->0;
        item_view(
            indent_of(line),
            body.subrange(0, marker.0) + ". "@,
            body.subrange(marker.1, body.len() as int),
        )
    } else if find(line, '|', 0) < line.len() && inner.len() > 0 && inner[0] == '|' {
        table_row_view(inner)
    } else {
        LineView { spans: inline_spans(line) }
    }
}

fn skip_run(text: &Vec<char>, c: char, from: usize) -> (r: usize)
    requires
        from <= text.len(),
    ensures
        r == run_end(text@, c, from as int),
        from <= r <= text.len(),
        r < text.len() ==> text[r as int] != c,
{
    let mut i: usize = from;
    while i < text.len() && text[i] == c
        invariant
            from <= i <= text.len(),
            run_end(text@, c, from as int) == run_end(text@, c, i as int),
        decreases text.len() - i,
    {
        i += 1;
    }
    i
}

fn skip_run_back(text: &Vec<char>, c: char, to: usize) -> (r: usize)
    requires
        to <= text.len(),
    ensures
        r == run_start(text@, c, to as int),
        r <= to,
{
    let mut i: usize = to;
    while i > 0 && text[i - 1] == c
        invariant
            i <= to <= text.len(),
            run_start(text@, c, to as int) == run_start(text@, c, i as int),
        decreases i,
    {
        i -= 1;
    }
    i
}

fn colored(color: Color, bold: bool, italic: bool) -> (r: Style)
    ensures
        r == (Style { fg: Some(color), bold, italic, ..Style::plain() }),
{
    Style { fg: Some(color), bg: None, bold, italic, underlined: false, crossed_out: false }
}

fn one_span(content: String, style: Style) -> (r: Line)
    ensures
        r@.spans == seq![styled(content@, style)],
{
    let mut spans = no_spans();
    push_span(&mut spans, content, style);
    assert(spans.deep_view() =~= seq![styled(content@, style)]);
    Line { spans }
}

fn two_spans(first: String, first_style: Style, second: String, second_style: Style) -> (r: Line)
    ensures
        r@.spans == seq![styled(first@, first_style), styled(second@, second_style)],
{
    let mut spans = no_spans();
    push_span(&mut spans, first, first_style);
    push_span(&mut spans, second, second_style);
    assert(spans.deep_view() =~= seq![
        styled(first@, first_style),
        styled(second@, second_style),
    ]);
    Line { spans }
}

/// A header of the given level.
pub fn render_header(content: &str, level: u8) -> (r: Line)
    ensures
        r@ == header_view(content@, level as int),
{
    let color = if level == 1 {
        Color::Magenta
    } else if level == 2 {
        Color::Cyan
    } else if level == 3 {
        Color::Blue
    } else {
        Color::Gray
    };
    let mark = if level == 1 {
        "\u{2588} "
    } else if level == 2 {
        "\u{2593} "
    } else if level == 3 {
        "\u{2592} "
    } else {
        "\u{2591} "
    };
    two_spans(
        String::from_str(mark),
        colored(color, false, false),
        String::from_str(content),
        colored(color, true, false),
    )
}

fn render_quote(content: String) -> (r: Line)
    ensures
        r@ == quote_view(content@),
{
    let r = two_spans(
        String::from_str("\u{2502} "),
        colored(Color::DarkGray, false, false),
        content,
        colored(Color::Gray, false, true),
    );
    assert(r@.spans =~= quote_view(content@).spans);
    r
}

fn render_item(indent: usize, mark: String, content: String) -> (r: Line)
    ensures
        r@ == item_view(indent as nat, mark@, content@),
{
    let mut spans = no_spans();
    push_span(&mut spans, repeat_char(' ', indent), Style::new());
    push_span(&mut spans, mark, colored(Color::Cyan, false, false));
    push_span(&mut spans, content, Style::new());
    assert(spans.deep_view() =~= item_view(indent as nat, mark@, content@).spans);
    Line { spans }
}

/// Where the number of a numbered item ends and where its text starts.
pub fn try_parse_ordered_list(text: &Vec<char>) -> (r: Option<(usize, usize)>)
    ensures
        match r {
            Some((number_end, content_start)) => ordered_marker(text@, 0, 0) == Some(
                (number_end as int, content_start as int),
            ) && number_end <= content_start <= text.len(),
            None => ordered_marker(text@, 0, 0) is None,
        },
{
    let mut at: usize = 0;
    let mut digits_end: usize = 0;
    while at < text.len()
        invariant
            digits_end <= at <= text.len(),
            ordered_marker(text@, 0, 0) == ordered_marker(text@, at as int, digits_end as int),
        decreases text.len() - at,
    {
        let c = text[at];
        if '0' <= c && c <= '9' {
            digits_end = at + 1;
        } else if c == '.' && digits_end > 0 && at == digits_end {
            if at + 1 < text.len() && text[at + 1] == ' ' {
                return Some((digits_end, at + 2));
            }
        } else {
            return None;
        }
        at += 1;
    }
    None
}

fn is_separator(text: &Vec<char>) -> (r: bool)
    ensures
        r == is_separator_row(text@),
{
    let mut i: usize = 0;
    while i < text.len()
        invariant
            i <= text.len(),
            forall|k: int|
                0 <= k < i ==> {
                    let c = #[trigger] text@[k];
                    c == '|' || c == '-' || c == ':' || c == ' '
                },
        decreases text.len() - i,
    {
        let c = text[i];
        if !(c == '|' || c == '-' || c == ':' || c == ' ') {
            return false;
        }
        i += 1;
    }
    true
}

/// A table row, given without the white space around it.
pub fn render_table_row(row: &Vec<char>) -> (r: Line)
    ensures
        r@ == table_row_view(row@),
{
    if is_separator(row) {
        let width = if row.len() <= 60 {
            row.len()
        } else {
            60
        };
        return one_span(repeat_char('\u{2500}', width), colored(Color::DarkGray, false, false));
    }
    let from = skip_run(row, '|', 0);
    let cells: Vec<char> = if from >= row.len() {
        Vec::new()
    } else {
        let to = skip_run_back(row, '|', row.len());
        proof {
            lemma_run_start_after(row@, '|', row.len() as int, from as int);
        }
        slice_chars(row, from, to)
    };
    assert(cells@ =~= without_ends(row@, '|'));
    let mut spans = no_spans();
    push_span(&mut spans, String::from_str("\u{2502}"), colored(Color::DarkGray, false, false));
    let ghost head = spans.deep_view();
    let mut at: usize = 0;
    loop
        invariant_except_break
            at <= cells.len(),
            spans.deep_view() + cell_spans(cells@, at as int) == head + cell_spans(cells@, 0),
        ensures
            spans.deep_view() == head + cell_spans(cells@, 0),
        decreases cells.len() - at,
    {
        let end = find_char(&cells, '|', at);
        let mut cell = String::new();
        cell.push(' ');
        cell.append(trimmed_text(&cells, at, end).as_str());
        cell.push(' ');
        let ghost shown = spans.deep_view();
        let ghost rest = cell_spans(cells@, at as int);
        assert(cell@ =~= seq![' '] + trimmed(cells@.subrange(at as int, end as int)) + seq![' ']);
        push_span(&mut spans, cell, Style::new());
        push_span(&mut spans, String::from_str("\u{2502}"), colored(Color::DarkGray, false, false));
        if end >= cells.len() {
            assert(spans.deep_view() =~= shown + rest);
            break;
        }
        assert(spans.deep_view() + cell_spans(cells@, end + 1) =~= shown + rest);
        at = end + 1;
    }
    Line { spans }
}

/// One line of markdown outside a code block.
pub fn render_line(line: &str) -> (r: Line)
    ensures
        r@ == line_view(line@),
{
    let chars = chars_of(line);
    let inner = trim(line);
    let body = trim_start(line);
    let body_chars = chars_of(body.as_str());
    if chars.len() > 0 && chars[0] == '#' {
        let hashes = skip_run(&chars, '#', 0);
        let level: u8 = if hashes >= 6 {
            6
        } else {
            hashes as u8
        };
        let content = trimmed_text(&chars, hashes, chars.len());
        return render_header(content.as_str(), level);
    }
    if same_text(inner.as_str(), "---") || same_text(inner.as_str(), "***") || same_text(
        inner.as_str(),
        "___",
    ) {
        return one_span(repeat_char('\u{2500}', 40), colored(Color::DarkGray, false, false));
    }
    if chars.len() > 0 && chars[0] == '>' {
        return render_quote(trimmed_text(&chars, skip_run(&chars, '>', 0), chars.len()));
    }
    let indent = text_of(&chars, 0, chars.len() - body_chars.len()).as_str().len();
    assert(chars@.subrange(0, chars.len() - body_chars.len()) =~= line@.take(
        line@.len() - body@.len(),
    ));
    if body_chars.len() >= 2 && (body_chars[0] == '-' || body_chars[0] == '*' || body_chars[0]
        == '+') && body_chars[1] == ' ' {
        return render_item(
            indent,
            String::from_str("\u{2022} "),
            text_of(&body_chars, 2, body_chars.len()),
        );
    }
    match try_parse_ordered_list(&body_chars) {
        Some((number_end, content_start)) => {
            let mut mark = text_of(&body_chars, 0, number_end);
            mark.append(". ");
            return render_item(
                indent,
                mark,
                text_of(&body_chars, content_start, body_chars.len()),
            );
        },
        None => {},
    }
    let inner_chars = chars_of(inner.as_str());
    if find_char(&chars, '|', 0) < chars.len() && inner_chars.len() > 0 && inner_chars[0] == '|' {
        return render_table_row(&inner_chars);
    }
    render_inline(&chars)
}

/// A line without the carriage return at its end, if it has one.
pub open spec fn without_return(line: Seq<char>) -> Seq<char> {
    if line.len() > 0 && line.last() == '\r' {
        line.drop_last()
    } else {
        line
    }
}

/// The lines of `text[from..]`: the text is cut behind every line feed, and
/// a cut line loses its line feed and a carriage return before it. What
/// follows the last line feed is a line as it is, unless it is empty.
pub open spec fn lines_from(text: Seq<char>, from: int) -> Seq<Seq<char>>
    decreases text.len() - from,
    via lines_from_decreases
{
    if from < 0 || from >= text.len() {
        Seq::empty()
    } else {
        let end = find(text, '\n', from);
        if end >= text.len() {
            seq![text.subrange(from, text.len() as int)]
        } else {
            seq![without_return(text.subrange(from, end))] + lines_from(text, end + 1)
        }
    }
}

#[via_fn]
proof fn lines_from_decreases(text: Seq<char>, from: int) {
    if 0 <= from <= text.len() {
        lemma_find_bounds(text, '\n', from);
    }
}

/// The lines of `text[from..]` with their line feeds: the text is cut behind
/// every line feed, and nothing is taken away.
pub open spec fn pieces_from(text: Seq<char>, from: int) -> Seq<Seq<char>>
    decreases text.len() - from,
    via pieces_from_decreases
{
    if from < 0 || from >= text.len() {
        Seq::empty()
    } else {
        let end = find(text, '\n', from);
        if end >= text.len() {
            seq![text.subrange(from, text.len() as int)]
        } else {
            seq![text.subrange(from, end + 1)] + pieces_from(text, end + 1)
        }
    }
}

#[via_fn]
proof fn pieces_from_decreases(text: Seq<char>, from: int) {
    if 0 <= from <= text.len() {
        lemma_find_bounds(text, '\n', from);
    }
}

/// The lines of a text, as `str::lines` gives them.
pub fn lines_of(text: &str) -> (r: Vec<String>)
    ensures
        r.deep_view() == lines_from(text@, 0),
{
    let chars = chars_of(text);
    let mut out: Vec<String> = Vec::new();
    let mut from: usize = 0;
    assert(out.deep_view() + lines_from(chars@, 0) =~= lines_from(chars@, 0));
    while from < chars.len()
        invariant
            from <= chars.len(),
            out.deep_view() + lines_from(chars@, from as int) == lines_from(chars@, 0),
        decreases chars.len() - from,
    {
        let end = find_char(&chars, '\n', from);
        let ghost shown = out.deep_view();
        let ghost rest = lines_from(chars@, from as int);
        if end >= chars.len() {
            out.push(text_of(&chars, from, chars.len()));
            assert(out.deep_view() + lines_from(chars@, chars.len() as int) =~= shown + rest);
            from = chars.len();
        } else {
            let stop = if end > from && chars[end - 1] == '\r' {
                end - 1
            } else {
                end
            };
            out.push(text_of(&chars, from, stop));
            assert(chars@.subrange(from as int, stop as int) =~= without_return(
                chars@.subrange(from as int, end as int),
            ));
            assert(out.deep_view() + lines_from(chars@, end + 1) =~= shown + rest);
            from = end + 1;
        }
    }
    assert(out.deep_view() + lines_from(chars@, from as int) =~= out.deep_view());
    out
}

/// The lines of a text with their line feeds.
pub fn lines_with_endings(text: &str) -> (r: Vec<String>)
    ensures
        r.deep_view() == pieces_from(text@, 0),
{
    let chars = chars_of(text);
    let mut out: Vec<String> = Vec::new();
    let mut from: usize = 0;
    assert(out.deep_view() + pieces_from(chars@, 0) =~= pieces_from(chars@, 0));
    while from < chars.len()
        invariant
            from <= chars.len(),
            out.deep_view() + pieces_from(chars@, from as int) == pieces_from(chars@, 0),
        decreases chars.len() - from,
    {
        let end = find_char(&chars, '\n', from);
        let ghost shown = out.deep_view();
        let ghost rest = pieces_from(chars@, from as int);
        let next = if end >= chars.len() {
            chars.len()
        } else {
            end + 1
        };
        out.push(text_of(&chars, from, next));
        assert(out.deep_view() + pieces_from(chars@, next as int) =~= shown + rest);
        from = next;
    }
    assert(out.deep_view() + pieces_from(chars@, from as int) =~= out.deep_view());
    out
}

/// A part of a markdown text: a line outside code, or a block of code with
/// the language that its opening fence names.
#[derive(Debug, PartialEq)]
pub enum Block {
    Text(Line),
    Code { lang: Option<String>, code: String },
}

/// The value of a [`Block`].
pub ghost enum BlockView {
    Text(LineView),
    Code { lang: Option<Seq<char>>, code: Seq<char> },
}

impl View for Block {
    type V = BlockView;

    open spec fn view(&self) -> BlockView {
        match self {
            Block::Text(line) => BlockView::Text(line@),
            Block::Code { lang, code } => BlockView::Code {
                lang: lang.deep_view(),
                code: code@,
            },
        }
    }
}

impl DeepView for Block {
    type V = BlockView;

    open spec fn deep_view(&self) -> BlockView {
        self@
    }
}

/// Whether a line opens or closes a block of code: it starts with three
/// backquotes.
pub open spec fn is_fence(line: Seq<char>) -> bool {
    line.len() >= 3 && line[0] == '`' && line[1] == '`' && line[2] == '`'
}

/// The language that an opening fence names: what follows its backquotes,
/// without the white space around it, if anything.
pub open spec fn fence_lang(line: Seq<char>) -> Option<Seq<char>> {
    let name = trimmed(line.subrange(run_end(line, '`', 0), line.len() as int));
    if name.len() == 0 {
        None
    } else {
        Some(name)
    }
}

/// The code of a block: its lines joined by line feeds.
pub open spec fn code_block(lang: Option<Seq<char>>, buffer: Seq<Seq<char>>) -> BlockView {
    BlockView::Code { lang, code: joined(buffer, seq!['\n']) }
}

/// The blocks of the lines from `at` on, where `in_code` says whether a
/// block of code is open, in the language `lang` and with the lines `buffer`
/// so far. A block of code that is still open at the end counts if it has a
/// line.
pub open spec fn blocks_from(
    lines: Seq<Seq<char>>,
    at: int,
    in_code: bool,
    lang: Option<Seq<char>>,
    buffer: Seq<Seq<char>>,
) -> Seq<BlockView>
    decreases lines.len() - at,
{
    if at < 0 || at >= lines.len() {
        if in_code && buffer.len() > 0 {
            seq![code_block(lang, buffer)]
        } else {
            Seq::empty()
        }
    } else if is_fence(lines[at]) {
        if in_code {
            seq![code_block(lang, buffer)] + blocks_from(lines, at + 1, false, None, Seq::empty())
        } else {
            blocks_from(lines, at + 1, true, fence_lang(lines[at]), Seq::empty())
        }
    } else if in_code {
        blocks_from(lines, at + 1, true, lang, buffer.push(lines[at]))
    } else {
        seq![BlockView::Text(line_view(lines[at]))] + blocks_from(lines, at + 1, false, lang, buffer)
    }
}

/// The blocks of a markdown text.
pub open spec fn blocks_of(markdown: Seq<char>) -> Seq<BlockView> {
    blocks_from(lines_from(markdown, 0), 0, false, None, Seq::empty())
}

fn push_block(blocks: &mut Vec<Block>, block: Block)
    ensures
        final(blocks).deep_view() == old(blocks).deep_view().push(block@),
{
    blocks.push(block);
    assert(blocks.deep_view() =~= old(blocks).deep_view().push(block@));
}

fn make_code_block(lang: &Option<String>, buffer: &Vec<String>) -> (r: Block)
    ensures
        r@ == code_block(lang.deep_view(), buffer.deep_view()),
{
    let code = join_texts(buffer, "\n");
    proof {
        reveal_strlit("\n");
        assert("\n"@ =~= seq!['\n']);
        assert(texts(buffer@) =~= buffer.deep_view());
    }
    Block::Code {
        lang: match lang {
            Some(l) => Some(l.clone()),
            None => None,
        },
        code,
    }
}

/// The blocks of a markdown text.
pub fn parse_blocks(markdown: &str) -> (r: Vec<Block>)
    ensures
        r.deep_view() == blocks_of(markdown@),
{
    let lines = lines_of(markdown);
    let ghost all = lines.deep_view();
    let mut blocks: Vec<Block> = Vec::new();
    let mut in_code = false;
    let mut lang: Option<String> = None;
    let mut buffer: Vec<String> = Vec::new();
    let mut at: usize = 0;
    assert(buffer.deep_view() =~= Seq::<Seq<char>>::empty());
    assert(blocks.deep_view() + blocks_of(markdown@) =~= blocks_of(markdown@));
    while at < lines.len()
        invariant
            at <= lines.len(),
            all == lines.deep_view(),
            !in_code ==> buffer@.len() == 0,
            blocks.deep_view() + blocks_from(
                all,
                at as int,
                in_code,
                lang.deep_view(),
                buffer.deep_view(),
            ) == blocks_of(markdown@),
        decreases lines.len() - at,
    {
        let line = &lines[at];
        let chars = chars_of(line.as_str());
        let ghost shown = blocks.deep_view();
        let ghost rest = blocks_from(
            all,
            at as int,
            in_code,
            lang.deep_view(),
            buffer.deep_view(),
        );
        assert(all[at as int] == line@);
        if chars.len() >= 3 && chars[0] == '`' && chars[1] == '`' && chars[2] == '`' {
            if in_code {
                push_block(&mut blocks, make_code_block(&lang, &buffer));
                buffer = Vec::new();
                lang = None;
                in_code = false;
                assert(buffer.deep_view() =~= Seq::<Seq<char>>::empty());
                assert(blocks.deep_view() + blocks_from(
                    all,
                    at + 1,
                    false,
                    None,
                    Seq::empty(),
                ) =~= shown + rest);
            } else {
                let name = trimmed_text(&chars, skip_run(&chars, '`', 0), chars.len());
                assert(buffer.deep_view() =~= Seq::<Seq<char>>::empty());
                in_code = true;
                lang = if name.as_str().is_empty() {
                    None
                } else {
                    Some(name)
                };
            }
        } else if in_code {
            let ghost before = buffer.deep_view();
            buffer.push(line.clone());
            assert(buffer.deep_view() =~= before.push(line@));
        } else {
            push_block(&mut blocks, Block::Text(render_line(line.as_str())));
            assert(blocks.deep_view() + blocks_from(
                all,
                at + 1,
                in_code,
                lang.deep_view(),
                buffer.deep_view(),
            ) =~= shown + rest);
        }
        at += 1;
    }
    let ghost shown = blocks.deep_view();
    if in_code && buffer.len() > 0 {
        push_block(&mut blocks, make_code_block(&lang, &buffer));
    }
    assert(blocks.deep_view() =~= shown + blocks_from(
        all,
        at as int,
        in_code,
        lang.deep_view(),
        buffer.deep_view(),
    ));
    blocks
}

/// `syntect::parsing::SyntaxSet`, of which nothing is known here.
#[verifier::external_type_specification]
#[verifier::external_body]
pub struct ExSyntaxSet(syntect::parsing::SyntaxSet);

/// `syntect::parsing::SyntaxReference`, of which nothing is known here.
#[verifier::external_type_specification]
#[verifier::external_body]
pub struct ExSyntaxReference(syntect::parsing::SyntaxReference);

/// `syntect::highlighting::ThemeSet`, of which nothing is known here.
#[verifier::external_type_specification]
#[verifier::external_body]
pub struct ExThemeSet(syntect::highlighting::ThemeSet);

/// `syntect::highlighting::Theme`, of which nothing is known here.
#[verifier::external_type_specification]
#[verifier::external_body]
pub struct ExTheme(syntect::highlighting::Theme);

/// `syntect::easy::HighlightLines`, of which nothing is known here.
#[verifier::external_type_specification]
#[verifier::external_body]
pub struct ExHighlightLines<'a>(syntect::easy::HighlightLines<'a>);

/// A stretch of a line of code in one colour, as the highlighter gives it.
#[derive(Debug, PartialEq)]
pub struct Piece {
    pub red: u8,
    pub green: u8,
    pub blue: u8,
    pub text: String,
}

/// The value of a [`Piece`].
pub ghost struct PieceView {
    pub red: u8,
    pub green: u8,
    pub blue: u8,
    pub text: Seq<char>,
}

impl View for Piece {
    type V = PieceView;

    open spec fn view(&self) -> PieceView {
        PieceView { red: self.red, green: self.green, blue: self.blue, text: self.text@ }
    }
}

impl DeepView for Piece {
    type V = PieceView;

    open spec fn deep_view(&self) -> PieceView {
        self@
    }
}

/// `SyntaxSet::load_defaults_newlines`: the syntaxes that come with syntect.
#[verifier::external_body]
fn default_syntaxes() -> syntect::parsing::SyntaxSet {
    syntect::parsing::SyntaxSet::load_defaults_newlines()
}

/// `ThemeSet::load_defaults`: the themes that come with syntect.
#[verifier::external_body]
fn default_themes() -> syntect::highlighting::ThemeSet {
    syntect::highlighting::ThemeSet::load_defaults()
}

/// `SyntaxSet::find_syntax_by_token`: the syntax that a short name or a
/// file extension stands for, if the set has one.
#[verifier::external_body]
fn syntax_by_token<'a>(set: &'a syntect::parsing::SyntaxSet, token: &str) -> Option<
    &'a syntect::parsing::SyntaxReference,
> {
    set.find_syntax_by_token(token)
}

/// `SyntaxSet::find_syntax_by_name`: the syntax of that name, if the set has one.
#[verifier::external_body]
fn syntax_by_name<'a>(set: &'a syntect::parsing::SyntaxSet, name: &str) -> Option<
    &'a syntect::parsing::SyntaxReference,
> {
    set.find_syntax_by_name(name)
}

/// The theme of that name in the field `themes` of a `ThemeSet`, if it is there.
#[verifier::external_body]
fn theme_by_name<'a>(set: &'a syntect::highlighting::ThemeSet, name: &str) -> Option<
    &'a syntect::highlighting::Theme,
> {
    set.themes.get(name)
}

/// `HighlightLines::new`: a highlighter at the start of a text.
#[verifier::external_body]
fn new_highlighter<'a>(
    syntax: &syntect::parsing::SyntaxReference,
    theme: &'a syntect::highlighting::Theme,
) -> syntect::easy::HighlightLines<'a> {
    syntect::easy::HighlightLines::new(syntax, theme)
}

/// The text of the stretches of a line, one after another.
pub open spec fn stretches_text(pieces: Seq<PieceView>) -> Seq<char>
    decreases pieces.len(),
{
    if pieces.len() == 0 {
        Seq::empty()
    } else {
        stretches_text(pieces.drop_last()) + pieces.last().text
    }
}

/// `HighlightLines::highlight_line`: the next line in coloured stretches,
/// each with the red, green and blue of its foreground, or nothing where the
/// highlighter reports an error. The stretches are cut from the line one
/// behind the other, starting at its first character, so that together they
/// are the line or, where the highlighter stops early, its beginning. Their
/// colours and cuts depend on the lines before.
#[verifier::external_body]
fn highlight_line(
    highlighter: &mut syntect::easy::HighlightLines<'_>,
    line: &str,
    set: &syntect::parsing::SyntaxSet,
) -> (r: Option<Vec<Piece>>)
    ensures
        r matches Some(pieces) ==> stretches_text(pieces.deep_view()).is_prefix_of(line@),
{
    highlighter.highlight_line(line, set).ok().map(
        |ranges|
            ranges.into_iter().map(
                |(style, text)|
                    Piece {
                        red: style.foreground.r,
                        green: style.foreground.g,
                        blue: style.foreground.b,
                        text: text.to_string(),
                    },
            ).collect(),
    )
}

/// The bar before a line of code.
pub open spec fn gutter_span() -> SpanView {
    styled("\u{2502} "@, dark_gray())
}

/// A stretch of code as shown: in its colour, without line feeds at its end.
pub open spec fn piece_span(piece: PieceView) -> SpanView {
    styled(
        piece.text.subrange(0, run_start(piece.text, '\n', piece.text.len() as int)),
        Style::colored(Color::Rgb(piece.red, piece.green, piece.blue)),
    )
}

/// A line of code as shown: a bar, then its stretches.
pub open spec fn code_line_view(pieces: Seq<PieceView>) -> LineView {
    LineView {
        spans: seq![gutter_span()] + Seq::new(pieces.len(), |i: int| piece_span(pieces[i])),
    }
}

/// The line above a block of code, with the language or the word `code`.
pub open spec fn code_header(lang: Option<Seq<char>>) -> LineView {
    LineView {
        spans: seq![
            styled(
                "\u{250C}\u{2500} "@ + match lang {
                    Some(l) => l,
                    None => "code"@,
                } + " "@,
                dark_gray(),
            ),
        ],
    }
}

/// The line below a block of code.
pub open spec fn code_footer() -> LineView {
    LineView {
        spans: seq![styled("\u{2514}\u{2500}\u{2500}\u{2500}\u{2500}\u{2500}"@, dark_gray())],
    }
}

/// The lines of a block of code whose lines come in the stretches `pieces`.
pub open spec fn framed_code(lang: Option<Seq<char>>, pieces: Seq<Seq<PieceView>>) -> Seq<
    LineView,
> {
    seq![code_header(lang)] + Seq::new(pieces.len(), |i: int| code_line_view(pieces[i])) + seq![
        code_footer(),
    ]
}

/// Whether the stretches show the lines of `code`, one list of stretches
/// for each line: the stretches of a line are, one after another, that line or
/// its beginning.
pub open spec fn shows_code(pieces: Seq<Seq<PieceView>>, code: Seq<char>) -> bool {
    &&& pieces.len() == pieces_from(code, 0).len()
    &&& forall|k: int|
        0 <= k < pieces.len() ==> stretches_text(#[trigger] pieces[k]).is_prefix_of(
            pieces_from(code, 0)[k],
        )
}

/// Whether `lines` show the block of code `code`: a header, one line for
/// each line of the code, in stretches of whatever colours that are cut from
/// that line, and a footer.
pub open spec fn is_code_frame(lang: Option<Seq<char>>, code: Seq<char>, lines: Seq<LineView>) -> bool {
    exists|pieces: Seq<Seq<PieceView>>|
        shows_code(pieces, code) && #[trigger] framed_code(lang, pieces) == lines
}

/// Whether `part` shows `block`: a line outside code shows as itself.
pub open spec fn part_of(block: BlockView, part: Seq<LineView>) -> bool {
    match block {
        BlockView::Text(line) => part == seq![line],
        BlockView::Code { lang, code } => is_code_frame(lang, code, part),
    }
}

/// Whether `lines` show `blocks`, one after another.
pub open spec fn renders(blocks: Seq<BlockView>, lines: Seq<LineView>) -> bool {
    exists|parts: Seq<Seq<LineView>>|
        {
            &&& parts.len() == blocks.len()
            &&& #[trigger] parts.flatten() == lines
            &&& forall|i: int| 0 <= i < blocks.len() ==> part_of(blocks[i], #[trigger] parts[i])
        }
}

/// A line of code as shown: a bar, then its stretches.
pub fn code_line(pieces: &Vec<Piece>) -> (r: Line)
    ensures
        r@ == code_line_view(pieces.deep_view()),
{
    let mut spans = no_spans();
    push_span(&mut spans, String::from_str("\u{2502} "), colored(Color::DarkGray, false, false));
    let ghost all = pieces.deep_view();
    let mut i: usize = 0;
    while i < pieces.len()
        invariant
            i <= pieces.len(),
            all == pieces.deep_view(),
            spans.deep_view() == seq![gutter_span()] + Seq::new(
                i as nat,
                |k: int| piece_span(all[k]),
            ),
        decreases pieces.len() - i,
    {
        let piece = &pieces[i];
        let chars = chars_of(piece.text.as_str());
        let end = skip_run_back(&chars, '\n', chars.len());
        push_span(
            &mut spans,
            text_of(&chars, 0, end),
            colored(Color::Rgb(piece.red, piece.green, piece.blue), false, false),
        );
        assert(all[i as int] == piece@);
        assert(spans.deep_view() =~= seq![gutter_span()] + Seq::new(
            (i + 1) as nat,
            |k: int| piece_span(all[k]),
        ));
        i += 1;
    }
    let r = Line { spans };
    assert(r@.spans =~= code_line_view(all).spans);
    r
}

fn highlight_all(
    highlighter: syntect::easy::HighlightLines<'_>,
    set: &syntect::parsing::SyntaxSet,
    lines: &Vec<String>,
    out: &mut Vec<Line>,
) -> (pieces: Ghost<Seq<Seq<PieceView>>>)
    ensures
        pieces@.len() == lines.len(),
        forall|k: int|
            0 <= k < pieces@.len() ==> stretches_text(#[trigger] pieces@[k]).is_prefix_of(
                lines.deep_view()[k],
            ),
        final(out).deep_view() == old(out).deep_view() + Seq::new(
            pieces@.len(),
            |i: int| code_line_view(pieces@[i]),
        ),
{
    let mut highlighter = highlighter;
    let ghost mut pieces: Seq<Seq<PieceView>> = Seq::empty();
    let ghost before = out.deep_view();
    let ghost all = lines.deep_view();
    assert(out.deep_view() =~= before + Seq::new(0, |i: int| code_line_view(pieces[i])));
    let mut at: usize = 0;
    while at < lines.len()
        invariant
            at <= lines.len(),
            pieces.len() == at,
            all == lines.deep_view(),
            forall|k: int|
                0 <= k < pieces.len() ==> stretches_text(#[trigger] pieces[k]).is_prefix_of(
                    all[k],
                ),
            out.deep_view() == before + Seq::new(pieces.len(), |i: int| code_line_view(pieces[i])),
        decreases lines.len() - at,
    {
        assert(all[at as int] == lines@[at as int]@);
        let found = match highlight_line(&mut highlighter, lines[at].as_str(), set) {
            Some(found) => found,
            None => {
                let none: Vec<Piece> = Vec::new();
                assert(none.deep_view() =~= Seq::<PieceView>::empty());
                none
            },
        };
        push_line(out, code_line(&found));
        proof {
            let ghost earlier = pieces;
            pieces = pieces.push(found.deep_view());
            assert forall|k: int| 0 <= k < pieces.len() implies stretches_text(
                #[trigger] pieces[k],
            ).is_prefix_of(all[k]) by {
                if k < at {
                    assert(pieces[k] == earlier[k]);
                }
            }
            assert(out.deep_view() =~= before + Seq::new(
                pieces.len(),
                |i: int| code_line_view(pieces[i]),
            ));
        }
        at += 1;
    }
    Ghost(pieces)
}

fn plain_all(lines: &Vec<String>, out: &mut Vec<Line>) -> (pieces: Ghost<Seq<Seq<PieceView>>>)
    ensures
        pieces@.len() == lines.len(),
        forall|k: int|
            0 <= k < pieces@.len() ==> stretches_text(#[trigger] pieces@[k]).is_prefix_of(
                lines.deep_view()[k],
            ),
        final(out).deep_view() == old(out).deep_view() + Seq::new(
            pieces@.len(),
            |i: int| code_line_view(pieces@[i]),
        ),
{
    let ghost mut pieces: Seq<Seq<PieceView>> = Seq::empty();
    let ghost before = out.deep_view();
    assert(out.deep_view() =~= before + Seq::new(0, |i: int| code_line_view(pieces[i])));
    let mut at: usize = 0;
    while at < lines.len()
        invariant
            at <= lines.len(),
            pieces.len() == at,
            forall|k: int|
                0 <= k < pieces.len() ==> (#[trigger] pieces[k]) == Seq::<PieceView>::empty(),
            out.deep_view() == before + Seq::new(pieces.len(), |i: int| code_line_view(pieces[i])),
        decreases lines.len() - at,
    {
        let found: Vec<Piece> = Vec::new();
        assert(found.deep_view() =~= Seq::<PieceView>::empty());
        push_line(out, code_line(&found));
        proof {
            pieces = pieces.push(found.deep_view());
            assert(out.deep_view() =~= before + Seq::new(
                pieces.len(),
                |i: int| code_line_view(pieces[i]),
            ));
        }
        at += 1;
    }
    Ghost(pieces)
}

fn append_lines(out: &mut Vec<Line>, lines: &Vec<Line>)
    ensures
        final(out).deep_view() == old(out).deep_view() + lines.deep_view(),
{
    let ghost before = out.deep_view();
    let mut i: usize = 0;
    assert(out.deep_view() =~= before + lines.deep_view().take(0));
    while i < lines.len()
        invariant
            i <= lines.len(),
            out.deep_view() == before + lines.deep_view().take(i as int),
        decreases lines.len() - i,
    {
        push_line(out, copy_line(&lines[i]));
        assert(out.deep_view() =~= before + lines.deep_view().take(i + 1));
        i += 1;
    }
    assert(lines.deep_view().take(lines.len() as int) =~= lines.deep_view());
}

/// Turns markdown into styled lines, with the syntaxes and themes that
/// colour its code.
pub struct MarkdownRenderer {
    syntax_set: syntect::parsing::SyntaxSet,
    theme_set: syntect::highlighting::ThemeSet,
}

impl MarkdownRenderer {
    /// A renderer with the syntaxes and themes that come with syntect.
    pub fn new() -> Self {
        MarkdownRenderer { syntax_set: default_syntaxes(), theme_set: default_themes() }
    }

    /// A block of code as lines: a header with the language, the lines of
    /// the code, coloured for that language where it is known and as plain
    /// text otherwise, and a footer.
    pub fn highlight_code(&self, code: &str, lang: Option<&str>) -> (r: Vec<Line>)
        ensures
            is_code_frame(
                match lang {
                    Some(l) => Some(l@),
                    None => None,
                },
                code@,
                r.deep_view(),
            ),
    {
        let ghost name = match lang {
            Some(l) => Some(l@),
            None => None,
        };
        let mut header = String::from_str("\u{250C}\u{2500} ");
        header.append(
            match lang {
                Some(l) => l,
                None => "code",
            },
        );
        header.append(" ");
        let mut out = no_lines();
        push_line(&mut out, one_span(header, colored(Color::DarkGray, false, false)));
        let lines = lines_with_endings(code);
        let named = match lang {
            Some(l) => syntax_by_token(&self.syntax_set, l),
            None => None,
        };
        let syntax = match named {
            Some(syntax) => Some(syntax),
            None => syntax_by_name(&self.syntax_set, "Plain Text"),
        };
        let theme = theme_by_name(&self.theme_set, "base16-ocean.dark");
        let pieces = match (syntax, theme) {
            (Some(syntax), Some(theme)) => highlight_all(
                new_highlighter(syntax, theme),
                &self.syntax_set,
                &lines,
                &mut out,
            ),
            _ => plain_all(&lines, &mut out),
        };
        push_line(
            &mut out,
            one_span(
                String::from_str("\u{2514}\u{2500}\u{2500}\u{2500}\u{2500}\u{2500}"),
                colored(Color::DarkGray, false, false),
            ),
        );
        proof {
            assert(out.deep_view() =~= framed_code(name, pieces@));
            assert(lines.deep_view().len() == lines.len());
            assert(shows_code(pieces@, code@));
        }
        out
    }

    /// The blocks as lines, one block after another.
    pub fn render_blocks(&self, blocks: &Vec<Block>) -> (r: Vec<Line>)
        ensures
            renders(blocks.deep_view(), r.deep_view()),
    {
        let ghost all = blocks.deep_view();
        let ghost mut parts: Seq<Seq<LineView>> = Seq::empty();
        let mut out = no_lines();
        let mut at: usize = 0;
        while at < blocks.len()
            invariant
                at <= blocks.len(),
                all == blocks.deep_view(),
                parts.len() == at,
                parts.flatten() == out.deep_view(),
                forall|i: int| 0 <= i < at ==> part_of(all[i], #[trigger] parts[i]),
            decreases blocks.len() - at,
        {
            assert(all[at as int] == blocks@[at as int]@);
            let ghost earlier = parts;
            match &blocks[at] {
                Block::Text(line) => {
                    push_line(&mut out, copy_line(line));
                    proof {
                        parts = parts.push(seq![line@]);
                        earlier.lemma_flatten_push(seq![line@]);
                        assert(out.deep_view() =~= earlier.flatten() + seq![line@]);
                    }
                },
                Block::Code { lang, code } => {
                    let lines = self.highlight_code(
                        code.as_str(),
                        match lang {
                            Some(l) => Some(l.as_str()),
                            None => None,
                        },
                    );
                    append_lines(&mut out, &lines);
                    proof {
                        parts = parts.push(lines.deep_view());
                        earlier.lemma_flatten_push(lines.deep_view());
                    }
                },
            }
            assert forall|i: int| 0 <= i < at + 1 implies part_of(all[i], #[trigger] parts[i]) by {
                if i < at {
                    assert(parts[i] == earlier[i]);
                }
            }
            at += 1;
        }
        out
    }

    /// Markdown as styled lines: every line outside code as [`line_view`]
    /// gives it, every block of code between a header and a footer.
    pub fn render(&self, markdown: &str) -> (r: Vec<Line>)
        ensures
            renders(blocks_of(markdown@), r.deep_view()),
    {
        let blocks = parse_blocks(markdown);
        self.render_blocks(&blocks)
    }
}

impl Default for MarkdownRenderer {
    fn default() -> Self {
        MarkdownRenderer::new()
    }
}

} // verus!
