//! The chat log of the interactive session.

use vstd::prelude::*;
use crate::tui::markdown::blocks_of;
use crate::tui::markdown::renders;
use crate::tui::markdown::MarkdownRenderer;
use crate::tui::styled::copy_line;
use crate::tui::styled::no_lines;
use crate::tui::styled::no_spans;
use crate::tui::styled::push_line;
use crate::tui::styled::push_span;
use crate::tui::styled::styled;
use crate::tui::styled::Color;
use crate::tui::styled::Line;
use crate::tui::styled::LineView;
use crate::tui::styled::Style;
use crate::tui::App;
use crate::tui::AppView;

verus! {

/// Who wrote a message of the chat log.
#[derive(Clone, Copy, PartialEq, Eq, Structural, Debug)]
pub enum MessageRole {
    User,
    Assistant,
    System,
}

/// One entry of the chat log.
#[derive(Debug, PartialEq)]
pub struct ChatMessage {
    pub role: MessageRole,
    pub content: String,
}

/// The value of a [`ChatMessage`].
pub ghost struct ChatMessageView {
    pub role: MessageRole,
    pub content: Seq<char>,
}

impl View for ChatMessage {
    type V = ChatMessageView;

    open spec fn view(&self) -> ChatMessageView {
        ChatMessageView { role: self.role, content: self.content@ }
    }
}

impl DeepView for ChatMessage {
    type V = ChatMessageView;

    open spec fn deep_view(&self) -> ChatMessageView {
        self@
    }
}

impl Clone for ChatMessage {
    fn clone(&self) -> (r: Self)
        ensures
            r@ == self@,
    {
        ChatMessage { role: self.role, content: self.content.clone() }
    }
}

/// A count as a `usize` holds it: the count itself, or the largest `usize`
/// where the count is larger.
pub open spec fn capped(n: nat) -> nat {
    if n > usize::MAX {
        usize::MAX as nat
    } else {
        n
    }
}

/// How many rows `chars` characters take at `width` columns: the characters
/// divided by the width, rounded up.
pub open spec fn rows(chars: nat, width: nat) -> nat
    recommends
        width > 0,
{
    if chars % width == 0 {
        chars / width
    } else {
        chars / width + 1
    }
}

/// How many rows a line of `chars` characters takes: at least one, and one
/// where the width is zero.
pub open spec fn wrapped_rows(chars: nat, width: nat) -> nat {
    if width == 0 || chars == 0 {
        1
    } else {
        rows(chars, width)
    }
}

/// How many rows the first `count` of `lines` take at `width` columns.
pub open spec fn lines_rows(lines: Seq<LineView>, width: nat, count: nat) -> nat
    decreases count,
{
    if count == 0 {
        0
    } else {
        lines_rows(lines, width, (count - 1) as nat) + wrapped_rows(
            capped(lines[count - 1].width()),
            width,
        )
    }
}

/// How many rows a message takes at `width` columns, where `rendered` are
/// the lines of an assistant's message: a message of the user or the system
/// is one paragraph behind a prefix of five or two characters, an assistant's
/// message has a line with its name above it, and an empty line follows each.
pub open spec fn message_rows(message: ChatMessageView, width: nat, rendered: Seq<LineView>) -> nat {
    match message.role {
        MessageRole::User => (if width > 0 {
            rows(capped(5 + message.content.len()), width)
        } else {
            1
        }) + 1,
        MessageRole::System => (if width > 0 {
            rows(capped(2 + message.content.len()), width)
        } else {
            1
        }) + 1,
        MessageRole::Assistant => 1 + lines_rows(rendered, width, rendered.len()) + 1,
    }
}

/// How many rows the first `count` messages take.
pub open spec fn chat_rows(
    messages: Seq<ChatMessageView>,
    width: nat,
    rendered: Seq<Seq<LineView>>,
    count: nat,
) -> nat
    decreases count,
{
    if count == 0 {
        0
    } else {
        chat_rows(messages, width, rendered, (count - 1) as nat) + message_rows(
            messages[count - 1],
            width,
            rendered[count - 1],
        )
    }
}

/// Whether `rendered` holds, for each assistant's message, lines that show it.
pub open spec fn shows_messages(messages: Seq<ChatMessageView>, rendered: Seq<Seq<LineView>>) -> bool {
    &&& rendered.len() == messages.len()
    &&& forall|i: int|
        0 <= i < messages.len() && messages[i].role == MessageRole::Assistant ==> renders(
            blocks_of(messages[i].content),
            #[trigger] rendered[i],
        )
}

/// Whether `total` is the height of the chat log at `width` columns, for
/// some lines that show the assistant's messages.
pub open spec fn is_chat_height(messages: Seq<ChatMessageView>, width: nat, total: nat) -> bool {
    exists|rendered: Seq<Seq<LineView>>|
        shows_messages(messages, rendered) && total == capped(
            #[trigger] chat_rows(messages, width, rendered, messages.len()),
        )
}

fn rows_of(chars: usize, width: usize) -> (r: usize)
    requires
        width > 0,
    ensures
        r == rows(chars as nat, width as nat),
{
    if chars % width == 0 {
        chars / width
    } else {
        assert(chars / width < usize::MAX) by (nonlinear_arith)
            requires
                width > 0,
                chars % width != 0,
                chars <= usize::MAX,
        ;
        chars / width + 1
    }
}

/// The number of characters in a line, as far as a `usize` holds it.
pub fn line_width(line: &Line) -> (r: usize)
    ensures
        r == capped(line@.width()),
{
    let mut total: usize = 0;
    let mut i: usize = 0;
    let ghost spans = line@.spans;
    while i < line.spans.len()
        invariant
            i <= line.spans.len(),
            spans == line@.spans,
            total == capped((LineView { spans: spans.take(i as int) }).width()),
        decreases line.spans.len() - i,
    {
        let chars = line.spans[i].content.as_str().unicode_len();
        assert(spans.take(i + 1).drop_last() =~= spans.take(i as int));
        assert(spans.take(i + 1).last().content == line.spans@[i as int].content@);
        total = total.saturating_add(chars);
        i += 1;
    }
    assert(spans.take(line.spans.len() as int) =~= spans);
    total
}

/// How many rows a line takes at `width` columns.
pub fn wrapped_line_count(line: &Line, width: usize) -> (r: usize)
    ensures
        r == wrapped_rows(capped(line@.width()), width as nat),
{
    if width == 0 {
        return 1;
    }
    let chars = line_width(line);
    if chars == 0 {
        return 1;
    }
    rows_of(chars, width)
}

fn lines_height(lines: &Vec<Line>, width: usize) -> (r: usize)
    ensures
        r == capped(lines_rows(lines.deep_view(), width as nat, lines.len() as nat)),
{
    let mut total: usize = 0;
    let mut i: usize = 0;
    let ghost all = lines.deep_view();
    while i < lines.len()
        invariant
            i <= lines.len(),
            all == lines.deep_view(),
            total == capped(lines_rows(all, width as nat, i as nat)),
        decreases lines.len() - i,
    {
        assert(all[i as int] == lines@[i as int]@);
        total = total.saturating_add(wrapped_line_count(&lines[i], width));
        i += 1;
    }
    total
}

fn prefixed_rows(prefix: usize, content: &str, width: usize) -> (r: usize)
    requires
        prefix <= 5,
    ensures
        r == if width > 0 {
            rows(capped((prefix + content@.len()) as nat), width as nat)
        } else {
            1
        },
{
    if width > 0 {
        rows_of(content.unicode_len().saturating_add(prefix), width)
    } else {
        1
    }
}

/// The height of the chat log at the terminal width `width`, in rows; the
/// log has a border of one column on each side.
pub fn total_lines_with(renderer: &MarkdownRenderer, messages: &Vec<ChatMessage>, width: u16) -> (r:
    usize)
    ensures
        is_chat_height(
            messages.deep_view(),
            if width >= 2 {
                (width - 2) as nat
            } else {
                0
            },
            r as nat,
        ),
{
    let available: usize = if width >= 2 {
        (width - 2) as usize
    } else {
        0
    };
    let ghost all = messages.deep_view();
    let ghost mut rendered: Seq<Seq<LineView>> = Seq::empty();
    let mut count: usize = 0;
    let mut i: usize = 0;
    while i < messages.len()
        invariant
            i <= messages.len(),
            all == messages.deep_view(),
            rendered.len() == i,
            forall|k: int|
                0 <= k < i && all[k].role == MessageRole::Assistant ==> renders(
                    blocks_of(all[k].content),
                    #[trigger] rendered[k],
                ),
            count == capped(chat_rows(all, available as nat, rendered, i as nat)),
        decreases messages.len() - i,
    {
        let message = &messages[i];
        assert(all[i as int] == message@);
        let ghost earlier = rendered;
        let height = match message.role {
            MessageRole::User => {
                proof {
                    rendered = rendered.push(Seq::empty());
                }
                prefixed_rows(5, message.content.as_str(), available).saturating_add(1)
            },
            MessageRole::System => {
                proof {
                    rendered = rendered.push(Seq::empty());
                }
                prefixed_rows(2, message.content.as_str(), available).saturating_add(1)
            },
            MessageRole::Assistant => {
                let lines = renderer.render(message.content.as_str());
                proof {
                    rendered = rendered.push(lines.deep_view());
                }
                lines_height(&lines, available).saturating_add(2)
            },
        };
        proof {
            assert forall|k: int|
                0 <= k < i + 1 && all[k].role == MessageRole::Assistant implies renders(
                blocks_of(all[k].content),
                #[trigger] rendered[k],
            ) by {
                if k < i {
                    assert(rendered[k] == earlier[k]);
                }
            }
            lemma_chat_rows_prefix(all, available as nat, earlier, rendered, i as nat);
            assert(height == capped(message_rows(all[i as int], available as nat, rendered[i as int])));
        }
        count = count.saturating_add(height);
        i += 1;
    }
    assert(shows_messages(all, rendered));
    count
}

/// The rows of the first `count` messages do not depend on what is rendered
/// for later ones.
proof fn lemma_chat_rows_prefix(
    messages: Seq<ChatMessageView>,
    width: nat,
    a: Seq<Seq<LineView>>,
    b: Seq<Seq<LineView>>,
    count: nat,
)
    requires
        count <= a.len(),
        count <= b.len(),
        forall|k: int| 0 <= k < count ==> a[k] == b[k],
    ensures
        chat_rows(messages, width, a, count) == chat_rows(messages, width, b, count),
    decreases count,
{
    if count > 0 {
        lemma_chat_rows_prefix(messages, width, a, b, (count - 1) as nat);
    }
}

/// The height of the chat log of `app` at the terminal width `width`.
pub fn calculate_total_lines(app: &App, width: u16) -> (r: usize)
    ensures
        is_chat_height(
            app@.messages,
            if width >= 2 {
                (width - 2) as nat
            } else {
                0
            },
            r as nat,
        ),
{
    total_lines_with(&MarkdownRenderer::new(), &app.messages, width)
}

/// Bold text in a colour.
pub open spec fn bold(color: Color) -> Style {
    Style { fg: Some(color), bold: true, ..Style::plain() }
}

/// A line without text.
pub open spec fn blank_line() -> LineView {
    LineView { spans: Seq::empty() }
}

/// A message of the user: `You: ` in green, then its text.
pub open spec fn user_line(content: Seq<char>) -> LineView {
    LineView {
        spans: seq![
            styled("You: "@, bold(Color::Green)),
            styled(content, Style::colored(Color::White)),
        ],
    }
}

/// A message of the system: an arrow in yellow, then its text.
pub open spec fn system_line(content: Seq<char>) -> LineView {
    LineView {
        spans: seq![
            styled("\u{2192} "@, Style::colored(Color::Yellow)),
            styled(content, Style::colored(Color::DarkGray)),
        ],
    }
}

/// The line above a message of the assistant.
pub open spec fn assistant_head() -> LineView {
    LineView { spans: seq![styled("Lode:"@, bold(Color::Cyan))] }
}

/// The lines of one message, where `rendered` are the lines of an
/// assistant's message; an empty line follows.
pub open spec fn message_lines(message: ChatMessageView, rendered: Seq<LineView>) -> Seq<LineView> {
    match message.role {
        MessageRole::User => seq![user_line(message.content), blank_line()],
        MessageRole::System => seq![system_line(message.content), blank_line()],
        MessageRole::Assistant => seq![assistant_head()] + rendered + seq![blank_line()],
    }
}

/// The lines of the first `count` messages.
pub open spec fn chat_parts(
    messages: Seq<ChatMessageView>,
    rendered: Seq<Seq<LineView>>,
    count: nat,
) -> Seq<LineView>
    decreases count,
{
    if count == 0 {
        Seq::empty()
    } else {
        chat_parts(messages, rendered, (count - 1) as nat) + message_lines(
            messages[count - 1],
            rendered[count - 1],
        )
    }
}

/// Whether `lines` are the chat log, for some lines that show the
/// assistant's messages.
pub open spec fn is_chat_log(messages: Seq<ChatMessageView>, lines: Seq<LineView>) -> bool {
    exists|rendered: Seq<Seq<LineView>>|
        shows_messages(messages, rendered) && lines == #[trigger] chat_parts(
            messages,
            rendered,
            messages.len(),
        )
}

proof fn lemma_chat_parts_prefix(
    messages: Seq<ChatMessageView>,
    a: Seq<Seq<LineView>>,
    b: Seq<Seq<LineView>>,
    count: nat,
)
    requires
        count <= a.len(),
        count <= b.len(),
        forall|k: int| 0 <= k < count ==> a[k] == b[k],
    ensures
        chat_parts(messages, a, count) == chat_parts(messages, b, count),
    decreases count,
{
    if count > 0 {
        lemma_chat_parts_prefix(messages, a, b, (count - 1) as nat);
    }
}

fn style(fg: Color, bold: bool, italic: bool) -> (r: Style)
    ensures
        r == (Style { fg: Some(fg), bold, italic, ..Style::plain() }),
{
    Style { fg: Some(fg), bg: None, bold, italic, underlined: false, crossed_out: false }
}

fn pair_line(first: &str, first_style: Style, second: &str, second_style: Style) -> (r: Line)
    ensures
        r@.spans == seq![styled(first@, first_style), styled(second@, second_style)],
{
    let mut spans = no_spans();
    push_span(&mut spans, String::from_str(first), first_style);
    push_span(&mut spans, String::from_str(second), second_style);
    assert(spans.deep_view() =~= seq![
        styled(first@, first_style),
        styled(second@, second_style),
    ]);
    Line { spans }
}

fn single_line(text: &str, text_style: Style) -> (r: Line)
    ensures
        r@.spans == seq![styled(text@, text_style)],
{
    let mut spans = no_spans();
    push_span(&mut spans, String::from_str(text), text_style);
    assert(spans.deep_view() =~= seq![styled(text@, text_style)]);
    Line { spans }
}

fn empty_line() -> (r: Line)
    ensures
        r@ == blank_line(),
{
    Line { spans: no_spans() }
}

/// The chat log as lines: each message behind its prefix, an assistant's
/// message rendered as markdown under its name, an empty line after each.
pub fn chat_lines(renderer: &MarkdownRenderer, messages: &Vec<ChatMessage>) -> (r: Vec<Line>)
    ensures
        is_chat_log(messages.deep_view(), r.deep_view()),
{
    let ghost all = messages.deep_view();
    let ghost mut rendered: Seq<Seq<LineView>> = Seq::empty();
    let mut out = no_lines();
    let mut i: usize = 0;
    while i < messages.len()
        invariant
            i <= messages.len(),
            all == messages.deep_view(),
            rendered.len() == i,
            forall|k: int|
                0 <= k < i && all[k].role == MessageRole::Assistant ==> renders(
                    blocks_of(all[k].content),
                    #[trigger] rendered[k],
                ),
            out.deep_view() == chat_parts(all, rendered, i as nat),
        decreases messages.len() - i,
    {
        let message = &messages[i];
        assert(all[i as int] == message@);
        let ghost earlier = rendered;
        let ghost shown = out.deep_view();
        match message.role {
            MessageRole::User => {
                proof {
                    rendered = rendered.push(Seq::empty());
                }
                let line = pair_line(
                    "You: ",
                    style(Color::Green, true, false),
                    message.content.as_str(),
                    style(Color::White, false, false),
                );
                assert(line@ == user_line(message.content@));
                push_line(&mut out, line);
            },
            MessageRole::System => {
                proof {
                    rendered = rendered.push(Seq::empty());
                }
                let line = pair_line(
                    "\u{2192} ",
                    style(Color::Yellow, false, false),
                    message.content.as_str(),
                    style(Color::DarkGray, false, false),
                );
                assert(line@ == system_line(message.content@));
                push_line(&mut out, line);
            },
            MessageRole::Assistant => {
                let head = single_line("Lode:", style(Color::Cyan, true, false));
                assert(head@ == assistant_head());
                push_line(&mut out, head);
                let lines = renderer.render(message.content.as_str());
                proof {
                    rendered = rendered.push(lines.deep_view());
                }
                let mut k: usize = 0;
                let ghost body = lines.deep_view();
                assert(out.deep_view() =~= shown + seq![assistant_head()] + body.take(0));
                while k < lines.len()
                    invariant
                        k <= lines.len(),
                        body == lines.deep_view(),
                        out.deep_view() == shown + seq![assistant_head()] + body.take(k as int),
                    decreases lines.len() - k,
                {
                    assert(body[k as int] == lines@[k as int]@);
                    push_line(&mut out, copy_line(&lines[k]));
                    assert(out.deep_view() =~= shown + seq![assistant_head()] + body.take(k + 1));
                    k += 1;
                }
                assert(body.take(lines.len() as int) =~= body);
            },
        }
        push_line(&mut out, empty_line());
        proof {
            assert forall|k: int|
                0 <= k < i + 1 && all[k].role == MessageRole::Assistant implies renders(
                blocks_of(all[k].content),
                #[trigger] rendered[k],
            ) by {
                if k < i {
                    assert(rendered[k] == earlier[k]);
                }
            }
            lemma_chat_parts_prefix(all, earlier, rendered, i as nat);
            assert(out.deep_view() =~= shown + message_lines(all[i as int], rendered[i as int]));
        }
        i += 1;
    }
    assert(shows_messages(all, rendered));
    out
}

/// The lines that greet the user while the chat log is empty.
pub fn welcome_lines() -> (r: Vec<Line>)
    ensures
        r.deep_view().len() == 6,
        r.deep_view()[0] == blank_line(),
        r.deep_view()[1].spans == seq![styled("Welcome to Lode"@, bold(Color::Cyan))],
        r.deep_view()[2] == blank_line(),
        r.deep_view()[3].spans == seq![
            styled("Enter a research query below to get started."@, Style::colored(Color::Gray)),
        ],
        r.deep_view()[4] == blank_line(),
        r.deep_view()[5].spans == seq![
            styled("Press "@, Style::colored(Color::DarkGray)),
            styled("Enter"@, Style::colored(Color::Yellow)),
            styled(" to submit, "@, Style::colored(Color::DarkGray)),
            styled("Esc"@, Style::colored(Color::Yellow)),
            styled(" to quit"@, Style::colored(Color::DarkGray)),
        ],
{
    let mut keys = no_spans();
    push_span(&mut keys, String::from_str("Press "), style(Color::DarkGray, false, false));
    push_span(&mut keys, String::from_str("Enter"), style(Color::Yellow, false, false));
    push_span(&mut keys, String::from_str(" to submit, "), style(Color::DarkGray, false, false));
    push_span(&mut keys, String::from_str("Esc"), style(Color::Yellow, false, false));
    push_span(&mut keys, String::from_str(" to quit"), style(Color::DarkGray, false, false));
    assert(keys.deep_view() =~= seq![
        styled("Press "@, Style::colored(Color::DarkGray)),
        styled("Enter"@, Style::colored(Color::Yellow)),
        styled(" to submit, "@, Style::colored(Color::DarkGray)),
        styled("Esc"@, Style::colored(Color::Yellow)),
        styled(" to quit"@, Style::colored(Color::DarkGray)),
    ]);
    let mut out = no_lines();
    push_line(&mut out, empty_line());
    push_line(&mut out, single_line("Welcome to Lode", style(Color::Cyan, true, false)));
    push_line(&mut out, empty_line());
    push_line(
        &mut out,
        single_line(
            "Enter a research query below to get started.",
            style(Color::Gray, false, false),
        ),
    );
    push_line(&mut out, empty_line());
    push_line(&mut out, Line { spans: keys });
    out
}

/// The height of `lines` at `width` columns, in rows.
pub fn wrapped_height(lines: &Vec<Line>, width: usize) -> (r: usize)
    ensures
        r == capped(lines_rows(lines.deep_view(), width as nat, lines.len() as nat)),
{
    lines_height(lines, width)
}

/// How far the chat log is scrolled down from its top, given its height, the
/// height of the window and the rows scrolled up from the bottom; the count is
/// cut to sixteen bits.
pub open spec fn scroll_rows(total: nat, visible: nat, offset: nat) -> nat {
    let max_scroll = if total >= visible {
        (total - visible) as nat
    } else {
        0
    };
    let scroll = if max_scroll >= offset {
        (max_scroll - offset) as nat
    } else {
        0
    };
    scroll % 0x10000
}

/// How far the chat log is scrolled down from its top.
pub fn chat_scroll(total_lines: usize, visible_height: usize, scroll_offset: usize) -> (r: u16)
    ensures
        r == scroll_rows(total_lines as nat, visible_height as nat, scroll_offset as nat),
{
    let max_scroll = if total_lines >= visible_height {
        total_lines - visible_height
    } else {
        0
    };
    let scroll = if max_scroll >= scroll_offset {
        max_scroll - scroll_offset
    } else {
        0
    };
    (scroll % 0x10000) as u16
}

/// How the input box looks.
#[derive(Debug, PartialEq)]
pub struct InputBox {
    /// The colour of the border and the title.
    pub border: Color,
    pub title: String,
    pub text: String,
    pub style: Style,
}

/// The value of an [`InputBox`].
pub ghost struct InputBoxView {
    pub border: Color,
    pub title: Seq<char>,
    pub text: Seq<char>,
    pub style: Style,
}

impl View for InputBox {
    type V = InputBoxView;

    open spec fn view(&self) -> InputBoxView {
        InputBoxView {
            border: self.border,
            title: self.title@,
            text: self.text@,
            style: self.style,
        }
    }
}

/// The cursor behind the text that is being typed.
pub open spec fn cursor() -> Seq<char> {
    "\u{258F}"@
}

/// How the input box looks: magenta with the label of the current question
/// during a clarifying round and at the confirmation prompt, yellow with the
/// status while a run is in progress, cyan for a query. The text that is being
/// typed is shown with a cursor.
pub open spec fn input_box_view(app: AppView) -> InputBoxView {
    let typing = app.clarifying is Some || app.pending_answers is Some || !app.is_processing;
    let text = if typing {
        app.input + cursor()
    } else {
        match app.status {
            Some(status) => status,
            None => Seq::empty(),
        }
    };
    let style = if typing {
        Style::colored(Color::White)
    } else {
        Style { fg: Some(Color::DarkGray), italic: true, ..Style::plain() }
    };
    if app.clarifying is Some {
        let round = app.clarifying->0;
        InputBoxView {
            border: Color::Magenta,
            title: if round.current_index < round.questions.len() {
                " "@ + round.questions[round.current_index as int].label + " "@
            } else {
                " Answer "@
            },
            text,
            style,
        }
    } else if app.phase == crate::tui::AppPhase::Confirming || app.pending_answers is Some {
        InputBoxView { border: Color::Magenta, title: " Confirm "@, text, style }
    } else if app.is_processing {
        InputBoxView { border: Color::Yellow, title: " Processing... "@, text, style }
    } else {
        InputBoxView { border: Color::Cyan, title: " Query "@, text, style }
    }
}

/// How the input box looks.
pub fn input_box(app: &App) -> (r: InputBox)
    ensures
        r@ == input_box_view(app@),
{
    let typing = app.is_clarifying() || app.awaiting_confirmation() || !app.is_processing;
    let text = if typing {
        app.input.clone().concat("\u{258F}")
    } else {
        match &app.status {
            Some(status) => status.clone(),
            None => String::new(),
        }
    };
    let text_style = if typing {
        style(Color::White, false, false)
    } else {
        style(Color::DarkGray, false, true)
    };
    if app.is_clarifying() {
        let title = match app.current_question() {
            Some(question) => String::from_str(" ").concat(question.label.as_str()).concat(" "),
            None => String::from_str(" Answer "),
        };
        InputBox { border: Color::Magenta, title, text, style: text_style }
    } else if app.is_confirming() || app.awaiting_confirmation() {
        InputBox {
            border: Color::Magenta,
            title: String::from_str(" Confirm "),
            text,
            style: text_style,
        }
    } else if app.is_processing {
        InputBox {
            border: Color::Yellow,
            title: String::from_str(" Processing... "),
            text,
            style: text_style,
        }
    } else {
        InputBox { border: Color::Cyan, title: String::from_str(" Query "), text, style: text_style }
    }
}

/// The status bar: the spinner, the phase in brackets, and the status or,
/// where none is set, what the phase has to say.
pub open spec fn status_bar_view(app: AppView) -> LineView {
    LineView {
        spans: seq![
            styled(" "@ + app.spinner_text() + " "@, Style::colored(Color::Yellow)),
            styled("["@ + app.phase_text() + "] "@, bold(Color::Cyan)),
            styled(
                match app.status {
                    Some(status) => status,
                    None => app.default_status_text(),
                },
                Style::colored(Color::DarkGray),
            ),
        ],
    }
}

/// The status bar.
pub fn status_bar(app: &App) -> (r: Line)
    ensures
        r@ == status_bar_view(app@),
{
    let message = match &app.status {
        Some(status) => status.clone(),
        None => app.default_status(),
    };
    let mut spans = no_spans();
    push_span(
        &mut spans,
        String::from_str(" ").concat(app.spinner_frame()).concat(" "),
        style(Color::Yellow, false, false),
    );
    push_span(
        &mut spans,
        String::from_str("[").concat(app.phase_label()).concat("] "),
        style(Color::Cyan, true, false),
    );
    push_span(&mut spans, message, style(Color::DarkGray, false, false));
    assert(spans.deep_view() =~= status_bar_view(app@).spans);
    Line { spans }
}

} // verus!
