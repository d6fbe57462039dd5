//! The help panel: the shortcuts of the current mode, packed into lines.

use vstd::prelude::*;
use vstd::string::StringExecFns;
use crate::ui::layout::display_width;
use crate::ui::layout::lemma_line_views_push;
use crate::ui::layout::lemma_span_views_push;
use crate::ui::layout::line_views;
use crate::ui::layout::span_views;
use crate::ui::layout::str_width;
use crate::ui::layout::Color;
use crate::ui::layout::Line;
use crate::ui::layout::Span;
use crate::ui::layout::SpanView;
use crate::ui::layout::Style;

verus! {

/// A shortcut: the key and what it does.
pub struct Shortcut {
    pub key: &'static str,
    pub description: &'static str,
}

/// What a `Shortcut` holds.
pub struct ShortcutView {
    pub key: Seq<char>,
    pub description: Seq<char>,
}

impl View for Shortcut {
    type V = ShortcutView;

    open spec fn view(&self) -> ShortcutView {
        ShortcutView { key: self.key@, description: self.description@ }
    }
}

/// The views of a list of shortcuts, in order.
pub open spec fn shortcut_views(items: Seq<Shortcut>) -> Seq<ShortcutView> {
    Seq::new(items.len(), |i: int| items[i]@)
}

/// The displayed widths of a shortcut's key and of its description.
pub struct ShortcutWidth {
    pub key: usize,
    pub description: usize,
}

impl ShortcutWidth {
    /// The columns a shortcut takes: key, one blank, description.
    pub open spec fn total(self) -> int {
        self.key + self.description + 1
    }
}

/// The style of a key: bold yellow.
pub open spec fn key_style() -> Style {
    Style { fg: Some(Color::Yellow), bg: None, bold: true }
}

/// The spans of one shortcut: the key, then a blank and the description in
/// gray.
pub open spec fn shortcut_spans(item: ShortcutView) -> Seq<SpanView> {
    seq![
        SpanView { content: item.key, style: key_style() },
        SpanView { content: " "@ + item.description, style: Style::colored(Color::Gray) },
    ]
}

/// The two blanks between shortcuts on one line.
pub open spec fn gap_span() -> SpanView {
    SpanView { content: "  "@, style: Style::plain() }
}

/// The columns taken on the current line once the first `n` shortcuts are
/// placed: a shortcut joins the line, behind a gap of two columns, when the
/// line then still fits the limit; else it opens a line of its own.
pub open spec fn width_after(widths: Seq<ShortcutWidth>, limit: int, n: int) -> int
    decreases n,
{
    if n <= 0 {
        0
    } else if n == 1 || width_after(widths, limit, n - 1) + 2 + widths[n - 1].total() > limit {
        widths[n - 1].total()
    } else {
        width_after(widths, limit, n - 1) + 2 + widths[n - 1].total()
    }
}

/// Whether shortcut `i` opens a line: the first one does, and every one that
/// would not fit behind its predecessor with the gap between them.
pub open spec fn starts_line(widths: Seq<ShortcutWidth>, limit: int, i: int) -> bool {
    i <= 0 || width_after(widths, limit, i) + 2 + widths[i].total() > limit
}

/// The finished lines and the line in progress once the first `n` shortcuts
/// are placed.
pub open spec fn packed(items: Seq<ShortcutView>, widths: Seq<ShortcutWidth>, limit: int, n: int)
    -> (Seq<Seq<SpanView>>, Seq<SpanView>)
    decreases n,
{
    if n <= 0 {
        (Seq::empty(), Seq::empty())
    } else {
        let before = packed(items, widths, limit, n - 1);
        if n == 1 {
            (before.0, shortcut_spans(items[0]))
        } else if starts_line(widths, limit, n - 1) {
            (before.0.push(before.1), shortcut_spans(items[n - 1]))
        } else {
            (before.0, before.1.push(gap_span()) + shortcut_spans(items[n - 1]))
        }
    }
}

/// The lines of the shortcuts: each shortcut whole on one line, in order, a
/// new line opened only where the next shortcut would not fit.
pub open spec fn shortcut_lines(items: Seq<ShortcutView>, widths: Seq<ShortcutWidth>, limit: int)
    -> Seq<Seq<SpanView>> {
    let all = packed(items, widths, limit, items.len() as int);
    if all.1.len() > 0 {
        all.0.push(all.1)
    } else {
        all.0
    }
}

/// The lines that follow the shortcuts: none without a status message, else
/// an empty line and the message in green.
pub open spec fn status_lines(status: Seq<char>) -> Seq<Seq<SpanView>> {
    if status.len() == 0 {
        Seq::empty()
    } else {
        seq![
            Seq::<SpanView>::empty(),
            seq![SpanView { content: status, style: Style::colored(Color::Green) }],
        ]
    }
}

/// The help panel: the packed shortcuts, then the status message.
pub open spec fn help_text(
    items: Seq<ShortcutView>,
    widths: Seq<ShortcutWidth>,
    limit: int,
    status: Seq<char>,
) -> Seq<Seq<SpanView>> {
    shortcut_lines(items, widths, limit) + status_lines(status)
}

/// The widths that the width tables give to a list of shortcuts.
pub open spec fn measured(items: Seq<ShortcutView>, widths: Seq<ShortcutWidth>) -> bool {
    &&& widths.len() == items.len()
    &&& forall|i: int|
        0 <= i < items.len() ==> (#[trigger] widths[i]).key == display_width(items[i].key)
            && widths[i].description == display_width(items[i].description)
}

/// The shortcuts of a mode: those of the color picker while it is open, else
/// those of the icon selector while it is open, else those of the editor.
pub open spec fn shortcuts_of(color_picker_open: bool, icon_selector_open: bool) -> Seq<
    ShortcutView,
> {
    if color_picker_open {
        seq![
            ShortcutView { key: "[↑↓]"@, description: "导航"@ },
            ShortcutView { key: "[Tab]"@, description: "模式"@ },
            ShortcutView { key: "[Enter]"@, description: "选择"@ },
            ShortcutView { key: "[Esc]"@, description: "取消"@ },
        ]
    } else if icon_selector_open {
        seq![
            ShortcutView { key: "[↑↓]"@, description: "导航"@ },
            ShortcutView { key: "[Tab]"@, description: "样式"@ },
            ShortcutView { key: "[C]"@, description: "自定义"@ },
            ShortcutView { key: "[Enter]"@, description: "选择"@ },
            ShortcutView { key: "[Esc]"@, description: "取消"@ },
        ]
    } else {
        seq![
            ShortcutView { key: "[Tab]"@, description: "切换面板"@ },
            ShortcutView { key: "[Enter]"@, description: "开关/编辑"@ },
            ShortcutView { key: "[Shift+↑↓]"@, description: "排序"@ },
            ShortcutView { key: "[1-4]"@, description: "主题"@ },
            ShortcutView { key: "[P]"@, description: "切换主题"@ },
            ShortcutView { key: "[R]"@, description: "重置"@ },
            ShortcutView { key: "[E]"@, description: "编辑分隔符"@ },
            ShortcutView { key: "[S]"@, description: "保存配置"@ },
            ShortcutView { key: "[W]"@, description: "写入主题"@ },
            ShortcutView { key: "[Ctrl+S]"@, description: "另存主题"@ },
            ShortcutView { key: "[Esc]"@, description: "退出"@ },
        ]
    }
}

/// The columns between the two borders of an area `width` columns wide.
pub open spec fn inner_width(width: u16) -> int {
    if width >= 2 {
        width - 2
    } else {
        0
    }
}

/// A line in progress never exceeds the limit, unless it holds one shortcut
/// that is wider than the limit by itself.
pub proof fn lemma_line_fits(widths: Seq<ShortcutWidth>, limit: int, n: int)
    requires
        1 <= n <= widths.len(),
    ensures
        width_after(widths, limit, n) <= limit || (starts_line(widths, limit, n - 1)
            && width_after(widths, limit, n) == widths[n - 1].total()),
{
}

/// The shortcuts of a mode.
pub fn help_items(color_picker_open: bool, icon_selector_open: bool) -> (r: Vec<Shortcut>)
    ensures
        shortcut_views(r@) == shortcuts_of(color_picker_open, icon_selector_open),
{
    let items = if color_picker_open {
        vec![
            Shortcut { key: "[↑↓]", description: "导航" },
            Shortcut { key: "[Tab]", description: "模式" },
            Shortcut { key: "[Enter]", description: "选择" },
            Shortcut { key: "[Esc]", description: "取消" },
        ]
    } else if icon_selector_open {
        vec![
            Shortcut { key: "[↑↓]", description: "导航" },
            Shortcut { key: "[Tab]", description: "样式" },
            Shortcut { key: "[C]", description: "自定义" },
            Shortcut { key: "[Enter]", description: "选择" },
            Shortcut { key: "[Esc]", description: "取消" },
        ]
    } else {
        vec![
            Shortcut { key: "[Tab]", description: "切换面板" },
            Shortcut { key: "[Enter]", description: "开关/编辑" },
            Shortcut { key: "[Shift+↑↓]", description: "排序" },
            Shortcut { key: "[1-4]", description: "主题" },
            Shortcut { key: "[P]", description: "切换主题" },
            Shortcut { key: "[R]", description: "重置" },
            Shortcut { key: "[E]", description: "编辑分隔符" },
            Shortcut { key: "[S]", description: "保存配置" },
            Shortcut { key: "[W]", description: "写入主题" },
            Shortcut { key: "[Ctrl+S]", description: "另存主题" },
            Shortcut { key: "[Esc]", description: "退出" },
        ]
    };
    assert(shortcut_views(items@) =~= shortcuts_of(color_picker_open, icon_selector_open));
    items
}

/// Measures the key and the description of each shortcut.
pub fn measure_items(items: &Vec<Shortcut>) -> (r: Vec<ShortcutWidth>)
    ensures
        measured(shortcut_views(items@), r@),
{
    let mut widths: Vec<ShortcutWidth> = Vec::new();
    let mut i: usize = 0;
    while i < items.len()
        invariant
            i <= items.len(),
            widths@.len() == i,
            forall|j: int|
                0 <= j < i ==> (#[trigger] widths@[j]).key == display_width(items@[j].key@)
                    && widths@[j].description == display_width(items@[j].description@),
        decreases items.len() - i,
    {
        widths.push(
            ShortcutWidth {
                key: str_width(items[i].key),
                description: str_width(items[i].description),
            },
        );
        i += 1;
    }
    widths
}

/// Appends the spans of one shortcut to a line.
fn push_shortcut(line: &mut Vec<Span>, item: &Shortcut)
    ensures
        span_views(final(line)@) == span_views(old(line)@) + shortcut_spans(item@),
        final(line)@.len() == old(line)@.len() + 2,
{
    let key = Span::styled(
        item.key.to_owned(),
        Style { fg: Some(Color::Yellow), bg: None, bold: true },
    );
    let mut text = String::from_str(" ");
    text.append(item.description);
    let description = Span::styled(text, Style::fg(Color::Gray));
    proof {
        lemma_span_views_push(line@, key);
        lemma_span_views_push(line@.push(key), description);
    }
    line.push(key);
    line.push(description);
    assert(span_views(line@) =~= span_views(old(line)@) + shortcut_spans(item@));
}

/// Packs shortcuts of the given widths into lines of at most `content_width`
/// columns and appends the status message.
pub fn layout_help(
    items: &Vec<Shortcut>,
    widths: &Vec<ShortcutWidth>,
    content_width: usize,
    status: &str,
) -> (r: Vec<Line>)
    requires
        widths@.len() == items@.len(),
    ensures
        line_views(r@) == help_text(
            shortcut_views(items@),
            widths@,
            content_width as int,
            status@,
        ),
{
    let ghost views = shortcut_views(items@);
    let ghost limit = content_width as int;
    let mut lines: Vec<Line> = Vec::new();
    let mut current: Vec<Span> = Vec::new();
    let mut current_width: u128 = 0;
    let mut i: usize = 0;
    assert(line_views(lines@) =~= packed(views, widths@, limit, 0).0);
    assert(span_views(current@) =~= packed(views, widths@, limit, 0).1);
    while i < items.len()
        invariant
            i <= items.len(),
            widths@.len() == items@.len(),
            views == shortcut_views(items@),
            limit == content_width as int,
            current_width == width_after(widths@, limit, i as int),
            current_width <= 0x4_0000_0000_0000_0000 * i,
            line_views(lines@) == packed(views, widths@, limit, i as int).0,
            span_views(current@) == packed(views, widths@, limit, i as int).1,
            i > 0 ==> current@.len() > 0,
        decreases items.len() - i,
    {
        let item_width: u128 = widths[i].key as u128 + widths[i].description as u128 + 1;
        assert(views[i as int] == items@[i as int]@);
        if i > 0 && current_width + 2 + item_width <= content_width as u128 {
            let gap = Span::raw(String::from_str("  "));
            proof {
                lemma_span_views_push(current@, gap);
            }
            current.push(gap);
            push_shortcut(&mut current, &items[i]);
            current_width = current_width + 2 + item_width;
        } else {
            if i > 0 {
                let finished = Line { spans: current };
                proof {
                    lemma_line_views_push(lines@, finished);
                }
                lines.push(finished);
                current = Vec::new();
            }
            assert(span_views(current@) =~= Seq::<SpanView>::empty());
            push_shortcut(&mut current, &items[i]);
            assert(span_views(current@) =~= shortcut_spans(views[i as int]));
            current_width = item_width;
        }
        i += 1;
    }
    if current.len() > 0 {
        let finished = Line { spans: current };
        proof {
            lemma_line_views_push(lines@, finished);
        }
        lines.push(finished);
    } else {
        assert(span_views(current@).len() == 0);
    }
    assert(line_views(lines@) =~= shortcut_lines(views, widths@, limit));
    if status.unicode_len() > 0 {
        let blank = Line { spans: Vec::new() };
        let mut message: Vec<Span> = Vec::new();
        let text = Span::styled(status.to_owned(), Style::fg(Color::Green));
        proof {
            lemma_span_views_push(message@, text);
            assert(span_views(blank.spans@) =~= Seq::<SpanView>::empty());
        }
        message.push(text);
        let shown = Line { spans: message };
        proof {
            lemma_line_views_push(lines@, blank);
            lemma_line_views_push(lines@.push(blank), shown);
            assert(shown@ =~= status_lines(status@)[1]);
        }
        lines.push(blank);
        lines.push(shown);
    }
    assert(line_views(lines@) =~= help_text(views, widths@, limit, status@));
    lines
}

/// The help panel.
#[derive(Debug, Clone, Copy)]
pub struct HelpComponent;

impl Default for HelpComponent {
    fn default() -> Self {
        HelpComponent
    }
}

impl HelpComponent {
    /// The panel.
    pub fn new() -> (r: Self) {
        HelpComponent
    }

    /// The lines of the panel for an area `width` columns wide, borders
    /// included: the shortcuts of the current mode at their displayed widths,
    /// packed into the columns between the borders, then the status message.
    pub fn render(
        &self,
        width: u16,
        status_message: Option<&str>,
        color_picker_open: bool,
        icon_selector_open: bool,
    ) -> (r: Vec<Line>)
        ensures
            exists|widths: Seq<ShortcutWidth>|
                #[trigger] measured(shortcuts_of(color_picker_open, icon_selector_open), widths)
                    && line_views(r@) == help_text(
                    shortcuts_of(color_picker_open, icon_selector_open),
                    widths,
                    inner_width(width),
                    match status_message {
                        Some(s) => s@,
                        None => Seq::empty(),
                    },
                ),
    {
        let help_items = help_items(color_picker_open, icon_selector_open);
        let widths = measure_items(&help_items);
        let status: &str = match status_message {
            Some(s) => s,
            None => "",
        };
        proof {
            reveal_strlit("");
            assert(""@ =~= Seq::<char>::empty());
        }
        let content_width: u16 = if width >= 2 {
            width - 2
        } else {
            0
        };
        layout_help(&help_items, &widths, content_width as usize, status)
    }
}

} // verus!
