//! The theme panel: the presets to choose from, a color preview and the
//! separator.

use vstd::prelude::*;
use vstd::string::StringExecFns;
use crate::config::types::segment_index;
use crate::config::types::ConfigView;
use crate::config::types::SegmentConfigView;
use crate::config::AnsiColor;
use crate::config::Config;
use crate::config::SegmentId;
use crate::ui::layout::display_width;
use crate::ui::layout::lemma_span_views_push;
use crate::ui::layout::line_views;
use crate::ui::layout::span_views;
use crate::ui::layout::str_width;
use crate::ui::layout::Color;
use crate::ui::layout::Line;
use crate::ui::layout::Span;
use crate::ui::layout::SpanView;
use crate::ui::layout::Style;
use crate::ui::components::help::inner_width;
use crate::ui::themes::preset_names;
use crate::ui::themes::modified_from_theme;
use crate::ui::themes::text_views;
use crate::ui::themes::ThemePresets;

verus! {

/// What the theme panel shows: its title and its lines.
#[derive(Debug)]
pub struct ThemeSelectorView {
    pub title: String,
    pub lines: Vec<Line>,
}

/// The terminal color of a configured color. Of the 16-color palette, both 7
/// and 15 show as white, and an index beyond 15 as gray.
pub open spec fn converted_color(color: AnsiColor) -> Color {
    match color {
        AnsiColor::Color16 { c16 } => if c16 == 0 {
            Color::Black
        } else if c16 == 1 {
            Color::Red
        } else if c16 == 2 {
            Color::Green
        } else if c16 == 3 {
            Color::Yellow
        } else if c16 == 4 {
            Color::Blue
        } else if c16 == 5 {
            Color::Magenta
        } else if c16 == 6 {
            Color::Cyan
        } else if c16 == 7 {
            Color::White
        } else if c16 == 8 {
            Color::DarkGray
        } else if c16 == 9 {
            Color::LightRed
        } else if c16 == 10 {
            Color::LightGreen
        } else if c16 == 11 {
            Color::LightYellow
        } else if c16 == 12 {
            Color::LightBlue
        } else if c16 == 13 {
            Color::LightMagenta
        } else if c16 == 14 {
            Color::LightCyan
        } else if c16 == 15 {
            Color::White
        } else {
            Color::Gray
        },
        AnsiColor::Color256 { c256 } => Color::Indexed(c256),
        AnsiColor::Rgb { r, g, b } => Color::Rgb(r, g, b),
    }
}

/// What is left of a text once the white space at both ends is removed, as
/// `str::trim` gives it.
pub uninterp spec fn trimmed_text(text: Seq<char>) -> Seq<char>;

/// Calls `str::trim`: the text without leading and trailing white space, a
/// function of the text alone.
#[verifier::external_body]
fn trim_str(text: &str) -> (r: &str)
    ensures
        r@ == trimmed_text(text@),
{
    text.trim()
}

/// Whether a theme name is listed: one that is not blank.
pub open spec fn is_listed(name: Seq<char>) -> bool {
    trimmed_text(name).len() > 0
}

/// Of the first `n` names, those that are listed, in order.
pub open spec fn listed_names(names: Seq<Seq<char>>, n: int) -> Seq<Seq<char>>
    decreases n,
{
    if n <= 0 {
        Seq::empty()
    } else if is_listed(names[n - 1]) {
        listed_names(names, n - 1).push(names[n - 1])
    } else {
        listed_names(names, n - 1)
    }
}

/// The entry of a theme: a box, ticked for the active theme, and the name.
pub open spec fn theme_entry(name: Seq<char>, active: Seq<char>) -> Seq<char> {
    (if name == active {
        "[✓]"@
    } else {
        "[ ]"@
    }) + " "@ + name
}

/// The finished lines and the line in progress once the first `n` themes are
/// placed: a theme joins the line behind two blanks when the line's width and
/// that of the blanks and the entry together fit the limit; else it opens a
/// new line. The first theme always stays on the first line.
pub open spec fn wrapped(names: Seq<Seq<char>>, active: Seq<char>, limit: int, n: int) -> (
    Seq<Seq<char>>,
    Seq<char>,
)
    decreases n,
{
    if n <= 0 {
        (Seq::empty(), Seq::empty())
    } else {
        let before = wrapped(names, active, limit, n - 1);
        let entry = theme_entry(names[n - 1], active);
        if n == 1 {
            (before.0, entry)
        } else if display_width(before.1) + display_width("  "@ + entry) <= limit {
            (before.0, before.1 + ("  "@ + entry))
        } else {
            (before.0.push(before.1), entry)
        }
    }
}

/// The lines of the themes.
pub open spec fn theme_lines(names: Seq<Seq<char>>, active: Seq<char>, limit: int) -> Seq<
    Seq<char>,
> {
    let all = wrapped(names, active, limit, names.len() as int);
    if names.len() > 0 {
        all.0.push(all.1)
    } else {
        all.0
    }
}

/// A line of plain text.
pub open spec fn plain_line(text: Seq<char>) -> Seq<SpanView> {
    seq![SpanView { content: text, style: Style::plain() }]
}

/// The background that the preview gives to a segment kind: the configured
/// background of the first segment of that kind; gray when there is no such
/// segment or it has no background.
pub open spec fn preview_background(segments: Seq<SegmentConfigView>, id: SegmentId) -> Color {
    match segment_index(segments, id) {
        Some(i) => match segments[i].colors.background {
            Some(color) => converted_color(color),
            None => Color::Gray,
        },
        None => Color::Gray,
    }
}

/// The two spans of one sample of the preview: the label in white on the
/// segment's background, then a blank.
pub open spec fn sample_spans(label: Seq<char>, background: Color) -> Seq<SpanView> {
    seq![
        SpanView {
            content: label,
            style: Style { fg: Some(Color::Rgb(255, 255, 255)), bg: Some(background), bold: false },
        },
        SpanView { content: " "@, style: Style::plain() },
    ]
}

/// The preview line: samples for directory, branch, model and context
/// window.
pub open spec fn preview_line(segments: Seq<SegmentConfigView>) -> Seq<SpanView> {
    plain_line("预览: "@) + sample_spans(
        " 目录 "@,
        preview_background(segments, SegmentId::Directory),
    ) + sample_spans(" 分支 "@, preview_background(segments, SegmentId::Git)) + sample_spans(
        " 模型 "@,
        preview_background(segments, SegmentId::Model),
    ) + sample_spans(" 上下文 "@, preview_background(segments, SegmentId::ContextWindow))
}

/// The line that shows the separator between quotes.
pub open spec fn separator_line(separator: Seq<char>) -> Seq<SpanView> {
    plain_line("分隔符: \""@ + separator + "\""@)
}

/// The title of the panel: the active theme, starred when the configuration
/// differs from it.
pub open spec fn selector_title(theme: Seq<char>, modified: bool) -> Seq<char> {
    "主题: "@ + theme + if modified {
        "*"@
    } else {
        Seq::empty()
    }
}

/// The lines of the panel: the themes, an empty line, the preview and the
/// separator.
pub open spec fn selector_lines(config: ConfigView, names: Seq<Seq<char>>, limit: int) -> Seq<
    Seq<SpanView>,
> {
    let themes = theme_lines(names, config.theme, limit);
    Seq::new(themes.len(), |i: int| plain_line(themes[i])) + seq![
        Seq::<SpanView>::empty(),
        preview_line(config.segments),
        separator_line(config.separator),
    ]
}

/// The theme names that are not blank, in order.
pub fn listed_themes(names: &Vec<String>) -> (r: Vec<String>)
    ensures
        text_views(r@) == listed_names(text_views(names@), names@.len() as int),
{
    let ghost all = text_views(names@);
    let mut kept: Vec<String> = Vec::new();
    let mut i: usize = 0;
    assert(text_views(kept@) =~= listed_names(all, 0));
    while i < names.len()
        invariant
            i <= names.len(),
            all == text_views(names@),
            text_views(kept@) == listed_names(all, i as int),
        decreases names.len() - i,
    {
        assert(all[i as int] == names@[i as int]@);
        let rest: &str = trim_str(names[i].as_str());
        if !rest.is_empty() {
            let name = names[i].clone();
            assert(text_views(kept@.push(name)) =~= text_views(kept@).push(name@));
            kept.push(name);
        }
        i += 1;
    }
    kept
}

/// Wraps the entries of the given themes into lines of at most
/// `content_width` columns.
pub fn wrap_themes(names: &Vec<String>, active: &str, content_width: usize) -> (r: Vec<String>)
    ensures
        text_views(r@) == theme_lines(text_views(names@), active@, content_width as int),
{
    let ghost all = text_views(names@);
    let ghost limit = content_width as int;
    let active_name: String = active.to_owned();
    let mut lines: Vec<String> = Vec::new();
    let mut current = String::new();
    let mut i: usize = 0;
    assert(text_views(lines@) =~= wrapped(all, active@, limit, 0).0);
    while i < names.len()
        invariant
            i <= names.len(),
            active_name@ == active@,
            all == text_views(names@),
            limit == content_width as int,
            text_views(lines@) == wrapped(all, active@, limit, i as int).0,
            current@ == wrapped(all, active@, limit, i as int).1,
        decreases names.len() - i,
    {
        assert(all[i as int] == names@[i as int]@);
        let marker: &str = if names[i] == active_name {
            "[✓]"
        } else {
            "[ ]"
        };
        let mut entry = String::from_str(marker);
        entry.append(" ");
        entry.append(names[i].as_str());
        assert(entry@ =~= theme_entry(all[i as int], active@));
        if i == 0 {
            current.append(entry.as_str());
            assert(current@ =~= entry@);
        } else {
            let mut joined = String::from_str("  ");
            joined.append(entry.as_str());
            let taken: u128 = str_width(current.as_str()) as u128 + str_width(
                joined.as_str(),
            ) as u128;
            if taken <= content_width as u128 {
                current.append(joined.as_str());
            } else {
                assert(text_views(lines@.push(current)) =~= text_views(lines@).push(current@));
                lines.push(current);
                current = entry;
            }
        }
        i += 1;
    }
    if names.len() > 0 {
        assert(text_views(lines@.push(current)) =~= text_views(lines@).push(current@));
        lines.push(current);
    }
    lines
}

/// Appends the two spans of one preview sample.
fn push_sample(spans: &mut Vec<Span>, label: &str, background: Color)
    ensures
        span_views(final(spans)@) == span_views(old(spans)@) + sample_spans(label@, background),
{
    let sample = Span::styled(
        label.to_owned(),
        Style { fg: Some(Color::Rgb(255, 255, 255)), bg: Some(background), bold: false },
    );
    let blank = Span::raw(String::from_str(" "));
    proof {
        lemma_span_views_push(spans@, sample);
        lemma_span_views_push(spans@.push(sample), blank);
    }
    spans.push(sample);
    spans.push(blank);
    assert(span_views(spans@) =~= span_views(old(spans)@) + sample_spans(label@, background));
}

/// A line of plain text.
fn line_of(text: String) -> (r: Line)
    ensures
        r@ == plain_line(text@),
{
    let mut spans: Vec<Span> = Vec::new();
    let span = Span::raw(text);
    proof {
        lemma_span_views_push(spans@, span);
    }
    spans.push(span);
    let line = Line { spans };
    assert(line@ =~= plain_line(text@));
    line
}

/// The theme panel.
#[derive(Debug, Clone, Copy)]
pub struct ThemeSelectorComponent;

impl Default for ThemeSelectorComponent {
    fn default() -> Self {
        ThemeSelectorComponent
    }
}

impl ThemeSelectorComponent {
    /// The panel.
    pub fn new() -> (r: Self) {
        ThemeSelectorComponent
    }

    /// The terminal color of a configured color.
    pub fn convert_color_ansi(color: &AnsiColor) -> (r: Color)
        ensures
            r == converted_color(*color),
    {
        match color {
            AnsiColor::Color16 { c16 } => match *c16 {
                0 => Color::Black,
                1 => Color::Red,
                2 => Color::Green,
                3 => Color::Yellow,
                4 => Color::Blue,
                5 => Color::Magenta,
                6 => Color::Cyan,
                7 => Color::White,
                8 => Color::DarkGray,
                9 => Color::LightRed,
                10 => Color::LightGreen,
                11 => Color::LightYellow,
                12 => Color::LightBlue,
                13 => Color::LightMagenta,
                14 => Color::LightCyan,
                15 => Color::White,
                _ => Color::Gray,
            },
            AnsiColor::Color256 { c256 } => Color::Indexed(*c256),
            AnsiColor::Rgb { r, g, b } => Color::Rgb(*r, *g, *b),
        }
    }

    /// The background that the preview gives to a segment kind.
    pub fn background_of(config: &Config, id: SegmentId) -> (r: Color)
        ensures
            r == preview_background(config@.segments, id),
    {
        match config.position_of(id) {
            Some(i) => {
                assert(config@.segments[i as int] == config.segments@[i as int]@);
                match &config.segments[i].colors.background {
                    Some(color) => Self::convert_color_ansi(color),
                    None => Color::Gray,
                }
            },
            None => Color::Gray,
        }
    }

    /// The preview line.
    pub fn preview(config: &Config) -> (r: Line)
        ensures
            r@ == preview_line(config@.segments),
    {
        let mut spans: Vec<Span> = Vec::new();
        let label = Span::raw(String::from_str("预览: "));
        proof {
            lemma_span_views_push(spans@, label);
        }
        spans.push(label);
        assert(span_views(spans@) =~= plain_line("预览: "@));
        push_sample(&mut spans, " 目录 ", Self::background_of(config, SegmentId::Directory));
        push_sample(&mut spans, " 分支 ", Self::background_of(config, SegmentId::Git));
        push_sample(&mut spans, " 模型 ", Self::background_of(config, SegmentId::Model));
        push_sample(&mut spans, " 上下文 ", Self::background_of(config, SegmentId::ContextWindow));
        Line { spans }
    }

    /// The title and the lines of the panel for an area `width` columns wide,
    /// borders included, with the listed themes of the catalog wrapped into
    /// the columns between the borders.
    pub fn render(&self, width: u16, config: &Config, presets: &ThemePresets) -> (r:
        ThemeSelectorView)
        ensures
            r.title@ == selector_title(
                config@.theme,
                modified_from_theme(presets@, config@),
            ),
            line_views(r.lines@) == selector_lines(
                config@,
                listed_names(preset_names(presets@), presets@.len() as int),
                inner_width(width),
            ),
    {
        let is_modified = config.is_modified_from_theme(presets);
        let names = presets.list_available_themes();
        let available = listed_themes(&names);
        let ghost listed = listed_names(preset_names(presets@), presets@.len() as int);
        assert(text_views(names@).len() == names@.len());
        assert(text_views(available@) == listed);
        let content_width: u16 = if width >= 2 {
            width - 2
        } else {
            0
        };
        let themes = wrap_themes(&available, config.theme.as_str(), content_width as usize);
        let ghost theme_texts = text_views(themes@);
        let mut lines: Vec<Line> = Vec::new();
        let mut i: usize = 0;
        while i < themes.len()
            invariant
                i <= themes.len(),
                theme_texts == text_views(themes@),
                lines@.len() == i,
                forall|j: int| 0 <= j < i ==> (#[trigger] lines@[j])@ == plain_line(theme_texts[j]),
            decreases themes.len() - i,
        {
            assert(theme_texts[i as int] == themes@[i as int]@);
            lines.push(line_of(themes[i].clone()));
            i += 1;
        }
        let blank = Line { spans: Vec::new() };
        assert(blank@ =~= Seq::<SpanView>::empty());
        lines.push(blank);
        lines.push(Self::preview(config));
        let mut shown = String::from_str("分隔符: \"");
        shown.append(config.style.separator.as_str());
        shown.append("\"");
        let last = line_of(shown);
        assert(last@ == separator_line(config@.separator));
        lines.push(last);
        let mut title = String::from_str("主题: ");
        title.append(config.theme.as_str());
        if is_modified {
            title.append("*");
        }
        proof {
            reveal_strlit("");
            assert(title@ =~= selector_title(config@.theme, is_modified));
            let want = selector_lines(config@, listed, inner_width(width));
            let n = themes@.len() as int;
            assert(theme_texts == theme_lines(listed, config@.theme, inner_width(width)));
            assert(want.len() == n + 3);
            assert(line_views(lines@).len() == n + 3);
            assert forall|k: int| 0 <= k < n + 3 implies line_views(lines@)[k] == want[k] by {
                if k < n {
                    assert(lines@[k]@ == plain_line(theme_texts[k]));
                }
            }
            assert(line_views(lines@) =~= want);
        }
        ThemeSelectorView { title, lines }
    }
}

} // verus!
