//! The segment list panel: one row per configured segment.

use vstd::prelude::*;
use vstd::string::StringExecFns;
use crate::config::types::SegmentConfigView;
use crate::config::Config;
use crate::config::SegmentConfig;
use crate::config::SegmentId;
use crate::ui::layout::lemma_span_views_push;
use crate::ui::layout::line_views;
use crate::ui::layout::Color;
use crate::ui::layout::Line;
use crate::ui::layout::Span;
use crate::ui::layout::SpanView;
use crate::ui::layout::Style;

verus! {

/// The two top-level panels of the editor.
#[derive(Debug, Clone, Copy, PartialEq, Eq, Structural)]
pub enum Panel {
    SegmentList,
    Settings,
}

/// The fields of a segment that the settings panel edits.
#[derive(Debug, Clone, Copy, PartialEq, Eq, Structural)]
pub enum FieldSelection {
    Enabled,
    Icon,
    IconColor,
    TextColor,
    BackgroundColor,
    TextStyle,
    Options,
}

/// What the segment list panel shows: its rows and the style of its border.
#[derive(Debug)]
pub struct SegmentListView {
    pub items: Vec<Line>,
    pub border_style: Style,
}

/// The name a segment kind is listed under.
pub open spec fn segment_name(id: SegmentId) -> Seq<char> {
    match id {
        SegmentId::Model => "模型"@,
        SegmentId::Directory => "目录"@,
        SegmentId::Git => "Git"@,
        SegmentId::ContextWindow => "上下文窗口"@,
        SegmentId::Usage => "用量"@,
        SegmentId::Session => "会话"@,
        SegmentId::OutputStyle => "输出样式"@,
        SegmentId::Update => "更新"@,
        SegmentId::GlmUsage => "GLM用量"@,
        SegmentId::DecodeSpeed => "解码速度"@,
    }
}

/// The mark of a segment: a filled dot when it is shown, a hollow one when
/// it is hidden.
pub open spec fn enabled_marker(enabled: bool) -> Seq<char> {
    if enabled {
        "●"@
    } else {
        "○"@
    }
}

/// The row of a segment: under the cursor, a cyan pointer before mark and
/// name; else two blanks in its place.
pub open spec fn segment_row(segment: SegmentConfigView, selected: bool) -> Seq<SpanView> {
    let label = enabled_marker(segment.enabled) + " "@ + segment_name(segment.id);
    if selected {
        seq![
            SpanView { content: "▶ "@, style: Style::colored(Color::Cyan) },
            SpanView { content: label, style: Style::plain() },
        ]
    } else {
        seq![SpanView { content: "  "@ + label, style: Style::plain() }]
    }
}

/// The rows of the panel: the cursor shows on the selected segment while the
/// segment list has the focus.
pub open spec fn segment_rows(
    segments: Seq<SegmentConfigView>,
    selected_segment: int,
    selected_panel: Panel,
) -> Seq<Seq<SpanView>> {
    Seq::new(
        segments.len(),
        |i: int|
            segment_row(
                segments[i],
                i == selected_segment && selected_panel == Panel::SegmentList,
            ),
    )
}

/// The border of the panel: cyan while the segment list has the focus.
pub open spec fn list_border(selected_panel: Panel) -> Style {
    if selected_panel == Panel::SegmentList {
        Style::colored(Color::Cyan)
    } else {
        Style::plain()
    }
}

/// The name a segment kind is listed under.
pub fn segment_label(id: SegmentId) -> (r: &'static str)
    ensures
        r@ == segment_name(id),
{
    match id {
        SegmentId::Model => "模型",
        SegmentId::Directory => "目录",
        SegmentId::Git => "Git",
        SegmentId::ContextWindow => "上下文窗口",
        SegmentId::Usage => "用量",
        SegmentId::Session => "会话",
        SegmentId::OutputStyle => "输出样式",
        SegmentId::Update => "更新",
        SegmentId::GlmUsage => "GLM用量",
        SegmentId::DecodeSpeed => "解码速度",
    }
}

/// The row of one segment.
pub fn row_of(segment: &SegmentConfig, selected: bool) -> (r: Line)
    ensures
        r@ == segment_row(segment@, selected),
{
    let marker: &str = if segment.enabled {
        "●"
    } else {
        "○"
    };
    let mut spans: Vec<Span> = Vec::new();
    if selected {
        let mut label = String::from_str(marker);
        label.append(" ");
        label.append(segment_label(segment.id));
        let pointer = Span::styled(String::from_str("▶ "), Style::fg(Color::Cyan));
        let text = Span::raw(label);
        proof {
            lemma_span_views_push(spans@, pointer);
            lemma_span_views_push(spans@.push(pointer), text);
        }
        spans.push(pointer);
        spans.push(text);
    } else {
        let mut label = String::from_str("  ");
        label.append(marker);
        label.append(" ");
        label.append(segment_label(segment.id));
        let text = Span::raw(label);
        proof {
            lemma_span_views_push(spans@, text);
        }
        spans.push(text);
    }
    let line = Line { spans };
    assert(line@ =~= segment_row(segment@, selected)) by {
        let want = segment_row(segment@, selected);
        assert(line@.len() == want.len());
        assert forall|k: int| 0 <= k < want.len() implies line@[k].style == want[k].style
            && line@[k].content =~= want[k].content by {}
    }
    line
}

/// The segment list panel.
#[derive(Debug, Clone, Copy)]
pub struct SegmentListComponent;

impl Default for SegmentListComponent {
    fn default() -> Self {
        SegmentListComponent
    }
}

impl SegmentListComponent {
    /// The panel.
    pub fn new() -> (r: Self) {
        SegmentListComponent
    }

    /// The rows and the border of the panel.
    pub fn render(&self, config: &Config, selected_segment: usize, selected_panel: &Panel) -> (r:
        SegmentListView)
        ensures
            line_views(r.items@) == segment_rows(
                config@.segments,
                selected_segment as int,
                *selected_panel,
            ),
            r.border_style == list_border(*selected_panel),
    {
        let focused: bool = match selected_panel {
            Panel::SegmentList => true,
            Panel::Settings => false,
        };
        let mut items: Vec<Line> = Vec::new();
        let mut i: usize = 0;
        while i < config.segments.len()
            invariant
                i <= config.segments.len(),
                focused == (*selected_panel == Panel::SegmentList),
                items@.len() == i,
                forall|j: int|
                    0 <= j < i ==> (#[trigger] items@[j])@ == segment_row(
                        config.segments@[j]@,
                        j == selected_segment && focused,
                    ),
            decreases config.segments.len() - i,
        {
            items.push(row_of(&config.segments[i], i == selected_segment && focused));
            i += 1;
        }
        assert(line_views(items@) =~= segment_rows(
            config@.segments,
            selected_segment as int,
            *selected_panel,
        ));
        let border_style = if focused {
            Style::fg(Color::Cyan)
        } else {
            Style::new()
        };
        SegmentListView { items, border_style }
    }
}

} // verus!
