//! The render pipeline: from the ordered segment settings and the
//! collectors' results to one line of text with ANSI colors.

use vstd::prelude::*;
use vstd::string::StringExecFns;
use crate::config::types::ConfigView;
use crate::config::types::SegmentConfigView;
use crate::config::AnsiColor;
use crate::config::Config;
use crate::config::InputData;
use crate::config::SegmentConfig;
use crate::config::SegmentId;
use crate::segments::decode_speed::decode_speed_view;
use crate::segments::glm_usage::glm_usage_view;
use crate::segments::glm_usage::reset_code;
use crate::segments::DecodeSpeedSegment;
use crate::segments::GlmUsageSegment;
use crate::segments::Segment;
use crate::segments::SegmentData;
use crate::segments::SegmentDataView;
use crate::text::decimal_text;
use crate::text::push_decimal;

verus! {

/// The parameters that select a color as foreground (`background` false) or
/// as background: for the 16-color palette the code of the color, 30 to 37
/// and 90 upward for a foreground, 40 to 47 and 100 upward for a background;
/// for the 256-color palette `38;5;n` or `48;5;n`; for RGB `38;2;r;g;b` or
/// `48;2;r;g;b`.
pub open spec fn color_params(color: AnsiColor, background: bool) -> Seq<char> {
    let shift: nat = if background {
        10
    } else {
        0
    };
    match color {
        AnsiColor::Color16 { c16 } => if c16 < 8 {
            decimal_text(30 + shift + c16 as nat)
        } else {
            decimal_text(82 + shift + c16 as nat)
        },
        AnsiColor::Color256 { c256 } => decimal_text(38 + shift) + ";5;"@ + decimal_text(
            c256 as nat,
        ),
        AnsiColor::Rgb { r, g, b } => decimal_text(38 + shift) + ";2;"@ + decimal_text(r as nat)
            + ";"@ + decimal_text(g as nat) + ";"@ + decimal_text(b as nat),
    }
}

/// The parameters of a style, separated by semicolons: `1` for bold, then
/// the foreground, then the background; each only if it is set.
pub open spec fn style_params(
    bold: bool,
    foreground: Option<AnsiColor>,
    background: Option<AnsiColor>,
) -> Seq<char> {
    let first = if bold {
        "1"@
    } else {
        Seq::empty()
    };
    let second = match foreground {
        Some(color) => first + (if first.len() > 0 {
            ";"@
        } else {
            Seq::empty()
        }) + color_params(color, false),
        None => first,
    };
    match background {
        Some(color) => second + (if second.len() > 0 {
            ";"@
        } else {
            Seq::empty()
        }) + color_params(color, true),
        None => second,
    }
}

/// A text in a style: unchanged when the style sets nothing, else between
/// the escape sequence of the style's parameters and the reset code.
pub open spec fn styled(
    text: Seq<char>,
    bold: bool,
    foreground: Option<AnsiColor>,
    background: Option<AnsiColor>,
) -> Seq<char> {
    if !bold && foreground is None && background is None {
        text
    } else {
        "\x1b["@ + style_params(bold, foreground, background) + "m"@ + text + reset_code()
    }
}

/// The glyph of a segment: the enhanced one on a terminal with the extended
/// symbol font, else the plain one.
pub open spec fn icon_of(segment: SegmentConfigView, enhanced_font: bool) -> Seq<char> {
    if enhanced_font {
        segment.icon.nerd_font
    } else {
        segment.icon.plain
    }
}

/// One segment as rendered: the icon in its color, a blank, the primary text
/// in the text color and style; both on the segment's background.
pub open spec fn segment_text(
    segment: SegmentConfigView,
    data: SegmentDataView,
    enhanced_font: bool,
) -> Seq<char> {
    styled(icon_of(segment, enhanced_font), false, segment.colors.icon, segment.colors.background)
        + " "@ + styled(
        data.primary,
        segment.styles.text_bold,
        segment.colors.text,
        segment.colors.background,
    )
}

/// The views of a list of collector results, in order.
pub open spec fn output_views(outputs: Seq<Option<SegmentData>>) -> Seq<Option<SegmentDataView>> {
    Seq::new(
        outputs.len(),
        |i: int|
            match outputs[i] {
                Some(data) => Some(data@),
                None => None,
            },
    )
}

/// The result for the segment at position `i`: none beyond the end of the
/// results.
pub open spec fn output_at(outputs: Seq<Option<SegmentDataView>>, i: int) -> Option<
    SegmentDataView,
> {
    if 0 <= i < outputs.len() {
        outputs[i]
    } else {
        None
    }
}

/// Whether the segment at position `i` is rendered: it is enabled and its
/// collector returned data.
pub open spec fn is_rendered(
    segments: Seq<SegmentConfigView>,
    outputs: Seq<Option<SegmentDataView>>,
    i: int,
) -> bool {
    segments[i].enabled && output_at(outputs, i) is Some
}

/// The line made of the first `n` segments: the rendered ones in order, the
/// separator between each two of them.
pub open spec fn line_prefix(
    segments: Seq<SegmentConfigView>,
    outputs: Seq<Option<SegmentDataView>>,
    separator: Seq<char>,
    enhanced_font: bool,
    n: int,
) -> Seq<char>
    decreases n,
{
    if n <= 0 {
        Seq::empty()
    } else {
        let before = line_prefix(segments, outputs, separator, enhanced_font, n - 1);
        if is_rendered(segments, outputs, n - 1) {
            before + (if rendered_count(segments, outputs, n - 1) > 0 {
                separator
            } else {
                Seq::empty()
            }) + segment_text(segments[n - 1], output_at(outputs, n - 1)->0, enhanced_font)
        } else {
            before
        }
    }
}

/// How many of the first `n` segments are rendered.
pub open spec fn rendered_count(
    segments: Seq<SegmentConfigView>,
    outputs: Seq<Option<SegmentDataView>>,
    n: int,
) -> nat
    decreases n,
{
    if n <= 0 {
        0
    } else if is_rendered(segments, outputs, n - 1) {
        rendered_count(segments, outputs, n - 1) + 1
    } else {
        rendered_count(segments, outputs, n - 1)
    }
}

/// The status line of a configuration and the results of its collectors,
/// result `i` belonging to segment `i`.
pub open spec fn line_text(
    config: ConfigView,
    outputs: Seq<Option<SegmentDataView>>,
    enhanced_font: bool,
) -> Seq<char> {
    line_prefix(
        config.segments,
        outputs,
        config.separator,
        enhanced_font,
        config.segments.len() as int,
    )
}

/// What the collector of a segment kind returns for an input: the quota and
/// the decode-speed indicators have collectors here, the other kinds get
/// their data from the host.
pub open spec fn collected(id: SegmentId, input: InputData) -> Option<SegmentDataView> {
    match id {
        SegmentId::GlmUsage => Some(glm_usage_view(input)),
        SegmentId::DecodeSpeed => Some(decode_speed_view(input)),
        _ => None,
    }
}

/// The results of one render: for each segment, what its collector returns
/// if the segment is enabled, and nothing if it is not.
pub open spec fn collected_all(segments: Seq<SegmentConfigView>, input: InputData) -> Seq<
    Option<SegmentDataView>,
> {
    Seq::new(
        segments.len(),
        |i: int|
            if segments[i].enabled {
                collected(segments[i].id, input)
            } else {
                None
            },
    )
}

/// Two lists of segments and results that agree on every rendered position
/// among the first `n`, and on which positions those are, give the same
/// line: what is disabled or without data leaves no trace.
pub proof fn lemma_line_ignores_skipped(
    a: Seq<SegmentConfigView>,
    outputs_a: Seq<Option<SegmentDataView>>,
    b: Seq<SegmentConfigView>,
    outputs_b: Seq<Option<SegmentDataView>>,
    separator: Seq<char>,
    enhanced_font: bool,
    n: int,
)
    requires
        n <= a.len(),
        n <= b.len(),
        forall|i: int|
            0 <= i < n ==> is_rendered(a, outputs_a, i) == is_rendered(b, outputs_b, i),
        forall|i: int|
            0 <= i < n && is_rendered(a, outputs_a, i) ==> segment_text(
                a[i],
                output_at(outputs_a, i)->0,
                enhanced_font,
            ) == segment_text(b[i], output_at(outputs_b, i)->0, enhanced_font),
    ensures
        rendered_count(a, outputs_a, n) == rendered_count(b, outputs_b, n),
        line_prefix(a, outputs_a, separator, enhanced_font, n) == line_prefix(
            b,
            outputs_b,
            separator,
            enhanced_font,
            n,
        ),
    decreases n,
{
    if n > 0 {
        lemma_line_ignores_skipped(a, outputs_a, b, outputs_b, separator, enhanced_font, n - 1);
    }
}

/// Appends the parameters that select a color.
fn push_color_params(out: &mut String, color: &AnsiColor, background: bool)
    ensures
        final(out)@ == old(out)@ + color_params(*color, background),
{
    let shift: u128 = if background {
        10
    } else {
        0
    };
    match color {
        AnsiColor::Color16 { c16 } => {
            if *c16 < 8 {
                push_decimal(out, 30 + shift + *c16 as u128);
            } else {
                push_decimal(out, 82 + shift + *c16 as u128);
            }
        },
        AnsiColor::Color256 { c256 } => {
            push_decimal(out, 38 + shift);
            out.append(";5;");
            push_decimal(out, *c256 as u128);
        },
        AnsiColor::Rgb { r, g, b } => {
            push_decimal(out, 38 + shift);
            out.append(";2;");
            push_decimal(out, *r as u128);
            out.append(";");
            push_decimal(out, *g as u128);
            out.append(";");
            push_decimal(out, *b as u128);
        },
    }
    assert(out@ =~= old(out)@ + color_params(*color, background));
}

/// Appends a text in a style.
pub fn push_styled(
    out: &mut String,
    text: &str,
    bold: bool,
    foreground: &Option<AnsiColor>,
    background: &Option<AnsiColor>,
)
    ensures
        final(out)@ == old(out)@ + styled(text@, bold, *foreground, *background),
{
    if !bold && foreground.is_none() && background.is_none() {
        out.append(text);
        return ;
    }
    let mut params = String::new();
    if bold {
        params.append("1");
    }
    if let Some(color) = foreground {
        if bold {
            params.append(";");
        }
        push_color_params(&mut params, color, false);
    }
    proof {
        reveal_strlit("1");
        lemma_color_params_nonempty(foreground, false);
    }
    if let Some(color) = background {
        if bold || foreground.is_some() {
            params.append(";");
        }
        push_color_params(&mut params, color, true);
    }
    assert(params@ =~= style_params(bold, *foreground, *background));
    out.append("\x1b[");
    out.append(params.as_str());
    out.append("m");
    out.append(text);
    out.append("\x1b[0m");
    assert(out@ =~= old(out)@ + styled(text@, bold, *foreground, *background));
}

/// The parameters of a color are not empty.
proof fn lemma_color_params_nonempty(color: &Option<AnsiColor>, background: bool)
    ensures
        color matches Some(c) ==> color_params(*c, background).len() > 0,
{
    match color {
        Some(c) => {
            let shift: nat = if background {
                10
            } else {
                0
            };
            crate::text::lemma_decimal_text_nonempty(38 + shift);
            match c {
                AnsiColor::Color16 { c16 } => {
                    crate::text::lemma_decimal_text_nonempty(30 + shift + *c16 as nat);
                    crate::text::lemma_decimal_text_nonempty(82 + shift + *c16 as nat);
                },
                _ => {},
            }
        },
        None => {},
    }
}

/// Appends one segment as rendered.
pub fn push_segment(
    out: &mut String,
    segment: &SegmentConfig,
    data: &SegmentData,
    enhanced_font: bool,
)
    ensures
        final(out)@ == old(out)@ + segment_text(segment@, data@, enhanced_font),
{
    let icon: &str = if enhanced_font {
        segment.icon.nerd_font.as_str()
    } else {
        segment.icon.plain.as_str()
    };
    push_styled(out, icon, false, &segment.colors.icon, &segment.colors.background);
    out.append(" ");
    push_styled(
        out,
        data.primary.as_str(),
        segment.styles.text_bold,
        &segment.colors.text,
        &segment.colors.background,
    );
    assert(out@ =~= old(out)@ + segment_text(segment@, data@, enhanced_font));
}

/// The status line: each enabled segment whose collector returned data, in
/// configured order, the separator between each two; nothing of the others.
pub fn render_line(config: &Config, outputs: &Vec<Option<SegmentData>>, enhanced_font: bool) -> (r:
    String)
    ensures
        r@ == line_text(config@, output_views(outputs@), enhanced_font),
{
    let ghost segments = config@.segments;
    let ghost results = output_views(outputs@);
    let ghost separator = config@.separator;
    let mut out = String::new();
    let mut shown: usize = 0;
    let mut i: usize = 0;
    while i < config.segments.len()
        invariant
            i <= config.segments.len(),
            segments == config@.segments,
            results == output_views(outputs@),
            separator == config.style.separator@,
            shown == rendered_count(segments, results, i as int),
            shown <= i,
            out@ == line_prefix(segments, results, separator, enhanced_font, i as int),
        decreases config.segments.len() - i,
    {
        let segment = &config.segments[i];
        assert(segments[i as int] == segment@);
        if segment.enabled && i < outputs.len() {
            if let Some(data) = &outputs[i] {
                assert(output_at(results, i as int) == Some(data@));
                if shown > 0 {
                    out.append(config.style.separator.as_str());
                }
                push_segment(&mut out, segment, data, enhanced_font);
                shown += 1;
            }
        }
        i += 1;
        assert(out@ =~= line_prefix(segments, results, separator, enhanced_font, i as int));
    }
    out
}

/// Runs the collectors of the enabled segments, once each, in configured
/// order.
pub fn collect_segments(config: &Config, input: &InputData) -> (r: Vec<Option<SegmentData>>)
    ensures
        output_views(r@) == collected_all(config@.segments, *input),
{
    let mut outputs: Vec<Option<SegmentData>> = Vec::new();
    let mut i: usize = 0;
    while i < config.segments.len()
        invariant
            i <= config.segments.len(),
            outputs@.len() == i,
            forall|j: int|
                0 <= j < i ==> output_views(outputs@)[j] == collected_all(
                    config@.segments,
                    *input,
                )[j],
        decreases config.segments.len() - i,
    {
        let segment = &config.segments[i];
        assert(config@.segments[i as int] == segment@);
        let output: Option<SegmentData> = if !segment.enabled {
            None
        } else {
            match segment.id {
                SegmentId::GlmUsage => GlmUsageSegment::new().collect(input),
                SegmentId::DecodeSpeed => DecodeSpeedSegment::new().collect(input),
                _ => None,
            }
        };
        let ghost before = outputs@;
        outputs.push(output);
        assert forall|j: int| 0 <= j < i + 1 implies output_views(outputs@)[j] == collected_all(
            config@.segments,
            *input,
        )[j] by {
            if j < i {
                assert(output_views(before)[j] == output_views(outputs@)[j]);
            }
        }
        i += 1;
    }
    assert(output_views(outputs@) =~= collected_all(config@.segments, *input));
    outputs
}

/// One render: collect, then assemble the line.
pub fn generate(config: &Config, input: &InputData, enhanced_font: bool) -> (r: String)
    ensures
        r@ == line_text(config@, collected_all(config@.segments, *input), enhanced_font),
{
    let outputs = collect_segments(config, input);
    render_line(config, &outputs, enhanced_font)
}

} // verus!
