//! The Gruvbox preset, segment by segment.

use vstd::prelude::*;
use crate::config::types::lemma_options_empty;
use crate::config::types::IconView;
use crate::config::types::OptionValueView;
use crate::config::types::SegmentConfigView;
use crate::config::AnsiColor;
use crate::config::ColorConfig;
use crate::config::IconConfig;
use crate::config::OptionValue;
use crate::config::SegmentConfig;
use crate::config::SegmentId;
use crate::config::TextStyleConfig;

verus! {

/// Gruvbox orange, in the 256-color palette.
pub const ORANGE: u8 = 208;

/// Gruvbox green, in the 256-color palette.
pub const GREEN: u8 = 142;

/// Gruvbox cyan, in the 256-color palette.
pub const CYAN: u8 = 109;

/// Gruvbox purple, in the 256-color palette.
pub const PURPLE: u8 = 175;

/// Magenta, in the 16-color palette.
pub const MAGENTA_16: u8 = 5;

/// Bright cyan, in the 16-color palette.
pub const BRIGHT_CYAN_16: u8 = 14;

/// Settings without options, whose icon and text share one color and have no
/// background.
pub open spec fn themed_view(
    id: SegmentId,
    enabled: bool,
    plain: Seq<char>,
    nerd_font: Seq<char>,
    color: AnsiColor,
    text_bold: bool,
) -> SegmentConfigView {
    SegmentConfigView {
        id,
        enabled,
        icon: IconView { plain, nerd_font },
        colors: ColorConfig { icon: Some(color), text: Some(color), background: None },
        styles: TextStyleConfig { text_bold },
        options: Map::empty(),
    }
}

/// Settings without options, whose icon and text share one color.
fn themed(
    id: SegmentId,
    enabled: bool,
    plain: &str,
    nerd_font: &str,
    color: AnsiColor,
    text_bold: bool,
) -> (r: SegmentConfig)
    ensures
        r@ == themed_view(id, enabled, plain@, nerd_font@, color, text_bold),
{
    proof {
        lemma_options_empty();
    }
    SegmentConfig {
        id,
        enabled,
        icon: IconConfig { plain: plain.to_owned(), nerd_font: nerd_font.to_owned() },
        colors: ColorConfig { icon: Some(color), text: Some(color), background: None },
        styles: TextStyleConfig { text_bold },
        options: Vec::new(),
    }
}

/// The model name: shown, bold, orange.
pub open spec fn model_view() -> SegmentConfigView {
    themed_view(
        SegmentId::Model,
        true,
        "🤖"@,
        "\u{e26d}"@,
        AnsiColor::Color256 { c256: ORANGE },
        true,
    )
}

/// The model name: shown, bold, orange.
pub fn model_segment() -> (r: SegmentConfig)
    ensures
        r@ == model_view(),
{
    themed(
        SegmentId::Model,
        true,
        "🤖",
        "\u{e26d}",
        AnsiColor::Color256 { c256: ORANGE },
        true,
    )
}

/// The working directory: shown, bold, green.
pub open spec fn directory_view() -> SegmentConfigView {
    themed_view(
        SegmentId::Directory,
        true,
        "📁"@,
        "\u{f024b}"@,
        AnsiColor::Color256 { c256: GREEN },
        true,
    )
}

/// The working directory: shown, bold, green.
pub fn directory_segment() -> (r: SegmentConfig)
    ensures
        r@ == directory_view(),
{
    themed(
        SegmentId::Directory,
        true,
        "📁",
        "\u{f024b}",
        AnsiColor::Color256 { c256: GREEN },
        true,
    )
}

/// The branch settings before their options.
pub open spec fn git_base() -> SegmentConfigView {
    themed_view(
        SegmentId::Git,
        true,
        "🌿"@,
        "\u{f02a2}"@,
        AnsiColor::Color256 { c256: CYAN },
        true,
    )
}

/// The branch: shown, bold, cyan, without the commit hash.
pub open spec fn git_view() -> SegmentConfigView {
    SegmentConfigView {
        options: Map::<Seq<char>, OptionValueView>::empty().insert(
            "show_sha"@,
            OptionValueView::Bool(false),
        ),
        ..git_base()
    }
}

/// The branch: shown, bold, cyan, without the commit hash.
pub fn git_segment() -> (r: SegmentConfig)
    ensures
        r@ == git_view(),
{
    let mut segment = themed(
        SegmentId::Git,
        true,
        "🌿",
        "\u{f02a2}",
        AnsiColor::Color256 { c256: CYAN },
        true,
    );
    segment.set_option("show_sha".to_owned(), OptionValue::Bool(false));
    segment
}

/// The context window: shown, bold, magenta of the 16-color palette.
pub open spec fn context_window_view() -> SegmentConfigView {
    themed_view(
        SegmentId::ContextWindow,
        true,
        "⚡️"@,
        "\u{f49b}"@,
        AnsiColor::Color16 { c16: MAGENTA_16 },
        true,
    )
}

/// The context window: shown, bold, magenta of the 16-color palette.
pub fn context_window_segment() -> (r: SegmentConfig)
    ensures
        r@ == context_window_view(),
{
    themed(
        SegmentId::ContextWindow,
        true,
        "⚡️",
        "\u{f49b}",
        AnsiColor::Color16 { c16: MAGENTA_16 },
        true,
    )
}

/// The session timer: hidden, bold, green.
pub open spec fn session_view() -> SegmentConfigView {
    themed_view(
        SegmentId::Session,
        false,
        "⏱️"@,
        "\u{f19bb}"@,
        AnsiColor::Color256 { c256: GREEN },
        true,
    )
}

/// The session timer: hidden, bold, green.
pub fn session_segment() -> (r: SegmentConfig)
    ensures
        r@ == session_view(),
{
    themed(
        SegmentId::Session,
        false,
        "⏱️",
        "\u{f19bb}",
        AnsiColor::Color256 { c256: GREEN },
        true,
    )
}

/// The output style: hidden, bold, cyan.
pub open spec fn output_style_view() -> SegmentConfigView {
    themed_view(
        SegmentId::OutputStyle,
        false,
        "🎯"@,
        "\u{f12f5}"@,
        AnsiColor::Color256 { c256: CYAN },
        true,
    )
}

/// The output style: hidden, bold, cyan.
pub fn output_style_segment() -> (r: SegmentConfig)
    ensures
        r@ == output_style_view(),
{
    themed(
        SegmentId::OutputStyle,
        false,
        "🎯",
        "\u{f12f5}",
        AnsiColor::Color256 { c256: CYAN },
        true,
    )
}

/// The usage quota settings before their options.
pub open spec fn usage_base() -> SegmentConfigView {
    themed_view(
        SegmentId::Usage,
        false,
        "📊"@,
        "\u{f0a9e}"@,
        AnsiColor::Color16 { c16: BRIGHT_CYAN_16 },
        false,
    )
}

/// The usage quota: hidden, bright cyan of the 16-color palette, with the
/// endpoint, the cache duration and the timeout of its collector.
pub open spec fn usage_view() -> SegmentConfigView {
    SegmentConfigView {
        options: Map::<Seq<char>, OptionValueView>::empty().insert(
            "api_base_url"@,
            OptionValueView::Text("https://api.anthropic.com"@),
        ).insert("cache_duration"@, OptionValueView::Integer(180)).insert(
            "timeout"@,
            OptionValueView::Integer(2),
        ),
        ..usage_base()
    }
}

/// The usage quota: hidden, bright cyan of the 16-color palette, with the
/// endpoint, the cache duration and the timeout of its collector.
pub fn usage_segment() -> (r: SegmentConfig)
    ensures
        r@ == usage_view(),
{
    let mut segment = themed(
        SegmentId::Usage,
        false,
        "📊",
        "\u{f0a9e}",
        AnsiColor::Color16 { c16: BRIGHT_CYAN_16 },
        TextStyleConfig::default().text_bold,
    );
    segment.set_option(
        "api_base_url".to_owned(),
        OptionValue::Text("https://api.anthropic.com".to_owned()),
    );
    segment.set_option("cache_duration".to_owned(), OptionValue::Integer(180));
    segment.set_option("timeout".to_owned(), OptionValue::Integer(2));
    segment
}

/// The GLM quota: hidden, bold, purple.
pub open spec fn glm_usage_view() -> SegmentConfigView {
    themed_view(
        SegmentId::GlmUsage,
        false,
        "📊"@,
        "\u{f4a8}"@,
        AnsiColor::Color256 { c256: PURPLE },
        true,
    )
}

/// The GLM quota: hidden, bold, purple.
pub fn glm_usage_segment() -> (r: SegmentConfig)
    ensures
        r@ == glm_usage_view(),
{
    themed(
        SegmentId::GlmUsage,
        false,
        "📊",
        "\u{f4a8}",
        AnsiColor::Color256 { c256: PURPLE },
        true,
    )
}

/// The decode speed: hidden, bold, orange, one glyph for both fonts.
pub open spec fn decode_speed_view() -> SegmentConfigView {
    themed_view(
        SegmentId::DecodeSpeed,
        false,
        "⚡"@,
        "⚡"@,
        AnsiColor::Color256 { c256: ORANGE },
        true,
    )
}

/// The decode speed: hidden, bold, orange, one glyph for both fonts.
pub fn decode_speed_segment() -> (r: SegmentConfig)
    ensures
        r@ == decode_speed_view(),
{
    themed(
        SegmentId::DecodeSpeed,
        false,
        "⚡",
        "⚡",
        AnsiColor::Color256 { c256: ORANGE },
        true,
    )
}

} // verus!
