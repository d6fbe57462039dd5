use glmcode::api::GlmApiConfig;
use glmcode::config::AnsiColor;
use glmcode::config::ColorConfig;
use glmcode::config::Config;
use glmcode::config::IconConfig;
use glmcode::config::InputData;
use glmcode::config::SegmentConfig;
use glmcode::config::SegmentId;
use glmcode::config::StyleConfig;
use glmcode::config::TextStyleConfig;
use glmcode::segments::SegmentData;
use glmcode::statusline::collect_segments;
use glmcode::statusline::generate;
use glmcode::statusline::push_segment;
use glmcode::statusline::push_styled;
use glmcode::statusline::render_line;
use glmcode::ui::themes::ThemePresets;

fn bare(id: SegmentId, enabled: bool, plain: &str, nerd_font: &str) -> SegmentConfig {
    SegmentConfig {
        id,
        enabled,
        icon: IconConfig { plain: plain.to_string(), nerd_font: nerd_font.to_string() },
        colors: ColorConfig { icon: None, text: None, background: None },
        styles: TextStyleConfig { text_bold: false },
        options: vec![],
    }
}

fn data(primary: &str) -> Option<SegmentData> {
    Some(SegmentData::placeholder(primary))
}

fn styled(text: &str, bold: bool, fg: Option<AnsiColor>, bg: Option<AnsiColor>) -> String {
    let mut out = String::from("<");
    push_styled(&mut out, text, bold, &fg, &bg);
    out.push('>');
    out
}

#[test]
fn unstyled_text_is_left_alone() {
    assert_eq!(styled("abc", false, None, None), "<abc>");
    assert_eq!(styled("", false, None, None), "<>");
}

#[test]
fn style_parameters_in_order() {
    assert_eq!(styled("x", true, None, None), "<\x1b[1mx\x1b[0m>");
    assert_eq!(
        styled("x", false, Some(AnsiColor::Color16 { c16: 5 }), None),
        "<\x1b[35mx\x1b[0m>"
    );
    assert_eq!(
        styled("x", false, Some(AnsiColor::Color16 { c16: 14 }), None),
        "<\x1b[96mx\x1b[0m>"
    );
    assert_eq!(
        styled("x", true, Some(AnsiColor::Color256 { c256: 208 }), None),
        "<\x1b[1;38;5;208mx\x1b[0m>"
    );
    assert_eq!(
        styled("x", false, None, Some(AnsiColor::Rgb { r: 1, g: 20, b: 255 })),
        "<\x1b[48;2;1;20;255mx\x1b[0m>"
    );
    assert_eq!(
        styled(
            "x",
            true,
            Some(AnsiColor::Rgb { r: 0, g: 0, b: 0 }),
            Some(AnsiColor::Color16 { c16: 0 })
        ),
        "<\x1b[1;38;2;0;0;0;40mx\x1b[0m>"
    );
    assert_eq!(
        styled("x", false, Some(AnsiColor::Color16 { c16: 7 }), Some(AnsiColor::Color16 { c16: 8 })),
        "<\x1b[37;100mx\x1b[0m>"
    );
    assert_eq!(
        styled("x", false, Some(AnsiColor::Color16 { c16: 255 }), Some(AnsiColor::Color256 { c256: 0 })),
        "<\x1b[337;48;5;0mx\x1b[0m>"
    );
}

#[test]
fn segment_uses_the_glyph_of_the_font() {
    let config = ThemePresets::get_gruvbox();
    let model = &config.segments[0];
    let shown = SegmentData::placeholder("GLM-4.6");
    let mut plain = String::new();
    push_segment(&mut plain, model, &shown, false);
    assert_eq!(plain, "\x1b[38;5;208m🤖\x1b[0m \x1b[1;38;5;208mGLM-4.6\x1b[0m");
    let mut enhanced = String::from("> ");
    push_segment(&mut enhanced, model, &shown, true);
    assert_eq!(enhanced, "> \x1b[38;5;208m\u{e26d}\x1b[0m \x1b[1;38;5;208mGLM-4.6\x1b[0m");
}

#[test]
fn line_skips_disabled_segments_and_segments_without_data() {
    let config = Config {
        style: StyleConfig { separator: " | ".to_string() },
        segments: vec![
            bare(SegmentId::Model, true, "M", "m"),
            bare(SegmentId::Directory, false, "D", "d"),
            bare(SegmentId::Git, true, "G", "g"),
            bare(SegmentId::ContextWindow, true, "C", "c"),
            bare(SegmentId::Session, true, "S", "s"),
        ],
        theme: "t".to_string(),
    };
    let outputs = vec![data("model"), data("dir"), None, data("ctx")];
    assert_eq!(render_line(&config, &outputs, false), "M model | C ctx");
    assert_eq!(render_line(&config, &outputs, true), "m model | c ctx");
    assert_eq!(render_line(&config, &vec![], false), "");
    assert_eq!(render_line(&config, &vec![None, data("dir"), None], false), "");
    assert_eq!(render_line(&config, &vec![None, None, data("")], false), "G ");
    let more = vec![data("a"), None, data("b"), data("c"), data("d"), data("beyond")];
    assert_eq!(render_line(&config, &more, false), "M a | G b | C c | S d");
}

#[test]
fn line_follows_the_configured_order() {
    let mut config = Config {
        style: StyleConfig { separator: "".to_string() },
        segments: vec![
            bare(SegmentId::Model, true, "1", "1"),
            bare(SegmentId::Git, true, "2", "2"),
        ],
        theme: "t".to_string(),
    };
    let outputs = vec![data("a"), data("b")];
    assert_eq!(render_line(&config, &outputs, false), "1 a2 b");
    config.move_segment_up(1);
    assert_eq!(render_line(&config, &outputs, false), "2 a1 b");
    config.set_separator("::".to_string());
    assert_eq!(render_line(&config, &outputs, false), "2 a::1 b");
}

#[test]
fn rendering_twice_gives_the_same_line() {
    let mut config = ThemePresets::get_gruvbox();
    config.toggle_enabled(7);
    config.toggle_enabled(8);
    let input = InputData { glm: None, quota: None, performance: None, now_ms: 0 };
    let first = generate(&config, &input, false);
    let second = generate(&config, &input, false);
    assert_eq!(first, second);
    assert_eq!(
        first,
        "\x1b[38;5;175m📊\x1b[0m \x1b[1;38;5;175m未配置 GLM\x1b[0m | \
         \x1b[38;5;208m⚡\x1b[0m \x1b[1;38;5;208m未配置 GLM\x1b[0m"
    );
}

#[test]
fn collectors_run_for_enabled_segments_only() {
    let mut config = ThemePresets::get_gruvbox();
    let input = InputData {
        glm: Some(GlmApiConfig::new("https://api.z.ai".to_string(), "t".to_string())),
        quota: None,
        performance: None,
        now_ms: 0,
    };
    let none = collect_segments(&config, &input);
    assert_eq!(none.len(), 9);
    assert!(none.iter().all(|o| o.is_none()));
    assert_eq!(generate(&config, &input, true), "");
    config.toggle_enabled(7);
    let some = collect_segments(&config, &input);
    assert_eq!(some.len(), 9);
    assert_eq!(some[7].as_ref().map(|d| d.primary.as_str()), Some("⏳ 获取中..."));
    assert!(some[8].is_none());
    assert!(some[0].is_none());
    assert_eq!(
        generate(&config, &input, true),
        "\x1b[38;5;175m\u{f4a8}\x1b[0m \x1b[1;38;5;175m⏳ 获取中...\x1b[0m"
    );
}
