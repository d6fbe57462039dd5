use glmcode::config::types::same_options;
use glmcode::config::types::ConfigError;
use glmcode::config::AnsiColor;
use glmcode::config::ColorTarget;
use glmcode::config::Config;
use glmcode::config::OptionEntry;
use glmcode::config::OptionValue;
use glmcode::config::SegmentId;
use glmcode::config::TextStyleConfig;
use glmcode::ui::themes::theme_gruvbox::context_window_segment;
use glmcode::ui::themes::theme_gruvbox::decode_speed_segment;
use glmcode::ui::themes::theme_gruvbox::directory_segment;
use glmcode::ui::themes::theme_gruvbox::git_segment;
use glmcode::ui::themes::theme_gruvbox::glm_usage_segment;
use glmcode::ui::themes::theme_gruvbox::model_segment;
use glmcode::ui::themes::theme_gruvbox::output_style_segment;
use glmcode::ui::themes::theme_gruvbox::session_segment;
use glmcode::ui::themes::theme_gruvbox::usage_segment;
use glmcode::ui::themes::ThemePresets;

fn entry(key: &str, value: OptionValue) -> OptionEntry {
    OptionEntry { key: key.to_string(), value }
}

fn ids(config: &Config) -> Vec<SegmentId> {
    config.segments.iter().map(|s| s.id).collect()
}

#[test]
fn gruvbox_model_segment() {
    let s = model_segment();
    assert_eq!(s.id, SegmentId::Model);
    assert!(s.enabled);
    assert_eq!(s.icon.plain, "🤖");
    assert_eq!(s.icon.nerd_font, "\u{e26d}");
    assert_eq!(s.colors.icon, Some(AnsiColor::Color256 { c256: 208 }));
    assert_eq!(s.colors.text, Some(AnsiColor::Color256 { c256: 208 }));
    assert_eq!(s.colors.background, None);
    assert!(s.styles.text_bold);
    assert!(s.options.is_empty());
}

#[test]
fn gruvbox_segments_by_kind() {
    let d = directory_segment();
    assert_eq!((d.id, d.enabled, d.icon.plain.as_str()), (SegmentId::Directory, true, "📁"));
    assert_eq!(d.icon.nerd_font, "\u{f024b}");
    assert_eq!(d.colors.text, Some(AnsiColor::Color256 { c256: 142 }));
    let c = context_window_segment();
    assert_eq!((c.id, c.enabled, c.icon.plain.as_str()), (SegmentId::ContextWindow, true, "⚡️"));
    assert_eq!(c.icon.nerd_font, "\u{f49b}");
    assert_eq!(c.colors.icon, Some(AnsiColor::Color16 { c16: 5 }));
    let s = session_segment();
    assert_eq!((s.id, s.enabled, s.icon.plain.as_str()), (SegmentId::Session, false, "⏱️"));
    assert_eq!(s.icon.nerd_font, "\u{f19bb}");
    assert_eq!(s.colors.icon, Some(AnsiColor::Color256 { c256: 142 }));
    let o = output_style_segment();
    assert_eq!((o.id, o.enabled, o.icon.plain.as_str()), (SegmentId::OutputStyle, false, "🎯"));
    assert_eq!(o.icon.nerd_font, "\u{f12f5}");
    assert_eq!(o.colors.icon, Some(AnsiColor::Color256 { c256: 109 }));
    let g = glm_usage_segment();
    assert_eq!((g.id, g.enabled, g.icon.plain.as_str()), (SegmentId::GlmUsage, false, "📊"));
    assert_eq!(g.icon.nerd_font, "\u{f4a8}");
    assert_eq!(g.colors.icon, Some(AnsiColor::Color256 { c256: 175 }));
    let v = decode_speed_segment();
    assert_eq!((v.id, v.enabled, v.icon.plain.as_str()), (SegmentId::DecodeSpeed, false, "⚡"));
    assert_eq!(v.icon.nerd_font, "⚡");
    assert_eq!(v.colors.icon, Some(AnsiColor::Color256 { c256: 208 }));
    for segment in [d, c, s, o, g, v] {
        assert!(segment.styles.text_bold);
        assert!(segment.options.is_empty());
        assert_eq!(segment.colors.background, None);
        assert_eq!(segment.colors.icon, segment.colors.text);
    }
}

#[test]
fn gruvbox_git_segment_hides_the_hash() {
    let g = git_segment();
    assert_eq!((g.id, g.enabled), (SegmentId::Git, true));
    assert_eq!(g.icon.plain, "🌿");
    assert_eq!(g.icon.nerd_font, "\u{f02a2}");
    assert_eq!(g.colors.icon, Some(AnsiColor::Color256 { c256: 109 }));
    assert!(matches!(g.option("show_sha"), Some(OptionValue::Bool(false))));
    assert!(g.option("missing").is_none());
}

#[test]
fn gruvbox_usage_segment_options() {
    let u = usage_segment();
    assert_eq!((u.id, u.enabled), (SegmentId::Usage, false));
    assert_eq!(u.icon.plain, "📊");
    assert_eq!(u.icon.nerd_font, "\u{f0a9e}");
    assert_eq!(u.colors.icon, Some(AnsiColor::Color16 { c16: 14 }));
    assert_eq!(u.colors.text, Some(AnsiColor::Color16 { c16: 14 }));
    assert_eq!(u.styles, TextStyleConfig::default());
    assert!(!u.styles.text_bold);
    assert!(
        matches!(u.option("api_base_url"), Some(OptionValue::Text(t)) if t == "https://api.anthropic.com")
    );
    assert!(matches!(u.option("cache_duration"), Some(OptionValue::Integer(180))));
    assert!(matches!(u.option("timeout"), Some(OptionValue::Integer(2))));
}

#[test]
fn gruvbox_preset_order() {
    let config = ThemePresets::get_gruvbox();
    assert_eq!(config.theme, "gruvbox");
    assert_eq!(config.style.separator, " | ");
    assert_eq!(
        ids(&config),
        vec![
            SegmentId::Model,
            SegmentId::Directory,
            SegmentId::Git,
            SegmentId::ContextWindow,
            SegmentId::Session,
            SegmentId::OutputStyle,
            SegmentId::Usage,
            SegmentId::GlmUsage,
            SegmentId::DecodeSpeed,
        ]
    );
    assert!(config.check().is_ok());
}

#[test]
fn options_compare_as_mappings() {
    let a = vec![entry("x", OptionValue::Integer(1)), entry("y", OptionValue::Bool(true))];
    let b = vec![entry("y", OptionValue::Bool(true)), entry("x", OptionValue::Integer(1))];
    assert!(same_options(&a, &b));
    let stale = vec![
        entry("x", OptionValue::Integer(7)),
        entry("y", OptionValue::Bool(true)),
        entry("x", OptionValue::Integer(1)),
    ];
    assert!(same_options(&a, &stale));
    let other = vec![entry("x", OptionValue::Integer(2)), entry("y", OptionValue::Bool(true))];
    assert!(!same_options(&a, &other));
    let fewer = vec![entry("x", OptionValue::Integer(1))];
    assert!(!same_options(&a, &fewer));
    assert!(!same_options(&fewer, &a));
    let kinds = vec![entry("x", OptionValue::Text("1".to_string()))];
    assert!(!same_options(&fewer, &kinds));
    assert!(!same_options(&kinds, &vec![entry("x", OptionValue::Json("1".to_string()))]));
    assert!(same_options(&vec![], &vec![]));
    assert!(same_options(&vec![entry("n", OptionValue::Null)], &vec![entry("n", OptionValue::Null)]));
}

#[test]
fn set_option_replaces_the_value() {
    let mut g = git_segment();
    g.set_option("show_sha".to_string(), OptionValue::Bool(true));
    assert!(matches!(g.option("show_sha"), Some(OptionValue::Bool(true))));
    assert!(!g.same_as(&git_segment()));
    g.set_option("show_sha".to_string(), OptionValue::Bool(false));
    assert!(g.same_as(&git_segment()));
}

#[test]
fn clone_is_structurally_identical() {
    let config = ThemePresets::get_gruvbox();
    let copy = config.clone();
    assert!(config.matches(&copy));
    assert_eq!(copy.theme, config.theme);
    for (a, b) in config.segments.iter().zip(copy.segments.iter()) {
        assert!(a.same_as(b));
    }
}

#[test]
fn matches_compares_separator_and_segments_but_not_the_name() {
    let preset = ThemePresets::get_gruvbox();
    let mut config = preset.clone();
    config.theme = "other".to_string();
    assert!(config.matches(&preset));
    config.set_separator(" · ".to_string());
    assert!(!config.matches(&preset));
    config.set_separator(" | ".to_string());
    assert!(config.matches(&preset));
    config.segments.pop();
    assert!(!config.matches(&preset));
}

#[test]
fn check_reports_the_first_repeated_kind() {
    let mut config = ThemePresets::get_gruvbox();
    assert_eq!(config.check(), Ok(()));
    config.segments.push(git_segment());
    config.segments.push(model_segment());
    assert_eq!(config.check(), Err(ConfigError::DuplicateSegment(SegmentId::Git)));
    assert_eq!(ConfigError::DuplicateSegment(SegmentId::Git).message(), "重复的段落: Git");
    let empty = Config {
        style: glmcode::config::StyleConfig { separator: String::new() },
        segments: vec![],
        theme: String::new(),
    };
    assert_eq!(empty.check(), Ok(()));
}

#[test]
fn position_of_finds_the_first_segment_of_a_kind() {
    let mut config = ThemePresets::get_gruvbox();
    assert_eq!(config.position_of(SegmentId::Model), Some(0));
    assert_eq!(config.position_of(SegmentId::DecodeSpeed), Some(8));
    assert_eq!(config.position_of(SegmentId::Update), None);
    config.segments.insert(1, decode_speed_segment());
    assert_eq!(config.position_of(SegmentId::DecodeSpeed), Some(1));
}

#[test]
fn moving_up_swaps_with_the_neighbour_above() {
    let mut config = ThemePresets::get_gruvbox();
    let selected = config.move_segment_up(2);
    assert_eq!(selected, 1);
    assert_eq!(ids(&config)[..3], [SegmentId::Model, SegmentId::Git, SegmentId::Directory]);
    assert_eq!(ids(&config)[3], SegmentId::ContextWindow);
    assert_eq!(config.segments.len(), 9);
    assert!(config.segments[1].same_as(&git_segment()));
    assert!(config.segments[2].same_as(&directory_segment()));
}

#[test]
fn moving_up_from_the_top_changes_nothing() {
    let mut config = ThemePresets::get_gruvbox();
    assert_eq!(config.move_segment_up(0), 0);
    assert!(config.matches(&ThemePresets::get_gruvbox()));
    assert_eq!(config.move_segment_up(9), 9);
    assert_eq!(config.move_segment_up(usize::MAX), usize::MAX);
    assert!(config.matches(&ThemePresets::get_gruvbox()));
}

#[test]
fn moving_down_swaps_with_the_neighbour_below() {
    let mut config = ThemePresets::get_gruvbox();
    assert_eq!(config.move_segment_down(7), 8);
    assert_eq!(ids(&config)[7..], [SegmentId::DecodeSpeed, SegmentId::GlmUsage]);
    assert_eq!(config.move_segment_down(8), 8);
    assert_eq!(config.move_segment_down(100), 100);
    assert_eq!(config.move_segment_up(8), 7);
    assert!(config.matches(&ThemePresets::get_gruvbox()));
}

#[test]
fn field_edits_change_one_segment() {
    let mut config = ThemePresets::get_gruvbox();
    config.toggle_enabled(4);
    assert!(config.segments[4].enabled);
    config.toggle_bold(4);
    assert!(!config.segments[4].styles.text_bold);
    config.set_icon(4, false, "T".to_string());
    config.set_icon(4, true, "N".to_string());
    assert_eq!(config.segments[4].icon.plain, "T");
    assert_eq!(config.segments[4].icon.nerd_font, "N");
    config.set_color(4, ColorTarget::Icon, None);
    config.set_color(4, ColorTarget::Text, Some(AnsiColor::Rgb { r: 1, g: 2, b: 3 }));
    config.set_color(4, ColorTarget::Background, Some(AnsiColor::Color16 { c16: 0 }));
    assert_eq!(config.segments[4].colors.icon, None);
    assert_eq!(config.segments[4].colors.text, Some(AnsiColor::Rgb { r: 1, g: 2, b: 3 }));
    assert_eq!(config.segments[4].colors.background, Some(AnsiColor::Color16 { c16: 0 }));
    let preset = ThemePresets::get_gruvbox();
    for i in 0..9 {
        assert_eq!(config.segments[i].same_as(&preset.segments[i]), i != 4);
    }
    config.toggle_enabled(9);
    config.toggle_bold(9);
    config.set_icon(9, true, "x".to_string());
    config.set_color(9, ColorTarget::Icon, None);
    assert_eq!(config.segments.len(), 9);
}

#[test]
fn catalog_resolves_names() {
    let mut presets = ThemePresets::builtin();
    assert_eq!(presets.list_available_themes(), vec!["gruvbox".to_string()]);
    assert_eq!(presets.get_theme("gruvbox").theme, "gruvbox");
    assert_eq!(presets.get_theme("unknown").theme, "gruvbox");
    let mut mine = ThemePresets::get_gruvbox();
    mine.theme = "mine".to_string();
    mine.set_separator(" / ".to_string());
    presets.register(mine.clone());
    assert_eq!(
        presets.list_available_themes(),
        vec!["gruvbox".to_string(), "mine".to_string()]
    );
    assert_eq!(presets.find("mine"), Some(1));
    assert_eq!(presets.get_theme("mine").style.separator, " / ");
    mine.set_separator(" ~ ".to_string());
    presets.register(mine);
    assert_eq!(presets.presets.len(), 2);
    assert_eq!(presets.get_theme("mine").style.separator, " ~ ");
    let mut own = ThemePresets::get_gruvbox();
    own.set_separator("!".to_string());
    presets.register(own);
    assert_eq!(presets.get_theme("unknown").style.separator, "!");
    let empty = ThemePresets { presets: vec![] };
    assert_eq!(empty.get_theme("x").theme, "gruvbox");
    assert!(empty.list_available_themes().is_empty());
}

#[test]
fn fresh_theme_is_not_modified_and_any_edit_is() {
    let presets = ThemePresets::builtin();
    let fresh = presets.get_theme("gruvbox");
    assert!(!fresh.is_modified_from_theme(&presets));
    let mut a = fresh.clone();
    a.toggle_enabled(0);
    assert!(a.is_modified_from_theme(&presets));
    a.toggle_enabled(0);
    assert!(!a.is_modified_from_theme(&presets));
    let mut b = fresh.clone();
    b.toggle_bold(3);
    assert!(b.is_modified_from_theme(&presets));
    let mut c = fresh.clone();
    c.set_icon(2, true, "x".to_string());
    assert!(c.is_modified_from_theme(&presets));
    let mut d = fresh.clone();
    d.set_color(5, ColorTarget::Background, Some(AnsiColor::Color256 { c256: 0 }));
    assert!(d.is_modified_from_theme(&presets));
    let mut e = fresh.clone();
    e.move_segment_up(1);
    assert!(e.is_modified_from_theme(&presets));
    let mut f = fresh.clone();
    f.set_separator("|".to_string());
    assert!(f.is_modified_from_theme(&presets));
    let mut g = fresh.clone();
    g.segments[2].set_option("show_sha".to_string(), OptionValue::Bool(true));
    assert!(g.is_modified_from_theme(&presets));
    let mut h = fresh.clone();
    h.theme = "unknown".to_string();
    assert!(!h.is_modified_from_theme(&presets));
}

#[test]
fn segment_kinds_are_found_again_under_their_names() {
    let kinds = [
        (SegmentId::Model, "model"),
        (SegmentId::Directory, "directory"),
        (SegmentId::Git, "git"),
        (SegmentId::ContextWindow, "context_window"),
        (SegmentId::Usage, "usage"),
        (SegmentId::Session, "session"),
        (SegmentId::OutputStyle, "output_style"),
        (SegmentId::Update, "update"),
        (SegmentId::GlmUsage, "glm_usage"),
        (SegmentId::DecodeSpeed, "decode_speed"),
    ];
    for (id, name) in kinds {
        assert_eq!(id.name(), name);
        assert_eq!(SegmentId::from_name(name), Some(id));
    }
    assert_eq!(SegmentId::from_name("Model"), None);
    assert_eq!(SegmentId::from_name(""), None);
    assert_eq!(SegmentId::from_name("cost"), None);
}
