use glmcode::config::AnsiColor;
use glmcode::config::ColorTarget;
use glmcode::config::Config;
use glmcode::config::SegmentId;
use glmcode::config::StyleConfig;
use glmcode::ui::components::help::help_items;
use glmcode::ui::components::help::layout_help;
use glmcode::ui::components::help::measure_items;
use glmcode::ui::components::help::HelpComponent;
use glmcode::ui::components::help::Shortcut;
use glmcode::ui::components::help::ShortcutWidth;
use glmcode::ui::components::segment_list::segment_label;
use glmcode::ui::components::segment_list::Panel;
use glmcode::ui::components::segment_list::SegmentListComponent;
use glmcode::ui::components::theme_selector::listed_themes;
use glmcode::ui::components::theme_selector::wrap_themes;
use glmcode::ui::components::theme_selector::ThemeSelectorComponent;
use glmcode::ui::layout::Color;
use glmcode::ui::layout::Line;
use glmcode::ui::layout::Style;
use glmcode::ui::main_menu::InitOutcome;
use glmcode::ui::main_menu::MainMenu;
use glmcode::ui::main_menu::MenuKey;
use glmcode::ui::main_menu::MenuResult;
use glmcode::ui::main_menu::MenuStep;
use glmcode::ui::main_menu::MenuTask;
use glmcode::ui::themes::theme_gruvbox::git_segment;
use glmcode::ui::themes::ThemePresets;

fn text(line: &Line) -> String {
    line.spans.iter().map(|s| s.content.as_str()).collect()
}

fn texts(lines: &[Line]) -> Vec<String> {
    lines.iter().map(text).collect()
}

const PLAIN: Style = Style { fg: None, bg: None, bold: false };

fn fg(color: Color) -> Style {
    Style { fg: Some(color), bg: None, bold: false }
}

#[test]
fn help_items_by_mode() {
    let keys = |items: Vec<Shortcut>| items.iter().map(|s| s.key).collect::<Vec<_>>();
    assert_eq!(keys(help_items(true, false)), vec!["[↑↓]", "[Tab]", "[Enter]", "[Esc]"]);
    assert_eq!(keys(help_items(true, true)), vec!["[↑↓]", "[Tab]", "[Enter]", "[Esc]"]);
    assert_eq!(keys(help_items(false, true)), vec!["[↑↓]", "[Tab]", "[C]", "[Enter]", "[Esc]"]);
    let main = help_items(false, false);
    assert_eq!(main.len(), 11);
    assert_eq!(main[2].key, "[Shift+↑↓]");
    assert_eq!(main[2].description, "排序");
    assert_eq!(main[10].description, "退出");
    assert_eq!(help_items(true, false)[1].description, "模式");
    assert_eq!(help_items(false, true)[1].description, "样式");
}

#[test]
fn help_items_are_measured_in_columns() {
    let widths = measure_items(&help_items(false, false));
    let pairs: Vec<(usize, usize)> = widths.iter().map(|w| (w.key, w.description)).collect();
    assert_eq!(
        pairs,
        vec![
            (5, 8),
            (7, 9),
            (10, 4),
            (5, 4),
            (3, 8),
            (3, 4),
            (3, 10),
            (3, 8),
            (3, 8),
            (8, 8),
            (5, 4)
        ]
    );
}

#[test]
fn help_packs_whole_shortcuts_into_the_width() {
    let lines = HelpComponent::new().render(40, None, false, false);
    assert_eq!(
        texts(&lines),
        vec![
            "[Tab] 切换面板  [Enter] 开关/编辑",
            "[Shift+↑↓] 排序  [1-4] 主题",
            "[P] 切换主题  [R] 重置  [E] 编辑分隔符",
            "[S] 保存配置  [W] 写入主题",
            "[Ctrl+S] 另存主题  [Esc] 退出",
        ]
    );
    let first = &lines[0];
    assert_eq!(first.spans.len(), 5);
    assert_eq!(first.spans[0].content, "[Tab]");
    assert_eq!(first.spans[0].style, Style { fg: Some(Color::Yellow), bg: None, bold: true });
    assert_eq!(first.spans[1].content, " 切换面板");
    assert_eq!(first.spans[1].style, fg(Color::Gray));
    assert_eq!(first.spans[2].content, "  ");
    assert_eq!(first.spans[2].style, PLAIN);
    assert_eq!(first.spans[3].content, "[Enter]");
    assert_eq!(first.spans[4].content, " 开关/编辑");
}

#[test]
fn help_fits_exactly_and_breaks_one_column_short() {
    // [P] 切换主题 (12) + 2 + [R] 重置 (8) + 2 + [E] 编辑分隔符 (14) is 38 columns.
    let fits = HelpComponent::new().render(40, None, false, false);
    assert_eq!(text(&fits[2]), "[P] 切换主题  [R] 重置  [E] 编辑分隔符");
    let short = HelpComponent::new().render(39, None, false, false);
    assert_eq!(text(&short[2]), "[P] 切换主题  [R] 重置");
    assert_eq!(text(&short[3]), "[E] 编辑分隔符  [S] 保存配置");
}

#[test]
fn help_in_a_narrow_area_puts_one_shortcut_on_each_line() {
    for width in [0u16, 1, 2, 5] {
        let lines = HelpComponent::new().render(width, None, true, false);
        assert_eq!(
            texts(&lines),
            vec!["[↑↓] 导航", "[Tab] 模式", "[Enter] 选择", "[Esc] 取消"]
        );
    }
    let wide = HelpComponent::new().render(u16::MAX, None, false, true);
    assert_eq!(
        texts(&wide),
        vec!["[↑↓] 导航  [Tab] 样式  [C] 自定义  [Enter] 选择  [Esc] 取消"]
    );
}

#[test]
fn help_shows_the_status_below_an_empty_line() {
    let lines = HelpComponent::new().render(200, Some("saved"), true, false);
    assert_eq!(lines.len(), 3);
    assert!(lines[1].spans.is_empty());
    assert_eq!(lines[2].spans.len(), 1);
    assert_eq!(lines[2].spans[0].content, "saved");
    assert_eq!(lines[2].spans[0].style, fg(Color::Green));
    assert_eq!(HelpComponent::new().render(200, Some(""), true, false).len(), 1);
    assert_eq!(HelpComponent::new().render(200, None, true, false).len(), 1);
}

#[test]
fn layout_follows_the_given_widths() {
    let items = vec![
        Shortcut { key: "a", description: "b" },
        Shortcut { key: "c", description: "d" },
        Shortcut { key: "e", description: "f" },
    ];
    let widths = |w: [(usize, usize); 3]| {
        w.iter().map(|p| ShortcutWidth { key: p.0, description: p.1 }).collect::<Vec<_>>()
    };
    let narrow = widths([(1, 1), (1, 1), (1, 1)]);
    assert_eq!(texts(&layout_help(&items, &narrow, 8, "")), vec!["a b  c d", "e f"]);
    assert_eq!(texts(&layout_help(&items, &narrow, 13, "")), vec!["a b  c d  e f"]);
    assert_eq!(texts(&layout_help(&items, &narrow, 12, "")), vec!["a b  c d", "e f"]);
    assert_eq!(texts(&layout_help(&items, &narrow, 7, "")), vec!["a b", "c d", "e f"]);
    let huge = widths([(usize::MAX, usize::MAX), (0, 0), (usize::MAX, 0)]);
    assert_eq!(texts(&layout_help(&items, &huge, usize::MAX, "")), vec!["a b", "c d", "e f"]);
    let mixed = widths([(0, 0), (0, 0), (10, 0)]);
    assert_eq!(texts(&layout_help(&items, &mixed, 4, "s")), vec!["a b  c d", "e f", "", "s"]);
    assert!(layout_help(&vec![], &vec![], 10, "").is_empty());
    assert_eq!(texts(&layout_help(&vec![], &vec![], 10, "only")), vec!["", "only"]);
}

#[test]
fn segment_names() {
    assert_eq!(segment_label(SegmentId::Model), "模型");
    assert_eq!(segment_label(SegmentId::Directory), "目录");
    assert_eq!(segment_label(SegmentId::Git), "Git");
    assert_eq!(segment_label(SegmentId::ContextWindow), "上下文窗口");
    assert_eq!(segment_label(SegmentId::Usage), "用量");
    assert_eq!(segment_label(SegmentId::Session), "会话");
    assert_eq!(segment_label(SegmentId::OutputStyle), "输出样式");
    assert_eq!(segment_label(SegmentId::Update), "更新");
    assert_eq!(segment_label(SegmentId::GlmUsage), "GLM用量");
}

#[test]
fn segment_list_marks_the_cursor_while_focused() {
    let config = ThemePresets::get_gruvbox();
    let view = SegmentListComponent::new().render(&config, 2, &Panel::SegmentList);
    assert_eq!(view.border_style, fg(Color::Cyan));
    assert_eq!(view.items.len(), 9);
    assert_eq!(text(&view.items[0]), "  ● 模型");
    assert_eq!(view.items[0].spans.len(), 1);
    assert_eq!(view.items[0].spans[0].style, PLAIN);
    assert_eq!(view.items[2].spans.len(), 2);
    assert_eq!(view.items[2].spans[0].content, "▶ ");
    assert_eq!(view.items[2].spans[0].style, fg(Color::Cyan));
    assert_eq!(view.items[2].spans[1].content, "● Git");
    assert_eq!(view.items[2].spans[1].style, PLAIN);
    assert_eq!(text(&view.items[4]), "  ○ 会话");
    assert_eq!(text(&view.items[7]), "  ○ GLM用量");
}

#[test]
fn segment_list_hides_the_cursor_without_focus() {
    let config = ThemePresets::get_gruvbox();
    let view = SegmentListComponent::new().render(&config, 2, &Panel::Settings);
    assert_eq!(view.border_style, PLAIN);
    assert_eq!(text(&view.items[2]), "  ● Git");
    assert_eq!(view.items[2].spans.len(), 1);
    let beyond = SegmentListComponent::new().render(&config, 9, &Panel::SegmentList);
    assert!(beyond.items.iter().all(|line| line.spans.len() == 1));
    let empty = Config {
        style: StyleConfig { separator: String::new() },
        segments: vec![],
        theme: String::new(),
    };
    assert!(SegmentListComponent::new().render(&empty, 0, &Panel::SegmentList).items.is_empty());
}

#[test]
fn ansi_colors_convert_to_terminal_colors() {
    let c16 = |c16: u8| ThemeSelectorComponent::convert_color_ansi(&AnsiColor::Color16 { c16 });
    let expected = [
        Color::Black,
        Color::Red,
        Color::Green,
        Color::Yellow,
        Color::Blue,
        Color::Magenta,
        Color::Cyan,
        Color::White,
        Color::DarkGray,
        Color::LightRed,
        Color::LightGreen,
        Color::LightYellow,
        Color::LightBlue,
        Color::LightMagenta,
        Color::LightCyan,
        Color::White,
    ];
    for (i, want) in expected.iter().enumerate() {
        assert_eq!(c16(i as u8), *want);
    }
    assert_eq!(c16(16), Color::Gray);
    assert_eq!(c16(255), Color::Gray);
    assert_eq!(
        ThemeSelectorComponent::convert_color_ansi(&AnsiColor::Color256 { c256: 208 }),
        Color::Indexed(208)
    );
    assert_eq!(
        ThemeSelectorComponent::convert_color_ansi(&AnsiColor::Rgb { r: 1, g: 2, b: 3 }),
        Color::Rgb(1, 2, 3)
    );
}

#[test]
fn blank_theme_names_are_not_listed() {
    let names = vec![
        "  ".to_string(),
        "nord".to_string(),
        String::new(),
        "\t\n".to_string(),
        " a b ".to_string(),
    ];
    assert_eq!(listed_themes(&names), vec!["nord".to_string(), " a b ".to_string()]);
}

#[test]
fn themes_wrap_at_the_width() {
    let names = vec!["a".to_string(), "bb".to_string(), "ccc".to_string()];
    let active = "bb";
    assert_eq!(wrap_themes(&names, active, 14), vec!["[ ] a  [✓] bb", "[ ] ccc"]);
    assert_eq!(wrap_themes(&names, active, 13), vec!["[ ] a  [✓] bb", "[ ] ccc"]);
    assert_eq!(wrap_themes(&names, active, 12), vec!["[ ] a", "[✓] bb", "[ ] ccc"]);
    assert_eq!(wrap_themes(&names, active, 22), vec!["[ ] a  [✓] bb  [ ] ccc"]);
    assert_eq!(wrap_themes(&names, active, 21), vec!["[ ] a  [✓] bb", "[ ] ccc"]);
    assert_eq!(wrap_themes(&names, active, 0), vec!["[ ] a", "[✓] bb", "[ ] ccc"]);
    assert!(wrap_themes(&vec![], active, 10).is_empty());
    assert_eq!(wrap_themes(&vec!["主题".to_string()], "x", 0), vec!["[ ] 主题"]);
}

#[test]
fn theme_panel_of_a_fresh_theme() {
    let presets = ThemePresets::builtin();
    let config = ThemePresets::get_gruvbox();
    let view = ThemeSelectorComponent::new().render(80, &config, &presets);
    assert_eq!(view.title, "主题: gruvbox");
    assert_eq!(
        texts(&view.lines),
        vec!["[✓] gruvbox", "", "预览:  目录   分支   模型   上下文  ", "分隔符: \" | \""]
    );
    assert!(view.lines[1].spans.is_empty());
    let preview = &view.lines[2];
    assert_eq!(preview.spans.len(), 9);
    assert_eq!(preview.spans[0].style, PLAIN);
    for i in [1usize, 3, 5, 7] {
        assert_eq!(
            preview.spans[i].style,
            Style { fg: Some(Color::Rgb(255, 255, 255)), bg: Some(Color::Gray), bold: false }
        );
        assert_eq!(preview.spans[i + 1].content, " ");
        assert_eq!(preview.spans[i + 1].style, PLAIN);
    }
}

#[test]
fn theme_panel_of_an_edited_theme() {
    let mut presets = ThemePresets::builtin();
    let mut other = ThemePresets::get_gruvbox();
    other.theme = "nord".to_string();
    presets.register(other);
    let mut config = ThemePresets::get_gruvbox();
    config.set_color(1, ColorTarget::Background, Some(AnsiColor::Color16 { c16: 4 }));
    config.set_color(2, ColorTarget::Background, Some(AnsiColor::Rgb { r: 9, g: 8, b: 7 }));
    config.set_color(0, ColorTarget::Background, Some(AnsiColor::Color256 { c256: 3 }));
    config.segments.remove(3);
    config.segments.push(git_segment());
    config.set_separator("".to_string());
    let view = ThemeSelectorComponent::new().render(20, &config, &presets);
    assert_eq!(view.title, "主题: gruvbox*");
    assert_eq!(
        texts(&view.lines),
        vec![
            "[✓] gruvbox",
            "[ ] nord",
            "",
            "预览:  目录   分支   模型   上下文  ",
            "分隔符: \"\""
        ]
    );
    let backgrounds: Vec<Option<Color>> =
        [1usize, 3, 5, 7].iter().map(|i| view.lines[3].spans[*i].style.bg).collect();
    assert_eq!(
        backgrounds,
        vec![
            Some(Color::Blue),
            Some(Color::Rgb(9, 8, 7)),
            Some(Color::Indexed(3)),
            Some(Color::Gray)
        ]
    );
    let wide = ThemeSelectorComponent::new().render(80, &config, &presets);
    assert_eq!(text(&wide.lines[0]), "[✓] gruvbox  [ ] nord");
}

#[test]
fn menu_starts_at_the_first_entry() {
    let menu = MainMenu::new();
    assert_eq!(menu.selected_item, 0);
    assert!(!menu.should_quit);
    assert!(!menu.show_about);
    assert!(menu.status_message.is_none());
    let items = menu.get_menu_items();
    assert_eq!(
        items,
        vec![
            (" 配置模式", "进入 TUI 配置界面"),
            (" 初始化配置", "创建默认配置文件"),
            (" 检查配置", "验证配置文件"),
            (" 关于", "显示应用信息"),
            (" 退出", "退出 GLMCode"),
        ]
    );
}

#[test]
fn menu_selection_by_entry() {
    let steps: Vec<MenuStep> = (0..7usize)
        .map(|i| {
            let mut menu = MainMenu::new();
            menu.selected_item = i;
            menu.handle_selection()
        })
        .collect();
    assert_eq!(
        steps,
        vec![
            MenuStep::Leave(MenuResult::LaunchConfigurator),
            MenuStep::Run(MenuTask::InitConfig),
            MenuStep::Run(MenuTask::CheckConfig),
            MenuStep::Stay,
            MenuStep::Leave(MenuResult::Exit),
            MenuStep::Leave(MenuResult::Exit),
            MenuStep::Leave(MenuResult::Exit),
        ]
    );
    let mut about = MainMenu::new();
    about.selected_item = 3;
    about.handle_selection();
    assert!(about.show_about);
}

#[test]
fn menu_keys_move_within_the_entries() {
    let mut menu = MainMenu::new();
    assert_eq!(menu.handle_key(MenuKey::Up, true), MenuStep::Stay);
    assert_eq!(menu.selected_item, 0);
    for expected in [1usize, 2, 3, 4, 4, 4] {
        assert_eq!(menu.handle_key(MenuKey::Down, true), MenuStep::Stay);
        assert_eq!(menu.selected_item, expected);
    }
    assert_eq!(menu.handle_key(MenuKey::Up, true), MenuStep::Stay);
    assert_eq!(menu.selected_item, 3);
    assert_eq!(menu.handle_key(MenuKey::Up, false), MenuStep::Stay);
    assert_eq!(menu.selected_item, 3);
    assert_eq!(menu.handle_key(MenuKey::Other, true), MenuStep::Stay);
    assert_eq!(menu.handle_key(MenuKey::Char('x'), true), MenuStep::Stay);
    assert!(!menu.should_quit);
}

#[test]
fn menu_quits_on_escape_and_q() {
    let mut a = MainMenu::new();
    assert_eq!(a.handle_key(MenuKey::Esc, true), MenuStep::Leave(MenuResult::Exit));
    assert!(a.should_quit);
    let mut b = MainMenu::new();
    assert_eq!(b.handle_key(MenuKey::Char('q'), true), MenuStep::Leave(MenuResult::Exit));
    let mut c = MainMenu::new();
    assert_eq!(c.handle_key(MenuKey::Char('Q'), true), MenuStep::Stay);
    assert_eq!(c.handle_key(MenuKey::Esc, false), MenuStep::Stay);
    assert!(!c.should_quit);
}

#[test]
fn menu_about_dialog_closes_on_any_key() {
    let mut menu = MainMenu::new();
    menu.selected_item = 3;
    menu.report_init(InitOutcome::Created("p".to_string()));
    assert_eq!(menu.handle_key(MenuKey::Enter, true), MenuStep::Stay);
    assert!(menu.show_about);
    assert!(menu.status_message.is_none());
    menu.report_init(InitOutcome::Created("p".to_string()));
    assert_eq!(menu.handle_key(MenuKey::Esc, true), MenuStep::Stay);
    assert!(!menu.show_about);
    assert!(!menu.should_quit);
    assert!(menu.status_message.is_some());
    assert_eq!(menu.selected_item, 3);
}

#[test]
fn menu_enter_hands_out_tasks_and_results() {
    let mut menu = MainMenu::new();
    assert_eq!(
        menu.handle_key(MenuKey::Enter, true),
        MenuStep::Leave(MenuResult::LaunchConfigurator)
    );
    menu.handle_key(MenuKey::Down, true);
    assert_eq!(menu.handle_key(MenuKey::Enter, true), MenuStep::Run(MenuTask::InitConfig));
    menu.handle_key(MenuKey::Down, true);
    assert_eq!(menu.handle_key(MenuKey::Enter, true), MenuStep::Run(MenuTask::CheckConfig));
    menu.handle_key(MenuKey::Down, true);
    menu.handle_key(MenuKey::Down, true);
    assert_eq!(menu.handle_key(MenuKey::Enter, true), MenuStep::Leave(MenuResult::Exit));
}

#[test]
fn menu_reports_on_the_default_file() {
    let status = |outcome: InitOutcome| {
        let mut menu = MainMenu::new();
        menu.selected_item = 1;
        menu.report_init(outcome);
        assert_eq!(menu.selected_item, 1);
        let s = menu.status_message.unwrap();
        (s.message, s.is_error)
    };
    assert_eq!(
        status(InitOutcome::Created("/h/c.toml".to_string())),
        ("✓ 已创建配置文件: /h/c.toml".to_string(), false)
    );
    assert_eq!(
        status(InitOutcome::AlreadyExists("/h/c.toml".to_string())),
        ("配置文件已存在: /h/c.toml".to_string(), false)
    );
    assert_eq!(
        status(InitOutcome::Failed("denied".to_string())),
        ("✗ 错误: denied".to_string(), true)
    );
}

#[test]
fn menu_reports_on_the_loaded_configuration() {
    let status = |loaded: Result<Config, String>| {
        let mut menu = MainMenu::new();
        menu.report_check(loaded);
        let s = menu.status_message.unwrap();
        (s.message, s.is_error)
    };
    assert_eq!(status(Ok(ThemePresets::get_gruvbox())), ("✓ 配置文件有效!".to_string(), false));
    let mut twice = ThemePresets::get_gruvbox();
    twice.segments.push(git_segment());
    assert_eq!(status(Ok(twice)), ("✗ 无效: 重复的段落: Git".to_string(), true));
    assert_eq!(
        status(Err("bad document".to_string())),
        ("✗ 加载失败: bad document".to_string(), true)
    );
}

#[test]
fn menu_status_is_cleared_by_the_next_key() {
    let mut menu = MainMenu::new();
    menu.report_init(InitOutcome::Failed("x".to_string()));
    assert_eq!(menu.handle_key(MenuKey::Other, false), MenuStep::Stay);
    assert!(menu.status_message.is_some());
    assert_eq!(menu.handle_key(MenuKey::Other, true), MenuStep::Stay);
    assert!(menu.status_message.is_none());
}

#[test]
fn menu_screen_without_status() {
    let mut menu = MainMenu::new();
    menu.selected_item = 1;
    let screen = menu.ui("1.2.3");
    assert_eq!(screen.footer_height, 3);
    assert_eq!(screen.selected, 1);
    assert!(screen.about.is_none());
    assert_eq!(texts(&screen.header), vec!["GLMCode v1.2.3", "", "高性能状态栏配置工具"]);
    assert_eq!(
        screen.header[0].spans[0].style,
        Style { fg: Some(Color::Cyan), bg: None, bold: true }
    );
    assert_eq!(screen.header[0].spans[1].style, fg(Color::Gray));
    assert_eq!(screen.header[0].spans[2].style, fg(Color::Yellow));
    assert_eq!(screen.rows.len(), 5);
    assert_eq!(text(&screen.rows[0].content), " 配置模式 - 进入 TUI 配置界面");
    assert_eq!(text(&screen.rows[4].content), " 退出 - 退出 GLMCode");
    let cursor = Style { fg: Some(Color::Black), bg: Some(Color::Cyan), bold: false };
    for (i, row) in screen.rows.iter().enumerate() {
        let want = if i == 1 { cursor } else { fg(Color::White) };
        assert_eq!(row.style, want);
        assert_eq!(row.content.spans[0].style, want);
        assert_eq!(row.content.spans[1].style, fg(Color::Gray));
    }
    assert_eq!(texts(&screen.footer), vec!["[↑↓] 导航  [Enter] 选择  [Esc/Q] 退出"]);
    assert_eq!(screen.footer[0].spans.len(), 6);
}

#[test]
fn menu_screen_with_status_and_about() {
    let mut menu = MainMenu::new();
    menu.report_init(InitOutcome::Failed("x".to_string()));
    menu.show_about = true;
    let screen = menu.ui("9");
    assert_eq!(screen.footer_height, 5);
    assert_eq!(
        texts(&screen.footer),
        vec!["[↑↓] 导航  [Enter] 选择  [Esc/Q] 退出", "", "✗ 错误: x"]
    );
    assert_eq!(screen.footer[2].spans[0].style, fg(Color::Red));
    let about = screen.about.unwrap();
    assert_eq!(
        texts(&about),
        vec![
            "",
            "GLMCode v9",
            "",
            "功能特性:",
            "• 🎨 TUI 配置界面",
            "• 🎯 多种内置主题",
            "• ⚡ 实时用量追踪",
            "• 💰 费用监控",
            "• 📊 会话统计",
            "• 🎨 Nerd Font 支持",
            "• 🔧 高度可定制",
            "",
            "按任意键继续...",
        ]
    );
    assert_eq!(about[3].spans[0].style, Style { fg: Some(Color::Green), bg: None, bold: true });
    assert_eq!(about[12].spans[0].style, fg(Color::Yellow));
    menu.report_init(InitOutcome::Created("p".to_string()));
    assert_eq!(menu.ui("9").footer[2].spans[0].style, fg(Color::Green));
}
