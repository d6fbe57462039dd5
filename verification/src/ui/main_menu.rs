//! The main menu: a short list of actions, a status line and an about
//! dialog, driven key by key.

use vstd::prelude::*;
use vstd::string::StringExecFns;
use crate::config::Config;
use crate::config::types::ConfigError;
use crate::ui::layout::line_views;
use crate::ui::layout::plain_text;
use crate::ui::layout::styled_text;
use crate::ui::layout::Color;
use crate::ui::layout::Line;
use crate::ui::layout::Span;
use crate::ui::layout::SpanView;
use crate::ui::layout::Style;

verus! {

/// The number of entries of the menu.
pub const MENU_LENGTH: usize = 5;

/// A message for the footer; an error shows in red.
#[derive(Debug)]
pub struct StatusMessage {
    pub message: String,
    pub is_error: bool,
}

/// What a `StatusMessage` holds.
pub struct StatusView {
    pub message: Seq<char>,
    pub is_error: bool,
}

impl View for StatusMessage {
    type V = StatusView;

    open spec fn view(&self) -> StatusView {
        StatusView { message: self.message@, is_error: self.is_error }
    }
}

/// The state of the menu.
#[derive(Debug)]
pub struct MainMenu {
    pub selected_item: usize,
    pub should_quit: bool,
    pub show_about: bool,
    pub status_message: Option<StatusMessage>,
}

/// What a `MainMenu` holds.
pub struct MenuView {
    pub selected_item: usize,
    pub should_quit: bool,
    pub show_about: bool,
    pub status_message: Option<StatusView>,
}

impl View for MainMenu {
    type V = MenuView;

    open spec fn view(&self) -> MenuView {
        MenuView {
            selected_item: self.selected_item,
            should_quit: self.should_quit,
            show_about: self.show_about,
            status_message: match self.status_message {
                Some(status) => Some(status@),
                None => None,
            },
        }
    }
}

/// What the menu hands back when it ends.
#[derive(Debug, Clone, Copy, PartialEq, Eq, Structural)]
pub enum MenuResult {
    LaunchConfigurator,
    InitConfig,
    CheckConfig,
    Exit,
}

/// A key of the keyboard, as far as the menu tells keys apart.
#[derive(Debug, Clone, Copy, PartialEq, Eq, Structural)]
pub enum MenuKey {
    Esc,
    Up,
    Down,
    Enter,
    Char(char),
    Other,
}

/// Work on the configuration file that the menu asks its host to do.
#[derive(Debug, Clone, Copy, PartialEq, Eq, Structural)]
pub enum MenuTask {
    InitConfig,
    CheckConfig,
}

/// What follows a key: the menu stays open, or stays open once the host has
/// done a task and reported on it, or ends with a result.
#[derive(Debug, Clone, Copy, PartialEq, Eq, Structural)]
pub enum MenuStep {
    Stay,
    Run(MenuTask),
    Leave(MenuResult),
}

/// How writing the default configuration file ended: written to a path,
/// found there already, or failed with a reason.
#[derive(Debug)]
pub enum InitOutcome {
    Created(String),
    AlreadyExists(String),
    Failed(String),
}

/// The menu before any key.
pub open spec fn initial_menu() -> MenuView {
    MenuView { selected_item: 0, should_quit: false, show_about: false, status_message: None }
}

/// The step that choosing entry `selected` leads to.
pub open spec fn selection_step(selected: usize) -> MenuStep {
    if selected == 0 {
        MenuStep::Leave(MenuResult::LaunchConfigurator)
    } else if selected == 1 {
        MenuStep::Run(MenuTask::InitConfig)
    } else if selected == 2 {
        MenuStep::Run(MenuTask::CheckConfig)
    } else if selected == 3 {
        MenuStep::Stay
    } else {
        MenuStep::Leave(MenuResult::Exit)
    }
}

/// The menu after entry `selected_item` was chosen: the fourth entry opens
/// the about dialog, the others change nothing.
pub open spec fn after_selection(menu: MenuView) -> MenuView {
    if menu.selected_item == 3 {
        MenuView { show_about: true, ..menu }
    } else {
        menu
    }
}

/// The menu after a key, once the about dialog is closed and the status
/// message cleared.
pub open spec fn after_menu_key(menu: MenuView, key: MenuKey) -> MenuView {
    match key {
        MenuKey::Esc => MenuView { should_quit: true, ..menu },
        MenuKey::Char(c) => if c == 'q' {
            MenuView { should_quit: true, ..menu }
        } else {
            menu
        },
        MenuKey::Up => if menu.selected_item > 0 {
            MenuView { selected_item: (menu.selected_item - 1) as usize, ..menu }
        } else {
            menu
        },
        MenuKey::Down => if menu.selected_item < MENU_LENGTH - 1 {
            MenuView { selected_item: (menu.selected_item + 1) as usize, ..menu }
        } else {
            menu
        },
        MenuKey::Enter => after_selection(menu),
        MenuKey::Other => menu,
    }
}

/// The menu after an input event. A key that is not a press changes
/// nothing; while the about dialog shows, any press only closes it; else the
/// press clears the status message and then acts.
pub open spec fn menu_after(menu: MenuView, key: MenuKey, pressed: bool) -> MenuView {
    if !pressed {
        menu
    } else if menu.show_about {
        MenuView { show_about: false, ..menu }
    } else {
        after_menu_key(MenuView { status_message: None, ..menu }, key)
    }
}

/// The step that an input event leads to: Enter leads to the step of the
/// chosen entry; any other press ends the menu once quitting was asked for.
pub open spec fn menu_step(menu: MenuView, key: MenuKey, pressed: bool) -> MenuStep {
    if !pressed || menu.show_about {
        MenuStep::Stay
    } else if key == MenuKey::Enter && selection_step(menu.selected_item) != MenuStep::Stay {
        selection_step(menu.selected_item)
    } else if menu_after(menu, key, pressed).should_quit {
        MenuStep::Leave(MenuResult::Exit)
    } else {
        MenuStep::Stay
    }
}

/// The status message that reports how writing the default file ended.
pub open spec fn init_status(outcome: InitOutcome) -> StatusView {
    match outcome {
        InitOutcome::Created(path) => StatusView {
            message: "✓ 已创建配置文件: "@ + path@,
            is_error: false,
        },
        InitOutcome::AlreadyExists(path) => StatusView {
            message: "配置文件已存在: "@ + path@,
            is_error: false,
        },
        InitOutcome::Failed(reason) => StatusView {
            message: "✗ 错误: "@ + reason@,
            is_error: true,
        },
    }
}

/// The status message that reports on a configuration that was loaded, or on
/// the reason why none could be.
pub open spec fn check_status(loaded: Result<Config, String>) -> StatusView {
    match loaded {
        Ok(config) => match config.first_duplicate() {
            None => StatusView { message: "✓ 配置文件有效!"@, is_error: false },
            Some(id) => StatusView {
                message: "✗ 无效: "@ + (ConfigError::DuplicateSegment(id)).message_text(),
                is_error: true,
            },
        },
        Err(reason) => StatusView { message: "✗ 加载失败: "@ + reason@, is_error: true },
    }
}

/// The entries of the menu: title and description.
pub open spec fn menu_entries() -> Seq<(Seq<char>, Seq<char>)> {
    seq![
        (" 配置模式"@, "进入 TUI 配置界面"@),
        (" 初始化配置"@, "创建默认配置文件"@),
        (" 检查配置"@, "验证配置文件"@),
        (" 关于"@, "显示应用信息"@),
        (" 退出"@, "退出 GLMCode"@),
    ]
}

/// The views of a list of pairs of texts.
pub open spec fn entry_views(entries: Seq<(&'static str, &'static str)>) -> Seq<
    (Seq<char>, Seq<char>),
> {
    Seq::new(entries.len(), |i: int| (entries[i].0@, entries[i].1@))
}

impl Default for MainMenu {
    fn default() -> (r: Self)
        ensures
            r@ == initial_menu(),
    {
        MainMenu { selected_item: 0, should_quit: false, show_about: false, status_message: None }
    }
}

impl MainMenu {
    /// The menu before any key: the first entry selected, nothing else set.
    pub fn new() -> (r: Self)
        ensures
            r@ == initial_menu(),
    {
        MainMenu { selected_item: 0, should_quit: false, show_about: false, status_message: None }
    }

    /// The entries of the menu.
    pub fn get_menu_items(&self) -> (r: Vec<(&'static str, &'static str)>)
        ensures
            entry_views(r@) == menu_entries(),
            r@.len() == MENU_LENGTH,
    {
        let items = vec![
            (" 配置模式", "进入 TUI 配置界面"),
            (" 初始化配置", "创建默认配置文件"),
            (" 检查配置", "验证配置文件"),
            (" 关于", "显示应用信息"),
            (" 退出", "退出 GLMCode"),
        ];
        assert(entry_views(items@) =~= menu_entries());
        items
    }

    /// Acts on the chosen entry.
    pub fn handle_selection(&mut self) -> (r: MenuStep)
        ensures
            r == selection_step(old(self)@.selected_item),
            final(self)@ == after_selection(old(self)@),
    {
        match self.selected_item {
            0 => MenuStep::Leave(MenuResult::LaunchConfigurator),
            1 => MenuStep::Run(MenuTask::InitConfig),
            2 => MenuStep::Run(MenuTask::CheckConfig),
            3 => {
                self.show_about = true;
                MenuStep::Stay
            },
            4 => MenuStep::Leave(MenuResult::Exit),
            _ => MenuStep::Leave(MenuResult::Exit),
        }
    }

    /// Takes one input event.
    pub fn handle_key(&mut self, key: MenuKey, pressed: bool) -> (r: MenuStep)
        ensures
            final(self)@ == menu_after(old(self)@, key, pressed),
            r == menu_step(old(self)@, key, pressed),
    {
        if !pressed {
            return MenuStep::Stay;
        }
        if self.show_about {
            self.show_about = false;
            return MenuStep::Stay;
        }
        self.status_message = None;
        match key {
            MenuKey::Esc => {
                self.should_quit = true;
            },
            MenuKey::Char(c) => {
                if c == 'q' {
                    self.should_quit = true;
                }
            },
            MenuKey::Up => {
                if self.selected_item > 0 {
                    self.selected_item -= 1;
                }
            },
            MenuKey::Down => {
                if self.selected_item < MENU_LENGTH - 1 {
                    self.selected_item += 1;
                }
            },
            MenuKey::Enter => {
                let step = self.handle_selection();
                match step {
                    MenuStep::Stay => {},
                    _ => {
                        return step;
                    },
                }
            },
            MenuKey::Other => {},
        }
        if self.should_quit {
            MenuStep::Leave(MenuResult::Exit)
        } else {
            MenuStep::Stay
        }
    }

    /// Takes the host's report on writing the default configuration file.
    pub fn report_init(&mut self, outcome: InitOutcome)
        ensures
            final(self)@ == (MenuView {
                status_message: Some(init_status(outcome)),
                ..old(self)@
            }),
    {
        let status = match outcome {
            InitOutcome::Created(path) => {
                let mut message = String::from_str("✓ 已创建配置文件: ");
                message.append(path.as_str());
                StatusMessage { message, is_error: false }
            },
            InitOutcome::AlreadyExists(path) => {
                let mut message = String::from_str("配置文件已存在: ");
                message.append(path.as_str());
                StatusMessage { message, is_error: false }
            },
            InitOutcome::Failed(reason) => {
                let mut message = String::from_str("✗ 错误: ");
                message.append(reason.as_str());
                StatusMessage { message, is_error: true }
            },
        };
        self.status_message = Some(status);
    }

    /// Takes the host's report on loading the configuration file, and checks
    /// what was loaded.
    pub fn report_check(&mut self, loaded: Result<Config, String>)
        ensures
            final(self)@ == (MenuView {
                status_message: Some(check_status(loaded)),
                ..old(self)@
            }),
    {
        let status = match loaded {
            Ok(config) => match config.check() {
                Ok(()) => StatusMessage {
                    message: String::from_str("✓ 配置文件有效!"),
                    is_error: false,
                },
                Err(e) => {
                    let mut message = String::from_str("✗ 无效: ");
                    message.append(e.message().as_str());
                    StatusMessage { message, is_error: true }
                },
            },
            Err(reason) => {
                let mut message = String::from_str("✗ 加载失败: ");
                message.append(reason.as_str());
                StatusMessage { message, is_error: true }
            },
        };
        self.status_message = Some(status);
    }
}

/// One entry of the menu as drawn: its text, and the style of the whole
/// row.
#[derive(Debug)]
pub struct MenuRow {
    pub content: Line,
    pub style: Style,
}

/// What a `MenuRow` holds.
pub struct MenuRowView {
    pub content: Seq<SpanView>,
    pub style: Style,
}

impl View for MenuRow {
    type V = MenuRowView;

    open spec fn view(&self) -> MenuRowView {
        MenuRowView { content: self.content@, style: self.style }
    }
}

/// The views of a list of rows, from top to bottom.
pub open spec fn row_views(rows: Seq<MenuRow>) -> Seq<MenuRowView> {
    Seq::new(rows.len(), |i: int| rows[i]@)
}

/// What the menu draws: header, entries with the cursor, footer of the given
/// height, and the about dialog while it shows.
#[derive(Debug)]
pub struct MenuScreen {
    pub header: Vec<Line>,
    pub rows: Vec<MenuRow>,
    pub selected: usize,
    pub footer_height: u16,
    pub footer: Vec<Line>,
    pub about: Option<Vec<Line>>,
}

/// The header: the product name with its version, and what it is.
pub open spec fn header_lines(version: Seq<char>) -> Seq<Seq<SpanView>> {
    seq![
        seq![
            styled_text("GLMCode"@, Style::bold_colored(Color::Cyan)),
            styled_text(" v"@, Style::colored(Color::Gray)),
            styled_text(version, Style::colored(Color::Yellow)),
        ],
        Seq::<SpanView>::empty(),
        seq![styled_text("高性能状态栏配置工具"@, Style::colored(Color::Gray))],
    ]
}

/// The style of an entry: black on cyan under the cursor, else white.
pub open spec fn row_style(selected: bool) -> Style {
    if selected {
        Style::on(Color::Black, Color::Cyan)
    } else {
        Style::colored(Color::White)
    }
}

/// An entry as drawn: its title in the row's style, its description in gray.
pub open spec fn menu_row(entry: (Seq<char>, Seq<char>), selected: bool) -> MenuRowView {
    MenuRowView {
        content: seq![
            styled_text(entry.0, row_style(selected)),
            styled_text(" - "@ + entry.1, Style::colored(Color::Gray)),
        ],
        style: row_style(selected),
    }
}

/// The entries as drawn, the cursor on entry `selected`.
pub open spec fn menu_rows(selected: int) -> Seq<MenuRowView> {
    Seq::new(menu_entries().len(), |i: int| menu_row(menu_entries()[i], i == selected))
}

/// The key hints of the footer.
pub open spec fn footer_hints() -> Seq<SpanView> {
    seq![
        styled_text("[↑↓]"@, Style::bold_colored(Color::Yellow)),
        styled_text(" 导航  "@, Style::colored(Color::Gray)),
        styled_text("[Enter]"@, Style::bold_colored(Color::Yellow)),
        styled_text(" 选择  "@, Style::colored(Color::Gray)),
        styled_text("[Esc/Q]"@, Style::bold_colored(Color::Yellow)),
        styled_text(" 退出"@, Style::colored(Color::Gray)),
    ]
}

/// The footer: the key hints; below them, after an empty line, the status
/// message, red for an error and green otherwise.
pub open spec fn footer_lines(status: Option<StatusView>) -> Seq<Seq<SpanView>> {
    match status {
        Some(s) => seq![
            footer_hints(),
            Seq::<SpanView>::empty(),
            seq![
                styled_text(
                    s.message,
                    Style::colored(
                        if s.is_error {
                            Color::Red
                        } else {
                            Color::Green
                        },
                    ),
                ),
            ],
        ],
        None => seq![footer_hints()],
    }
}

/// The height of the footer: five rows with a status message, else three.
pub open spec fn footer_rows(status: Option<StatusView>) -> u16 {
    if status is Some {
        5
    } else {
        3
    }
}

/// The text of the about dialog.
pub open spec fn about_lines(version: Seq<char>) -> Seq<Seq<SpanView>> {
    seq![
        Seq::<SpanView>::empty(),
        seq![
            styled_text("GLMCode "@, Style::bold_colored(Color::Cyan)),
            styled_text("v"@, Style::colored(Color::Gray)),
            styled_text(version, Style::colored(Color::Yellow)),
        ],
        Seq::<SpanView>::empty(),
        seq![styled_text("功能特性:"@, Style::bold_colored(Color::Green))],
        seq![plain_text("• 🎨 TUI 配置界面"@)],
        seq![plain_text("• 🎯 多种内置主题"@)],
        seq![plain_text("• ⚡ 实时用量追踪"@)],
        seq![plain_text("• 💰 费用监控"@)],
        seq![plain_text("• 📊 会话统计"@)],
        seq![plain_text("• 🎨 Nerd Font 支持"@)],
        seq![plain_text("• 🔧 高度可定制"@)],
        Seq::<SpanView>::empty(),
        seq![styled_text("按任意键继续..."@, Style::colored(Color::Yellow))],
    ]
}

/// A line of one run of text.
fn single(content: &str, style: Style) -> (r: Line)
    ensures
        r@ == seq![styled_text(content@, style)],
{
    let line = Line { spans: vec![Span::of(content, style)] };
    assert(line@ =~= seq![styled_text(content@, style)]);
    line
}

/// An empty line.
fn blank_line() -> (r: Line)
    ensures
        r@ == Seq::<SpanView>::empty(),
{
    let line = Line { spans: Vec::new() };
    assert(line@ =~= Seq::<SpanView>::empty());
    line
}

impl MainMenu {
    /// The header for a version.
    pub fn header(version: &str) -> (r: Vec<Line>)
        ensures
            line_views(r@) == header_lines(version@),
    {
        let name = Line {
            spans: vec![
                Span::of("GLMCode", Style { fg: Some(Color::Cyan), bg: None, bold: true }),
                Span::of(" v", Style::fg(Color::Gray)),
                Span::of(version, Style::fg(Color::Yellow)),
            ],
        };
        assert(name@ =~= header_lines(version@)[0]);
        let lines = vec![
            name,
            blank_line(),
            single("高性能状态栏配置工具", Style::fg(Color::Gray)),
        ];
        assert(line_views(lines@) =~= header_lines(version@));
        lines
    }

    /// The entries as drawn.
    pub fn rows(&self) -> (r: Vec<MenuRow>)
        ensures
            row_views(r@) == menu_rows(self.selected_item as int),
    {
        let items = self.get_menu_items();
        let mut rows: Vec<MenuRow> = Vec::new();
        let mut i: usize = 0;
        while i < items.len()
            invariant
                i <= items.len(),
                entry_views(items@) == menu_entries(),
                rows@.len() == i,
                forall|j: int|
                    0 <= j < i ==> (#[trigger] rows@[j])@ == menu_row(
                        menu_entries()[j],
                        j == self.selected_item,
                    ),
            decreases items.len() - i,
        {
            let style = if i == self.selected_item {
                Style { fg: Some(Color::Black), bg: Some(Color::Cyan), bold: false }
            } else {
                Style::fg(Color::White)
            };
            let mut detail = String::from_str(" - ");
            detail.append(items[i].1);
            let content = Line {
                spans: vec![
                    Span::of(items[i].0, style),
                    Span::styled(detail, Style::fg(Color::Gray)),
                ],
            };
            proof {
                assert(entry_views(items@)[i as int] == (items@[i as int].0@, items@[i as int].1@));
                let want = menu_row(menu_entries()[i as int], i == self.selected_item);
                assert(content@ =~= want.content);
            }
            rows.push(MenuRow { content, style });
            i += 1;
        }
        assert(row_views(rows@) =~= menu_rows(self.selected_item as int));
        rows
    }

    /// The footer.
    pub fn footer(&self) -> (r: Vec<Line>)
        ensures
            line_views(r@) == footer_lines(self@.status_message),
    {
        let key = Style { fg: Some(Color::Yellow), bg: None, bold: true };
        let hints = Line {
            spans: vec![
                Span::of("[↑↓]", key),
                Span::of(" 导航  ", Style::fg(Color::Gray)),
                Span::of("[Enter]", key),
                Span::of(" 选择  ", Style::fg(Color::Gray)),
                Span::of("[Esc/Q]", key),
                Span::of(" 退出", Style::fg(Color::Gray)),
            ],
        };
        assert(hints@ =~= footer_hints());
        match &self.status_message {
            Some(status) => {
                let color = if status.is_error {
                    Color::Red
                } else {
                    Color::Green
                };
                let lines = vec![
                    hints,
                    blank_line(),
                    single(status.message.as_str(), Style::fg(color)),
                ];
                assert(line_views(lines@) =~= footer_lines(self@.status_message));
                lines
            },
            None => {
                let lines = vec![hints];
                assert(line_views(lines@) =~= footer_lines(self@.status_message));
                lines
            },
        }
    }

    /// The text of the about dialog for a version.
    pub fn render_about_dialog(version: &str) -> (r: Vec<Line>)
        ensures
            line_views(r@) == about_lines(version@),
    {
        let name = Line {
            spans: vec![
                Span::of("GLMCode ", Style { fg: Some(Color::Cyan), bg: None, bold: true }),
                Span::of("v", Style::fg(Color::Gray)),
                Span::of(version, Style::fg(Color::Yellow)),
            ],
        };
        assert(name@ =~= about_lines(version@)[1]);
        let lines = vec![
            blank_line(),
            name,
            blank_line(),
            single("功能特性:", Style { fg: Some(Color::Green), bg: None, bold: true }),
            single("• 🎨 TUI 配置界面", Style::new()),
            single("• 🎯 多种内置主题", Style::new()),
            single("• ⚡ 实时用量追踪", Style::new()),
            single("• 💰 费用监控", Style::new()),
            single("• 📊 会话统计", Style::new()),
            single("• 🎨 Nerd Font 支持", Style::new()),
            single("• 🔧 高度可定制", Style::new()),
            blank_line(),
            single("按任意键继续...", Style::fg(Color::Yellow)),
        ];
        assert(line_views(lines@) =~= about_lines(version@));
        lines
    }

    /// What the menu draws, for a product version.
    pub fn ui(&self, version: &str) -> (r: MenuScreen)
        ensures
            line_views(r.header@) == header_lines(version@),
            row_views(r.rows@) == menu_rows(self.selected_item as int),
            r.selected == self.selected_item,
            r.footer_height == footer_rows(self@.status_message),
            line_views(r.footer@) == footer_lines(self@.status_message),
            match r.about {
                Some(lines) => self.show_about && line_views(lines@) == about_lines(version@),
                None => !self.show_about,
            },
    {
        let footer_height: u16 = if self.status_message.is_some() {
            5
        } else {
            3
        };
        let about = if self.show_about {
            Some(Self::render_about_dialog(version))
        } else {
            None
        };
        MenuScreen {
            header: Self::header(version),
            rows: self.rows(),
            selected: self.selected_item,
            footer_height,
            footer: self.footer(),
            about,
        }
    }
}

} // verus!
