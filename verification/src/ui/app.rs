//! The configuration editor: a state machine over the configuration, driven
//! key by key, with a color picker and an icon selector as modal states.

use vstd::prelude::*;
use vstd::string::StringExecFns;
use crate::config::types::distinct_ids;
use crate::config::types::ConfigView;
use crate::config::AnsiColor;
use crate::config::ColorTarget;
use crate::config::Config;
use crate::ui::components::segment_list::FieldSelection;
use crate::ui::components::segment_list::Panel;
use crate::ui::main_menu::StatusMessage;
use crate::ui::main_menu::StatusView;
use crate::ui::themes::modified_from_theme;
use crate::ui::themes::preset_index;
use crate::ui::themes::presets_well_formed;
use crate::ui::themes::registered;
use crate::ui::themes::resolved;
use crate::ui::themes::ThemePresets;

verus! {

/// The number of glyphs the icon selector offers for each font.
pub const ICON_CHOICES: usize = 8;

/// The palette the color picker is showing.
#[derive(Debug, Clone, Copy, PartialEq, Eq, Structural)]
pub enum PickerMode {
    /// The 16-color palette.
    Basic,
    /// The 256-color palette.
    Indexed,
}

/// The modal state of the editor: at most one picker is open.
#[allow(inconsistent_fields)]
#[derive(Debug, Clone, Copy, PartialEq, Eq, Structural)]
pub enum Modal {
    NoModal,
    ColorPicker { target: ColorTarget, mode: PickerMode, cursor: u8 },
    IconSelector { nerd_font: bool, cursor: usize },
}

/// A key of the keyboard, as far as the editor tells keys apart.
#[derive(Debug, Clone, Copy, PartialEq, Eq, Structural)]
pub enum EditorKey {
    Up,
    Down,
    ShiftUp,
    ShiftDown,
    Tab,
    Enter,
    Esc,
    CtrlS,
    Char(char),
    Other,
}

/// A text that the editor asks its host to get from the user.
#[derive(Debug, Clone, Copy, PartialEq, Eq, Structural)]
pub enum Prompt {
    Separator,
    ThemeName,
    CustomIcon,
}

/// What the host is to do after a transition.
#[derive(Debug, Clone, Copy, PartialEq, Eq, Structural)]
pub enum EditorAction {
    /// Nothing but to redraw.
    Continue,
    /// Get a text from the user and hand it to `submit_text`.
    Ask(Prompt),
    /// Write the configuration to storage and report through `report_saved`.
    SaveConfig,
    /// Write the preset named by the configuration's theme to storage and
    /// report through `report_saved`.
    WriteTheme,
    /// Leave the editor.
    Quit,
}

/// The editor.
#[derive(Debug)]
pub struct Configurator {
    pub config: Config,
    pub presets: ThemePresets,
    pub selected_segment: usize,
    pub selected_panel: Panel,
    pub selected_field: FieldSelection,
    pub modal: Modal,
    pub status_message: Option<StatusMessage>,
    pub should_quit: bool,
}

/// What a `Configurator` holds.
pub struct EditorView {
    pub config: ConfigView,
    pub presets: Seq<ConfigView>,
    pub selected_segment: usize,
    pub selected_panel: Panel,
    pub selected_field: FieldSelection,
    pub modal: Modal,
    pub status_message: Option<StatusView>,
    pub should_quit: bool,
}

impl View for Configurator {
    type V = EditorView;

    open spec fn view(&self) -> EditorView {
        EditorView {
            config: self.config@,
            presets: self.presets@,
            selected_segment: self.selected_segment,
            selected_panel: self.selected_panel,
            selected_field: self.selected_field,
            modal: self.modal,
            status_message: match self.status_message {
                Some(status) => Some(status@),
                None => None,
            },
            should_quit: self.should_quit,
        }
    }
}

/// The field above `field` in the settings panel; the first stays.
pub open spec fn field_before(field: FieldSelection) -> FieldSelection {
    match field {
        FieldSelection::Enabled => FieldSelection::Enabled,
        FieldSelection::Icon => FieldSelection::Enabled,
        FieldSelection::IconColor => FieldSelection::Icon,
        FieldSelection::TextColor => FieldSelection::IconColor,
        FieldSelection::BackgroundColor => FieldSelection::TextColor,
        FieldSelection::TextStyle => FieldSelection::BackgroundColor,
        FieldSelection::Options => FieldSelection::TextStyle,
    }
}

/// The field below `field` in the settings panel; the last stays.
pub open spec fn field_after(field: FieldSelection) -> FieldSelection {
    match field {
        FieldSelection::Enabled => FieldSelection::Icon,
        FieldSelection::Icon => FieldSelection::IconColor,
        FieldSelection::IconColor => FieldSelection::TextColor,
        FieldSelection::TextColor => FieldSelection::BackgroundColor,
        FieldSelection::BackgroundColor => FieldSelection::TextStyle,
        FieldSelection::TextStyle => FieldSelection::Options,
        FieldSelection::Options => FieldSelection::Options,
    }
}

/// The glyph that the icon selector offers at position `cursor`.
pub open spec fn icon_choice(nerd_font: bool, cursor: usize) -> Seq<char> {
    if nerd_font {
        if cursor == 0 {
            "\u{e26d}"@
        } else if cursor == 1 {
            "\u{f024b}"@
        } else if cursor == 2 {
            "\u{f02a2}"@
        } else if cursor == 3 {
            "\u{f49b}"@
        } else if cursor == 4 {
            "\u{f0a9e}"@
        } else if cursor == 5 {
            "\u{f19bb}"@
        } else if cursor == 6 {
            "\u{f12f5}"@
        } else {
            "\u{f4a8}"@
        }
    } else {
        if cursor == 0 {
            "🤖"@
        } else if cursor == 1 {
            "📁"@
        } else if cursor == 2 {
            "🌿"@
        } else if cursor == 3 {
            "⚡"@
        } else if cursor == 4 {
            "📊"@
        } else if cursor == 5 {
            "⏱️"@
        } else if cursor == 6 {
            "🎯"@
        } else {
            "🔄"@
        }
    }
}

/// The color under the cursor of the color picker.
pub open spec fn picked_color(mode: PickerMode, cursor: u8) -> AnsiColor {
    match mode {
        PickerMode::Basic => AnsiColor::Color16 { c16: cursor },
        PickerMode::Indexed => AnsiColor::Color256 { c256: cursor },
    }
}

/// The last position of a palette.
pub open spec fn last_of(mode: PickerMode) -> u8 {
    match mode {
        PickerMode::Basic => 15,
        PickerMode::Indexed => 255,
    }
}

/// A selection kept within a list of `len` segments.
pub open spec fn clamped(selected: usize, len: nat) -> usize {
    if selected < len {
        selected
    } else if len == 0 {
        0
    } else {
        (len - 1) as usize
    }
}

impl EditorView {
    /// The invariant of the editor: configuration and catalog are
    /// well-formed, the selection points at a segment unless there is none,
    /// the cursor of a picker is within what it offers, and a picker is open
    /// only over the settings panel of an existing segment.
    pub open spec fn well_formed(self) -> bool {
        &&& distinct_ids(self.config.segments)
        &&& presets_well_formed(self.presets)
        &&& self.selected_segment == clamped(self.selected_segment, self.config.segments.len())
        &&& match self.modal {
            Modal::NoModal => true,
            Modal::ColorPicker { target, mode, cursor } => cursor <= last_of(mode)
                && self.selected_panel == Panel::Settings && self.selected_segment
                < self.config.segments.len(),
            Modal::IconSelector { nerd_font, cursor } => cursor < ICON_CHOICES
                && self.selected_panel == Panel::Settings && self.selected_segment
                < self.config.segments.len(),
        }
    }

    /// The editor with another configuration: the selection is kept within
    /// it, and no picker stays open over it.
    pub open spec fn with_config(self, config: ConfigView) -> EditorView {
        EditorView {
            config,
            selected_segment: clamped(self.selected_segment, config.segments.len()),
            modal: Modal::NoModal,
            ..self
        }
    }

    /// The selected segment's settings.
    pub open spec fn segment(self) -> crate::config::types::SegmentConfigView {
        self.config.segments[self.selected_segment as int]
    }

    /// The editor after a theme of the catalog was applied by name.
    pub open spec fn themed(self, name: Seq<char>) -> EditorView {
        self.with_config(resolved(self.presets, name))
    }

    /// The editor after the preset at position `index` was applied;
    /// unchanged when the catalog has no such position.
    pub open spec fn themed_at(self, index: int) -> EditorView {
        if 0 <= index < self.presets.len() {
            self.with_config(self.presets[index])
        } else {
            self
        }
    }

    /// The editor after the theme following the active one in the catalog
    /// was applied, the first following the last; the first when the active
    /// theme is not in the catalog.
    pub open spec fn next_theme(self) -> EditorView {
        match preset_index(self.presets, self.config.theme) {
            Some(i) => if i + 1 < self.presets.len() {
                self.themed_at(i + 1)
            } else {
                self.themed_at(0)
            },
            None => self.themed_at(0),
        }
    }

    /// The editor after Enter in the settings panel: flags are inverted,
    /// glyph and colors open their picker, options are left alone. Nothing
    /// happens without a segment.
    pub open spec fn field_entered(self) -> EditorView {
        let i = self.selected_segment as int;
        if self.selected_segment >= self.config.segments.len() {
            self
        } else {
            match self.selected_field {
                FieldSelection::Enabled => EditorView {
                    config: self.config.with_segment(i, self.segment().toggled()),
                    ..self
                },
                FieldSelection::Icon => EditorView {
                    modal: Modal::IconSelector { nerd_font: false, cursor: 0 },
                    ..self
                },
                FieldSelection::IconColor => EditorView {
                    modal: Modal::ColorPicker {
                        target: ColorTarget::Icon,
                        mode: PickerMode::Basic,
                        cursor: 0,
                    },
                    ..self
                },
                FieldSelection::TextColor => EditorView {
                    modal: Modal::ColorPicker {
                        target: ColorTarget::Text,
                        mode: PickerMode::Basic,
                        cursor: 0,
                    },
                    ..self
                },
                FieldSelection::BackgroundColor => EditorView {
                    modal: Modal::ColorPicker {
                        target: ColorTarget::Background,
                        mode: PickerMode::Basic,
                        cursor: 0,
                    },
                    ..self
                },
                FieldSelection::TextStyle => EditorView {
                    config: self.config.with_segment(i, self.segment().bold_toggled()),
                    ..self
                },
                FieldSelection::Options => self,
            }
        }
    }

    /// The editor after a key while no picker is open.
    pub open spec fn after_main_key(self, key: EditorKey) -> EditorView {
        let i = self.selected_segment as int;
        let in_list = self.selected_panel == Panel::SegmentList;
        match key {
            EditorKey::Tab => EditorView {
                selected_panel: if in_list {
                    Panel::Settings
                } else {
                    Panel::SegmentList
                },
                ..self
            },
            EditorKey::Up => if in_list {
                EditorView {
                    selected_segment: if self.selected_segment > 0 {
                        (self.selected_segment - 1) as usize
                    } else {
                        self.selected_segment
                    },
                    ..self
                }
            } else {
                EditorView { selected_field: field_before(self.selected_field), ..self }
            },
            EditorKey::Down => if in_list {
                EditorView {
                    selected_segment: if self.selected_segment + 1 < self.config.segments.len() {
                        (self.selected_segment + 1) as usize
                    } else {
                        self.selected_segment
                    },
                    ..self
                }
            } else {
                EditorView { selected_field: field_after(self.selected_field), ..self }
            },
            EditorKey::ShiftUp => if in_list && 0 < i < self.config.segments.len() {
                EditorView {
                    config: self.config.moved_up(i),
                    selected_segment: (i - 1) as usize,
                    ..self
                }
            } else {
                self
            },
            EditorKey::ShiftDown => if in_list && i + 1 < self.config.segments.len() {
                EditorView {
                    config: self.config.moved_down(i),
                    selected_segment: (i + 1) as usize,
                    ..self
                }
            } else {
                self
            },
            EditorKey::Enter => if in_list {
                EditorView {
                    config: self.config.with_segment(i, self.segment().toggled()),
                    ..self
                }
            } else {
                self.field_entered()
            },
            EditorKey::Esc => EditorView { should_quit: true, ..self },
            EditorKey::CtrlS => self,
            EditorKey::Char(c) => if c == '1' {
                self.themed_at(0)
            } else if c == '2' {
                self.themed_at(1)
            } else if c == '3' {
                self.themed_at(2)
            } else if c == '4' {
                self.themed_at(3)
            } else if c == 'p' || c == 'P' {
                self.next_theme()
            } else if c == 'r' || c == 'R' {
                self.themed(self.config.theme)
            } else if c == 'w' || c == 'W' {
                EditorView { presets: registered(self.presets, self.config), ..self }
            } else {
                self
            },
            EditorKey::Other => self,
        }
    }

    /// What the host is to do after a key while no picker is open.
    pub open spec fn main_action(self, key: EditorKey) -> EditorAction {
        match key {
            EditorKey::Esc => EditorAction::Quit,
            EditorKey::CtrlS => EditorAction::Ask(Prompt::ThemeName),
            EditorKey::Char(c) => if c == 'e' || c == 'E' {
                EditorAction::Ask(Prompt::Separator)
            } else if c == 's' || c == 'S' {
                EditorAction::SaveConfig
            } else if c == 'w' || c == 'W' {
                EditorAction::WriteTheme
            } else {
                EditorAction::Continue
            },
            _ => EditorAction::Continue,
        }
    }

    /// The editor after a key while the color picker is open: the arrows
    /// move the cursor within the palette, Tab changes the palette, Enter
    /// writes the color under the cursor into the targeted field and closes
    /// the picker, Esc closes it and writes nothing.
    pub open spec fn after_color_key(
        self,
        target: ColorTarget,
        mode: PickerMode,
        cursor: u8,
        key: EditorKey,
    ) -> EditorView {
        match key {
            EditorKey::Up => EditorView {
                modal: Modal::ColorPicker {
                    target,
                    mode,
                    cursor: if cursor > 0 {
                        (cursor - 1) as u8
                    } else {
                        cursor
                    },
                },
                ..self
            },
            EditorKey::Down => EditorView {
                modal: Modal::ColorPicker {
                    target,
                    mode,
                    cursor: if cursor < last_of(mode) {
                        (cursor + 1) as u8
                    } else {
                        cursor
                    },
                },
                ..self
            },
            EditorKey::Tab => EditorView {
                modal: Modal::ColorPicker {
                    target,
                    mode: if mode == PickerMode::Basic {
                        PickerMode::Indexed
                    } else {
                        PickerMode::Basic
                    },
                    cursor: 0,
                },
                ..self
            },
            EditorKey::Enter => EditorView {
                config: self.config.with_segment(
                    self.selected_segment as int,
                    self.segment().with_color(target, Some(picked_color(mode, cursor))),
                ),
                modal: Modal::NoModal,
                ..self
            },
            EditorKey::Esc => EditorView { modal: Modal::NoModal, ..self },
            _ => self,
        }
    }

    /// The editor after a key while the icon selector is open: the arrows
    /// move the cursor, Tab changes between the plain and the enhanced
    /// glyph, Enter writes the glyph under the cursor and closes the
    /// selector, Esc closes it and writes nothing.
    pub open spec fn after_icon_key(self, nerd_font: bool, cursor: usize, key: EditorKey)
        -> EditorView {
        match key {
            EditorKey::Up => EditorView {
                modal: Modal::IconSelector {
                    nerd_font,
                    cursor: if cursor > 0 {
                        (cursor - 1) as usize
                    } else {
                        cursor
                    },
                },
                ..self
            },
            EditorKey::Down => EditorView {
                modal: Modal::IconSelector {
                    nerd_font,
                    cursor: if cursor + 1 < ICON_CHOICES {
                        (cursor + 1) as usize
                    } else {
                        cursor
                    },
                },
                ..self
            },
            EditorKey::Tab => EditorView {
                modal: Modal::IconSelector { nerd_font: !nerd_font, cursor },
                ..self
            },
            EditorKey::Enter => EditorView {
                config: self.config.with_segment(
                    self.selected_segment as int,
                    self.segment().with_icon(nerd_font, icon_choice(nerd_font, cursor)),
                ),
                modal: Modal::NoModal,
                ..self
            },
            EditorKey::Esc => EditorView { modal: Modal::NoModal, ..self },
            _ => self,
        }
    }

    /// The editor after a key: the status message is cleared, then the key
    /// goes to the open picker, or to the panels when none is open.
    pub open spec fn after_key(self, key: EditorKey) -> EditorView {
        let cleared = EditorView { status_message: None, ..self };
        match self.modal {
            Modal::NoModal => cleared.after_main_key(key),
            Modal::ColorPicker { target, mode, cursor } => cleared.after_color_key(
                target,
                mode,
                cursor,
                key,
            ),
            Modal::IconSelector { nerd_font, cursor } => cleared.after_icon_key(
                nerd_font,
                cursor,
                key,
            ),
        }
    }

    /// What the host is to do after a key.
    pub open spec fn action(self, key: EditorKey) -> EditorAction {
        match self.modal {
            Modal::NoModal => self.main_action(key),
            Modal::ColorPicker { .. } => EditorAction::Continue,
            Modal::IconSelector { .. } => match key {
                EditorKey::Char(c) => if c == 'c' || c == 'C' {
                    EditorAction::Ask(Prompt::CustomIcon)
                } else {
                    EditorAction::Continue
                },
                _ => EditorAction::Continue,
            },
        }
    }

    /// The editor after the host handed in a text it was asked for. An empty
    /// text changes nothing. A separator replaces the separator. A theme
    /// name becomes the name of the configuration, which is registered as a
    /// preset under it. A custom glyph is written as the icon selector would
    /// write one, and closes it; without an open icon selector it is
    /// dropped.
    pub open spec fn after_text(self, prompt: Prompt, text: Seq<char>) -> EditorView {
        if text.len() == 0 {
            self
        } else {
            match prompt {
                Prompt::Separator => EditorView {
                    config: self.config.with_separator(text),
                    ..self
                },
                Prompt::ThemeName => {
                    let named = ConfigView { theme: text, ..self.config };
                    EditorView {
                        config: named,
                        presets: registered(self.presets, named),
                        ..self
                    }
                },
                Prompt::CustomIcon => match self.modal {
                    Modal::IconSelector { nerd_font, cursor } => EditorView {
                        config: self.config.with_segment(
                            self.selected_segment as int,
                            self.segment().with_icon(nerd_font, text),
                        ),
                        modal: Modal::NoModal,
                        ..self
                    },
                    _ => self,
                },
            }
        }
    }

    /// What the host is to do after it handed in a text: write the new
    /// preset after a theme name, else nothing.
    pub open spec fn text_action(self, prompt: Prompt, text: Seq<char>) -> EditorAction {
        if text.len() > 0 && prompt == Prompt::ThemeName {
            EditorAction::WriteTheme
        } else {
            EditorAction::Continue
        }
    }
}

/// The status message that reports how a write ended.
pub open spec fn save_status(result: Result<(), String>) -> StatusView {
    match result {
        Ok(_) => StatusView { message: "✓ 已保存"@, is_error: false },
        Err(reason) => StatusView { message: "✗ 保存失败: "@ + reason@, is_error: true },
    }
}

/// The field above `field`.
pub fn previous_field(field: FieldSelection) -> (r: FieldSelection)
    ensures
        r == field_before(field),
{
    match field {
        FieldSelection::Enabled => FieldSelection::Enabled,
        FieldSelection::Icon => FieldSelection::Enabled,
        FieldSelection::IconColor => FieldSelection::Icon,
        FieldSelection::TextColor => FieldSelection::IconColor,
        FieldSelection::BackgroundColor => FieldSelection::TextColor,
        FieldSelection::TextStyle => FieldSelection::BackgroundColor,
        FieldSelection::Options => FieldSelection::TextStyle,
    }
}

/// The field below `field`.
pub fn next_field(field: FieldSelection) -> (r: FieldSelection)
    ensures
        r == field_after(field),
{
    match field {
        FieldSelection::Enabled => FieldSelection::Icon,
        FieldSelection::Icon => FieldSelection::IconColor,
        FieldSelection::IconColor => FieldSelection::TextColor,
        FieldSelection::TextColor => FieldSelection::BackgroundColor,
        FieldSelection::BackgroundColor => FieldSelection::TextStyle,
        FieldSelection::TextStyle => FieldSelection::Options,
        FieldSelection::Options => FieldSelection::Options,
    }
}

/// The glyph that the icon selector offers at position `cursor`.
pub fn icon_at(nerd_font: bool, cursor: usize) -> (r: &'static str)
    ensures
        r@ == icon_choice(nerd_font, cursor),
{
    if nerd_font {
        match cursor {
            0 => "\u{e26d}",
            1 => "\u{f024b}",
            2 => "\u{f02a2}",
            3 => "\u{f49b}",
            4 => "\u{f0a9e}",
            5 => "\u{f19bb}",
            6 => "\u{f12f5}",
            _ => "\u{f4a8}",
        }
    } else {
        match cursor {
            0 => "🤖",
            1 => "📁",
            2 => "🌿",
            3 => "⚡",
            4 => "📊",
            5 => "⏱️",
            6 => "🎯",
            _ => "🔄",
        }
    }
}

impl Configurator {
    /// The invariant of the editor.
    pub open spec fn well_formed(&self) -> bool {
        self@.well_formed()
    }

    /// An editor over a catalog, starting from the preset that `theme`
    /// resolves to, with the first segment selected in the segment list.
    pub fn new(presets: ThemePresets, theme: &str) -> (r: Self)
        requires
            presets.well_formed(),
        ensures
            r@ == (EditorView {
                config: resolved(presets@, theme@),
                presets: presets@,
                selected_segment: 0,
                selected_panel: Panel::SegmentList,
                selected_field: FieldSelection::Enabled,
                modal: Modal::NoModal,
                status_message: None,
                should_quit: false,
            }),
            r.well_formed(),
            !modified_from_theme(r@.presets, r@.config),
    {
        let config = presets.get_theme(theme);
        proof {
            crate::ui::themes::lemma_resolved_is_unmodified(presets@, theme@);
        }
        Configurator {
            config,
            presets,
            selected_segment: 0,
            selected_panel: Panel::SegmentList,
            selected_field: FieldSelection::Enabled,
            modal: Modal::NoModal,
            status_message: None,
            should_quit: false,
        }
    }

    /// Whether the configuration differs from its theme; derived anew at
    /// each call, never stored.
    pub fn is_modified(&self) -> (r: bool)
        ensures
            r == modified_from_theme(self@.presets, self@.config),
    {
        self.config.is_modified_from_theme(&self.presets)
    }

    /// Keeps the selection within the segments and closes any picker.
    fn settle(&mut self)
        ensures
            final(self)@ == old(self)@.with_config(old(self)@.config),
    {
        self.modal = Modal::NoModal;
        let len: usize = self.config.segments.len();
        if self.selected_segment >= len {
            self.selected_segment = if len == 0 {
                0
            } else {
                len - 1
            };
        }
    }

    /// Replaces the segments and the style by those of the preset that
    /// `name` resolves to, and the theme name by that preset's; the result
    /// is not modified from its theme.
    pub fn apply_theme(&mut self, name: &str)
        requires
            old(self).well_formed(),
        ensures
            final(self)@ == old(self)@.themed(name@),
            final(self).well_formed(),
            !modified_from_theme(final(self)@.presets, final(self)@.config),
    {
        proof {
            crate::ui::themes::lemma_resolved_is_unmodified(self@.presets, name@);
        }
        self.config = self.presets.get_theme(name);
        self.settle();
    }

    /// Applies the preset at position `index` of the catalog, if there is
    /// one.
    pub fn apply_theme_at(&mut self, index: usize)
        requires
            old(self).well_formed(),
        ensures
            final(self)@ == old(self)@.themed_at(index as int),
            final(self).well_formed(),
    {
        if index < self.presets.presets.len() {
            assert(self@.presets[index as int] == self.presets.presets@[index as int]@);
            self.config = self.presets.presets[index].clone();
            self.settle();
        }
    }

    /// Applies the theme that follows the active one in the catalog.
    pub fn cycle_theme(&mut self)
        requires
            old(self).well_formed(),
        ensures
            final(self)@ == old(self)@.next_theme(),
            final(self).well_formed(),
    {
        let count: usize = self.presets.presets.len();
        let next: usize = match self.presets.find(self.config.theme.as_str()) {
            Some(i) => if i + 1 < count {
                i + 1
            } else {
                0
            },
            None => 0,
        };
        self.apply_theme_at(next);
    }

    /// Acts on Enter in the settings panel.
    fn enter_field(&mut self)
        requires
            old(self).well_formed(),
            old(self).modal == Modal::NoModal,
            old(self).selected_panel == Panel::Settings,
        ensures
            final(self)@ == old(self)@.field_entered(),
            final(self).well_formed(),
    {
        if self.selected_segment >= self.config.segments.len() {
            return ;
        }
        match self.selected_field {
            FieldSelection::Enabled => {
                self.config.toggle_enabled(self.selected_segment);
            },
            FieldSelection::Icon => {
                self.modal = Modal::IconSelector { nerd_font: false, cursor: 0 };
            },
            FieldSelection::IconColor => {
                self.modal = Modal::ColorPicker {
                    target: ColorTarget::Icon,
                    mode: PickerMode::Basic,
                    cursor: 0,
                };
            },
            FieldSelection::TextColor => {
                self.modal = Modal::ColorPicker {
                    target: ColorTarget::Text,
                    mode: PickerMode::Basic,
                    cursor: 0,
                };
            },
            FieldSelection::BackgroundColor => {
                self.modal = Modal::ColorPicker {
                    target: ColorTarget::Background,
                    mode: PickerMode::Basic,
                    cursor: 0,
                };
            },
            FieldSelection::TextStyle => {
                self.config.toggle_bold(self.selected_segment);
            },
            FieldSelection::Options => {},
        }
    }

    /// Takes a key while no picker is open.
    fn handle_main_key(&mut self, key: EditorKey) -> (r: EditorAction)
        requires
            old(self).well_formed(),
            old(self).modal == Modal::NoModal,
        ensures
            final(self)@ == old(self)@.after_main_key(key),
            r == old(self)@.main_action(key),
            final(self).well_formed(),
    {
        let in_list: bool = match self.selected_panel {
            Panel::SegmentList => true,
            Panel::Settings => false,
        };
        match key {
            EditorKey::Tab => {
                self.selected_panel = if in_list {
                    Panel::Settings
                } else {
                    Panel::SegmentList
                };
                EditorAction::Continue
            },
            EditorKey::Up => {
                if in_list {
                    if self.selected_segment > 0 {
                        self.selected_segment -= 1;
                    }
                } else {
                    self.selected_field = previous_field(self.selected_field);
                }
                EditorAction::Continue
            },
            EditorKey::Down => {
                if in_list {
                    if self.selected_segment < self.config.segments.len()
                        && self.selected_segment + 1 < self.config.segments.len() {
                        self.selected_segment += 1;
                    }
                } else {
                    self.selected_field = next_field(self.selected_field);
                }
                EditorAction::Continue
            },
            EditorKey::ShiftUp => {
                if in_list && self.selected_segment > 0 && self.selected_segment
                    < self.config.segments.len() {
                    self.selected_segment = self.config.move_segment_up(self.selected_segment);
                }
                EditorAction::Continue
            },
            EditorKey::ShiftDown => {
                if in_list && self.selected_segment < self.config.segments.len()
                    && self.selected_segment + 1 < self.config.segments.len() {
                    self.selected_segment = self.config.move_segment_down(self.selected_segment);
                }
                EditorAction::Continue
            },
            EditorKey::Enter => {
                if in_list {
                    self.config.toggle_enabled(self.selected_segment);
                } else {
                    self.enter_field();
                }
                EditorAction::Continue
            },
            EditorKey::Esc => {
                self.should_quit = true;
                EditorAction::Quit
            },
            EditorKey::CtrlS => EditorAction::Ask(Prompt::ThemeName),
            EditorKey::Char(c) => {
                if c == '1' {
                    self.apply_theme_at(0);
                    EditorAction::Continue
                } else if c == '2' {
                    self.apply_theme_at(1);
                    EditorAction::Continue
                } else if c == '3' {
                    self.apply_theme_at(2);
                    EditorAction::Continue
                } else if c == '4' {
                    self.apply_theme_at(3);
                    EditorAction::Continue
                } else if c == 'p' || c == 'P' {
                    self.cycle_theme();
                    EditorAction::Continue
                } else if c == 'r' || c == 'R' {
                    let name = self.config.theme.clone();
                    self.apply_theme(name.as_str());
                    EditorAction::Continue
                } else if c == 'e' || c == 'E' {
                    EditorAction::Ask(Prompt::Separator)
                } else if c == 's' || c == 'S' {
                    EditorAction::SaveConfig
                } else if c == 'w' || c == 'W' {
                    self.presets.register(self.config.clone());
                    EditorAction::WriteTheme
                } else {
                    EditorAction::Continue
                }
            },
            EditorKey::Other => EditorAction::Continue,
        }
    }

    /// Takes one key.
    pub fn handle_key(&mut self, key: EditorKey) -> (r: EditorAction)
        requires
            old(self).well_formed(),
        ensures
            final(self)@ == old(self)@.after_key(key),
            r == old(self)@.action(key),
            final(self).well_formed(),
    {
        self.status_message = None;
        match self.modal {
            Modal::NoModal => self.handle_main_key(key),
            Modal::ColorPicker { target, mode, cursor } => {
                match key {
                    EditorKey::Up => {
                        let moved: u8 = if cursor > 0 {
                            cursor - 1
                        } else {
                            cursor
                        };
                        self.modal = Modal::ColorPicker { target, mode, cursor: moved };
                    },
                    EditorKey::Down => {
                        let last: u8 = match mode {
                            PickerMode::Basic => 15,
                            PickerMode::Indexed => 255,
                        };
                        let moved: u8 = if cursor < last {
                            cursor + 1
                        } else {
                            cursor
                        };
                        self.modal = Modal::ColorPicker { target, mode, cursor: moved };
                    },
                    EditorKey::Tab => {
                        let other = match mode {
                            PickerMode::Basic => PickerMode::Indexed,
                            PickerMode::Indexed => PickerMode::Basic,
                        };
                        self.modal = Modal::ColorPicker { target, mode: other, cursor: 0 };
                    },
                    EditorKey::Enter => {
                        let color = match mode {
                            PickerMode::Basic => AnsiColor::Color16 { c16: cursor },
                            PickerMode::Indexed => AnsiColor::Color256 { c256: cursor },
                        };
                        self.config.set_color(self.selected_segment, target, Some(color));
                        self.modal = Modal::NoModal;
                    },
                    EditorKey::Esc => {
                        self.modal = Modal::NoModal;
                    },
                    _ => {},
                }
                EditorAction::Continue
            },
            Modal::IconSelector { nerd_font, cursor } => {
                match key {
                    EditorKey::Up => {
                        let moved: usize = if cursor > 0 {
                            cursor - 1
                        } else {
                            cursor
                        };
                        self.modal = Modal::IconSelector { nerd_font, cursor: moved };
                        EditorAction::Continue
                    },
                    EditorKey::Down => {
                        let moved: usize = if cursor + 1 < ICON_CHOICES {
                            cursor + 1
                        } else {
                            cursor
                        };
                        self.modal = Modal::IconSelector { nerd_font, cursor: moved };
                        EditorAction::Continue
                    },
                    EditorKey::Tab => {
                        self.modal = Modal::IconSelector { nerd_font: !nerd_font, cursor };
                        EditorAction::Continue
                    },
                    EditorKey::Enter => {
                        self.config.set_icon(
                            self.selected_segment,
                            nerd_font,
                            icon_at(nerd_font, cursor).to_owned(),
                        );
                        self.modal = Modal::NoModal;
                        EditorAction::Continue
                    },
                    EditorKey::Esc => {
                        self.modal = Modal::NoModal;
                        EditorAction::Continue
                    },
                    EditorKey::Char(c) => {
                        if c == 'c' || c == 'C' {
                            EditorAction::Ask(Prompt::CustomIcon)
                        } else {
                            EditorAction::Continue
                        }
                    },
                    _ => EditorAction::Continue,
                }
            },
        }
    }

    /// Takes a text that the host was asked for.
    pub fn submit_text(&mut self, prompt: Prompt, text: String) -> (r: EditorAction)
        requires
            old(self).well_formed(),
        ensures
            final(self)@ == old(self)@.after_text(prompt, text@),
            r == old(self)@.text_action(prompt, text@),
            final(self).well_formed(),
    {
        if text.as_str().unicode_len() == 0 {
            return EditorAction::Continue;
        }
        match prompt {
            Prompt::Separator => {
                self.config.set_separator(text);
                EditorAction::Continue
            },
            Prompt::ThemeName => {
                self.config.theme = text;
                self.presets.register(self.config.clone());
                EditorAction::WriteTheme
            },
            Prompt::CustomIcon => {
                match self.modal {
                    Modal::IconSelector { nerd_font, cursor } => {
                        self.config.set_icon(self.selected_segment, nerd_font, text);
                        self.modal = Modal::NoModal;
                    },
                    _ => {},
                }
                EditorAction::Continue
            },
        }
    }

    /// Takes the host's report on a write: the outcome becomes the status
    /// message, and nothing else changes.
    pub fn report_saved(&mut self, result: Result<(), String>)
        ensures
            final(self)@ == (EditorView {
                status_message: Some(save_status(result)),
                ..old(self)@
            }),
    {
        let status = match result {
            Ok(()) => StatusMessage { message: String::from_str("✓ 已保存"), is_error: false },
            Err(reason) => {
                let mut message = String::from_str("✗ 保存失败: ");
                message.append(reason.as_str());
                StatusMessage { message, is_error: true }
            },
        };
        self.status_message = Some(status);
    }
}

} // verus!
