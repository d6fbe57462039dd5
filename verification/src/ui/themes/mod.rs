//! Theme presets: named, complete configurations.

pub mod theme_gruvbox;

use vstd::prelude::*;
use crate::config::types::distinct_ids;
use crate::config::types::ConfigView;
use crate::config::types::SegmentConfigView;
use crate::config::Config;
use crate::config::SegmentConfig;
use crate::config::StyleConfig;

verus! {

/// The catalog of presets: the built-in ones first, then those registered
/// since.
#[derive(Debug)]
pub struct ThemePresets {
    pub presets: Vec<Config>,
}

/// The views of a list of configurations, in order.
pub open spec fn config_views(configs: Seq<Config>) -> Seq<ConfigView> {
    Seq::new(configs.len(), |i: int| configs[i]@)
}

impl View for ThemePresets {
    type V = Seq<ConfigView>;

    open spec fn view(&self) -> Seq<ConfigView> {
        config_views(self.presets@)
    }
}

/// The position of the first preset from `start` on that is named `name`.
pub open spec fn preset_index_from(presets: Seq<ConfigView>, name: Seq<char>, start: int)
    -> Option<int>
    decreases presets.len() - start,
{
    if start < 0 || start >= presets.len() {
        None
    } else if presets[start].theme == name {
        Some(start)
    } else {
        preset_index_from(presets, name, start + 1)
    }
}

/// The position of the first preset named `name`.
pub open spec fn preset_index(presets: Seq<ConfigView>, name: Seq<char>) -> Option<int> {
    preset_index_from(presets, name, 0)
}

/// The segments of the Gruvbox preset, in render order.
pub open spec fn gruvbox_segments() -> Seq<SegmentConfigView> {
    seq![
        theme_gruvbox::model_view(),
        theme_gruvbox::directory_view(),
        theme_gruvbox::git_view(),
        theme_gruvbox::context_window_view(),
        theme_gruvbox::session_view(),
        theme_gruvbox::output_style_view(),
        theme_gruvbox::usage_view(),
        theme_gruvbox::glm_usage_view(),
        theme_gruvbox::decode_speed_view(),
    ]
}

/// The Gruvbox preset.
pub open spec fn gruvbox_view() -> ConfigView {
    ConfigView { separator: " | "@, segments: gruvbox_segments(), theme: "gruvbox"@ }
}

/// The preset that a catalog resolves `name` to: the first one of that name;
/// when there is none, what it resolves `gruvbox` to, which is the built-in
/// Gruvbox preset unless the catalog holds one of its own.
pub open spec fn resolved(presets: Seq<ConfigView>, name: Seq<char>) -> ConfigView {
    match preset_index(presets, name) {
        Some(i) => presets[i],
        None => match preset_index(presets, "gruvbox"@) {
            Some(j) => presets[j],
            None => gruvbox_view(),
        },
    }
}

/// Whether every preset of a catalog has each segment kind at most once.
pub open spec fn presets_well_formed(presets: Seq<ConfigView>) -> bool {
    forall|i: int| 0 <= i < presets.len() ==> distinct_ids((#[trigger] presets[i]).segments)
}

/// Whether a configuration differs from the preset that its theme name
/// resolves to.
pub open spec fn modified_from_theme(presets: Seq<ConfigView>, config: ConfigView) -> bool {
    !config.same_payload(resolved(presets, config.theme))
}

/// The names of a list of presets, in order.
pub open spec fn preset_names(presets: Seq<ConfigView>) -> Seq<Seq<char>> {
    Seq::new(presets.len(), |i: int| presets[i].theme)
}

/// The views of a list of texts, in order.
pub open spec fn text_views(texts: Seq<String>) -> Seq<Seq<char>> {
    Seq::new(texts.len(), |i: int| texts[i]@)
}

/// A catalog to which a preset was registered: the preset stands in place of
/// the first one of its name, or at the end when the name is new.
pub open spec fn registered(presets: Seq<ConfigView>, preset: ConfigView) -> Seq<ConfigView> {
    match preset_index(presets, preset.theme) {
        Some(i) => presets.update(i, preset),
        None => presets.push(preset),
    }
}

/// A search from `start` finds a position at or after `start` that holds the
/// name, with no earlier such position from `start` on; or finds none
/// because none holds it.
pub proof fn lemma_preset_index_from(presets: Seq<ConfigView>, name: Seq<char>, start: int)
    requires
        0 <= start,
    ensures
        match preset_index_from(presets, name, start) {
            Some(i) => start <= i < presets.len() && presets[i].theme == name && forall|j: int|
                start <= j < i ==> (#[trigger] presets[j]).theme != name,
            None => forall|j: int|
                start <= j < presets.len() ==> (#[trigger] presets[j]).theme != name,
        },
    decreases presets.len() - start,
{
    if start < presets.len() && presets[start].theme != name {
        lemma_preset_index_from(presets, name, start + 1);
    }
}

/// A preset that was registered is what its name resolves to.
pub proof fn lemma_registered_resolves(presets: Seq<ConfigView>, preset: ConfigView)
    ensures
        resolved(registered(presets, preset), preset.theme) == preset,
{
    let after = registered(presets, preset);
    lemma_preset_index_from(presets, preset.theme, 0);
    lemma_preset_index_from(after, preset.theme, 0);
    match preset_index(presets, preset.theme) {
        Some(i) => {
            assert(after[i].theme == preset.theme);
            assert forall|j: int| 0 <= j < i implies (#[trigger] after[j]).theme
                != preset.theme by {
                assert(after[j] == presets[j]);
            }
        },
        None => {
            let n = presets.len() as int;
            assert(after[n].theme == preset.theme);
            assert forall|j: int| 0 <= j < n implies (#[trigger] after[j]).theme
                != preset.theme by {
                assert(after[j] == presets[j]);
            }
        },
    }
}

/// What a name resolves to is a preset that its own name resolves to: a
/// configuration fresh from a theme is not modified from it.
pub proof fn lemma_resolved_is_unmodified(presets: Seq<ConfigView>, name: Seq<char>)
    ensures
        resolved(presets, resolved(presets, name).theme) == resolved(presets, name),
        !modified_from_theme(presets, resolved(presets, name)),
{
    lemma_preset_index_from(presets, name, 0);
    lemma_preset_index_from(presets, "gruvbox"@, 0);
}

/// After a theme was applied, a configuration that differs from it in the
/// separator or in any segment, and still names it, is modified.
pub proof fn lemma_edit_after_apply_is_modified(
    presets: Seq<ConfigView>,
    name: Seq<char>,
    edited: ConfigView,
)
    requires
        edited.theme == resolved(presets, name).theme,
        !edited.same_payload(resolved(presets, name)),
    ensures
        modified_from_theme(presets, edited),
{
    lemma_resolved_is_unmodified(presets, name);
}

/// After a theme was applied, inverting the enabled flag or the bold flag of
/// any one segment makes the configuration modified.
pub proof fn lemma_flag_edit_after_apply_is_modified(
    presets: Seq<ConfigView>,
    name: Seq<char>,
    i: int,
)
    requires
        0 <= i < resolved(presets, name).segments.len(),
    ensures
        modified_from_theme(
            presets,
            resolved(presets, name).with_segment(
                i,
                resolved(presets, name).segments[i].toggled(),
            ),
        ),
        modified_from_theme(
            presets,
            resolved(presets, name).with_segment(
                i,
                resolved(presets, name).segments[i].bold_toggled(),
            ),
        ),
{
    let fresh = resolved(presets, name);
    let segment = fresh.segments[i];
    crate::config::edit::lemma_flag_edits_change(segment);
    crate::config::edit::lemma_edits_change_payload(fresh, i, segment.toggled(), fresh.separator);
    crate::config::edit::lemma_edits_change_payload(
        fresh,
        i,
        segment.bold_toggled(),
        fresh.separator,
    );
    lemma_edit_after_apply_is_modified(presets, name, fresh.with_segment(i, segment.toggled()));
    lemma_edit_after_apply_is_modified(
        presets,
        name,
        fresh.with_segment(i, segment.bold_toggled()),
    );
}

/// What a well-formed catalog resolves a name to is well-formed.
pub proof fn lemma_resolved_well_formed(presets: Seq<ConfigView>, name: Seq<char>)
    requires
        presets_well_formed(presets),
    ensures
        distinct_ids(resolved(presets, name).segments),
{
    lemma_preset_index_from(presets, name, 0);
    lemma_preset_index_from(presets, "gruvbox"@, 0);
    lemma_gruvbox_distinct();
}

/// The segments of Gruvbox are of nine different kinds.
pub proof fn lemma_gruvbox_distinct()
    ensures
        distinct_ids(gruvbox_segments()),
{
}

impl ThemePresets {
    /// The Gruvbox preset.
    pub fn get_gruvbox() -> (r: Config)
        ensures
            r@ == gruvbox_view(),
            r.well_formed(),
    {
        let mut segments: Vec<SegmentConfig> = Vec::new();
        segments.push(theme_gruvbox::model_segment());
        segments.push(theme_gruvbox::directory_segment());
        segments.push(theme_gruvbox::git_segment());
        segments.push(theme_gruvbox::context_window_segment());
        segments.push(theme_gruvbox::session_segment());
        segments.push(theme_gruvbox::output_style_segment());
        segments.push(theme_gruvbox::usage_segment());
        segments.push(theme_gruvbox::glm_usage_segment());
        segments.push(theme_gruvbox::decode_speed_segment());
        let config = Config {
            style: StyleConfig { separator: " | ".to_owned() },
            segments,
            theme: "gruvbox".to_owned(),
        };
        proof {
            assert(config@.segments =~= gruvbox_segments());
            lemma_gruvbox_distinct();
        }
        config
    }

    /// The catalog of the built-in presets.
    pub fn builtin() -> (r: Self)
        ensures
            r@ == seq![gruvbox_view()],
            r.well_formed(),
    {
        let mut presets: Vec<Config> = Vec::new();
        presets.push(Self::get_gruvbox());
        assert(config_views(presets@) =~= seq![gruvbox_view()]);
        ThemePresets { presets }
    }

    /// The position of the first preset named `name`.
    pub fn find(&self, name: &str) -> (r: Option<usize>)
        ensures
            match r {
                Some(i) => preset_index(self@, name@) == Some(i as int) && i < self.presets@.len(),
                None => preset_index(self@, name@) is None,
            },
    {
        let wanted: String = name.to_owned();
        let mut i: usize = 0;
        while i < self.presets.len()
            invariant
                i <= self.presets.len(),
                wanted@ == name@,
                preset_index(self@, name@) == preset_index_from(self@, name@, i as int),
            decreases self.presets.len() - i,
        {
            if self.presets[i].theme == wanted {
                return Some(i);
            }
            i += 1;
        }
        None
    }

    /// The names of the presets, in catalog order.
    pub fn list_available_themes(&self) -> (r: Vec<String>)
        ensures
            text_views(r@) == preset_names(self@),
    {
        let mut names: Vec<String> = Vec::new();
        let mut i: usize = 0;
        while i < self.presets.len()
            invariant
                i <= self.presets.len(),
                names@.len() == i,
                forall|j: int| 0 <= j < i ==> (#[trigger] names@[j])@ == self.presets@[j].theme@,
            decreases self.presets.len() - i,
        {
            names.push(self.presets[i].theme.clone());
            i += 1;
        }
        assert(text_views(names@) =~= preset_names(self@));
        names
    }

    /// The invariant of a catalog: each preset is a well-formed
    /// configuration.
    pub open spec fn well_formed(&self) -> bool {
        presets_well_formed(self@)
    }

    /// The preset named `name`; when the catalog has none of that name, its
    /// Gruvbox, or the built-in one.
    pub fn get_theme(&self, name: &str) -> (r: Config)
        ensures
            r@ == resolved(self@, name@),
            self.well_formed() ==> r.well_formed(),
    {
        proof {
            if self.well_formed() {
                lemma_resolved_well_formed(self@, name@);
            }
        }
        match self.find(name) {
            Some(i) => self.presets[i].clone(),
            None => {
                match self.find("gruvbox") {
                    Some(j) => self.presets[j].clone(),
                    None => Self::get_gruvbox(),
                }
            },
        }
    }

    /// Registers `preset` under its theme name, in place of an earlier preset
    /// of that name.
    pub fn register(&mut self, preset: Config)
        ensures
            final(self)@ == registered(old(self)@, preset@),
            old(self).well_formed() && preset.well_formed() ==> final(self).well_formed(),
    {
        match self.find(preset.theme.as_str()) {
            Some(i) => {
                self.presets.set(i, preset);
                assert(self@ =~= registered(old(self)@, preset@));
            },
            None => {
                self.presets.push(preset);
                assert(self@ =~= registered(old(self)@, preset@));
            },
        }
        proof {
            if old(self).well_formed() && preset.well_formed() {
                assert forall|k: int| 0 <= k < self@.len() implies distinct_ids(
                    (#[trigger] self@[k]).segments,
                ) by {
                    if self@[k] != preset@ {
                        assert(self@[k] == old(self)@[k]);
                    }
                }
            }
        }
    }
}

impl Config {
    /// Whether the configuration differs from the preset that its theme name
    /// resolves to, in the separator or in any field of any segment.
    pub fn is_modified_from_theme(&self, presets: &ThemePresets) -> (r: bool)
        ensures
            r == modified_from_theme(presets@, self@),
    {
        let preset = presets.get_theme(self.theme.as_str());
        !self.matches(&preset)
    }
}

} // verus!
