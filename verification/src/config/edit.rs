//! The edits of a configuration: each changes one thing, keeps every segment
//! kind unique, and says what the configuration is afterwards.

use vstd::prelude::*;
use crate::config::types::distinct_ids;
use crate::config::types::ConfigView;
use crate::config::types::IconView;
use crate::config::types::SegmentConfigView;
use crate::config::AnsiColor;
use crate::config::ColorConfig;
use crate::config::Config;
use crate::config::TextStyleConfig;

verus! {

/// The three colors of a segment.
#[derive(Debug, Clone, Copy, PartialEq, Eq, Structural)]
pub enum ColorTarget {
    Icon,
    Text,
    Background,
}

impl SegmentConfigView {
    /// The settings with the enabled flag inverted.
    pub open spec fn toggled(self) -> SegmentConfigView {
        SegmentConfigView { enabled: !self.enabled, ..self }
    }

    /// The settings with the bold flag inverted.
    pub open spec fn bold_toggled(self) -> SegmentConfigView {
        SegmentConfigView {
            styles: TextStyleConfig { text_bold: !self.styles.text_bold },
            ..self
        }
    }

    /// The settings with one of the two glyphs replaced.
    pub open spec fn with_icon(self, nerd_font: bool, glyph: Seq<char>) -> SegmentConfigView {
        if nerd_font {
            SegmentConfigView { icon: IconView { nerd_font: glyph, ..self.icon }, ..self }
        } else {
            SegmentConfigView { icon: IconView { plain: glyph, ..self.icon }, ..self }
        }
    }

    /// The settings with one of the three colors replaced.
    pub open spec fn with_color(self, target: ColorTarget, color: Option<AnsiColor>)
        -> SegmentConfigView {
        match target {
            ColorTarget::Icon => SegmentConfigView {
                colors: ColorConfig { icon: color, ..self.colors },
                ..self
            },
            ColorTarget::Text => SegmentConfigView {
                colors: ColorConfig { text: color, ..self.colors },
                ..self
            },
            ColorTarget::Background => SegmentConfigView {
                colors: ColorConfig { background: color, ..self.colors },
                ..self
            },
        }
    }

    /// The color that `target` names.
    pub open spec fn color(self, target: ColorTarget) -> Option<AnsiColor> {
        match target {
            ColorTarget::Icon => self.colors.icon,
            ColorTarget::Text => self.colors.text,
            ColorTarget::Background => self.colors.background,
        }
    }
}

impl ConfigView {
    /// The configuration with the segment at position `i` replaced; unchanged
    /// when there is no such position.
    pub open spec fn with_segment(self, i: int, segment: SegmentConfigView) -> ConfigView {
        if 0 <= i < self.segments.len() {
            ConfigView { segments: self.segments.update(i, segment), ..self }
        } else {
            self
        }
    }

    /// The configuration with the segments at positions `i` and `j`
    /// exchanged.
    pub open spec fn swapped(self, i: int, j: int) -> ConfigView {
        ConfigView {
            segments: self.segments.update(i, self.segments[j]).update(j, self.segments[i]),
            ..self
        }
    }

    /// The configuration with the segment at position `i` moved one place
    /// up; unchanged for the first position and beyond the last.
    pub open spec fn moved_up(self, i: int) -> ConfigView {
        if 0 < i < self.segments.len() {
            self.swapped(i - 1, i)
        } else {
            self
        }
    }

    /// The configuration with the segment at position `i` moved one place
    /// down; unchanged from the last position on.
    pub open spec fn moved_down(self, i: int) -> ConfigView {
        if 0 <= i < self.segments.len() - 1 {
            self.swapped(i, i + 1)
        } else {
            self
        }
    }

    /// The configuration with another separator.
    pub open spec fn with_separator(self, separator: Seq<char>) -> ConfigView {
        ConfigView { separator, ..self }
    }
}

/// Replacing a segment by one of the same kind keeps the kinds unique.
pub proof fn lemma_update_keeps_distinct(
    segments: Seq<SegmentConfigView>,
    i: int,
    segment: SegmentConfigView,
)
    requires
        distinct_ids(segments),
        0 <= i < segments.len(),
        segment.id == segments[i].id,
    ensures
        distinct_ids(segments.update(i, segment)),
{
    let after = segments.update(i, segment);
    assert forall|a: int, b: int| 0 <= a < b < after.len() implies (#[trigger] after[a]).id != (
    #[trigger] after[b]).id by {
        assert(after[a].id == segments[a].id);
        assert(after[b].id == segments[b].id);
    }
}

/// Exchanging two segments keeps the kinds unique.
pub proof fn lemma_swap_keeps_distinct(config: ConfigView, i: int, j: int)
    requires
        distinct_ids(config.segments),
        0 <= i < config.segments.len(),
        0 <= j < config.segments.len(),
    ensures
        distinct_ids(config.swapped(i, j).segments),
{
    let before = config.segments;
    let after = config.swapped(i, j).segments;
    let back = |k: int|
        if k == i {
            j
        } else if k == j {
            i
        } else {
            k
        };
    assert forall|a: int, b: int| 0 <= a < b < after.len() implies (#[trigger] after[a]).id != (
    #[trigger] after[b]).id by {
        assert(after[a] == before[back(a)]);
        assert(after[b] == before[back(b)]);
        assert(back(a) != back(b));
        if back(a) < back(b) {
            assert(before[back(a)].id != before[back(b)].id);
        } else {
            assert(before[back(b)].id != before[back(a)].id);
        }
    }
}

/// Moving a segment up from a position other than the first changes the
/// configuration, and moving it back down restores it.
pub proof fn lemma_move_up_then_down(config: ConfigView, i: int)
    requires
        distinct_ids(config.segments),
        0 < i < config.segments.len(),
    ensures
        !config.moved_up(i).same_payload(config),
        config.moved_up(i).moved_down(i - 1) == config,
{
    let up = config.moved_up(i);
    assert(config.segments[i - 1].id != config.segments[i].id);
    assert(up.segments[i] == config.segments[i - 1]);
    assert(up.moved_down(i - 1).segments =~= config.segments);
}

/// Inverting a flag of a segment always gives other settings.
pub proof fn lemma_flag_edits_change(segment: SegmentConfigView)
    ensures
        segment.toggled() != segment,
        segment.bold_toggled() != segment,
{
}

/// Writing a color or a glyph gives other settings unless the field held
/// that value before.
pub proof fn lemma_value_edits_change(
    segment: SegmentConfigView,
    target: ColorTarget,
    color: Option<AnsiColor>,
    nerd_font: bool,
    glyph: Seq<char>,
)
    ensures
        color != segment.color(target) ==> segment.with_color(target, color) != segment,
        glyph != (if nerd_font {
            segment.icon.nerd_font
        } else {
            segment.icon.plain
        }) ==> segment.with_icon(nerd_font, glyph) != segment,
{
}

/// Replacing a segment by other settings changes the configuration, and so
/// does another separator.
pub proof fn lemma_edits_change_payload(
    config: ConfigView,
    i: int,
    segment: SegmentConfigView,
    separator: Seq<char>,
)
    ensures
        0 <= i < config.segments.len() && segment != config.segments[i]
            ==> !config.with_segment(i, segment).same_payload(config),
        separator != config.separator ==> !config.with_separator(separator).same_payload(config),
{
    if 0 <= i < config.segments.len() && segment != config.segments[i] {
        assert(config.with_segment(i, segment).segments[i] == segment);
    }
}

impl Config {
    /// Inverts the enabled flag of the segment at position `i`.
    pub fn toggle_enabled(&mut self, i: usize)
        ensures
            final(self)@ == old(self)@.with_segment(
                i as int,
                old(self)@.segments[i as int].toggled(),
            ),
            old(self).well_formed() ==> final(self).well_formed(),
    {
        if i < self.segments.len() {
            let ghost before = self.segments@[i as int]@;
            let enabled = self.segments[i].enabled;
            self.segments[i].enabled = !enabled;
            proof {
                assert(self.segments@[i as int]@ == before.toggled());
                assert(self@.segments =~= old(self)@.segments.update(i as int, before.toggled()));
                if old(self).well_formed() {
                    lemma_update_keeps_distinct(old(self)@.segments, i as int, before.toggled());
                }
            }
        }
    }

    /// Inverts the bold flag of the segment at position `i`.
    pub fn toggle_bold(&mut self, i: usize)
        ensures
            final(self)@ == old(self)@.with_segment(
                i as int,
                old(self)@.segments[i as int].bold_toggled(),
            ),
            old(self).well_formed() ==> final(self).well_formed(),
    {
        if i < self.segments.len() {
            let ghost before = self.segments@[i as int]@;
            let bold = self.segments[i].styles.text_bold;
            self.segments[i].styles.text_bold = !bold;
            proof {
                assert(self.segments@[i as int]@ == before.bold_toggled());
                assert(self@.segments =~= old(self)@.segments.update(
                    i as int,
                    before.bold_toggled(),
                ));
                if old(self).well_formed() {
                    lemma_update_keeps_distinct(
                        old(self)@.segments,
                        i as int,
                        before.bold_toggled(),
                    );
                }
            }
        }
    }

    /// Replaces one of the two glyphs of the segment at position `i`.
    pub fn set_icon(&mut self, i: usize, nerd_font: bool, glyph: String)
        ensures
            final(self)@ == old(self)@.with_segment(
                i as int,
                old(self)@.segments[i as int].with_icon(nerd_font, glyph@),
            ),
            old(self).well_formed() ==> final(self).well_formed(),
    {
        if i < self.segments.len() {
            let ghost before = self.segments@[i as int]@;
            if nerd_font {
                self.segments[i].icon.nerd_font = glyph;
            } else {
                self.segments[i].icon.plain = glyph;
            }
            proof {
                let after = before.with_icon(nerd_font, glyph@);
                assert(self.segments@[i as int]@ == after);
                assert(self@.segments =~= old(self)@.segments.update(i as int, after));
                if old(self).well_formed() {
                    lemma_update_keeps_distinct(old(self)@.segments, i as int, after);
                }
            }
        }
    }

    /// Replaces one of the three colors of the segment at position `i`.
    pub fn set_color(&mut self, i: usize, target: ColorTarget, color: Option<AnsiColor>)
        ensures
            final(self)@ == old(self)@.with_segment(
                i as int,
                old(self)@.segments[i as int].with_color(target, color),
            ),
            old(self).well_formed() ==> final(self).well_formed(),
    {
        if i < self.segments.len() {
            let ghost before = self.segments@[i as int]@;
            match target {
                ColorTarget::Icon => {
                    self.segments[i].colors.icon = color;
                },
                ColorTarget::Text => {
                    self.segments[i].colors.text = color;
                },
                ColorTarget::Background => {
                    self.segments[i].colors.background = color;
                },
            }
            proof {
                let after = before.with_color(target, color);
                assert(self.segments@[i as int]@ == after);
                assert(self@.segments =~= old(self)@.segments.update(i as int, after));
                if old(self).well_formed() {
                    lemma_update_keeps_distinct(old(self)@.segments, i as int, after);
                }
            }
        }
    }

    /// Moves the segment at position `i` one place up and returns where it
    /// stands afterwards.
    pub fn move_segment_up(&mut self, i: usize) -> (r: usize)
        ensures
            final(self)@ == old(self)@.moved_up(i as int),
            r == if 0 < i < old(self)@.segments.len() {
                i - 1
            } else {
                i as int
            },
            old(self).well_formed() ==> final(self).well_formed(),
    {
        if i > 0 && i < self.segments.len() {
            let segment = self.segments.remove(i);
            self.segments.insert(i - 1, segment);
            proof {
                assert(self@.segments =~= old(self)@.moved_up(i as int).segments);
                if old(self).well_formed() {
                    lemma_swap_keeps_distinct(old(self)@, i - 1, i as int);
                }
            }
            i - 1
        } else {
            i
        }
    }

    /// Moves the segment at position `i` one place down and returns where it
    /// stands afterwards.
    pub fn move_segment_down(&mut self, i: usize) -> (r: usize)
        ensures
            final(self)@ == old(self)@.moved_down(i as int),
            r == if 0 <= i < old(self)@.segments.len() - 1 {
                i + 1
            } else {
                i as int
            },
            old(self).well_formed() ==> final(self).well_formed(),
    {
        if self.segments.len() > 0 && i < self.segments.len() - 1 {
            let segment = self.segments.remove(i);
            self.segments.insert(i + 1, segment);
            proof {
                assert(self@.segments =~= old(self)@.moved_down(i as int).segments);
                if old(self).well_formed() {
                    lemma_swap_keeps_distinct(old(self)@, i as int, i + 1);
                }
            }
            i + 1
        } else {
            i
        }
    }

    /// Replaces the separator.
    pub fn set_separator(&mut self, separator: String)
        ensures
            final(self)@ == old(self)@.with_separator(separator@),
            old(self).well_formed() ==> final(self).well_formed(),
    {
        self.style.separator = separator;
    }
}

} // verus!
