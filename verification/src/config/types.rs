//! Segment and whole-process configuration types, each with its mathematical
//! view, and the structural comparison between two configurations.

use vstd::prelude::*;
use vstd::string::StringExecFns;
use crate::text::same_text;
use crate::ui::components::segment_list::segment_label;
use crate::ui::components::segment_list::segment_name;
use crate::api::GlmApiConfig;
use crate::api::GlmModelPerformance;
use crate::api::GlmQuotaLimit;

verus! {

/// The closed set of indicators a status line can show.
#[derive(Debug, Clone, Copy, PartialEq, Eq, Hash, Structural)]
pub enum SegmentId {
    Model,
    Directory,
    Git,
    ContextWindow,
    Usage,
    Session,
    OutputStyle,
    Update,
    GlmUsage,
    DecodeSpeed,
}

impl SegmentId {
    /// The name a segment kind is stored under.
    pub open spec fn name_text(self) -> Seq<char> {
        match self {
            SegmentId::Model => "model"@,
            SegmentId::Directory => "directory"@,
            SegmentId::Git => "git"@,
            SegmentId::ContextWindow => "context_window"@,
            SegmentId::Usage => "usage"@,
            SegmentId::Session => "session"@,
            SegmentId::OutputStyle => "output_style"@,
            SegmentId::Update => "update"@,
            SegmentId::GlmUsage => "glm_usage"@,
            SegmentId::DecodeSpeed => "decode_speed"@,
        }
    }

    /// The segment kind stored under `name`, if there is one.
    pub open spec fn named(name: Seq<char>) -> Option<SegmentId> {
        if name == "model"@ {
            Some(SegmentId::Model)
        } else if name == "directory"@ {
            Some(SegmentId::Directory)
        } else if name == "git"@ {
            Some(SegmentId::Git)
        } else if name == "context_window"@ {
            Some(SegmentId::ContextWindow)
        } else if name == "usage"@ {
            Some(SegmentId::Usage)
        } else if name == "session"@ {
            Some(SegmentId::Session)
        } else if name == "output_style"@ {
            Some(SegmentId::OutputStyle)
        } else if name == "update"@ {
            Some(SegmentId::Update)
        } else if name == "glm_usage"@ {
            Some(SegmentId::GlmUsage)
        } else if name == "decode_speed"@ {
            Some(SegmentId::DecodeSpeed)
        } else {
            None
        }
    }

    /// The name a segment kind is stored under.
    pub fn name(&self) -> (r: &'static str)
        ensures
            r@ == self.name_text(),
    {
        match self {
            SegmentId::Model => "model",
            SegmentId::Directory => "directory",
            SegmentId::Git => "git",
            SegmentId::ContextWindow => "context_window",
            SegmentId::Usage => "usage",
            SegmentId::Session => "session",
            SegmentId::OutputStyle => "output_style",
            SegmentId::Update => "update",
            SegmentId::GlmUsage => "glm_usage",
            SegmentId::DecodeSpeed => "decode_speed",
        }
    }

    /// The segment kind stored under `name`; none for an unknown name.
    pub fn from_name(name: &str) -> (r: Option<SegmentId>)
        ensures
            r == SegmentId::named(name@),
    {
        if same_text(name, "model") {
            Some(SegmentId::Model)
        } else if same_text(name, "directory") {
            Some(SegmentId::Directory)
        } else if same_text(name, "git") {
            Some(SegmentId::Git)
        } else if same_text(name, "context_window") {
            Some(SegmentId::ContextWindow)
        } else if same_text(name, "usage") {
            Some(SegmentId::Usage)
        } else if same_text(name, "session") {
            Some(SegmentId::Session)
        } else if same_text(name, "output_style") {
            Some(SegmentId::OutputStyle)
        } else if same_text(name, "update") {
            Some(SegmentId::Update)
        } else if same_text(name, "glm_usage") {
            Some(SegmentId::GlmUsage)
        } else if same_text(name, "decode_speed") {
            Some(SegmentId::DecodeSpeed)
        } else {
            None
        }
    }
}

/// Each segment kind is found again under the name it is stored under, so no
/// two kinds share a name.
pub proof fn lemma_segment_name_round_trip(id: SegmentId)
    ensures
        SegmentId::named(id.name_text()) == Some(id),
{
    reveal_strlit("model");
    reveal_strlit("directory");
    reveal_strlit("git");
    reveal_strlit("context_window");
    reveal_strlit("usage");
    reveal_strlit("session");
    reveal_strlit("output_style");
    reveal_strlit("update");
    reveal_strlit("glm_usage");
    reveal_strlit("decode_speed");
    assert(id.name_text().len() > 0);
    assert("model"@[0] == 'm' && "directory"@[0] == 'd' && "usage"@[0] == 'u');
    assert("glm_usage"@[0] == 'g' && "output_style"@[0] == 'o');
    assert("decode_speed"@[0] == 'd' && "update"@[0] == 'u');
}

/// A terminal color in one of the three ANSI forms.
#[derive(Debug, Clone, Copy, PartialEq, Eq, Structural)]
pub enum AnsiColor {
    Color16 { c16: u8 },
    Color256 { c256: u8 },
    Rgb { r: u8, g: u8, b: u8 },
}

/// The two glyphs of a segment: one for plain terminals, one for terminals
/// with an extended symbol font.
#[derive(Debug)]
pub struct IconConfig {
    pub plain: String,
    pub nerd_font: String,
}

/// What an `IconConfig` holds, as character sequences.
pub struct IconView {
    pub plain: Seq<char>,
    pub nerd_font: Seq<char>,
}

impl View for IconConfig {
    type V = IconView;

    open spec fn view(&self) -> IconView {
        IconView { plain: self.plain@, nerd_font: self.nerd_font@ }
    }
}

impl Clone for IconConfig {
    fn clone(&self) -> (r: Self)
        ensures
            r@ == self@,
    {
        IconConfig { plain: self.plain.clone(), nerd_font: self.nerd_font.clone() }
    }
}

/// The optional colors of a segment's icon, text and background.
#[derive(Debug, Clone, Copy)]
pub struct ColorConfig {
    pub icon: Option<AnsiColor>,
    pub text: Option<AnsiColor>,
    pub background: Option<AnsiColor>,
}

/// Text style flags of a segment.
#[derive(Debug, Clone, Copy, PartialEq, Eq, Structural)]
pub struct TextStyleConfig {
    pub text_bold: bool,
}

impl Default for TextStyleConfig {
    fn default() -> (r: Self)
        ensures
            r == (TextStyleConfig { text_bold: false }),
    {
        TextStyleConfig { text_bold: false }
    }
}

/// A collector-specific parameter value.
///
/// `Json` carries, as text, a value that is neither null, a boolean, an
/// integer nor a string.
#[derive(Debug)]
pub enum OptionValue {
    Null,
    Bool(bool),
    Integer(i64),
    Text(String),
    Json(String),
}

/// What an `OptionValue` holds.
pub enum OptionValueView {
    Null,
    Bool(bool),
    Integer(i64),
    Text(Seq<char>),
    Json(Seq<char>),
}

impl View for OptionValue {
    type V = OptionValueView;

    open spec fn view(&self) -> OptionValueView {
        match self {
            OptionValue::Null => OptionValueView::Null,
            OptionValue::Bool(b) => OptionValueView::Bool(*b),
            OptionValue::Integer(i) => OptionValueView::Integer(*i),
            OptionValue::Text(s) => OptionValueView::Text(s@),
            OptionValue::Json(s) => OptionValueView::Json(s@),
        }
    }
}

impl Clone for OptionValue {
    fn clone(&self) -> (r: Self)
        ensures
            r@ == self@,
    {
        match self {
            OptionValue::Null => OptionValue::Null,
            OptionValue::Bool(b) => OptionValue::Bool(*b),
            OptionValue::Integer(i) => OptionValue::Integer(*i),
            OptionValue::Text(s) => OptionValue::Text(s.clone()),
            OptionValue::Json(s) => OptionValue::Json(s.clone()),
        }
    }
}

impl OptionValue {
    /// Whether two values hold the same thing.
    pub fn same_as(&self, other: &OptionValue) -> (r: bool)
        ensures
            r == (self@ == other@),
    {
        match (self, other) {
            (OptionValue::Null, OptionValue::Null) => true,
            (OptionValue::Bool(a), OptionValue::Bool(b)) => *a == *b,
            (OptionValue::Integer(a), OptionValue::Integer(b)) => *a == *b,
            (OptionValue::Text(a), OptionValue::Text(b)) => *a == *b,
            (OptionValue::Json(a), OptionValue::Json(b)) => *a == *b,
            _ => false,
        }
    }
}

/// One named parameter of a segment.
#[derive(Debug)]
pub struct OptionEntry {
    pub key: String,
    pub value: OptionValue,
}

impl Clone for OptionEntry {
    fn clone(&self) -> (r: Self)
        ensures
            r.key@ == self.key@,
            r.value@ == self.value@,
    {
        OptionEntry { key: self.key.clone(), value: self.value.clone() }
    }
}

/// Whether two optional colors are the same.
pub fn same_color(a: &Option<AnsiColor>, b: &Option<AnsiColor>) -> (r: bool)
    ensures
        r == (*a == *b),
{
    match (a, b) {
        (None, None) => true,
        (Some(x), Some(y)) => *x == *y,
        _ => false,
    }
}

impl ColorConfig {
    /// Whether two color sets agree in all three colors.
    pub fn same_as(&self, other: &ColorConfig) -> (r: bool)
        ensures
            r == (*self == *other),
    {
        same_color(&self.icon, &other.icon) && same_color(&self.text, &other.text) && same_color(
            &self.background,
            &other.background,
        )
    }
}

/// The value that `entries` gives to `key`: that of the last entry with this
/// key, if there is one.
pub open spec fn lookup_option(entries: Seq<OptionEntry>, key: Seq<char>) -> Option<
    OptionValueView,
>
    decreases entries.len(),
{
    if entries.len() == 0 {
        None
    } else if entries.last().key@ == key {
        Some(entries.last().value@)
    } else {
        lookup_option(entries.drop_last(), key)
    }
}

/// The mapping from key to value that a list of entries stands for; a later
/// entry replaces an earlier one with the same key.
pub open spec fn options_map(entries: Seq<OptionEntry>) -> Map<Seq<char>, OptionValueView> {
    Map::new(
        |k: Seq<char>| lookup_option(entries, k) is Some,
        |k: Seq<char>| lookup_option(entries, k).unwrap(),
    )
}

/// No entries stand for the empty mapping.
pub proof fn lemma_options_empty()
    ensures
        options_map(Seq::<OptionEntry>::empty()) == Map::<Seq<char>, OptionValueView>::empty(),
{
    assert(options_map(Seq::<OptionEntry>::empty()) =~= Map::<
        Seq<char>,
        OptionValueView,
    >::empty());
}

/// Appending an entry is inserting its key and value into the mapping.
pub proof fn lemma_options_push(entries: Seq<OptionEntry>, entry: OptionEntry)
    ensures
        options_map(entries.push(entry)) == options_map(entries).insert(entry.key@, entry.value@),
{
    let after = entries.push(entry);
    assert(after.last() == entry);
    assert(after.drop_last() =~= entries);
    assert(options_map(after) =~= options_map(entries).insert(entry.key@, entry.value@));
}

/// A key that the entries from position `i` on do not hold is looked up in
/// the entries before `i`.
pub proof fn lemma_lookup_take(entries: Seq<OptionEntry>, key: Seq<char>, i: int)
    requires
        0 <= i <= entries.len(),
        forall|j: int| i <= j < entries.len() ==> (#[trigger] entries[j]).key@ != key,
    ensures
        lookup_option(entries, key) == lookup_option(entries.take(i), key),
    decreases entries.len() - i,
{
    if i == entries.len() {
        assert(entries.take(i) =~= entries);
    } else {
        lemma_lookup_take(entries, key, i + 1);
        let longer = entries.take(i + 1);
        assert(longer.last() == entries[i]);
        assert(longer.drop_last() =~= entries.take(i));
    }
}

/// A key with a value is the key of some entry.
pub proof fn lemma_lookup_some_is_entry(entries: Seq<OptionEntry>, key: Seq<char>)
    requires
        lookup_option(entries, key) is Some,
    ensures
        exists|i: int| 0 <= i < entries.len() && (#[trigger] entries[i]).key@ == key,
    decreases entries.len(),
{
    if entries.last().key@ == key {
        assert(entries[entries.len() - 1].key@ == key);
    } else {
        let rest = entries.drop_last();
        lemma_lookup_some_is_entry(rest, key);
        let i = choose|i: int| 0 <= i < rest.len() && (#[trigger] rest[i]).key@ == key;
        assert(entries[i] == rest[i]);
    }
}

/// Looks `key` up in `entries`.
pub fn find_option<'a>(entries: &'a Vec<OptionEntry>, key: &str) -> (r: Option<&'a OptionValue>)
    ensures
        match r {
            Some(v) => lookup_option(entries@, key@) == Some(v@),
            None => lookup_option(entries@, key@) is None,
        },
{
    let wanted: String = key.to_owned();
    let mut i: usize = entries.len();
    while i > 0
        invariant
            i <= entries.len(),
            wanted@ == key@,
            forall|j: int| i <= j < entries.len() ==> (#[trigger] entries@[j]).key@ != key@,
        decreases i,
    {
        i -= 1;
        if entries[i].key == wanted {
            proof {
                lemma_lookup_take(entries@, key@, i + 1);
                assert(entries@.take(i + 1).last() == entries@[i as int]);
            }
            return Some(&entries[i].value);
        }
    }
    proof {
        lemma_lookup_take(entries@, key@, 0);
        assert(entries@.take(0).len() == 0);
    }
    None
}

/// Whether every key of `a` has in `b` the value it has in `a`.
fn options_within(a: &Vec<OptionEntry>, b: &Vec<OptionEntry>) -> (r: bool)
    ensures
        r == (forall|k: Seq<char>|
            lookup_option(a@, k) is Some ==> #[trigger] lookup_option(b@, k) == lookup_option(
                a@,
                k,
            )),
{
    let mut i: usize = 0;
    while i < a.len()
        invariant
            i <= a.len(),
            forall|j: int|
                0 <= j < i ==> lookup_option(b@, (#[trigger] a@[j]).key@) == lookup_option(
                    a@,
                    a@[j].key@,
                ),
        decreases a.len() - i,
    {
        let mine = find_option(a, a[i].key.as_str());
        let theirs = find_option(b, a[i].key.as_str());
        let agree = match (mine, theirs) {
            (Some(x), Some(y)) => x.same_as(y),
            (None, None) => true,
            _ => false,
        };
        if !agree {
            proof {
                lemma_key_of_entry_has_value(a@, i as int);
            }
            return false;
        }
        i += 1;
    }
    proof {
        assert forall|k: Seq<char>| lookup_option(a@, k) is Some implies #[trigger] lookup_option(
            b@,
            k,
        ) == lookup_option(a@, k) by {
            lemma_lookup_some_is_entry(a@, k);
        }
    }
    true
}

/// The key of an entry has a value.
pub proof fn lemma_key_of_entry_has_value(entries: Seq<OptionEntry>, i: int)
    requires
        0 <= i < entries.len(),
    ensures
        lookup_option(entries, entries[i].key@) is Some,
    decreases entries.len(),
{
    if entries.last().key@ != entries[i].key@ {
        let rest = entries.drop_last();
        assert(rest[i] == entries[i]);
        lemma_key_of_entry_has_value(rest, i);
    }
}

/// Whether two lists of entries stand for the same mapping.
pub fn same_options(a: &Vec<OptionEntry>, b: &Vec<OptionEntry>) -> (r: bool)
    ensures
        r == (options_map(a@) == options_map(b@)),
{
    let forth = options_within(a, b);
    let back = options_within(b, a);
    proof {
        let ma = options_map(a@);
        let mb = options_map(b@);
        if forth && back {
            assert forall|k: Seq<char>| lookup_option(a@, k) == lookup_option(b@, k) by {
                if lookup_option(a@, k) is Some {
                    assert(lookup_option(b@, k) == lookup_option(a@, k));
                } else if lookup_option(b@, k) is Some {
                    assert(lookup_option(a@, k) == lookup_option(b@, k));
                }
            }
            assert(ma =~= mb);
        } else if !forth {
            let k = choose|k: Seq<char>|
                lookup_option(a@, k) is Some && #[trigger] lookup_option(b@, k) != lookup_option(
                    a@,
                    k,
                );
            assert(ma.dom().contains(k));
            if mb.dom().contains(k) {
                assert(ma[k] != mb[k]);
            }
        } else {
            let k = choose|k: Seq<char>|
                lookup_option(b@, k) is Some && #[trigger] lookup_option(a@, k) != lookup_option(
                    b@,
                    k,
                );
            assert(mb.dom().contains(k));
            if ma.dom().contains(k) {
                assert(ma[k] != mb[k]);
            }
        }
    }
    forth && back
}

/// Copies a list of entries.
pub fn clone_options(entries: &Vec<OptionEntry>) -> (r: Vec<OptionEntry>)
    ensures
        r@.len() == entries@.len(),
        forall|i: int|
            0 <= i < r@.len() ==> (#[trigger] r@[i]).key@ == entries@[i].key@ && r@[i].value@
                == entries@[i].value@,
        options_map(r@) == options_map(entries@),
{
    let mut out: Vec<OptionEntry> = Vec::new();
    let mut i: usize = 0;
    while i < entries.len()
        invariant
            i <= entries.len(),
            out@.len() == i,
            forall|j: int|
                0 <= j < i ==> (#[trigger] out@[j]).key@ == entries@[j].key@ && out@[j].value@
                    == entries@[j].value@,
        decreases entries.len() - i,
    {
        out.push(entries[i].clone());
        i += 1;
    }
    proof {
        assert forall|k: Seq<char>| lookup_option(out@, k) == lookup_option(entries@, k) by {
            lemma_lookup_same_entries(out@, entries@, k);
        }
        assert(options_map(out@) =~= options_map(entries@));
    }
    out
}

/// Two lists that agree entry by entry give every key the same value.
pub proof fn lemma_lookup_same_entries(a: Seq<OptionEntry>, b: Seq<OptionEntry>, key: Seq<char>)
    requires
        a.len() == b.len(),
        forall|i: int|
            0 <= i < a.len() ==> (#[trigger] a[i]).key@ == b[i].key@ && a[i].value@ == b[i].value@,
    ensures
        lookup_option(a, key) == lookup_option(b, key),
    decreases a.len(),
{
    if a.len() > 0 {
        assert(a[a.len() - 1].key@ == b[a.len() - 1].key@);
        let ra = a.drop_last();
        let rb = b.drop_last();
        assert forall|i: int| 0 <= i < ra.len() implies (#[trigger] ra[i]).key@ == rb[i].key@
            && ra[i].value@ == rb[i].value@ by {
            assert(a[i].key@ == b[i].key@);
        }
        lemma_lookup_same_entries(ra, rb, key);
    }
}

/// The settings of one indicator.
#[derive(Debug)]
pub struct SegmentConfig {
    pub id: SegmentId,
    pub enabled: bool,
    pub icon: IconConfig,
    pub colors: ColorConfig,
    pub styles: TextStyleConfig,
    pub options: Vec<OptionEntry>,
}

/// What a `SegmentConfig` holds; its options as a mapping.
pub struct SegmentConfigView {
    pub id: SegmentId,
    pub enabled: bool,
    pub icon: IconView,
    pub colors: ColorConfig,
    pub styles: TextStyleConfig,
    pub options: Map<Seq<char>, OptionValueView>,
}

impl View for SegmentConfig {
    type V = SegmentConfigView;

    open spec fn view(&self) -> SegmentConfigView {
        SegmentConfigView {
            id: self.id,
            enabled: self.enabled,
            icon: self.icon@,
            colors: self.colors,
            styles: self.styles,
            options: options_map(self.options@),
        }
    }
}

impl Clone for SegmentConfig {
    fn clone(&self) -> (r: Self)
        ensures
            r@ == self@,
    {
        SegmentConfig {
            id: self.id,
            enabled: self.enabled,
            icon: self.icon.clone(),
            colors: self.colors,
            styles: self.styles,
            options: clone_options(&self.options),
        }
    }
}

impl SegmentConfig {
    /// Whether two segment settings agree in every field, the options compared
    /// as mappings.
    pub fn same_as(&self, other: &SegmentConfig) -> (r: bool)
        ensures
            r == (self@ == other@),
    {
        self.id == other.id && self.enabled == other.enabled && self.icon.plain == other.icon.plain
            && self.icon.nerd_font == other.icon.nerd_font && self.colors.same_as(&other.colors)
            && self.styles.text_bold == other.styles.text_bold && same_options(
            &self.options,
            &other.options,
        )
    }

    /// Gives the option `key` the value `value`, in place of any earlier one.
    pub fn set_option(&mut self, key: String, value: OptionValue)
        ensures
            final(self)@ == (SegmentConfigView {
                options: old(self)@.options.insert(key@, value@),
                ..old(self)@
            }),
    {
        let entry = OptionEntry { key, value };
        proof {
            lemma_options_push(self.options@, entry);
        }
        self.options.push(entry);
    }

    /// The value of the option `key`, if the segment has one.
    pub fn option(&self, key: &str) -> (r: Option<&OptionValue>)
        ensures
            match r {
                Some(v) => self@.options.contains_key(key@) && self@.options[key@] == v@,
                None => !self@.options.contains_key(key@),
            },
    {
        find_option(&self.options, key)
    }
}

/// The views of a list of segment settings, in order.
pub open spec fn segment_views(segments: Seq<SegmentConfig>) -> Seq<SegmentConfigView> {
    Seq::new(segments.len(), |i: int| segments[i]@)
}

/// Copies a list of segment settings.
pub fn clone_segments(segments: &Vec<SegmentConfig>) -> (r: Vec<SegmentConfig>)
    ensures
        segment_views(r@) == segment_views(segments@),
{
    let mut out: Vec<SegmentConfig> = Vec::new();
    let mut i: usize = 0;
    while i < segments.len()
        invariant
            i <= segments.len(),
            out@.len() == i,
            forall|j: int| 0 <= j < i ==> (#[trigger] out@[j])@ == segments@[j]@,
        decreases segments.len() - i,
    {
        out.push(segments[i].clone());
        i += 1;
    }
    assert(segment_views(out@) =~= segment_views(segments@));
    out
}

/// Whether two lists of segment settings agree position by position.
pub fn same_segments(a: &Vec<SegmentConfig>, b: &Vec<SegmentConfig>) -> (r: bool)
    ensures
        r == (segment_views(a@) == segment_views(b@)),
{
    if a.len() != b.len() {
        assert(segment_views(a@).len() != segment_views(b@).len());
        return false;
    }
    let mut i: usize = 0;
    while i < a.len()
        invariant
            i <= a.len(),
            a.len() == b.len(),
            forall|j: int| 0 <= j < i ==> (#[trigger] a@[j])@ == b@[j]@,
        decreases a.len() - i,
    {
        if !a[i].same_as(&b[i]) {
            assert(segment_views(a@)[i as int] != segment_views(b@)[i as int]);
            return false;
        }
        i += 1;
    }
    assert(segment_views(a@) =~= segment_views(b@));
    true
}

/// The global style of the status line.
#[derive(Debug)]
pub struct StyleConfig {
    pub separator: String,
}

/// The whole configuration: the segments in render order, the name of the
/// active theme, and the global style.
#[derive(Debug)]
pub struct Config {
    pub style: StyleConfig,
    pub segments: Vec<SegmentConfig>,
    pub theme: String,
}

/// What a `Config` holds.
pub struct ConfigView {
    pub separator: Seq<char>,
    pub segments: Seq<SegmentConfigView>,
    pub theme: Seq<char>,
}

impl View for Config {
    type V = ConfigView;

    open spec fn view(&self) -> ConfigView {
        ConfigView {
            separator: self.style.separator@,
            segments: segment_views(self.segments@),
            theme: self.theme@,
        }
    }
}

impl Clone for Config {
    fn clone(&self) -> (r: Self)
        ensures
            r@ == self@,
    {
        Config {
            style: StyleConfig { separator: self.style.separator.clone() },
            segments: clone_segments(&self.segments),
            theme: self.theme.clone(),
        }
    }
}

/// Whether no segment kind occurs twice in a list of segment settings.
pub open spec fn distinct_ids(segments: Seq<SegmentConfigView>) -> bool {
    forall|i: int, j: int|
        0 <= i < j < segments.len() ==> (#[trigger] segments[i]).id != (#[trigger] segments[j]).id
}

impl ConfigView {
    /// Whether two configurations have the same separator and the same
    /// segments; the theme name is not compared.
    pub open spec fn same_payload(self, other: ConfigView) -> bool {
        self.separator == other.separator && self.segments == other.segments
    }
}

impl Config {
    /// The invariant of a configuration: each segment kind occurs at most once.
    pub open spec fn well_formed(&self) -> bool {
        distinct_ids(self@.segments)
    }

    /// Whether this configuration has the separator and the segments of
    /// `preset`, field by field.
    pub fn matches(&self, preset: &Config) -> (r: bool)
        ensures
            r == self@.same_payload(preset@),
    {
        self.style.separator == preset.style.separator && same_segments(
            &self.segments,
            &preset.segments,
        )
    }

    /// The position of the first segment of kind `id`, if the configuration
    /// has one.
    pub fn position_of(&self, id: SegmentId) -> (r: Option<usize>)
        ensures
            match r {
                Some(i) => segment_index(self@.segments, id) == Some(i as int) && i
                    < self.segments@.len(),
                None => segment_index(self@.segments, id) is None,
            },
    {
        let mut i: usize = 0;
        while i < self.segments.len()
            invariant
                i <= self.segments.len(),
                segment_index(self@.segments, id) == segment_index_from(
                    self@.segments,
                    id,
                    i as int,
                ),
            decreases self.segments.len() - i,
        {
            if self.segments[i].id == id {
                return Some(i);
            }
            i += 1;
        }
        None
    }
}

/// Why a configuration is not valid.
#[derive(Debug, Clone, Copy, PartialEq, Eq, Structural)]
pub enum ConfigError {
    /// A segment kind occurs more than once.
    DuplicateSegment(SegmentId),
}

impl ConfigError {
    /// The error in words.
    pub open spec fn message_text(self) -> Seq<char> {
        match self {
            ConfigError::DuplicateSegment(id) => "重复的段落: "@ + segment_name(id),
        }
    }

    /// The error in words.
    pub fn message(&self) -> (r: String)
        ensures
            r@ == self.message_text(),
    {
        match self {
            ConfigError::DuplicateSegment(id) => {
                let mut text = String::from_str("重复的段落: ");
                text.append(segment_label(*id));
                text
            },
        }
    }
}

/// The first position from `start` on whose segment kind also occurs at an
/// earlier position.
pub open spec fn duplicate_from(segments: Seq<SegmentConfigView>, start: int) -> Option<int>
    decreases segments.len() - start,
{
    if start < 0 || start >= segments.len() {
        None
    } else if segment_index(segments, segments[start].id) != Some(start) {
        Some(start)
    } else {
        duplicate_from(segments, start + 1)
    }
}

/// From `start` on, the search for a repeated kind finds none exactly when
/// each position from there on is the first of its kind.
pub proof fn lemma_duplicate_from(segments: Seq<SegmentConfigView>, start: int)
    requires
        0 <= start,
    ensures
        match duplicate_from(segments, start) {
            Some(k) => start <= k < segments.len() && segment_index(segments, segments[k].id)
                != Some(k),
            None => forall|k: int|
                start <= k < segments.len() ==> segment_index(
                    segments,
                    (#[trigger] segments[k]).id,
                ) == Some(k),
        },
    decreases segments.len() - start,
{
    if start < segments.len() && segment_index(segments, segments[start].id) == Some(start) {
        lemma_duplicate_from(segments, start + 1);
    }
}

/// No kind occurs twice exactly when the search for a repeated kind finds
/// none.
pub proof fn lemma_distinct_iff_no_duplicate(segments: Seq<SegmentConfigView>)
    ensures
        distinct_ids(segments) <==> duplicate_from(segments, 0) is None,
{
    lemma_duplicate_from(segments, 0);
    if duplicate_from(segments, 0) is None {
        assert forall|i: int, j: int| 0 <= i < j < segments.len() implies (
        #[trigger] segments[i]).id != (#[trigger] segments[j]).id by {
            lemma_segment_index_from(segments, segments[j].id, 0);
            assert(segment_index(segments, segments[j].id) == Some(j));
        }
    } else {
        let k = duplicate_from(segments, 0)->0;
        lemma_segment_index_from(segments, segments[k].id, 0);
        let first = segment_index(segments, segments[k].id);
        if first is Some {
            assert(first->0 < k);
            assert(segments[first->0].id == segments[k].id);
        }
    }
}

impl Config {
    /// The kind of the first segment that repeats an earlier one, if any
    /// does.
    pub open spec fn first_duplicate(&self) -> Option<SegmentId> {
        match duplicate_from(self@.segments, 0) {
            Some(k) => Some(self@.segments[k].id),
            None => None,
        }
    }

    /// Checks the invariant: fails on the first segment whose kind occurred
    /// before, and succeeds when there is none.
    pub fn check(&self) -> (r: Result<(), ConfigError>)
        ensures
            r is Ok <==> self.well_formed(),
            match r {
                Ok(_) => self.first_duplicate() is None,
                Err(e) => self.first_duplicate() matches Some(id) && e
                    == ConfigError::DuplicateSegment(id),
            },
    {
        let mut i: usize = 0;
        while i < self.segments.len()
            invariant
                i <= self.segments.len(),
                duplicate_from(self@.segments, 0) == duplicate_from(self@.segments, i as int),
            decreases self.segments.len() - i,
        {
            let id = self.segments[i].id;
            assert(self@.segments[i as int].id == id);
            let first = self.position_of(id);
            let repeated = match first {
                Some(k) => k != i,
                None => true,
            };
            if repeated {
                proof {
                    lemma_distinct_iff_no_duplicate(self@.segments);
                }
                return Err(ConfigError::DuplicateSegment(id));
            }
            i += 1;
        }
        proof {
            lemma_distinct_iff_no_duplicate(self@.segments);
        }
        Ok(())
    }
}

/// The position of the first segment of kind `id` from `start` on.
pub open spec fn segment_index_from(segments: Seq<SegmentConfigView>, id: SegmentId, start: int)
    -> Option<int>
    decreases segments.len() - start,
{
    if start < 0 || start >= segments.len() {
        None
    } else if segments[start].id == id {
        Some(start)
    } else {
        segment_index_from(segments, id, start + 1)
    }
}

/// The position of the first segment of kind `id`.
pub open spec fn segment_index(segments: Seq<SegmentConfigView>, id: SegmentId) -> Option<int> {
    segment_index_from(segments, id, 0)
}

/// A search from `start` finds the first position from there on that holds
/// the kind, or none because no position from there on holds it.
pub proof fn lemma_segment_index_from(segments: Seq<SegmentConfigView>, id: SegmentId, start: int)
    requires
        0 <= start,
    ensures
        match segment_index_from(segments, id, start) {
            Some(i) => start <= i < segments.len() && segments[i].id == id && forall|j: int|
                start <= j < i ==> (#[trigger] segments[j]).id != id,
            None => forall|j: int|
                start <= j < segments.len() ==> (#[trigger] segments[j]).id != id,
        },
    decreases segments.len() - start,
{
    if start < segments.len() && segments[start].id != id {
        lemma_segment_index_from(segments, id, start + 1);
    }
}

/// The ambient input of one render, gathered before the collectors run.
///
/// `glm` is absent when the assistant is not set up for a GLM endpoint;
/// `quota` and `performance` are absent when the service could not be asked
/// or did not answer usably; `now_ms` is the time of the render in
/// milliseconds since the Unix epoch.
#[derive(Debug)]
pub struct InputData {
    pub glm: Option<GlmApiConfig>,
    pub quota: Option<GlmQuotaLimit>,
    pub performance: Option<GlmModelPerformance>,
    pub now_ms: i64,
}

} // verus!
