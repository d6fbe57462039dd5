//! Collectors: one per indicator, each turning the ambient input into a small
//! structured result.

pub mod decode_speed;
pub mod glm_usage;

use vstd::prelude::*;
use crate::config::InputData;
use crate::config::SegmentId;

pub use decode_speed::DecodeSpeedSegment;
pub use glm_usage::GlmUsageSegment;

verus! {

/// One named value that a collector reports beside its text.
#[derive(Debug)]
pub struct MetadataEntry {
    pub key: String,
    pub value: String,
}

/// The value that `entries` gives to `key`: that of the last entry with this
/// key, if there is one.
pub open spec fn lookup_metadata(entries: Seq<MetadataEntry>, key: Seq<char>) -> Option<Seq<char>>
    decreases entries.len(),
{
    if entries.len() == 0 {
        None
    } else if entries.last().key@ == key {
        Some(entries.last().value@)
    } else {
        lookup_metadata(entries.drop_last(), key)
    }
}

/// The mapping from key to value that a list of entries stands for; a later
/// entry replaces an earlier one with the same key.
pub open spec fn metadata_map(entries: Seq<MetadataEntry>) -> Map<Seq<char>, Seq<char>> {
    Map::new(
        |k: Seq<char>| lookup_metadata(entries, k) is Some,
        |k: Seq<char>| lookup_metadata(entries, k).unwrap(),
    )
}

/// What a collector hands to the render pipeline.
#[derive(Debug)]
pub struct SegmentData {
    pub primary: String,
    pub secondary: String,
    pub metadata: Vec<MetadataEntry>,
}

/// What a `SegmentData` holds; its metadata as a mapping.
pub struct SegmentDataView {
    pub primary: Seq<char>,
    pub secondary: Seq<char>,
    pub metadata: Map<Seq<char>, Seq<char>>,
}

impl View for SegmentData {
    type V = SegmentDataView;

    open spec fn view(&self) -> SegmentDataView {
        SegmentDataView {
            primary: self.primary@,
            secondary: self.secondary@,
            metadata: metadata_map(self.metadata@),
        }
    }
}

/// The result that shows `text` alone.
pub open spec fn placeholder_view(text: Seq<char>) -> SegmentDataView {
    SegmentDataView { primary: text, secondary: Seq::empty(), metadata: Map::empty() }
}

/// No entries stand for the empty mapping.
pub proof fn lemma_metadata_empty()
    ensures
        metadata_map(Seq::<MetadataEntry>::empty()) == Map::<Seq<char>, Seq<char>>::empty(),
{
    assert(metadata_map(Seq::<MetadataEntry>::empty()) =~= Map::<Seq<char>, Seq<char>>::empty());
}

/// Appending an entry is inserting its key and value into the mapping.
pub proof fn lemma_metadata_push(entries: Seq<MetadataEntry>, entry: MetadataEntry)
    ensures
        metadata_map(entries.push(entry)) == metadata_map(entries).insert(entry.key@, entry.value@),
{
    let after = entries.push(entry);
    assert(after.last() == entry);
    assert(after.drop_last() =~= entries);
    assert(metadata_map(after) =~= metadata_map(entries).insert(entry.key@, entry.value@));
}

impl SegmentData {
    /// The result that shows `text` alone.
    pub fn placeholder(text: &str) -> (r: SegmentData)
        ensures
            r@ == placeholder_view(text@),
    {
        proof {
            lemma_metadata_empty();
        }
        SegmentData {
            primary: text.to_owned(),
            secondary: String::new(),
            metadata: Vec::new(),
        }
    }

    /// Records `value` under `key`, in place of any earlier value.
    pub fn insert_metadata(&mut self, key: &str, value: String)
        ensures
            final(self)@ == (SegmentDataView {
                metadata: old(self)@.metadata.insert(key@, value@),
                ..old(self)@
            }),
    {
        let entry = MetadataEntry { key: key.to_owned(), value };
        proof {
            lemma_metadata_push(self.metadata@, entry);
        }
        self.metadata.push(entry);
    }

    /// The value recorded under `key`, if there is one.
    pub fn metadata_value(&self, key: &str) -> (r: Option<&String>)
        ensures
            match r {
                Some(v) => self@.metadata.contains_key(key@) && self@.metadata[key@] == v@,
                None => !self@.metadata.contains_key(key@),
            },
    {
        let wanted: String = key.to_owned();
        let mut i: usize = self.metadata.len();
        assert(self.metadata@.take(i as int) =~= self.metadata@);
        while i > 0
            invariant
                i <= self.metadata.len(),
                wanted@ == key@,
                lookup_metadata(self.metadata@, key@) == lookup_metadata(
                    self.metadata@.take(i as int),
                    key@,
                ),
            decreases i,
        {
            let ghost prefix = self.metadata@.take(i as int);
            assert(prefix.last() == self.metadata@[i - 1]);
            assert(prefix.drop_last() =~= self.metadata@.take(i - 1));
            i -= 1;
            if self.metadata[i].key == wanted {
                return Some(&self.metadata[i].value);
            }
        }
        assert(self.metadata@.take(0).len() == 0);
        None
    }
}

/// The capability every collector offers.
pub trait Segment {
    /// The data to show for this indicator, or `None` to leave it out.
    fn collect(&self, input: &InputData) -> Option<SegmentData>;

    /// The indicator this collector belongs to.
    fn id(&self) -> SegmentId;
}

} // verus!
