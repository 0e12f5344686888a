//! Text divided into grapheme clusters: what a reader takes for one
//! character, and the unit in which columns are counted.
use vstd::prelude::*;
use vstd::string::*;
use unicode_segmentation::UnicodeSegmentation;
use crate::units::spec_min;

verus! {

/// The extended grapheme clusters of a text, in order, as the segmentation of
/// the Unicode standard divides it.
pub uninterp spec fn grapheme_clusters(text: Seq<char>) -> Seq<Seq<char>>;

/// The characters of each string of a sequence.
pub open spec fn spec_text_views(texts: Seq<String>) -> Seq<Seq<char>> {
    texts.map_values(|t: String| t@)
}

/// Divides a text into its extended grapheme clusters with
/// `UnicodeSegmentation::graphemes`. The clusters are those that
/// `grapheme_clusters` names; as that iterator cuts the text at consecutive
/// boundaries from its start to its end, none of them is empty and together
/// they are the text.
#[verifier::external_body]
fn split_graphemes(text: &str) -> (r: Vec<String>)
    ensures
        spec_text_views(r@) == grapheme_clusters(text@),
        spec_text_views(r@).flatten() == text@,
        forall|i: int| 0 <= i < r@.len() ==> (#[trigger] r@[i])@.len() >= 1,
{
    UnicodeSegmentation::graphemes(text, true).map(|g| g.to_string()).collect()
}

/// A text and the segments it is divided into, as character sequences.
pub struct UnicodeStringView {
    pub string: Seq<char>,
    pub segments: Seq<Seq<char>>,
}

impl UnicodeStringView {
    /// The segments are not empty and, one after the other, are the text.
    pub open spec fn wf(self) -> bool {
        &&& self.segments.flatten() == self.string
        &&& forall|i: int| 0 <= i < self.segments.len() ==> (#[trigger] self.segments[i]).len() >= 1
    }

    /// How many characters stand before the segment of index `index`.
    pub open spec fn char_offset(self, index: int) -> int {
        self.segments.take(index).flatten().len() as int
    }

    /// The part that begins `start` segments in and holds at most `max`
    /// segments.
    pub open spec fn clip(self, start: int, max: int) -> UnicodeStringView {
        let from = spec_min(start, self.segments.len() as int);
        let to = spec_min(start + max, self.segments.len() as int);
        let segments = self.segments.subrange(from, to);
        UnicodeStringView { string: segments.flatten(), segments }
    }

    /// The text of the segments from `from` up to `to`.
    pub open spec fn text_between(self, from: int, to: int) -> Seq<char> {
        self.segments.subrange(from, to).flatten()
    }
}

/// The text `text` with the segments that the Unicode standard gives it.
pub open spec fn spec_segmented(text: Seq<char>) -> UnicodeStringView {
    UnicodeStringView { string: text, segments: grapheme_clusters(text) }
}

/// A text together with its grapheme clusters.
#[derive(Clone, Debug, PartialEq, Eq)]
pub struct UnicodeString {
    pub string: String,
    pub segments: Vec<String>,
}

impl View for UnicodeString {
    type V = UnicodeStringView;

    open spec fn view(&self) -> UnicodeStringView {
        UnicodeStringView { string: self.string@, segments: spec_text_views(self.segments@) }
    }
}

/// What is found at a grapheme index of a text: the cluster there, its
/// index, and the number of bytes of the text that stand before it.
#[derive(Clone, Debug, PartialEq, Eq)]
pub struct UnicodeStringSegmentSliceResult {
    pub segment: String,
    pub grapheme_index: usize,
    pub byte_index: usize,
}

impl UnicodeString {
    /// Whether the segments are a division of the text.
    pub open spec fn wf(&self) -> bool {
        self@.wf()
    }

    /// The text with the grapheme clusters that the Unicode standard gives
    /// it.
    pub fn new(text: &str) -> (r: UnicodeString)
        ensures
            r@ == spec_segmented(text@),
            r.wf(),
    {
        let segments = split_graphemes(text);
        UnicodeString { string: String::from_str(text), segments }
    }

    /// The text without its division.
    pub fn as_str(&self) -> (r: &str)
        ensures
            r@ == self@.string,
    {
        self.string.as_str()
    }

    /// The length of the text in bytes.
    pub fn len(&self) -> (n: usize)
        ensures
            n == spec_byte_len(self@.string),
    {
        self.string.as_str().as_bytes().len()
    }

    /// The number of grapheme clusters.
    pub fn grapheme_count(&self) -> (n: usize)
        ensures
            n == self@.segments.len(),
    {
        self.segments.len()
    }

    /// Whether the text holds no character.
    pub fn is_empty(&self) -> (r: bool)
        ensures
            r == (self@.string.len() == 0),
            self.wf() ==> r == (self@.segments.len() == 0),
    {
        proof {
            if self.wf() {
                lemma_flatten_empty_iff(self@.segments);
            }
        }
        self.string.as_str().is_empty()
    }

    /// The cluster at a grapheme index, or nothing where the index is past
    /// the last cluster.
    pub fn segment_at(&self, index: usize) -> (r: Option<&String>)
        ensures
            r is Some <==> index < self@.segments.len(),
            r is Some ==> r->0@ == self@.segments[index as int],
    {
        if index < self.segments.len() {
            Some(&self.segments[index])
        } else {
            None
        }
    }

    /// The text of the segments from `from` up to `to`.
    pub(crate) fn text_between(&self, from: usize, to: usize) -> (r: String)
        requires
            from <= to <= self@.segments.len(),
        ensures
            r@ == self@.text_between(from as int, to as int),
    {
        let ghost part = self@.segments.subrange(from as int, to as int);
        let mut r = String::new();
        let mut i: usize = from;
        assert(part.take(0) =~= Seq::<Seq<char>>::empty());
        while i < to
            invariant
                from <= i <= to <= self.segments.len(),
                part == self@.segments.subrange(from as int, to as int),
                r@ == part.take(i - from).flatten(),
            decreases to - i,
        {
            r.append(self.segments[i].as_str());
            proof {
                assert(part.take(i - from + 1) =~= part.take(i - from).push(part[i - from]));
                part.take(i - from).lemma_flatten_push(part[i - from]);
            }
            i += 1;
        }
        assert(part.take(to - from) =~= part);
        r
    }

    /// The part that begins `start` clusters in and holds at most `max`
    /// clusters. It keeps the clusters of this text as they are.
    pub fn clip(&self, start: u32, max: u32) -> (r: UnicodeString)
        ensures
            r@ == self@.clip(start as int, max as int),
            self.wf() ==> r.wf(),
            r@.segments.len() <= max,
    {
        let n: usize = self.segments.len();
        let from: usize = if (start as usize) < n {
            start as usize
        } else {
            n
        };
        let room: usize = n - from;
        let to: usize = if (max as usize) < room {
            from + max as usize
        } else {
            n
        };
        let ghost part = self@.segments.subrange(from as int, to as int);
        let mut segments: Vec<String> = Vec::new();
        let mut i: usize = from;
        assert(spec_text_views(segments@) =~= part.take(0));
        while i < to
            invariant
                from <= i <= to <= self.segments.len(),
                part == self@.segments.subrange(from as int, to as int),
                part.len() == to - from,
                spec_text_views(segments@) == part.take(i - from),
            decreases to - i,
        {
            let ghost before = segments@;
            let copy = self.segments[i].clone();
            segments.push(copy);
            assert(spec_text_views(segments@) =~= spec_text_views(before).push(copy@));
            assert(part.take(i - from).push(part[i - from]) =~= part.take(i - from + 1));
            i += 1;
        }
        assert(part.take(to - from) =~= part);
        let string = self.text_between(from, to);
        UnicodeString { string, segments }
    }

    /// What stands at a grapheme index: the cluster, the index, and the
    /// number of bytes before the cluster. Nothing where the index is past
    /// the last cluster.
    pub fn segment_slice_at(&self, index: usize) -> (r: Option<UnicodeStringSegmentSliceResult>)
        ensures
            r is Some <==> index < self@.segments.len(),
            r is Some ==> {
                &&& r->0.segment@ == self@.segments[index as int]
                &&& r->0.grapheme_index == index
                &&& r->0.byte_index == spec_byte_len(self@.text_between(0, index as int))
            },
    {
        if index < self.segments.len() {
            let before = self.text_between(0, index);
            Some(
                UnicodeStringSegmentSliceResult {
                    segment: self.segments[index].clone(),
                    grapheme_index: index,
                    byte_index: before.as_str().as_bytes().len(),
                },
            )
        } else {
            None
        }
    }

    /// A second text with the same characters and the same division.
    pub fn duplicate(&self) -> (r: UnicodeString)
        ensures
            r@ == self@,
    {
        let mut segments: Vec<String> = Vec::new();
        let mut i: usize = 0;
        assert(spec_text_views(segments@) =~= self@.segments.take(0));
        while i < self.segments.len()
            invariant
                i <= self.segments.len(),
                self@.segments.len() == self.segments.len(),
                spec_text_views(segments@) == self@.segments.take(i as int),
            decreases self.segments.len() - i,
        {
            let ghost before = segments@;
            let copy = self.segments[i].clone();
            segments.push(copy);
            assert(spec_text_views(segments@) =~= spec_text_views(before).push(copy@));
            assert(self@.segments.take(i as int).push(self@.segments[i as int])
                =~= self@.segments.take(i + 1));
            i += 1;
        }
        assert(self@.segments.take(self@.segments.len() as int) =~= self@.segments);
        UnicodeString { string: self.string.clone(), segments }
    }
}

/// The number of bytes that a text takes in UTF-8.
pub open spec fn spec_byte_len(text: Seq<char>) -> nat {
    vstd::utf8::encode_utf8(text).len()
}

/// Segments that are not empty make an empty text only where there is none
/// of them.
pub proof fn lemma_flatten_empty_iff(segments: Seq<Seq<char>>)
    requires
        forall|i: int| 0 <= i < segments.len() ==> (#[trigger] segments[i]).len() >= 1,
    ensures
        segments.flatten().len() == 0 <==> segments.len() == 0,
{
    if segments.len() > 0 {
        assert(segments[0].len() >= 1);
        assert(segments.first() == segments[0]);
    }
}

/// A part of a division is a division of its own text: clipping keeps the
/// segments whole and the text in step with them.
pub proof fn lemma_clip_wf(text: UnicodeStringView, start: int, max: int)
    requires
        text.wf(),
        0 <= start,
        0 <= max,
    ensures
        text.clip(start, max).wf(),
        text.clip(start, max).segments.len() <= max,
{
}

/// The text of a division is the text of its first `at` segments followed by
/// the text of the others.
pub proof fn lemma_flatten_split(segments: Seq<Seq<char>>, at: int)
    requires
        0 <= at <= segments.len(),
    ensures
        segments.flatten() == segments.take(at).flatten() + segments.skip(at).flatten(),
{
    vstd::seq_lib::lemma_flatten_concat(segments.take(at), segments.skip(at));
    assert(segments.take(at) + segments.skip(at) =~= segments);
}

/// Clipping cuts a window out of the text: what it yields is the text from
/// the first character of the first segment kept to the last character of
/// the last one.
pub proof fn lemma_clip_is_window(text: UnicodeStringView, start: int, max: int)
    requires
        text.wf(),
        0 <= start,
        0 <= max,
    ensures
        ({
            let from = spec_min(start, text.segments.len() as int);
            let to = spec_min(start + max, text.segments.len() as int);
            &&& 0 <= text.char_offset(from) <= text.char_offset(to) <= text.string.len()
            &&& text.clip(start, max).string == text.string.subrange(
                text.char_offset(from),
                text.char_offset(to),
            )
        }),
{
    let from = spec_min(start, text.segments.len() as int);
    let to = spec_min(start + max, text.segments.len() as int);
    let head = text.segments.take(to);
    lemma_flatten_split(text.segments, to);
    lemma_flatten_split(head, from);
    assert(head.take(from) =~= text.segments.take(from));
    assert(head.skip(from) =~= text.segments.subrange(from, to));
}

} // verus!
