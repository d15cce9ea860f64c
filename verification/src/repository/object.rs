//! Blobs: addressable objects assembled from segments.

use vstd::prelude::*;
use crate::error::RepoError;
use crate::model::{is_present, lemma_views_push, lift, present, views};
use crate::repository::blob::{Segment, SegmentView};

verus! {

/// The payloads of a sequence of segments, joined in the order of the
/// sequence. The indices of the segments play no part.
pub open spec fn payload(segments: Seq<SegmentView>) -> Seq<u8>
    decreases segments.len(),
{
    if segments.len() == 0 {
        Seq::empty()
    } else {
        payload(segments.drop_last()) + segments.last().data
    }
}

/// No two segments of the sequence share an index.
pub open spec fn distinct_indices(segments: Seq<SegmentView>) -> bool {
    forall|i: int, j: int|
        0 <= i < j < segments.len() ==> (#[trigger] segments[i]).index != (
        #[trigger] segments[j]).index
}

/// What a blob is: its identifier, its segments in the order in which they
/// were added, its declared size and the switch that enables reassembly.
pub struct BlobView {
    pub id: Seq<char>,
    pub segments: Seq<SegmentView>,
    pub size: u64,
    pub recombine: bool,
}

impl BlobView {
    /// Whether some segment of the blob has this index.
    pub open spec fn has_index(self, index: u32) -> bool {
        exists|i: int| 0 <= i < self.segments.len() && (#[trigger] self.segments[i]).index == index
    }

    /// The identifier is present, the size is not zero, every segment is
    /// well formed and no two segments share an index.
    pub open spec fn wf(self) -> bool {
        &&& present(self.id)
        &&& self.size > 0
        &&& forall|i: int| 0 <= i < self.segments.len() ==> (#[trigger] self.segments[i]).wf()
        &&& distinct_indices(self.segments)
    }

    /// The outcome of building a blob: it starts empty, with reassembly off.
    pub open spec fn create(id: Seq<char>, size: u64) -> Result<BlobView, RepoError> {
        if present(id) && size > 0 {
            Ok(BlobView { id, segments: Seq::empty(), size, recombine: false })
        } else {
            Err(RepoError::InvalidArgument)
        }
    }

    /// The outcome of adding a segment: it goes to the end, unless its index
    /// is taken.
    pub open spec fn add_segment(self, segment: SegmentView) -> Result<BlobView, RepoError> {
        if self.has_index(segment.index) {
            Err(RepoError::DuplicateKey)
        } else {
            Ok(BlobView { segments: self.segments.push(segment), ..self })
        }
    }

    /// The outcome of adding several segments, one after the other: the first
    /// refusal ends it.
    pub open spec fn add_segments(self, segments: Seq<SegmentView>) -> Result<BlobView, RepoError>
        decreases segments.len(),
    {
        if segments.len() == 0 {
            Ok(self)
        } else {
            match self.add_segments(segments.drop_last()) {
                Ok(b) => b.add_segment(segments.last()),
                Err(e) => Err(e),
            }
        }
    }

    /// The blob with its reassembly switch set.
    pub open spec fn with_recombine(self, recombine: bool) -> BlobView {
        BlobView { recombine, ..self }
    }

    /// What reassembly gives: the joined payloads while the switch is on,
    /// nothing while it is off.
    pub open spec fn recombined(self) -> Seq<u8> {
        if self.recombine {
            payload(self.segments)
        } else {
            Seq::empty()
        }
    }
}

/// A named, sized container of segments.
pub struct Blob {
    pub(crate) id: String,
    pub(crate) content_segments: Vec<Segment>,
    pub(crate) size: u64,
    pub(crate) recombine: bool,
}

impl View for Blob {
    type V = BlobView;

    closed spec fn view(&self) -> BlobView {
        BlobView {
            id: self.id@,
            segments: views(self.content_segments@),
            size: self.size,
            recombine: self.recombine,
        }
    }
}

impl Blob {
    /// Builds an empty blob; an empty identifier or a size of zero is refused.
    pub fn new(id: String, size: u64) -> (r: Result<Blob, RepoError>)
        ensures
            lift(r) == BlobView::create(id@, size),
            r matches Ok(v) ==> v@.wf(),
    {
        if !is_present(&id) || size == 0 {
            return Err(RepoError::InvalidArgument);
        }
        let b = Blob { id, content_segments: Vec::new(), size, recombine: false };
        assert(b@.segments =~= Seq::empty());
        Ok(b)
    }

    /// Adds a segment at the end; one whose index is taken is refused and
    /// changes nothing.
    pub fn add_segment(&mut self, segment: Segment) -> (r: Result<(), RepoError>)
        ensures
            match old(self)@.add_segment(segment@) {
                Ok(v) => r is Ok && final(self)@ == v,
                Err(e) => r == Err::<(), RepoError>(e) && final(self)@ == old(self)@,
            },
            old(self)@.wf() && segment@.wf() ==> final(self)@.wf(),
    {
        let index = segment.get_index();
        let n = self.content_segments.len();
        let mut i: usize = 0;
        while i < n
            invariant
                *self == *old(self),
                n == self.content_segments@.len(),
                i <= n,
                index == segment@.index,
                forall|j: int| 0 <= j < i ==> (#[trigger] self@.segments[j]).index != index,
            decreases n - i,
        {
            if self.content_segments[i].get_index() == index {
                assert(self@.segments[i as int].index == index);
                return Err(RepoError::DuplicateKey);
            }
            i += 1;
        }
        proof {
            lemma_views_push(self.content_segments@, segment);
            if self@.wf() && segment@.wf() {
                law_add_segment_keeps_wf(self@, segment@);
            }
        }
        self.content_segments.push(segment);
        Ok(())
    }

    /// The joined payloads of the segments, in the order in which they were
    /// added, while reassembly is on; nothing while it is off.
    pub fn recombine_segments(&self) -> (r: Vec<u8>)
        ensures
            r@ == self@.recombined(),
            !self@.recombine ==> r@.len() == 0,
    {
        let mut out: Vec<u8> = Vec::new();
        if self.recombine {
            let n = self.content_segments.len();
            let mut i: usize = 0;
            assert(self@.segments.take(0) =~= Seq::empty());
            while i < n
                invariant
                    n == self.content_segments@.len(),
                    i <= n,
                    out@ == payload(self@.segments.take(i as int)),
                decreases n - i,
            {
                let ghost before = out@;
                let data = self.content_segments[i].get_data();
                out.extend_from_slice(data.as_slice());
                proof {
                    let next = self@.segments.take(i + 1);
                    assert(next.drop_last() =~= self@.segments.take(i as int));
                    assert(next.last() == self@.segments[i as int]);
                    assert(out@ =~= before + data@);
                }
                i += 1;
            }
            assert(self@.segments.take(n as int) =~= self@.segments);
        }
        out
    }

    /// Turns reassembly on or off; nothing else changes.
    pub fn set_recombine(&mut self, recombine: bool)
        ensures
            final(self)@ == old(self)@.with_recombine(recombine),
            old(self)@.wf() ==> final(self)@.wf(),
    {
        self.recombine = recombine;
        assert(self@.segments == old(self)@.segments);
    }

    /// Whether reassembly is on.
    pub fn get_recombine(&self) -> (r: bool)
        ensures
            r == self@.recombine,
    {
        self.recombine
    }

    /// The identifier.
    pub fn get_id(&self) -> (r: &String)
        ensures
            r@ == self@.id,
    {
        &self.id
    }

    /// The declared size.
    pub fn get_size(&self) -> (r: u64)
        ensures
            r == self@.size,
    {
        self.size
    }
}

/// The payload of a sequence with one more segment is the payload of the
/// sequence followed by that segment's data: the order of adding decides,
/// whatever the indices are.
pub proof fn law_payload_push(segments: Seq<SegmentView>, segment: SegmentView)
    ensures
        payload(segments.push(segment)) == payload(segments) + segment.data,
{
    assert(segments.push(segment).drop_last() =~= segments);
}

/// The payload of two sequences joined is the two payloads joined.
pub proof fn law_payload_concat(first: Seq<SegmentView>, second: Seq<SegmentView>)
    ensures
        payload(first + second) == payload(first) + payload(second),
    decreases second.len(),
{
    if second.len() == 0 {
        assert(first + second =~= first);
        assert(payload(first) + payload(second) =~= payload(first));
    } else {
        law_payload_concat(first, second.drop_last());
        assert((first + second).drop_last() =~= first + second.drop_last());
        assert(payload(first + second) =~= payload(first) + payload(second));
    }
}

/// A blob that was built is well formed, empty, and has reassembly off.
pub proof fn law_new_blob_is_empty(id: Seq<char>, size: u64)
    ensures
        BlobView::create(id, size) is Ok <==> present(id) && size > 0,
        BlobView::create(id, size) matches Ok(b) ==> b.wf() && b.segments.len() == 0
            && !b.recombine && b.recombined().len() == 0,
{
}

/// Of two segments with the same index, a blob takes at most the first: the
/// second is refused as a duplicate.
pub proof fn law_equal_index_refused(b: BlobView, first: SegmentView, second: SegmentView)
    requires
        first.index == second.index,
    ensures
        b.add_segment(first) matches Ok(b1) ==> b1.add_segment(second) == Err::<
            BlobView,
            RepoError,
        >(RepoError::DuplicateKey),
        b.add_segment(first) is Err ==> b.add_segment(second) == Err::<BlobView, RepoError>(
            RepoError::DuplicateKey,
        ),
{
    if let Ok(b1) = b.add_segment(first) {
        let k = b.segments.len() as int;
        assert(b1.segments[k].index == second.index);
    }
}

/// Two segments with distinct indices that the blob does not hold yet are
/// both taken, the blob stays well formed, and with reassembly on the output
/// holds their payloads at the end, in the order in which they were added.
pub proof fn law_distinct_indices_accepted(b: BlobView, first: SegmentView, second: SegmentView)
    requires
        b.wf(),
        first.wf(),
        second.wf(),
        !b.has_index(first.index),
        !b.has_index(second.index),
        first.index != second.index,
    ensures
        b.add_segment(first) is Ok,
        b.add_segment(first)->Ok_0.add_segment(second) is Ok,
        ({
            let b2 = b.add_segment(first)->Ok_0.add_segment(second)->Ok_0;
            &&& b2.wf()
            &&& b2.segments == b.segments.push(first).push(second)
            &&& b2.with_recombine(true).recombined() == payload(b.segments) + first.data
                + second.data
        }),
{
    let b1 = b.add_segment(first)->Ok_0;
    law_add_segment_keeps_wf(b, first);
    assert(!b1.has_index(second.index)) by {
        if b1.has_index(second.index) {
            let i = choose|i: int|
                0 <= i < b1.segments.len() && (#[trigger] b1.segments[i]).index == second.index;
            if i < b.segments.len() {
                assert(b.segments[i].index == second.index);
            }
        }
    }
    law_add_segment_keeps_wf(b1, second);
    law_payload_push(b.segments, first);
    law_payload_push(b.segments.push(first), second);
}

/// Adding a well-formed segment to a well-formed blob leaves it well formed,
/// and the segment is taken exactly when its index is not held yet.
pub proof fn law_add_segment_keeps_wf(b: BlobView, segment: SegmentView)
    requires
        b.wf(),
        segment.wf(),
    ensures
        b.add_segment(segment) is Ok <==> !b.has_index(segment.index),
        b.add_segment(segment) matches Ok(b1) ==> b1.wf() && b1.segments.last() == segment
            && b1.segments.drop_last() == b.segments,
{
    if let Ok(b1) = b.add_segment(segment) {
        assert(b1.segments.drop_last() =~= b.segments);
        assert forall|i: int, j: int| 0 <= i < j < b1.segments.len() implies (
        #[trigger] b1.segments[i]).index != (#[trigger] b1.segments[j]).index by {
            if j == b.segments.len() {
                assert(b.segments[i].index != segment.index);
            } else {
                assert(b1.segments[i] == b.segments[i] && b1.segments[j] == b.segments[j]);
            }
        }
    }
}

/// Segments added one after the other are all taken exactly when no index
/// occurs twice among them and those that the blob holds. The blob then
/// holds them behind its own, in the order in which they were added, and with
/// reassembly on the output is the old output followed by their payloads in
/// that order. Otherwise the outcome is the refusal of a duplicate.
pub proof fn law_segments_added_in_order(b: BlobView, segments: Seq<SegmentView>)
    requires
        distinct_indices(b.segments),
    ensures
        distinct_indices(b.segments + segments) ==> b.add_segments(segments) == Ok::<
            BlobView,
            RepoError,
        >(BlobView { segments: b.segments + segments, ..b }),
        !distinct_indices(b.segments + segments) ==> b.add_segments(segments) == Err::<
            BlobView,
            RepoError,
        >(RepoError::DuplicateKey),
        b.add_segments(segments) matches Ok(b1) ==> b1.with_recombine(true).recombined()
            == b.with_recombine(true).recombined() + payload(segments),
    decreases segments.len(),
{
    let all = b.segments + segments;
    if segments.len() == 0 {
        assert(all =~= b.segments);
        assert(payload(b.segments) + payload(segments) =~= payload(b.segments));
    } else {
        let init = segments.drop_last();
        let last = segments.last();
        let before = b.segments + init;
        law_segments_added_in_order(b, init);
        assert(all =~= before.push(last));
        assert(all.drop_last() =~= before);
        if distinct_indices(all) {
            assert forall|i: int, j: int| 0 <= i < j < before.len() implies (
            #[trigger] before[i]).index != (#[trigger] before[j]).index by {
                assert(all[i] == before[i] && all[j] == before[j]);
            }
            let b1 = BlobView { segments: before, ..b };
            assert(!b1.has_index(last.index)) by {
                if b1.has_index(last.index) {
                    let i = choose|i: int|
                        0 <= i < before.len() && (#[trigger] before[i]).index == last.index;
                    assert(all[i] == before[i] && all[before.len() as int] == last);
                }
            }
            law_payload_concat(b.segments, segments);
            law_payload_concat(b.segments, init);
            law_payload_push(before, last);
        } else if distinct_indices(before) {
            let b1 = BlobView { segments: before, ..b };
            let (i, j) = choose|i: int, j: int|
                0 <= i < j < all.len() && (#[trigger] all[i]).index == (#[trigger] all[j]).index;
            if j < before.len() {
                assert(all[i] == before[i] && all[j] == before[j]);
            } else {
                assert(before[i].index == last.index);
                assert(b1.has_index(last.index));
            }
        }
    }
}

/// While reassembly is off the output is empty, whatever the segments hold;
/// switching it on changes nothing but the switch.
pub proof fn law_recombine_off_is_empty(b: BlobView)
    ensures
        b.with_recombine(false).recombined() == Seq::<u8>::empty(),
        !b.recombine ==> b.recombined() == Seq::<u8>::empty(),
        b.with_recombine(true).recombined() == payload(b.segments),
        b.with_recombine(true).segments == b.segments,
{
}

} // verus!
