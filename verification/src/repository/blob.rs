//! Segments: the ordered chunks of binary content that a blob is made of.

use vstd::prelude::*;
use crate::error::RepoError;
use crate::model::lift;

verus! {

/// What a segment is: its ordinal, its payload and its compression flag.
pub struct SegmentView {
    pub index: u32,
    pub data: Seq<u8>,
    pub compressed: bool,
}

impl SegmentView {
    /// A segment always carries a payload of at least one byte.
    pub open spec fn wf(self) -> bool {
        self.data.len() > 0
    }

    /// The outcome of building a segment from its three parts.
    pub open spec fn create(index: u32, data: Seq<u8>, compressed: bool) -> Result<
        SegmentView,
        RepoError,
    > {
        if data.len() == 0 {
            Err(RepoError::InvalidArgument)
        } else {
            Ok(SegmentView { index, data, compressed })
        }
    }

    /// The outcome of replacing the payload: the new segment, or the refusal.
    pub open spec fn with_data(self, data: Seq<u8>) -> Result<SegmentView, RepoError> {
        if data.len() == 0 {
            Err(RepoError::InvalidArgument)
        } else {
            Ok(SegmentView { data, ..self })
        }
    }
}

/// A chunk of binary content, tagged with its ordinal and a compression flag.
pub struct Segment {
    pub(crate) index: u32,
    pub(crate) data: Vec<u8>,
    pub(crate) compressed: bool,
}

impl View for Segment {
    type V = SegmentView;

    closed spec fn view(&self) -> SegmentView {
        SegmentView { index: self.index, data: self.data@, compressed: self.compressed }
    }
}

impl Segment {
    /// Builds a segment; an empty payload is refused.
    pub fn new(index: u32, data: Vec<u8>, compressed: bool) -> (r: Result<Segment, RepoError>)
        ensures
            lift(r) == SegmentView::create(index, data@, compressed),
            r matches Ok(v) ==> v@.wf(),
    {
        if data.is_empty() {
            return Err(RepoError::InvalidArgument);
        }
        Ok(Segment { index, data, compressed })
    }

    /// The payload.
    pub fn get_data(&self) -> (r: &Vec<u8>)
        ensures
            r@ == self@.data,
    {
        &self.data
    }

    /// The ordinal that the segment was built with.
    pub fn get_index(&self) -> (r: u32)
        ensures
            r == self@.index,
    {
        self.index
    }

    /// Whether the payload is marked as compressed.
    pub fn is_compressed(&self) -> (r: bool)
        ensures
            r == self@.compressed,
    {
        self.compressed
    }

    /// Replaces the payload; an empty one is refused and changes nothing.
    pub fn set_data(&mut self, data: Vec<u8>) -> (r: Result<(), RepoError>)
        ensures
            match old(self)@.with_data(data@) {
                Ok(v) => r is Ok && final(self)@ == v,
                Err(e) => r == Err::<(), RepoError>(e) && final(self)@ == old(self)@,
            },
            old(self)@.wf() ==> final(self)@.wf(),
    {
        if data.is_empty() {
            return Err(RepoError::InvalidArgument);
        }
        self.data = data;
        Ok(())
    }
}

/// A segment that was built keeps the payload it was built from, and every
/// segment that was built is well formed.
pub proof fn law_new_keeps_payload(index: u32, data: Seq<u8>, compressed: bool)
    requires
        data.len() > 0,
    ensures
        SegmentView::create(index, data, compressed) is Ok,
        SegmentView::create(index, data, compressed)->Ok_0.data == data,
        SegmentView::create(index, data, compressed)->Ok_0.wf(),
{
}

/// No segment is built from an empty payload, whatever its index and flag,
/// and no segment takes an empty payload as a replacement.
pub proof fn law_empty_payload_refused(index: u32, compressed: bool, s: SegmentView)
    ensures
        SegmentView::create(index, Seq::empty(), compressed) == Err::<SegmentView, RepoError>(
            RepoError::InvalidArgument,
        ),
        s.with_data(Seq::empty()) == Err::<SegmentView, RepoError>(RepoError::InvalidArgument),
{
}

/// A payload that was accepted as a replacement is the payload afterwards,
/// and the segment stays well formed whatever the outcome.
pub proof fn law_set_data_keeps_wf(s: SegmentView, data: Seq<u8>)
    requires
        s.wf(),
    ensures
        s.with_data(data) is Ok <==> data.len() > 0,
        s.with_data(data) matches Ok(t) ==> t.wf() && t.data == data && t.index == s.index
            && t.compressed == s.compressed,
{
}

} // verus!
