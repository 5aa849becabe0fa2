use vstd::prelude::*;

verus! {

/// What a buffer holds, as mathematics: the bytes gathered so far and whether
/// the stream they came from has ended.
pub struct BufferView {
    pub bytes: Seq<u8>,
    pub complete: bool,
}

impl BufferView {
    /// The buffer of a content type that was announced and not yet read.
    pub open spec fn empty() -> BufferView {
        BufferView { bytes: Seq::empty(), complete: false }
    }

    /// The buffer after `chunk` arrived.
    pub open spec fn append(self, chunk: Seq<u8>) -> BufferView {
        BufferView { bytes: self.bytes + chunk, complete: self.complete }
    }

    /// The buffer after its stream ended.
    pub open spec fn finish(self) -> BufferView {
        BufferView { bytes: self.bytes, complete: true }
    }
}

/// The bytes of one content type of one offer, gathered chunk by chunk, and a
/// flag that is raised once when the sender has closed its end.
#[derive(Debug)]
pub struct SelectionData {
    data: Vec<u8>,
    is_complete: bool,
}

impl View for SelectionData {
    type V = BufferView;

    closed spec fn view(&self) -> BufferView {
        BufferView { bytes: self.data@, complete: self.is_complete }
    }
}

impl SelectionData {
    /// An empty buffer whose stream is still open.
    pub fn new() -> (buffer: SelectionData)
        ensures
            buffer@ == BufferView::empty(),
    {
        SelectionData { data: Vec::new(), is_complete: false }
    }

    /// Adds `chunk` behind the bytes already held. Nothing held is changed.
    pub fn append(&mut self, chunk: &[u8])
        ensures
            final(self)@ == old(self)@.append(chunk@),
    {
        self.data.extend_from_slice(chunk);
        assert(self.data@ =~= old(self).data@ + chunk@);
    }

    /// Raises the completion flag. It is never lowered again.
    pub fn mark_complete(&mut self)
        ensures
            final(self)@ == old(self)@.finish(),
    {
        self.is_complete = true;
    }

    /// Whether the stream has ended.
    pub fn is_complete(&self) -> (complete: bool)
        ensures
            complete == self@.complete,
    {
        self.is_complete
    }

    /// The bytes gathered so far, in the order of their arrival.
    pub fn data(&self) -> (bytes: &[u8])
        ensures
            bytes@ == self@.bytes,
    {
        self.data.as_slice()
    }

    /// How many bytes were gathered so far.
    pub fn len(&self) -> (n: usize)
        ensures
            n == self@.bytes.len(),
    {
        self.data.len()
    }
}

impl Default for SelectionData {
    fn default() -> (buffer: SelectionData)
        ensures
            buffer@ == BufferView::empty(),
    {
        SelectionData::new()
    }
}

} // verus!
