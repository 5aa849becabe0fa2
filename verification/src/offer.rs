use crate::buffer::{BufferView, SelectionData};
use crate::mime::{all_complete, MimeTypes, MimeView};
use crate::selection::Selection;
use crate::text::{is_well_formed, well_formed};
use vstd::prelude::*;

verus! {

/// An offer as mathematics: the selection it was confirmed for, if any yet, and
/// its buffers.
pub struct OfferView {
    pub selection: Option<Selection>,
    pub mime_types: MimeView,
}

impl OfferView {
    /// An offer as it is announced: not confirmed, no content type.
    pub open spec fn empty() -> OfferView {
        OfferView { selection: None, mime_types: Map::empty() }
    }

    /// The offer after it advertised `mime_type`. A malformed name is passed
    /// over, and so is one that the offer holds already.
    pub open spec fn advertise(self, mime_type: Seq<char>) -> OfferView {
        if well_formed(mime_type) && !self.mime_types.contains_key(mime_type) {
            OfferView {
                selection: self.selection,
                mime_types: self.mime_types.insert(mime_type, BufferView::empty()),
            }
        } else {
            self
        }
    }

    /// The offer after it was confirmed for `selection`. The first
    /// confirmation stays.
    pub open spec fn confirm(self, selection: Selection) -> OfferView {
        if self.selection is None {
            OfferView { selection: Some(selection), mime_types: self.mime_types }
        } else {
            self
        }
    }

    /// `mime_type` has a buffer whose stream is still open.
    pub open spec fn live(self, mime_type: Seq<char>) -> bool {
        self.mime_types.contains_key(mime_type) && !self.mime_types[mime_type].complete
    }

    /// The offer after `chunk` arrived for `mime_type`.
    pub open spec fn receive(self, mime_type: Seq<char>, chunk: Seq<u8>) -> OfferView {
        if self.mime_types.contains_key(mime_type) {
            OfferView {
                selection: self.selection,
                mime_types: self.mime_types.insert(
                    mime_type,
                    self.mime_types[mime_type].append(chunk),
                ),
            }
        } else {
            self
        }
    }

    /// The offer after the stream of `mime_type` ended.
    pub open spec fn finish(self, mime_type: Seq<char>) -> OfferView {
        if self.mime_types.contains_key(mime_type) {
            OfferView {
                selection: self.selection,
                mime_types: self.mime_types.insert(mime_type, self.mime_types[mime_type].finish()),
            }
        } else {
            self
        }
    }

    /// The offer without `mime_type`.
    pub open spec fn drop_type(self, mime_type: Seq<char>) -> OfferView {
        OfferView { selection: self.selection, mime_types: self.mime_types.remove(mime_type) }
    }

    /// The offer has a content type, and each one was read to its end.
    pub open spec fn ready(self) -> bool {
        self.mime_types.dom() != Set::<Seq<char>>::empty() && all_complete(self.mime_types)
    }
}

/// What another client makes available for a selection: the content types it
/// advertised, each with the bytes read of it so far, and the selection that
/// the compositor confirmed it for.
#[derive(Debug)]
pub struct DataOffer {
    mime_types: MimeTypes,
    selection: Option<Selection>,
}

impl View for DataOffer {
    type V = OfferView;

    closed spec fn view(&self) -> OfferView {
        OfferView { selection: self.selection, mime_types: self.mime_types@ }
    }
}

impl DataOffer {
    /// Its buffers are well formed.
    pub closed spec fn wf(&self) -> bool {
        self.mime_types.wf()
    }

    /// An offer as it is announced.
    pub fn new() -> (offer: DataOffer)
        ensures
            offer.wf(),
            offer@ == OfferView::empty(),
    {
        DataOffer { mime_types: MimeTypes::new(), selection: None }
    }

    /// The selection that the offer was confirmed for.
    pub fn selection(&self) -> (selection: Option<Selection>)
        ensures
            selection == self@.selection,
    {
        self.selection
    }

    /// The content types with their buffers.
    pub fn mime_types(&self) -> (types: &MimeTypes)
        ensures
            types.wf() == self.wf(),
            types@ == self@.mime_types,
    {
        &self.mime_types
    }

    /// The buffer of `mime_type`, if the offer advertised it.
    pub fn get(&self, mime_type: &str) -> (buffer: Option<&SelectionData>)
        requires
            self.wf(),
        ensures
            match buffer {
                Some(b) => self@.mime_types.contains_key(mime_type@) && b@
                    == self@.mime_types[mime_type@],
                None => !self@.mime_types.contains_key(mime_type@),
            },
    {
        self.mime_types.get(mime_type)
    }

    /// Whether the offer has a content type and each one was read to its end.
    pub fn is_ready(&self) -> (ready: bool)
        requires
            self.wf(),
        ensures
            ready == self@.ready(),
    {
        let n = self.mime_types.len();
        proof {
            if n == 0 {
                self@.mime_types.dom().lemma_len0_is_empty();
            } else {
                assert(self@.mime_types.dom() != Set::<Seq<char>>::empty());
            }
        }
        n > 0 && self.mime_types.all_complete()
    }

    /// Takes note of a content type that the offer advertises. A name without
    /// the separator is passed over, and so is one advertised before.
    pub fn advertise(&mut self, mime_type: String)
        requires
            old(self).wf(),
        ensures
            final(self).wf(),
            final(self)@ == old(self)@.advertise(mime_type@),
    {
        if is_well_formed(mime_type.as_str()) {
            self.mime_types.add(mime_type);
        }
    }

    /// Sets the selection, once: a later confirmation changes nothing. Tells
    /// whether this call set it.
    pub fn confirm(&mut self, selection: Selection) -> (first: bool)
        requires
            old(self).wf(),
        ensures
            final(self).wf(),
            final(self)@ == old(self)@.confirm(selection),
            first == (old(self)@.selection is None),
    {
        match self.selection {
            None => {
                self.selection = Some(selection);
                true
            },
            Some(_) => false,
        }
    }

    /// Whether `mime_type` has a buffer whose stream is still open.
    pub fn is_live(&self, mime_type: &str) -> (live: bool)
        requires
            self.wf(),
        ensures
            live == self@.live(mime_type@),
    {
        match self.mime_types.get(mime_type) {
            Some(buffer) => !buffer.is_complete(),
            None => false,
        }
    }

    /// Adds `chunk` behind what was read of `mime_type`.
    pub(crate) fn receive(&mut self, mime_type: &str, chunk: &[u8])
        requires
            old(self).wf(),
        ensures
            final(self).wf(),
            final(self)@ == old(self)@.receive(mime_type@, chunk@),
    {
        self.mime_types.append(mime_type, chunk);
    }

    /// Notes that the stream of `mime_type` ended.
    pub(crate) fn finish(&mut self, mime_type: &str)
        requires
            old(self).wf(),
        ensures
            final(self).wf(),
            final(self)@ == old(self)@.finish(mime_type@),
    {
        self.mime_types.mark_complete(mime_type);
    }

    /// Gives up `mime_type`. Its siblings stay.
    pub(crate) fn drop_type(&mut self, mime_type: &str)
        requires
            old(self).wf(),
        ensures
            final(self).wf(),
            final(self)@ == old(self)@.drop_type(mime_type@),
    {
        self.mime_types.remove(mime_type);
    }

    /// Hands the buffers over and leaves the offer behind.
    pub(crate) fn into_mime_types(self) -> (types: MimeTypes)
        requires
            self.wf(),
        ensures
            types.wf(),
            types@ == self@.mime_types,
    {
        self.mime_types
    }
}

impl Default for DataOffer {
    fn default() -> (offer: DataOffer)
        ensures
            offer.wf(),
            offer@ == OfferView::empty(),
    {
        DataOffer::new()
    }
}

} // verus!
