use crate::mime::{all_complete, MimeTypes};
use crate::model::{LoopView, SlotView};
use crate::offer::DataOffer;
use crate::registry::PendingOffers;
use crate::selection::Selection;
use vstd::prelude::*;

verus! {

#[derive(Debug)]
enum SelectionState {
    Free,
    Ours { data: MimeTypes, source: u32 },
    Client { data_offer_id: u32 },
}

impl View for SelectionState {
    type V = SlotView;

    closed spec fn view(&self) -> SlotView {
        match *self {
            SelectionState::Free => SlotView::Free,
            SelectionState::Ours { data, source } => SlotView::Ours { data: data@, source },
            SelectionState::Client { data_offer_id } => SlotView::Client { data_offer_id },
        }
    }
}

impl SelectionState {
    closed spec fn wf(&self) -> bool {
        match *self {
            SelectionState::Ours { data, source } => data.wf(),
            _ => true,
        }
    }
}

/// The state that every handler works on: who owns each of the two
/// selections, and the offers that are pending.
#[derive(Debug)]
pub struct LoopData {
    primary: SelectionState,
    clipboard: SelectionState,
    offers: PendingOffers,
}

impl View for LoopData {
    type V = LoopView;

    closed spec fn view(&self) -> LoopView {
        LoopView { primary: self.primary@, clipboard: self.clipboard@, offers: self.offers@ }
    }
}

impl LoopData {
    /// The parts are well formed, and what we own we hold in full.
    pub closed spec fn wf(&self) -> bool {
        &&& self.primary.wf()
        &&& self.clipboard.wf()
        &&& self.offers.wf()
        &&& self@.inv()
    }

    /// What holds of the state of every well-formed value.
    pub proof fn lemma_wf_inv(&self)
        requires
            self.wf(),
        ensures
            self@.inv(),
    {
    }

    /// Both selections free, no offer pending.
    pub fn new() -> (loop_data: LoopData)
        ensures
            loop_data.wf(),
            loop_data@ == LoopView::initial(),
    {
        let loop_data = LoopData {
            primary: SelectionState::Free,
            clipboard: SelectionState::Free,
            offers: PendingOffers::new(),
        };
        loop_data
    }

    /// Makes `selection` ours, with `data` as its content and `source` as the
    /// source that serves it.
    pub(crate) fn take_selection(&mut self, selection: Selection, data: MimeTypes, source: u32)
        requires
            old(self).wf(),
            data.wf(),
            (SlotView::Ours { data: data@, source }).held_in_full(),
        ensures
            final(self).wf(),
            final(self)@ == old(self)@.set_slot(selection, SlotView::Ours { data: data@, source }),
    {
        let new_state = SelectionState::Ours { data, source };
        match selection {
            Selection::Primary => {
                self.primary = new_state;
            },
            Selection::Clipboard => {
                self.clipboard = new_state;
            },
        }
    }

    /// Notes that `selection` belongs to the offer `data_offer_id`, unless the
    /// selection is ours: then the compositor is echoing our own claim, and
    /// nothing changes. The other selection is left alone.
    pub fn set_data_offer_for_selection(&mut self, selection: Selection, data_offer_id: u32)
        requires
            old(self).wf(),
        ensures
            final(self).wf(),
            final(self)@ == old(self)@.record_client(selection, data_offer_id),
    {
        if self.is_selection_ours(selection) {
            return;
        }
        let new_state = SelectionState::Client { data_offer_id };
        match selection {
            Selection::Primary => {
                self.primary = new_state;
            },
            Selection::Clipboard => {
                self.clipboard = new_state;
            },
        }
    }

    /// Whether `selection` belongs to the offer `id`.
    pub fn is_selection_owned_by_client(&self, selection: Selection, id: u32) -> (owned: bool)
        ensures
            owned == self@.owned_by_client(selection, id),
    {
        let state = match selection {
            Selection::Primary => &self.primary,
            Selection::Clipboard => &self.clipboard,
        };
        match state {
            SelectionState::Client { data_offer_id } => *data_offer_id == id,
            _ => false,
        }
    }

    /// Notes that nobody owns `selection`.
    pub(crate) fn selection_lost(&mut self, selection: Selection)
        requires
            old(self).wf(),
        ensures
            final(self).wf(),
            final(self)@ == old(self)@.set_slot(selection, SlotView::Free),
    {
        match selection {
            Selection::Primary => {
                self.primary = SelectionState::Free;
            },
            Selection::Clipboard => {
                self.clipboard = SelectionState::Free;
            },
        }
    }

    /// Whether `selection` is ours.
    pub fn is_selection_ours(&self, selection: Selection) -> (ours: bool)
        ensures
            ours == self@.is_ours(selection),
    {
        let state = match selection {
            Selection::Primary => &self.primary,
            Selection::Clipboard => &self.clipboard,
        };
        match state {
            SelectionState::Ours { .. } => true,
            _ => false,
        }
    }

    /// What we hold for `selection`, if it is ours: every content type of it,
    /// each read to its end.
    pub fn get_selection_data(&self, selection: Selection) -> (data: Option<&MimeTypes>)
        requires
            self.wf(),
        ensures
            match data {
                Some(d) => d.wf() && self@.data(selection) == Some(d@) && all_complete(d@),
                None => self@.data(selection) is None,
            },
    {
        let state = match selection {
            Selection::Primary => &self.primary,
            Selection::Clipboard => &self.clipboard,
        };
        match state {
            SelectionState::Ours { data, .. } => {
                assert(self@.slot(selection) is Ours);
                Some(data)
            },
            _ => None,
        }
    }

    /// The source through which `selection` is ours, if it is.
    pub fn source(&self, selection: Selection) -> (source: Option<u32>)
        ensures
            match source {
                Some(s) => self@.slot(selection) matches SlotView::Ours { data, source: owner }
                    && owner == s,
                None => !self@.is_ours(selection),
            },
    {
        let state = match selection {
            Selection::Primary => &self.primary,
            Selection::Clipboard => &self.clipboard,
        };
        match state {
            SelectionState::Ours { source, .. } => Some(*source),
            _ => None,
        }
    }

    /// The pending offer with the id `id`, if there is one.
    pub fn offer(&self, id: u32) -> (offer: Option<&DataOffer>)
        requires
            self.wf(),
        ensures
            match offer {
                Some(o) => self@.offers.contains_key(id) && o@ == self@.offers[id] && o.wf(),
                None => !self@.offers.contains_key(id),
            },
    {
        self.offers.get(id)
    }

    /// Puts `offer` among the pending ones under `id`.
    pub(crate) fn put_offer(&mut self, id: u32, offer: DataOffer)
        requires
            old(self).wf(),
            offer.wf(),
        ensures
            final(self).wf(),
            final(self)@ == old(self)@.set_offers(old(self)@.offers.insert(id, offer@)),
    {
        self.offers.put(id, offer);
    }

    /// Takes the offer `id` from the pending ones.
    pub(crate) fn take_offer(&mut self, id: u32) -> (offer: Option<DataOffer>)
        requires
            old(self).wf(),
        ensures
            final(self).wf(),
            final(self)@ == old(self)@.set_offers(old(self)@.offers.remove(id)),
            match offer {
                Some(o) => old(self)@.offers.contains_key(id) && o@ == old(self)@.offers[id]
                    && o.wf(),
                None => !old(self)@.offers.contains_key(id),
            },
    {
        let offer = self.offers.take(id);
        offer
    }

    /// Takes note of a content type that the offer `id` advertises.
    pub(crate) fn advertise(&mut self, id: u32, mime_type: String)
        requires
            old(self).wf(),
        ensures
            final(self).wf(),
            final(self)@ == old(self)@.advertise(id, mime_type@),
    {
        self.offers.advertise(id, mime_type);
    }

    /// Confirms the offer `id` for `selection`, unless it was confirmed before
    /// or is not pending. Tells whether this call confirmed it.
    pub(crate) fn confirm(&mut self, id: u32, selection: Selection) -> (first: bool)
        requires
            old(self).wf(),
        ensures
            final(self).wf(),
            final(self)@ == if old(self)@.offers.contains_key(id) {
                old(self)@.set_offers(
                    old(self)@.offers.insert(id, old(self)@.offers[id].confirm(selection)),
                )
            } else {
                old(self)@
            },
            first == (old(self)@.offers.contains_key(id) && old(self)@.offers[id].selection
                is None),
    {
        let first = self.offers.confirm(id, selection);
        first
    }

    /// Adds `chunk` behind what was read of `mime_type` of the offer `id`.
    pub(crate) fn receive(&mut self, id: u32, mime_type: &str, chunk: &[u8])
        requires
            old(self).wf(),
            old(self)@.offers.contains_key(id),
        ensures
            final(self).wf(),
            final(self)@ == old(self)@.set_offers(
                old(self)@.offers.insert(id, old(self)@.offers[id].receive(mime_type@, chunk@)),
            ),
    {
        self.offers.receive(id, mime_type, chunk);
    }

    /// Notes that the stream of `mime_type` of the offer `id` ended.
    pub(crate) fn finish(&mut self, id: u32, mime_type: &str)
        requires
            old(self).wf(),
            old(self)@.offers.contains_key(id),
        ensures
            final(self).wf(),
            final(self)@ == old(self)@.set_offers(
                old(self)@.offers.insert(id, old(self)@.offers[id].finish(mime_type@)),
            ),
    {
        self.offers.finish(id, mime_type);
    }

    /// Gives up `mime_type` of the offer `id`.
    pub(crate) fn drop_type(&mut self, id: u32, mime_type: &str)
        requires
            old(self).wf(),
        ensures
            final(self).wf(),
            final(self)@ == old(self)@.drop_type(id, mime_type@),
    {
        self.offers.drop_type(id, mime_type);
    }
}

} // verus!
