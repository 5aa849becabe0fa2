use crate::event::{PipeAction, ReadView, ReplyView};
use crate::mime::{all_complete, MimeView};
use crate::offer::OfferView;
use crate::selection::Selection;
use vstd::prelude::*;

verus! {

/// Who owns a selection.
pub enum SlotView {
    /// Nobody.
    Free,
    /// We do: with this content, served through the source `source`.
    Ours { data: MimeView, source: u32 },
    /// Another client, through the offer `data_offer_id`.
    Client { data_offer_id: u32 },
}

impl SlotView {
    /// If the selection is ours, its content has some content type, and each
    /// one was read to its end.
    pub open spec fn held_in_full(self) -> bool {
        match self {
            SlotView::Ours { data, source } => all_complete(data) && data.dom() != Set::<
                Seq<char>,
            >::empty(),
            _ => true,
        }
    }
}

/// The whole state as mathematics: the owner of each selection and the
/// offers that are pending.
pub struct LoopView {
    pub primary: SlotView,
    pub clipboard: SlotView,
    pub offers: Map<u32, OfferView>,
}

impl LoopView {
    /// Both selections free, no offer pending.
    pub open spec fn initial() -> LoopView {
        LoopView { primary: SlotView::Free, clipboard: SlotView::Free, offers: Map::empty() }
    }

    /// The owner of `selection`.
    pub open spec fn slot(self, selection: Selection) -> SlotView {
        match selection {
            Selection::Primary => self.primary,
            Selection::Clipboard => self.clipboard,
        }
    }

    /// The state with `slot` as the owner of `selection`.
    pub open spec fn set_slot(self, selection: Selection, slot: SlotView) -> LoopView {
        match selection {
            Selection::Primary => LoopView {
                primary: slot,
                clipboard: self.clipboard,
                offers: self.offers,
            },
            Selection::Clipboard => LoopView {
                primary: self.primary,
                clipboard: slot,
                offers: self.offers,
            },
        }
    }

    /// The state with `offers` pending.
    pub open spec fn set_offers(self, offers: Map<u32, OfferView>) -> LoopView {
        LoopView { primary: self.primary, clipboard: self.clipboard, offers }
    }

    /// `selection` is ours.
    pub open spec fn is_ours(self, selection: Selection) -> bool {
        self.slot(selection) is Ours
    }

    /// `selection` belongs to the offer `id`.
    pub open spec fn owned_by_client(self, selection: Selection, id: u32) -> bool {
        self.slot(selection) == (SlotView::Client { data_offer_id: id })
    }

    /// What we hold for `selection`, if it is ours.
    pub open spec fn data(self, selection: Selection) -> Option<MimeView> {
        match self.slot(selection) {
            SlotView::Ours { data, source } => Some(data),
            _ => None,
        }
    }

    /// The state after the tracker was told that `selection` belongs to the
    /// offer `id`: while the selection is ours that is the echo of our own
    /// claim and changes nothing, else the offer is its owner.
    pub open spec fn record_client(self, selection: Selection, id: u32) -> LoopView {
        if self.is_ours(selection) {
            self
        } else {
            self.set_slot(selection, SlotView::Client { data_offer_id: id })
        }
    }

    /// Whatever we own, we hold in full: some content type, and each one read
    /// to its end.
    pub open spec fn inv(self) -> bool {
        self.primary.held_in_full() && self.clipboard.held_in_full()
    }

    /// The compositor created the offer `id`. Whatever was pending under that
    /// id is gone.
    pub open spec fn announce(self, id: u32) -> LoopView {
        self.set_offers(self.offers.insert(id, OfferView::empty()))
    }

    /// The offer `id` advertised `mime_type`.
    pub open spec fn advertise(self, id: u32, mime_type: Seq<char>) -> LoopView {
        if self.offers.contains_key(id) {
            self.set_offers(self.offers.insert(id, self.offers[id].advertise(mime_type)))
        } else {
            self
        }
    }

    /// The compositor reported that `selection` belongs to the offer `id`, or
    /// with `None` to nobody. While the selection is ours the report changes nothing.
    pub open spec fn selection_taken(self, id: Option<u32>, selection: Selection) -> LoopView {
        if self.is_ours(selection) {
            self
        } else {
            match id {
                None => self.set_slot(selection, SlotView::Free),
                Some(i) => {
                    let noted = self.record_client(selection, i);
                    if self.offers.contains_key(i) {
                        noted.set_offers(self.offers.insert(i, self.offers[i].confirm(selection)))
                    } else {
                        noted
                    }
                },
            }
        }
    }

    /// Whether that report makes us start reading the offer: it is not the
    /// echo of our own claim, the offer is pending, and it was not confirmed before.
    pub open spec fn starts_reading(self, id: Option<u32>, selection: Selection) -> bool {
        &&& !self.is_ours(selection)
        &&& id matches Some(i)
        &&& self.offers.contains_key(i)
        &&& self.offers[i].selection is None
    }

    /// The pipe for `mime_type` of the offer `id` could not be set up: that
    /// content type is given up.
    pub open spec fn drop_type(self, id: u32, mime_type: Seq<char>) -> LoopView {
        if self.offers.contains_key(id) {
            self.set_offers(self.offers.insert(id, self.offers[id].drop_type(mime_type)))
        } else {
            self
        }
    }

    /// `mime_type` of the offer `id` is being read.
    pub open spec fn live(self, id: u32, mime_type: Seq<char>) -> bool {
        self.offers.contains_key(id) && self.offers[id].live(mime_type)
    }

    /// The selection that the offer `id` may take over: the offer is pending
    /// and read in full, and the selection it was confirmed for still belongs to it.
    pub open spec fn promotes(self, id: u32) -> Option<Selection> {
        if self.offers.contains_key(id) && self.offers[id].ready() {
            match self.offers[id].selection {
                Some(selection) => if self.owned_by_client(selection, id) {
                    Some(selection)
                } else {
                    None
                },
                None => None,
            }
        } else {
            None
        }
    }

    /// The state after one attempt to read `mime_type` of the offer `id`, and
    /// what is to be done with the reader.
    pub open spec fn pipe_event(self, id: u32, mime_type: Seq<char>, outcome: ReadView) -> (
        LoopView,
        PipeAction,
    ) {
        if !self.live(id, mime_type) {
            (self, PipeAction::Stale)
        } else {
            match outcome {
                ReadView::WouldBlock => (self, PipeAction::Wait),
                ReadView::Failed => (self, PipeAction::Error),
                ReadView::Read(chunk) => if chunk.len() > 0 {
                    (
                        self.set_offers(
                            self.offers.insert(id, self.offers[id].receive(mime_type, chunk)),
                        ),
                        PipeAction::ReadMore,
                    )
                } else {
                    let ended = self.set_offers(
                        self.offers.insert(id, self.offers[id].finish(mime_type)),
                    );
                    if !ended.offers[id].ready() {
                        (ended, PipeAction::Finished)
                    } else {
                        match ended.promotes(id) {
                            Some(selection) => (ended, PipeAction::Promote(selection)),
                            None => (self.set_offers(self.offers.remove(id)), PipeAction::Discard),
                        }
                    }
                },
            }
        }
    }

    /// The state after the source `source` was created for the offer `id`: if
    /// the offer may take its selection over, its buffers become ours and the
    /// offer is pending no more. Else nothing changes.
    pub open spec fn promote(self, id: u32, source: u32) -> LoopView {
        match self.promotes(id) {
            Some(selection) => self.set_slot(
                selection,
                SlotView::Ours { data: self.offers[id].mime_types, source },
            ).set_offers(self.offers.remove(id)),
            None => self,
        }
    }

    /// The reply to a client that asks the source `source` of `selection` for
    /// `mime_type`.
    pub open spec fn serve(self, selection: Selection, source: u32, mime_type: Seq<char>)
        -> ReplyView {
        match self.slot(selection) {
            SlotView::Ours { data, source: owner } => if owner != source {
                ReplyView::NoData
            } else if data.contains_key(mime_type) {
                ReplyView::Write(data[mime_type].bytes)
            } else {
                ReplyView::Unavailable
            },
            _ => ReplyView::NoData,
        }
    }

    /// The state after the source `source` of `selection` was cancelled: if
    /// the selection is ours through that source, it is free.
    pub open spec fn cancel(self, selection: Selection, source: u32) -> LoopView {
        match self.slot(selection) {
            SlotView::Ours { data, source: owner } => if owner == source {
                self.set_slot(selection, SlotView::Free)
            } else {
                self
            },
            _ => self,
        }
    }
}

/// The bytes of `chunks`, one chunk behind the other.
pub open spec fn concat(chunks: Seq<Seq<u8>>) -> Seq<u8>
    decreases chunks.len(),
{
    if chunks.len() == 0 {
        Seq::empty()
    } else {
        concat(chunks.drop_last()) + chunks.last()
    }
}

/// Anything that can happen to the state.
pub enum Event {
    /// The compositor created the offer `id`.
    Announced { id: u32 },
    /// The offer `id` advertised `mime_type`.
    Advertised { id: u32, mime_type: Seq<char> },
    /// The compositor reported the owner of `selection`.
    Taken { owner: Option<u32>, selection: Selection },
    /// The pipe for `mime_type` of the offer `id` could not be set up.
    PipeFailed { id: u32, mime_type: Seq<char> },
    /// One attempt to read `mime_type` of the offer `id` ended.
    Pipe { id: u32, mime_type: Seq<char>, outcome: ReadView },
    /// The source `source` was created for the offer `id`.
    SourceCreated { id: u32, source: u32 },
    /// A client asked the source `source` of `selection` for `mime_type`.
    Send { selection: Selection, source: u32, mime_type: Seq<char> },
    /// The source `source` of `selection` was cancelled.
    Cancelled { selection: Selection, source: u32 },
}

impl LoopView {
    /// The state after `event`.
    pub open spec fn step(self, event: Event) -> LoopView {
        match event {
            Event::Announced { id } => self.announce(id),
            Event::Advertised { id, mime_type } => self.advertise(id, mime_type),
            Event::Taken { owner, selection } => self.selection_taken(owner, selection),
            Event::PipeFailed { id, mime_type } => self.drop_type(id, mime_type),
            Event::Pipe { id, mime_type, outcome } => self.pipe_event(id, mime_type, outcome).0,
            Event::SourceCreated { id, source } => self.promote(id, source),
            Event::Send { selection, source, mime_type } => self,
            Event::Cancelled { selection, source } => self.cancel(selection, source),
        }
    }

    /// The state after `events`, one after the other.
    pub open spec fn run(self, events: Seq<Event>) -> LoopView
        decreases events.len(),
    {
        if events.len() == 0 {
            self
        } else {
            self.run(events.drop_last()).step(events.last())
        }
    }

    /// The state after each of `chunks`, in turn, was read of `mime_type` of
    /// the offer `id`.
    pub open spec fn feed(self, id: u32, mime_type: Seq<char>, chunks: Seq<Seq<u8>>) -> LoopView
        decreases chunks.len(),
    {
        if chunks.len() == 0 {
            self
        } else {
            self.feed(id, mime_type, chunks.drop_last()).pipe_event(
                id,
                mime_type,
                ReadView::Read(chunks.last()),
            ).0
        }
    }

    /// The offer `id` is pending and confirmed for a selection that belongs to it.
    pub open spec fn may_claim(self, id: u32) -> bool {
        &&& self.offers.contains_key(id)
        &&& self.offers[id].selection matches Some(selection)
        &&& self.owned_by_client(selection, id)
    }
}

} // verus!
