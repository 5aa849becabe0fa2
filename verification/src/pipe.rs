use crate::event::{PipeAction, ReadOutcome, ReplyView, SourceAction, SourceEvent};
use crate::mime::texts;
use crate::model::LoopView;
use crate::offer::DataOffer;
use crate::selection::Selection;
use crate::tracker::LoopData;
use vstd::prelude::*;

verus! {

/// What a promotion leaves for the caller to do: take `selection` with the
/// new source, after advertising each of `mime_types` on it.
#[derive(Debug, PartialEq, Eq)]
pub struct Promotion {
    pub selection: Selection,
    pub mime_types: Vec<String>,
}

/// The content types that are to be asked of an offer, each of them once.
pub fn read_offer(user_data: &DataOffer) -> (mime_types: Vec<String>)
    requires
        user_data.wf(),
    ensures
        texts(mime_types@).no_duplicates(),
        texts(mime_types@).to_set() == user_data@.mime_types.dom(),
        mime_types@.len() == user_data@.mime_types.dom().len(),
{
    user_data.mime_types().names()
}

/// The selection that the offer `data_offer_id` may take over now, if any.
pub fn promotable(loop_data: &LoopData, data_offer_id: u32) -> (selection: Option<Selection>)
    requires
        loop_data.wf(),
    ensures
        selection == loop_data@.promotes(data_offer_id),
{
    match loop_data.offer(data_offer_id) {
        Some(offer) => {
            if offer.is_ready() {
                match offer.selection() {
                    Some(selection) => {
                        if loop_data.is_selection_owned_by_client(selection, data_offer_id) {
                            Some(selection)
                        } else {
                            None
                        }
                    },
                    None => None,
                }
            } else {
                None
            }
        },
        None => None,
    }
}

/// Handles the failure to set up the pipe for `mime_type` of the offer
/// `data_offer_id`: that content type alone is given up.
pub fn handle_pipe_failure(loop_data: &mut LoopData, data_offer_id: u32, mime_type: &str)
    requires
        old(loop_data).wf(),
    ensures
        final(loop_data).wf(),
        final(loop_data)@ == old(loop_data)@.drop_type(data_offer_id, mime_type@),
{
    loop_data.drop_type(data_offer_id, mime_type);
}

/// Handles one attempt to read `mime_type` of the offer `data_offer_id`.
///
/// Bytes that came are added behind those held. A read that gave no bytes is the
/// end of the stream: the buffer is complete, and if it was the last one open,
/// the offer either is ready to take its selection over, or, where the selection
/// has moved on meanwhile, is dropped with all that was read of it.
pub fn handle_pipe_event(
    loop_data: &mut LoopData,
    data_offer_id: u32,
    mime_type: &str,
    outcome: ReadOutcome<'_>,
) -> (action: PipeAction)
    requires
        old(loop_data).wf(),
    ensures
        final(loop_data).wf(),
        (final(loop_data)@, action) == old(loop_data)@.pipe_event(
            data_offer_id,
            mime_type@,
            outcome@,
        ),
{
    let live = match loop_data.offer(data_offer_id) {
        Some(offer) => offer.is_live(mime_type),
        None => false,
    };
    if !live {
        return PipeAction::Stale;
    }
    match outcome {
        ReadOutcome::WouldBlock => PipeAction::Wait,
        ReadOutcome::Failed => PipeAction::Error,
        ReadOutcome::Read(chunk) => {
            if chunk.len() > 0 {
                loop_data.receive(data_offer_id, mime_type, chunk);
                PipeAction::ReadMore
            } else {
                loop_data.finish(data_offer_id, mime_type);
                let ready = match loop_data.offer(data_offer_id) {
                    Some(offer) => offer.is_ready(),
                    None => false,
                };
                if !ready {
                    PipeAction::Finished
                } else {
                    match promotable(loop_data, data_offer_id) {
                        Some(selection) => PipeAction::Promote(selection),
                        None => {
                            let _ = loop_data.take_offer(data_offer_id);
                            assert(loop_data@.offers =~= old(loop_data)@.offers.remove(
                                data_offer_id,
                            ));
                            PipeAction::Discard
                        },
                    }
                }
            }
        },
    }
}

/// Takes the selection over for the offer `data_offer_id`, with `source` as
/// the source that was created to serve it.
///
/// If the offer is read in full and still owns the selection it was confirmed
/// for, its buffers become ours, untouched, the offer is pending no more, and
/// the caller learns which selection to take and which content types to
/// advertise. Else nothing changes.
pub fn create_data_source(loop_data: &mut LoopData, data_offer_id: u32, source: u32) -> (promotion:
    Option<Promotion>)
    requires
        old(loop_data).wf(),
    ensures
        final(loop_data).wf(),
        final(loop_data)@ == old(loop_data)@.promote(data_offer_id, source),
        match promotion {
            Some(p) => {
                &&& old(loop_data)@.promotes(data_offer_id) == Some(p.selection)
                &&& texts(p.mime_types@).no_duplicates()
                &&& texts(p.mime_types@).to_set()
                    == old(loop_data)@.offers[data_offer_id].mime_types.dom()
            },
            None => old(loop_data)@.promotes(data_offer_id) is None,
        },
{
    match promotable(loop_data, data_offer_id) {
        Some(selection) => {
            match loop_data.take_offer(data_offer_id) {
                Some(offer) => {
                    let mime_types = read_offer(&offer);
                    loop_data.take_selection(selection, offer.into_mime_types(), source);
                    Some(Promotion { selection, mime_types })
                },
                None => None,
            }
        },
        None => None,
    }
}

/// The state after a report of the source `source` of `selection`.
pub open spec fn source_event(
    before: LoopView,
    selection: Selection,
    source: u32,
    event: SourceEvent,
) -> LoopView {
    match event {
        SourceEvent::Send { mime_type } => before,
        SourceEvent::Cancelled => before.cancel(selection, source),
    }
}

/// The reply to a report of the source `source` of `selection`.
pub open spec fn source_reply(
    before: LoopView,
    selection: Selection,
    source: u32,
    event: SourceEvent,
) -> ReplyView {
    match event {
        SourceEvent::Send { mime_type } => before.serve(selection, source, mime_type@),
        SourceEvent::Cancelled => ReplyView::Destroy,
    }
}

/// Handles a report of the source `source`, which was created for `selection`.
///
/// A client that pastes is served what we hold for the content type it names,
/// all of it and nothing else; it gets nothing where we hold no such content
/// type or the selection is not ours through this source. A source that is
/// cancelled gives the selection up, if it held it, and is to be destroyed.
pub fn handle_source_event<'a>(
    loop_data: &'a mut LoopData,
    selection: Selection,
    source: u32,
    event: SourceEvent,
) -> (action: SourceAction<'a>)
    requires
        old(loop_data).wf(),
    ensures
        final(loop_data).wf(),
        final(loop_data)@ == source_event(old(loop_data)@, selection, source, event),
        action@ == source_reply(old(loop_data)@, selection, source, event),
{
    let owner = loop_data.source(selection);
    match event {
        SourceEvent::Send { mime_type } => {
            if owner != Some(source) {
                return SourceAction::NoData;
            }
            match loop_data.get_selection_data(selection) {
                Some(mime_types) => match mime_types.get(mime_type.as_str()) {
                    Some(selection_data) => SourceAction::Write(selection_data.data()),
                    None => SourceAction::Unavailable,
                },
                None => SourceAction::NoData,
            }
        },
        SourceEvent::Cancelled => {
            if owner == Some(source) {
                loop_data.selection_lost(selection);
            }
            SourceAction::Destroy
        },
    }
}

} // verus!
