use crate::event::{DeviceAction, DeviceEvent, OfferEvent, SelectionAction};
use crate::mime::texts;
use crate::model::LoopView;
use crate::offer::DataOffer;
use crate::pipe::read_offer;
use crate::selection::Selection;
use crate::tracker::LoopData;
use vstd::prelude::*;

verus! {

/// What `handle_selection_taken` hands back for a report, given the state
/// that the report met.
pub open spec fn selection_action(
    before: LoopView,
    id: Option<u32>,
    selection: Selection,
    action: SelectionAction,
) -> bool {
    match action {
        SelectionAction::Ignored => before.is_ours(selection),
        SelectionAction::Lost => !before.is_ours(selection) && id is None,
        SelectionAction::Recorded => !before.is_ours(selection) && id is Some
            && !before.starts_reading(id, selection),
        SelectionAction::Read(names) => {
            &&& before.starts_reading(id, selection)
            &&& texts(names@).no_duplicates()
            &&& texts(names@).to_set() == before.offers[id->0].mime_types.dom()
        },
    }
}

/// The state after a report of the device.
pub open spec fn device_event(before: LoopView, ev: DeviceEvent) -> LoopView {
    match ev {
        DeviceEvent::DataOffer { id } => before.announce(id),
        DeviceEvent::Selection { id } => before.selection_taken(id, Selection::Clipboard),
        DeviceEvent::PrimarySelection { id } => before.selection_taken(id, Selection::Primary),
        DeviceEvent::Finished => before,
    }
}

/// Handles a report of the offer `id`: a content type that it advertises. A
/// name without the separator between type and subtype is passed over.
pub fn handle_data_offer_events(loop_data: &mut LoopData, id: u32, ev: OfferEvent)
    requires
        old(loop_data).wf(),
    ensures
        final(loop_data).wf(),
        ev matches OfferEvent::Offer { mime_type } && final(loop_data)@
            == old(loop_data)@.advertise(id, mime_type@),
{
    match ev {
        OfferEvent::Offer { mime_type } => {
            loop_data.advertise(id, mime_type);
        },
    }
}

/// Handles the report that `selection` belongs to the offer `id`, or with
/// `None` to nobody. A report on a selection of ours is the echo of our own
/// claim and changes nothing. Else the owner is noted; an offer that is
/// confirmed for the first time is to be read, and the names of its content
/// types are handed back.
pub fn handle_selection_taken(
    id: Option<u32>,
    selection: Selection,
    loop_data: &mut LoopData,
) -> (action: SelectionAction)
    requires
        old(loop_data).wf(),
    ensures
        final(loop_data).wf(),
        final(loop_data)@ == old(loop_data)@.selection_taken(id, selection),
        selection_action(old(loop_data)@, id, selection, action),
{
    if loop_data.is_selection_ours(selection) {
        return SelectionAction::Ignored;
    }
    match id {
        Some(data_offer_id) => {
            loop_data.set_data_offer_for_selection(selection, data_offer_id);
            let first = loop_data.confirm(data_offer_id, selection);
            if first {
                match loop_data.offer(data_offer_id) {
                    Some(user_data) => SelectionAction::Read(read_offer(user_data)),
                    None => SelectionAction::Recorded,
                }
            } else {
                SelectionAction::Recorded
            }
        },
        None => {
            loop_data.selection_lost(selection);
            SelectionAction::Lost
        },
    }
}

/// Handles a report of the device: a new offer, a selection that changed
/// hands, or the end of the device.
pub fn handle_data_device_events(loop_data: &mut LoopData, ev: DeviceEvent) -> (action:
    DeviceAction)
    requires
        old(loop_data).wf(),
    ensures
        final(loop_data).wf(),
        final(loop_data)@ == device_event(old(loop_data)@, ev),
        match ev {
            DeviceEvent::DataOffer { id } => action is Listen,
            DeviceEvent::Selection { id } => action matches DeviceAction::Taken(a)
                && selection_action(old(loop_data)@, id, Selection::Clipboard, a),
            DeviceEvent::PrimarySelection { id } => action matches DeviceAction::Taken(a)
                && selection_action(old(loop_data)@, id, Selection::Primary, a),
            DeviceEvent::Finished => action is Destroy,
        },
{
    match ev {
        DeviceEvent::DataOffer { id } => {
            loop_data.put_offer(id, DataOffer::new());
            DeviceAction::Listen
        },
        DeviceEvent::Selection { id } => DeviceAction::Taken(
            handle_selection_taken(id, Selection::Clipboard, loop_data),
        ),
        DeviceEvent::PrimarySelection { id } => DeviceAction::Taken(
            handle_selection_taken(id, Selection::Primary, loop_data),
        ),
        DeviceEvent::Finished => DeviceAction::Destroy,
    }
}

} // verus!
