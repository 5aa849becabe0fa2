use clipmon::device::{handle_data_device_events, handle_data_offer_events, handle_selection_taken};
use clipmon::event::{
    DeviceAction, DeviceEvent, OfferEvent, PipeAction, ReadOutcome, SelectionAction, SourceAction,
    SourceEvent,
};
use clipmon::pipe::{create_data_source, handle_pipe_event, handle_source_event};
use clipmon::selection::Selection;
use clipmon::tracker::LoopData;

fn ready_offer(loop_data: &mut LoopData, id: u32, selection: Selection, bytes: &[u8]) {
    handle_data_device_events(loop_data, DeviceEvent::DataOffer { id });
    handle_data_offer_events(
        loop_data,
        id,
        OfferEvent::Offer { mime_type: "text/plain".to_string() },
    );
    handle_selection_taken(Some(id), selection, loop_data);
    if !bytes.is_empty() {
        handle_pipe_event(loop_data, id, "text/plain", ReadOutcome::Read(bytes));
    }
    handle_pipe_event(loop_data, id, "text/plain", ReadOutcome::Read(&[]));
}

#[test]
fn new_state_owns_nothing() {
    let loop_data = LoopData::new();
    for selection in [Selection::Primary, Selection::Clipboard] {
        assert!(!loop_data.is_selection_ours(selection));
        assert!(!loop_data.is_selection_owned_by_client(selection, 0));
        assert!(loop_data.get_selection_data(selection).is_none());
        assert_eq!(loop_data.source(selection), None);
    }
}

#[test]
fn remote_offer_is_recorded_per_selection() {
    let mut loop_data = LoopData::new();
    handle_data_device_events(&mut loop_data, DeviceEvent::DataOffer { id: 11 });
    handle_selection_taken(Some(11), Selection::Primary, &mut loop_data);
    assert!(loop_data.is_selection_owned_by_client(Selection::Primary, 11));
    assert!(!loop_data.is_selection_owned_by_client(Selection::Primary, 12));
    assert!(!loop_data.is_selection_owned_by_client(Selection::Clipboard, 11));
    assert!(!loop_data.is_selection_ours(Selection::Primary));
}

#[test]
fn unknown_offer_is_recorded_and_not_read() {
    let mut loop_data = LoopData::new();
    let action = handle_selection_taken(Some(4), Selection::Clipboard, &mut loop_data);
    assert_eq!(action, SelectionAction::Recorded);
    assert!(loop_data.is_selection_owned_by_client(Selection::Clipboard, 4));
    assert!(loop_data.offer(4).is_none());
}

#[test]
fn withdrawn_selection_is_free() {
    let mut loop_data = LoopData::new();
    handle_data_device_events(&mut loop_data, DeviceEvent::DataOffer { id: 11 });
    handle_selection_taken(Some(11), Selection::Clipboard, &mut loop_data);
    let action = handle_data_device_events(&mut loop_data, DeviceEvent::Selection { id: None });
    assert_eq!(action, DeviceAction::Taken(SelectionAction::Lost));
    assert!(!loop_data.is_selection_owned_by_client(Selection::Clipboard, 11));
    assert!(!loop_data.is_selection_ours(Selection::Clipboard));
}

#[test]
fn offer_withdrawn_before_completion_is_discarded() {
    let mut loop_data = LoopData::new();
    handle_data_device_events(&mut loop_data, DeviceEvent::DataOffer { id: 1 });
    handle_data_offer_events(
        &mut loop_data,
        1,
        OfferEvent::Offer { mime_type: "text/plain".to_string() },
    );
    handle_selection_taken(Some(1), Selection::Clipboard, &mut loop_data);
    handle_pipe_event(&mut loop_data, 1, "text/plain", ReadOutcome::Read(b"abc"));
    handle_selection_taken(None, Selection::Clipboard, &mut loop_data);
    assert_eq!(
        handle_pipe_event(&mut loop_data, 1, "text/plain", ReadOutcome::Read(&[])),
        PipeAction::Discard
    );
    assert!(create_data_source(&mut loop_data, 1, 9).is_none());
    assert!(!loop_data.is_selection_ours(Selection::Clipboard));
    assert!(loop_data.get_selection_data(Selection::Clipboard).is_none());
}

#[test]
fn report_on_our_own_selection_is_ignored() {
    let mut loop_data = LoopData::new();
    ready_offer(&mut loop_data, 1, Selection::Clipboard, b"mine");
    create_data_source(&mut loop_data, 1, 9).expect("promoted");

    handle_data_device_events(&mut loop_data, DeviceEvent::DataOffer { id: 2 });
    let action = handle_selection_taken(Some(2), Selection::Clipboard, &mut loop_data);
    assert_eq!(action, SelectionAction::Ignored);
    assert!(loop_data.is_selection_ours(Selection::Clipboard));
    assert!(!loop_data.is_selection_owned_by_client(Selection::Clipboard, 2));
    assert_eq!(loop_data.offer(2).expect("pending").selection(), None);

    let action = handle_selection_taken(None, Selection::Clipboard, &mut loop_data);
    assert_eq!(action, SelectionAction::Ignored);
    assert!(loop_data.is_selection_ours(Selection::Clipboard));
    let data = loop_data.get_selection_data(Selection::Clipboard).expect("ours");
    assert_eq!(data.get("text/plain").expect("held").data(), b"mine");
}

#[test]
fn selections_are_tracked_independently() {
    let mut loop_data = LoopData::new();
    ready_offer(&mut loop_data, 1, Selection::Clipboard, b"clip");
    create_data_source(&mut loop_data, 1, 9).expect("promoted");
    ready_offer(&mut loop_data, 2, Selection::Primary, b"prim");
    create_data_source(&mut loop_data, 2, 10).expect("promoted");

    let event = || SourceEvent::Send { mime_type: "text/plain".to_string() };
    assert_eq!(
        handle_source_event(&mut loop_data, Selection::Clipboard, 9, event()),
        SourceAction::Write(b"clip")
    );
    assert_eq!(
        handle_source_event(&mut loop_data, Selection::Primary, 10, event()),
        SourceAction::Write(b"prim")
    );
    handle_source_event(&mut loop_data, Selection::Primary, 10, SourceEvent::Cancelled);
    assert!(!loop_data.is_selection_ours(Selection::Primary));
    assert!(loop_data.is_selection_ours(Selection::Clipboard));
    assert_eq!(
        handle_source_event(&mut loop_data, Selection::Clipboard, 9, event()),
        SourceAction::Write(b"clip")
    );
}

#[test]
fn second_confirmation_does_not_change_the_selection_of_an_offer() {
    let mut loop_data = LoopData::new();
    handle_data_device_events(&mut loop_data, DeviceEvent::DataOffer { id: 1 });
    handle_data_offer_events(
        &mut loop_data,
        1,
        OfferEvent::Offer { mime_type: "text/plain".to_string() },
    );
    let first = handle_selection_taken(Some(1), Selection::Clipboard, &mut loop_data);
    assert_eq!(first, SelectionAction::Read(vec!["text/plain".to_string()]));
    let second = handle_selection_taken(Some(1), Selection::Primary, &mut loop_data);
    assert_eq!(second, SelectionAction::Recorded);
    assert_eq!(loop_data.offer(1).expect("pending").selection(), Some(Selection::Clipboard));
    assert!(loop_data.is_selection_owned_by_client(Selection::Primary, 1));
    assert!(loop_data.is_selection_owned_by_client(Selection::Clipboard, 1));

    assert_eq!(
        handle_pipe_event(&mut loop_data, 1, "text/plain", ReadOutcome::Read(&[])),
        PipeAction::Promote(Selection::Clipboard)
    );
    create_data_source(&mut loop_data, 1, 5).expect("promoted");
    assert!(loop_data.is_selection_ours(Selection::Clipboard));
    assert!(!loop_data.is_selection_ours(Selection::Primary));
}

#[test]
fn stale_source_neither_serves_nor_frees() {
    let mut loop_data = LoopData::new();
    ready_offer(&mut loop_data, 1, Selection::Clipboard, b"data");
    create_data_source(&mut loop_data, 1, 9).expect("promoted");
    let event = || SourceEvent::Send { mime_type: "text/plain".to_string() };
    assert_eq!(
        handle_source_event(&mut loop_data, Selection::Clipboard, 8, event()),
        SourceAction::NoData
    );
    assert_eq!(
        handle_source_event(&mut loop_data, Selection::Primary, 9, event()),
        SourceAction::NoData
    );
    assert_eq!(
        handle_source_event(&mut loop_data, Selection::Clipboard, 8, SourceEvent::Cancelled),
        SourceAction::Destroy
    );
    assert!(loop_data.is_selection_ours(Selection::Clipboard));
    assert_eq!(loop_data.source(Selection::Clipboard), Some(9));
}

#[test]
fn cancelled_source_of_a_remote_selection_changes_nothing() {
    let mut loop_data = LoopData::new();
    handle_data_device_events(&mut loop_data, DeviceEvent::DataOffer { id: 1 });
    handle_selection_taken(Some(1), Selection::Clipboard, &mut loop_data);
    assert_eq!(
        handle_source_event(&mut loop_data, Selection::Clipboard, 9, SourceEvent::Cancelled),
        SourceAction::Destroy
    );
    assert!(loop_data.is_selection_owned_by_client(Selection::Clipboard, 1));
}

#[test]
fn finished_device_is_to_be_destroyed() {
    let mut loop_data = LoopData::new();
    ready_offer(&mut loop_data, 1, Selection::Clipboard, b"data");
    create_data_source(&mut loop_data, 1, 9).expect("promoted");
    let action = handle_data_device_events(&mut loop_data, DeviceEvent::Finished);
    assert_eq!(action, DeviceAction::Destroy);
    assert!(loop_data.is_selection_ours(Selection::Clipboard));
}

#[test]
fn owner_never_jumps_from_free_to_ours() {
    let mut loop_data = LoopData::new();
    handle_data_device_events(&mut loop_data, DeviceEvent::DataOffer { id: 1 });
    handle_data_offer_events(
        &mut loop_data,
        1,
        OfferEvent::Offer { mime_type: "text/plain".to_string() },
    );
    assert_eq!(
        handle_pipe_event(&mut loop_data, 1, "text/plain", ReadOutcome::Read(&[])),
        PipeAction::Discard
    );
    assert!(create_data_source(&mut loop_data, 1, 9).is_none());
    for selection in [Selection::Primary, Selection::Clipboard] {
        assert!(!loop_data.is_selection_ours(selection));
    }
}

#[test]
fn slot_walks_free_remote_ours_free() {
    let mut loop_data = LoopData::new();
    let selection = Selection::Primary;
    assert!(!loop_data.is_selection_ours(selection));
    handle_data_device_events(&mut loop_data, DeviceEvent::DataOffer { id: 1 });
    handle_data_offer_events(
        &mut loop_data,
        1,
        OfferEvent::Offer { mime_type: "text/plain".to_string() },
    );
    handle_selection_taken(Some(1), selection, &mut loop_data);
    assert!(loop_data.is_selection_owned_by_client(selection, 1));
    handle_pipe_event(&mut loop_data, 1, "text/plain", ReadOutcome::Read(&[]));
    create_data_source(&mut loop_data, 1, 9).expect("promoted");
    assert!(loop_data.is_selection_ours(selection));
    handle_source_event(&mut loop_data, selection, 9, SourceEvent::Cancelled);
    assert!(!loop_data.is_selection_ours(selection));
    assert!(!loop_data.is_selection_owned_by_client(selection, 1));
}

#[test]
fn withdrawn_primary_selection_is_free() {
    let mut loop_data = LoopData::new();
    handle_data_device_events(&mut loop_data, DeviceEvent::DataOffer { id: 3 });
    let action =
        handle_data_device_events(&mut loop_data, DeviceEvent::PrimarySelection { id: Some(3) });
    assert_eq!(action, DeviceAction::Taken(SelectionAction::Read(vec![])));
    assert!(loop_data.is_selection_owned_by_client(Selection::Primary, 3));
    let action =
        handle_data_device_events(&mut loop_data, DeviceEvent::PrimarySelection { id: None });
    assert_eq!(action, DeviceAction::Taken(SelectionAction::Lost));
    assert!(!loop_data.is_selection_owned_by_client(Selection::Primary, 3));
    let action =
        handle_data_device_events(&mut loop_data, DeviceEvent::PrimarySelection { id: None });
    assert_eq!(action, DeviceAction::Taken(SelectionAction::Lost));
}

#[test]
fn one_client_replaces_another() {
    let mut loop_data = LoopData::new();
    handle_data_device_events(&mut loop_data, DeviceEvent::DataOffer { id: 1 });
    handle_data_device_events(&mut loop_data, DeviceEvent::DataOffer { id: 2 });
    handle_selection_taken(Some(1), Selection::Clipboard, &mut loop_data);
    handle_selection_taken(Some(2), Selection::Clipboard, &mut loop_data);
    assert!(loop_data.is_selection_owned_by_client(Selection::Clipboard, 2));
    assert!(!loop_data.is_selection_owned_by_client(Selection::Clipboard, 1));
    assert_eq!(loop_data.offer(1).expect("pending").selection(), Some(Selection::Clipboard));
}

#[test]
fn tracker_notes_a_remote_offer_on_a_free_selection() {
    let mut loop_data = LoopData::new();
    loop_data.set_data_offer_for_selection(Selection::Clipboard, 7);
    assert!(loop_data.is_selection_owned_by_client(Selection::Clipboard, 7));
    assert!(!loop_data.is_selection_owned_by_client(Selection::Primary, 7));
    assert!(!loop_data.is_selection_ours(Selection::Clipboard));
}

#[test]
fn tracker_replaces_one_remote_offer_by_another() {
    let mut loop_data = LoopData::new();
    loop_data.set_data_offer_for_selection(Selection::Primary, 7);
    loop_data.set_data_offer_for_selection(Selection::Primary, 8);
    assert!(loop_data.is_selection_owned_by_client(Selection::Primary, 8));
    assert!(!loop_data.is_selection_owned_by_client(Selection::Primary, 7));
}

#[test]
fn tracker_ignores_a_remote_offer_on_a_selection_of_ours() {
    let mut loop_data = LoopData::new();
    ready_offer(&mut loop_data, 1, Selection::Clipboard, b"mine");
    create_data_source(&mut loop_data, 1, 9).expect("promoted");

    loop_data.set_data_offer_for_selection(Selection::Clipboard, 7);
    assert!(loop_data.is_selection_ours(Selection::Clipboard));
    assert!(!loop_data.is_selection_owned_by_client(Selection::Clipboard, 7));
    assert_eq!(loop_data.source(Selection::Clipboard), Some(9));
    let data = loop_data.get_selection_data(Selection::Clipboard).expect("ours");
    assert_eq!(data.get("text/plain").expect("held").data(), b"mine");
    assert!(!loop_data.is_selection_owned_by_client(Selection::Primary, 7));

    loop_data.set_data_offer_for_selection(Selection::Primary, 7);
    assert!(loop_data.is_selection_owned_by_client(Selection::Primary, 7));
    assert!(loop_data.is_selection_ours(Selection::Clipboard));
}
