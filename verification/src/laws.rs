use crate::buffer::BufferView;
use crate::event::{PipeAction, ReadView, ReplyView};
use crate::mime::all_complete;
use crate::model::{concat, Event, LoopView, SlotView};
use crate::selection::Selection;
use vstd::prelude::*;

verus! {

/// Reading never touches the owner of a selection: only a promotion, a report
/// of the compositor or a cancellation does.
pub proof fn lemma_reading_keeps_owners(
    state: LoopView,
    id: u32,
    mime_type: Seq<char>,
    outcome: ReadView,
    selection: Selection,
)
    ensures
        state.pipe_event(id, mime_type, outcome).0.slot(selection) == state.slot(selection),
{
}

/// Bytes that arrive are put behind those held, in the buffer they belong to:
/// every other buffer of the offer and every other offer stays as it was.
pub proof fn lemma_reading_appends(state: LoopView, id: u32, mime_type: Seq<char>, chunk: Seq<u8>)
    requires
        state.live(id, mime_type),
        chunk.len() > 0,
    ensures
        ({
            let after = state.pipe_event(id, mime_type, ReadView::Read(chunk)).0;
            &&& after.offers.dom() == state.offers.dom()
            &&& after.offers[id].selection == state.offers[id].selection
            &&& after.offers[id].mime_types.dom() == state.offers[id].mime_types.dom()
            &&& after.offers[id].mime_types[mime_type] == BufferView {
                bytes: state.offers[id].mime_types[mime_type].bytes + chunk,
                complete: false,
            }
            &&& forall|other: Seq<char>|
                other != mime_type && state.offers[id].mime_types.contains_key(other)
                    ==> after.offers[id].mime_types[other] == state.offers[id].mime_types[other]
            &&& forall|other: u32|
                other != id && state.offers.contains_key(other) ==> after.offers[other]
                    == state.offers[other]
        }),
{
    let after = state.pipe_event(id, mime_type, ReadView::Read(chunk)).0;
    assert(after.offers.dom() =~= state.offers.dom());
    assert(after.offers[id].mime_types.dom() =~= state.offers[id].mime_types.dom());
}

/// A stream is captured as it came: after its chunks were read one by one,
/// the buffer holds what it held before and behind that the chunks, in their
/// order. The stream is still open, and the owners of the selections are as
/// they were.
pub proof fn lemma_stream_is_captured(
    state: LoopView,
    id: u32,
    mime_type: Seq<char>,
    chunks: Seq<Seq<u8>>,
)
    requires
        state.live(id, mime_type),
        forall|i: int| 0 <= i < chunks.len() ==> (#[trigger] chunks[i]).len() > 0,
    ensures
        ({
            let after = state.feed(id, mime_type, chunks);
            &&& after.live(id, mime_type)
            &&& after.offers[id].mime_types[mime_type].bytes
                == state.offers[id].mime_types[mime_type].bytes + concat(chunks)
            &&& after.offers[id].selection == state.offers[id].selection
            &&& after.offers[id].mime_types.dom() == state.offers[id].mime_types.dom()
            &&& after.primary == state.primary
            &&& after.clipboard == state.clipboard
        }),
    decreases chunks.len(),
{
    let held = state.offers[id].mime_types[mime_type].bytes;
    if chunks.len() == 0 {
        assert(held + concat(chunks) =~= held);
    } else {
        let front = chunks.drop_last();
        lemma_stream_is_captured(state, id, mime_type, front);
        let before = state.feed(id, mime_type, front);
        lemma_reading_appends(before, id, mime_type, chunks.last());
        assert((held + concat(front)) + chunks.last() =~= held + concat(chunks));
    }
}

/// Round trip, from the pipe to the client. If an offer is promoted when the
/// stream of one of its content types has ended, a client that asks for that
/// content type is served the bytes of the stream, chunk behind chunk.
pub proof fn lemma_stream_round_trip(
    state: LoopView,
    id: u32,
    mime_type: Seq<char>,
    chunks: Seq<Seq<u8>>,
    source: u32,
)
    requires
        state.live(id, mime_type),
        forall|i: int| 0 <= i < chunks.len() ==> (#[trigger] chunks[i]).len() > 0,
    ensures
        ({
            let read = state.feed(id, mime_type, chunks);
            let (ended, action) = read.pipe_event(id, mime_type, ReadView::Read(Seq::empty()));
            action matches PipeAction::Promote(selection) ==> ended.promote(id, source).serve(
                selection,
                source,
                mime_type,
            ) == ReplyView::Write(state.offers[id].mime_types[mime_type].bytes + concat(chunks))
        }),
{
    lemma_stream_is_captured(state, id, mime_type, chunks);
}

/// A buffer only grows: whatever happens, a buffer that is there before and
/// after holds afterwards what it held before, and possibly more behind it.
pub proof fn lemma_buffer_only_grows(state: LoopView, event: Event, id: u32, mime_type: Seq<char>)
    requires
        state.offers.contains_key(id),
        state.offers[id].mime_types.contains_key(mime_type),
        state.step(event).offers.contains_key(id),
        state.step(event).offers[id].mime_types.contains_key(mime_type),
    ensures
        state.offers[id].mime_types[mime_type].bytes.is_prefix_of(
            state.step(event).offers[id].mime_types[mime_type].bytes,
        ),
{
    let held = state.offers[id].mime_types[mime_type].bytes;
    match event {
        Event::Pipe { id: read, mime_type: name, outcome } => {
            if let ReadView::Read(chunk) = outcome {
                assert(held.is_prefix_of(held + chunk));
            }
        },
        _ => {},
    }
}

/// Completion is final: whatever happens, a buffer whose stream has ended,
/// if it is still there afterwards, is as it was.
pub proof fn lemma_complete_buffer_is_final(
    state: LoopView,
    event: Event,
    id: u32,
    mime_type: Seq<char>,
)
    requires
        state.offers.contains_key(id),
        state.offers[id].mime_types.contains_key(mime_type),
        state.offers[id].mime_types[mime_type].complete,
        state.step(event).offers.contains_key(id),
        state.step(event).offers[id].mime_types.contains_key(mime_type),
    ensures
        state.step(event).offers[id].mime_types[mime_type]
            == state.offers[id].mime_types[mime_type],
{
}

/// The selection of an offer is set once: whatever happens, short of the
/// compositor creating a new offer under the same id, an offer that is still
/// pending afterwards is confirmed for the selection it was confirmed for.
pub proof fn lemma_selection_is_set_once(state: LoopView, event: Event, id: u32)
    requires
        state.offers.contains_key(id),
        state.offers[id].selection is Some,
        state.step(event).offers.contains_key(id),
        event != (Event::Announced { id }),
    ensures
        state.step(event).offers[id].selection == state.offers[id].selection,
{
}

/// All or nothing. When the last open stream of an offer ends and a source is
/// created for it, each selection either is as it was before, or is ours with
/// exactly what was read of the offer: the same content types, each with the
/// same bytes, all of them complete.
pub proof fn lemma_promotion_is_all_or_nothing(
    state: LoopView,
    id: u32,
    mime_type: Seq<char>,
    source: u32,
    selection: Selection,
)
    requires
        state.live(id, mime_type),
    ensures
        ({
            let ended = state.pipe_event(id, mime_type, ReadView::Read(Seq::empty())).0;
            let after = ended.promote(id, source);
            let held = state.offers[id].mime_types;
            ||| after.slot(selection) == state.slot(selection)
            ||| {
                &&& after.slot(selection) matches SlotView::Ours { data, source: owner }
                &&& owner == source
                &&& all_complete(data)
                &&& data.dom() == held.dom()
                &&& forall|name: Seq<char>| #[trigger]
                    held.contains_key(name) ==> data[name].bytes == held[name].bytes
            }
        }),
{
    let ended = state.pipe_event(id, mime_type, ReadView::Read(Seq::empty())).0;
    let after = ended.promote(id, source);
    let held = state.offers[id].mime_types;
    if after.slot(selection) != state.slot(selection) {
        let data = state.offers[id].finish(mime_type).mime_types;
        assert(after.slot(selection) == (SlotView::Ours { data, source }));
        assert(data.dom() =~= held.dom());
    }
}

/// A promotion changes nothing but the selection that the offer takes over
/// and the offer itself, which is pending no more.
pub proof fn lemma_promotion_frame(state: LoopView, id: u32, source: u32)
    ensures
        ({
            let after = state.promote(id, source);
            match state.promotes(id) {
                Some(selection) => {
                    &&& after.slot(selection) == (SlotView::Ours {
                        data: state.offers[id].mime_types,
                        source,
                    })
                    &&& forall|other: Selection|
                        other != selection ==> after.slot(other) == state.slot(other)
                    &&& after.offers == state.offers.remove(id)
                },
                None => after == state,
            }
        }),
{
}

/// An offer that does not own the selection it was confirmed for is not
/// promoted: creating a source for it changes nothing.
pub proof fn lemma_stale_offer_is_not_promoted(state: LoopView, id: u32, source: u32)
    requires
        !state.may_claim(id),
    ensures
        state.promotes(id) is None,
        state.promote(id, source) == state,
{
}

/// Once an offer has lost the selection it was confirmed for, nothing gives
/// it back but the compositor, by reporting that offer as the owner again.
pub proof fn lemma_stale_offer_stays_stale(state: LoopView, id: u32, event: Event)
    requires
        !state.may_claim(id),
        !(event matches Event::Taken { owner, selection } && owner == Some(id)),
    ensures
        !state.step(event).may_claim(id),
{
    let after = state.step(event);
    match event {
        Event::Announced { id: announced } => {},
        Event::Advertised { id: advertised, mime_type } => {},
        Event::Taken { owner, selection } => {},
        Event::PipeFailed { id: failed, mime_type } => {},
        Event::Pipe { id: read, mime_type, outcome } => {},
        Event::SourceCreated { id: promoted, source } => {},
        Event::Send { selection, source, mime_type } => {},
        Event::Cancelled { selection, source } => {},
    }
}

/// Whatever happens after an offer has lost its selection, as long as the
/// compositor does not report that offer as an owner again: the offer is
/// never promoted.
pub proof fn lemma_stale_offer_never_promotes(
    state: LoopView,
    id: u32,
    events: Seq<Event>,
    source: u32,
)
    requires
        !state.may_claim(id),
        forall|i: int|
            0 <= i < events.len() ==> !((#[trigger] events[i]) matches Event::Taken {
                owner,
                selection,
            } && owner == Some(id)),
    ensures
        !state.run(events).may_claim(id),
        state.run(events).promote(id, source) == state.run(events),
    decreases events.len(),
{
    if events.len() > 0 {
        lemma_stale_offer_never_promotes(state, id, events.drop_last(), source);
        lemma_stale_offer_stays_stale(state.run(events.drop_last()), id, events.last());
    }
}

/// Round trip. What a client is served after a promotion is what was read of
/// the offer: for a content type of the offer its bytes, all of them and in
/// their order, and for any other name nothing.
pub proof fn lemma_round_trip(state: LoopView, id: u32, source: u32, mime_type: Seq<char>)
    requires
        state.promotes(id) is Some,
    ensures
        ({
            let selection = state.promotes(id)->0;
            let held = state.offers[id].mime_types;
            state.promote(id, source).serve(selection, source, mime_type) == if held.contains_key(
                mime_type,
            ) {
                ReplyView::Write(held[mime_type].bytes)
            } else {
                ReplyView::Unavailable
            }
        }),
{
}

/// After a cancellation the source serves nothing.
pub proof fn lemma_cancelled_source_serves_nothing(
    state: LoopView,
    selection: Selection,
    source: u32,
    mime_type: Seq<char>,
)
    ensures
        state.cancel(selection, source).serve(selection, source, mime_type) == ReplyView::NoData,
{
}

/// Our own claim is never overwritten by the note of a remote offer. Told
/// that a selection belongs to an offer, the tracker leaves a selection of
/// ours as it is and makes the offer the owner of any other; the other
/// selection and the pending offers stay as they were.
pub proof fn lemma_own_claim_is_kept(state: LoopView, selection: Selection, id: u32)
    ensures
        ({
            let after = state.record_client(selection, id);
            &&& state.is_ours(selection) ==> after == state
            &&& !state.is_ours(selection) ==> after.slot(selection) == (SlotView::Client {
                data_offer_id: id,
            })
            &&& forall|other: Selection|
                other != selection ==> after.slot(other) == state.slot(other)
            &&& after.offers == state.offers
            &&& state.inv() ==> after.inv()
        }),
{
}

/// The moves of a selection's owner: from nobody to another client, from
/// another client to us or back to nobody, and from us to nobody.
pub open spec fn moves(before: SlotView, after: SlotView) -> bool {
    ||| before is Free && after is Client
    ||| before is Client && after is Ours
    ||| before is Client && after is Free
    ||| before is Ours && after is Free
}

/// The compositor reports that `selection`, which belongs to another client,
/// now belongs to the offer of yet another.
pub open spec fn replaces_client(state: LoopView, event: Event, selection: Selection) -> bool {
    &&& event matches Event::Taken { owner, selection: reported }
    &&& reported == selection
    &&& owner matches Some(id)
    &&& state.slot(selection) matches SlotView::Client { data_offer_id }
    &&& data_offer_id != id
}

/// No event makes the owner of a selection move otherwise than in `moves`,
/// but the report that one client has replaced another.
pub proof fn lemma_owner_moves(state: LoopView, event: Event, selection: Selection)
    requires
        !replaces_client(state, event, selection),
    ensures
        state.step(event).slot(selection) == state.slot(selection) || moves(
            state.slot(selection),
            state.step(event).slot(selection),
        ),
{
    match event {
        Event::Announced { id } => {},
        Event::Advertised { id, mime_type } => {},
        Event::Taken { owner, selection: reported } => {},
        Event::PipeFailed { id, mime_type } => {},
        Event::Pipe { id, mime_type, outcome } => {},
        Event::SourceCreated { id, source } => {},
        Event::Send { selection: served, source, mime_type } => {},
        Event::Cancelled { selection: cancelled, source } => {},
    }
}

/// Each move has its cause. A selection comes to another client, or goes
/// from one to nobody, only when the compositor says so; it becomes ours only
/// when a source is created for the very offer that owns it, and then with
/// what that offer holds; it ceases to be ours only when the source that
/// serves it is cancelled.
pub proof fn lemma_moves_have_causes(state: LoopView, event: Event, selection: Selection)
    ensures
        ({
            let before = state.slot(selection);
            let after = state.step(event).slot(selection);
            &&& after is Client && after != before ==> event == (Event::Taken {
                owner: Some(after->data_offer_id),
                selection,
            }) && !(before is Ours)
            &&& after is Ours && after != before ==> {
                &&& event matches Event::SourceCreated { id, source }
                &&& before == (SlotView::Client { data_offer_id: id })
                &&& state.offers.contains_key(id)
                &&& state.offers[id].selection == Some(selection)
                &&& after == (SlotView::Ours { data: state.offers[id].mime_types, source })
            }
            &&& after is Free && before is Client ==> event == (Event::Taken {
                owner: None,
                selection,
            })
            &&& after is Free && before is Ours ==> event == (Event::Cancelled {
                selection,
                source: before->source,
            })
        }),
{
    match event {
        Event::Announced { id } => {},
        Event::Advertised { id, mime_type } => {},
        Event::Taken { owner, selection: reported } => {},
        Event::PipeFailed { id, mime_type } => {},
        Event::Pipe { id, mime_type, outcome } => {},
        Event::SourceCreated { id, source } => {},
        Event::Send { selection: served, source, mime_type } => {},
        Event::Cancelled { selection: cancelled, source } => {},
    }
}

/// One source at most serves a selection: two sources that are both served
/// from it are one and the same.
pub proof fn lemma_one_source_per_selection(
    state: LoopView,
    selection: Selection,
    first: u32,
    second: u32,
    mime_type: Seq<char>,
    other: Seq<char>,
)
    requires
        state.serve(selection, first, mime_type) != ReplyView::NoData,
        state.serve(selection, second, other) != ReplyView::NoData,
    ensures
        first == second,
{
}

/// Where one client replaces another, the selection belongs to the offer
/// that the compositor reported.
pub proof fn lemma_client_replaced(state: LoopView, event: Event, selection: Selection)
    requires
        replaces_client(state, event, selection),
    ensures
        event matches Event::Taken { owner, selection: reported } && state.step(event).slot(
            selection,
        ) == (SlotView::Client { data_offer_id: owner->0 }),
{
}

/// We never hold part of an offer: if whatever we own we hold in full, then
/// so we do after any event.
pub proof fn lemma_step_keeps_inv(state: LoopView, event: Event)
    requires
        state.inv(),
    ensures
        state.step(event).inv(),
{
    match event {
        Event::Announced { id } => {},
        Event::Advertised { id, mime_type } => {},
        Event::Taken { owner, selection } => {},
        Event::PipeFailed { id, mime_type } => {},
        Event::Pipe { id, mime_type, outcome } => {},
        Event::SourceCreated { id, source } => {},
        Event::Send { selection, source, mime_type } => {},
        Event::Cancelled { selection, source } => {},
    }
}

/// From the start on, whatever we own we hold in full.
pub proof fn lemma_run_keeps_inv(events: Seq<Event>)
    ensures
        LoopView::initial().run(events).inv(),
    decreases events.len(),
{
    if events.len() > 0 {
        lemma_run_keeps_inv(events.drop_last());
        lemma_step_keeps_inv(LoopView::initial().run(events.drop_last()), events.last());
    }
}

} // verus!
