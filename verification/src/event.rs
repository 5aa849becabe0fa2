use crate::selection::Selection;
use vstd::prelude::*;

verus! {

/// What the compositor's device reports. An offer is named by the id of its
/// protocol object.
#[allow(inconsistent_fields)]
#[derive(Clone, Copy, Debug, PartialEq, Eq)]
pub enum DeviceEvent {
    /// A new offer was created. Its content types follow.
    DataOffer { id: u32 },
    /// The clipboard now belongs to the offer `id`, or to nobody.
    Selection { id: Option<u32> },
    /// The primary selection now belongs to the offer `id`, or to nobody.
    PrimarySelection { id: Option<u32> },
    /// The device is no longer of use.
    Finished,
}

/// What an offer reports.
#[derive(Debug, PartialEq, Eq)]
pub enum OfferEvent {
    /// The offer can be had as `mime_type`.
    Offer { mime_type: String },
}

/// What one of our own sources reports.
#[derive(Debug, PartialEq, Eq)]
pub enum SourceEvent {
    /// A client pastes and wants the content as `mime_type`.
    Send { mime_type: String },
    /// The source was replaced by another owner.
    Cancelled,
}

/// How one attempt to read from a pipe ended.
#[derive(Clone, Copy, Debug, PartialEq, Eq)]
pub enum ReadOutcome<'a> {
    /// These bytes came. None at all means that the sender closed its end.
    Read(&'a [u8]),
    /// Nothing is there at the moment.
    WouldBlock,
    /// The read failed for another reason.
    Failed,
}

/// A read attempt's outcome as mathematics.
pub enum ReadView {
    Read(Seq<u8>),
    WouldBlock,
    Failed,
}

impl<'a> View for ReadOutcome<'a> {
    type V = ReadView;

    open spec fn view(&self) -> ReadView {
        match *self {
            ReadOutcome::Read(chunk) => ReadView::Read(chunk@),
            ReadOutcome::WouldBlock => ReadView::WouldBlock,
            ReadOutcome::Failed => ReadView::Failed,
        }
    }
}

/// What is to be done with a pipe's reader after one read attempt.
#[derive(Clone, Copy, Debug, PartialEq, Eq, Structural)]
pub enum PipeAction {
    /// Bytes were taken in: read again at once.
    ReadMore,
    /// Keep the reader and wait until the pipe is readable again.
    Wait,
    /// This content type is read to its end; siblings are still open. Remove the reader.
    Finished,
    /// The whole offer is read and still owns this selection. Remove the
    /// reader, create a source and take the selection with it.
    Promote(Selection),
    /// The whole offer is read, but the selection has moved on: its data was
    /// dropped. Remove the reader.
    Discard,
    /// Nothing is being read under this id and name. Remove the reader.
    Stale,
    /// The read failed: report it. Nothing was changed.
    Error,
}

/// What follows from a report on a selection.
#[derive(Debug, PartialEq, Eq)]
pub enum SelectionAction {
    /// The selection is ours: the report is the echo of our own claim.
    Ignored,
    /// Nobody owns the selection now.
    Lost,
    /// The new owner was noted, and there is nothing to start reading.
    Recorded,
    /// The new owner was noted: ask it for each of these content types.
    Read(Vec<String>),
}

/// What follows from a report of the device.
#[derive(Debug, PartialEq, Eq)]
pub enum DeviceAction {
    /// Listen to the new offer.
    Listen,
    /// A selection changed hands.
    Taken(SelectionAction),
    /// Destroy the device.
    Destroy,
}

/// What follows from a report of a source.
#[derive(Clone, Copy, Debug, PartialEq, Eq)]
pub enum SourceAction<'a> {
    /// Write these bytes, all of them, to the client.
    Write(&'a [u8]),
    /// The selection is ours, but not with this content type: write nothing.
    Unavailable,
    /// This source does not own the selection: write nothing.
    NoData,
    /// Destroy the source.
    Destroy,
}

/// A source's reply as mathematics.
pub enum ReplyView {
    Write(Seq<u8>),
    Unavailable,
    NoData,
    Destroy,
}

impl<'a> View for SourceAction<'a> {
    type V = ReplyView;

    open spec fn view(&self) -> ReplyView {
        match *self {
            SourceAction::Write(bytes) => ReplyView::Write(bytes@),
            SourceAction::Unavailable => ReplyView::Unavailable,
            SourceAction::NoData => ReplyView::NoData,
            SourceAction::Destroy => ReplyView::Destroy,
        }
    }
}

} // verus!
