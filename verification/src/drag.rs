//! The state of a drag-and-drop operation.

use std::collections::VecDeque;
use vstd::prelude::*;
use winit_core::event_loop::AsyncRequestSerial;
use crate::id::{next_raw, DataTransferId, TransferIds};
use crate::protocol::Window;
use crate::selection::{type_views, SelectionType, SelectionTypeView};

verus! {

/// Declares `winit_core::event_loop::AsyncRequestSerial`, the token by which the application
/// recognises its request. It is carried through unread.
#[verifier::external_type_specification]
#[verifier::external_body]
pub struct ExAsyncRequestSerial(winit_core::event_loop::AsyncRequestSerial);

/// What this client says about a drag operation over one of its windows.
#[derive(Debug, Clone, Copy, PartialEq, Eq)]
pub enum DndState {
    Accepted,
    Rejected,
}

/// A fetch that was asked for: the request's token and the type of data that it wants.
pub type FetchView = (AsyncRequestSerial, SelectionTypeView);

/// What each of a sequence of fetches says.
pub open spec fn fetch_views(fetches: Seq<(AsyncRequestSerial, SelectionType)>) -> Seq<FetchView> {
    fetches.map_values(|fetch: (AsyncRequestSerial, SelectionType)| (fetch.0, fetch.1@))
}

/// A drag operation in progress over one of this client's windows.
#[derive(Debug)]
pub struct DragState {
    /// The version of the protocol that the source of the drag speaks.
    pub version: i64,
    pub transfer_id: DataTransferId,
    /// The types in which the data can be had.
    pub types: Vec<SelectionType>,
    pub source_window: Window,
    pub target_window: Window,
    /// The fetches that are still to be answered.
    pub pending_fetch_types: VecDeque<(AsyncRequestSerial, SelectionType)>,
    pub finished: Option<(Window, Window)>,
    /// Whether the application accepts the drag, or `None` as long as it has neither accepted nor
    /// rejected it.
    pub accepted: Option<bool>,
}

/// What a [`DragState`] holds.
pub struct DragView {
    pub version: i64,
    pub transfer_id: DataTransferId,
    pub types: Seq<SelectionTypeView>,
    pub source_window: Window,
    pub target_window: Window,
    pub pending_fetch_types: Seq<FetchView>,
    pub finished: Option<(Window, Window)>,
    pub accepted: Option<bool>,
}

impl View for DragState {
    type V = DragView;

    open spec fn view(&self) -> DragView {
        DragView {
            version: self.version,
            transfer_id: self.transfer_id,
            types: type_views(self.types@),
            source_window: self.source_window,
            target_window: self.target_window,
            pending_fetch_types: fetch_views(self.pending_fetch_types@),
            finished: self.finished,
            accepted: self.accepted,
        }
    }
}

impl DragView {
    /// A drag of which nothing is known but its identifier.
    pub open spec fn blank(id: DataTransferId) -> DragView {
        DragView {
            version: 0,
            transfer_id: id,
            types: seq![],
            source_window: 0,
            target_window: 0,
            pending_fetch_types: seq![],
            finished: None,
            accepted: None,
        }
    }
}

impl DragState {
    /// A drag of which nothing is known yet, under a new identifier.
    pub fn new(ids: &mut TransferIds) -> (drag: DragState)
        ensures
            drag@ == DragView::blank(DataTransferId { raw: old(ids)@ }),
            final(ids)@ == next_raw(old(ids)@),
    {
        let drag = DragState {
            version: 0,
            transfer_id: ids.generate_transfer_id(),
            types: Vec::new(),
            source_window: 0,
            target_window: 0,
            pending_fetch_types: VecDeque::new(),
            finished: None,
            accepted: None,
        };
        assert(drag@.types =~= seq![]);
        assert(drag@.pending_fetch_types =~= seq![]);
        drag
    }
}

/// What a drag holds is what its fields hold, and every fetch keeps its place, its token and its
/// type.
pub proof fn drags_hold_what_their_fields_hold(drag: DragState, i: int)
    ensures
        drag@.version == drag.version,
        drag@.transfer_id == drag.transfer_id,
        drag@.source_window == drag.source_window,
        drag@.target_window == drag.target_window,
        drag@.finished == drag.finished,
        drag@.accepted == drag.accepted,
        drag@.types.len() == drag.types@.len(),
        0 <= i < drag.types@.len() ==> drag@.types[i] == drag.types@[i]@,
        drag@.pending_fetch_types.len() == drag.pending_fetch_types@.len(),
        0 <= i < drag.pending_fetch_types@.len() ==> drag@.pending_fetch_types[i].0
            == drag.pending_fetch_types@[i].0 && drag@.pending_fetch_types[i].1
            == drag.pending_fetch_types@[i].1@,
{
}

/// Of a new drag nothing is known but its identifier: it offers no type, no fetch waits, and it is
/// neither accepted nor rejected nor over.
pub proof fn new_drags_are_unknown(id: DataTransferId)
    ensures
        DragView::blank(id).transfer_id == id,
        DragView::blank(id).version == 0,
        DragView::blank(id).source_window == 0,
        DragView::blank(id).target_window == 0,
        DragView::blank(id).types.len() == 0,
        DragView::blank(id).pending_fetch_types.len() == 0,
        DragView::blank(id).finished is None,
        DragView::blank(id).accepted is None,
{
}

} // verus!
