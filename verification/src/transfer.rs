//! The state of all transfers of one X11 client, and the protocol steps that change it.
//!
//! No step talks to the X server by itself. A step takes the event or the reply that it is about,
//! changes the state, and returns the requests that have to be sent.

use vstd::prelude::*;
use crate::atoms::Atoms;
use crate::clipboard::{ClipboardState, ClipboardView};
use crate::drag::{DragState, DragView};
use crate::id::{next_raw, DataTransferId, TransferIds};
use crate::incr::{incr_views, IncrState, IncrView};
use crate::selection::ClipboardSelectionType;

pub mod chunks;
pub mod copy;
pub mod dnd;
pub mod laws;
pub mod ownership;
pub mod paste;
pub mod steps;

verus! {

/// The transfers of one X11 client. `D` is what the application supplies its own clipboard
/// contents with.
#[derive(Debug)]
pub struct DataTransferState<D> {
    atoms: Atoms,
    /// The drag operation in progress.
    state: Option<DragState>,
    primary: ClipboardState<D>,
    secondary: ClipboardState<D>,
    clipboard: ClipboardState<D>,
    /// What is still to be sent of the contents of this client's clipboards.
    clip_incr_send: Vec<IncrState>,
    /// What has been received so far of the contents of other clients' clipboards.
    clip_incr_receive: Vec<IncrState>,
}

/// What a [`DataTransferState`] holds.
pub struct TransferView<D> {
    pub atoms: Atoms,
    pub state: Option<DragView>,
    pub primary: ClipboardView<D>,
    pub secondary: ClipboardView<D>,
    pub clipboard: ClipboardView<D>,
    pub clip_incr_send: Seq<IncrView>,
    pub clip_incr_receive: Seq<IncrView>,
}

/// What an optional [`DragState`] holds.
pub open spec fn drag_view(drag: Option<DragState>) -> Option<DragView> {
    match drag {
        Some(drag) => Some(drag@),
        None => None,
    }
}

impl<D> View for DataTransferState<D> {
    type V = TransferView<D>;

    closed spec fn view(&self) -> TransferView<D> {
        TransferView {
            atoms: self.atoms,
            state: drag_view(self.state),
            primary: self.primary@,
            secondary: self.secondary@,
            clipboard: self.clipboard@,
            clip_incr_send: incr_views(self.clip_incr_send@),
            clip_incr_receive: incr_views(self.clip_incr_receive@),
        }
    }
}

impl<D> TransferView<D> {
    /// The state of one of the clipboards.
    pub open spec fn clipboard(self, clipboard: ClipboardSelectionType) -> ClipboardView<D> {
        match clipboard {
            ClipboardSelectionType::Primary => self.primary,
            ClipboardSelectionType::Secondary => self.secondary,
            ClipboardSelectionType::Clipboard => self.clipboard,
        }
    }

    /// The state with one of the clipboards replaced.
    pub open spec fn with_clipboard(
        self,
        clipboard: ClipboardSelectionType,
        state: ClipboardView<D>,
    ) -> TransferView<D> {
        match clipboard {
            ClipboardSelectionType::Primary => TransferView { primary: state, ..self },
            ClipboardSelectionType::Secondary => TransferView { secondary: state, ..self },
            ClipboardSelectionType::Clipboard => TransferView { clipboard: state, ..self },
        }
    }
}

impl<D> DataTransferState<D> {
    /// No transfer is in progress, and this client owns no clipboard.
    pub fn new(atoms: Atoms, ids: &mut TransferIds) -> (transfers: DataTransferState<D>)
        ensures
            transfers@ == TransferView::<D>::blank(atoms, old(ids)@),
            final(ids)@ == next_raw(next_raw(next_raw(old(ids)@))),
    {
        let primary = ClipboardState::new(ids);
        let secondary = ClipboardState::new(ids);
        let clipboard = ClipboardState::new(ids);
        let transfers = DataTransferState {
            atoms,
            state: None,
            primary,
            secondary,
            clipboard,
            clip_incr_send: Vec::new(),
            clip_incr_receive: Vec::new(),
        };
        assert(transfers@.clip_incr_send =~= seq![]);
        assert(transfers@.clip_incr_receive =~= seq![]);
        transfers
    }

    /// The drag operation in progress.
    pub fn state(&self) -> (drag: Option<&DragState>)
        ensures
            match self@.state {
                Some(state) => drag is Some && drag->0@ == state,
                None => drag is None,
            },
    {
        self.state.as_ref()
    }

    /// The drag operation in progress, to be changed.
    pub fn state_mut(&mut self) -> (drag: Option<&mut DragState>)
        ensures
            match drag {
                Some(drag) => {
                    &&& old(self)@.state == Some(drag@)
                    &&& final(self)@ == (TransferView {
                        state: Some(final(drag)@),
                        ..old(self)@
                    })
                },
                None => old(self)@.state is None && final(self)@ == old(self)@,
            },
    {
        self.state.as_mut()
    }

    /// The state of one of the clipboards.
    pub fn get_clipboard(&self, clipboard: ClipboardSelectionType) -> (state: &ClipboardState<D>)
        ensures
            state@ == self@.clipboard(clipboard),
    {
        match clipboard {
            ClipboardSelectionType::Primary => &self.primary,
            ClipboardSelectionType::Secondary => &self.secondary,
            ClipboardSelectionType::Clipboard => &self.clipboard,
        }
    }

    /// The state of one of the clipboards, to be changed.
    pub fn get_clipboard_mut(&mut self, clipboard: ClipboardSelectionType) -> (state:
        &mut ClipboardState<D>)
        ensures
            state@ == old(self)@.clipboard(clipboard),
            final(self)@ == old(self)@.with_clipboard(clipboard, final(state)@),
    {
        match clipboard {
            ClipboardSelectionType::Primary => &mut self.primary,
            ClipboardSelectionType::Secondary => &mut self.secondary,
            ClipboardSelectionType::Clipboard => &mut self.clipboard,
        }
    }
}

impl<D> TransferView<D> {
    /// No transfer is in progress, and this client owns no clipboard. The clipboards take their
    /// identifiers from `next` on.
    pub open spec fn blank(atoms: Atoms, next: i64) -> TransferView<D> {
        TransferView {
            atoms,
            state: None,
            primary: ClipboardView::blank(DataTransferId { raw: next }),
            secondary: ClipboardView::blank(DataTransferId { raw: next_raw(next) }),
            clipboard: ClipboardView::blank(DataTransferId { raw: next_raw(next_raw(next)) }),
            clip_incr_send: seq![],
            clip_incr_receive: seq![],
        }
    }
}

} // verus!
