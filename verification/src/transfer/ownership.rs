//! Owning clipboards, and telling them apart.

use vstd::prelude::*;
use crate::atoms::Atoms;
use crate::clipboard::ClipboardView;
use crate::drag::DragView;
use crate::id::{is_among, next_id_is_new, next_raw, nth_id, DataTransferId, TransferIds};
use crate::protocol::{current_time, selection_owner_mask, SelectionWatch, SetSelectionOwner};
use crate::protocol::{Window, CURRENT_TIME, SELECTION_OWNER_BIT};
use crate::selection::ClipboardSelectionType;
use crate::transfer::{DataTransferState, TransferView};

verus! {

impl<D> TransferView<D> {
    /// The first clipboard whose contents have the given identifier.
    pub open spec fn with_serial(self, id: DataTransferId) -> Option<ClipboardSelectionType> {
        if self.primary.clipboard_serial == id {
            Some(ClipboardSelectionType::Primary)
        } else if self.secondary.clipboard_serial == id {
            Some(ClipboardSelectionType::Secondary)
        } else if self.clipboard.clipboard_serial == id {
            Some(ClipboardSelectionType::Clipboard)
        } else {
            None
        }
    }

    /// The identifiers of the clipboards' contents and of the drag in progress are among the `n`
    /// from the number `start` on, and no two of them are the same.
    pub open spec fn is_numbered(self, start: i64, n: nat) -> bool {
        &&& is_among(self.primary.clipboard_serial, start, n)
        &&& is_among(self.secondary.clipboard_serial, start, n)
        &&& is_among(self.clipboard.clipboard_serial, start, n)
        &&& self.primary.clipboard_serial != self.secondary.clipboard_serial
        &&& self.primary.clipboard_serial != self.clipboard.clipboard_serial
        &&& self.secondary.clipboard_serial != self.clipboard.clipboard_serial
        &&& match self.state {
            Some(drag) => {
                &&& is_among(drag.transfer_id, start, n)
                &&& drag.transfer_id != self.primary.clipboard_serial
                &&& drag.transfer_id != self.secondary.clipboard_serial
                &&& drag.transfer_id != self.clipboard.clipboard_serial
            },
            None => true,
        }
    }

    /// The state once this client has set the contents of a clipboard.
    pub open spec fn with_contents(
        self,
        clipboard: ClipboardSelectionType,
        data: D,
        id: DataTransferId,
    ) -> TransferView<D> {
        self.with_clipboard(
            clipboard,
            ClipboardView {
                owned_data: Some(data),
                clipboard_serial: id,
                ..self.clipboard(clipboard)
            },
        )
    }
}

impl<D> DataTransferState<D> {
    /// Asks to be told when the primary selection changes hands; the types in which it can be
    /// pasted have to be known when the user wants to paste.
    pub fn selection_watch(&self, root: Window) -> (watch: SelectionWatch)
        ensures
            watch == (SelectionWatch {
                window: root,
                selection: ClipboardSelectionType::Primary.named_by(self@.atoms),
                mask: SELECTION_OWNER_BIT,
            }),
    {
        SelectionWatch {
            window: root,
            selection: ClipboardSelectionType::Primary.to_atom(&self.atoms),
            mask: selection_owner_mask(),
        }
    }

    /// Asks to become the owner of a selection, so that other clients ask this one for its
    /// contents.
    pub fn set_selection_owner(&self, xwindow: Window, selection: ClipboardSelectionType) -> (owner:
        SetSelectionOwner)
        ensures
            owner == (SetSelectionOwner {
                owner: xwindow,
                selection: selection.named_by(self@.atoms),
                time: CURRENT_TIME,
            }),
    {
        SetSelectionOwner {
            owner: xwindow,
            selection: selection.to_atom(&self.atoms),
            time: current_time(),
        }
    }

    /// The first clipboard whose contents have the given identifier.
    pub fn resolve_clipboard_type(&self, data_transfer: DataTransferId) -> (clipboard: Option<
        ClipboardSelectionType,
    >)
        ensures
            clipboard == self@.with_serial(data_transfer),
    {
        if self.primary.clipboard_serial() == data_transfer {
            Some(ClipboardSelectionType::Primary)
        } else if self.secondary.clipboard_serial() == data_transfer {
            Some(ClipboardSelectionType::Secondary)
        } else if self.clipboard.clipboard_serial() == data_transfer {
            Some(ClipboardSelectionType::Clipboard)
        } else {
            None
        }
    }

    /// Sets the contents of a clipboard, under a new identifier, and asks to own it.
    pub fn set_clipboard(
        &mut self,
        ids: &mut TransferIds,
        xwindow: Window,
        send_data: D,
        clipboard: ClipboardSelectionType,
    ) -> (owner: SetSelectionOwner)
        ensures
            final(self)@ == old(self)@.with_contents(
                clipboard,
                send_data,
                DataTransferId { raw: old(ids)@ },
            ),
            final(ids)@ == next_raw(old(ids)@),
            owner == (SetSelectionOwner {
                owner: xwindow,
                selection: clipboard.named_by(old(self)@.atoms),
                time: CURRENT_TIME,
            }),
    {
        let id = ids.generate_transfer_id();
        self.get_clipboard_mut(clipboard).set_owned_data(send_data, id);
        self.set_selection_owner(xwindow, clipboard)
    }
}

/// The clipboard that is found for an identifier is one whose contents have it, and where none
/// is found, no clipboard's contents have it.
pub proof fn found_clipboard_has_the_serial<D>(state: TransferView<D>, id: DataTransferId)
    ensures
        match state.with_serial(id) {
            Some(clipboard) => state.clipboard(clipboard).clipboard_serial == id,
            None => forall|clipboard: ClipboardSelectionType|
                (#[trigger] state.clipboard(clipboard)).clipboard_serial != id,
        },
{
    if state.with_serial(id) is None {
        assert forall|clipboard: ClipboardSelectionType|
            (#[trigger] state.clipboard(clipboard)).clipboard_serial != id by {
            match clipboard {
                ClipboardSelectionType::Primary => {},
                ClipboardSelectionType::Secondary => {},
                ClipboardSelectionType::Clipboard => {},
            }
        }
    }
}

/// At the start the clipboards' contents have the first three identifiers, each its own.
pub proof fn clipboards_start_with_distinct_serials<D>(atoms: Atoms, start: i64)
    ensures
        TransferView::<D>::blank(atoms, start).is_numbered(start, 3),
{
    reveal_with_fuel(nth_id, 3);
    let blank = TransferView::<D>::blank(atoms, start);
    assert(blank.primary.clipboard_serial == nth_id(start, 0));
    assert(blank.secondary.clipboard_serial == nth_id(start, 1));
    assert(blank.clipboard.clipboard_serial == nth_id(start, 2));
}

/// A clipboard is found by the identifier of its contents.
pub proof fn clipboard_is_found_by_its_serial<D>(
    state: TransferView<D>,
    start: i64,
    n: nat,
    clipboard: ClipboardSelectionType,
)
    requires
        state.is_numbered(start, n),
    ensures
        state.with_serial(state.clipboard(clipboard).clipboard_serial) == Some(clipboard),
{
}

/// Each time the contents of a clipboard are set, they get an identifier that no clipboard's
/// contents have had, and no drag: by the new identifier this clipboard is found, and by the one
/// of its earlier contents none. All identifiers stay distinct. It holds as long as the identifiers
/// have not been used up.
pub proof fn new_contents_have_a_new_serial<D>(
    state: TransferView<D>,
    start: i64,
    n: nat,
    clipboard: ClipboardSelectionType,
    data: D,
)
    requires
        state.is_numbered(start, n),
        n < 0x1_0000_0000_0000_0000,
    ensures
        ({
            let id = nth_id(start, n);
            let set = state.with_contents(clipboard, data, id);
            &&& forall|earlier: DataTransferId| #[trigger]
                is_among(earlier, start, n) ==> earlier != id
            &&& state.with_serial(id) is None
            &&& state.state is Some ==> state.state->0.transfer_id != id
            &&& set.with_serial(id) == Some(clipboard)
            &&& set.with_serial(state.clipboard(clipboard).clipboard_serial) is None
            &&& set.is_numbered(start, n + 1)
        }),
{
    let id = nth_id(start, n);
    let set = state.with_contents(clipboard, data, id);
    next_id_is_new(state.primary.clipboard_serial, start, n);
    next_id_is_new(state.secondary.clipboard_serial, start, n);
    next_id_is_new(state.clipboard.clipboard_serial, start, n);
    if state.state is Some {
        next_id_is_new(state.state->0.transfer_id, start, n);
    }
    assert(is_among(id, start, n + 1));
    assert forall|earlier: DataTransferId| #[trigger] is_among(earlier, start, n) implies earlier
        != id by {
        next_id_is_new(earlier, start, n);
    }
}

/// Each new drag gets an identifier that no clipboard's contents and no earlier drag have had, and
/// all identifiers stay distinct: where a drag enters, whether or not another is in progress, and
/// where a new drag takes the place of the one in progress. It holds as long as the identifiers
/// have not been used up.
pub proof fn new_drags_have_a_new_id<D>(
    state: TransferView<D>,
    start: i64,
    n: nat,
    drag: DragView,
)
    requires
        state.is_numbered(start, n),
        n < 0x1_0000_0000_0000_0000,
        drag.transfer_id == nth_id(start, n),
    ensures
        forall|earlier: DataTransferId| #[trigger]
            is_among(earlier, start, n) ==> earlier != drag.transfer_id,
        state.with_serial(drag.transfer_id) is None,
        state.state is Some ==> state.state->0.transfer_id != drag.transfer_id,
        state.with_drag(drag).is_numbered(start, n + 1),
        (TransferView { state: Some(drag), ..state }).is_numbered(start, n + 1),
{
    next_id_is_new(state.primary.clipboard_serial, start, n);
    next_id_is_new(state.secondary.clipboard_serial, start, n);
    next_id_is_new(state.clipboard.clipboard_serial, start, n);
    if state.state is Some {
        next_id_is_new(state.state->0.transfer_id, start, n);
    }
    assert(is_among(drag.transfer_id, start, n + 1));
    assert forall|earlier: DataTransferId| #[trigger] is_among(earlier, start, n) implies earlier
        != drag.transfer_id by {
        next_id_is_new(earlier, start, n);
    }
}

/// By the identifier of a drag no clipboard is found, whatever contents have been set since.
pub proof fn drag_is_no_clipboard<D>(state: TransferView<D>, start: i64, n: nat)
    requires
        state.is_numbered(start, n),
        state.state is Some,
    ensures
        state.with_serial(state.state->0.transfer_id) is None,
{
}

/// Setting the contents of a clipboard leaves every other clipboard as it was.
pub proof fn contents_do_not_spill_over<D>(
    state: TransferView<D>,
    clipboard: ClipboardSelectionType,
    other: ClipboardSelectionType,
    data: D,
    id: DataTransferId,
)
    requires
        other != clipboard,
    ensures
        state.with_contents(clipboard, data, id).clipboard(other) == state.clipboard(other),
        state.with_contents(clipboard, data, id).clipboard(clipboard).owned_data == Some(data),
{
}

} // verus!
