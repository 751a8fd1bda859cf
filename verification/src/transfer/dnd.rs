//! The steps of a drag-and-drop operation.

use vstd::prelude::*;
use crate::atoms::Atoms;
use crate::drag::{DndState, DragState, DragView};
use crate::error::X11Error;
use crate::hint::TypeHint;
use crate::id::{next_raw, DataTransferId, TransferIds};
use crate::protocol::{predefined_atom, Atom, ClientMessage, PredefinedAtom, PropertyRead, Window};
use crate::selection::{find_by_hint, first_with_hint, type_views, SelectionType};
use crate::transfer::{DataTransferState, TransferView};

verus! {

/// The number by which this client says whether it takes the dragged data.
pub open spec fn acceptance(accepted: bool) -> u32 {
    if accepted {
        1
    } else {
        0
    }
}

/// The action by which this client says what it does with the dragged data.
pub open spec fn action(atoms: Atoms, accepted: bool) -> Atom {
    if accepted {
        atoms.xdnd_action_copy
    } else {
        atoms.none
    }
}

impl DndState {
    /// Whether the drag is accepted.
    pub open spec fn accepts(self) -> bool {
        self is Accepted
    }
}

/// The message with which the source of a drag learns whether its data would be taken.
pub open spec fn status_message(
    atoms: Atoms,
    this_window: Window,
    target_window: Window,
    accepted: bool,
) -> ClientMessage {
    ClientMessage {
        window: target_window,
        target_window,
        message_type: atoms.xdnd_status,
        data: [this_window, acceptance(accepted), 0, 0, action(atoms, accepted)],
    }
}

/// The message with which the source of a drag learns that the drag is over.
pub open spec fn finished_message(
    atoms: Atoms,
    this_window: Window,
    target_window: Window,
    accepted: bool,
) -> ClientMessage {
    ClientMessage {
        window: target_window,
        target_window,
        message_type: atoms.xdnd_finished,
        data: [this_window, acceptance(accepted), action(atoms, accepted), 0, 0],
    }
}

impl<D> TransferView<D> {
    /// The state once a drag enters a window. A drag that is already in progress stays.
    pub open spec fn with_drag(self, drag: DragView) -> TransferView<D> {
        if self.state is Some {
            self
        } else {
            TransferView { state: Some(drag), ..self }
        }
    }
}

/// What [`DataTransferState::send_finished`] says where no drag is in progress.
pub const NO_DRAG: &'static str =
    "Drag-and-drop state was not initialized (called `send_finished` before XdndEnter";

impl<D> DataTransferState<D> {
    /// Finds the first of the drag's types that stands for exactly `hint`.
    pub fn find_type_by_hint(&self, hint: TypeHint) -> (found: Option<&SelectionType>)
        ensures
            match self@.state {
                Some(drag) => match first_with_hint(drag.types, hint@) {
                    Some(i) => found is Some && 0 <= i < drag.types.len() && found->0@
                        == drag.types[i],
                    None => found is None,
                },
                None => found is None,
            },
    {
        match &self.state {
            Some(drag) => find_by_hint(&drag.types, hint),
            None => None,
        }
    }

    /// Starts a drag operation, unless one is in progress already; then that one goes on. An
    /// identifier is used up either way.
    pub fn init_state(
        &mut self,
        ids: &mut TransferIds,
        version: i64,
        source_window: Window,
        target_window: Window,
        types: Vec<SelectionType>,
    ) -> (drag: &DragState)
        ensures
            final(self)@ == old(self)@.with_drag(
                DragView {
                    version,
                    types: type_views(types@),
                    source_window,
                    target_window,
                    ..DragView::blank(DataTransferId { raw: old(ids)@ })
                },
            ),
            final(self)@.state == Some(drag@),
            final(ids)@ == next_raw(old(ids)@),
    {
        let blank = DragState::new(ids);
        let drag = DragState { version, types, source_window, target_window, ..blank };
        self.state.get_or_insert(drag)
    }

    /// Tells the source of the drag that the drag is over, and whether its data was taken. The data
    /// of a drag on which the application said nothing was not taken.
    pub fn send_finished(&self, this_window: Window, target_window: Window) -> (message: Result<
        ClientMessage,
        X11Error,
    >)
        ensures
            message == (match self@.state {
                Some(drag) => Ok::<ClientMessage, X11Error>(
                    finished_message(
                        self@.atoms,
                        this_window,
                        target_window,
                        drag.accepted == Some(true),
                    ),
                ),
                None => Err::<ClientMessage, X11Error>(X11Error::UnexpectedNull(NO_DRAG)),
            }),
    {
        match &self.state {
            None => Err(X11Error::UnexpectedNull(NO_DRAG)),
            Some(drag) => {
                let (accepted, action): (u32, Atom) = match drag.accepted {
                    Some(true) => (1, self.atoms.xdnd_action_copy),
                    _ => (0, self.atoms.none),
                };
                let message = ClientMessage {
                    window: target_window,
                    target_window,
                    message_type: self.atoms.xdnd_finished,
                    data: [this_window, accepted, action, 0, 0],
                };
                Ok(message)
            },
        }
    }

    /// Asks the source of the drag for the types in which its data can be had.
    pub fn get_type_list(&self, source_window: Window) -> (read: PropertyRead)
        ensures
            read == (PropertyRead {
                window: source_window,
                property: self@.atoms.xdnd_type_list,
                type_: PredefinedAtom::Atom.number(),
            }),
    {
        PropertyRead {
            window: source_window,
            property: self.atoms.xdnd_type_list,
            type_: predefined_atom(PredefinedAtom::Atom),
        }
    }

    /// Tells the source of the drag whether its data would be taken.
    pub fn send_status(&self, this_window: Window, target_window: Window, status: DndState) -> (
    message: ClientMessage)
        ensures
            message == status_message(self@.atoms, this_window, target_window, status.accepts()),
    {
        let (accepted, action): (u32, Atom) = match status {
            DndState::Accepted => (1, self.atoms.xdnd_action_copy),
            DndState::Rejected => (0, self.atoms.none),
        };
        ClientMessage {
            window: target_window,
            target_window,
            message_type: self.atoms.xdnd_status,
            data: [this_window, accepted, 0, 0, action],
        }
    }

    /// Reads the dragged data, once it is there, in the given type.
    pub fn read_data(&self, window: Window, type_: &SelectionType) -> (read: PropertyRead)
        ensures
            read == (PropertyRead {
                window,
                property: self@.atoms.xdnd_selection,
                type_: type_@.atom,
            }),
    {
        PropertyRead { window, property: self.atoms.xdnd_selection, type_: type_.atom() }
    }
}

/// What this client says while the drag goes on and what it says at the end do not contradict
/// each other: the two messages go to the same window and carry the same answer and the same
/// action.
pub proof fn messages_of_a_drag_agree(
    atoms: Atoms,
    this_window: Window,
    target_window: Window,
    accepted: bool,
)
    ensures
        ({
            let status = status_message(atoms, this_window, target_window, accepted);
            let finished = finished_message(atoms, this_window, target_window, accepted);
            &&& status.target_window == finished.target_window
            &&& status.data@[0] == finished.data@[0]
            &&& status.data@[1] == finished.data@[1]
            &&& status.data@[4] == finished.data@[2]
        }),
{
}

} // verus!
