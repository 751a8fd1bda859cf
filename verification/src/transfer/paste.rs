//! Pasting: the contents of other clients' clipboards come in.

use vstd::prelude::*;
use crate::atoms::Atoms;
use crate::bytes::{read_words, words_of, ByteOrder};
use crate::clipboard::{ClipboardView, Delivery, DeliveryView, FinishedDataTransfer, FinishedView};
use crate::data::{ReaderView, SelectionReader};
use crate::id::DataTransferId;
use crate::protocol::{current_time, mkwid, window_id, Atom, ConvertSelection, Window};
use crate::protocol::CURRENT_TIME;
use crate::selection::{type_views, ClipboardSelectionType, SelectionType, SelectionTypeView};
use crate::transfer::{DataTransferState, TransferView};

verus! {

/// The property in which the list of a clipboard's types is asked for.
pub const TARGETS_PROPERTY: Atom = 42;

/// The request to convert a selection, as of now.
pub open spec fn conversion(
    requestor: Window,
    selection: Atom,
    target: Atom,
    property: Atom,
) -> ConvertSelection {
    ConvertSelection { requestor, selection, target, property, time: CURRENT_TIME }
}

/// The types that a list of atoms names.
pub open spec fn types_of_atoms(atoms: Atoms, named: Seq<Atom>) -> Seq<SelectionTypeView> {
    named.map_values(|atom: Atom| SelectionTypeView::of_atom(atoms, atom))
}

impl<D> TransferView<D> {
    /// The state once the owner of `selection` has listed its types. A list for a selection that
    /// is no clipboard is ignored.
    pub open spec fn with_targets(self, selection: Atom, named: Seq<Atom>) -> TransferView<D> {
        match ClipboardSelectionType::of_atom(self.atoms, selection) {
            Some(clipboard) => self.with_clipboard(
                clipboard,
                ClipboardView {
                    types: types_of_atoms(self.atoms, named),
                    ..self.clipboard(clipboard)
                },
            ),
            None => self,
        }
    }

    /// The state once the contents of a clipboard have come in: the fetch in progress is
    /// answered.
    pub open spec fn after_delivery(self, clipboard: ClipboardSelectionType) -> TransferView<D> {
        if self.clipboard(clipboard).pending_fetch_types.len() == 0 {
            self
        } else {
            self.with_clipboard(clipboard, self.clipboard(clipboard).without_fetch())
        }
    }

    /// What is handed on once the contents of a clipboard have come in: the answer to the fetch
    /// in progress, and the request that starts the next one. Where no fetch is in progress,
    /// there is nothing to hand on.
    pub open spec fn delivery(
        self,
        xwindow: Window,
        clipboard: ClipboardSelectionType,
        data: Seq<u8>,
    ) -> Option<DeliveryView> {
        let state = self.clipboard(clipboard);
        let fetches = state.pending_fetch_types;
        if fetches.len() == 0 {
            None
        } else {
            let selection = clipboard.named_by(self.atoms);
            Some(
                DeliveryView {
                    finished: FinishedView {
                        id: state.clipboard_serial,
                        serial: fetches[0].0,
                        value: ReaderView { type_: fetches[0].1, data },
                        window: window_id(xwindow),
                    },
                    next: if fetches.len() > 1 {
                        Some(conversion(xwindow, selection, fetches[1].1.atom, selection))
                    } else {
                        None
                    },
                },
            )
        }
    }
}

/// What an optional [`Delivery`] holds.
pub open spec fn delivery_view(delivery: Option<Delivery>) -> Option<DeliveryView> {
    match delivery {
        Some(delivery) => Some(delivery@),
        None => None,
    }
}

impl<D> DataTransferState<D> {
    /// Asks the owner of a selection to convert it to a target type and to store it in a
    /// property of the window `xwindow`.
    pub fn convert_selection(
        &self,
        xwindow: Window,
        selection: Atom,
        target: Atom,
        property: Atom,
    ) -> (request: ConvertSelection)
        ensures
            request == conversion(xwindow, selection, target, property),
    {
        ConvertSelection { requestor: xwindow, selection, target, property, time: current_time() }
    }

    /// Starts to paste: asks the owner of the clipboard in which types its contents can be had.
    /// Returns the identifier of the contents, with the request.
    pub fn request_clipboard_read(&self, xwindow: Window, clipboard: ClipboardSelectionType) -> (
    read: (DataTransferId, ConvertSelection))
        ensures
            read.0 == self@.clipboard(clipboard).clipboard_serial,
            read.1 == conversion(
                xwindow,
                clipboard.named_by(self@.atoms),
                self@.atoms.targets,
                TARGETS_PROPERTY,
            ),
    {
        let request = self.convert_selection(
            xwindow,
            clipboard.to_atom(&self.atoms),
            self.atoms.targets,
            TARGETS_PROPERTY,
        );
        (self.get_clipboard(clipboard).clipboard_serial(), request)
    }

    /// Takes note of the types that the owner of `selection` lists. They come as 32-bit numbers
    /// in the byte order of this machine; bytes behind the last whole number are ignored.
    pub fn populate_targets(&mut self, selection: Atom, data: Vec<u8>)
        ensures
            final(self)@ == old(self)@.with_targets(
                selection,
                words_of(data@, ByteOrder::of_machine()),
            ),
    {
        self.populate_targets_in(selection, data, ByteOrder::native())
    }

    /// Takes note of the types that the owner of `selection` lists, in the given byte order.
    pub fn populate_targets_in(&mut self, selection: Atom, data: Vec<u8>, order: ByteOrder)
        ensures
            final(self)@ == old(self)@.with_targets(selection, words_of(data@, order)),
    {
        let named = read_words(&data, order);
        let mut targets: Vec<SelectionType> = Vec::new();
        let mut i: usize = 0;
        let ghost atoms = self.atoms;
        assert(type_views(targets@) =~= types_of_atoms(atoms, named@).take(0));
        while i < named.len()
            invariant
                i <= named@.len(),
                atoms == self.atoms,
                *self == *old(self),
                type_views(targets@) == types_of_atoms(atoms, named@).take(i as int),
            decreases named@.len() - i,
        {
            let ghost before = targets@;
            let target = SelectionType::new(&self.atoms, named[i]);
            targets.push(target);
            assert(type_views(targets@) =~= type_views(before).push(target@));
            i += 1;
            assert(type_views(targets@) =~= types_of_atoms(atoms, named@).take(i as int));
        }
        assert(type_views(targets@) =~= types_of_atoms(atoms, named@));
        match ClipboardSelectionType::from_atom(&self.atoms, selection) {
            Some(clipboard) => self.get_clipboard_mut(clipboard).set_types(targets),
            None => {},
        }
    }

    /// Answers the fetch in progress with the contents of the clipboard, and starts the next
    /// one. Where no fetch is in progress, nothing happens.
    #[must_use]
    pub fn send_clipboard_data(
        &mut self,
        xwindow: Window,
        clipboard: ClipboardSelectionType,
        data: Vec<u8>,
    ) -> (delivery: Option<Delivery>)
        ensures
            final(self)@ == old(self)@.after_delivery(clipboard),
            delivery_view(delivery) == old(self)@.delivery(xwindow, clipboard, data@),
    {
        match self.get_clipboard_mut(clipboard).pop_fetch() {
            None => None,
            Some((serial, type_)) => {
                let value = SelectionReader::new(type_, data);
                let state = self.get_clipboard(clipboard);
                let id = state.clipboard_serial();
                let next = match state.next_fetch_type() {
                    Some(ty) => {
                        let selection = clipboard.to_atom(&self.atoms);
                        Some(self.convert_selection(xwindow, selection, ty.atom(), selection))
                    },
                    None => None,
                };
                let finished = FinishedDataTransfer::new(id, serial, value, mkwid(xwindow));
                Some(Delivery { finished, next })
            },
        }
    }
}

} // verus!
