//! Moving contents chunk by chunk.

use vstd::prelude::*;
use crate::clipboard::{Delivery, DeliveryView};
use crate::incr::{advance, after_writes, change_views, chunk_changes, first_on, incr_views};
use crate::incr::{next_chunks, position_on, IncrState, IncrView};
use crate::protocol::{Atom, ChangeView, PropertyChange, PropertyState, PropertyTake, Window};
use crate::protocol::{XPropertyEvent, XSelectionEvent};
use crate::selection::{ClipboardSelectionType, SelectionType, SelectionTypeView};
use crate::transfer::paste::delivery_view;
use crate::transfer::{DataTransferState, TransferView};

verus! {

impl XPropertyEvent {
    /// The property that changed.
    pub open spec fn changed_property(self) -> Atom {
        self.atom as Atom
    }

    /// The window that the property belongs to.
    pub open spec fn changed_window(self) -> Window {
        self.window as Window
    }
}

impl<D> TransferView<D> {
    /// The chunks that have to be written now that a property has changed: where it was deleted,
    /// the next chunk of each transfer that goes out through it.
    pub open spec fn chunks_to_write(self, xev: XPropertyEvent) -> Seq<ChangeView> {
        if xev.reports(PropertyState::Deleted) {
            chunk_changes(self.clip_incr_send, xev.changed_window(), xev.changed_property())
        } else {
            seq![]
        }
    }

    /// The state once the chunks were written, where `written` says of each of them whether the
    /// write succeeded.
    pub open spec fn after_chunks(self, xev: XPropertyEvent, written: Seq<bool>) -> TransferView<D> {
        if xev.reports(PropertyState::Deleted) {
            TransferView {
                clip_incr_send: after_writes(
                    self.clip_incr_send,
                    xev.changed_property(),
                    written,
                ),
                ..self
            }
        } else {
            self
        }
    }

    /// The state once the owner of a clipboard has announced a transfer in chunks. For a
    /// selection that is no clipboard the announcement is ignored.
    pub open spec fn with_receiver(self, xev: XSelectionEvent) -> TransferView<D> {
        match ClipboardSelectionType::of_atom(self.atoms, xev.selection as Atom) {
            Some(clipboard) => TransferView {
                clip_incr_receive: self.clip_incr_receive.push(
                    IncrView {
                        data: seq![],
                        property: xev.property as Atom,
                        ty: SelectionTypeView::of_atom(self.atoms, xev.target as Atom),
                        clipboard,
                    },
                ),
                ..self
            },
            None => self,
        }
    }

    /// The transfer whose next chunk has come in, where a property has a new value: the first
    /// that comes in through it.
    pub open spec fn receiving(self, xev: XPropertyEvent) -> Option<int> {
        if xev.reports(PropertyState::NewValue) {
            first_on(self.clip_incr_receive, xev.changed_property())
        } else {
            None
        }
    }

    /// The state once a chunk was taken out of the property, or could not be taken. A chunk with
    /// bytes in it is added to what has been received. An empty chunk ends the transfer, and the
    /// fetch in progress is answered. A transfer also ends where a chunk cannot be taken.
    pub open spec fn after_chunk(self, xev: XPropertyEvent, taken: Option<Seq<u8>>) -> TransferView<
        D,
    > {
        match self.receiving(xev) {
            None => self,
            Some(i) => {
                let transfer = self.clip_incr_receive[i];
                let without = TransferView {
                    clip_incr_receive: self.clip_incr_receive.remove(i),
                    ..self
                };
                match taken {
                    None => without,
                    Some(chunk) => {
                        if chunk.len() > 0 {
                            TransferView {
                                clip_incr_receive: self.clip_incr_receive.update(
                                    i,
                                    IncrView { data: transfer.data + chunk, ..transfer },
                                ),
                                ..self
                            }
                        } else {
                            without.after_delivery(transfer.clipboard)
                        }
                    },
                }
            },
        }
    }

    /// What is handed on once a chunk was taken out of the property: at the end of the transfer,
    /// the answer to the fetch in progress.
    pub open spec fn chunk_delivery(
        self,
        xev: XPropertyEvent,
        taken: Option<Seq<u8>>,
    ) -> Option<DeliveryView> {
        match self.receiving(xev) {
            Some(i) if taken is Some && taken->0.len() == 0 => self.delivery(
                xev.changed_window(),
                self.clip_incr_receive[i].clipboard,
                self.clip_incr_receive[i].data,
            ),
            _ => None,
        }
    }
}

/// The bytes of an optional chunk.
pub open spec fn chunk_view(chunk: Option<Vec<u8>>) -> Option<Seq<u8>> {
    match chunk {
        Some(chunk) => Some(chunk@),
        None => None,
    }
}

impl<D> DataTransferState<D> {
    /// The chunks that have to be written now that a property has changed.
    pub fn incr_send_chunks(&self, xev: &XPropertyEvent) -> (changes: Vec<PropertyChange>)
        ensures
            change_views(changes@) == self@.chunks_to_write(*xev),
    {
        if !xev.is_delete() {
            let changes: Vec<PropertyChange> = Vec::new();
            assert(change_views(changes@) =~= seq![]);
            return changes;
        }
        next_chunks(&self.clip_incr_send, xev.window as Window, xev.atom as Atom)
    }

    /// Moves the transfers on, once the chunks of [`DataTransferState::incr_send_chunks`] were
    /// written. `written` says of each of them, in the same order, whether the write succeeded; one
    /// of which it says nothing counts as failed.
    pub fn check_incr_send_data(&mut self, xev: &XPropertyEvent, written: &Vec<bool>)
        ensures
            final(self)@ == old(self)@.after_chunks(*xev, written@),
    {
        if !xev.is_delete() {
            return;
        }
        let mut transfers: Vec<IncrState> = Vec::new();
        std::mem::swap(&mut transfers, &mut self.clip_incr_send);
        self.clip_incr_send = advance(transfers, xev.atom as Atom, written);
    }

    /// Makes ready to receive contents in chunks.
    pub fn start_incr_receiver(&mut self, xev: &XSelectionEvent)
        ensures
            final(self)@ == old(self)@.with_receiver(*xev),
    {
        let clipboard = match ClipboardSelectionType::from_atom(&self.atoms, xev.selection as Atom) {
            Some(clipboard) => clipboard,
            None => return,
        };
        let ghost before = self.clip_incr_receive@;
        let ty = SelectionType::new(&self.atoms, xev.target as Atom);
        let nothing: Vec<u8> = Vec::new();
        assert(nothing@ =~= seq![]);
        let transfer = IncrState::new(nothing, xev.property as Atom, ty, clipboard);
        self.clip_incr_receive.push(transfer);
        assert(incr_views(self.clip_incr_receive@) =~= incr_views(before).push(transfer@));
    }

    /// The chunk that has to be taken now that a property has changed: there is one where the
    /// property has a new value and a transfer comes in through it.
    pub fn incr_receive_chunk(&self, xev: &XPropertyEvent) -> (take: Option<PropertyTake>)
        ensures
            take == (if self@.receiving(*xev) is Some {
                Some(
                    PropertyTake {
                        window: xev.changed_window(),
                        property: xev.changed_property(),
                    },
                )
            } else {
                None::<PropertyTake>
            }),
    {
        let atom = xev.atom as Atom;
        if xev.is_new_value() && position_on(&self.clip_incr_receive, atom).is_some() {
            Some(PropertyTake { window: xev.window as Window, property: atom })
        } else {
            None
        }
    }

    /// Takes in the chunk of [`DataTransferState::incr_receive_chunk`], or `None` where it could
    /// not be taken. At the end of the transfer the fetch in progress is answered.
    #[must_use]
    pub fn check_incr_receive_data(&mut self, xev: &XPropertyEvent, taken: Option<Vec<u8>>) -> (
    delivery: Option<Delivery>)
        ensures
            final(self)@ == old(self)@.after_chunk(*xev, chunk_view(taken)),
            delivery_view(delivery) == old(self)@.chunk_delivery(*xev, chunk_view(taken)),
    {
        if !xev.is_new_value() {
            return None;
        }
        let index = match position_on(&self.clip_incr_receive, xev.atom as Atom) {
            Some(index) => index,
            None => return None,
        };
        let ghost before = self.clip_incr_receive@;
        match taken {
            None => {
                self.clip_incr_receive.remove(index);
                assert(incr_views(self.clip_incr_receive@) =~= incr_views(before).remove(
                    index as int,
                ));
                None
            },
            Some(chunk) => {
                if chunk.len() != 0 {
                    self.clip_incr_receive[index].append(chunk);
                    assert(incr_views(self.clip_incr_receive@) =~= incr_views(before).update(
                        index as int,
                        self.clip_incr_receive@[index as int]@,
                    ));
                    None
                } else {
                    let transfer = self.clip_incr_receive.remove(index);
                    assert(incr_views(self.clip_incr_receive@) =~= incr_views(before).remove(
                        index as int,
                    ));
                    let (data, clipboard) = transfer.into_parts();
                    self.send_clipboard_data(xev.window as Window, clipboard, data)
                }
            },
        }
    }
}

} // verus!
