//! The state of one clipboard.

use std::collections::VecDeque;
use vstd::prelude::*;
use winit_core::event_loop::AsyncRequestSerial;
use crate::data::{ReaderView, SelectionReader};
use crate::drag::{fetch_views, FetchView};
use crate::hint::TypeHint;
use crate::id::{next_raw, DataTransferId, TransferIds};
use crate::protocol::{ConvertSelection, WindowId};
use crate::selection::{find_by_hint, first_with_hint, type_views, Selection};
use crate::selection::{SelectionType, SelectionTypeView};

verus! {

/// One clipboard, as this client knows it. `D` is what the application supplies its own clipboard
/// contents with.
#[derive(Debug)]
pub struct ClipboardState<D> {
    /// The contents, where this client owns the clipboard.
    owned_data: Option<D>,
    /// Identifies the contents: it changes when the application sets new contents, and stays the
    /// same however often they are pasted.
    clipboard_serial: DataTransferId,
    /// The types in which the contents can be pasted.
    types: Vec<SelectionType>,
    /// The fetches that are still to be answered; the first of them is in progress.
    pending_fetch_types: VecDeque<(AsyncRequestSerial, SelectionType)>,
}

/// What a [`ClipboardState`] holds.
pub struct ClipboardView<D> {
    pub owned_data: Option<D>,
    pub clipboard_serial: DataTransferId,
    pub types: Seq<SelectionTypeView>,
    pub pending_fetch_types: Seq<FetchView>,
}

impl<D> View for ClipboardState<D> {
    type V = ClipboardView<D>;

    closed spec fn view(&self) -> ClipboardView<D> {
        ClipboardView {
            owned_data: self.owned_data,
            clipboard_serial: self.clipboard_serial,
            types: type_views(self.types@),
            pending_fetch_types: fetch_views(self.pending_fetch_types@),
        }
    }
}

impl<D> ClipboardView<D> {
    /// A clipboard that this client does not own and of which it knows nothing.
    pub open spec fn blank(id: DataTransferId) -> ClipboardView<D> {
        ClipboardView {
            owned_data: None,
            clipboard_serial: id,
            types: seq![],
            pending_fetch_types: seq![],
        }
    }

    /// The clipboard with one more fetch waiting.
    pub open spec fn with_fetch(
        self,
        serial: AsyncRequestSerial,
        ty: SelectionTypeView,
    ) -> ClipboardView<D> {
        ClipboardView {
            pending_fetch_types: self.pending_fetch_types.push((serial, ty)),
            ..self
        }
    }

    /// The clipboard once its fetch in progress is answered.
    pub open spec fn without_fetch(self) -> ClipboardView<D> {
        ClipboardView { pending_fetch_types: self.pending_fetch_types.drop_first(), ..self }
    }
}

impl<D> ClipboardState<D> {
    /// A clipboard that this client does not own and of which it knows nothing.
    pub fn new(ids: &mut TransferIds) -> (clipboard: ClipboardState<D>)
        ensures
            clipboard@ == ClipboardView::<D>::blank(DataTransferId { raw: old(ids)@ }),
            final(ids)@ == next_raw(old(ids)@),
    {
        let clipboard = ClipboardState {
            owned_data: None,
            clipboard_serial: ids.generate_transfer_id(),
            types: Vec::new(),
            pending_fetch_types: VecDeque::new(),
        };
        assert(clipboard@.types =~= seq![]);
        assert(clipboard@.pending_fetch_types =~= seq![]);
        clipboard
    }

    /// The types in which the contents can be pasted.
    pub fn get_types(&self) -> (selection: Selection)
        ensures
            selection@ == self@.types,
    {
        let mut types: Vec<SelectionType> = Vec::new();
        let mut i: usize = 0;
        while i < self.types.len()
            invariant
                i <= self.types@.len(),
                types@ == self.types@.take(i as int),
            decreases self.types@.len() - i,
        {
            types.push(self.types[i]);
            i += 1;
            assert(types@ =~= self.types@.take(i as int));
        }
        assert(types@ =~= self.types@);
        Selection::new(types)
    }

    /// Adds a fetch to those that wait. Returns whether it has to be started at once, which is so
    /// when no other is in progress.
    pub fn add_to_fetch(&mut self, serial: AsyncRequestSerial, ty: SelectionType) -> (start: bool)
        ensures
            final(self)@ == old(self)@.with_fetch(serial, ty@),
            start == (old(self)@.pending_fetch_types.len() == 0),
    {
        let ghost before = self.pending_fetch_types@;
        self.pending_fetch_types.push_back((serial, ty));
        assert(fetch_views(self.pending_fetch_types@) =~= fetch_views(before).push(
            (serial, ty@),
        ));
        self.pending_fetch_types.len() == 1
    }

    /// Finds the first of the types that stands for exactly `hint`.
    pub fn find_type_by_hint(&self, hint: TypeHint) -> (found: Option<&SelectionType>)
        ensures
            match first_with_hint(self@.types, hint@) {
                Some(i) => found is Some && 0 <= i < self@.types.len() && found->0@
                    == self@.types[i],
                None => found is None,
            },
    {
        find_by_hint(&self.types, hint)
    }

    /// Drops the contents that this client owns. Returns whether there were any.
    pub fn clear_owned_data(&mut self) -> (cleared: bool)
        ensures
            cleared == old(self)@.owned_data is Some,
            final(self)@ == (ClipboardView { owned_data: None, ..old(self)@ }),
    {
        self.owned_data.take().is_some()
    }

    /// The contents that this client owns.
    pub fn owned_data(&self) -> (data: Option<&D>)
        ensures
            match self@.owned_data {
                Some(owned) => data == Some(&owned),
                None => data is None,
            },
    {
        self.owned_data.as_ref()
    }

    /// Identifies the contents.
    pub fn clipboard_serial(&self) -> (id: DataTransferId)
        ensures
            id == self@.clipboard_serial,
    {
        self.clipboard_serial
    }

    /// Takes over new contents, under a new identifier.
    pub(crate) fn set_owned_data(&mut self, data: D, id: DataTransferId)
        ensures
            final(self)@ == (ClipboardView {
                owned_data: Some(data),
                clipboard_serial: id,
                ..old(self)@
            }),
    {
        self.owned_data = Some(data);
        self.clipboard_serial = id;
    }

    /// Replaces the types in which the contents can be pasted.
    pub(crate) fn set_types(&mut self, types: Vec<SelectionType>)
        ensures
            final(self)@ == (ClipboardView { types: type_views(types@), ..old(self)@ }),
    {
        self.types = types;
    }

    /// Takes out the fetch in progress.
    pub(crate) fn pop_fetch(&mut self) -> (fetch: Option<(AsyncRequestSerial, SelectionType)>)
        ensures
            match fetch {
                Some(fetch) => {
                    &&& old(self)@.pending_fetch_types.len() > 0
                    &&& (fetch.0, fetch.1@) == old(self)@.pending_fetch_types[0]
                    &&& final(self)@ == old(self)@.without_fetch()
                },
                None => old(self)@.pending_fetch_types.len() == 0 && final(self)@ == old(self)@,
            },
    {
        let ghost before = self.pending_fetch_types@;
        let fetch = self.pending_fetch_types.pop_front();
        if fetch.is_some() {
            assert(fetch_views(self.pending_fetch_types@) =~= fetch_views(before).drop_first());
        }
        fetch
    }

    /// The type that the fetch in progress wants.
    pub(crate) fn next_fetch_type(&self) -> (ty: Option<SelectionType>)
        ensures
            match ty {
                Some(ty) => self@.pending_fetch_types.len() > 0 && ty@
                    == self@.pending_fetch_types[0].1,
                None => self@.pending_fetch_types.len() == 0,
            },
    {
        if self.pending_fetch_types.len() == 0 {
            None
        } else {
            let fetch = &self.pending_fetch_types[0];
            Some(fetch.1)
        }
    }
}

/// The answer to a fetch, on its way to the application.
#[derive(Debug)]
pub struct FinishedDataTransfer {
    id: DataTransferId,
    serial: AsyncRequestSerial,
    value: SelectionReader,
    window: WindowId,
}

/// What a [`FinishedDataTransfer`] holds.
pub struct FinishedView {
    pub id: DataTransferId,
    pub serial: AsyncRequestSerial,
    pub value: ReaderView,
    pub window: WindowId,
}

impl View for FinishedDataTransfer {
    type V = FinishedView;

    closed spec fn view(&self) -> FinishedView {
        FinishedView {
            id: self.id,
            serial: self.serial,
            value: self.value@,
            window: self.window,
        }
    }
}

/// The event by which the application learns that its fetch is answered.
#[derive(Debug)]
pub struct DataTransferReceived {
    pub id: DataTransferId,
    pub serial: AsyncRequestSerial,
    pub value: SelectionReader,
}

impl FinishedDataTransfer {
    pub(crate) fn new(
        id: DataTransferId,
        serial: AsyncRequestSerial,
        value: SelectionReader,
        window: WindowId,
    ) -> (finished: FinishedDataTransfer)
        ensures
            finished@ == (FinishedView { id, serial, value: value@, window }),
    {
        FinishedDataTransfer { id, serial, value, window }
    }

    /// The window that the event is for.
    #[must_use]
    pub fn window(&self) -> (window: WindowId)
        ensures
            window == self@.window,
    {
        self.window
    }

    /// The event for the application.
    #[must_use]
    pub fn to_event(self) -> (event: DataTransferReceived)
        ensures
            event.id == self@.id,
            event.serial == self@.serial,
            event.value@ == self@.value,
    {
        DataTransferReceived { id: self.id, serial: self.serial, value: self.value }
    }
}

/// An answered fetch, and the request that starts the next one where one waits.
#[derive(Debug)]
pub struct Delivery {
    pub finished: FinishedDataTransfer,
    pub next: Option<ConvertSelection>,
}

/// What a [`Delivery`] holds.
pub struct DeliveryView {
    pub finished: FinishedView,
    pub next: Option<ConvertSelection>,
}

impl View for Delivery {
    type V = DeliveryView;

    open spec fn view(&self) -> DeliveryView {
        DeliveryView { finished: self.finished@, next: self.next }
    }
}

/// Fetches wait in line: a new one comes behind all others, and the one that is answered leaves
/// from the front. The others keep their order, and nothing else of the clipboard changes. A fetch
/// that finds nobody before it leaves the line as it was.
pub proof fn fetches_wait_in_line<D>(
    clipboard: ClipboardView<D>,
    serial: AsyncRequestSerial,
    ty: SelectionTypeView,
    i: int,
)
    ensures
        ({
            let line = clipboard.pending_fetch_types;
            let longer = clipboard.with_fetch(serial, ty);
            let shorter = clipboard.without_fetch();
            &&& longer.pending_fetch_types.len() == line.len() + 1
            &&& longer.pending_fetch_types[line.len() as int] == (serial, ty)
            &&& 0 <= i < line.len() ==> longer.pending_fetch_types[i] == line[i]
            &&& longer.owned_data == clipboard.owned_data
            &&& longer.clipboard_serial == clipboard.clipboard_serial
            &&& longer.types == clipboard.types
            &&& line.len() > 0 ==> shorter.pending_fetch_types.len() == line.len() - 1
            &&& 0 <= i < line.len() - 1 ==> shorter.pending_fetch_types[i] == line[i + 1]
            &&& shorter.owned_data == clipboard.owned_data
            &&& shorter.clipboard_serial == clipboard.clipboard_serial
            &&& shorter.types == clipboard.types
            &&& line.len() == 0 ==> longer.without_fetch() == clipboard
        }),
{
    if clipboard.pending_fetch_types.len() == 0 {
        assert(clipboard.with_fetch(serial, ty).without_fetch().pending_fetch_types
            =~= clipboard.pending_fetch_types);
    }
}

/// Of a new clipboard nothing is known: this client does not own it, it lists no type, and no
/// fetch waits.
pub proof fn new_clipboards_are_unknown<D>(id: DataTransferId)
    ensures
        ClipboardView::<D>::blank(id).clipboard_serial == id,
        ClipboardView::<D>::blank(id).owned_data is None,
        ClipboardView::<D>::blank(id).types.len() == 0,
        ClipboardView::<D>::blank(id).pending_fetch_types.len() == 0,
{
}

/// A delivery holds the answered fetch and the next request, each as it is.
pub proof fn deliveries_hold_their_parts(delivery: Delivery)
    ensures
        delivery@.finished == delivery.finished@,
        delivery@.next == delivery.next,
{
}

} // verus!
