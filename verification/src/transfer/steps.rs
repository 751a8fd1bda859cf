//! What the single steps do, said of the events that they take, the requests that they return and
//! the parts of the state that they change.

use vstd::prelude::*;
use crate::atoms::Atoms;
use crate::clipboard::Delivery;
use crate::data::{SendData, SendView};
use crate::drag::{DndState, DragState, DragView};
use crate::id::DataTransferId;
use crate::incr::{after_writes, chunk_changes, IncrView};
use crate::protocol::{Atom, ValueView, Window, XPropertyEvent, XSelectionEvent};
use crate::protocol::XSelectionRequestEvent;
use crate::selection::{ClipboardSelectionType, OfferView, SelectionTypeView, TransferType};
use crate::transfer::chunks::chunk_view;
use crate::transfer::copy::{advertised_atoms, incr_answer, offer_views, send_view, supplied_step};
use crate::transfer::copy::{targets_answer, AttachStep, Refusal, StepView, NO_CLIPBOARD};
use crate::transfer::dnd::{finished_message, status_message, NO_DRAG};
use crate::transfer::paste::{conversion, delivery_view, types_of_atoms, TARGETS_PROPERTY};
use crate::transfer::{drag_view, TransferView};

verus! {

/// Nothing but one clipboard differs between the two states.
pub open spec fn differ_in_one_clipboard<D>(
    before: TransferView<D>,
    after: TransferView<D>,
    clipboard: ClipboardSelectionType,
) -> bool {
    &&& after.atoms == before.atoms
    &&& after.state == before.state
    &&& after.clip_incr_send == before.clip_incr_send
    &&& after.clip_incr_receive == before.clip_incr_receive
    &&& clipboard != ClipboardSelectionType::Primary ==> after.primary == before.primary
    &&& clipboard != ClipboardSelectionType::Secondary ==> after.secondary == before.secondary
    &&& clipboard != ClipboardSelectionType::Clipboard ==> after.clipboard == before.clipboard
}

/// Each clipboard has a state of its own, and replacing it changes nothing else.
pub proof fn clipboards_are_kept_apart<D>(
    state: TransferView<D>,
    other: TransferView<D>,
    clipboard: ClipboardSelectionType,
)
    ensures
        state.clipboard(ClipboardSelectionType::Primary) == state.primary,
        state.clipboard(ClipboardSelectionType::Secondary) == state.secondary,
        state.clipboard(ClipboardSelectionType::Clipboard) == state.clipboard,
        ({
            let replaced = state.with_clipboard(clipboard, other.clipboard(clipboard));
            &&& replaced.clipboard(clipboard) == other.clipboard(clipboard)
            &&& differ_in_one_clipboard(state, replaced, clipboard)
        }),
{
}

/// At the start nothing is in progress and nothing is owned; the clipboards have three identifiers
/// in a row.
pub proof fn new_states_are_empty<D>(
    atoms: Atoms,
    next: i64,
    clipboard: ClipboardSelectionType,
    drag: DragState,
)
    ensures
        ({
            let blank = TransferView::<D>::blank(atoms, next);
            &&& blank.atoms == atoms
            &&& blank.state is None
            &&& blank.clip_incr_send.len() == 0
            &&& blank.clip_incr_receive.len() == 0
            &&& blank.clipboard(clipboard).owned_data is None
            &&& blank.clipboard(clipboard).types.len() == 0
            &&& blank.clipboard(clipboard).pending_fetch_types.len() == 0
            &&& blank.primary.clipboard_serial.raw == next
            &&& next < i64::MAX - 1 ==> blank.secondary.clipboard_serial.raw == next + 1
                && blank.clipboard.clipboard_serial.raw == next + 2
        }),
        drag_view(Some(drag)) == Some(drag@),
        drag_view(None) is None,
{
}

/// Setting the contents of a clipboard changes its contents and their identifier, and nothing
/// else: its types and its fetches stay, and so does everything outside it.
pub proof fn set_contents_are_owned<D>(
    state: TransferView<D>,
    clipboard: ClipboardSelectionType,
    data: D,
    id: DataTransferId,
)
    ensures
        ({
            let set = state.with_contents(clipboard, data, id);
            &&& set.clipboard(clipboard).owned_data == Some(data)
            &&& set.clipboard(clipboard).clipboard_serial == id
            &&& set.clipboard(clipboard).types == state.clipboard(clipboard).types
            &&& set.clipboard(clipboard).pending_fetch_types == state.clipboard(
                clipboard,
            ).pending_fetch_types
            &&& differ_in_one_clipboard(state, set, clipboard)
        }),
{
}

/// A clipboard is found by an identifier where its contents have it and those of no clipboard
/// before it do, in the order primary, secondary, clipboard.
pub proof fn clipboards_are_found_in_order<D>(state: TransferView<D>, id: DataTransferId)
    ensures
        state.with_serial(id) == Some(ClipboardSelectionType::Primary)
            <==> state.primary.clipboard_serial.raw == id.raw,
        state.with_serial(id) == Some(ClipboardSelectionType::Secondary)
            <==> state.secondary.clipboard_serial.raw == id.raw
            && state.primary.clipboard_serial.raw != id.raw,
        state.with_serial(id) == Some(ClipboardSelectionType::Clipboard)
            <==> state.clipboard.clipboard_serial.raw == id.raw
            && state.secondary.clipboard_serial.raw != id.raw
            && state.primary.clipboard_serial.raw != id.raw,
{
}

/// A drag that enters becomes the drag in progress, unless one is in progress already; then
/// nothing changes.
pub proof fn a_drag_enters_once<D>(state: TransferView<D>, drag: DragView)
    ensures
        state.state is Some ==> state.with_drag(drag) == state,
        state.state is None ==> {
            &&& state.with_drag(drag).state == Some(drag)
            &&& state.with_drag(drag).atoms == state.atoms
            &&& state.with_drag(drag).primary == state.primary
            &&& state.with_drag(drag).secondary == state.secondary
            &&& state.with_drag(drag).clipboard == state.clipboard
            &&& state.with_drag(drag).clip_incr_send == state.clip_incr_send
            &&& state.with_drag(drag).clip_incr_receive == state.clip_incr_receive
        },
{
}

/// The messages to the source of a drag go to its window, name this client's window first, say 1
/// with the action "copy" where the data is taken, and 0 with no action where it is not. The action
/// of a status is the last word, that of the end is the third; the other words are zero.
pub proof fn drag_messages_say_the_answer(
    atoms: Atoms,
    this_window: Window,
    target_window: Window,
    accepted: bool,
)
    ensures
        ({
            let status = status_message(atoms, this_window, target_window, accepted);
            let end = finished_message(atoms, this_window, target_window, accepted);
            &&& status.window == target_window && status.target_window == target_window
            &&& end.window == target_window && end.target_window == target_window
            &&& status.message_type == atoms.xdnd_status
            &&& end.message_type == atoms.xdnd_finished
            &&& status.data@[0] == this_window && end.data@[0] == this_window
            &&& accepted ==> status.data@[1] == 1 && end.data@[1] == 1
            &&& accepted ==> status.data@[4] == atoms.xdnd_action_copy && end.data@[2]
                == atoms.xdnd_action_copy
            &&& !accepted ==> status.data@[1] == 0 && end.data@[1] == 0
            &&& !accepted ==> status.data@[4] == atoms.none && end.data@[2] == atoms.none
            &&& status.data@[2] == 0 && status.data@[3] == 0
            &&& end.data@[3] == 0 && end.data@[4] == 0
        }),
        DndState::Accepted.accepts(),
        !DndState::Rejected.accepts(),
{
}

/// A request to convert a selection hands on what it is given, as of now.
pub proof fn conversions_ask_for_what_is_wanted(
    requestor: Window,
    selection: Atom,
    target: Atom,
    property: Atom,
)
    ensures
        conversion(requestor, selection, target, property).requestor == requestor,
        conversion(requestor, selection, target, property).selection == selection,
        conversion(requestor, selection, target, property).target == target,
        conversion(requestor, selection, target, property).property == property,
        conversion(requestor, selection, target, property).time == 0,
        TARGETS_PROPERTY == 42,
{
}

/// The types that a clipboard's owner lists become the clipboard's types, each in its place and
/// under its atom. Nothing else of the clipboard changes, and a list for another selection changes
/// nothing at all.
pub proof fn listed_types_become_the_types<D>(
    state: TransferView<D>,
    selection: Atom,
    named: Seq<Atom>,
    i: int,
)
    ensures
        ({
            let after = state.with_targets(selection, named);
            match ClipboardSelectionType::of_atom(state.atoms, selection) {
                Some(clipboard) => {
                    let old = state.clipboard(clipboard);
                    let new = after.clipboard(clipboard);
                    &&& new.types.len() == named.len()
                    &&& 0 <= i < named.len() ==> new.types[i].atom == named[i]
                    &&& 0 <= i < named.len() ==> new.types[i] == SelectionTypeView::of_atom(
                        state.atoms,
                        named[i],
                    )
                    &&& new.owned_data == old.owned_data
                    &&& new.clipboard_serial == old.clipboard_serial
                    &&& new.pending_fetch_types == old.pending_fetch_types
                    &&& differ_in_one_clipboard(state, after, clipboard)
                },
                None => after == state,
            }
        }),
        types_of_atoms(state.atoms, named).len() == named.len(),
{
}

/// Contents that come in answer the fetch that has waited longest, under its token and in its
/// type, with exactly the bytes that came in, for the very window on which they came in. If another
/// fetch waits, its type is asked for next, for the same window. Contents that nobody waits for are
/// handed to nobody.
pub proof fn deliveries_answer_the_first_fetch<D>(
    state: TransferView<D>,
    xwindow: Window,
    clipboard: ClipboardSelectionType,
    data: Seq<u8>,
)
    ensures
        ({
            let fetches = state.clipboard(clipboard).pending_fetch_types;
            let delivery = state.delivery(xwindow, clipboard, data);
            &&& delivery is Some <==> fetches.len() > 0
            &&& delivery is Some ==> {
                let finished = delivery->0.finished;
                let next = delivery->0.next;
                &&& finished.window.raw == xwindow
                &&& finished.id == state.clipboard(clipboard).clipboard_serial
                &&& finished.serial == fetches[0].0
                &&& finished.value.type_ == fetches[0].1
                &&& finished.value.data == data
                &&& next is Some <==> fetches.len() > 1
                &&& next is Some ==> {
                    &&& next->0.requestor == xwindow
                    &&& next->0.selection == clipboard.named_by(state.atoms)
                    &&& next->0.target == fetches[1].1.atom
                    &&& next->0.property == clipboard.named_by(state.atoms)
                    &&& next->0.time == 0
                }
            }
        }),
{
}

/// An answered fetch leaves the line, and the others move up. Nothing else changes.
pub proof fn answered_fetches_leave<D>(
    state: TransferView<D>,
    clipboard: ClipboardSelectionType,
    i: int,
)
    ensures
        ({
            let after = state.after_delivery(clipboard);
            let old = state.clipboard(clipboard);
            let new = after.clipboard(clipboard);
            &&& old.pending_fetch_types.len() == 0 ==> after == state
            &&& old.pending_fetch_types.len() > 0 ==> {
                &&& new.pending_fetch_types.len() == old.pending_fetch_types.len() - 1
                &&& 0 <= i < new.pending_fetch_types.len() ==> new.pending_fetch_types[i]
                    == old.pending_fetch_types[i + 1]
            }
            &&& new.owned_data == old.owned_data
            &&& new.clipboard_serial == old.clipboard_serial
            &&& new.types == old.types
            &&& differ_in_one_clipboard(state, after, clipboard)
        }),
{
}

/// What comes back from a step says what it holds.
pub proof fn results_say_what_they_hold(
    delivery: Delivery,
    chunk: Vec<u8>,
    data: SendData,
    offers: Seq<TransferType>,
    step: AttachStep,
    i: int,
)
    ensures
        delivery_view(Some(delivery)) == Some(delivery@),
        delivery_view(None) is None,
        chunk_view(Some(chunk)) == Some(chunk@),
        chunk_view(None) is None,
        send_view(Some(data)) == Some(data@),
        send_view(None) is None,
        offer_views(offers).len() == offers.len(),
        0 <= i < offers.len() ==> offer_views(offers)[i] == offers[i]@,
        match step {
            AttachStep::Refused(refusal) => step@ == StepView::Refused(refusal),
            AttachStep::ListTypes(clipboard) => step@ == StepView::ListTypes(clipboard),
            AttachStep::FetchData { clipboard, ty } => step@ == StepView::FetchData(clipboard, ty@),
            AttachStep::Listen { requestor, data, ty } => step@ == StepView::Listen(
                requestor,
                data@,
                ty@,
            ),
            AttachStep::Write(change) => step@ == StepView::Write(change@),
        },
        step@.resolved() == Some(false) <==> step is Refused,
        step@.resolved() == Some(true) <==> step is Write,
{
}

/// A request is for the clipboard that its selection names, and its target says what is wanted of
/// it: the list of types, the time, or the contents in the type with the target's atom. The time is
/// written at once, as the integer 0, into the property and the window that the request names.
pub proof fn requests_get_what_they_ask_for<D>(
    state: TransferView<D>,
    request: XSelectionRequestEvent,
)
    ensures
        ({
            let step = state.attach_step(request);
            let target = request.target as u32;
            match ClipboardSelectionType::of_atom(state.atoms, request.selection as u32) {
                None => step == StepView::Refused(Refusal::UnknownClipboard),
                Some(clipboard) => {
                    let owned = state.clipboard(clipboard).owned_data is Some;
                    &&& !owned ==> step == StepView::Refused(Refusal::NoData)
                    &&& owned && target == state.atoms.targets ==> step == StepView::ListTypes(
                        clipboard,
                    )
                    &&& owned && target != state.atoms.targets && target == state.atoms.timestamp
                        ==> {
                        &&& step is Write
                        &&& step->Write_0.window == request.requestor as u32
                        &&& step->Write_0.property == request.property as u32
                        &&& step->Write_0.type_ == 19
                        &&& step->Write_0.mode == 0
                        &&& step->Write_0.value == ValueView::Longs(seq![0u32])
                    }
                    &&& owned && target != state.atoms.targets && target != state.atoms.timestamp
                        ==> {
                        &&& step is FetchData
                        &&& step->FetchData_0 == clipboard
                        &&& step->FetchData_1 == SelectionTypeView::of_atom(state.atoms, target)
                        &&& step->FetchData_1.atom == target
                    }
                },
            }
        }),
        request.clipboard(state.atoms) == ClipboardSelectionType::of_atom(
            state.atoms,
            request.selection as u32,
        ),
{
}

/// The list of types is written as atoms into the property and the window that the request names,
/// and replaces what was there.
pub proof fn type_lists_are_written_where_asked(
    atoms: Atoms,
    request: XSelectionRequestEvent,
    offers: Seq<OfferView>,
)
    ensures
        targets_answer(atoms, request, offers).window == request.requestor as u32,
        targets_answer(atoms, request, offers).property == request.property as u32,
        targets_answer(atoms, request, offers).type_ == 4,
        targets_answer(atoms, request, offers).mode == 0,
        targets_answer(atoms, request, offers).value == ValueView::Longs(
            advertised_atoms(atoms, offers),
        ),
{
}

/// Without an offer the list holds the two types that every clipboard has. Each offer adds its
/// own atoms behind those of the offers before it, in their order, and nothing else.
pub proof fn offers_are_listed_one_by_one(
    atoms: Atoms,
    offers: Seq<OfferView>,
    offer: OfferView,
    k: int,
)
    ensures
        advertised_atoms(atoms, seq![]) == seq![atoms.timestamp, atoms.targets],
        ({
            let before = advertised_atoms(atoms, offers);
            let after = advertised_atoms(atoms, offers.push(offer));
            let own = SelectionTypeView::advertised(atoms, offer);
            &&& after.len() == before.len() + own.len()
            &&& 0 <= k < before.len() ==> after[k] == before[k]
            &&& 0 <= k < own.len() ==> after[before.len() + k] == own[k].atom
        }),
{
    assert(offers.push(offer).drop_last() =~= offers);
    assert(offers.push(offer).last() == offer);
}

/// What the application supplies decides the next step: nothing and unknown data are refused, each
/// for its reason. All other data goes on as it is, byte for byte, under the type that was asked
/// for, to the window that asked.
pub proof fn supplied_data_goes_on(
    request: XSelectionRequestEvent,
    ty: SelectionTypeView,
    send_data: SendView,
    bytes: Seq<u8>,
)
    ensures
        supplied_step(request, ty, None) == StepView::Refused(Refusal::UnknownTarget),
        send_data.wire_bytes() is None ==> supplied_step(request, ty, Some(send_data))
            == StepView::Refused(Refusal::UnknownData),
        send_data.wire_bytes() is Some ==> {
            let step = supplied_step(request, ty, Some(send_data));
            &&& step is Listen
            &&& step->Listen_0 == request.requestor as u32
            &&& Some(step->Listen_1) == send_data.wire_bytes()
            &&& step->Listen_2 == ty
        },
        supplied_step(request, ty, Some(SendView::Bytes(bytes))) == StepView::Listen(
            request.requestor as u32,
            bytes,
            ty,
        ),
        supplied_step(request, ty, Some(SendView::Unknown)) == StepView::Refused(
            Refusal::UnknownData,
        ),
{
}

/// A transfer that is started waits behind the others, with all of its data, its own type, the
/// property that the request names and the clipboard that its selection names. It is announced by
/// an empty property of the type `INCR`. It is not started, and nothing changes, where the
/// selection is unknown or the window is not listened to.
pub proof fn transfers_start_with_what_is_given<D>(
    state: TransferView<D>,
    request: XSelectionRequestEvent,
    data: Seq<u8>,
    ty: SelectionTypeView,
    listening: bool,
    i: int,
)
    ensures
        ({
            let clipboard = ClipboardSelectionType::of_atom(
                state.atoms,
                request.selection as u32,
            );
            let after = state.with_sender(request, data, ty, listening);
            let step = state.sender_step(request, listening);
            let old = state.clip_incr_send;
            let new = after.clip_incr_send;
            &&& clipboard is None || !listening ==> after == state && step == StepView::Refused(
                Refusal::NotStarted,
            )
            &&& clipboard is Some && listening ==> {
                &&& new.len() == old.len() + 1
                &&& new[old.len() as int].data == data
                &&& new[old.len() as int].property == request.property as u32
                &&& new[old.len() as int].ty == ty
                &&& new[old.len() as int].clipboard == clipboard->0
                &&& 0 <= i < old.len() ==> new[i] == old[i]
                &&& step == StepView::Write(incr_answer(state.atoms, request))
            }
            &&& after.clip_incr_receive == state.clip_incr_receive
            &&& after.atoms == state.atoms
            &&& after.state == state.state
            &&& after.primary == state.primary
            &&& after.secondary == state.secondary
            &&& after.clipboard == state.clipboard
        }),
        incr_answer(state.atoms, request).window == request.requestor as u32,
        incr_answer(state.atoms, request).property == request.property as u32,
        incr_answer(state.atoms, request).type_ == state.atoms.incr,
        incr_answer(state.atoms, request).mode == 0,
        incr_answer(state.atoms, request).value == ValueView::Longs(seq![]),
{
}

/// An announced transfer waits behind the others, empty, through the property that the
/// announcement names and for the clipboard that its selection names. For an unknown selection
/// nothing changes.
pub proof fn announced_transfers_are_awaited<D>(
    state: TransferView<D>,
    notify: XSelectionEvent,
    i: int,
)
    ensures
        ({
            let clipboard = ClipboardSelectionType::of_atom(state.atoms, notify.selection as u32);
            let after = state.with_receiver(notify);
            let old = state.clip_incr_receive;
            let new = after.clip_incr_receive;
            &&& clipboard is None ==> after == state
            &&& clipboard is Some ==> {
                &&& new.len() == old.len() + 1
                &&& new[old.len() as int].data.len() == 0
                &&& new[old.len() as int].property == notify.property as u32
                &&& new[old.len() as int].ty == SelectionTypeView::of_atom(
                    state.atoms,
                    notify.target as u32,
                )
                &&& new[old.len() as int].clipboard == clipboard->0
                &&& 0 <= i < old.len() ==> new[i] == old[i]
            }
            &&& after.clip_incr_send == state.clip_incr_send
            &&& after.atoms == state.atoms
            &&& after.state == state.state
            &&& after.primary == state.primary
            &&& after.secondary == state.secondary
            &&& after.clipboard == state.clipboard
        }),
{
}

/// Only a deleted property makes senders write, into that property of that window, and only then
/// do they move on. Nothing else changes.
pub proof fn deletions_make_senders_write<D>(
    state: TransferView<D>,
    xev: XPropertyEvent,
    written: Seq<bool>,
)
    ensures
        xev.state != 1 ==> state.chunks_to_write(xev).len() == 0,
        xev.state != 1 ==> state.after_chunks(xev, written) == state,
        xev.state == 1 ==> state.chunks_to_write(xev) == chunk_changes(
            state.clip_incr_send,
            xev.window as u32,
            xev.atom as u32,
        ),
        xev.state == 1 ==> state.after_chunks(xev, written).clip_incr_send == after_writes(
            state.clip_incr_send,
            xev.atom as u32,
            written,
        ),
        state.after_chunks(xev, written).clip_incr_receive == state.clip_incr_receive,
        state.after_chunks(xev, written).atoms == state.atoms,
        state.after_chunks(xev, written).state == state.state,
        state.after_chunks(xev, written).primary == state.primary,
        state.after_chunks(xev, written).secondary == state.secondary,
        state.after_chunks(xev, written).clipboard == state.clipboard,
{
    crate::protocol::events_report_what_their_state_says(xev);
}

/// The transfer at position `j` is the one that a chunk through the changed property is for: the
/// property has a new value, and no earlier transfer comes in through it.
pub open spec fn is_for<D>(state: TransferView<D>, xev: XPropertyEvent, j: int) -> bool {
    &&& xev.state == 0
    &&& 0 <= j < state.clip_incr_receive.len()
    &&& state.clip_incr_receive[j].property == xev.atom as u32
    &&& forall|k: int|
        0 <= k < j ==> (#[trigger] state.clip_incr_receive[k]).property != xev.atom as u32
}

/// A chunk is for the first transfer that comes in through the property with a new value. Its
/// bytes are added behind those that came before. The empty chunk ends the transfer, and what has
/// come in is delivered to its clipboard, for the window of that last event. A transfer whose chunk
/// cannot be taken is dropped. Nothing else changes.
pub proof fn chunks_go_to_the_first_transfer<D>(
    state: TransferView<D>,
    xev: XPropertyEvent,
    taken: Option<Seq<u8>>,
    j: int,
)
    requires
        is_for(state, xev, j),
    ensures
        state.receiving(xev) == Some(j),
        ({
            let transfer = state.clip_incr_receive[j];
            let after = state.after_chunk(xev, taken);
            let delivery = state.chunk_delivery(xev, taken);
            let dropped = TransferView {
                clip_incr_receive: state.clip_incr_receive.remove(j),
                ..state
            };
            match taken {
                None => after == dropped && delivery is None,
                Some(chunk) => {
                    &&& chunk.len() > 0 ==> {
                        &&& delivery is None
                        &&& after == (TransferView {
                            clip_incr_receive: state.clip_incr_receive.update(
                                j,
                                IncrView {
                                    data: transfer.data + chunk,
                                    property: transfer.property,
                                    ty: transfer.ty,
                                    clipboard: transfer.clipboard,
                                },
                            ),
                            ..state
                        })
                    }
                    &&& chunk.len() == 0 ==> {
                        &&& after == dropped.after_delivery(transfer.clipboard)
                        &&& delivery == state.delivery(
                            xev.window as u32,
                            transfer.clipboard,
                            transfer.data,
                        )
                        &&& delivery is Some ==> {
                            &&& delivery->0.finished.window.raw == xev.window as u32
                            &&& delivery->0.finished.value.data == transfer.data
                        }
                    }
                },
            }
        }),
{
    crate::protocol::events_report_what_their_state_says(xev);
    crate::incr::found_transfer_is_the_first(state.clip_incr_receive, xev.atom as u32);
    match crate::incr::first_on(state.clip_incr_receive, xev.atom as u32) {
        Some(i) => {
            if i < j {
                assert(state.clip_incr_receive[i].property != xev.atom as u32);
            }
            if j < i {
                assert(state.clip_incr_receive[j].property != xev.atom as u32);
            }
        },
        None => {
            assert(state.clip_incr_receive[j].property != xev.atom as u32);
        },
    }
}

/// A chunk that is for no transfer changes nothing and is handed to nobody.
pub proof fn chunks_for_no_transfer_are_ignored<D>(
    state: TransferView<D>,
    xev: XPropertyEvent,
    taken: Option<Seq<u8>>,
)
    requires
        xev.state != 0 || forall|k: int|
            0 <= k < state.clip_incr_receive.len() ==> (
            #[trigger] state.clip_incr_receive[k]).property != xev.atom as u32,
    ensures
        state.receiving(xev) is None,
        state.after_chunk(xev, taken) == state,
        state.chunk_delivery(xev, taken) is None,
{
    crate::protocol::events_report_what_their_state_says(xev);
    crate::incr::found_transfer_is_the_first(state.clip_incr_receive, xev.atom as u32);
}

/// A property event is about the property and the window whose numbers it carries, and a request
/// names its window, its property and its target in the same way.
pub proof fn events_name_their_places(xev: XPropertyEvent, request: XSelectionRequestEvent)
    ensures
        xev.changed_property() == xev.atom as u32,
        xev.changed_window() == xev.window as u32,
        request.window() == request.requestor as u32,
        request.answer_property() == request.property as u32,
        request.target_type() == request.target as u32,
{
}

/// A step that cannot be taken says what is missing.
pub proof fn errors_say_what_is_missing()
    ensures
        NO_DRAG
            == "Drag-and-drop state was not initialized (called `send_finished` before XdndEnter",
        NO_CLIPBOARD == "getting clipboard selection",
{
}

} // verus!
