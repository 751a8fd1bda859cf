//! What holds of whole transfers, over many steps and on both of their ends.

use vstd::prelude::*;
use crate::atoms::Atoms;
use crate::bytes::{word_bytes, words_of, ByteOrder};
use crate::clipboard::{ClipboardView, DeliveryView};
use crate::data::{ReaderView, SendView, TextView, UrisView};
use crate::drag::DragView;
use crate::hint::HintView;
use crate::id::DataTransferId;
use crate::incr::{chunks, first_on, joined, only_on, rest, IncrView};
use crate::protocol::{Atom, ChangeView, PropertyState, ValueView, Window};
use crate::protocol::{XPropertyEvent, XSelectionEvent, XSelectionRequestEvent};
use crate::selection::{ClipboardSelectionType, OfferView, SelectionTypeView};
use crate::text::is_listable;
use crate::transfer::copy::{advertised_atoms, supplied_step, targets_answer, Refusal, StepView};
use crate::transfer::paste::types_of_atoms;
use crate::transfer::TransferView;

verus! {

/// The bytes that a property change writes.
pub open spec fn written_bytes(change: ChangeView) -> Seq<u8> {
    match change.value {
        ValueView::Bytes(bytes) => bytes,
        ValueView::Longs(_) => seq![],
    }
}

/// A transfer in chunks, seen from both ends: at each turn the sender sees the event `deleted`
/// and writes its next chunk, and the receiver sees the event `arrived` and takes that chunk. It
/// goes on until an empty chunk was taken, but not for more than `turns` turns. The result is the
/// state of the sender, the state of the receiver, and what the receiver hands on at the end.
pub open spec fn exchange<D, E>(
    sender: TransferView<D>,
    receiver: TransferView<E>,
    deleted: XPropertyEvent,
    arrived: XPropertyEvent,
    turns: nat,
) -> (TransferView<D>, TransferView<E>, Option<DeliveryView>)
    decreases turns,
{
    if turns == 0 {
        (sender, receiver, None)
    } else {
        let bytes = written_bytes(sender.chunks_to_write(deleted)[0]);
        let sender_after = sender.after_chunks(deleted, seq![true]);
        let receiver_after = receiver.after_chunk(arrived, Some(bytes));
        if bytes.len() == 0 {
            (sender_after, receiver_after, receiver.chunk_delivery(arrived, Some(bytes)))
        } else {
            exchange(sender_after, receiver_after, deleted, arrived, (turns - 1) as nat)
        }
    }
}

/// A transfer in chunks delivers exactly the data that the sender has left to send, behind what
/// the receiver has already. It takes as many turns as there are chunks. After it neither end
/// keeps anything of the transfer, and all other transfers are as they were.
pub proof fn chunks_deliver_the_data<D, E>(
    sender: TransferView<D>,
    receiver: TransferView<E>,
    deleted: XPropertyEvent,
    arrived: XPropertyEvent,
    i: int,
    j: int,
)
    requires
        deleted.reports(PropertyState::Deleted),
        only_on(sender.clip_incr_send, deleted.changed_property(), i),
        receiver.receiving(arrived) == Some(j),
    ensures
        0 <= j < receiver.clip_incr_receive.len(),
        ({
            let data = sender.clip_incr_send[i].data;
            let incoming = receiver.clip_incr_receive[j];
            let done = TransferView {
                clip_incr_receive: receiver.clip_incr_receive.remove(j),
                ..receiver
            };
            exchange(sender, receiver, deleted, arrived, chunks(data).len()) == (
                TransferView { clip_incr_send: sender.clip_incr_send.remove(i), ..sender },
                done.after_delivery(incoming.clipboard),
                receiver.delivery(
                    arrived.changed_window(),
                    incoming.clipboard,
                    incoming.data + data,
                ),
            )
        }),
    decreases sender.clip_incr_send[i].data.len(),
{
    let atom = deleted.changed_property();
    let outgoing = sender.clip_incr_send[i];
    let data = outgoing.data;
    let incoming = receiver.clip_incr_receive[j];
    let bytes = crate::incr::chunk(data);
    crate::incr::one_chunk_moves_one_transfer(
        sender.clip_incr_send,
        deleted.changed_window(),
        atom,
        i,
    );
    crate::incr::lemma_first_on_update(
        receiver.clip_incr_receive,
        arrived.changed_property(),
        j,
        incoming.data + bytes,
    );
    assert(written_bytes(sender.chunks_to_write(deleted)[0]) == bytes);
    if data.len() == 0 {
        assert(incoming.data + data =~= incoming.data);
        reveal_with_fuel(exchange, 2);
    } else {
        let sender_after = sender.after_chunks(deleted, seq![true]);
        let receiver_after = receiver.after_chunk(arrived, Some(bytes));
        let left = sender_after.clip_incr_send;
        assert(left[i].data == rest(data));
        assert forall|k: int| 0 <= k < left.len() && k != i implies (#[trigger] left[k]).property
            != atom by {
            assert(sender.clip_incr_send[k].property != atom);
        }
        chunks_deliver_the_data(sender_after, receiver_after, deleted, arrived, i, j);
        assert(left.remove(i) =~= sender.clip_incr_send.remove(i));
        assert(receiver_after.clip_incr_receive.remove(j) =~= receiver.clip_incr_receive.remove(
            j,
        ));
        assert((incoming.data + bytes) + rest(data) =~= incoming.data + data);
        assert(chunks(data).len() == chunks(rest(data)).len() + 1);
    }
}

/// A chunk that came in: the event by which it was announced, and its bytes.
pub type Arrival = (XPropertyEvent, Seq<u8>);

/// The state once all of the chunks were taken, one after the other.
pub open spec fn after_arrivals<D>(
    receiver: TransferView<D>,
    arrivals: Seq<Arrival>,
) -> TransferView<D>
    decreases arrivals.len(),
{
    if arrivals.len() == 0 {
        receiver
    } else {
        after_arrivals(
            receiver.after_chunk(arrivals[0].0, Some(arrivals[0].1)),
            arrivals.drop_first(),
        )
    }
}

/// The bytes of each of the chunks.
pub open spec fn arrived_bytes(arrivals: Seq<Arrival>) -> Seq<Seq<u8>> {
    arrivals.map_values(|arrival: Arrival| arrival.1)
}

/// An event announces a new value of the property.
pub open spec fn announces(xev: XPropertyEvent, property: Atom) -> bool {
    xev.reports(PropertyState::NewValue) && xev.changed_property() == property
}

/// All of the chunks came in through the property, and none of them is empty.
pub open spec fn all_arrive_on(arrivals: Seq<Arrival>, property: Atom) -> bool {
    forall|k: int|
        0 <= k < arrivals.len() ==> announces((#[trigger] arrivals[k]).0, property)
            && arrivals[k].1.len() > 0
}

proof fn lemma_arrivals_are_joined<D>(
    receiver: TransferView<D>,
    property: Atom,
    j: int,
    arrivals: Seq<Arrival>,
)
    requires
        first_on(receiver.clip_incr_receive, property) == Some(j),
        all_arrive_on(arrivals, property),
    ensures
        0 <= j < receiver.clip_incr_receive.len(),
        ({
            let incoming = receiver.clip_incr_receive[j];
            let grown = IncrView {
                data: incoming.data + joined(arrived_bytes(arrivals)),
                ..incoming
            };
            let transfers = receiver.clip_incr_receive.update(j, grown);
            &&& after_arrivals(receiver, arrivals) == (TransferView {
                clip_incr_receive: transfers,
                ..receiver
            })
            &&& first_on(transfers, property) == Some(j)
        }),
    decreases arrivals.len(),
{
    let transfers = receiver.clip_incr_receive;
    let incoming = transfers[j];
    let bytes = arrived_bytes(arrivals);
    let all = incoming.data + joined(bytes);
    crate::incr::lemma_first_on_update(transfers, property, j, all);
    if arrivals.len() == 0 {
        assert(all =~= incoming.data);
        assert(transfers.update(j, incoming) =~= transfers);
    } else {
        let chunk = arrivals[0].1;
        let later = arrivals.drop_first();
        assert(announces(arrivals[0].0, property));
        let next = receiver.after_chunk(arrivals[0].0, Some(chunk));
        crate::incr::lemma_first_on_update(transfers, property, j, incoming.data + chunk);
        assert forall|k: int| 0 <= k < later.len() implies announces(
            (#[trigger] later[k]).0,
            property,
        ) && later[k].1.len() > 0 by {
            assert(later[k] == arrivals[k + 1]);
        }
        lemma_arrivals_are_joined(next, property, j, later);
        assert(arrived_bytes(later) =~= bytes.drop_first());
        assert(joined(bytes) == chunk + joined(bytes.drop_first()));
        assert((incoming.data + chunk) + joined(bytes.drop_first()) =~= all);
        let grown = IncrView { data: all, ..incoming };
        assert(next.clip_incr_receive.update(j, grown) =~= transfers.update(j, grown));
    }
}

/// Whatever client sends, and however it cuts its data: the chunks that come in after the start of
/// a transfer, through a property that no other transfer uses, are put together in order. As long
/// as they have bytes in them, nothing is handed on. The empty chunk behind them ends the transfer:
/// the fetch in progress is answered with exactly the bytes of all chunks, and no trace of the
/// transfer is left.
pub proof fn any_chunks_are_received<D>(
    paster: TransferView<D>,
    notify: XSelectionEvent,
    arrivals: Seq<Arrival>,
    ending: XPropertyEvent,
)
    requires
        ClipboardSelectionType::of_atom(paster.atoms, notify.selection as Atom) is Some,
        forall|k: int|
            0 <= k < paster.clip_incr_receive.len() ==> (
            #[trigger] paster.clip_incr_receive[k]).property != notify.property as Atom,
        all_arrive_on(arrivals, notify.property as Atom),
        announces(ending, notify.property as Atom),
    ensures
        ({
            let clipboard = ClipboardSelectionType::of_atom(
                paster.atoms,
                notify.selection as Atom,
            )->0;
            let started = paster.with_receiver(notify);
            let taken = after_arrivals(started, arrivals);
            &&& forall|k: int|
                0 <= k < arrivals.len() ==> after_arrivals(
                    started,
                    arrivals.take(k),
                ).chunk_delivery((#[trigger] arrivals[k]).0, Some(arrivals[k].1)) is None
            &&& taken.chunk_delivery(ending, Some(seq![])) == paster.delivery(
                ending.changed_window(),
                clipboard,
                joined(arrived_bytes(arrivals)),
            )
            &&& taken.after_chunk(ending, Some(seq![])) == paster.after_delivery(clipboard)
        }),
{
    let property = notify.property as Atom;
    let clipboard = ClipboardSelectionType::of_atom(paster.atoms, notify.selection as Atom)->0;
    let started = paster.with_receiver(notify);
    let j = paster.clip_incr_receive.len() as int;
    assert(started.clip_incr_receive[j].property == property);
    assert forall|k: int| 0 <= k < started.clip_incr_receive.len() && k != j implies (
    #[trigger] started.clip_incr_receive[k]).property != property by {
        assert(started.clip_incr_receive[k] == paster.clip_incr_receive[k]);
    }
    crate::incr::lemma_only_is_first(started.clip_incr_receive, property, j);
    lemma_arrivals_are_joined(started, property, j, arrivals);
    let taken = after_arrivals(started, arrivals);
    let data = joined(arrived_bytes(arrivals));
    assert(started.clip_incr_receive[j].data + data =~= data);
    assert(taken.clip_incr_receive[j].data == data);
    assert(taken.clip_incr_receive.remove(j) =~= paster.clip_incr_receive);
    assert(taken.clipboard(clipboard) == paster.clipboard(clipboard));
}

/// The two ends of a transfer are about the same selection on either side, and nothing else goes
/// through the property that it uses.
pub open spec fn ends_meet<D, E>(
    owner: TransferView<D>,
    paster: TransferView<E>,
    request: XSelectionRequestEvent,
    notify: XSelectionEvent,
    deleted: XPropertyEvent,
    arrived: XPropertyEvent,
) -> bool {
    &&& request.clipboard(owner.atoms) is Some
    &&& ClipboardSelectionType::of_atom(paster.atoms, notify.selection as Atom) is Some
    &&& deleted.reports(PropertyState::Deleted)
    &&& deleted.changed_property() == request.answer_property()
    &&& arrived.reports(PropertyState::NewValue)
    &&& arrived.changed_property() == notify.property as Atom
    &&& forall|k: int|
        0 <= k < owner.clip_incr_send.len() ==> (#[trigger] owner.clip_incr_send[k]).property
            != request.answer_property()
    &&& forall|k: int|
        0 <= k < paster.clip_incr_receive.len() ==> (
        #[trigger] paster.clip_incr_receive[k]).property != notify.property as Atom
}

/// What the owner of a clipboard starts to send is what the other client pastes: from the start
/// of the transfer to its end, the data arrives complete and unchanged and answers the fetch in
/// progress. The owner's state is then as it was before the request, and the other client's
/// differs in no more than the answered fetch.
pub proof fn copied_data_is_pasted<D, E>(
    owner: TransferView<D>,
    paster: TransferView<E>,
    request: XSelectionRequestEvent,
    notify: XSelectionEvent,
    deleted: XPropertyEvent,
    arrived: XPropertyEvent,
    ty: SelectionTypeView,
    data: Seq<u8>,
)
    requires
        ends_meet(owner, paster, request, notify, deleted, arrived),
    ensures
        ({
            let clipboard = ClipboardSelectionType::of_atom(
                paster.atoms,
                notify.selection as Atom,
            )->0;
            exchange(
                owner.with_sender(request, data, ty, true),
                paster.with_receiver(notify),
                deleted,
                arrived,
                chunks(data).len(),
            ) == (
                owner,
                paster.after_delivery(clipboard),
                paster.delivery(arrived.changed_window(), clipboard, data),
            )
        }),
{
    let sender = owner.with_sender(request, data, ty, true);
    let receiver = paster.with_receiver(notify);
    let i = owner.clip_incr_send.len() as int;
    let j = paster.clip_incr_receive.len() as int;
    assert(sender.clip_incr_send[i].data == data);
    assert(receiver.clip_incr_receive[j].data == Seq::<u8>::empty());
    assert forall|k: int| 0 <= k < sender.clip_incr_send.len() && k != i implies (
    #[trigger] sender.clip_incr_send[k]).property != deleted.changed_property() by {
        assert(sender.clip_incr_send[k] == owner.clip_incr_send[k]);
    }
    assert forall|k: int| 0 <= k < receiver.clip_incr_receive.len() && k != j implies (
    #[trigger] receiver.clip_incr_receive[k]).property != arrived.changed_property() by {
        assert(receiver.clip_incr_receive[k] == paster.clip_incr_receive[k]);
    }
    crate::incr::lemma_only_is_first(receiver.clip_incr_receive, arrived.changed_property(), j);
    chunks_deliver_the_data(sender, receiver, deleted, arrived, i, j);
    assert(sender.clip_incr_send.remove(i) =~= owner.clip_incr_send);
    assert(receiver.clip_incr_receive.remove(j) =~= paster.clip_incr_receive);
    assert(Seq::<u8>::empty() + data =~= data);
}

/// Text that the owner of a clipboard supplies is the text that the other client pastes, where
/// that client fetches it in a type that is text.
pub proof fn copied_text_is_pasted<D, E>(
    owner: TransferView<D>,
    paster: TransferView<E>,
    request: XSelectionRequestEvent,
    notify: XSelectionEvent,
    deleted: XPropertyEvent,
    arrived: XPropertyEvent,
    ty: SelectionTypeView,
    text: Seq<char>,
    order: ByteOrder,
)
    requires
        ends_meet(owner, paster, request, notify, deleted, arrived),
        ({
            let fetches = paster.clipboard(
                ClipboardSelectionType::of_atom(paster.atoms, notify.selection as Atom)->0,
            ).pending_fetch_types;
            &&& fetches.len() > 0
            &&& {
                ||| fetches[0].1.hint == Some(HintView::Plaintext)
                ||| fetches[0].1.hint == Some(HintView::Html)
                ||| fetches[0].1.hint == Some(HintView::UriList)
            }
        }),
    ensures
        ({
            let data = SendView::String(text).wire_bytes()->0;
            let delivery = exchange(
                owner.with_sender(request, data, ty, true),
                paster.with_receiver(notify),
                deleted,
                arrived,
                chunks(data).len(),
            ).2;
            &&& delivery is Some
            &&& delivery->0.finished.value.text(order) == TextView::Text(text)
        }),
{
    let data = SendView::String(text).wire_bytes()->0;
    let clipboard = ClipboardSelectionType::of_atom(paster.atoms, notify.selection as Atom)->0;
    copied_data_is_pasted(owner, paster, request, notify, deleted, arrived, ty, data);
    crate::data::sent_text_is_read_back(
        text,
        paster.clipboard(clipboard).pending_fetch_types[0].1,
        order,
    );
}

/// URIs that the owner of a clipboard supplies are the URIs that the other client pastes, where
/// that client fetches them as such. It holds of URIs that are not empty and have no line break
/// in them; the format has no way to write others.
pub proof fn copied_uris_are_pasted<D, E>(
    owner: TransferView<D>,
    paster: TransferView<E>,
    request: XSelectionRequestEvent,
    notify: XSelectionEvent,
    deleted: XPropertyEvent,
    arrived: XPropertyEvent,
    ty: SelectionTypeView,
    uris: Seq<Seq<char>>,
)
    requires
        ends_meet(owner, paster, request, notify, deleted, arrived),
        ({
            let fetches = paster.clipboard(
                ClipboardSelectionType::of_atom(paster.atoms, notify.selection as Atom)->0,
            ).pending_fetch_types;
            fetches.len() > 0 && fetches[0].1.hint == Some(HintView::UriList)
        }),
        forall|k: int| 0 <= k < uris.len() ==> is_listable(#[trigger] uris[k]),
    ensures
        ({
            let data = SendView::Uris(uris).wire_bytes()->0;
            let delivery = exchange(
                owner.with_sender(request, data, ty, true),
                paster.with_receiver(notify),
                deleted,
                arrived,
                chunks(data).len(),
            ).2;
            &&& delivery is Some
            &&& delivery->0.finished.value.uris() == UrisView::Uris(uris)
        }),
{
    let data = SendView::Uris(uris).wire_bytes()->0;
    let clipboard = ClipboardSelectionType::of_atom(paster.atoms, notify.selection as Atom)->0;
    copied_data_is_pasted(owner, paster, request, notify, deleted, arrived, ty, data);
    crate::data::sent_uris_are_read_back(
        uris,
        paster.clipboard(clipboard).pending_fetch_types[0].1,
    );
}

/// The state after the contents of a clipboard have come in `n` times.
pub open spec fn after_deliveries<D>(
    state: TransferView<D>,
    clipboard: ClipboardSelectionType,
    n: nat,
) -> TransferView<D>
    decreases n,
{
    if n == 0 {
        state
    } else {
        after_deliveries(state.after_delivery(clipboard), clipboard, (n - 1) as nat)
    }
}

/// Fetches are answered in the order in which they were asked for: the contents that come in
/// after `n` others answer the fetch with `n` others before it, under its token and in its type.
/// Once all fetches are answered, contents that come in answer nothing and change nothing.
pub proof fn fetches_are_answered_in_order<D>(
    state: TransferView<D>,
    clipboard: ClipboardSelectionType,
    n: nat,
    xwindow: Window,
    data: Seq<u8>,
)
    ensures
        ({
            let fetches = state.clipboard(clipboard).pending_fetch_types;
            let later = after_deliveries(state, clipboard, n);
            if n < fetches.len() {
                &&& later.delivery(xwindow, clipboard, data) is Some
                &&& later.delivery(xwindow, clipboard, data)->0.finished.serial == fetches[
                    n as int
                ].0
                &&& later.delivery(xwindow, clipboard, data)->0.finished.value == (ReaderView {
                    type_: fetches[n as int].1,
                    data,
                })
            } else {
                &&& later.delivery(xwindow, clipboard, data) is None
                &&& later.after_delivery(clipboard) == later
            }
        }),
    decreases n,
{
    if n > 0 {
        fetches_are_answered_in_order(
            state.after_delivery(clipboard),
            clipboard,
            (n - 1) as nat,
            xwindow,
            data,
        );
    }
}

/// While fetches wait, exactly the first of them is in progress: a delivery starts the next one
/// if and only if one waits, with a request for the type that it wants. So a fetch that finds no
/// other waiting is the only one that has to be started otherwise.
pub proof fn the_first_fetch_is_in_progress<D>(
    state: TransferView<D>,
    clipboard: ClipboardSelectionType,
    xwindow: Window,
    data: Seq<u8>,
)
    requires
        state.delivery(xwindow, clipboard, data) is Some,
    ensures
        ({
            let left = state.after_delivery(clipboard).clipboard(clipboard).pending_fetch_types;
            let next = state.delivery(xwindow, clipboard, data)->0.next;
            &&& next is Some <==> left.len() > 0
            &&& next is Some ==> next->0.target == left[0].1.atom && next->0.selection
                == clipboard.named_by(state.atoms)
        }),
{
}

/// What is delivered carries the identifier of the clipboard's contents, so that the clipboard is
/// found by it.
pub proof fn delivered_contents_can_be_resolved<D>(
    state: TransferView<D>,
    start: i64,
    n: nat,
    clipboard: ClipboardSelectionType,
    xwindow: Window,
    data: Seq<u8>,
)
    requires
        state.is_numbered(start, n),
        state.delivery(xwindow, clipboard, data) is Some,
    ensures
        state.with_serial(state.delivery(xwindow, clipboard, data)->0.finished.id) == Some(
            clipboard,
        ),
{
}

/// Two states have the same contents in their clipboards, under the same identifiers.
pub open spec fn same_contents<D>(left: TransferView<D>, right: TransferView<D>) -> bool {
    forall|clipboard: ClipboardSelectionType|
        {
            &&& (#[trigger] left.clipboard(clipboard)).owned_data == right.clipboard(
                clipboard,
            ).owned_data
            &&& left.clipboard(clipboard).clipboard_serial == right.clipboard(
                clipboard,
            ).clipboard_serial
        }
}

/// However often contents are pasted, by this client or by others, the contents that this client
/// owns and the identifiers of all contents stay the same: no step of a paste, of an answer to a
/// request or of a drag changes them. Nor does a paste or an answer change a drag.
pub proof fn pasting_keeps_the_contents<D>(
    state: TransferView<D>,
    selection: Atom,
    named: Seq<Atom>,
    clipboard: ClipboardSelectionType,
    notify: XSelectionEvent,
    request: XSelectionRequestEvent,
    xev: XPropertyEvent,
    taken: Option<Seq<u8>>,
    written: Seq<bool>,
    data: Seq<u8>,
    ty: SelectionTypeView,
    listening: bool,
    drag: DragView,
)
    ensures
        same_contents(state.with_targets(selection, named), state),
        same_contents(state.after_delivery(clipboard), state),
        same_contents(state.with_receiver(notify), state),
        same_contents(state.after_chunk(xev, taken), state),
        same_contents(state.with_sender(request, data, ty, listening), state),
        same_contents(state.after_chunks(xev, written), state),
        same_contents(state.with_drag(drag), state),
        state.with_targets(selection, named).state == state.state,
        state.after_delivery(clipboard).state == state.state,
        state.with_receiver(notify).state == state.state,
        state.after_chunk(xev, taken).state == state.state,
        state.with_sender(request, data, ty, listening).state == state.state,
        state.after_chunks(xev, written).state == state.state,
{
}

/// The list of types that one client answers is the list that another client reads, whichever
/// byte order the machine has: the clipboard's types become those that the listed atoms name, in
/// the same order.
pub proof fn listed_types_are_read_back<D>(
    paster: TransferView<D>,
    owner_atoms: Atoms,
    request: XSelectionRequestEvent,
    offers: Seq<OfferView>,
    selection: Atom,
    order: ByteOrder,
)
    requires
        ClipboardSelectionType::of_atom(paster.atoms, selection) is Some,
    ensures
        ({
            let clipboard = ClipboardSelectionType::of_atom(paster.atoms, selection)->0;
            let listed = targets_answer(owner_atoms, request, offers).value->Longs_0;
            let read = words_of(word_bytes(listed, order), order);
            &&& paster.with_targets(selection, read).clipboard(clipboard).types
                == types_of_atoms(paster.atoms, advertised_atoms(owner_atoms, offers))
        }),
{
    let listed = advertised_atoms(owner_atoms, offers);
    crate::bytes::words_are_read_back(listed, order, seq![]);
    assert(word_bytes(listed, order) + Seq::<u8>::empty() =~= word_bytes(listed, order));
}

/// Every clipboard is advertised under the two types that each of them must offer, whatever the
/// application offers.
pub proof fn required_types_are_advertised(atoms: Atoms, offers: Seq<OfferView>)
    ensures
        advertised_atoms(atoms, offers).len() >= 2,
        advertised_atoms(atoms, offers)[0] == atoms.timestamp,
        advertised_atoms(atoms, offers)[1] == atoms.targets,
    decreases offers.len(),
{
    if offers.len() > 0 {
        required_types_are_advertised(atoms, offers.drop_last());
    }
}

/// Every type under which one of the offers is advertised is in the list.
pub proof fn every_offer_is_advertised(atoms: Atoms, offers: Seq<OfferView>, i: int, k: int)
    requires
        0 <= i < offers.len(),
        0 <= k < SelectionTypeView::advertised(atoms, offers[i]).len(),
    ensures
        advertised_atoms(atoms, offers).contains(
            SelectionTypeView::advertised(atoms, offers[i])[k].atom,
        ),
    decreases offers.len(),
{
    let atom = SelectionTypeView::advertised(atoms, offers[i])[k].atom;
    let earlier = advertised_atoms(atoms, offers.drop_last());
    let last = SelectionTypeView::advertised(atoms, offers.last()).map_values(
        |type_: SelectionTypeView| type_.atom,
    );
    if i == offers.len() - 1 {
        assert((earlier + last)[earlier.len() + k] == atom);
    } else {
        every_offer_is_advertised(atoms, offers.drop_last(), i, k);
        let at = choose|at: int| 0 <= at < earlier.len() && earlier[at] == atom;
        assert((earlier + last)[at] == atom);
    }
}

/// A request is refused at once exactly where it is for something else than a clipboard, or for
/// a clipboard that this client does not own.
pub proof fn requests_are_refused_for_two_reasons<D>(
    state: TransferView<D>,
    request: XSelectionRequestEvent,
)
    ensures
        state.attach_step(request).resolved() == Some(false) <==> (match request.clipboard(
            state.atoms,
        ) {
            Some(clipboard) => state.clipboard(clipboard).owned_data is None,
            None => true,
        }),
{
}

/// Contents are fetched, and with that the requesting window is listened to, only for a clipboard
/// that this client owns. So a request for an unknown selection leaves that window alone, and a
/// transfer that was asked for can fail to start only where listening fails.
pub proof fn contents_are_sent_of_owned_clipboards_only<D>(
    state: TransferView<D>,
    request: XSelectionRequestEvent,
    listening: bool,
)
    requires
        state.attach_step(request) is FetchData,
    ensures
        request.clipboard(state.atoms) is Some,
        state.clipboard(request.clipboard(state.atoms)->0).owned_data is Some,
        state.sender_step(request, listening).resolved() == Some(listening),
{
}

/// How a request is settled in the end, where the application offers `offers` and supplies
/// `send_data`, and where `listening` says whether changes of the requesting window's properties
/// will be seen.
pub open spec fn last_step<D>(
    state: TransferView<D>,
    request: XSelectionRequestEvent,
    offers: Seq<OfferView>,
    send_data: Option<SendView>,
    listening: bool,
) -> StepView {
    match state.attach_step(request) {
        StepView::ListTypes(_) => StepView::Write(targets_answer(state.atoms, request, offers)),
        StepView::FetchData(_, ty) => match supplied_step(request, ty, send_data) {
            StepView::Listen(_, _, _) => state.sender_step(request, listening),
            step => step,
        },
        step => step,
    }
}

/// Every request is settled. It is resolved exactly where it is for a clipboard that this client
/// owns, and either asks what every clipboard can be asked, or asks for contents that the
/// application supplies in a form that can be sent, to a window whose property changes will be
/// seen.
pub proof fn every_request_is_settled<D>(
    state: TransferView<D>,
    request: XSelectionRequestEvent,
    offers: Seq<OfferView>,
    send_data: Option<SendView>,
    listening: bool,
)
    ensures
        last_step(state, request, offers, send_data, listening).resolved() == Some(
            match request.clipboard(state.atoms) {
                None => false,
                Some(clipboard) => {
                    &&& state.clipboard(clipboard).owned_data is Some
                    &&& {
                        ||| request.target_type() == state.atoms.targets
                        ||| request.target_type() == state.atoms.timestamp
                        ||| {
                            &&& send_data is Some
                            &&& send_data->0.wire_bytes() is Some
                            &&& listening
                        }
                    }
                },
            },
        ),
{
}

/// A clipboard whose contents were set answers requests, until the contents are dropped; from
/// then on it refuses them.
pub proof fn owned_clipboards_answer<D>(
    state: TransferView<D>,
    clipboard: ClipboardSelectionType,
    data: D,
    id: DataTransferId,
    request: XSelectionRequestEvent,
)
    requires
        request.clipboard(state.atoms) == Some(clipboard),
    ensures
        ({
            let owned = state.with_contents(clipboard, data, id);
            let dropped = owned.with_clipboard(
                clipboard,
                ClipboardView { owned_data: None, ..owned.clipboard(clipboard) },
            );
            &&& owned.attach_step(request).resolved() != Some(false)
            &&& dropped.attach_step(request) == StepView::Refused(Refusal::NoData)
        }),
{
}

/// The state of a sender after `n` deletions of a property, where every write succeeded.
pub open spec fn after_turns<D>(
    sender: TransferView<D>,
    deleted: XPropertyEvent,
    n: nat,
) -> TransferView<D>
    decreases n,
{
    if n == 0 {
        sender
    } else {
        after_turns(sender.after_chunks(deleted, seq![true]), deleted, (n - 1) as nat)
    }
}

/// Where a transfer has its property to itself, each deletion of the property makes exactly one
/// write: into that property of that window, under the type of the transfer, and with the next 1024
/// bytes of the data, or what is left of them. So it is for every chunk, up to the empty one at the
/// end.
pub proof fn every_chunk_has_the_type_of_its_transfer<D>(
    sender: TransferView<D>,
    deleted: XPropertyEvent,
    i: int,
    n: nat,
)
    requires
        deleted.state == 1,
        0 <= i < sender.clip_incr_send.len(),
        sender.clip_incr_send[i].property == deleted.atom as u32,
        forall|k: int|
            0 <= k < sender.clip_incr_send.len() && k != i ==> (
            #[trigger] sender.clip_incr_send[k]).property != deleted.atom as u32,
        1024 * n < sender.clip_incr_send[i].data.len() + 1024,
    ensures
        ({
            let transfer = sender.clip_incr_send[i];
            let len = transfer.data.len() as int;
            let writes = after_turns(sender, deleted, n).chunks_to_write(deleted);
            &&& writes.len() == 1
            &&& writes[0].window == deleted.window as u32
            &&& writes[0].property == deleted.atom as u32
            &&& writes[0].type_ == transfer.ty.atom
            &&& writes[0].mode == 0
            &&& writes[0].value == ValueView::Bytes(
                if 1024 * n >= len {
                    seq![]
                } else if 1024 * (n + 1) >= len {
                    transfer.data.subrange(1024 * n as int, len)
                } else {
                    transfer.data.subrange(1024 * n as int, 1024 * (n + 1) as int)
                },
            )
        }),
    decreases n,
{
    let atom = deleted.atom as u32;
    let transfer = sender.clip_incr_send[i];
    let data = transfer.data;
    crate::protocol::events_report_what_their_state_says(deleted);
    crate::incr::one_chunk_moves_one_transfer(
        sender.clip_incr_send,
        deleted.window as u32,
        atom,
        i,
    );
    if n == 0 {
        let bytes = crate::incr::chunk(data);
        if data.len() == 0 {
            assert(bytes =~= seq![]);
        } else if 1024 >= data.len() {
            assert(bytes =~= data.subrange(0, data.len() as int));
        } else {
            assert(bytes =~= data.subrange(0, 1024));
        }
    } else {
        let later = sender.after_chunks(deleted, seq![true]);
        let left = later.clip_incr_send;
        assert(left[i].data == rest(data));
        assert forall|k: int| 0 <= k < left.len() && k != i implies (#[trigger] left[k]).property
            != atom by {
            assert(sender.clip_incr_send[k].property != atom);
        }
        every_chunk_has_the_type_of_its_transfer(later, deleted, i, (n - 1) as nat);
        let len = data.len() as int;
        if 1024 * n < len {
            assert(rest(data).len() == len - 1024);
            if 1024 * (n + 1) >= len {
                assert(rest(data).subrange(1024 * (n - 1), len - 1024) =~= data.subrange(
                    1024 * n as int,
                    len,
                ));
            } else {
                assert(rest(data).subrange(1024 * (n - 1), 1024 * n as int) =~= data.subrange(
                    1024 * n as int,
                    1024 * (n + 1) as int,
                ));
            }
        }
    }
}

/// Another client gets what it asked for, under the type that it asked for: where it requests
/// contents and the application supplies data that can be sent, every chunk is written into the
/// property that the request names, under the atom that the request names as its target, and the
/// chunks are the bytes of the supplied data, 1024 at a time.
pub proof fn chunks_have_the_requested_type<D>(
    owner: TransferView<D>,
    request: XSelectionRequestEvent,
    send_data: SendView,
    deleted: XPropertyEvent,
    n: nat,
)
    requires
        owner.attach_step(request) is FetchData,
        send_data.wire_bytes() is Some,
        deleted.state == 1,
        deleted.atom as u32 == request.property as u32,
        forall|k: int|
            0 <= k < owner.clip_incr_send.len() ==> (#[trigger] owner.clip_incr_send[k]).property
                != request.property as u32,
        1024 * n < send_data.wire_bytes()->0.len() + 1024,
    ensures
        ({
            let fetched = owner.attach_step(request)->FetchData_1;
            let step = supplied_step(request, fetched, Some(send_data));
            let sender = owner.with_sender(request, step->Listen_1, step->Listen_2, true);
            let writes = after_turns(sender, deleted, n).chunks_to_write(deleted);
            let wire = send_data.wire_bytes()->0;
            let len = wire.len() as int;
            &&& step is Listen
            &&& step->Listen_0 == request.requestor as u32
            &&& writes.len() == 1
            &&& writes[0].window == deleted.window as u32
            &&& writes[0].property == request.property as u32
            &&& writes[0].type_ == request.target as u32
            &&& writes[0].mode == 0
            &&& writes[0].value == ValueView::Bytes(
                if 1024 * n >= len {
                    seq![]
                } else if 1024 * (n + 1) >= len {
                    wire.subrange(1024 * n as int, len)
                } else {
                    wire.subrange(1024 * n as int, 1024 * (n + 1) as int)
                },
            )
        }),
{
    let fetched = owner.attach_step(request)->FetchData_1;
    let step = supplied_step(request, fetched, Some(send_data));
    let sender = owner.with_sender(request, step->Listen_1, step->Listen_2, true);
    let i = owner.clip_incr_send.len() as int;
    assert forall|k: int| 0 <= k < sender.clip_incr_send.len() && k != i implies (
    #[trigger] sender.clip_incr_send[k]).property != deleted.atom as u32 by {
        assert(sender.clip_incr_send[k] == owner.clip_incr_send[k]);
    }
    every_chunk_has_the_type_of_its_transfer(sender, deleted, i, n);
}

/// Whatever the application supplies is what the other client pastes: the transfer that is started
/// from the supplied data delivers exactly its bytes, to the fetch that waits, for the window on
/// which they came in. Bytes arrive as they were supplied.
pub proof fn supplied_data_is_pasted<D, E>(
    owner: TransferView<D>,
    paster: TransferView<E>,
    request: XSelectionRequestEvent,
    notify: XSelectionEvent,
    deleted: XPropertyEvent,
    arrived: XPropertyEvent,
    ty: SelectionTypeView,
    send_data: SendView,
)
    requires
        ends_meet(owner, paster, request, notify, deleted, arrived),
        send_data.wire_bytes() is Some,
        paster.clipboard(
            ClipboardSelectionType::of_atom(paster.atoms, notify.selection as u32)->0,
        ).pending_fetch_types.len() > 0,
    ensures
        ({
            let clipboard = ClipboardSelectionType::of_atom(
                paster.atoms,
                notify.selection as u32,
            )->0;
            let fetch = paster.clipboard(clipboard).pending_fetch_types[0];
            let step = supplied_step(request, ty, Some(send_data));
            let delivery = exchange(
                owner.with_sender(request, step->Listen_1, step->Listen_2, true),
                paster.with_receiver(notify),
                deleted,
                arrived,
                chunks(step->Listen_1).len(),
            ).2;
            &&& step is Listen
            &&& delivery is Some
            &&& Some(delivery->0.finished.value.data) == send_data.wire_bytes()
            &&& send_data is Bytes ==> delivery->0.finished.value.data == send_data->Bytes_0
            &&& delivery->0.finished.value.type_ == fetch.1
            &&& delivery->0.finished.serial == fetch.0
            &&& delivery->0.finished.window.raw == arrived.window as u32
        }),
{
    let step = supplied_step(request, ty, Some(send_data));
    copied_data_is_pasted(
        owner,
        paster,
        request,
        notify,
        deleted,
        arrived,
        step->Listen_2,
        step->Listen_1,
    );
}

} // verus!
