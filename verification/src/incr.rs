//! Transfers that are too large for one property and go over the wire chunk by chunk.
//!
//! The protocol works as follows:
//! - The receiver asks for a conversion.
//! - The sender answers with an empty property of type `INCR`.
//! - The receiver deletes the property.
//! - The sender sees the deletion and puts the first chunk of the data into the property.
//! - The receiver sees the new value, takes it, and deletes the property again.
//! - The sender puts the next chunk into the property, and so on.
//! - An empty chunk ends the sequence.

use vstd::prelude::*;
use crate::protocol::{replacing, Atom, ChangeView, PropertyChange, PropertyValue};
use crate::protocol::{ValueView, Window};
use crate::selection::{ClipboardSelectionType, SelectionType, SelectionTypeView};

verus! {

/// The largest number of bytes that one chunk carries.
pub const INCR_CHUNK_SIZE_BYTES: usize = 1024;

/// A transfer in progress.
#[derive(Debug)]
pub struct IncrState {
    /// What is left to be sent, or what has been received so far.
    data: Vec<u8>,
    /// The property through which the chunks pass.
    property: Atom,
    /// The type of the data.
    ty: SelectionType,
    /// The clipboard whose contents are transferred.
    clipboard: ClipboardSelectionType,
}

/// What an [`IncrState`] holds.
pub struct IncrView {
    pub data: Seq<u8>,
    pub property: Atom,
    pub ty: SelectionTypeView,
    pub clipboard: ClipboardSelectionType,
}

impl View for IncrState {
    type V = IncrView;

    closed spec fn view(&self) -> IncrView {
        IncrView {
            data: self.data@,
            property: self.property,
            ty: self.ty@,
            clipboard: self.clipboard,
        }
    }
}

/// How many bytes of the data go into the next chunk.
pub open spec fn chunk_len(data: Seq<u8>) -> int {
    if data.len() < INCR_CHUNK_SIZE_BYTES {
        data.len() as int
    } else {
        INCR_CHUNK_SIZE_BYTES as int
    }
}

/// The next chunk of the data.
pub open spec fn chunk(data: Seq<u8>) -> Seq<u8> {
    data.take(chunk_len(data))
}

/// The data without its next chunk.
pub open spec fn rest(data: Seq<u8>) -> Seq<u8> {
    data.skip(chunk_len(data))
}

/// What each of a sequence of transfers holds.
pub open spec fn incr_views(transfers: Seq<IncrState>) -> Seq<IncrView> {
    transfers.map_values(|transfer: IncrState| transfer@)
}

/// What each of a sequence of requests says.
pub open spec fn change_views(changes: Seq<PropertyChange>) -> Seq<ChangeView> {
    changes.map_values(|change: PropertyChange| change@)
}

/// The requests that put the next chunk of each transfer through the property `atom` into that
/// property of `window`, in the order of the transfers.
pub open spec fn chunk_changes(
    transfers: Seq<IncrView>,
    window: Window,
    atom: Atom,
) -> Seq<ChangeView> {
    transfers.filter(|transfer: IncrView| transfer.property == atom).map_values(
        |transfer: IncrView|
            replacing(window, atom, transfer.ty.atom, ValueView::Bytes(chunk(transfer.data))),
    )
}

/// How many transfers go through the property `atom`.
pub open spec fn count_on(transfers: Seq<IncrView>, atom: Atom) -> nat {
    transfers.filter(|transfer: IncrView| transfer.property == atom).len()
}

/// Whether `written` says of the write at position `i` that it succeeded.
pub open spec fn has_succeeded(written: Seq<bool>, i: int) -> bool {
    0 <= i < written.len() && written[i]
}

/// What is left of the transfers once their next chunks through the property `atom` were
/// written, where `written` says of each of these whether the write succeeded; a write of which it
/// says nothing did not. A transfer stays as long as the chunk that was written had bytes in it;
/// then it goes on behind that chunk. It ends with an empty chunk, or where a write fails.
/// Transfers through other properties stay as they are.
pub open spec fn after_writes(
    transfers: Seq<IncrView>,
    atom: Atom,
    written: Seq<bool>,
) -> Seq<IncrView>
    decreases transfers.len(),
{
    if transfers.len() == 0 {
        seq![]
    } else {
        let earlier = transfers.drop_last();
        let transfer = transfers.last();
        let left = after_writes(earlier, atom, written);
        if transfer.property != atom {
            left.push(transfer)
        } else if has_succeeded(written, count_on(earlier, atom) as int) && transfer.data.len()
            > 0 {
            left.push(IncrView { data: rest(transfer.data), ..transfer })
        } else {
            left
        }
    }
}

/// The position of the first transfer through the property `atom`.
pub open spec fn first_on(transfers: Seq<IncrView>, atom: Atom) -> Option<int>
    decreases transfers.len(),
{
    if transfers.len() == 0 {
        None
    } else if transfers[0].property == atom {
        Some(0)
    } else {
        match first_on(transfers.drop_first(), atom) {
            Some(i) => Some(i + 1),
            None => None,
        }
    }
}

impl IncrState {
    /// A transfer of `data` through `property`.
    pub fn new(
        data: Vec<u8>,
        property: Atom,
        ty: SelectionType,
        clipboard: ClipboardSelectionType,
    ) -> (transfer: IncrState)
        ensures
            transfer@ == (IncrView { data: data@, property, ty: ty@, clipboard }),
    {
        IncrState { data, property, ty, clipboard }
    }

    /// Takes the transfer apart: its data and the clipboard that it is for.
    pub(crate) fn into_parts(self) -> (parts: (Vec<u8>, ClipboardSelectionType))
        ensures
            parts.0@ == self@.data,
            parts.1 == self@.clipboard,
    {
        (self.data, self.clipboard)
    }

    /// Adds a chunk to what has been received.
    pub(crate) fn append(&mut self, chunk: Vec<u8>)
        ensures
            final(self)@ == (IncrView { data: old(self)@.data + chunk@, ..old(self)@ }),
    {
        let mut chunk = chunk;
        self.data.append(&mut chunk);
    }
}

/// Copies the next chunk of the data.
fn next_chunk(data: &Vec<u8>) -> (bytes: Vec<u8>)
    ensures
        bytes@ == chunk(data@),
{
    let len: usize = if data.len() < INCR_CHUNK_SIZE_BYTES {
        data.len()
    } else {
        INCR_CHUNK_SIZE_BYTES
    };
    let mut bytes: Vec<u8> = Vec::new();
    let mut i: usize = 0;
    while i < len
        invariant
            len == chunk_len(data@),
            len <= data@.len(),
            i <= len,
            bytes@ == data@.take(i as int),
        decreases len - i,
    {
        bytes.push(data[i]);
        i += 1;
        assert(bytes@ =~= data@.take(i as int));
    }
    bytes
}

/// The requests that put the next chunk of each transfer through the property `atom` into that
/// property of `window`.
pub(crate) fn next_chunks(transfers: &Vec<IncrState>, window: Window, atom: Atom) -> (changes: Vec<
    PropertyChange,
>)
    ensures
        change_views(changes@) == chunk_changes(incr_views(transfers@), window, atom),
{
    let mut changes: Vec<PropertyChange> = Vec::new();
    let ghost views = incr_views(transfers@);
    let ghost on = |transfer: IncrView| transfer.property == atom;
    let ghost change = |transfer: IncrView|
        replacing(window, atom, transfer.ty.atom, ValueView::Bytes(chunk(transfer.data)));
    let mut i: usize = 0;
    proof {
        reveal(Seq::filter);
        assert(views.take(0).filter(on).map_values(change) =~= seq![]);
        assert(change_views(changes@) =~= seq![]);
    }
    while i < transfers.len()
        invariant
            i <= transfers@.len(),
            views == incr_views(transfers@),
            on == (|transfer: IncrView| transfer.property == atom),
            change == (|transfer: IncrView|
                replacing(window, atom, transfer.ty.atom, ValueView::Bytes(chunk(transfer.data)))),
            change_views(changes@) == views.take(i as int).filter(on).map_values(change),
        decreases transfers@.len() - i,
    {
        let ghost before = changes@;
        let transfer = &transfers[i];
        if transfer.property == atom {
            let value = PropertyValue::Bytes(next_chunk(&transfer.data));
            changes.push(PropertyChange::replace(window, atom, transfer.ty.atom(), value));
        }
        proof {
            reveal(Seq::filter);
            let longer = views.take(i + 1);
            let kept = views.take(i as int).filter(on);
            assert(longer.drop_last() =~= views.take(i as int));
            assert(longer.last() == transfer@);
            if on(longer.last()) {
                assert(longer.filter(on) == kept.push(longer.last()));
                assert(kept.push(longer.last()).map_values(change) =~= kept.map_values(change).push(
                    change(longer.last()),
                ));
                assert(change_views(changes@) =~= change_views(before).push(
                    change(longer.last()),
                ));
            } else {
                assert(longer.filter(on) == kept);
            }
        }
        i += 1;
    }
    assert(views.take(transfers@.len() as int) =~= views);
    changes
}

/// Moves the transfers through the property `atom` on by one chunk.
pub(crate) fn advance(transfers: Vec<IncrState>, atom: Atom, written: &Vec<bool>) -> (left: Vec<
    IncrState,
>)
    ensures
        incr_views(left@) == after_writes(incr_views(transfers@), atom, written@),
{
    let ghost all = transfers@;
    let ghost views = incr_views(all);
    let mut left: Vec<IncrState> = Vec::new();
    let total: usize = transfers.len();
    let mut next: usize = 0;
    proof {
        reveal(Seq::filter);
        assert(incr_views(left@) =~= seq![]);
        assert(views.take(0) =~= seq![]);
    }
    for transfer in remaining: transfers
        invariant
            remaining.seq() == all,
            views == incr_views(all),
            total == all.len(),
            next <= remaining.index(),
            next == count_on(views.take(remaining.index()), atom),
            incr_views(left@) == after_writes(views.take(remaining.index()), atom, written@),
    {
        let ghost before = left@;
        let ghost done = views.take(remaining.index());
        let ghost longer = views.take(remaining.index() + 1);
        proof {
            reveal(Seq::filter);
            assert(longer.drop_last() =~= done);
            assert(longer.last() == transfer@);
        }
        let mut transfer = transfer;
        let ghost view = transfer@;
        if transfer.property != atom {
            left.push(transfer);
            assert(incr_views(left@) =~= incr_views(before).push(view));
        } else {
            let had_bytes = transfer.data.len() != 0;
            let len: usize = if transfer.data.len() < INCR_CHUNK_SIZE_BYTES {
                transfer.data.len()
            } else {
                INCR_CHUNK_SIZE_BYTES
            };
            let ghost data = transfer.data@;
            transfer.data = transfer.data.split_off(len);
            assert(transfer.data@ =~= rest(data));
            if next < written.len() && written[next] && had_bytes {
                left.push(transfer);
                assert(incr_views(left@) =~= incr_views(before).push(
                    IncrView { data: rest(view.data), ..view },
                ));
            }
            next += 1;
        }
    }
    assert(views.take(all.len() as int) =~= views);
    left
}

/// Finds the first transfer through the property `atom`.
pub(crate) fn position_on(transfers: &Vec<IncrState>, atom: Atom) -> (position: Option<usize>)
    ensures
        match first_on(incr_views(transfers@), atom) {
            Some(i) => 0 <= i < transfers@.len() && position is Some && position->0 == i,
            None => position is None,
        },
{
    let ghost views = incr_views(transfers@);
    let mut i: usize = 0;
    assert(views.skip(0) =~= views);
    while i < transfers.len()
        invariant
            i <= transfers@.len(),
            views == incr_views(transfers@),
            match first_on(views.skip(i as int), atom) {
                Some(k) => first_on(views, atom) == Some(k + i),
                None => first_on(views, atom) is None,
            },
        decreases transfers@.len() - i,
    {
        assert(views.skip(i as int)[0] == transfers@[i as int]@);
        assert(views.skip(i as int).drop_first() =~= views.skip(i + 1));
        if transfers[i].property == atom {
            return Some(i);
        }
        i += 1;
    }
    None
}

/// The chunks in which the data goes over the wire, one after the other. The last one is empty.
pub open spec fn chunks(data: Seq<u8>) -> Seq<Seq<u8>>
    decreases data.len(),
{
    if data.len() == 0 {
        seq![chunk(data)]
    } else {
        seq![chunk(data)] + chunks(rest(data))
    }
}

/// The bytes of the chunks, put together.
pub open spec fn joined(chunks: Seq<Seq<u8>>) -> Seq<u8>
    decreases chunks.len(),
{
    if chunks.len() == 0 {
        seq![]
    } else {
        chunks[0] + joined(chunks.drop_first())
    }
}

/// No byte is lost or added on the way: the chunks, put together, are the data.
pub proof fn chunks_make_up_the_data(data: Seq<u8>)
    ensures
        joined(chunks(data)) == data,
    decreases data.len(),
{
    let all = chunks(data);
    if data.len() == 0 {
        assert(joined(all.drop_first()) =~= seq![]);
        assert(joined(all) =~= data);
    } else {
        chunks_make_up_the_data(rest(data));
        assert(all.drop_first() =~= chunks(rest(data)));
        assert(chunk(data) + rest(data) =~= data);
    }
}

/// The sequence of chunks ends with an empty one, and no other is empty. No chunk exceeds the
/// limit, and all but the last two reach it. So there are as many chunks as the data calls for,
/// and one more.
pub proof fn chunks_end_with_an_empty_one(data: Seq<u8>, i: int)
    requires
        0 <= i < chunks(data).len(),
    ensures
        chunks(data).len() == (data.len() + INCR_CHUNK_SIZE_BYTES - 1) / (
        INCR_CHUNK_SIZE_BYTES as int) + 1,
        chunks(data)[i].len() <= INCR_CHUNK_SIZE_BYTES,
        chunks(data)[i].len() == 0 <==> i == chunks(data).len() - 1,
        i < chunks(data).len() - 2 ==> chunks(data)[i].len() == INCR_CHUNK_SIZE_BYTES,
    decreases data.len(),
{
    lemma_chunk_count(data);
    if data.len() > 0 {
        lemma_chunk_count(rest(data));
        if i > 0 {
            chunks_end_with_an_empty_one(rest(data), i - 1);
        }
    }
}

proof fn lemma_chunk_count(data: Seq<u8>)
    ensures
        chunks(data).len() == (data.len() + 1023) / 1024 + 1,
    decreases data.len(),
{
    if data.len() > 0 {
        lemma_chunk_count(rest(data));
        if data.len() >= 1024 {
            assert(rest(data).len() == data.len() - 1024);
        }
    }
}

/// The transfer at position `i` is the only one through the property `atom`.
pub open spec fn only_on(transfers: Seq<IncrView>, atom: Atom, i: int) -> bool {
    &&& 0 <= i < transfers.len()
    &&& transfers[i].property == atom
    &&& forall|k: int|
        0 <= k < transfers.len() && k != i ==> (#[trigger] transfers[k]).property != atom
}

proof fn lemma_none_on(transfers: Seq<IncrView>, atom: Atom, written: Seq<bool>)
    requires
        forall|k: int| 0 <= k < transfers.len() ==> (#[trigger] transfers[k]).property != atom,
    ensures
        count_on(transfers, atom) == 0,
        after_writes(transfers, atom, written) == transfers,
    decreases transfers.len(),
{
    reveal(Seq::filter);
    if transfers.len() > 0 {
        let earlier = transfers.drop_last();
        assert(transfers[transfers.len() - 1].property != atom);
        lemma_none_on(earlier, atom, written);
        assert(earlier.push(transfers.last()) =~= transfers);
    }
}

/// One chunk of a transfer that has its property to itself: the chunk is the transfer's next
/// one, and it moves no other transfer. The transfer goes on behind the chunk, and ends where
/// the chunk is empty.
pub proof fn one_chunk_moves_one_transfer(
    transfers: Seq<IncrView>,
    window: Window,
    atom: Atom,
    i: int,
)
    requires
        only_on(transfers, atom, i),
    ensures
        chunk_changes(transfers, window, atom) == seq![
            replacing(
                window,
                atom,
                transfers[i].ty.atom,
                ValueView::Bytes(chunk(transfers[i].data)),
            ),
        ],
        after_writes(transfers, atom, seq![true]) == if transfers[i].data.len() > 0 {
            transfers.update(i, IncrView { data: rest(transfers[i].data), ..transfers[i] })
        } else {
            transfers.remove(i)
        },
        after_writes(transfers, atom, seq![false]) == transfers.remove(i),
    decreases transfers.len(),
{
    reveal(Seq::filter);
    let on = |transfer: IncrView| transfer.property == atom;
    let change = |transfer: IncrView|
        replacing(window, atom, transfer.ty.atom, ValueView::Bytes(chunk(transfer.data)));
    let earlier = transfers.drop_last();
    let last = transfers.last();
    let moved = IncrView { data: rest(transfers[i].data), ..transfers[i] };
    assert(transfers[transfers.len() - 1] == last);
    if i == transfers.len() - 1 {
        lemma_none_on(earlier, atom, seq![true]);
        lemma_none_on(earlier, atom, seq![false]);
        assert(earlier.filter(on) =~= seq![]);
        assert(transfers.filter(on) =~= seq![last]);
        assert(chunk_changes(transfers, window, atom) =~= seq![change(last)]);
        assert(transfers.remove(i) =~= earlier);
        assert(transfers.update(i, moved) =~= earlier.push(moved));
    } else {
        one_chunk_moves_one_transfer(earlier, window, atom, i);
        assert(transfers.filter(on) == earlier.filter(on));
        assert(transfers.remove(i) =~= earlier.remove(i).push(last));
        assert(transfers.update(i, moved) =~= earlier.update(i, moved).push(last));
    }
}

/// The first transfer through a property stays the first when its data changes.
pub(crate) proof fn lemma_first_on_update(
    transfers: Seq<IncrView>,
    atom: Atom,
    j: int,
    data: Seq<u8>,
)
    requires
        first_on(transfers, atom) == Some(j),
    ensures
        0 <= j < transfers.len(),
        transfers[j].property == atom,
        first_on(transfers.update(j, IncrView { data, ..transfers[j] }), atom) == Some(j),
    decreases transfers.len(),
{
    let updated = transfers.update(j, IncrView { data, ..transfers[j] });
    if transfers[0].property == atom {
    } else {
        lemma_first_on_update(transfers.drop_first(), atom, j - 1, data);
        assert(transfers.drop_first()[j - 1] == transfers[j]);
        assert(updated.drop_first() =~= transfers.drop_first().update(
            j - 1,
            IncrView { data, ..transfers[j] },
        ));
    }
}

/// A transfer that has its property to itself is the first through it.
pub(crate) proof fn lemma_only_is_first(transfers: Seq<IncrView>, atom: Atom, j: int)
    requires
        only_on(transfers, atom, j),
    ensures
        first_on(transfers, atom) == Some(j),
    decreases transfers.len(),
{
    if j > 0 {
        assert(transfers[0].property != atom);
        assert forall|k: int|
            0 <= k < transfers.drop_first().len() && k != j - 1 implies (
            #[trigger] transfers.drop_first()[k]).property != atom by {
            assert(transfers[k + 1].property != atom);
        }
        assert(transfers.drop_first()[j - 1] == transfers[j]);
        lemma_only_is_first(transfers.drop_first(), atom, j - 1);
    }
}

/// A chunk is cut from the front of the data, and the rest follows it. It is as long as 1024 bytes
/// allow, and shorter only where nothing is left behind it.
pub proof fn chunks_are_cut_from_the_front(data: Seq<u8>)
    ensures
        chunk(data) + rest(data) == data,
        chunk(data).len() <= 1024,
        chunk(data).len() == 1024 || rest(data).len() == 0,
{
    assert(chunk(data) + rest(data) =~= data);
}

/// The first transfer through a property is found, and none is found exactly where no transfer
/// goes through it.
pub proof fn found_transfer_is_the_first(transfers: Seq<IncrView>, atom: Atom)
    ensures
        match first_on(transfers, atom) {
            Some(i) => {
                &&& 0 <= i < transfers.len()
                &&& transfers[i].property == atom
                &&& forall|k: int| 0 <= k < i ==> (#[trigger] transfers[k]).property != atom
            },
            None => forall|k: int|
                0 <= k < transfers.len() ==> (#[trigger] transfers[k]).property != atom,
        },
    decreases transfers.len(),
{
    if transfers.len() > 0 && transfers[0].property != atom {
        let later = transfers.drop_first();
        found_transfer_is_the_first(later, atom);
        let end = match first_on(later, atom) {
            Some(i) => i + 1,
            None => transfers.len() as int,
        };
        assert forall|k: int| 0 <= k < end implies (#[trigger] transfers[k]).property != atom by {
            if k > 0 {
                assert(later[k - 1] == transfers[k]);
            }
        }
    }
}

/// Each transfer writes for itself: what two groups of transfers write is what the one writes,
/// followed by what the other writes. A transfer through the property writes one chunk, the next
/// one of its data, under its own type, and replaces what was there. A transfer through another
/// property writes nothing.
pub proof fn transfers_write_for_themselves(
    left: Seq<IncrView>,
    right: Seq<IncrView>,
    transfer: IncrView,
    window: Window,
    atom: Atom,
)
    ensures
        chunk_changes(left + right, window, atom) == chunk_changes(left, window, atom)
            + chunk_changes(right, window, atom),
        chunk_changes(seq![], window, atom).len() == 0,
        transfer.property != atom ==> chunk_changes(seq![transfer], window, atom).len() == 0,
        transfer.property == atom ==> {
            let writes = chunk_changes(seq![transfer], window, atom);
            &&& writes.len() == 1
            &&& writes[0].window == window
            &&& writes[0].property == atom
            &&& writes[0].type_ == transfer.ty.atom
            &&& writes[0].mode == 0
            &&& writes[0].value == ValueView::Bytes(chunk(transfer.data))
        },
{
    reveal(Seq::filter);
    let on = |transfer: IncrView| transfer.property == atom;
    Seq::filter_distributes_over_add(left, right, on);
    assert(chunk_changes(left + right, window, atom) =~= chunk_changes(left, window, atom)
        + chunk_changes(right, window, atom));
    assert(seq![transfer].drop_last() =~= seq![]);
    assert(seq![transfer].drop_last().filter(on) =~= seq![]);
    assert(seq![transfer].last() == transfer);
}

/// Each transfer moves on for itself: of two groups of transfers, the one moves on by the results
/// of its own writes, and the other by the results behind these. Results that are missing count as
/// failures, and surplus results count for nothing.
pub proof fn transfers_move_on_for_themselves(
    left: Seq<IncrView>,
    right: Seq<IncrView>,
    atom: Atom,
    first: Seq<bool>,
    second: Seq<bool>,
    window: Window,
)
    requires
        first.len() == chunk_changes(left, window, atom).len(),
    ensures
        after_writes(left + right, atom, first + second) == after_writes(left, atom, first)
            + after_writes(right, atom, second),
        after_writes(left, atom, first + second) == after_writes(left, atom, first),
        after_writes(right, atom, second) == after_writes(right, atom, second.push(false)),
        after_writes(seq![], atom, second).len() == 0,
{
    lemma_surplus_results(left, atom, first, second);
    lemma_move_on_apart(left, right, atom, first, second);
    lemma_missing_result(right, atom, second);
}

/// A transfer through another property stays as it is. One through this property goes on behind
/// the chunk that was written, with the same type and for the same clipboard. It is over once its
/// empty chunk was written, or where a write failed.
pub proof fn a_transfer_goes_on_behind_its_chunk(
    transfer: IncrView,
    atom: Atom,
    written: Seq<bool>,
)
    ensures
        ({
            let left = after_writes(seq![transfer], atom, written);
            &&& transfer.property != atom ==> left.len() == 1 && left[0] == transfer
            &&& transfer.property == atom && (written.len() == 0 || !written[0]) ==> left.len()
                == 0
            &&& transfer.property == atom && transfer.data.len() == 0 ==> left.len() == 0
            &&& transfer.property == atom && transfer.data.len() > 0 && written.len() > 0
                && written[0] ==> {
                &&& left.len() == 1
                &&& chunk(transfer.data) + left[0].data == transfer.data
                &&& left[0].property == transfer.property
                &&& left[0].ty == transfer.ty
                &&& left[0].clipboard == transfer.clipboard
            }
        }),
{
    reveal(Seq::filter);
    let earlier = seq![transfer].drop_last();
    assert(earlier =~= seq![]);
    assert(count_on(earlier, atom) == 0);
    assert(after_writes(earlier, atom, written) =~= seq![]);
    assert(seq![transfer].last() == transfer);
    chunks_are_cut_from_the_front(transfer.data);
}

proof fn lemma_surplus_results(
    transfers: Seq<IncrView>,
    atom: Atom,
    first: Seq<bool>,
    second: Seq<bool>,
)
    requires
        count_on(transfers, atom) <= first.len(),
    ensures
        after_writes(transfers, atom, first + second) == after_writes(transfers, atom, first),
    decreases transfers.len(),
{
    reveal(Seq::filter);
    if transfers.len() > 0 {
        lemma_surplus_results(transfers.drop_last(), atom, first, second);
    }
}

proof fn lemma_missing_result(transfers: Seq<IncrView>, atom: Atom, written: Seq<bool>)
    ensures
        after_writes(transfers, atom, written) == after_writes(
            transfers,
            atom,
            written.push(false),
        ),
    decreases transfers.len(),
{
    if transfers.len() > 0 {
        lemma_missing_result(transfers.drop_last(), atom, written);
    }
}

proof fn lemma_move_on_apart(
    left: Seq<IncrView>,
    right: Seq<IncrView>,
    atom: Atom,
    first: Seq<bool>,
    second: Seq<bool>,
)
    requires
        first.len() == count_on(left, atom),
    ensures
        after_writes(left + right, atom, first + second) == after_writes(left, atom, first)
            + after_writes(right, atom, second),
    decreases right.len(),
{
    reveal(Seq::filter);
    let on = |transfer: IncrView| transfer.property == atom;
    let before = after_writes(left, atom, first);
    if right.len() == 0 {
        assert(left + right =~= left);
        lemma_surplus_results(left, atom, first, second);
        assert(before + after_writes(right, atom, second) =~= before);
    } else {
        let earlier = right.drop_last();
        lemma_move_on_apart(left, earlier, atom, first, second);
        assert((left + right).drop_last() =~= left + earlier);
        assert((left + right).last() == right.last());
        Seq::filter_distributes_over_add(left, earlier, on);
        assert(count_on(left + earlier, atom) == first.len() + count_on(earlier, atom));
        assert(has_succeeded(first + second, count_on(left + earlier, atom) as int)
            == has_succeeded(second, count_on(earlier, atom) as int));
        assert(after_writes(left + right, atom, first + second) =~= before + after_writes(
            right,
            atom,
            second,
        ));
    }
}

/// Lists of transfers and of requests keep every one in its place.
pub proof fn lists_keep_their_places(
    transfers: Seq<IncrState>,
    changes: Seq<PropertyChange>,
    i: int,
)
    ensures
        incr_views(transfers).len() == transfers.len(),
        0 <= i < transfers.len() ==> incr_views(transfers)[i] == transfers[i]@,
        change_views(changes).len() == changes.len(),
        0 <= i < changes.len() ==> change_views(changes)[i] == changes[i]@,
{
}

} // verus!
