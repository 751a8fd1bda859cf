//! Identifiers of transfers.

use vstd::prelude::*;

verus! {

/// Identifies a transfer.
#[derive(Debug, Clone, Copy, PartialEq, Eq, Structural, Hash)]
pub struct DataTransferId {
    pub raw: i64,
}

/// Hands out identifiers, one after the other.
#[derive(Debug)]
pub struct TransferIds {
    next: i64,
}

/// The number after `raw`; the largest is followed by the smallest.
pub open spec fn next_raw(raw: i64) -> i64 {
    if raw == i64::MAX {
        i64::MIN
    } else {
        (raw + 1) as i64
    }
}

/// The `n`th identifier after the one with the number `raw`.
pub open spec fn nth_id(raw: i64, n: nat) -> DataTransferId
    decreases n,
{
    if n == 0 {
        DataTransferId { raw }
    } else {
        nth_id(next_raw(raw), (n - 1) as nat)
    }
}

/// Whether `id` is one of the `n` identifiers from the number `raw` on.
pub open spec fn is_among(id: DataTransferId, raw: i64, n: nat) -> bool {
    exists|k: nat| k < n && id == #[trigger] nth_id(raw, k)
}

impl View for TransferIds {
    type V = i64;

    /// The number of the identifier that is handed out next.
    closed spec fn view(&self) -> i64 {
        self.next
    }
}

impl TransferIds {
    /// Starts to count at zero.
    pub fn new() -> (ids: TransferIds)
        ensures
            ids@ == 0,
    {
        TransferIds { next: 0 }
    }

    /// Hands out the next identifier.
    pub fn generate_transfer_id(&mut self) -> (id: DataTransferId)
        ensures
            id == (DataTransferId { raw: old(self)@ }),
            final(self)@ == next_raw(old(self)@),
    {
        let raw: i64 = self.next;
        self.next = raw.wrapping_add(1);
        DataTransferId { raw }
    }
}

proof fn lemma_nth_id(raw: i64, n: nat)
    ensures
        (nth_id(raw, n).raw - raw - n) % 0x1_0000_0000_0000_0000 == 0,
    decreases n,
{
    if n > 0 {
        lemma_nth_id(next_raw(raw), (n - 1) as nat);
    }
}

/// The identifiers are handed out one after the other: behind the first `n` comes the next one.
pub proof fn ids_are_handed_out_in_turn(raw: i64, n: nat)
    ensures
        nth_id(raw, n + 1).raw == next_raw(nth_id(raw, n).raw),
    decreases n,
{
    reveal_with_fuel(nth_id, 2);
    if n > 0 {
        ids_are_handed_out_in_turn(next_raw(raw), (n - 1) as nat);
    }
}

/// No identifier is handed out twice before all 2 to the 64 of them have been used.
pub proof fn ids_do_not_repeat(raw: i64, i: nat, j: nat)
    requires
        i < j,
        j - i < 0x1_0000_0000_0000_0000,
    ensures
        nth_id(raw, i) != nth_id(raw, j),
{
    lemma_nth_id(raw, i);
    lemma_nth_id(raw, j);
}

/// The next identifier is none of those that were handed out before it, and these stay handed out.
pub proof fn next_id_is_new(id: DataTransferId, raw: i64, n: nat)
    requires
        is_among(id, raw, n),
        n < 0x1_0000_0000_0000_0000,
    ensures
        id != nth_id(raw, n),
        is_among(id, raw, n + 1),
{
    let k = choose|k: nat| k < n && id == #[trigger] nth_id(raw, k);
    ids_do_not_repeat(raw, k, n);
    assert(k < n + 1 && id == nth_id(raw, k));
}

/// Identifiers count up by one, and the largest is followed by the smallest. No two have the same
/// successor.
pub proof fn ids_count_up(raw: i64, other: i64)
    ensures
        raw < i64::MAX ==> next_raw(raw) == raw + 1,
        raw == i64::MAX ==> next_raw(raw) == i64::MIN,
        next_raw(raw) == next_raw(other) <==> raw == other,
        nth_id(raw, 0).raw == raw,
{
}

} // verus!
