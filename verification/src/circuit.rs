//! The winner-determination circuit: the position of the highest bid,
//! computed on secret shares and opened only at the end.

use crate::record::AuctionError;
use crate::share::{lemma_occurrences_push, occurrences, CircuitOp, MxeContext, SecretValue};
use vstd::prelude::*;

verus! {

/// The most bids that one computation takes.
pub const CAPACITY: usize = 64;

/// The values behind a sequence of shares.
pub open spec fn plain(bids: Seq<SecretValue>) -> Seq<u64> {
    Seq::new(bids.len(), |i: int| bids[i]@)
}

/// `k` is the position of the first occurrence of the maximum of `values`.
pub open spec fn is_first_max(values: Seq<u64>, k: int) -> bool {
    &&& 0 <= k < values.len()
    &&& forall|j: int| 0 <= j < values.len() ==> values[j] <= values[k]
    &&& forall|j: int| 0 <= j < k ==> values[j] < values[k]
}

/// The position of the highest of `values`, the lowest such position where
/// several are equally high; 0 for an empty sequence.
pub open spec fn first_max_index(values: Seq<u64>) -> int
    decreases values.len(),
{
    if values.len() <= 1 {
        0
    } else {
        let before = first_max_index(values.drop_last());
        if values.last() > values[before] {
            values.len() - 1
        } else {
            before
        }
    }
}

/// The operations of a scan that has gone through `rounds` bids after the
/// first: the share of position 0, then one comparison and two selections,
/// with the share of the candidate position between them, for each round.
pub open spec fn scan_operations(rounds: nat) -> Seq<CircuitOp>
    decreases rounds,
{
    if rounds == 0 {
        seq![CircuitOp::Share]
    } else {
        scan_operations((rounds - 1) as nat).push(CircuitOp::Compare).push(
            CircuitOp::Select,
        ).push(CircuitOp::Share).push(CircuitOp::Select)
    }
}

/// The operations of the whole circuit on `count` bids, `count` at least 1:
/// the scan, then the one reveal. It depends on the count alone.
pub open spec fn circuit_operations(count: nat) -> Seq<CircuitOp> {
    scan_operations((count - 1) as nat).push(CircuitOp::Reveal)
}

/// Whether the circuit accepts this input: at least one bid, no more than
/// `CAPACITY` entries, and no fewer entries than the count says.
pub open spec fn valid_input(entries: nat, count: nat) -> bool {
    0 < count <= entries <= CAPACITY
}

/// Finds the highest of the first `bid_count` bids and opens its position,
/// the lowest one where several bids are equally high. Nothing else is
/// opened. An input that is not valid is rejected before anything is
/// computed.
pub fn find_winning_bid(
    mxe: &mut MxeContext,
    encrypted_bids: &Vec<SecretValue>,
    bid_count: u32,
) -> (r: Result<u32, AuctionError>)
    ensures
        valid_input(encrypted_bids@.len(), bid_count as nat) ==> r is Ok && r->Ok_0
            == first_max_index(plain(encrypted_bids@).take(bid_count as int)) && is_first_max(
            plain(encrypted_bids@).take(bid_count as int),
            r->Ok_0 as int,
        ) && final(mxe)@ == old(mxe)@ + circuit_operations(bid_count as nat),
        !valid_input(encrypted_bids@.len(), bid_count as nat) ==> r == Err::<u32, AuctionError>(
            AuctionError::InvalidInput,
        ) && final(mxe)@ == old(mxe)@,
{
    if bid_count == 0 || encrypted_bids.len() > CAPACITY || bid_count as usize
        > encrypted_bids.len() {
        return Err(AuctionError::InvalidInput);
    }
    let count: usize = bid_count as usize;
    let ghost start = mxe@;
    let ghost values = plain(encrypted_bids@);
    let mut max_bid: SecretValue = encrypted_bids[0];
    let mut winner_idx = mxe.secret_share(0u32);
    assert(mxe@ =~= start + scan_operations(0));
    let mut i: usize = 1;
    while i < count
        invariant
            1 <= i <= count <= encrypted_bids.len() <= CAPACITY,
            values == plain(encrypted_bids@),
            is_first_max(values.take(i as int), winner_idx@ as int),
            max_bid@ == values[winner_idx@ as int],
            mxe@ == start + scan_operations((i - 1) as nat),
        decreases count - i,
    {
        let current_bid: SecretValue = encrypted_bids[i];
        let is_greater = current_bid.gt(mxe, &max_bid);
        max_bid = is_greater.select(mxe, current_bid, max_bid);
        let candidate = mxe.secret_share(i as u32);
        winner_idx = is_greater.select_index(mxe, candidate, winner_idx);
        proof {
            assert(mxe@ =~= start + scan_operations(i as nat));
            assert(current_bid@ == values[i as int]);
        }
        i += 1;
    }
    let winner = winner_idx.disclose(mxe);
    proof {
        assert(mxe@ =~= start + circuit_operations(bid_count as nat));
        assert(values.take(i as int) == values.take(bid_count as int));
        lemma_first_max_index(values.take(bid_count as int));
        lemma_first_max_unique(
            values.take(bid_count as int),
            winner as int,
            first_max_index(values.take(bid_count as int)),
        );
    }
    Ok(winner)
}

/// The circuit has a constant shape: on `count` bids it compares exactly
/// `count - 1` times, selects twice per comparison, and opens one share,
/// whatever the bids hold.
pub proof fn lemma_circuit_shape(count: nat)
    requires
        count >= 1,
    ensures
        occurrences(circuit_operations(count), CircuitOp::Compare) == count - 1,
        occurrences(circuit_operations(count), CircuitOp::Select) == 2 * (count - 1),
        occurrences(circuit_operations(count), CircuitOp::Share) == count,
        occurrences(circuit_operations(count), CircuitOp::Reveal) == 1,
{
    lemma_scan_shape((count - 1) as nat);
    let scan = scan_operations((count - 1) as nat);
    lemma_occurrences_push(scan, CircuitOp::Reveal, CircuitOp::Compare);
    lemma_occurrences_push(scan, CircuitOp::Reveal, CircuitOp::Select);
    lemma_occurrences_push(scan, CircuitOp::Reveal, CircuitOp::Share);
    lemma_occurrences_push(scan, CircuitOp::Reveal, CircuitOp::Reveal);
}

/// What a scan of `rounds` rounds holds of each operation.
pub proof fn lemma_scan_shape(rounds: nat)
    ensures
        occurrences(scan_operations(rounds), CircuitOp::Compare) == rounds,
        occurrences(scan_operations(rounds), CircuitOp::Select) == 2 * rounds,
        occurrences(scan_operations(rounds), CircuitOp::Share) == rounds + 1,
        occurrences(scan_operations(rounds), CircuitOp::Reveal) == 0,
    decreases rounds,
{
    if rounds == 0 {
        let none = Seq::<CircuitOp>::empty();
        assert(scan_operations(0) =~= none.push(CircuitOp::Share));
        assert(occurrences(none, CircuitOp::Compare) == 0);
        assert(occurrences(none, CircuitOp::Select) == 0);
        assert(occurrences(none, CircuitOp::Share) == 0);
        assert(occurrences(none, CircuitOp::Reveal) == 0);
        lemma_occurrences_push(none, CircuitOp::Share, CircuitOp::Compare);
        lemma_occurrences_push(none, CircuitOp::Share, CircuitOp::Select);
        lemma_occurrences_push(none, CircuitOp::Share, CircuitOp::Share);
        lemma_occurrences_push(none, CircuitOp::Share, CircuitOp::Reveal);
    } else {
        lemma_scan_shape((rounds - 1) as nat);
        let before = scan_operations((rounds - 1) as nat);
        lemma_round_occurrences(before, CircuitOp::Compare);
        lemma_round_occurrences(before, CircuitOp::Select);
        lemma_round_occurrences(before, CircuitOp::Share);
        lemma_round_occurrences(before, CircuitOp::Reveal);
    }
}

/// What one round adds to a log, for each operation.
proof fn lemma_round_occurrences(ops: Seq<CircuitOp>, op: CircuitOp)
    ensures
        occurrences(
            ops.push(CircuitOp::Compare).push(CircuitOp::Select).push(CircuitOp::Share).push(
                CircuitOp::Select,
            ),
            op,
        ) == occurrences(ops, op) + match op {
            CircuitOp::Compare => 1nat,
            CircuitOp::Select => 2nat,
            CircuitOp::Share => 1nat,
            CircuitOp::Reveal => 0nat,
        },
{
    let s1 = ops.push(CircuitOp::Compare);
    let s2 = s1.push(CircuitOp::Select);
    let s3 = s2.push(CircuitOp::Share);
    lemma_occurrences_push(ops, CircuitOp::Compare, op);
    lemma_occurrences_push(s1, CircuitOp::Select, op);
    lemma_occurrences_push(s2, CircuitOp::Share, op);
    lemma_occurrences_push(s3, CircuitOp::Select, op);
}

/// A single bid wins at position 0, with no comparison and no selection.
pub proof fn lemma_single_bid(values: Seq<u64>, k: int)
    requires
        values.len() == 1,
        is_first_max(values, k),
    ensures
        k == 0,
        occurrences(circuit_operations(1), CircuitOp::Compare) == 0,
        occurrences(circuit_operations(1), CircuitOp::Select) == 0,
{
    lemma_circuit_shape(1);
}

/// `first_max_index` gives the position of the first maximum of a sequence
/// that is not empty.
pub proof fn lemma_first_max_index(values: Seq<u64>)
    requires
        values.len() >= 1,
    ensures
        is_first_max(values, first_max_index(values)),
    decreases values.len(),
{
    if values.len() > 1 {
        let front = values.drop_last();
        lemma_first_max_index(front);
        let before = first_max_index(front);
        assert(front[before] == values[before]);
        assert forall|j: int| 0 <= j < values.len() - 1 implies values[j] == front[j] by {}
        let k = first_max_index(values);
        assert forall|j: int| 0 <= j < values.len() implies values[j] <= values[k] by {
            if j < values.len() - 1 {
                assert(front[j] <= front[before]);
            }
        }
        assert forall|j: int| 0 <= j < k implies values[j] < values[k] by {
            if j < values.len() - 1 {
                assert(front[j] <= front[before]);
                if k == before {
                    assert(front[j] < front[before]);
                }
            }
        }
    }
}

/// The first maximum is one position: a sequence has no two.
pub proof fn lemma_first_max_unique(values: Seq<u64>, k: int, m: int)
    requires
        is_first_max(values, k),
        is_first_max(values, m),
    ensures
        k == m,
{
    if k < m {
        assert(values[k] < values[m]);
    } else if m < k {
        assert(values[m] < values[k]);
    }
}

} // verus!
