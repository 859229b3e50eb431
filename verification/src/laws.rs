//! What holds of the state machine and the bridge, whatever the record and
//! the arguments: stated over the spec functions that the operations are
//! proved against.

use crate::auction::{
    bid_rejection, claim_rejection, close_rejection, finalize_rejection, has_bid, one_bid_each,
    stage, with_bid, with_closing, with_result,
};
use crate::bridge::{delivery_rejection, result_matches, ComputationResult, SessionHandle};
use crate::identity::Identity;
use crate::record::{AuctionAccount, AuctionError, AuctionStatus, BidRecord};
use vstd::prelude::*;

verus! {

/// A bid on an open auction at or after the end of its window is rejected
/// as expired.
pub proof fn law_bid_after_end(
    auction: AuctionAccount,
    auction_key: Identity,
    bids: Seq<BidRecord>,
    bidder: Identity,
    now: i64,
)
    requires
        auction.status == AuctionStatus::Open,
        now >= auction.end_time,
    ensures
        bid_rejection(auction, auction_key, bids, bidder, now) == Some(
            AuctionError::AuctionExpired,
        ),
{
}

/// After an accepted bid, every further bid of the same bidder on the same
/// auction is rejected: as a duplicate while the window lasts, as expired
/// after it.
pub proof fn law_second_bid(
    auction: AuctionAccount,
    auction_key: Identity,
    bids: Seq<BidRecord>,
    first: BidRecord,
    now: i64,
    later: i64,
)
    requires
        first.auction == auction_key,
        bid_rejection(auction, auction_key, bids, first.bidder, now) is None,
    ensures
        later < auction.end_time ==> bid_rejection(
            with_bid(auction),
            auction_key,
            bids.push(first),
            first.bidder,
            later,
        ) == Some(AuctionError::AlreadyBid),
        later >= auction.end_time ==> bid_rejection(
            with_bid(auction),
            auction_key,
            bids.push(first),
            first.bidder,
            later,
        ) == Some(AuctionError::AuctionExpired),
{
    let after = bids.push(first);
    assert(after[bids.len() as int] == first);
    assert(has_bid(after, auction_key, first.bidder));
}

/// A bidder who has a sealed bid on an open auction is told so when
/// bidding again within the window.
pub proof fn law_duplicate_bid(
    auction: AuctionAccount,
    auction_key: Identity,
    bids: Seq<BidRecord>,
    bidder: Identity,
    now: i64,
)
    requires
        auction.status == AuctionStatus::Open,
        now < auction.end_time,
        has_bid(bids, auction_key, bidder),
    ensures
        bid_rejection(auction, auction_key, bids, bidder, now) == Some(AuctionError::AlreadyBid),
{
}

/// An accepted bid keeps the sealed bids at one per bidder and auction.
pub proof fn law_one_bid_each(
    auction: AuctionAccount,
    auction_key: Identity,
    bids: Seq<BidRecord>,
    bid: BidRecord,
    now: i64,
)
    requires
        one_bid_each(bids),
        bid.auction == auction_key,
        bid_rejection(auction, auction_key, bids, bid.bidder, now) is None,
    ensures
        one_bid_each(bids.push(bid)),
{
    let after = bids.push(bid);
    assert forall|i: int, j: int| 0 <= i < j < after.len() implies !((#[trigger] after[i]).auction
        == (#[trigger] after[j]).auction && after[i].bidder == after[j].bidder) by {
        if j < bids.len() {
            assert(after[i] == bids[i] && after[j] == bids[j]);
        } else {
            assert(after[i] == bids[i]);
        }
    }
}

/// A request to close an open auction before the end of its window is
/// rejected as too early.
pub proof fn law_close_before_end(auction: AuctionAccount, now: i64)
    requires
        auction.status == AuctionStatus::Open,
        now < auction.end_time,
    ensures
        close_rejection(auction, now) == Some(AuctionError::AuctionStillActive),
{
}

/// A request to close an open auction without bids, once its window has
/// ended, is rejected for want of bids.
pub proof fn law_close_without_bids(auction: AuctionAccount, now: i64)
    requires
        auction.status == AuctionStatus::Open,
        now >= auction.end_time,
        auction.bid_count == 0,
    ensures
        close_rejection(auction, now) == Some(AuctionError::NoBids),
{
}

/// A result from anyone but the computation cluster is rejected as
/// unauthorized, in every state of the auction.
pub proof fn law_unauthorized_result(auction: AuctionAccount, caller: Identity, cluster: Identity)
    requires
        caller != cluster,
    ensures
        finalize_rejection(auction, caller, cluster) == Some(AuctionError::UnauthorizedFinalizer),
{
}

/// A claim on a finalized auction by anyone but its recorded winner is
/// rejected.
pub proof fn law_claim_by_other(auction: AuctionAccount, caller: Identity)
    requires
        auction.status == AuctionStatus::Finalized,
        auction.winner != Some(caller),
    ensures
        claim_rejection(auction, caller) == Some(AuctionError::NotTheWinner),
{
}

/// Once an auction has left `Open`, it takes no bid and no request to close,
/// and nothing that an operation leaves behind is `Open` again.
pub proof fn law_no_way_back(
    auction: AuctionAccount,
    auction_key: Identity,
    bids: Seq<BidRecord>,
    bidder: Identity,
    winner: Identity,
    computation_proof: [u8; 32],
    now: i64,
)
    requires
        auction.status != AuctionStatus::Open,
    ensures
        bid_rejection(auction, auction_key, bids, bidder, now) == Some(
            AuctionError::AuctionNotOpen,
        ),
        close_rejection(auction, now) == Some(AuctionError::AuctionNotOpen),
        with_closing(auction).status != AuctionStatus::Open,
        with_result(auction, winner, computation_proof).status != AuctionStatus::Open,
{
}

/// No accepted operation takes an auction back along its lifecycle or
/// lowers its bid count.
pub proof fn law_lifecycle_moves_forward(
    auction: AuctionAccount,
    auction_key: Identity,
    bids: Seq<BidRecord>,
    bidder: Identity,
    caller: Identity,
    cluster: Identity,
    winner: Identity,
    computation_proof: [u8; 32],
    now: i64,
)
    requires
        auction.bid_count < u32::MAX,
    ensures
        bid_rejection(auction, auction_key, bids, bidder, now) is None ==> stage(
            with_bid(auction).status,
        ) == stage(auction.status) && with_bid(auction).bid_count == auction.bid_count + 1,
        close_rejection(auction, now) is None ==> stage(with_closing(auction).status) > stage(
            auction.status,
        ) && with_closing(auction).bid_count == auction.bid_count,
        finalize_rejection(auction, caller, cluster) is None ==> stage(
            with_result(auction, winner, computation_proof).status,
        ) > stage(auction.status) && with_result(auction, winner, computation_proof).bid_count
            == auction.bid_count,
{
}

/// The winner is recorded once: an auction that has one takes no result.
pub proof fn law_winner_set_once(auction: AuctionAccount, caller: Identity, cluster: Identity)
    requires
        auction.wf(),
        auction.winner is Some,
    ensures
        finalize_rejection(auction, caller, cluster) is Some,
{
}

/// A result that does not match the session it is delivered for is
/// rejected as a mismatch, whoever brings it and whatever the auction's
/// state; one that matches is judged as any result is.
pub proof fn law_mismatch_never_applied(
    auction: AuctionAccount,
    session: SessionHandle,
    submitted: Seq<BidRecord>,
    result: ComputationResult,
    caller: Identity,
    cluster: Identity,
)
    ensures
        !result_matches(session, submitted, result) ==> delivery_rejection(
            auction,
            session,
            submitted,
            result,
            caller,
            cluster,
        ) == Some(AuctionError::ProofMismatch),
        result_matches(session, submitted, result) ==> delivery_rejection(
            auction,
            session,
            submitted,
            result,
            caller,
            cluster,
        ) == finalize_rejection(auction, caller, cluster),
{
}

} // verus!
