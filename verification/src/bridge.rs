//! Between the state machine and the computation cluster: what is handed
//! over when an auction closes, and the check that a result belongs to
//! what was handed over before it is applied.

use crate::auction::{
    close_auction, close_rejection, finalize_auction, finalize_rejection, with_closing,
    with_result,
};
use crate::identity::Identity;
use crate::record::{AuctionAccount, AuctionClosing, AuctionError, AuctionFinalized, BidRecord};
use vstd::prelude::*;

verus! {

/// Names one computation: the auction whose sealed bids were handed over,
/// and how many they were.
#[derive(Clone, Copy, Debug, PartialEq, Eq)]
pub struct SessionHandle {
    pub auction: Identity,
    pub bid_count: u32,
}

/// What the cluster returns: the session it computed for, the opened
/// position of the winning bid, and its attestation.
#[derive(Clone, Copy, Debug, PartialEq, Eq)]
pub struct ComputationResult {
    pub session: SessionHandle,
    pub winner_index: u32,
    pub proof: [u8; 32],
}

/// The sealed bids on `auction` among `bids`, in the order of submission.
pub open spec fn bids_of(bids: Seq<BidRecord>, auction: Identity) -> Seq<BidRecord>
    decreases bids.len(),
{
    if bids.len() == 0 {
        Seq::empty()
    } else if bids.last().auction == auction {
        bids_of(bids.drop_last(), auction).push(bids.last())
    } else {
        bids_of(bids.drop_last(), auction)
    }
}

/// Whether `result` belongs to `session` and names one of the bids handed
/// over.
pub open spec fn result_matches(
    session: SessionHandle,
    submitted: Seq<BidRecord>,
    result: ComputationResult,
) -> bool {
    &&& result.session == session
    &&& session.bid_count == submitted.len()
    &&& result.winner_index < submitted.len()
}

/// Why a delivered result is rejected, if it is: one that does not match
/// the session is never applied, whoever brings it.
pub open spec fn delivery_rejection(
    auction: AuctionAccount,
    session: SessionHandle,
    submitted: Seq<BidRecord>,
    result: ComputationResult,
    caller: Identity,
    cluster: Identity,
) -> Option<AuctionError> {
    if !result_matches(session, submitted, result) {
        Some(AuctionError::ProofMismatch)
    } else {
        finalize_rejection(auction, caller, cluster)
    }
}

/// Picks the sealed bids on `auction_key` out of `bids`, in the order of
/// submission.
pub fn sealed_bids(bids: &Vec<BidRecord>, auction_key: &Identity) -> (r: Vec<BidRecord>)
    ensures
        r@ == bids_of(bids@, *auction_key),
{
    let mut picked: Vec<BidRecord> = Vec::new();
    let mut i: usize = 0;
    while i < bids.len()
        invariant
            i <= bids.len(),
            picked@ == bids_of(bids@.take(i as int), *auction_key),
        decreases bids.len() - i,
    {
        proof {
            assert(bids@.take(i + 1).drop_last() =~= bids@.take(i as int));
        }
        if bids[i].auction.same(auction_key) {
            picked.push(bids[i]);
        }
        i += 1;
    }
    proof {
        assert(bids@.take(i as int) =~= bids@);
    }
    picked
}

/// Closes the auction stored under `auction_key` and starts a computation on
/// its sealed bids: on success, the session's handle and the bids to hand
/// over. Rejected as the closing is, with nothing changed.
pub fn start_computation(
    auction: &mut AuctionAccount,
    auction_key: Identity,
    bids: &Vec<BidRecord>,
    now: i64,
) -> (r: Result<(SessionHandle, Vec<BidRecord>, AuctionClosing), AuctionError>)
    ensures
        match close_rejection(*old(auction), now) {
            Some(e) => r == Err::<(SessionHandle, Vec<BidRecord>, AuctionClosing), AuctionError>(e)
                && *final(auction) == *old(auction),
            None => r matches Ok((session, submitted, event)) && session == (SessionHandle {
                auction: auction_key,
                bid_count: old(auction).bid_count,
            }) && submitted@ == bids_of(bids@, auction_key) && event == (AuctionClosing {
                auction_id: old(auction).auction_id,
                bid_count: old(auction).bid_count,
            }) && *final(auction) == with_closing(*old(auction)),
        },
{
    match close_auction(auction, now) {
        Err(e) => Err(e),
        Ok(event) => {
            let session = SessionHandle { auction: auction_key, bid_count: event.bid_count };
            let submitted = sealed_bids(bids, &auction_key);
            Ok((session, submitted, event))
        },
    }
}

/// Whether `result` belongs to `session` and names one of the bids handed
/// over.
pub fn verify_result(
    session: &SessionHandle,
    submitted: &Vec<BidRecord>,
    result: &ComputationResult,
) -> (r: bool)
    ensures
        r == result_matches(*session, submitted@, *result),
{
    result.session.auction.same(&session.auction) && result.session.bid_count
        == session.bid_count && session.bid_count as usize == submitted.len()
        && (result.winner_index as usize) < submitted.len()
}

/// Takes a result from the cluster and, if it matches the session, applies
/// it: the winner is the bidder of the bid at the opened position.
pub fn deliver_result(
    auction: &mut AuctionAccount,
    session: &SessionHandle,
    submitted: &Vec<BidRecord>,
    result: &ComputationResult,
    caller: &Identity,
    cluster: &Identity,
) -> (r: Result<AuctionFinalized, AuctionError>)
    ensures
        match delivery_rejection(*old(auction), *session, submitted@, *result, *caller, *cluster) {
            Some(e) => r == Err::<AuctionFinalized, AuctionError>(e) && *final(auction) == *old(
                auction,
            ),
            None => r == Ok::<AuctionFinalized, AuctionError>(
                (AuctionFinalized {
                    auction_id: old(auction).auction_id,
                    winner: submitted@[result.winner_index as int].bidder,
                    computation_proof: result.proof,
                }),
            ) && *final(auction) == with_result(
                *old(auction),
                submitted@[result.winner_index as int].bidder,
                result.proof,
            ),
        },
        old(auction).wf() ==> final(auction).wf(),
{
    if !verify_result(session, submitted, result) {
        return Err(AuctionError::ProofMismatch);
    }
    let winner: Identity = submitted[result.winner_index as usize].bidder;
    finalize_auction(auction, caller, cluster, winner, result.proof)
}

} // verus!
