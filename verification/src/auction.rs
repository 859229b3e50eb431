//! The auction state machine: `Open`, then `Computing`, then `Finalized`.
//!
//! Each operation first decides, from the record and its arguments alone,
//! whether it is rejected and why; a rejected operation changes nothing.
//! The spec functions here say which rejection an operation meets and what
//! an accepted one leaves behind; the operations are proved against them.

use crate::identity::{is_identity, Identity};
use crate::record::{
    AuctionAccount, AuctionClosing, AuctionCreated, AuctionError, AuctionFinalized, AuctionStatus,
    BidPlaced, BidRecord, WinClaimed, MAX_DESCRIPTION_LEN, MAX_TITLE_LEN,
};
use vstd::prelude::*;

verus! {

/// The length of a text in bytes, as it is stored: that of its UTF-8
/// encoding, as `str::len` reports it.
pub open spec fn byte_len(text: Seq<char>) -> usize {
    vstd::utf8::encode_utf8(text).len() as usize
}

/// Whether `bidder` already has a sealed bid on `auction` among `bids`.
pub open spec fn has_bid(bids: Seq<BidRecord>, auction: Identity, bidder: Identity) -> bool {
    exists|i: int|
        0 <= i < bids.len() && (#[trigger] bids[i]).auction == auction && bids[i].bidder == bidder
}

/// No bidder has two sealed bids on one auction.
pub open spec fn one_bid_each(bids: Seq<BidRecord>) -> bool {
    forall|i: int, j: int|
        0 <= i < j < bids.len() ==> !((#[trigger] bids[i]).auction == (#[trigger] bids[j]).auction
            && bids[i].bidder == bids[j].bidder)
}

/// Why a creation is rejected, if it is.
pub open spec fn create_rejection(
    title: Seq<char>,
    description: Seq<char>,
    duration_seconds: i64,
) -> Option<AuctionError> {
    if byte_len(title) > MAX_TITLE_LEN {
        Some(AuctionError::TitleTooLong)
    } else if byte_len(description) > MAX_DESCRIPTION_LEN {
        Some(AuctionError::DescriptionTooLong)
    } else if duration_seconds <= 0 {
        Some(AuctionError::InvalidDuration)
    } else {
        None
    }
}

/// Why a bid is rejected, if it is.
pub open spec fn bid_rejection(
    auction: AuctionAccount,
    auction_key: Identity,
    bids: Seq<BidRecord>,
    bidder: Identity,
    now: i64,
) -> Option<AuctionError> {
    if auction.status != AuctionStatus::Open {
        Some(AuctionError::AuctionNotOpen)
    } else if now >= auction.end_time {
        Some(AuctionError::AuctionExpired)
    } else if has_bid(bids, auction_key, bidder) {
        Some(AuctionError::AlreadyBid)
    } else {
        None
    }
}

/// Why a request to close is rejected, if it is.
pub open spec fn close_rejection(auction: AuctionAccount, now: i64) -> Option<AuctionError> {
    if auction.status != AuctionStatus::Open {
        Some(AuctionError::AuctionNotOpen)
    } else if now < auction.end_time {
        Some(AuctionError::AuctionStillActive)
    } else if auction.bid_count == 0 {
        Some(AuctionError::NoBids)
    } else {
        None
    }
}

/// Why a result is rejected, if it is. Only the computation cluster may
/// bring one, and only while the auction is `Computing`.
pub open spec fn finalize_rejection(
    auction: AuctionAccount,
    caller: Identity,
    cluster: Identity,
) -> Option<AuctionError> {
    if caller != cluster {
        Some(AuctionError::UnauthorizedFinalizer)
    } else if auction.status != AuctionStatus::Computing {
        Some(AuctionError::InvalidState)
    } else {
        None
    }
}

/// Why a claim is rejected, if it is.
pub open spec fn claim_rejection(auction: AuctionAccount, caller: Identity) -> Option<
    AuctionError,
> {
    if auction.status != AuctionStatus::Finalized {
        Some(AuctionError::AuctionNotFinalized)
    } else if auction.winner != Some(caller) {
        Some(AuctionError::NotTheWinner)
    } else {
        None
    }
}

/// The record after one more bid.
pub open spec fn with_bid(auction: AuctionAccount) -> AuctionAccount {
    AuctionAccount { bid_count: (auction.bid_count + 1) as u32, ..auction }
}

/// The record after its bids were handed over for computation.
pub open spec fn with_closing(auction: AuctionAccount) -> AuctionAccount {
    AuctionAccount { status: AuctionStatus::Computing, ..auction }
}

/// The record after the result was applied.
pub open spec fn with_result(
    auction: AuctionAccount,
    winner: Identity,
    computation_proof: [u8; 32],
) -> AuctionAccount {
    AuctionAccount {
        status: AuctionStatus::Finalized,
        winner: Some(winner),
        computation_proof,
        ..auction
    }
}

/// How far a status is along the lifecycle. No operation lowers it.
pub open spec fn stage(status: AuctionStatus) -> nat {
    match status {
        AuctionStatus::Open => 0,
        AuctionStatus::Computing => 1,
        AuctionStatus::Finalized => 2,
        AuctionStatus::Cancelled => 2,
    }
}

/// Creates an auction that is open from `now` for `duration_seconds`.
/// The title may take 64 bytes and the description 256; the duration must
/// be positive.
pub fn create_auction(
    auctioneer: Identity,
    auction_id: u64,
    title: String,
    description: String,
    duration_seconds: i64,
    now: i64,
    bump: u8,
) -> (r: Result<(AuctionAccount, AuctionCreated), AuctionError>)
    requires
        duration_seconds > 0 ==> now + duration_seconds <= i64::MAX,
    ensures
        match create_rejection(title@, description@, duration_seconds) {
            Some(e) => r == Err::<(AuctionAccount, AuctionCreated), AuctionError>(e),
            None => r matches Ok((auction, event)) && auction == (AuctionAccount {
                auction_id,
                auctioneer,
                title,
                description,
                start_time: now,
                end_time: (now + duration_seconds) as i64,
                status: AuctionStatus::Open,
                bid_count: 0,
                winner: None,
                computation_proof: auction.computation_proof,
                bump,
            }) && auction.computation_proof@ == Seq::new(32, |i: int| 0u8) && event == (AuctionCreated {
                auction_id,
                auctioneer,
                end_time: (now + duration_seconds) as i64,
            }) && auction.wf(),
        },
{
    if title.as_str().len() > MAX_TITLE_LEN {
        return Err(AuctionError::TitleTooLong);
    }
    if description.as_str().len() > MAX_DESCRIPTION_LEN {
        return Err(AuctionError::DescriptionTooLong);
    }
    if duration_seconds <= 0 {
        return Err(AuctionError::InvalidDuration);
    }
    let end_time: i64 = now + duration_seconds;
    let auction = AuctionAccount {
        auction_id,
        auctioneer,
        title,
        description,
        start_time: now,
        end_time,
        status: AuctionStatus::Open,
        bid_count: 0,
        winner: None,
        computation_proof: [0u8; 32],
        bump,
    };
    let event = AuctionCreated { auction_id, auctioneer, end_time };
    Ok((auction, event))
}

/// Whether `bidder` already has a sealed bid on `auction` among `bids`.
pub fn already_bid(bids: &Vec<BidRecord>, auction: &Identity, bidder: &Identity) -> (r: bool)
    ensures
        r == has_bid(bids@, *auction, *bidder),
{
    let mut i: usize = 0;
    while i < bids.len()
        invariant
            i <= bids.len(),
            forall|j: int|
                0 <= j < i ==> !((#[trigger] bids@[j]).auction == *auction && bids@[j].bidder
                    == *bidder),
        decreases bids.len() - i,
    {
        if bids[i].auction.same(auction) && bids[i].bidder.same(bidder) {
            return true;
        }
        i += 1;
    }
    false
}

/// Records a sealed bid of `bidder` on the auction stored under
/// `auction_key`, among the sealed bids `bids`. Accepted only while the
/// auction is open, before the end of its window, and once per bidder.
/// The ciphertext and the nonce are stored as they come.
pub fn place_bid(
    auction: &mut AuctionAccount,
    auction_key: Identity,
    bids: &mut Vec<BidRecord>,
    bidder: Identity,
    encrypted_bid: [u8; 64],
    bid_nonce: [u8; 32],
    now: i64,
    bump: u8,
) -> (r: Result<BidPlaced, AuctionError>)
    requires
        old(auction).bid_count < u32::MAX,
    ensures
        match bid_rejection(*old(auction), auction_key, old(bids)@, bidder, now) {
            Some(e) => r == Err::<BidPlaced, AuctionError>(e) && *final(auction) == *old(auction)
                && final(bids)@ == old(bids)@,
            None => r == Ok::<BidPlaced, AuctionError>(
                (BidPlaced {
                    auction_id: old(auction).auction_id,
                    bidder,
                    bid_index: (old(auction).bid_count + 1) as u32,
                }),
            ) && *final(auction) == with_bid(*old(auction)) && final(bids)@ == old(bids)@.push(
                (BidRecord {
                    auction: auction_key,
                    bidder,
                    encrypted_bid,
                    bid_nonce,
                    timestamp: now,
                    bump,
                }),
            ),
        },
        one_bid_each(old(bids)@) ==> one_bid_each(final(bids)@),
        old(auction).wf() ==> final(auction).wf(),
{
    if auction.status != AuctionStatus::Open {
        return Err(AuctionError::AuctionNotOpen);
    }
    if now >= auction.end_time {
        return Err(AuctionError::AuctionExpired);
    }
    if already_bid(bids, &auction_key, &bidder) {
        return Err(AuctionError::AlreadyBid);
    }
    bids.push(BidRecord { auction: auction_key, bidder, encrypted_bid, bid_nonce, timestamp: now, bump });
    auction.bid_count = auction.bid_count + 1;
    Ok(BidPlaced { auction_id: auction.auction_id, bidder, bid_index: auction.bid_count })
}

/// Closes the bidding and moves the auction to `Computing`, from where it
/// never returns to `Open`. Accepted from anyone, once the window has ended
/// and there is a bid.
pub fn close_auction(auction: &mut AuctionAccount, now: i64) -> (r: Result<
    AuctionClosing,
    AuctionError,
>)
    ensures
        match close_rejection(*old(auction), now) {
            Some(e) => r == Err::<AuctionClosing, AuctionError>(e) && *final(auction) == *old(
                auction,
            ),
            None => r == Ok::<AuctionClosing, AuctionError>(
                (AuctionClosing {
                    auction_id: old(auction).auction_id,
                    bid_count: old(auction).bid_count,
                }),
            ) && *final(auction) == with_closing(*old(auction)),
        },
        old(auction).wf() ==> final(auction).wf(),
{
    if auction.status != AuctionStatus::Open {
        return Err(AuctionError::AuctionNotOpen);
    }
    if now < auction.end_time {
        return Err(AuctionError::AuctionStillActive);
    }
    if auction.bid_count == 0 {
        return Err(AuctionError::NoBids);
    }
    auction.status = AuctionStatus::Computing;
    Ok(AuctionClosing { auction_id: auction.auction_id, bid_count: auction.bid_count })
}

/// Applies the result of the computation: records the winner and the
/// proof, and moves the auction to `Finalized`. Accepted only from the
/// computation cluster, `cluster`, and only while the auction is
/// `Computing`.
pub fn finalize_auction(
    auction: &mut AuctionAccount,
    caller: &Identity,
    cluster: &Identity,
    winner_pubkey: Identity,
    computation_proof: [u8; 32],
) -> (r: Result<AuctionFinalized, AuctionError>)
    ensures
        match finalize_rejection(*old(auction), *caller, *cluster) {
            Some(e) => r == Err::<AuctionFinalized, AuctionError>(e) && *final(auction) == *old(
                auction,
            ),
            None => r == Ok::<AuctionFinalized, AuctionError>(
                (AuctionFinalized {
                    auction_id: old(auction).auction_id,
                    winner: winner_pubkey,
                    computation_proof,
                }),
            ) && *final(auction) == with_result(*old(auction), winner_pubkey, computation_proof),
        },
        old(auction).wf() ==> final(auction).wf(),
{
    if !caller.same(cluster) {
        return Err(AuctionError::UnauthorizedFinalizer);
    }
    if auction.status != AuctionStatus::Computing {
        return Err(AuctionError::InvalidState);
    }
    auction.status = AuctionStatus::Finalized;
    auction.winner = Some(winner_pubkey);
    auction.computation_proof = computation_proof;
    Ok(AuctionFinalized { auction_id: auction.auction_id, winner: winner_pubkey, computation_proof })
}

/// Acknowledges the claim of the recorded winner of a finalized auction.
/// The record is only read, so a claim may be repeated.
pub fn claim_win(auction: &AuctionAccount, caller: &Identity) -> (r: Result<
    WinClaimed,
    AuctionError,
>)
    ensures
        match claim_rejection(*auction, *caller) {
            Some(e) => r == Err::<WinClaimed, AuctionError>(e),
            None => r == Ok::<WinClaimed, AuctionError>(
                (WinClaimed { auction_id: auction.auction_id, winner: *caller }),
            ),
        },
{
    if auction.status != AuctionStatus::Finalized {
        return Err(AuctionError::AuctionNotFinalized);
    }
    if !is_identity(&auction.winner, caller) {
        return Err(AuctionError::NotTheWinner);
    }
    Ok(WinClaimed { auction_id: auction.auction_id, winner: *caller })
}

} // verus!
