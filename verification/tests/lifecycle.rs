use blind_auction::auction::{
    already_bid, claim_win, close_auction, create_auction, finalize_auction, place_bid,
};
use blind_auction::bridge::{
    deliver_result, sealed_bids, start_computation, verify_result, ComputationResult,
    SessionHandle,
};
use blind_auction::circuit::find_winning_bid;
use blind_auction::identity::{is_identity, Identity};
use blind_auction::record::{
    AuctionAccount, AuctionClosing, AuctionCreated, AuctionError, AuctionFinalized, AuctionStatus,
    BidPlaced, BidRecord, WinClaimed,
};
use blind_auction::share::{MxeContext, SecretValue};

fn id(n: u8) -> Identity {
    Identity::new([n; 32])
}

fn owner() -> Identity {
    id(200)
}

fn cluster() -> Identity {
    id(250)
}

fn key() -> Identity {
    id(100)
}

fn open_auction(now: i64, duration: i64) -> AuctionAccount {
    create_auction(owner(), 1, String::from("Lot"), String::from("A lot"), duration, now, 254)
        .unwrap()
        .0
}

fn bid(auction: &mut AuctionAccount, bids: &mut Vec<BidRecord>, bidder: u8, now: i64)
    -> Result<BidPlaced, AuctionError> {
    place_bid(auction, key(), bids, id(bidder), [bidder; 64], [bidder; 32], now, 9)
}

fn computing_auction() -> (AuctionAccount, Vec<BidRecord>) {
    let mut auction = open_auction(1000, 10);
    let mut bids = Vec::new();
    bid(&mut auction, &mut bids, 1, 1001).unwrap();
    bid(&mut auction, &mut bids, 2, 1002).unwrap();
    close_auction(&mut auction, 1010).unwrap();
    (auction, bids)
}

#[test]
fn identities_compare_by_their_bytes() {
    let mut bytes = [3u8; 32];
    assert!(Identity::new(bytes).same(&id(3)));
    bytes[31] = 4;
    assert!(!Identity::new(bytes).same(&id(3)));
    bytes[31] = 3;
    bytes[0] = 0;
    assert!(!Identity::new(bytes).same(&id(3)));
    assert!(is_identity(&Some(id(3)), &id(3)));
    assert!(!is_identity(&Some(id(3)), &id(4)));
    assert!(!is_identity(&None, &id(3)));
}

#[test]
fn create_fills_the_record() {
    let (auction, event) = create_auction(
        owner(),
        77,
        String::from("Painting"),
        String::from("Oil on canvas"),
        3600,
        1_700_000_000,
        253,
    )
    .unwrap();
    assert_eq!(
        auction,
        AuctionAccount {
            auction_id: 77,
            auctioneer: owner(),
            title: String::from("Painting"),
            description: String::from("Oil on canvas"),
            start_time: 1_700_000_000,
            end_time: 1_700_003_600,
            status: AuctionStatus::Open,
            bid_count: 0,
            winner: None,
            computation_proof: [0u8; 32],
            bump: 253,
        }
    );
    assert_eq!(
        event,
        AuctionCreated { auction_id: 77, auctioneer: owner(), end_time: 1_700_003_600 }
    );
}

#[test]
fn create_checks_the_sizes_in_bytes() {
    let ok = |title: String, description: String| {
        create_auction(owner(), 1, title, description, 1, 0, 0).map(|_| ())
    };
    assert_eq!(ok("t".repeat(64), "d".repeat(256)), Ok(()));
    assert_eq!(ok(String::new(), String::new()), Ok(()));
    assert_eq!(ok("t".repeat(65), String::new()), Err(AuctionError::TitleTooLong));
    assert_eq!(ok(String::new(), "d".repeat(257)), Err(AuctionError::DescriptionTooLong));
    // Two bytes each: 32 fit, 33 do not.
    assert_eq!(ok("é".repeat(32), String::new()), Ok(()));
    assert_eq!(ok("é".repeat(33), String::new()), Err(AuctionError::TitleTooLong));
    assert_eq!(ok(String::new(), "é".repeat(129)), Err(AuctionError::DescriptionTooLong));
}

#[test]
fn create_rejects_in_a_fixed_order() {
    let run = |title: usize, description: usize, duration: i64| {
        create_auction(owner(), 1, "t".repeat(title), "d".repeat(description), duration, 5, 0)
            .map(|_| ())
    };
    assert_eq!(run(65, 257, 0), Err(AuctionError::TitleTooLong));
    assert_eq!(run(64, 257, 0), Err(AuctionError::DescriptionTooLong));
    assert_eq!(run(64, 256, 0), Err(AuctionError::InvalidDuration));
    assert_eq!(run(64, 256, -1), Err(AuctionError::InvalidDuration));
    assert_eq!(run(64, 256, i64::MIN), Err(AuctionError::InvalidDuration));
    assert_eq!(run(64, 256, 1), Ok(()));
}

#[test]
fn bid_is_recorded_as_it_comes() {
    let mut auction = open_auction(1000, 10);
    let mut bids = Vec::new();
    let placed = place_bid(&mut auction, key(), &mut bids, id(1), [7; 64], [8; 32], 1003, 250);
    assert_eq!(placed, Ok(BidPlaced { auction_id: 1, bidder: id(1), bid_index: 1 }));
    assert_eq!(auction.bid_count, 1);
    assert_eq!(auction.status, AuctionStatus::Open);
    assert_eq!(
        bids,
        vec![BidRecord {
            auction: key(),
            bidder: id(1),
            encrypted_bid: [7; 64],
            bid_nonce: [8; 32],
            timestamp: 1003,
            bump: 250,
        }]
    );
    assert_eq!(
        bid(&mut auction, &mut bids, 2, 1009),
        Ok(BidPlaced { auction_id: 1, bidder: id(2), bid_index: 2 })
    );
    assert_eq!(auction.bid_count, 2);
    assert_eq!(bids.len(), 2);
}

#[test]
fn bid_after_the_end_is_expired() {
    let mut auction = open_auction(1000, 10);
    let mut bids = Vec::new();
    let before = auction.clone();
    assert_eq!(bid(&mut auction, &mut bids, 1, 1010), Err(AuctionError::AuctionExpired));
    assert_eq!(bid(&mut auction, &mut bids, 1, 5000), Err(AuctionError::AuctionExpired));
    assert_eq!(bid(&mut auction, &mut bids, 1, i64::MAX), Err(AuctionError::AuctionExpired));
    assert_eq!(auction, before);
    assert!(bids.is_empty());
    assert!(bid(&mut auction, &mut bids, 1, 1009).is_ok());
}

#[test]
fn second_bid_of_a_bidder_is_a_duplicate() {
    let mut auction = open_auction(1000, 10);
    let mut bids = Vec::new();
    bid(&mut auction, &mut bids, 1, 1001).unwrap();
    bid(&mut auction, &mut bids, 2, 1002).unwrap();
    let before = auction.clone();
    let recorded = bids.clone();
    assert_eq!(bid(&mut auction, &mut bids, 1, 1003), Err(AuctionError::AlreadyBid));
    assert_eq!(bid(&mut auction, &mut bids, 2, 1003), Err(AuctionError::AlreadyBid));
    assert_eq!(auction, before);
    assert_eq!(bids, recorded);
    assert!(already_bid(&bids, &key(), &id(1)));
    assert!(!already_bid(&bids, &key(), &id(3)));
    assert!(!already_bid(&bids, &id(101), &id(1)));
}

#[test]
fn a_bidder_may_bid_on_two_auctions() {
    let mut first = open_auction(1000, 10);
    let mut second = open_auction(1000, 10);
    let mut bids = Vec::new();
    assert!(place_bid(&mut first, id(100), &mut bids, id(1), [1; 64], [1; 32], 1001, 0).is_ok());
    assert!(place_bid(&mut second, id(101), &mut bids, id(1), [1; 64], [1; 32], 1001, 0).is_ok());
    assert_eq!(
        place_bid(&mut second, id(101), &mut bids, id(1), [1; 64], [1; 32], 1001, 0),
        Err(AuctionError::AlreadyBid)
    );
    assert_eq!(sealed_bids(&bids, &id(100)).len(), 1);
    assert_eq!(sealed_bids(&bids, &id(101)).len(), 1);
    assert_eq!(sealed_bids(&bids, &id(102)).len(), 0);
}

#[test]
fn bid_on_an_auction_that_is_not_open() {
    let (mut auction, mut bids) = computing_auction();
    assert_eq!(bid(&mut auction, &mut bids, 3, 1001), Err(AuctionError::AuctionNotOpen));
    assert_eq!(bid(&mut auction, &mut bids, 1, 5000), Err(AuctionError::AuctionNotOpen));
    auction.status = AuctionStatus::Cancelled;
    assert_eq!(bid(&mut auction, &mut bids, 3, 1001), Err(AuctionError::AuctionNotOpen));
    assert_eq!(bids.len(), 2);
}

#[test]
fn close_before_the_end_is_too_early() {
    let mut auction = open_auction(1000, 10);
    let mut bids = Vec::new();
    bid(&mut auction, &mut bids, 1, 1001).unwrap();
    assert_eq!(close_auction(&mut auction, 1009), Err(AuctionError::AuctionStillActive));
    assert_eq!(close_auction(&mut auction, i64::MIN), Err(AuctionError::AuctionStillActive));
    assert_eq!(auction.status, AuctionStatus::Open);
    assert_eq!(
        close_auction(&mut auction, 1010),
        Ok(AuctionClosing { auction_id: 1, bid_count: 1 })
    );
    assert_eq!(auction.status, AuctionStatus::Computing);
}

#[test]
fn close_without_bids() {
    let mut auction = open_auction(1000, 10);
    assert_eq!(close_auction(&mut auction, 1009), Err(AuctionError::AuctionStillActive));
    assert_eq!(close_auction(&mut auction, 1010), Err(AuctionError::NoBids));
    assert_eq!(close_auction(&mut auction, 9999), Err(AuctionError::NoBids));
    assert_eq!(auction, open_auction(1000, 10));
}

#[test]
fn close_is_final() {
    let (mut auction, _) = computing_auction();
    let before = auction.clone();
    assert_eq!(close_auction(&mut auction, 1010), Err(AuctionError::AuctionNotOpen));
    assert_eq!(close_auction(&mut auction, 0), Err(AuctionError::AuctionNotOpen));
    assert_eq!(auction, before);
}

#[test]
fn result_from_a_stranger_is_unauthorized() {
    let (mut auction, _) = computing_auction();
    let before = auction.clone();
    assert_eq!(
        finalize_auction(&mut auction, &id(1), &cluster(), id(1), [5; 32]),
        Err(AuctionError::UnauthorizedFinalizer)
    );
    assert_eq!(
        finalize_auction(&mut auction, &owner(), &cluster(), id(1), [5; 32]),
        Err(AuctionError::UnauthorizedFinalizer)
    );
    assert_eq!(auction.status, AuctionStatus::Computing);
    assert_eq!(auction, before);
    let mut open = open_auction(0, 1);
    assert_eq!(
        finalize_auction(&mut open, &id(1), &cluster(), id(1), [5; 32]),
        Err(AuctionError::UnauthorizedFinalizer)
    );
}

#[test]
fn result_outside_computing_is_rejected() {
    let mut auction = open_auction(1000, 10);
    assert_eq!(
        finalize_auction(&mut auction, &cluster(), &cluster(), id(1), [5; 32]),
        Err(AuctionError::InvalidState)
    );
    assert_eq!(auction, open_auction(1000, 10));
    let (mut auction, _) = computing_auction();
    finalize_auction(&mut auction, &cluster(), &cluster(), id(1), [5; 32]).unwrap();
    let before = auction.clone();
    assert_eq!(
        finalize_auction(&mut auction, &cluster(), &cluster(), id(2), [6; 32]),
        Err(AuctionError::InvalidState)
    );
    assert_eq!(auction, before);
}

#[test]
fn result_from_the_cluster_is_applied() {
    let (mut auction, _) = computing_auction();
    let mut expected = auction.clone();
    assert_eq!(
        finalize_auction(&mut auction, &cluster(), &cluster(), id(2), [5; 32]),
        Ok(AuctionFinalized { auction_id: 1, winner: id(2), computation_proof: [5; 32] })
    );
    expected.status = AuctionStatus::Finalized;
    expected.winner = Some(id(2));
    expected.computation_proof = [5; 32];
    assert_eq!(auction, expected);
}

#[test]
fn claim_needs_a_finalized_auction() {
    let auction = open_auction(1000, 10);
    assert_eq!(claim_win(&auction, &id(1)), Err(AuctionError::AuctionNotFinalized));
    let (auction, _) = computing_auction();
    assert_eq!(claim_win(&auction, &id(1)), Err(AuctionError::AuctionNotFinalized));
}

#[test]
fn claim_is_for_the_winner_alone() {
    let (mut auction, _) = computing_auction();
    finalize_auction(&mut auction, &cluster(), &cluster(), id(2), [5; 32]).unwrap();
    let before = auction.clone();
    assert_eq!(claim_win(&auction, &id(1)), Err(AuctionError::NotTheWinner));
    assert_eq!(claim_win(&auction, &owner()), Err(AuctionError::NotTheWinner));
    assert_eq!(claim_win(&auction, &cluster()), Err(AuctionError::NotTheWinner));
    assert_eq!(claim_win(&auction, &id(2)), Ok(WinClaimed { auction_id: 1, winner: id(2) }));
    assert_eq!(claim_win(&auction, &id(2)), Ok(WinClaimed { auction_id: 1, winner: id(2) }));
    assert_eq!(auction, before);
}

#[test]
fn sealed_bids_keep_the_order_of_submission() {
    let mut first = open_auction(1000, 10);
    let mut second = open_auction(1000, 10);
    let mut bids = Vec::new();
    place_bid(&mut first, id(100), &mut bids, id(3), [3; 64], [3; 32], 1001, 0).unwrap();
    place_bid(&mut second, id(101), &mut bids, id(9), [9; 64], [9; 32], 1002, 0).unwrap();
    place_bid(&mut first, id(100), &mut bids, id(1), [1; 64], [1; 32], 1003, 0).unwrap();
    place_bid(&mut first, id(100), &mut bids, id(2), [2; 64], [2; 32], 1004, 0).unwrap();
    let picked = sealed_bids(&bids, &id(100));
    let bidders: Vec<Identity> = picked.iter().map(|b| b.bidder).collect();
    assert_eq!(bidders, vec![id(3), id(1), id(2)]);
    assert_eq!(picked[1], bids[2]);
}

#[test]
fn start_computation_hands_over_the_bids() {
    let mut auction = open_auction(1000, 10);
    let mut bids = Vec::new();
    bid(&mut auction, &mut bids, 1, 1001).unwrap();
    bid(&mut auction, &mut bids, 2, 1002).unwrap();
    assert_eq!(
        start_computation(&mut auction, key(), &bids, 1005),
        Err(AuctionError::AuctionStillActive)
    );
    assert_eq!(auction.status, AuctionStatus::Open);
    let (session, submitted, event) = start_computation(&mut auction, key(), &bids, 1010).unwrap();
    assert_eq!(session, SessionHandle { auction: key(), bid_count: 2 });
    assert_eq!(submitted, bids);
    assert_eq!(event, AuctionClosing { auction_id: 1, bid_count: 2 });
    assert_eq!(auction.status, AuctionStatus::Computing);
    assert_eq!(
        start_computation(&mut auction, key(), &bids, 1010),
        Err(AuctionError::AuctionNotOpen)
    );
    let mut empty = open_auction(1000, 10);
    assert_eq!(start_computation(&mut empty, key(), &bids, 1010), Err(AuctionError::NoBids));
}

#[test]
fn mismatched_result_is_never_applied() {
    let (mut auction, bids) = computing_auction();
    let session = SessionHandle { auction: key(), bid_count: 2 };
    let good = ComputationResult { session, winner_index: 1, proof: [5; 32] };
    let other_auction = ComputationResult {
        session: SessionHandle { auction: id(101), bid_count: 2 },
        winner_index: 1,
        proof: [5; 32],
    };
    let stale = ComputationResult {
        session: SessionHandle { auction: key(), bid_count: 1 },
        winner_index: 0,
        proof: [5; 32],
    };
    let out_of_range = ComputationResult { session, winner_index: 2, proof: [5; 32] };
    assert!(verify_result(&session, &bids, &good));
    assert!(!verify_result(&session, &bids, &other_auction));
    assert!(!verify_result(&session, &bids, &stale));
    assert!(!verify_result(&session, &bids, &out_of_range));
    assert!(!verify_result(&session, &bids[..1].to_vec(), &good));
    let before = auction.clone();
    for bad in [other_auction, stale, out_of_range] {
        assert_eq!(
            deliver_result(&mut auction, &session, &bids, &bad, &cluster(), &cluster()),
            Err(AuctionError::ProofMismatch)
        );
        assert_eq!(
            deliver_result(&mut auction, &session, &bids, &bad, &id(1), &cluster()),
            Err(AuctionError::ProofMismatch)
        );
    }
    assert_eq!(auction, before);
    assert_eq!(
        deliver_result(&mut auction, &session, &bids, &good, &id(1), &cluster()),
        Err(AuctionError::UnauthorizedFinalizer)
    );
    assert_eq!(auction, before);
    assert_eq!(
        deliver_result(&mut auction, &session, &bids, &good, &cluster(), &cluster()),
        Ok(AuctionFinalized { auction_id: 1, winner: id(2), computation_proof: [5; 32] })
    );
    assert_eq!(auction.winner, Some(id(2)));
    assert_eq!(
        deliver_result(&mut auction, &session, &bids, &good, &cluster(), &cluster()),
        Err(AuctionError::InvalidState)
    );
}

#[test]
fn auction_from_creation_to_claim() {
    let (mut auction, created) =
        create_auction(owner(), 42, String::from("Vase"), String::from("Ming"), 10, 1000, 255)
            .unwrap();
    assert_eq!(created.end_time, 1010);
    assert_eq!(auction.status, AuctionStatus::Open);
    let mut bids = Vec::new();
    let values = [5u64, 9, 3];
    for (n, bidder) in [1u8, 2, 3].iter().enumerate() {
        let placed = bid(&mut auction, &mut bids, *bidder, 1001 + n as i64).unwrap();
        assert_eq!(placed.bid_index, n as u32 + 1);
    }
    let (session, submitted, _) = start_computation(&mut auction, key(), &bids, 1010).unwrap();
    assert_eq!(auction.status, AuctionStatus::Computing);
    let mut mxe = MxeContext::new();
    let shares: Vec<SecretValue> = values.iter().map(|v| SecretValue::seal(*v)).collect();
    let winner_index = find_winning_bid(&mut mxe, &shares, session.bid_count).unwrap();
    assert_eq!(winner_index, 1);
    let result = ComputationResult { session, winner_index, proof: [1; 32] };
    let finalized =
        deliver_result(&mut auction, &session, &submitted, &result, &cluster(), &cluster());
    assert_eq!(
        finalized,
        Ok(AuctionFinalized { auction_id: 42, winner: id(2), computation_proof: [1; 32] })
    );
    assert_eq!(auction.status, AuctionStatus::Finalized);
    assert_eq!(auction.winner, Some(id(2)));
    assert_eq!(claim_win(&auction, &id(2)), Ok(WinClaimed { auction_id: 42, winner: id(2) }));
    assert_eq!(claim_win(&auction, &id(1)), Err(AuctionError::NotTheWinner));
}

#[test]
fn stored_sizes() {
    assert_eq!(AuctionAccount::LEN, 463);
    assert_eq!(BidRecord::LEN, 177);
}

#[test]
fn every_rejection_has_its_text() {
    assert_eq!(AuctionError::TitleTooLong.message(), "Title too long");
    assert_eq!(AuctionError::DescriptionTooLong.message(), "Description too long");
    assert_eq!(AuctionError::InvalidDuration.message(), "Invalid duration");
    assert_eq!(AuctionError::AuctionNotOpen.message(), "Auction not open");
    assert_eq!(AuctionError::AuctionExpired.message(), "Auction expired");
    assert_eq!(AuctionError::AlreadyBid.message(), "Already bid");
    assert_eq!(AuctionError::AuctionStillActive.message(), "Auction still active");
    assert_eq!(AuctionError::NoBids.message(), "No bids placed");
    assert_eq!(AuctionError::UnauthorizedFinalizer.message(), "Unauthorized finalizer");
    assert_eq!(AuctionError::InvalidState.message(), "Invalid state");
    assert_eq!(AuctionError::AuctionNotFinalized.message(), "Auction not finalized");
    assert_eq!(AuctionError::NotTheWinner.message(), "Not the winner");
    assert_eq!(AuctionError::InvalidInput.message(), "Invalid input");
    assert_eq!(AuctionError::ProofMismatch.message(), "Proof mismatch");
}
