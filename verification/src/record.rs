//! The data of an auction: its record, the sealed bids, the lifecycle events
//! and the reasons for which an operation is rejected.

use crate::identity::Identity;
use vstd::prelude::*;

verus! {

/// Longest accepted title, in bytes.
pub const MAX_TITLE_LEN: usize = 64;

/// Longest accepted description, in bytes.
pub const MAX_DESCRIPTION_LEN: usize = 256;

/// Where an auction stands in its lifecycle. `Open` is the initial state;
/// `Finalized` and `Cancelled` are terminal.
#[derive(Clone, Copy, Debug, PartialEq, Eq, Structural)]
pub enum AuctionStatus {
    Open,
    Computing,
    Finalized,
    Cancelled,
}

/// Why an operation was rejected. A rejected operation changes nothing.
#[derive(Clone, Copy, Debug, PartialEq, Eq, Structural)]
pub enum AuctionError {
    TitleTooLong,
    DescriptionTooLong,
    InvalidDuration,
    AuctionNotOpen,
    AuctionExpired,
    AlreadyBid,
    AuctionStillActive,
    NoBids,
    UnauthorizedFinalizer,
    InvalidState,
    AuctionNotFinalized,
    NotTheWinner,
    InvalidInput,
    ProofMismatch,
}

impl AuctionError {
    /// The text that `message` gives for each rejection.
    pub open spec fn message_text(self) -> Seq<char> {
        match self {
            AuctionError::TitleTooLong => "Title too long"@,
            AuctionError::DescriptionTooLong => "Description too long"@,
            AuctionError::InvalidDuration => "Invalid duration"@,
            AuctionError::AuctionNotOpen => "Auction not open"@,
            AuctionError::AuctionExpired => "Auction expired"@,
            AuctionError::AlreadyBid => "Already bid"@,
            AuctionError::AuctionStillActive => "Auction still active"@,
            AuctionError::NoBids => "No bids placed"@,
            AuctionError::UnauthorizedFinalizer => "Unauthorized finalizer"@,
            AuctionError::InvalidState => "Invalid state"@,
            AuctionError::AuctionNotFinalized => "Auction not finalized"@,
            AuctionError::NotTheWinner => "Not the winner"@,
            AuctionError::InvalidInput => "Invalid input"@,
            AuctionError::ProofMismatch => "Proof mismatch"@,
        }
    }

    /// A short text that says what went wrong.
    pub fn message(&self) -> (r: &'static str)
        ensures
            r@ == self.message_text(),
    {
        match self {
            AuctionError::TitleTooLong => "Title too long",
            AuctionError::DescriptionTooLong => "Description too long",
            AuctionError::InvalidDuration => "Invalid duration",
            AuctionError::AuctionNotOpen => "Auction not open",
            AuctionError::AuctionExpired => "Auction expired",
            AuctionError::AlreadyBid => "Already bid",
            AuctionError::AuctionStillActive => "Auction still active",
            AuctionError::NoBids => "No bids placed",
            AuctionError::UnauthorizedFinalizer => "Unauthorized finalizer",
            AuctionError::InvalidState => "Invalid state",
            AuctionError::AuctionNotFinalized => "Auction not finalized",
            AuctionError::NotTheWinner => "Not the winner",
            AuctionError::InvalidInput => "Invalid input",
            AuctionError::ProofMismatch => "Proof mismatch",
        }
    }
}

/// The record that governs one auction.
#[derive(Clone, Debug, PartialEq, Eq)]
pub struct AuctionAccount {
    pub auction_id: u64,
    pub auctioneer: Identity,
    pub title: String,
    pub description: String,
    pub start_time: i64,
    pub end_time: i64,
    pub status: AuctionStatus,
    pub bid_count: u32,
    pub winner: Option<Identity>,
    pub computation_proof: [u8; 32],
    pub bump: u8,
}

impl AuctionAccount {
    /// Bytes that a stored record takes.
    pub const LEN: usize = 8 + 8 + 32 + (4 + 64) + (4 + 256) + 8 + 8 + 1 + 4 + (1 + 32) + 32 + 1;

    /// What holds of every record that the operations produce: the window is
    /// not empty, a winner is recorded exactly when the auction is finalized,
    /// and an auction that went to computation has a bid.
    pub open spec fn wf(&self) -> bool {
        &&& self.start_time < self.end_time
        &&& (self.status == AuctionStatus::Finalized <==> self.winner is Some)
        &&& (self.status == AuctionStatus::Computing || self.status == AuctionStatus::Finalized
            ==> self.bid_count > 0)
    }
}

/// One sealed bid: ciphertext and nonce, never opened here.
#[derive(Clone, Copy, Debug, PartialEq, Eq)]
pub struct BidRecord {
    pub auction: Identity,
    pub bidder: Identity,
    pub encrypted_bid: [u8; 64],
    pub bid_nonce: [u8; 32],
    pub timestamp: i64,
    pub bump: u8,
}

impl BidRecord {
    /// Bytes that a stored sealed bid takes.
    pub const LEN: usize = 8 + 32 + 32 + 64 + 32 + 8 + 1;
}

/// Emitted when an auction is created.
#[derive(Clone, Copy, Debug, PartialEq, Eq)]
pub struct AuctionCreated {
    pub auction_id: u64,
    pub auctioneer: Identity,
    pub end_time: i64,
}

/// Emitted when a sealed bid is recorded.
#[derive(Clone, Copy, Debug, PartialEq, Eq)]
pub struct BidPlaced {
    pub auction_id: u64,
    pub bidder: Identity,
    pub bid_index: u32,
}

/// Emitted when the bids are handed over for computation.
#[derive(Clone, Copy, Debug, PartialEq, Eq)]
pub struct AuctionClosing {
    pub auction_id: u64,
    pub bid_count: u32,
}

/// Emitted when the winner is recorded.
#[derive(Clone, Copy, Debug, PartialEq, Eq)]
pub struct AuctionFinalized {
    pub auction_id: u64,
    pub winner: Identity,
    pub computation_proof: [u8; 32],
}

/// Emitted when the winner claims.
#[derive(Clone, Copy, Debug, PartialEq, Eq)]
pub struct WinClaimed {
    pub auction_id: u64,
    pub winner: Identity,
}

} // verus!
