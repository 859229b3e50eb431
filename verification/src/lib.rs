//! A sealed-bid auction: the lifecycle of an auction record and the
//! winner-determination circuit that runs over secret-shared bids.

pub mod auction;
pub mod bridge;
pub mod circuit;
pub mod identity;
pub mod laws;
pub mod record;
pub mod share;
