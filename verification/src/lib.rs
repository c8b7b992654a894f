//! An open-ballot voting ledger.
//!
//! A session is created with a fixed, ordered list of proposals. Any voter
//! may cast one vote of weight 1 among those proposals, change it freely, or
//! cancel it, until the session is tallied. The tally reports every proposal
//! with the maximum vote count (ties are kept, in ascending id order) and
//! closes the session for good.

pub mod errors;
pub mod laws;
pub mod ledger;
pub mod registry;
pub mod session;
pub mod tally;
