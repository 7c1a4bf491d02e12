//! Pointer-driven move construction for a shogi board client: the selection
//! tracker, the promotion disambiguator and the move committer, over an
//! engine that owns the position and decides legality.

pub mod pieces;
pub mod engine;
pub mod resolve;
pub mod session;
pub mod layout;
