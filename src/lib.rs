//! Voter-weight computation for an NFT-backed governance plugin.
//!
//! A voter presents NFTs, possibly across several invocations, and the plugin
//! accumulates their weights into a record that the governance program reads
//! when the vote is cast. Each NFT counts at most once per proposal, and a
//! proposal in a phase vote credits weight only to the approve option.
pub mod pubkey;
pub mod error;
pub mod phase_protocol;
pub mod state;
pub mod governance;
pub mod cast_nft_vote;
pub mod laws;
