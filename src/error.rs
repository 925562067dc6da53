use vstd::prelude::*;

verus! {

/// Every way an invocation can fail; each one aborts it with no state change.
#[derive(Debug, Clone, Copy, PartialEq, Eq, Structural)]
pub enum NftVoterError {
    /// The weight record belongs to another realm than the registrar's.
    InvalidVoterWeightRecordRealm,
    /// The weight record belongs to another governing token mint.
    InvalidVoterWeightRecordMint,
    /// The signer is not the owner of the weight record.
    InvalidTokenOwnerForVoterWeightRecord,
    /// The same NFT mint appears twice in one batch.
    DuplicatedNftDetected,
    /// The NFT has already been used to vote on the proposal.
    NftAlreadyVoted,
    /// The instruction after this one does not target the governance program.
    InvalidCastVoteProgram,
    /// Another instruction follows the vote-cast instruction.
    InstructionAfterCastVote,
    /// A phase vote is cast without the proposal's transaction as evidence.
    MustIncludeProposalTransactionForPhaseVotes,
    /// The weight does not fit in 64 bits.
    VoterWeightOverflow,
}

} // verus!
