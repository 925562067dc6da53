use vstd::prelude::*;
use crate::error::NftVoterError;
use crate::pubkey::Pubkey;

verus! {

/// What a voter weight is valid for.
#[derive(Debug, Clone, Copy, PartialEq, Eq, Structural)]
pub enum VoterWeightAction {
    CastVote,
    CommentProposal,
    CreateGovernance,
    CreateProposal,
    SignOffProposal,
}

/// The registrar's identity of the voting population.
#[derive(Debug, Clone, Copy)]
pub struct Registrar {
    pub realm: Pubkey,
    pub governing_token_mint: Pubkey,
}

/// The weight record that the governance program reads when a vote is cast.
///
/// `voter_weight` counts only while `weight_action` is `CastVote`,
/// `weight_action_target` is the proposal voted on and the current slot is
/// `voter_weight_expiry`.
#[derive(Debug, Clone, Copy)]
pub struct VoterWeightRecord {
    pub realm: Pubkey,
    pub governing_token_mint: Pubkey,
    pub governing_token_owner: Pubkey,
    pub voter_weight: u64,
    pub voter_weight_expiry: Option<u64>,
    pub weight_action: Option<VoterWeightAction>,
    pub weight_action_target: Option<Pubkey>,
}

/// The proof that an NFT has voted on a proposal.
#[derive(Debug, Clone, Copy)]
pub struct NftVoteRecord {
    pub proposal: Pubkey,
    pub nft_mint: Pubkey,
    pub governing_token_owner: Pubkey,
}

/// Whether some record of `records` is for `proposal` and `nft_mint`.
pub open spec fn claimed_in(records: Seq<NftVoteRecord>, proposal: Seq<u8>, nft_mint: Seq<u8>) -> bool {
    exists|i: int|
        0 <= i < records.len() && (#[trigger] records[i]).proposal@ == proposal
            && records[i].nft_mint@ == nft_mint
}

/// Whether no two records of `records` are for the same proposal and NFT.
pub open spec fn keys_unique(records: Seq<NftVoteRecord>) -> bool {
    forall|i: int, j: int|
        0 <= i < j < records.len() ==> !((#[trigger] records[i]).proposal@ == (#[trigger] records[j]).proposal@
            && records[i].nft_mint@ == records[j].nft_mint@)
}

/// The NFT vote records: at most one for each proposal and NFT, never
/// changed or removed once written.
pub struct NftVoteLedger {
    records: Vec<NftVoteRecord>,
}

impl View for NftVoteLedger {
    type V = Seq<NftVoteRecord>;

    closed spec fn view(&self) -> Seq<NftVoteRecord> {
        self.records@
    }
}

impl NftVoteLedger {
    /// The ledger is well formed when no proposal and NFT have two records.
    pub open spec fn wf(&self) -> bool {
        keys_unique(self@)
    }

    /// Whether the ledger holds a record for `proposal` and `nft_mint`.
    pub open spec fn claims(&self, proposal: Seq<u8>, nft_mint: Seq<u8>) -> bool {
        claimed_in(self@, proposal, nft_mint)
    }

    /// A ledger without records.
    pub fn new() -> (r: NftVoteLedger)
        ensures
            r@ == Seq::<NftVoteRecord>::empty(),
            r.wf(),
    {
        NftVoteLedger { records: Vec::new() }
    }

    /// The number of records.
    pub fn len(&self) -> (r: usize)
        ensures
            r == self@.len(),
    {
        self.records.len()
    }

    /// The record at `index`, in the order they were written.
    pub fn get(&self, index: usize) -> (r: &NftVoteRecord)
        requires
            index < self@.len(),
        ensures
            *r == self@[index as int],
    {
        &self.records[index]
    }

    /// Whether an NFT has already voted on a proposal.
    pub fn is_claimed(&self, proposal: &Pubkey, nft_mint: &Pubkey) -> (r: bool)
        ensures
            r == self.claims(proposal@, nft_mint@),
    {
        let mut i: usize = 0;
        while i < self.records.len()
            invariant
                i <= self.records@.len(),
                forall|j: int|
                    0 <= j < i ==> !((#[trigger] self.records@[j]).proposal@ == proposal@
                        && self.records@[j].nft_mint@ == nft_mint@),
            decreases self.records@.len() - i,
        {
            let rec = &self.records[i];
            if rec.proposal.same_as(proposal) && rec.nft_mint.same_as(nft_mint) {
                return true;
            }
            i = i + 1;
        }
        false
    }

    /// Appends a record whose proposal and NFT have none yet.
    pub(crate) fn push_unclaimed(&mut self, record: NftVoteRecord)
        requires
            old(self).wf(),
            !old(self).claims(record.proposal@, record.nft_mint@),
        ensures
            final(self)@ == old(self)@.push(record),
            final(self).wf(),
    {
        self.records.push(record);
        assert forall|i: int, j: int|
            0 <= i < j < self.records@.len() implies !((#[trigger] self.records@[i]).proposal@
                == (#[trigger] self.records@[j]).proposal@ && self.records@[i].nft_mint@
                == self.records@[j].nft_mint@) by {
            if j == self.records@.len() - 1 {
                assert(old(self)@[i] == self.records@[i]);
            } else {
                assert(old(self)@[i] == self.records@[i]);
                assert(old(self)@[j] == self.records@[j]);
            }
        }
    }

    /// Records that an NFT votes on a proposal, unless it already has: then
    /// fails with `NftAlreadyVoted` and leaves the ledger as it was.
    pub fn claim(&mut self, proposal: &Pubkey, nft_mint: &Pubkey, governing_token_owner: &Pubkey) -> (r:
        Result<(), NftVoterError>)
        requires
            old(self).wf(),
        ensures
            final(self).wf(),
            old(self).claims(proposal@, nft_mint@) ==> r == Err::<(), NftVoterError>(
                NftVoterError::NftAlreadyVoted,
            ) && final(self)@ == old(self)@,
            !old(self).claims(proposal@, nft_mint@) ==> r is Ok && final(self)@ == old(self)@.push(
                NftVoteRecord {
                    proposal: *proposal,
                    nft_mint: *nft_mint,
                    governing_token_owner: *governing_token_owner,
                },
            ),
    {
        if self.is_claimed(proposal, nft_mint) {
            return Err(NftVoterError::NftAlreadyVoted);
        }
        self.push_unclaimed(
            NftVoteRecord {
                proposal: *proposal,
                nft_mint: *nft_mint,
                governing_token_owner: *governing_token_owner,
            },
        );
        Ok(())
    }
}

} // verus!
