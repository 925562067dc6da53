use vstd::prelude::*;
use crate::error::NftVoterError;
use crate::governance::{InstructionData, Proposal, add_voter_weight, gated_sum, payload_of, phase_gate};
use crate::pubkey::Pubkey;
use crate::state::{
    NftVoteLedger, NftVoteRecord, Registrar, VoterWeightAction, VoterWeightRecord, claimed_in,
};

verus! {

/// An NFT of the batch as the resolver hands it over: its weight and its mint.
#[derive(Debug, Clone, Copy)]
pub struct ResolvedNft {
    pub weight: u64,
    pub mint: Pubkey,
}

/// Everything one invocation reads.
#[derive(Debug)]
pub struct CastNftVote {
    /// The registrar whose voting population the weight record must belong to.
    pub registrar: Registrar,
    /// The signer who casts the vote.
    pub governing_token_owner: Pubkey,
    /// The proposal voted on.
    pub proposal: Pubkey,
    /// The proposal's options and vote type.
    pub proposal_data: Proposal,
    /// The instructions of the proposal's transaction, when that account was supplied.
    pub proposal_transaction: Option<Vec<InstructionData>>,
    /// The instructions that follow this one in the transaction, in order.
    pub following_instructions: Vec<InstructionData>,
    /// The governance program's address.
    pub governance_program_id: Pubkey,
    /// The phase protocol program's address.
    pub phase_program_id: Pubkey,
    /// The NFTs presented, in order.
    pub nfts: Vec<ResolvedNft>,
    /// The current slot.
    pub slot: u64,
}

/// The weight record must belong to the registrar's realm and mint, and to the signer.
pub open spec fn account_check(ctx: CastNftVote, record: VoterWeightRecord) -> Result<(), NftVoterError> {
    if record.realm@ != ctx.registrar.realm@ {
        Err(NftVoterError::InvalidVoterWeightRecordRealm)
    } else if record.governing_token_mint@ != ctx.registrar.governing_token_mint@ {
        Err(NftVoterError::InvalidVoterWeightRecordMint)
    } else if record.governing_token_owner@ != ctx.governing_token_owner@ {
        Err(NftVoterError::InvalidTokenOwnerForVoterWeightRecord)
    } else {
        Ok(())
    }
}

/// The payload of the vote-cast instruction that follows this one, if any.
/// It must call the governance program and be the last of the transaction.
pub open spec fn companion_payload(following: Seq<InstructionData>, governance_program_id: Seq<u8>) -> Result<
    Option<Seq<u8>>,
    NftVoterError,
> {
    if following.len() == 0 {
        Ok(None)
    } else if following.len() > 1 {
        Err(NftVoterError::InstructionAfterCastVote)
    } else if following[0].program_id@ != governance_program_id {
        Err(NftVoterError::InvalidCastVoteProgram)
    } else {
        Ok(Some(following[0].data@))
    }
}

/// Whether one of `nfts` has the mint `mint`.
pub open spec fn mint_in(nfts: Seq<ResolvedNft>, mint: Seq<u8>) -> bool {
    exists|j: int| 0 <= j < nfts.len() && (#[trigger] nfts[j]).mint@ == mint
}

/// The total weight of a batch, or the first error met going through it in
/// order: a mint seen earlier in the batch, a total over 64 bits, or an NFT
/// that the ledger shows has voted on the proposal.
pub open spec fn batch_tally(ledger: Seq<NftVoteRecord>, proposal: Seq<u8>, nfts: Seq<ResolvedNft>) -> Result<
    int,
    NftVoterError,
>
    decreases nfts.len(),
{
    if nfts.len() == 0 {
        Ok(0)
    } else {
        let nft = nfts.last();
        let prior = nfts.drop_last();
        match batch_tally(ledger, proposal, prior) {
            Err(e) => Err(e),
            Ok(total) => {
                if mint_in(prior, nft.mint@) {
                    Err(NftVoterError::DuplicatedNftDetected)
                } else if total + nft.weight > u64::MAX {
                    Err(NftVoterError::VoterWeightOverflow)
                } else if claimed_in(ledger, proposal, nft.mint@) {
                    Err(NftVoterError::NftAlreadyVoted)
                } else {
                    Ok(total + nft.weight)
                }
            },
        }
    }
}

/// The sum of the weights of `nfts`.
pub open spec fn weight_sum(nfts: Seq<ResolvedNft>) -> int
    decreases nfts.len(),
{
    if nfts.len() == 0 {
        0
    } else {
        weight_sum(nfts.drop_last()) + nfts.last().weight
    }
}

/// The vote records that a successful batch writes, one per NFT, in order.
pub open spec fn new_vote_records(proposal: Pubkey, governing_token_owner: Pubkey, nfts: Seq<ResolvedNft>) -> Seq<
    NftVoteRecord,
> {
    nfts.map_values(
        |n: ResolvedNft|
            NftVoteRecord { proposal: proposal, nft_mint: n.mint, governing_token_owner: governing_token_owner },
    )
}

/// Whether the record already holds weight for casting a vote on `proposal`.
pub open spec fn continues_vote(record: VoterWeightRecord, proposal: Seq<u8>) -> bool {
    record.weight_action == Some(VoterWeightAction::CastVote) && match record.weight_action_target {
        Some(t) => t@ == proposal,
        None => false,
    }
}

/// The weight that a batch adds to: the record's own when it continues the
/// vote on `proposal`, else zero.
pub open spec fn base_weight(record: VoterWeightRecord, proposal: Seq<u8>) -> int {
    if continues_vote(record, proposal) {
        record.voter_weight as int
    } else {
        0
    }
}

/// The record with weight `weight`, valid for casting a vote on `proposal` at `slot`.
pub open spec fn stamped(record: VoterWeightRecord, weight: u64, proposal: Pubkey, slot: u64) -> VoterWeightRecord {
    VoterWeightRecord {
        voter_weight: weight,
        voter_weight_expiry: Some(slot),
        weight_action: Some(VoterWeightAction::CastVote),
        weight_action_target: Some(proposal),
        ..record
    }
}

/// The weight record after an invocation, or the error that aborts it.
pub open spec fn cast_outcome(ctx: CastNftVote, record: VoterWeightRecord, ledger: Seq<NftVoteRecord>) -> Result<
    VoterWeightRecord,
    NftVoterError,
> {
    match account_check(ctx, record) {
        Err(e) => Err(e),
        Ok(_) => match companion_payload(ctx.following_instructions@, ctx.governance_program_id@) {
            Err(e) => Err(e),
            Ok(payload) => match batch_tally(ledger, ctx.proposal@, ctx.nfts@) {
                Err(e) => Err(e),
                Ok(total) => match gated_sum(
                    phase_gate(ctx.proposal_data, ctx.proposal_transaction, payload, ctx.phase_program_id@),
                    base_weight(record, ctx.proposal@),
                    total,
                ) {
                    Err(e) => Err(e),
                    Ok(weight) => Ok(stamped(record, weight, ctx.proposal, ctx.slot)),
                },
            },
        },
    }
}

/// Finds the vote-cast instruction that follows this one, if any: it must
/// call the governance program, and no instruction may come after it.
pub fn inspect_companion_instruction<'a>(
    following: &'a Vec<InstructionData>,
    governance_program_id: &Pubkey,
) -> (r: Result<Option<&'a InstructionData>, NftVoterError>)
    ensures
        match companion_payload(following@, governance_program_id@) {
            Ok(payload) => r matches Ok(ix) && payload_of(ix) == payload,
            Err(e) => r == Err::<Option<&InstructionData>, NftVoterError>(e),
        },
{
    if following.len() == 0 {
        return Ok(None);
    }
    if following.len() > 1 {
        return Err(NftVoterError::InstructionAfterCastVote);
    }
    let ix = &following[0];
    if !ix.program_id.same_as(governance_program_id) {
        return Err(NftVoterError::InvalidCastVoteProgram);
    }
    Ok(Some(ix))
}

/// A batch that tallies without error sums its weights, holds no mint twice
/// and holds no NFT that has voted on the proposal.
pub proof fn lemma_tally_ok(ledger: Seq<NftVoteRecord>, proposal: Seq<u8>, nfts: Seq<ResolvedNft>)
    requires
        batch_tally(ledger, proposal, nfts) is Ok,
    ensures
        batch_tally(ledger, proposal, nfts) == Ok::<int, NftVoterError>(weight_sum(nfts)),
        0 <= weight_sum(nfts) <= u64::MAX,
        forall|i: int| 0 <= i < nfts.len() ==> !claimed_in(ledger, proposal, (#[trigger] nfts[i]).mint@),
        forall|i: int, j: int|
            0 <= i < j < nfts.len() ==> (#[trigger] nfts[i]).mint@ != (#[trigger] nfts[j]).mint@,
    decreases nfts.len(),
{
    if nfts.len() > 0 {
        let prior = nfts.drop_last();
        lemma_tally_ok(ledger, proposal, prior);
        assert forall|i: int, j: int| 0 <= i < j < nfts.len() implies (#[trigger] nfts[i]).mint@
            != (#[trigger] nfts[j]).mint@ by {
            if j == nfts.len() - 1 {
                assert(prior[i] == nfts[i]);
                if nfts[i].mint@ == nfts[j].mint@ {
                    assert(mint_in(prior, nfts.last().mint@));
                }
            } else {
                assert(prior[i] == nfts[i] && prior[j] == nfts[j]);
            }
        }
        assert forall|i: int| 0 <= i < nfts.len() implies !claimed_in(
            ledger,
            proposal,
            (#[trigger] nfts[i]).mint@,
        ) by {
            if i < nfts.len() - 1 {
                assert(prior[i] == nfts[i]);
            }
        }
    }
}

/// An error met on a prefix of a batch is the error of the whole batch.
pub proof fn lemma_tally_err_extends(
    ledger: Seq<NftVoteRecord>,
    proposal: Seq<u8>,
    nfts: Seq<ResolvedNft>,
    k: int,
)
    requires
        0 <= k <= nfts.len(),
        batch_tally(ledger, proposal, nfts.subrange(0, k)) is Err,
    ensures
        batch_tally(ledger, proposal, nfts) == batch_tally(ledger, proposal, nfts.subrange(0, k)),
    decreases nfts.len() - k,
{
    if k < nfts.len() {
        let next = nfts.subrange(0, k + 1);
        assert(next.drop_last() =~= nfts.subrange(0, k));
        lemma_tally_err_extends(ledger, proposal, nfts, k + 1);
    } else {
        assert(nfts.subrange(0, k) =~= nfts);
    }
}

/// Whether one of `mints` is `mint`.
fn contains_mint(mints: &Vec<Pubkey>, mint: &Pubkey) -> (r: bool)
    ensures
        r == exists|j: int| 0 <= j < mints@.len() && (#[trigger] mints@[j])@ == mint@,
{
    let mut i: usize = 0;
    while i < mints.len()
        invariant
            i <= mints@.len(),
            forall|j: int| 0 <= j < i ==> (#[trigger] mints@[j])@ != mint@,
        decreases mints@.len() - i,
    {
        if mints[i].same_as(mint) {
            return true;
        }
        i = i + 1;
    }
    false
}

/// Sums the weights of a batch, rejecting a mint seen earlier in it, a total
/// over 64 bits, and an NFT that has already voted on the proposal.
pub fn tally_batch(ledger: &NftVoteLedger, proposal: &Pubkey, nfts: &Vec<ResolvedNft>) -> (r: Result<
    u64,
    NftVoterError,
>)
    ensures
        match batch_tally(ledger@, proposal@, nfts@) {
            Ok(total) => r matches Ok(w) && w as int == total,
            Err(e) => r == Err::<u64, NftVoterError>(e),
        },
{
    let mut unique_nft_mints: Vec<Pubkey> = Vec::new();
    let mut voter_weight: u64 = 0;
    let mut i: usize = 0;
    assert(nfts@.subrange(0, 0).len() == 0);
    while i < nfts.len()
        invariant
            i <= nfts@.len(),
            batch_tally(ledger@, proposal@, nfts@.subrange(0, i as int)) == Ok::<int, NftVoterError>(
                voter_weight as int,
            ),
            unique_nft_mints@.len() == i,
            forall|j: int| 0 <= j < i ==> (#[trigger] unique_nft_mints@[j]) == nfts@[j].mint,
        decreases nfts@.len() - i,
    {
        let nft = nfts[i];
        let ghost prior = nfts@.subrange(0, i as int);
        let ghost upto = nfts@.subrange(0, i + 1);
        assert(upto.drop_last() =~= prior);
        assert(upto.last() == nft);
        if contains_mint(&unique_nft_mints, &nft.mint) {
            proof {
                let j = choose|j: int| 0 <= j < unique_nft_mints@.len() && (#[trigger] unique_nft_mints@[j])@ == nft.mint@;
                assert(prior[j] == nfts@[j]);
                assert(mint_in(prior, nft.mint@));
                lemma_tally_err_extends(ledger@, proposal@, nfts@, i + 1);
            }
            return Err(NftVoterError::DuplicatedNftDetected);
        }
        proof {
            assert forall|j: int| 0 <= j < prior.len() implies (#[trigger] prior[j]).mint@ != nft.mint@ by {
                assert(unique_nft_mints@[j] == nfts@[j].mint);
            }
        }
        unique_nft_mints.push(nft.mint);
        let total = match voter_weight.checked_add(nft.weight) {
            Some(t) => t,
            None => {
                proof {
                    lemma_tally_err_extends(ledger@, proposal@, nfts@, i + 1);
                }
                return Err(NftVoterError::VoterWeightOverflow);
            },
        };
        if ledger.is_claimed(proposal, &nft.mint) {
            proof {
                lemma_tally_err_extends(ledger@, proposal@, nfts@, i + 1);
            }
            return Err(NftVoterError::NftAlreadyVoted);
        }
        voter_weight = total;
        i = i + 1;
    }
    assert(nfts@.subrange(0, nfts@.len() as int) =~= nfts@);
    Ok(voter_weight)
}

/// Writes the vote record of each NFT of a batch that tallied without error.
fn record_votes(ledger: &mut NftVoteLedger, proposal: &Pubkey, governing_token_owner: &Pubkey, nfts: &Vec<ResolvedNft>)
    requires
        old(ledger).wf(),
        batch_tally(old(ledger)@, proposal@, nfts@) is Ok,
    ensures
        final(ledger).wf(),
        final(ledger)@ == old(ledger)@ + new_vote_records(*proposal, *governing_token_owner, nfts@),
{
    let ghost start = ledger@;
    proof {
        lemma_tally_ok(start, proposal@, nfts@);
        assert(new_vote_records(*proposal, *governing_token_owner, nfts@.subrange(0, 0)) =~= Seq::<NftVoteRecord>::empty());
        assert(start + Seq::<NftVoteRecord>::empty() =~= start);
    }
    let mut i: usize = 0;
    while i < nfts.len()
        invariant
            i <= nfts@.len(),
            ledger.wf(),
            ledger@ == start + new_vote_records(*proposal, *governing_token_owner, nfts@.subrange(0, i as int)),
            forall|k: int| 0 <= k < nfts@.len() ==> !claimed_in(start, proposal@, (#[trigger] nfts@[k]).mint@),
            forall|a: int, b: int|
                0 <= a < b < nfts@.len() ==> (#[trigger] nfts@[a]).mint@ != (#[trigger] nfts@[b]).mint@,
        decreases nfts@.len() - i,
    {
        let nft = nfts[i];
        let record = NftVoteRecord {
            proposal: *proposal,
            nft_mint: nft.mint,
            governing_token_owner: *governing_token_owner,
        };
        let ghost done = new_vote_records(*proposal, *governing_token_owner, nfts@.subrange(0, i as int));
        proof {
            assert forall|k: int| 0 <= k < ledger@.len() implies !((#[trigger] ledger@[k]).proposal@
                == proposal@ && ledger@[k].nft_mint@ == nft.mint@) by {
                if k < start.len() {
                    assert(ledger@[k] == start[k]);
                    assert(!claimed_in(start, proposal@, nfts@[i as int].mint@));
                } else {
                    let d = k - start.len();
                    assert(ledger@[k] == done[d]);
                    assert(done[d].nft_mint == nfts@[d].mint);
                }
            }
        }
        ledger.push_unclaimed(record);
        proof {
            assert(new_vote_records(*proposal, *governing_token_owner, nfts@.subrange(0, i + 1)) =~= done.push(record));
            assert(start + done.push(record) =~= (start + done).push(record));
        }
        i = i + 1;
    }
    assert(nfts@.subrange(0, nfts@.len() as int) =~= nfts@);
}

/// Whether the record already holds weight for casting a vote on `proposal`.
pub fn is_continuing_vote(record: &VoterWeightRecord, proposal: &Pubkey) -> (r: bool)
    ensures
        r == continues_vote(*record, proposal@),
{
    let same_action = match record.weight_action {
        Some(VoterWeightAction::CastVote) => true,
        _ => false,
    };
    match &record.weight_action_target {
        Some(target) => same_action && target.same_as(proposal),
        None => false,
    }
}

/// Casts the weight of a batch of NFTs for a vote on `ctx.proposal`.
///
/// Each NFT is written to the ledger, so that it counts once per proposal.
/// The batch's weight is added to the record's when the record already
/// holds weight for this vote, and replaces it otherwise; a phase-vote
/// proposal cast on any option but approve gets zero. The record is then
/// valid for casting a vote on this proposal at the current slot. On an error
/// neither the record nor the ledger changes.
pub fn cast_nft_vote(ctx: &CastNftVote, voter_weight_record: &mut VoterWeightRecord, ledger: &mut NftVoteLedger) -> (r:
    Result<(), NftVoterError>)
    requires
        old(ledger).wf(),
    ensures
        final(ledger).wf(),
        match cast_outcome(*ctx, *old(voter_weight_record), old(ledger)@) {
            Ok(updated) => r is Ok && *final(voter_weight_record) == updated && final(ledger)@ == old(ledger)@
                + new_vote_records(ctx.proposal, ctx.governing_token_owner, ctx.nfts@),
            Err(e) => r == Err::<(), NftVoterError>(e) && *final(voter_weight_record) == *old(
                voter_weight_record,
            ) && final(ledger)@ == old(ledger)@,
        },
{
    if !voter_weight_record.realm.same_as(&ctx.registrar.realm) {
        return Err(NftVoterError::InvalidVoterWeightRecordRealm);
    }
    if !voter_weight_record.governing_token_mint.same_as(&ctx.registrar.governing_token_mint) {
        return Err(NftVoterError::InvalidVoterWeightRecordMint);
    }
    if !voter_weight_record.governing_token_owner.same_as(&ctx.governing_token_owner) {
        return Err(NftVoterError::InvalidTokenOwnerForVoterWeightRecord);
    }
    let cast_vote_ix = match inspect_companion_instruction(
        &ctx.following_instructions,
        &ctx.governance_program_id,
    ) {
        Ok(ix) => ix,
        Err(e) => return Err(e),
    };
    let voter_weight = match tally_batch(ledger, &ctx.proposal, &ctx.nfts) {
        Ok(w) => w,
        Err(e) => return Err(e),
    };
    let mut updated = *voter_weight_record;
    if !is_continuing_vote(&updated, &ctx.proposal) {
        updated.voter_weight = 0;
    }
    match add_voter_weight(
        &ctx.proposal_data,
        &ctx.proposal_transaction,
        cast_vote_ix,
        &ctx.phase_program_id,
        voter_weight,
        &mut updated,
    ) {
        Ok(()) => {},
        Err(e) => return Err(e),
    }
    updated.voter_weight_expiry = Some(ctx.slot);
    updated.weight_action = Some(VoterWeightAction::CastVote);
    updated.weight_action_target = Some(ctx.proposal);
    record_votes(ledger, &ctx.proposal, &ctx.governing_token_owner, &ctx.nfts);
    *voter_weight_record = updated;
    Ok(())
}

} // verus!
