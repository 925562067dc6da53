//! What holds of invocations, stated over the models that `cast_nft_vote`'s
//! contract uses.
use vstd::prelude::*;
use crate::cast_nft_vote::{
    CastNftVote, ResolvedNft, account_check, base_weight, batch_tally, cast_outcome,
    companion_payload, continues_vote, lemma_tally_ok, mint_in, new_vote_records, weight_sum,
};
use crate::error::NftVoterError;
use crate::governance::{phase_gate, phase_option_shape, phase_transaction_shape};
use crate::phase_protocol::APPROVE_VOTE_DATA;
use crate::state::{NftVoteRecord, VoterWeightAction, VoterWeightRecord, claimed_in};

verus! {

/// Whether no two NFTs of `nfts` share a mint.
pub open spec fn mints_distinct(nfts: Seq<ResolvedNft>) -> bool {
    forall|i: int, j: int| 0 <= i < j < nfts.len() ==> (#[trigger] nfts[i]).mint@ != (#[trigger] nfts[j]).mint@
}

/// Whether none of `nfts` has voted on `proposal` according to `ledger`.
pub open spec fn none_claimed(ledger: Seq<NftVoteRecord>, proposal: Seq<u8>, nfts: Seq<ResolvedNft>) -> bool {
    forall|i: int| 0 <= i < nfts.len() ==> !claimed_in(ledger, proposal, (#[trigger] nfts[i]).mint@)
}

/// A batch of distinct mints whose weights fit in 64 bits sums to its
/// weights, unless one of its NFTs has already voted.
proof fn lemma_tally_distinct(ledger: Seq<NftVoteRecord>, proposal: Seq<u8>, nfts: Seq<ResolvedNft>)
    requires
        mints_distinct(nfts),
        weight_sum(nfts) <= u64::MAX,
    ensures
        0 <= weight_sum(nfts),
        batch_tally(ledger, proposal, nfts) == Ok::<int, NftVoterError>(weight_sum(nfts))
            || batch_tally(ledger, proposal, nfts) == Err::<int, NftVoterError>(NftVoterError::NftAlreadyVoted),
        none_claimed(ledger, proposal, nfts) ==> batch_tally(ledger, proposal, nfts) == Ok::<
            int,
            NftVoterError,
        >(weight_sum(nfts)),
    decreases nfts.len(),
{
    if nfts.len() > 0 {
        let prior = nfts.drop_last();
        assert forall|i: int, j: int| 0 <= i < j < prior.len() implies (#[trigger] prior[i]).mint@
            != (#[trigger] prior[j]).mint@ by {
            assert(prior[i] == nfts[i] && prior[j] == nfts[j]);
        }
        assert forall|i: int| 0 <= i < prior.len() && none_claimed(ledger, proposal, nfts) implies !claimed_in(
            ledger,
            proposal,
            (#[trigger] prior[i]).mint@,
        ) by {
            assert(prior[i] == nfts[i]);
        }
        lemma_tally_distinct(ledger, proposal, prior);
        if mint_in(prior, nfts.last().mint@) {
            let j = choose|j: int| 0 <= j < prior.len() && (#[trigger] prior[j]).mint@ == nfts.last().mint@;
            assert(prior[j] == nfts[j]);
        }
        if none_claimed(ledger, proposal, nfts) {
            assert(!claimed_in(ledger, proposal, nfts[nfts.len() - 1].mint@));
        }
    }
}

/// A batch of distinct NFTs that have not voted on the proposal, in an
/// invocation that passes its account and instruction checks and whose weight
/// is not suppressed, succeeds: it writes exactly one vote record per NFT,
/// and the record's weight becomes the weight it held for this vote plus the
/// sum of the batch's weights.
pub proof fn law_valid_batch_credits_every_nft(
    ctx: CastNftVote,
    record: VoterWeightRecord,
    ledger: Seq<NftVoteRecord>,
)
    requires
        account_check(ctx, record) is Ok,
        companion_payload(ctx.following_instructions@, ctx.governance_program_id@) is Ok,
        mints_distinct(ctx.nfts@),
        none_claimed(ledger, ctx.proposal@, ctx.nfts@),
        base_weight(record, ctx.proposal@) + weight_sum(ctx.nfts@) <= u64::MAX,
        phase_gate(
            ctx.proposal_data,
            ctx.proposal_transaction,
            companion_payload(ctx.following_instructions@, ctx.governance_program_id@)->Ok_0,
            ctx.phase_program_id@,
        ) == Ok::<bool, NftVoterError>(false),
    ensures
        cast_outcome(ctx, record, ledger) is Ok,
        cast_outcome(ctx, record, ledger)->Ok_0.voter_weight == base_weight(record, ctx.proposal@)
            + weight_sum(ctx.nfts@),
        new_vote_records(ctx.proposal, ctx.governing_token_owner, ctx.nfts@).len() == ctx.nfts@.len(),
        forall|i: int|
            0 <= i < ctx.nfts@.len() ==> (#[trigger] new_vote_records(
                ctx.proposal,
                ctx.governing_token_owner,
                ctx.nfts@,
            )[i]).nft_mint == ctx.nfts@[i].mint,
{
    lemma_tally_distinct(ledger, ctx.proposal@, ctx.nfts@);
}

/// An NFT that has voted on a proposal cannot vote on it again: any batch
/// that holds it fails, and where nothing else is wrong with the batch the
/// error is `NftAlreadyVoted`.
pub proof fn law_voted_nft_is_rejected(
    ctx: CastNftVote,
    record: VoterWeightRecord,
    ledger: Seq<NftVoteRecord>,
    k: int,
)
    requires
        0 <= k < ctx.nfts@.len(),
        claimed_in(ledger, ctx.proposal@, ctx.nfts@[k].mint@),
    ensures
        cast_outcome(ctx, record, ledger) is Err,
        account_check(ctx, record) is Ok && companion_payload(
            ctx.following_instructions@,
            ctx.governance_program_id@,
        ) is Ok && mints_distinct(ctx.nfts@) && weight_sum(ctx.nfts@) <= u64::MAX ==> cast_outcome(
            ctx,
            record,
            ledger,
        ) == Err::<VoterWeightRecord, NftVoterError>(NftVoterError::NftAlreadyVoted),
{
    if batch_tally(ledger, ctx.proposal@, ctx.nfts@) is Ok {
        lemma_tally_ok(ledger, ctx.proposal@, ctx.nfts@);
    }
    if mints_distinct(ctx.nfts@) && weight_sum(ctx.nfts@) <= u64::MAX {
        lemma_tally_distinct(ledger, ctx.proposal@, ctx.nfts@);
    }
}

/// After an invocation succeeds, a later one on the same proposal that
/// presents any of its NFTs fails.
pub proof fn law_resubmission_fails(
    first: CastNftVote,
    record: VoterWeightRecord,
    ledger: Seq<NftVoteRecord>,
    later: CastNftVote,
    later_record: VoterWeightRecord,
    i: int,
    j: int,
)
    requires
        cast_outcome(first, record, ledger) is Ok,
        later.proposal@ == first.proposal@,
        0 <= i < first.nfts@.len(),
        0 <= j < later.nfts@.len(),
        later.nfts@[j].mint@ == first.nfts@[i].mint@,
    ensures
        cast_outcome(
            later,
            later_record,
            ledger + new_vote_records(first.proposal, first.governing_token_owner, first.nfts@),
        ) is Err,
{
    let after = ledger + new_vote_records(first.proposal, first.governing_token_owner, first.nfts@);
    assert(after[ledger.len() + i] == new_vote_records(first.proposal, first.governing_token_owner, first.nfts@)[i]);
    assert(claimed_in(after, later.proposal@, later.nfts@[j].mint@));
    law_voted_nft_is_rejected(later, later_record, after, j);
}

/// A batch that presents the same mint twice fails, so it writes no vote record.
pub proof fn law_duplicate_in_batch_fails(
    ctx: CastNftVote,
    record: VoterWeightRecord,
    ledger: Seq<NftVoteRecord>,
    i: int,
    j: int,
)
    requires
        0 <= i < j < ctx.nfts@.len(),
        ctx.nfts@[i].mint@ == ctx.nfts@[j].mint@,
    ensures
        cast_outcome(ctx, record, ledger) is Err,
{
    if batch_tally(ledger, ctx.proposal@, ctx.nfts@) is Ok {
        lemma_tally_ok(ledger, ctx.proposal@, ctx.nfts@);
        assert(ctx.nfts@[i].mint@ != ctx.nfts@[j].mint@);
    }
}

/// The record and ledger after a run of invocations, in order, or the first
/// error: a failed invocation changes nothing, and the run stops there.
pub open spec fn run_invocations(
    ctxs: Seq<CastNftVote>,
    record: VoterWeightRecord,
    ledger: Seq<NftVoteRecord>,
) -> Result<(VoterWeightRecord, Seq<NftVoteRecord>), NftVoterError>
    decreases ctxs.len(),
{
    if ctxs.len() == 0 {
        Ok((record, ledger))
    } else {
        let ctx = ctxs.last();
        match run_invocations(ctxs.drop_last(), record, ledger) {
            Err(e) => Err(e),
            Ok((r, l)) => match cast_outcome(ctx, r, l) {
                Err(e) => Err(e),
                Ok(updated) => Ok(
                    (updated, l + new_vote_records(ctx.proposal, ctx.governing_token_owner, ctx.nfts@)),
                ),
            },
        }
    }
}

/// The sum of the weights of every batch of a run.
pub open spec fn total_batch_weight(ctxs: Seq<CastNftVote>) -> int
    decreases ctxs.len(),
{
    if ctxs.len() == 0 {
        0
    } else {
        total_batch_weight(ctxs.drop_last()) + weight_sum(ctxs.last().nfts@)
    }
}

/// Whether the invocation's proposal is not in a phase vote: its options are
/// not laid out for one, or its supplied transaction is no phase protocol
/// operation.
pub open spec fn not_phase_gated(ctx: CastNftVote) -> bool {
    !phase_option_shape(ctx.proposal_data) || (ctx.proposal_transaction is Some
        && !phase_transaction_shape(ctx.proposal_transaction->Some_0@, ctx.phase_program_id@))
}

proof fn lemma_run_accumulates(ctxs: Seq<CastNftVote>, record: VoterWeightRecord, ledger: Seq<NftVoteRecord>, proposal: Seq<u8>)
    requires
        forall|k: int| 0 <= k < ctxs.len() ==> (#[trigger] ctxs[k]).proposal@ == proposal,
        forall|k: int| 0 <= k < ctxs.len() ==> not_phase_gated(#[trigger] ctxs[k]),
        run_invocations(ctxs, record, ledger) is Ok,
    ensures
        base_weight(run_invocations(ctxs, record, ledger)->Ok_0.0, proposal) == base_weight(record, proposal)
            + total_batch_weight(ctxs),
        ctxs.len() > 0 ==> continues_vote(run_invocations(ctxs, record, ledger)->Ok_0.0, proposal),
    decreases ctxs.len(),
{
    if ctxs.len() > 0 {
        let prior = ctxs.drop_last();
        let ctx = ctxs.last();
        assert forall|k: int| 0 <= k < prior.len() implies (#[trigger] prior[k]).proposal@ == proposal
            && not_phase_gated(prior[k]) by {
            assert(prior[k] == ctxs[k]);
        }
        lemma_run_accumulates(prior, record, ledger, proposal);
        assert(ctx == ctxs[ctxs.len() - 1]);
        let (r, l) = run_invocations(prior, record, ledger)->Ok_0;
        lemma_tally_ok(l, ctx.proposal@, ctx.nfts@);
    }
}

/// On a proposal that is not in a phase vote, a run of successful
/// invocations leaves the record holding the sum of all their batches'
/// weights, added to the weight it held for this vote before the run.
pub proof fn law_weight_accumulates_across_invocations(
    ctxs: Seq<CastNftVote>,
    record: VoterWeightRecord,
    ledger: Seq<NftVoteRecord>,
)
    requires
        ctxs.len() > 0,
        forall|k: int| 0 <= k < ctxs.len() ==> (#[trigger] ctxs[k]).proposal@ == ctxs[0].proposal@,
        forall|k: int| 0 <= k < ctxs.len() ==> not_phase_gated(#[trigger] ctxs[k]),
        run_invocations(ctxs, record, ledger) is Ok,
    ensures
        run_invocations(ctxs, record, ledger)->Ok_0.0.voter_weight == base_weight(record, ctxs[0].proposal@)
            + total_batch_weight(ctxs),
{
    lemma_run_accumulates(ctxs, record, ledger, ctxs[0].proposal@);
}

/// Whether the invocation's proposal is in a phase vote: its options are laid
/// out for one and its transaction is a phase protocol operation.
pub open spec fn phase_gated(ctx: CastNftVote) -> bool {
    phase_option_shape(ctx.proposal_data) && ctx.proposal_transaction is Some && phase_transaction_shape(
        ctx.proposal_transaction->Some_0@,
        ctx.phase_program_id@,
    )
}

/// In a phase vote, a vote cast with any payload but approve's leaves the
/// record with weight zero, whatever the batch weighs.
pub proof fn law_phase_vote_other_option_weighs_nothing(
    ctx: CastNftVote,
    record: VoterWeightRecord,
    ledger: Seq<NftVoteRecord>,
)
    requires
        phase_gated(ctx),
        companion_payload(ctx.following_instructions@, ctx.governance_program_id@) is Ok,
        companion_payload(ctx.following_instructions@, ctx.governance_program_id@)->Ok_0 is Some,
        companion_payload(ctx.following_instructions@, ctx.governance_program_id@)->Ok_0->Some_0
            != APPROVE_VOTE_DATA@,
    ensures
        account_check(ctx, record) is Ok && batch_tally(ledger, ctx.proposal@, ctx.nfts@) is Ok
            ==> cast_outcome(ctx, record, ledger) is Ok,
        cast_outcome(ctx, record, ledger) is Ok ==> cast_outcome(ctx, record, ledger)->Ok_0.voter_weight == 0,
{
}

/// In a phase vote, a vote cast with the approve payload counts the batch as
/// on any other proposal.
pub proof fn law_phase_vote_approve_counts(ctx: CastNftVote, record: VoterWeightRecord, ledger: Seq<NftVoteRecord>)
    requires
        phase_gated(ctx),
        companion_payload(ctx.following_instructions@, ctx.governance_program_id@) == Ok::<
            Option<Seq<u8>>,
            NftVoterError,
        >(Some(APPROVE_VOTE_DATA@)),
    ensures
        cast_outcome(ctx, record, ledger) is Ok ==> cast_outcome(ctx, record, ledger)->Ok_0.voter_weight
            == base_weight(record, ctx.proposal@) + weight_sum(ctx.nfts@),
{
    if batch_tally(ledger, ctx.proposal@, ctx.nfts@) is Ok {
        lemma_tally_ok(ledger, ctx.proposal@, ctx.nfts@);
    }
}

/// An invocation for another proposal than the record's target starts over:
/// the weight the record held plays no part, and the new weight is the
/// batch's sum, or zero where the phase gate suppresses it.
pub proof fn law_new_proposal_resets_weight(
    ctx: CastNftVote,
    record: VoterWeightRecord,
    ledger: Seq<NftVoteRecord>,
    prior_weight: u64,
)
    requires
        record.weight_action_target is Some,
        record.weight_action_target->Some_0@ != ctx.proposal@,
    ensures
        cast_outcome(ctx, record, ledger) == cast_outcome(
            ctx,
            (VoterWeightRecord { voter_weight: prior_weight, ..record }),
            ledger,
        ),
        cast_outcome(ctx, record, ledger) is Ok ==> cast_outcome(ctx, record, ledger)->Ok_0.voter_weight == (if phase_gate(
            ctx.proposal_data,
            ctx.proposal_transaction,
            companion_payload(ctx.following_instructions@, ctx.governance_program_id@)->Ok_0,
            ctx.phase_program_id@,
        ) == Ok::<bool, NftVoterError>(true) {
            0
        } else {
            weight_sum(ctx.nfts@)
        }),
{
    let other = VoterWeightRecord { voter_weight: prior_weight, ..record };
    assert(account_check(ctx, other) == account_check(ctx, record));
    if batch_tally(ledger, ctx.proposal@, ctx.nfts@) is Ok {
        lemma_tally_ok(ledger, ctx.proposal@, ctx.nfts@);
    }
    if cast_outcome(ctx, record, ledger) is Ok {
        assert(cast_outcome(ctx, other, ledger)->Ok_0 =~= cast_outcome(ctx, record, ledger)->Ok_0);
    }
}

/// After a successful invocation the record is valid for casting a vote on
/// the invocation's proposal at its slot, and still belongs to the same
/// realm, mint and owner.
pub proof fn law_success_stamps_record(ctx: CastNftVote, record: VoterWeightRecord, ledger: Seq<NftVoteRecord>)
    requires
        cast_outcome(ctx, record, ledger) is Ok,
    ensures
        cast_outcome(ctx, record, ledger)->Ok_0.weight_action == Some(VoterWeightAction::CastVote),
        cast_outcome(ctx, record, ledger)->Ok_0.weight_action_target == Some(ctx.proposal),
        cast_outcome(ctx, record, ledger)->Ok_0.voter_weight_expiry == Some(ctx.slot),
        cast_outcome(ctx, record, ledger)->Ok_0.realm == record.realm,
        cast_outcome(ctx, record, ledger)->Ok_0.governing_token_mint == record.governing_token_mint,
        cast_outcome(ctx, record, ledger)->Ok_0.governing_token_owner == record.governing_token_owner,
{
}

/// A weight that does not fit in 64 bits fails the invocation, never wraps:
/// a batch whose weights sum past the largest 64-bit value always fails, and
/// so does one whose unsuppressed sum with the record's weight does.
pub proof fn law_weight_overflow_fails(ctx: CastNftVote, record: VoterWeightRecord, ledger: Seq<NftVoteRecord>)
    ensures
        weight_sum(ctx.nfts@) > u64::MAX ==> cast_outcome(ctx, record, ledger) is Err,
        base_weight(record, ctx.proposal@) + weight_sum(ctx.nfts@) > u64::MAX && phase_gate(
            ctx.proposal_data,
            ctx.proposal_transaction,
            companion_payload(ctx.following_instructions@, ctx.governance_program_id@)->Ok_0,
            ctx.phase_program_id@,
        ) == Ok::<bool, NftVoterError>(false) ==> cast_outcome(ctx, record, ledger) is Err,
{
    if batch_tally(ledger, ctx.proposal@, ctx.nfts@) is Ok {
        lemma_tally_ok(ledger, ctx.proposal@, ctx.nfts@);
    }
}

} // verus!
