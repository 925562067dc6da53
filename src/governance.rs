use vstd::prelude::*;
use crate::error::NftVoterError;
use crate::phase_protocol::{APPROVE_VOTE_DATA, is_approve_vote, is_phase_vote_data, is_phase_vote_discriminator};
use crate::pubkey::{Pubkey, parse_pubkey, pubkey_from_base58};
use crate::state::VoterWeightRecord;

verus! {

/// An instruction as a transaction carries it: the program it calls and its payload.
#[derive(Debug)]
pub struct InstructionData {
    pub program_id: Pubkey,
    pub data: Vec<u8>,
}

/// How a proposal's options are voted on.
#[derive(Debug, Clone, Copy, PartialEq, Eq, Structural)]
pub enum VoteType {
    SingleChoice,
    MultiChoice,
}

/// One option of a proposal.
#[derive(Debug)]
pub struct ProposalOption {
    pub label: String,
    pub transactions_count: u16,
}

/// What this library reads of a proposal.
#[derive(Debug)]
pub struct Proposal {
    pub options: Vec<ProposalOption>,
    pub vote_type: VoteType,
}

/// The governance program this plugin serves.
#[derive(Debug, Clone, Copy)]
pub struct DedSplGovernanceProgram;

impl DedSplGovernanceProgram {
    /// The governance program's address, decoded from its base58 text.
    pub fn id() -> (r: Option<Pubkey>)
        ensures
            r.is_some() == pubkey_from_base58("8CeHquv1qaM4yg1QtXDj8ZmanNxATSEcSi3xWuprecMd"@).is_some(),
            r matches Some(k) ==> pubkey_from_base58(
                "8CeHquv1qaM4yg1QtXDj8ZmanNxATSEcSi3xWuprecMd"@,
            ) == Some(k@),
    {
        parse_pubkey("8CeHquv1qaM4yg1QtXDj8ZmanNxATSEcSi3xWuprecMd")
    }
}

/// The seed that the governance program puts first in its derived addresses.
pub open spec fn program_authority_seed() -> Seq<u8> {
    seq![103u8, 111u8, 118u8, 101u8, 114u8, 110u8, 97u8, 110u8, 99u8, 101u8]
}

/// The program derived address for `seeds` under `program_id`, with the bump
/// seed found by search; `None` when no bump seed gives one.
pub uninterp spec fn program_address(seeds: Seq<Seq<u8>>, program_id: Seq<u8>) -> Option<Seq<u8>>;

/// Relies on solana_program's `Pubkey::try_find_program_address`: the
/// derived address for the seeds, or `None` when no bump seed gives one.
#[verifier::external_body]
fn find_program_address(seeds: &Vec<Vec<u8>>, program_id: &Pubkey) -> (r: Option<Pubkey>)
    ensures
        r.is_some() == program_address(seeds.deep_view(), program_id@).is_some(),
        r matches Some(k) ==> program_address(seeds.deep_view(), program_id@) == Some(k@),
{
    let slices: Vec<&[u8]> = seeds.iter().map(|s| s.as_slice()).collect();
    let program = solana_program::pubkey::Pubkey::new_from_array(program_id.bytes);
    solana_program::pubkey::Pubkey::try_find_program_address(&slices, &program).map(
        |(k, _)| Pubkey { bytes: k.to_bytes() },
    )
}

/// Relies on spl_governance's `get_token_owner_record_address_seeds`: the
/// authority seed, then the realm, mint and owner.
#[verifier::external_body]
fn token_owner_record_seeds(
    realm: &Pubkey,
    governing_token_mint: &Pubkey,
    governing_token_owner: &Pubkey,
) -> (r: Vec<Vec<u8>>)
    ensures
        r.deep_view() == seq![
            program_authority_seed(),
            realm@,
            governing_token_mint@,
            governing_token_owner@,
        ],
{
    let realm = solana_program::pubkey::Pubkey::new_from_array(realm.bytes);
    let mint = solana_program::pubkey::Pubkey::new_from_array(governing_token_mint.bytes);
    let owner = solana_program::pubkey::Pubkey::new_from_array(governing_token_owner.bytes);
    spl_governance::state::token_owner_record::get_token_owner_record_address_seeds(&realm, &mint, &owner)
        .iter()
        .map(|s| s.to_vec())
        .collect()
}

/// Relies on spl_governance's `get_vote_record_address_seeds`: the authority
/// seed, then the proposal and the token owner record.
#[verifier::external_body]
fn vote_record_seeds(proposal: &Pubkey, token_owner_record: &Pubkey) -> (r: Vec<Vec<u8>>)
    ensures
        r.deep_view() == seq![program_authority_seed(), proposal@, token_owner_record@],
{
    let proposal = solana_program::pubkey::Pubkey::new_from_array(proposal.bytes);
    let record = solana_program::pubkey::Pubkey::new_from_array(token_owner_record.bytes);
    spl_governance::state::vote_record::get_vote_record_address_seeds(&proposal, &record)
        .iter()
        .map(|s| s.to_vec())
        .collect()
}

/// The address of a voter's vote record on a proposal: derived from the
/// proposal and the voter's token owner record, itself derived from the
/// realm, mint and owner.
pub open spec fn vote_record_address(
    program_id: Seq<u8>,
    realm: Seq<u8>,
    governing_token_mint: Seq<u8>,
    governing_token_owner: Seq<u8>,
    proposal: Seq<u8>,
) -> Option<Seq<u8>> {
    match program_address(
        seq![program_authority_seed(), realm, governing_token_mint, governing_token_owner],
        program_id,
    ) {
        Some(token_owner_record) => program_address(
            seq![program_authority_seed(), proposal, token_owner_record],
            program_id,
        ),
        None => None,
    }
}

/// The address of the governance program's vote record of a voter on a
/// proposal, or `None` where no bump seed gives one.
pub fn get_vote_record_address(
    program_id: &Pubkey,
    realm: &Pubkey,
    governing_token_mint: &Pubkey,
    governing_token_owner: &Pubkey,
    proposal: &Pubkey,
) -> (r: Option<Pubkey>)
    ensures
        r.is_some() == vote_record_address(
            program_id@,
            realm@,
            governing_token_mint@,
            governing_token_owner@,
            proposal@,
        ).is_some(),
        r matches Some(k) ==> vote_record_address(
            program_id@,
            realm@,
            governing_token_mint@,
            governing_token_owner@,
            proposal@,
        ) == Some(k@),
{
    let seeds = token_owner_record_seeds(realm, governing_token_mint, governing_token_owner);
    let token_owner_record_key = match find_program_address(&seeds, program_id) {
        Some(k) => k,
        None => return None,
    };
    let seeds = vote_record_seeds(proposal, &token_owner_record_key);
    find_program_address(&seeds, program_id)
}

/// A proposal in a phase vote has a single "Reject" option with one
/// transaction, voted on as a single choice.
pub open spec fn phase_option_shape(proposal: Proposal) -> bool {
    proposal.options@.len() == 1 && proposal.options@[0].transactions_count == 1
        && proposal.options@[0].label@ == "Reject"@ && proposal.vote_type == VoteType::SingleChoice
}

/// A phase transaction holds exactly one instruction, which calls the phase
/// protocol program with one of its operation markers.
pub open spec fn phase_transaction_shape(instructions: Seq<InstructionData>, phase_program_id: Seq<u8>) -> bool {
    instructions.len() == 1 && is_phase_vote_data(instructions[0].data@)
        && instructions[0].program_id@ == phase_program_id
}

/// Whether the proposal has the option layout of a phase vote.
pub fn is_phase_option(proposal: &Proposal) -> (r: bool)
    ensures
        r == phase_option_shape(*proposal),
{
    if proposal.options.len() != 1 {
        return false;
    }
    let option = &proposal.options[0];
    let reject = "Reject".to_string();
    if option.transactions_count != 1 || option.label != reject {
        return false;
    }
    match proposal.vote_type {
        VoteType::SingleChoice => true,
        VoteType::MultiChoice => false,
    }
}

/// Whether a proposal's transaction is a phase protocol operation.
pub fn is_phase_transaction(instructions: &Vec<InstructionData>, phase_program_id: &Pubkey) -> (r: bool)
    ensures
        r == phase_transaction_shape(instructions@, phase_program_id@),
{
    if instructions.len() != 1 {
        return false;
    }
    let instruction = &instructions[0];
    if !is_phase_vote_discriminator(&instruction.data) {
        return false;
    }
    instruction.program_id.same_as(phase_program_id)
}

/// The payload of the vote-cast instruction, if there is one.
pub open spec fn payload_of(cast_vote_ix: Option<&InstructionData>) -> Option<Seq<u8>> {
    match cast_vote_ix {
        Some(ix) => Some(ix.data@),
        None => None,
    }
}

/// What the phase gate decides when weight is committed: `Ok(true)` when the
/// weight is forced to zero, `Ok(false)` when it applies.
///
/// Only a vote cast in this transaction (its payload is `cast_vote_data`) on
/// a phase-vote proposal is gated: that needs the proposal's transaction, and
/// when it is a phase protocol operation, only the approve payload carries
/// weight.
pub open spec fn phase_gate(
    proposal: Proposal,
    proposal_transaction: Option<Vec<InstructionData>>,
    cast_vote_data: Option<Seq<u8>>,
    phase_program_id: Seq<u8>,
) -> Result<bool, NftVoterError> {
    match cast_vote_data {
        None => Ok(false),
        Some(data) => {
            if !phase_option_shape(proposal) {
                Ok(false)
            } else {
                match proposal_transaction {
                    None => Err(NftVoterError::MustIncludeProposalTransactionForPhaseVotes),
                    Some(instructions) => Ok(
                        phase_transaction_shape(instructions@, phase_program_id) && data
                            != APPROVE_VOTE_DATA@,
                    ),
                }
            }
        },
    }
}

/// The weight that results from adding `batch_weight` to `current` under the
/// gate's decision: zero when suppressed, else the exact sum when it fits in
/// 64 bits.
pub open spec fn gated_sum(gate: Result<bool, NftVoterError>, current: int, batch_weight: int) -> Result<
    u64,
    NftVoterError,
> {
    match gate {
        Err(e) => Err(e),
        Ok(suppressed) => {
            if suppressed {
                Ok(0u64)
            } else if current + batch_weight <= u64::MAX {
                Ok((current + batch_weight) as u64)
            } else {
                Err(NftVoterError::VoterWeightOverflow)
            }
        },
    }
}

/// Adds `voter_weight` to the record's weight, or sets the weight to zero
/// where the phase gate suppresses it. On an error the record is unchanged.
pub fn add_voter_weight(
    proposal: &Proposal,
    proposal_transaction: &Option<Vec<InstructionData>>,
    cast_vote_ix: Option<&InstructionData>,
    phase_program_id: &Pubkey,
    voter_weight: u64,
    voter_weight_record: &mut VoterWeightRecord,
) -> (r: Result<(), NftVoterError>)
    ensures
        match gated_sum(
            phase_gate(*proposal, *proposal_transaction, payload_of(cast_vote_ix), phase_program_id@),
            old(voter_weight_record).voter_weight as int,
            voter_weight as int,
        ) {
            Ok(w) => r is Ok && *final(voter_weight_record) == (VoterWeightRecord {
                voter_weight: w,
                ..*old(voter_weight_record)
            }),
            Err(e) => r == Err::<(), NftVoterError>(e) && *final(voter_weight_record) == *old(
                voter_weight_record,
            ),
        },
{
    if let Some(vote_ix) = cast_vote_ix {
        if is_phase_option(proposal) {
            match proposal_transaction {
                None => {
                    return Err(NftVoterError::MustIncludeProposalTransactionForPhaseVotes);
                },
                Some(instructions) => {
                    if is_phase_transaction(instructions, phase_program_id) && !is_approve_vote(
                        &vote_ix.data,
                    ) {
                        voter_weight_record.voter_weight = 0;
                        return Ok(());
                    }
                },
            }
        }
    }
    match voter_weight_record.voter_weight.checked_add(voter_weight) {
        Some(w) => {
            voter_weight_record.voter_weight = w;
            Ok(())
        },
        None => Err(NftVoterError::VoterWeightOverflow),
    }
}

} // verus!
