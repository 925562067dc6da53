use nft_voter::cast_nft_vote::{cast_nft_vote, inspect_companion_instruction, tally_batch, CastNftVote, ResolvedNft};
use nft_voter::error::NftVoterError;
use nft_voter::governance::{
    add_voter_weight, InstructionData, Proposal, ProposalOption, VoteType,
};
use nft_voter::phase_protocol::{APPROVE_VOTE_DATA, REVERT_STAGED_APPROVE_PHASE_DATA};
use nft_voter::pubkey::Pubkey;
use nft_voter::state::{NftVoteLedger, Registrar, VoterWeightAction, VoterWeightRecord};

fn key(n: u8) -> Pubkey {
    Pubkey::new_from_array([n; 32])
}

const REALM: u8 = 1;
const MINT: u8 = 2;
const OWNER: u8 = 3;
const PHASE: u8 = 8;
const GOVERNANCE: u8 = 9;
const PROPOSAL: u8 = 20;
const OTHER_PROPOSAL: u8 = 21;

fn record(target: Option<u8>, weight: u64) -> VoterWeightRecord {
    VoterWeightRecord {
        realm: key(REALM),
        governing_token_mint: key(MINT),
        governing_token_owner: key(OWNER),
        voter_weight: weight,
        voter_weight_expiry: Some(7),
        weight_action: target.map(|_| VoterWeightAction::CastVote),
        weight_action_target: target.map(key),
    }
}

fn plain_proposal() -> Proposal {
    Proposal {
        options: vec![
            ProposalOption { label: "Yes".to_string(), transactions_count: 1 },
            ProposalOption { label: "Reject".to_string(), transactions_count: 0 },
        ],
        vote_type: VoteType::SingleChoice,
    }
}

fn phase_proposal() -> Proposal {
    Proposal {
        options: vec![ProposalOption { label: "Reject".to_string(), transactions_count: 1 }],
        vote_type: VoteType::SingleChoice,
    }
}

fn phase_transaction() -> Vec<InstructionData> {
    let mut data = REVERT_STAGED_APPROVE_PHASE_DATA.to_vec();
    data.extend_from_slice(&[1, 2, 3]);
    vec![InstructionData { program_id: key(PHASE), data }]
}

fn vote_ix(data: &[u8]) -> InstructionData {
    InstructionData { program_id: key(GOVERNANCE), data: data.to_vec() }
}

fn nfts(items: &[(u64, u8)]) -> Vec<ResolvedNft> {
    items.iter().map(|&(weight, mint)| ResolvedNft { weight, mint: key(mint) }).collect()
}

fn ctx(proposal: u8, batch: &[(u64, u8)], following: Vec<InstructionData>) -> CastNftVote {
    CastNftVote {
        registrar: Registrar { realm: key(REALM), governing_token_mint: key(MINT) },
        governing_token_owner: key(OWNER),
        proposal: key(proposal),
        proposal_data: plain_proposal(),
        proposal_transaction: None,
        following_instructions: following,
        governance_program_id: key(GOVERNANCE),
        phase_program_id: key(PHASE),
        nfts: nfts(batch),
        slot: 1000,
    }
}

fn phase_ctx(batch: &[(u64, u8)], vote_data: &[u8]) -> CastNftVote {
    let mut c = ctx(PROPOSAL, batch, vec![vote_ix(vote_data)]);
    c.proposal_data = phase_proposal();
    c.proposal_transaction = Some(phase_transaction());
    c
}

fn same_record(a: &VoterWeightRecord, b: &VoterWeightRecord) -> bool {
    a.realm == b.realm
        && a.governing_token_mint == b.governing_token_mint
        && a.governing_token_owner == b.governing_token_owner
        && a.voter_weight == b.voter_weight
        && a.voter_weight_expiry == b.voter_weight_expiry
        && a.weight_action == b.weight_action
        && a.weight_action_target == b.weight_action_target
}

#[test]
fn valid_batch_writes_one_record_per_nft() {
    let mut rec = record(None, 0);
    let mut ledger = NftVoteLedger::new();
    let c = ctx(PROPOSAL, &[(10, 100), (20, 101), (30, 102)], vec![]);
    assert_eq!(cast_nft_vote(&c, &mut rec, &mut ledger), Ok(()));
    assert_eq!(rec.voter_weight, 60);
    assert_eq!(ledger.len(), 3);
    for (i, mint) in [100u8, 101, 102].iter().enumerate() {
        let r = ledger.get(i);
        assert!(r.proposal == key(PROPOSAL));
        assert!(r.nft_mint == key(*mint));
        assert!(r.governing_token_owner == key(OWNER));
        assert!(ledger.is_claimed(&key(PROPOSAL), &key(*mint)));
    }
}

#[test]
fn valid_batch_adds_to_weight_of_same_vote() {
    let mut rec = record(Some(PROPOSAL), 5);
    let mut ledger = NftVoteLedger::new();
    let c = ctx(PROPOSAL, &[(10, 100), (20, 101)], vec![]);
    assert_eq!(cast_nft_vote(&c, &mut rec, &mut ledger), Ok(()));
    assert_eq!(rec.voter_weight, 35);
}

#[test]
fn empty_batch_keeps_weight_of_same_vote() {
    let mut rec = record(Some(PROPOSAL), 5);
    let mut ledger = NftVoteLedger::new();
    let c = ctx(PROPOSAL, &[], vec![]);
    assert_eq!(cast_nft_vote(&c, &mut rec, &mut ledger), Ok(()));
    assert_eq!(rec.voter_weight, 5);
    assert_eq!(ledger.len(), 0);
}

#[test]
fn resubmitted_nft_in_later_invocation_fails() {
    let mut rec = record(None, 0);
    let mut ledger = NftVoteLedger::new();
    let first = ctx(PROPOSAL, &[(10, 100), (20, 101)], vec![]);
    assert_eq!(cast_nft_vote(&first, &mut rec, &mut ledger), Ok(()));
    let before = rec;
    let later = ctx(PROPOSAL, &[(5, 102), (20, 101)], vec![]);
    assert_eq!(cast_nft_vote(&later, &mut rec, &mut ledger), Err(NftVoterError::NftAlreadyVoted));
    assert!(same_record(&rec, &before));
    assert_eq!(ledger.len(), 2);
    assert!(!ledger.is_claimed(&key(PROPOSAL), &key(102)));
}

#[test]
fn same_nft_may_vote_on_another_proposal() {
    let mut rec = record(None, 0);
    let mut ledger = NftVoteLedger::new();
    assert_eq!(cast_nft_vote(&ctx(PROPOSAL, &[(10, 100)], vec![]), &mut rec, &mut ledger), Ok(()));
    assert_eq!(cast_nft_vote(&ctx(OTHER_PROPOSAL, &[(10, 100)], vec![]), &mut rec, &mut ledger), Ok(()));
    assert_eq!(rec.voter_weight, 10);
    assert_eq!(ledger.len(), 2);
}

#[test]
fn duplicate_mint_in_batch_fails_before_any_record() {
    let mut rec = record(Some(PROPOSAL), 4);
    let before = rec;
    let mut ledger = NftVoteLedger::new();
    let c = ctx(PROPOSAL, &[(10, 100), (20, 101), (10, 100)], vec![]);
    assert_eq!(cast_nft_vote(&c, &mut rec, &mut ledger), Err(NftVoterError::DuplicatedNftDetected));
    assert_eq!(ledger.len(), 0);
    assert!(same_record(&rec, &before));
}

#[test]
fn weight_accumulates_across_invocations() {
    let mut rec = record(Some(OTHER_PROPOSAL), 999);
    let mut ledger = NftVoteLedger::new();
    assert_eq!(cast_nft_vote(&ctx(PROPOSAL, &[(1, 100), (2, 101)], vec![]), &mut rec, &mut ledger), Ok(()));
    assert_eq!(cast_nft_vote(&ctx(PROPOSAL, &[(4, 102)], vec![]), &mut rec, &mut ledger), Ok(()));
    let last = ctx(PROPOSAL, &[(8, 103), (16, 104)], vec![vote_ix(&[13, 0, 0, 0, 0, 0, 0, 100])]);
    assert_eq!(cast_nft_vote(&last, &mut rec, &mut ledger), Ok(()));
    assert_eq!(rec.voter_weight, 31);
    assert_eq!(ledger.len(), 5);
}

#[test]
fn phase_vote_other_option_weighs_nothing() {
    let mut rec = record(Some(PROPOSAL), 100);
    let mut ledger = NftVoteLedger::new();
    let c = phase_ctx(&[(10, 100), (20, 101)], &[13, 0, 0, 0, 0, 0, 0, 100]);
    assert_eq!(cast_nft_vote(&c, &mut rec, &mut ledger), Ok(()));
    assert_eq!(rec.voter_weight, 0);
    assert_eq!(ledger.len(), 2);
}

#[test]
fn phase_vote_longer_payload_weighs_nothing() {
    let mut rec = record(None, 0);
    let mut ledger = NftVoteLedger::new();
    let c = phase_ctx(&[(10, 100)], &[13, 0, 1, 0, 0, 0, 0, 100, 0]);
    assert_eq!(cast_nft_vote(&c, &mut rec, &mut ledger), Ok(()));
    assert_eq!(rec.voter_weight, 0);
}

#[test]
fn phase_vote_approve_counts() {
    let mut rec = record(Some(PROPOSAL), 100);
    let mut ledger = NftVoteLedger::new();
    let c = phase_ctx(&[(10, 100), (20, 101)], &APPROVE_VOTE_DATA);
    assert_eq!(cast_nft_vote(&c, &mut rec, &mut ledger), Ok(()));
    assert_eq!(rec.voter_weight, 130);
}

#[test]
fn phase_proposal_without_vote_cast_accumulates() {
    let mut rec = record(Some(PROPOSAL), 100);
    let mut ledger = NftVoteLedger::new();
    let mut c = phase_ctx(&[(10, 100)], &[0]);
    c.following_instructions = vec![];
    assert_eq!(cast_nft_vote(&c, &mut rec, &mut ledger), Ok(()));
    assert_eq!(rec.voter_weight, 110);
}

#[test]
fn phase_vote_without_transaction_fails() {
    let mut rec = record(None, 0);
    let mut ledger = NftVoteLedger::new();
    let mut c = phase_ctx(&[(10, 100)], &APPROVE_VOTE_DATA);
    c.proposal_transaction = None;
    assert_eq!(
        cast_nft_vote(&c, &mut rec, &mut ledger),
        Err(NftVoterError::MustIncludeProposalTransactionForPhaseVotes)
    );
    assert_eq!(ledger.len(), 0);
    assert_eq!(rec.voter_weight, 0);
    assert_eq!(rec.weight_action, None);
}

#[test]
fn non_phase_transaction_is_not_gated() {
    let mut rec = record(None, 0);
    let mut ledger = NftVoteLedger::new();
    let mut c = phase_ctx(&[(10, 100)], &[1, 2, 3]);
    c.proposal_transaction = Some(vec![InstructionData { program_id: key(PHASE), data: vec![1, 2, 3, 4, 5, 6, 7, 8] }]);
    assert_eq!(cast_nft_vote(&c, &mut rec, &mut ledger), Ok(()));
    assert_eq!(rec.voter_weight, 10);
}

#[test]
fn new_proposal_resets_weight() {
    let mut rec = record(Some(OTHER_PROPOSAL), 500);
    let mut ledger = NftVoteLedger::new();
    assert_eq!(cast_nft_vote(&ctx(PROPOSAL, &[(7, 100)], vec![]), &mut rec, &mut ledger), Ok(()));
    assert_eq!(rec.voter_weight, 7);
}

#[test]
fn other_action_resets_weight() {
    let mut rec = record(Some(PROPOSAL), 500);
    rec.weight_action = Some(VoterWeightAction::CreateProposal);
    let mut ledger = NftVoteLedger::new();
    assert_eq!(cast_nft_vote(&ctx(PROPOSAL, &[(7, 100)], vec![]), &mut rec, &mut ledger), Ok(()));
    assert_eq!(rec.voter_weight, 7);
}

#[test]
fn success_stamps_record() {
    let mut rec = record(Some(OTHER_PROPOSAL), 3);
    let mut ledger = NftVoteLedger::new();
    assert_eq!(cast_nft_vote(&ctx(PROPOSAL, &[(7, 100)], vec![]), &mut rec, &mut ledger), Ok(()));
    assert_eq!(rec.weight_action, Some(VoterWeightAction::CastVote));
    assert!(rec.weight_action_target == Some(key(PROPOSAL)));
    assert_eq!(rec.voter_weight_expiry, Some(1000));
    assert!(rec.realm == key(REALM));
    assert!(rec.governing_token_mint == key(MINT));
    assert!(rec.governing_token_owner == key(OWNER));
}

#[test]
fn batch_weight_overflow_fails() {
    let mut rec = record(None, 0);
    let before = rec;
    let mut ledger = NftVoteLedger::new();
    let half = u64::MAX / 2 + 1;
    let c = ctx(PROPOSAL, &[(half, 100), (half, 101)], vec![]);
    assert_eq!(cast_nft_vote(&c, &mut rec, &mut ledger), Err(NftVoterError::VoterWeightOverflow));
    assert_eq!(ledger.len(), 0);
    assert!(same_record(&rec, &before));
}

#[test]
fn accumulated_weight_overflow_fails() {
    let mut rec = record(Some(PROPOSAL), u64::MAX);
    let mut ledger = NftVoteLedger::new();
    let c = ctx(PROPOSAL, &[(1, 100)], vec![]);
    assert_eq!(cast_nft_vote(&c, &mut rec, &mut ledger), Err(NftVoterError::VoterWeightOverflow));
    assert_eq!(rec.voter_weight, u64::MAX);
    assert_eq!(ledger.len(), 0);
}

#[test]
fn largest_weight_fits() {
    let mut rec = record(Some(PROPOSAL), u64::MAX - 1);
    let mut ledger = NftVoteLedger::new();
    assert_eq!(cast_nft_vote(&ctx(PROPOSAL, &[(1, 100)], vec![]), &mut rec, &mut ledger), Ok(()));
    assert_eq!(rec.voter_weight, u64::MAX);
}

#[test]
fn wrong_realm_fails() {
    let mut rec = record(None, 0);
    rec.realm = key(40);
    let mut ledger = NftVoteLedger::new();
    let c = ctx(PROPOSAL, &[(1, 100)], vec![]);
    assert_eq!(cast_nft_vote(&c, &mut rec, &mut ledger), Err(NftVoterError::InvalidVoterWeightRecordRealm));
}

#[test]
fn wrong_mint_fails() {
    let mut rec = record(None, 0);
    rec.governing_token_mint = key(40);
    let mut ledger = NftVoteLedger::new();
    let c = ctx(PROPOSAL, &[(1, 100)], vec![]);
    assert_eq!(cast_nft_vote(&c, &mut rec, &mut ledger), Err(NftVoterError::InvalidVoterWeightRecordMint));
}

#[test]
fn wrong_owner_fails() {
    let mut rec = record(None, 0);
    let mut ledger = NftVoteLedger::new();
    let mut c = ctx(PROPOSAL, &[(1, 100)], vec![]);
    c.governing_token_owner = key(40);
    assert_eq!(
        cast_nft_vote(&c, &mut rec, &mut ledger),
        Err(NftVoterError::InvalidTokenOwnerForVoterWeightRecord)
    );
}

#[test]
fn instruction_after_vote_cast_fails() {
    let mut rec = record(None, 0);
    let mut ledger = NftVoteLedger::new();
    let c = ctx(PROPOSAL, &[(1, 100)], vec![vote_ix(&APPROVE_VOTE_DATA), vote_ix(&[1])]);
    assert_eq!(cast_nft_vote(&c, &mut rec, &mut ledger), Err(NftVoterError::InstructionAfterCastVote));
    assert_eq!(ledger.len(), 0);
}

#[test]
fn vote_cast_to_other_program_fails() {
    let mut rec = record(None, 0);
    let mut ledger = NftVoteLedger::new();
    let foreign = InstructionData { program_id: key(41), data: APPROVE_VOTE_DATA.to_vec() };
    let c = ctx(PROPOSAL, &[(1, 100)], vec![foreign]);
    assert_eq!(cast_nft_vote(&c, &mut rec, &mut ledger), Err(NftVoterError::InvalidCastVoteProgram));
}

#[test]
fn companion_instruction_is_found() {
    let none: Vec<InstructionData> = vec![];
    assert!(matches!(inspect_companion_instruction(&none, &key(GOVERNANCE)), Ok(None)));
    let one = vec![vote_ix(&[5, 6])];
    match inspect_companion_instruction(&one, &key(GOVERNANCE)) {
        Ok(Some(ix)) => assert_eq!(ix.data, vec![5, 6]),
        _ => panic!("expected the vote-cast instruction"),
    }
}

#[test]
fn tally_sums_weights() {
    let ledger = NftVoteLedger::new();
    assert_eq!(tally_batch(&ledger, &key(PROPOSAL), &nfts(&[(3, 100), (4, 101)])), Ok(7));
    assert_eq!(tally_batch(&ledger, &key(PROPOSAL), &nfts(&[])), Ok(0));
}

#[test]
fn add_voter_weight_overflow_leaves_record() {
    let mut rec = record(Some(PROPOSAL), u64::MAX - 2);
    let r = add_voter_weight(&plain_proposal(), &None, None, &key(PHASE), 3, &mut rec);
    assert_eq!(r, Err(NftVoterError::VoterWeightOverflow));
    assert_eq!(rec.voter_weight, u64::MAX - 2);
}

#[test]
fn add_voter_weight_suppresses_in_phase_vote() {
    let mut rec = record(Some(PROPOSAL), 50);
    let ix = vote_ix(&[13, 0, 2, 0, 0, 0, 0, 100]);
    let r = add_voter_weight(&phase_proposal(), &Some(phase_transaction()), Some(&ix), &key(PHASE), 3, &mut rec);
    assert_eq!(r, Ok(()));
    assert_eq!(rec.voter_weight, 0);
}
