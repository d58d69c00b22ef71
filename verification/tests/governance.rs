use price_oracle::{
    apply_proposal_action, vec_contains_address, Address, AddressList, BatchPriceEntry, Effect,
    MerkleProof, OracleEnv, OracleError, PriceOracleContract, ProposalAction, SourceReputation,
};

const CONTRACT: Address = Address { kind: 1, hi: 7, lo: 7 };
const ADMIN: Address = Address { kind: 0, hi: 1, lo: 1 };
const ANN: Address = Address { kind: 0, hi: 2, lo: u128::MAX };
const BOB: Address = Address { kind: 0, hi: 2, lo: 0 };
const CID: Address = Address { kind: 1, hi: 2, lo: 0 };
const EVE: Address = Address { kind: 1, hi: 9, lo: 9 };

fn governed(signers: Vec<Address>, threshold: u32) -> OracleEnv {
    let mut env = OracleEnv::new(soroban_sdk::Env::default(), CONTRACT);
    assert_eq!(PriceOracleContract::initialize(&mut env, ADMIN), Ok(()));
    env.begin(500, vec![ADMIN, ANN, BOB, CID, EVE]);
    assert_eq!(
        PriceOracleContract::init_multisig(&mut env, ADMIN, signers, threshold),
        Ok(())
    );
    env
}

fn signers(env: &OracleEnv) -> Vec<Address> {
    PriceOracleContract::get_multisig_config(env).unwrap().signers.to_addresses()
}

/// Puts `action` up and carries it out, in a contract where one signer is enough.
fn decide(env: &mut OracleEnv, action: ProposalAction) {
    let id = PriceOracleContract::create_proposal(env, ANN, action).unwrap();
    assert_eq!(PriceOracleContract::execute_proposal(env, ANN, id), Ok(()));
}

fn submit(env: &mut OracleEnv, source: Address, price: i128) -> Result<i128, OracleError> {
    PriceOracleContract::submit_price(
        env,
        source,
        "BTC".to_string(),
        price,
        0,
        0,
        |price: i128, previous: i128, _: u32| price != previous,
        |_: &OracleEnv, _: &Address, _: i128, _: &String, _: u64| SourceReputation {
            record: vec![1],
        },
    )
    .map(|p| p.price)
}

#[test]
fn threshold_is_between_one_and_the_number_of_signers() {
    let mut env = governed(vec![ANN], 1);
    let bad = Err(OracleError::InvalidThreshold);
    assert_eq!(PriceOracleContract::init_multisig(&mut env, ADMIN, vec![ANN, BOB], 0), bad);
    assert_eq!(PriceOracleContract::init_multisig(&mut env, ADMIN, vec![ANN, BOB], 3), bad);
    assert_eq!(PriceOracleContract::init_multisig(&mut env, ADMIN, vec![], 1), bad);
    assert_eq!(signers(&env), vec![ANN]);
    assert_eq!(
        PriceOracleContract::init_multisig(&mut env, ADMIN, vec![BOB, ANN], 2),
        Ok(())
    );
    assert_eq!(signers(&env), vec![BOB, ANN]);
    assert_eq!(PriceOracleContract::get_multisig_config(&env).unwrap().threshold, 2);
}

#[test]
fn without_signers_there_is_no_governance() {
    let mut env = OracleEnv::new(soroban_sdk::Env::default(), CONTRACT);
    env.begin(0, vec![ANN]);
    assert!(PriceOracleContract::get_multisig_config(&env).is_none());
    let none = OracleError::MultiSigNotInitialized;
    assert_eq!(
        PriceOracleContract::create_proposal(&mut env, ANN, ProposalAction::Pause),
        Err(none)
    );
    assert_eq!(PriceOracleContract::approve_proposal(&mut env, ANN, 0), Err(none));
    assert_eq!(PriceOracleContract::execute_proposal(&mut env, ANN, 0), Err(none));
}

#[test]
fn only_signers_decide() {
    let mut env = governed(vec![ANN], 1);
    let no = OracleError::NotASigner;
    assert_eq!(
        PriceOracleContract::create_proposal(&mut env, EVE, ProposalAction::Pause),
        Err(no)
    );
    assert_eq!(
        PriceOracleContract::create_proposal(&mut env, ANN, ProposalAction::Pause),
        Ok(0)
    );
    assert_eq!(PriceOracleContract::approve_proposal(&mut env, EVE, 0), Err(no));
    assert_eq!(PriceOracleContract::execute_proposal(&mut env, EVE, 0), Err(no));
}

#[test]
fn new_proposal_is_approved_by_its_proposer() {
    let mut env = governed(vec![ANN, BOB], 2);
    let action = ProposalAction::AddSource(CID, "c".to_string());
    assert_eq!(PriceOracleContract::create_proposal(&mut env, BOB, action.clone()), Ok(0));
    assert_eq!(
        PriceOracleContract::create_proposal(&mut env, ANN, ProposalAction::Other),
        Ok(1)
    );
    let proposal = PriceOracleContract::get_proposal(&env, 0).unwrap();
    assert_eq!(proposal.id, 0);
    assert_eq!(proposal.action, action);
    assert_eq!(proposal.approvals.to_addresses(), vec![BOB]);
    assert_eq!(proposal.executed, 0);
    assert_eq!(proposal.created_at, 500);
    assert_eq!(proposal.proposer, BOB);
    assert!(PriceOracleContract::get_proposal(&env, 2).is_none());
}

#[test]
fn proposal_needs_its_approvals() {
    let mut env = governed(vec![ANN, BOB, CID], 2);
    PriceOracleContract::create_proposal(&mut env, ANN, ProposalAction::Pause).unwrap();
    assert_eq!(
        PriceOracleContract::execute_proposal(&mut env, ANN, 0),
        Err(OracleError::ThresholdNotMet)
    );
    assert!(!PriceOracleContract::is_paused(&env));
    assert_eq!(PriceOracleContract::approve_proposal(&mut env, BOB, 0), Ok(()));
    assert_eq!(PriceOracleContract::execute_proposal(&mut env, CID, 0), Ok(()));
    assert!(PriceOracleContract::is_paused(&env));
    let proposal = PriceOracleContract::get_proposal(&env, 0).unwrap();
    assert_eq!(proposal.executed, 1);
    assert_eq!(proposal.approvals.to_addresses(), vec![ANN, BOB]);
    assert_eq!(
        env.effects,
        vec![Effect::GovernanceExecuted { signer: CID, proposal_id: 0 }]
    );
}

#[test]
fn signer_approves_once() {
    let mut env = governed(vec![ANN, BOB], 2);
    PriceOracleContract::create_proposal(&mut env, ANN, ProposalAction::Pause).unwrap();
    let again = Err(OracleError::AlreadyApproved);
    assert_eq!(PriceOracleContract::approve_proposal(&mut env, ANN, 0), again);
    assert_eq!(PriceOracleContract::approve_proposal(&mut env, BOB, 0), Ok(()));
    assert_eq!(PriceOracleContract::approve_proposal(&mut env, BOB, 0), again);
}

#[test]
fn proposal_is_executed_once() {
    let mut env = governed(vec![ANN, BOB], 1);
    PriceOracleContract::create_proposal(&mut env, ANN, ProposalAction::Pause).unwrap();
    assert_eq!(PriceOracleContract::execute_proposal(&mut env, ANN, 0), Ok(()));
    decide(&mut env, ProposalAction::Unpause);
    let done = Err(OracleError::ProposalAlreadyExecuted);
    assert_eq!(PriceOracleContract::execute_proposal(&mut env, BOB, 0), done);
    assert_eq!(PriceOracleContract::approve_proposal(&mut env, BOB, 0), done);
    assert!(!PriceOracleContract::is_paused(&env));
}

#[test]
fn unknown_proposal_is_refused() {
    let mut env = governed(vec![ANN], 1);
    let none = Err(OracleError::ProposalNotFound);
    assert_eq!(PriceOracleContract::approve_proposal(&mut env, ANN, 5), none);
    assert_eq!(PriceOracleContract::execute_proposal(&mut env, ANN, 5), none);
}

#[test]
fn pause_stops_submissions_and_leaves_queries() {
    let mut env = governed(vec![ANN], 1);
    decide(&mut env, ProposalAction::AddSource(BOB, "b".to_string()));
    assert_eq!(submit(&mut env, BOB, 10), Ok(10));
    assert_eq!(PriceOracleContract::submit_batch(&mut env, BOB, 0, vec![0; 32]), Ok(1));
    decide(&mut env, ProposalAction::Pause);
    assert_eq!(submit(&mut env, BOB, 11), Err(OracleError::ContractPaused));
    assert_eq!(submit(&mut env, EVE, -1), Err(OracleError::ContractPaused));
    assert_eq!(
        PriceOracleContract::submit_batch(&mut env, BOB, 1, vec![0; 32]),
        Err(OracleError::ContractPaused)
    );
    let price = PriceOracleContract::get_price(&env, "BTC".to_string()).unwrap();
    assert_eq!(price.price, 10);
    let entry = BatchPriceEntry {
        asset: "BTC".to_string(),
        price: 12,
        decimals: 0,
        timestamp: 0,
        source: BOB,
    };
    let path = MerkleProof { leaf_index: 0, siblings: vec![] };
    let yes = |_: &BatchPriceEntry, _: u32, _: &Vec<Vec<u8>>, _: &Vec<u8>| true;
    assert!(PriceOracleContract::apply_batch_entry(&mut env, 0, entry, path, yes).is_ok());
    decide(&mut env, ProposalAction::Unpause);
    assert_eq!(submit(&mut env, BOB, 11), Ok(11));
}

#[test]
fn decisions_change_what_they_name() {
    let mut env = governed(vec![ANN], 1);
    decide(&mut env, ProposalAction::AddSource(BOB, "b".to_string()));
    assert_eq!(env.storage.get_source_name(&BOB), Some("b".to_string()));
    assert_eq!(submit(&mut env, BOB, 10), Ok(10));
    decide(&mut env, ProposalAction::SetTrustedAsset("BTC".to_string(), true));
    assert!(env.storage.is_trusted_asset(&"BTC".to_string()));
    decide(&mut env, ProposalAction::SetDeviationThreshold(25));
    assert_eq!(PriceOracleContract::get_deviation_threshold(&env), Some(25));
    assert_eq!(submit(&mut env, BOB, 11), Err(OracleError::PriceDeviationTooLarge));
    decide(&mut env, ProposalAction::ResetReputation(BOB));
    assert!(env.storage.get_source_reputation(&BOB).is_none());
    decide(&mut env, ProposalAction::RemoveSource(BOB));
    assert_eq!(submit(&mut env, BOB, 10), Err(OracleError::UnauthorizedSource));
    decide(&mut env, ProposalAction::TransferAdmin(CID));
    assert_eq!(
        PriceOracleContract::set_deviation_threshold(&mut env, ADMIN, 1),
        Err(OracleError::Unauthorized)
    );
    assert_eq!(PriceOracleContract::set_deviation_threshold(&mut env, CID, 1), Ok(()));
    decide(&mut env, ProposalAction::SetThreshold(9));
    assert_eq!(PriceOracleContract::get_multisig_config(&env).unwrap().threshold, 9);
}

#[test]
fn decision_without_an_effect_is_only_recorded() {
    let mut env = governed(vec![ANN], 1);
    decide(&mut env, ProposalAction::Other);
    assert_eq!(PriceOracleContract::get_proposal(&env, 0).unwrap().executed, 1);
    assert_eq!(signers(&env), vec![ANN]);
    assert!(!PriceOracleContract::is_paused(&env));
}

#[test]
fn signers_are_added_once_and_taken_off() {
    let mut env = governed(vec![ANN, BOB, ANN], 1);
    decide(&mut env, ProposalAction::AddSigner(CID));
    assert_eq!(signers(&env), vec![ANN, BOB, ANN, CID]);
    decide(&mut env, ProposalAction::AddSigner(CID));
    assert_eq!(signers(&env), vec![ANN, BOB, ANN, CID]);
    decide(&mut env, ProposalAction::RemoveSigner(CID));
    assert_eq!(signers(&env), vec![ANN, BOB, ANN]);
    decide(&mut env, ProposalAction::RemoveSigner(ANN));
    assert_eq!(signers(&env), vec![BOB]);
    assert_eq!(
        PriceOracleContract::create_proposal(&mut env, ANN, ProposalAction::Pause),
        Err(OracleError::NotASigner)
    );
}

#[test]
fn action_on_signers_without_a_configuration_changes_nothing() {
    let mut env = OracleEnv::new(soroban_sdk::Env::default(), CONTRACT);
    for action in [
        ProposalAction::AddSigner(ANN),
        ProposalAction::RemoveSigner(ANN),
        ProposalAction::SetThreshold(1),
    ] {
        assert_eq!(apply_proposal_action(&mut env, &action), Ok(()));
    }
    assert!(PriceOracleContract::get_multisig_config(&env).is_none());
}

#[test]
fn address_lists_keep_what_is_put_in() {
    let host = soroban_sdk::Env::default();
    let all = vec![ANN, BOB, CID, EVE, ANN];
    let list = AddressList::from_addresses(&host, &all);
    assert_eq!(list.len(), 5);
    assert_eq!(list.get(3), Some(EVE));
    assert_eq!(list.get(5), None);
    assert_eq!(list.to_addresses(), all);
    assert!(vec_contains_address(&list, &CID));
    assert!(!vec_contains_address(&list, &ADMIN));
    let longer = list.clone().push_back(ADMIN);
    assert_eq!(longer.len(), 6);
    assert!(vec_contains_address(&longer, &ADMIN));
    assert_eq!(list.len(), 5);
    assert_eq!(list.without(&host, &ANN).to_addresses(), vec![BOB, CID, EVE]);
    assert_eq!(AddressList::new(&host).to_addresses(), vec![]);
}
