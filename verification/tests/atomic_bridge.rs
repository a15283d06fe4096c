use grant_stream::atomic_bridge::{
    AtomicBridge, BatchInitResult, BridgeDataKey, BridgeError, BridgeStatus, GranteeConfig,
};
use grant_stream::grant::Error as GrantError;

/// A grant contract that opens every grant of the batch, numbering them
/// from `start`.
fn opens_all(_contract: u64, configs: &Vec<GranteeConfig>, start: u64) -> Result<BatchInitResult, GrantError> {
    let ids: Vec<u64> = (0..configs.len() as u64).map(|i| start + i).collect();
    Ok(BatchInitResult {
        grants_created: ids.len() as u32,
        successful_grants: ids,
        failed_grants: vec![],
        total_deposited: configs.iter().map(|c| c.total_amount).sum(),
    })
}

/// A grant contract that refuses the batch.
fn refuses(_contract: u64, _configs: &Vec<GranteeConfig>, _start: u64) -> Result<BatchInitResult, GrantError> {
    Err(GrantError::InvalidAmount)
}

fn grantee_config(recipient: u64, asset: u64) -> GranteeConfig {
    GranteeConfig {
        recipient,
        total_amount: 100000,
        flow_rate: 1000,
        asset,
        warmup_duration: 0,
        validator: None,
    }
}

#[test]
fn test_atomic_bridge_initialization() {
    let mut bridge = AtomicBridge::new();
    let admin = 1;
    let governance_contract = 2;
    let grant_contract = 3;
    let authorized_callers = vec![admin];

    // Test successful initialization
    let result = bridge.initialize(
        governance_contract,
        grant_contract,
        10, // max_grants_per_proposal
        1000000, // max_total_amount
        authorized_callers.clone(),
    );
    assert_eq!(result, Ok(()));

    // Test duplicate initialization
    let result = bridge.initialize(governance_contract, grant_contract, 10, 1000000, authorized_callers);
    assert_eq!(result, Err(BridgeError::AlreadyInitialized));
}

#[test]
fn test_atomic_bridge_configuration() {
    let mut bridge = AtomicBridge::new();
    let admin = 1;
    let governance_contract = 2;
    let grant_contract = 3;
    let authorized_callers = vec![admin];

    // Initialize
    bridge.initialize(governance_contract, grant_contract, 10, 1000000, authorized_callers).unwrap();

    // Test getting config
    let config = bridge.get_config().unwrap();
    assert_eq!(config.status, BridgeStatus::Active);
    assert_eq!(config.max_grants_per_proposal, 10);
    assert_eq!(config.max_total_amount, 1000000);

    // Test pause/resume
    bridge.pause_bridge(admin).unwrap();
    let paused_config = bridge.get_config().unwrap();
    assert_eq!(paused_config.status, BridgeStatus::Paused);

    bridge.resume_bridge(admin).unwrap();
    let resumed_config = bridge.get_config().unwrap();
    assert_eq!(resumed_config.status, BridgeStatus::Active);
}

#[test]
fn test_error_conditions() {
    let mut bridge = AtomicBridge::new();
    let admin = 1;
    let unauthorized = 9;
    let governance_contract = 2;
    let grant_contract = 3;
    let authorized_callers = vec![admin];

    // Test initialization with invalid parameters
    let result = bridge.initialize(
        governance_contract,
        grant_contract,
        0, // invalid max_grants_per_proposal
        1000000,
        authorized_callers.clone(),
    );
    assert_eq!(result, Err(BridgeError::InvalidConfig));

    // Initialize properly
    bridge.initialize(governance_contract, grant_contract, 10, 1000000, authorized_callers).unwrap();

    // Test unauthorized access
    let result = bridge.execute_atomic_grants(unauthorized, 1, vec![], 100000, 0, opens_all);
    assert_eq!(result, Err(BridgeError::NotAuthorized));

    // Test execution when paused
    bridge.pause_bridge(admin).unwrap();
    let result = bridge.execute_atomic_grants(admin, 1, vec![], 100000, 0, opens_all);
    assert_eq!(result, Err(BridgeError::BridgePaused));
}

#[test]
fn test_authorized_caller_management() {
    let mut bridge = AtomicBridge::new();
    let admin = 1;
    let new_caller = 4;
    let governance_contract = 2;
    let grant_contract = 3;

    // Initialize
    bridge.initialize(governance_contract, grant_contract, 10, 1000000, vec![admin]).unwrap();

    // Add authorized caller
    bridge.add_authorized_caller(admin, new_caller).unwrap();

    // Check that new caller is authorized
    let callers = bridge.get_authorized_callers().unwrap();
    assert!(callers.iter().any(|addr| *addr == new_caller));

    // Remove authorized caller
    bridge.remove_authorized_caller(admin, new_caller).unwrap();

    // Check that caller is removed
    let callers = bridge.get_authorized_callers().unwrap();
    assert!(!callers.iter().any(|addr| *addr == new_caller));
}

#[test]
fn test_payload_and_execution_tracking() {
    let mut bridge = AtomicBridge::new();
    let admin = 1;
    let recipient = 5;
    let asset = 6;

    // Initialize
    bridge.initialize(2, 3, 10, 1000000, vec![admin]).unwrap();

    // Execute atomic grants
    let grant_configs = vec![grantee_config(recipient, asset)];
    let _ = bridge.execute_atomic_grants(admin, 1, grant_configs, 100000, 0, opens_all);

    // Check payload was stored
    let payload = bridge.get_payload(1);
    assert!(payload.is_ok());

    // Check execution log was created
    let execution_log = bridge.get_execution_log(1);
    assert!(execution_log.is_ok());
}

#[test]
fn uninitialized_bridge_refuses_everything() {
    let mut bridge = AtomicBridge::new();
    assert_eq!(bridge.get_config().err(), Some(BridgeError::NotInitialized));
    assert_eq!(bridge.get_authorized_callers().err(), Some(BridgeError::NotInitialized));
    assert_eq!(bridge.pause_bridge(1), Err(BridgeError::NotInitialized));
    assert_eq!(bridge.resume_bridge(1), Err(BridgeError::NotInitialized));
    assert_eq!(bridge.add_authorized_caller(1, 2), Err(BridgeError::NotInitialized));
    assert_eq!(bridge.remove_authorized_caller(1, 2), Err(BridgeError::NotInitialized));
    assert_eq!(bridge.execute_atomic_grants(1, 1, vec![], 1, 0, opens_all), Err(BridgeError::NotInitialized));
    assert_eq!(bridge.get_payload(1).err(), Some(BridgeError::ProposalNotFound));
    assert_eq!(bridge.get_execution_log(1).err(), Some(BridgeError::ProposalNotFound));
}

#[test]
fn initialize_rejects_non_positive_amount_limit() {
    let mut bridge = AtomicBridge::new();
    assert_eq!(bridge.initialize(2, 3, 10, 0, vec![1]), Err(BridgeError::InvalidConfig));
    assert_eq!(bridge.initialize(2, 3, 10, -5, vec![1]), Err(BridgeError::InvalidConfig));
    assert!(bridge.get_config().is_err());
}

#[test]
fn execution_records_payload_log_and_counter() {
    let mut bridge = AtomicBridge::new();
    bridge.initialize(2, 3, 10, 1000000, vec![1]).unwrap();
    let configs = vec![grantee_config(5, 7), grantee_config(6, 8), grantee_config(9, 7)];
    let result = bridge.execute_atomic_grants(1, 42, configs.clone(), 300000, 1234, opens_all);
    assert_eq!(result, Ok(vec![1, 2, 3]));

    let payload = bridge.get_payload(42).unwrap();
    assert_eq!(payload.proposal_id, 42);
    assert_eq!(payload.grant_configs, configs);
    assert_eq!(payload.total_amount, 300000);
    assert_eq!(payload.asset_addresses, vec![7, 8]);
    assert_eq!(payload.execution_timestamp, 1234);

    let log = bridge.get_execution_log(42).unwrap();
    assert!(log.success);
    assert_eq!(log.grants_created, 3);
    assert_eq!(log.failed_grants, 0);
    assert_eq!(log.total_amount, 300000);
    assert_eq!(log.executed_at, 1234);
    assert_eq!(log.error_message, "");

    assert_eq!(bridge.next_execution_id, Some(1001));
    bridge.execute_atomic_grants(1, 43, vec![], 1, 0, opens_all).unwrap();
    assert_eq!(bridge.next_execution_id, Some(2001));
}

#[test]
fn proposal_executes_only_once() {
    let mut bridge = AtomicBridge::new();
    bridge.initialize(2, 3, 10, 1000000, vec![1]).unwrap();
    assert!(bridge.execute_atomic_grants(1, 7, vec![grantee_config(5, 6)], 100, 10, opens_all).is_ok());
    assert_eq!(
        bridge.execute_atomic_grants(1, 7, vec![grantee_config(5, 6)], 100, 20, opens_all),
        Err(BridgeError::AlreadyExecuted)
    );
    // The first execution's log stands.
    assert_eq!(bridge.get_execution_log(7).unwrap().executed_at, 10);
}

#[test]
fn execution_respects_limits() {
    let mut bridge = AtomicBridge::new();
    bridge.initialize(2, 3, 2, 1000, vec![1]).unwrap();
    let three = vec![grantee_config(5, 6), grantee_config(5, 6), grantee_config(5, 6)];
    assert_eq!(bridge.execute_atomic_grants(1, 1, three, 10, 0, opens_all), Err(BridgeError::TooManyGrants));
    assert_eq!(
        bridge.execute_atomic_grants(1, 1, vec![grantee_config(5, 6)], 1001, 0, opens_all),
        Err(BridgeError::AmountTooLarge)
    );
    // Nothing was recorded for the refused requests.
    assert!(bridge.get_payload(1).is_err());
    assert!(bridge.get_execution_log(1).is_err());
    // At the limits the request goes through.
    let two = vec![grantee_config(5, 6), grantee_config(5, 6)];
    assert!(bridge.execute_atomic_grants(1, 1, two, 1000, 0, opens_all).is_ok());
}

#[test]
fn failed_batch_is_logged_with_error_name() {
    let mut bridge = AtomicBridge::new();
    bridge.initialize(2, 3, 10, 1000, vec![1]).unwrap();
    let result = bridge.record_batch_outcome(9, 3, 500, 77, Err(BridgeError::GrantContractError));
    assert_eq!(result, Err(BridgeError::ExecutionFailed));
    let log = bridge.get_execution_log(9).unwrap();
    assert!(!log.success);
    assert_eq!(log.grants_created, 0);
    assert_eq!(log.failed_grants, 3);
    assert_eq!(log.total_amount, 500);
    assert_eq!(log.executed_at, 77);
    assert_eq!(log.error_message, "Grant contract error: GrantContractError");
}

#[test]
fn successful_batch_returns_created_grants() {
    let mut bridge = AtomicBridge::new();
    let batch = BatchInitResult {
        successful_grants: vec![11, 12],
        failed_grants: vec![13],
        total_deposited: 50,
        grants_created: 2,
    };
    let result = bridge.record_batch_outcome(4, 3, 60, 5, Ok(batch));
    assert_eq!(result, Ok(vec![11, 12]));
    let log = bridge.get_execution_log(4).unwrap();
    assert!(log.success);
    assert_eq!(log.grants_created, 2);
    assert_eq!(log.failed_grants, 1);
}

#[test]
fn caller_management_errors() {
    let mut bridge = AtomicBridge::new();
    bridge.initialize(2, 3, 10, 1000, vec![1, 4, 1]).unwrap();
    // Only authorized callers manage the list.
    assert_eq!(bridge.add_authorized_caller(9, 5), Err(BridgeError::NotAuthorized));
    // A caller already on the list is refused.
    assert_eq!(bridge.add_authorized_caller(1, 4), Err(BridgeError::NotAuthorized));
    // Removing a caller that is not on the list is refused.
    assert_eq!(bridge.remove_authorized_caller(1, 5), Err(BridgeError::NotAuthorized));
    // Removal takes out every occurrence and keeps the configuration in step.
    bridge.remove_authorized_caller(4, 1).unwrap();
    assert_eq!(bridge.get_authorized_callers().unwrap(), &vec![4]);
    assert_eq!(bridge.get_config().unwrap().authorized_callers, vec![4]);
    // The removed caller has lost its rights.
    assert_eq!(bridge.pause_bridge(1), Err(BridgeError::NotAuthorized));
}

#[test]
fn add_then_remove_restores_callers() {
    let mut bridge = AtomicBridge::new();
    bridge.initialize(2, 3, 10, 1000, vec![1, 2]).unwrap();
    bridge.add_authorized_caller(2, 8).unwrap();
    assert_eq!(bridge.get_authorized_callers().unwrap(), &vec![1, 2, 8]);
    bridge.remove_authorized_caller(1, 8).unwrap();
    assert_eq!(bridge.get_authorized_callers().unwrap(), &vec![1, 2]);
}

#[test]
fn pause_and_resume_rules() {
    let mut bridge = AtomicBridge::new();
    bridge.initialize(2, 3, 10, 1000, vec![1]).unwrap();
    // Resuming an active bridge is refused.
    assert_eq!(bridge.resume_bridge(1), Err(BridgeError::InvalidConfig));
    bridge.pause_bridge(1).unwrap();
    // Pausing twice is accepted.
    bridge.pause_bridge(1).unwrap();
    bridge.resume_bridge(1).unwrap();
    let config = bridge.get_config().unwrap();
    assert_eq!(config.status, BridgeStatus::Active);
    assert_eq!(config.governance_contract, 2);
    assert_eq!(config.grant_contract, 3);
    // In an emergency the bridge cannot be paused.
    bridge.config.as_mut().unwrap().status = BridgeStatus::Emergency;
    assert_eq!(bridge.pause_bridge(1), Err(BridgeError::BridgePaused));
    assert_eq!(bridge.resume_bridge(1), Err(BridgeError::InvalidConfig));
}

#[test]
fn unique_assets_keep_first_occurrence_order() {
    let configs = vec![
        grantee_config(1, 30),
        grantee_config(2, 10),
        grantee_config(3, 30),
        grantee_config(4, 20),
        grantee_config(5, 10),
    ];
    assert_eq!(AtomicBridge::extract_unique_assets(&configs), vec![30, 10, 20]);
    assert_eq!(AtomicBridge::extract_unique_assets(&vec![]), Vec::<u64>::new());
}

#[test]
fn error_codes_and_names() {
    assert_eq!(BridgeError::NotInitialized.code(), 1001);
    assert_eq!(BridgeError::AlreadyExecuted.code(), 1011);
    assert_eq!(BridgeError::MathOverflow.code(), 1014);
    assert_eq!(BridgeError::GrantContractError.name(), "GrantContractError");
    assert_eq!(BridgeError::BridgePaused.name(), format!("{:?}", BridgeError::BridgePaused));
}

#[test]
fn storage_keys_report_presence() {
    let mut bridge = AtomicBridge::new();
    assert!(!bridge.has(BridgeDataKey::Config));
    bridge.initialize(2, 3, 10, 1000, vec![1]).unwrap();
    assert!(bridge.has(BridgeDataKey::Config));
    assert!(bridge.has(BridgeDataKey::AuthorizedCallers));
    assert!(bridge.has(BridgeDataKey::NextExecutionId));
    assert!(!bridge.has(BridgeDataKey::Payload(1)));
    bridge.execute_atomic_grants(1, 1, vec![], 1, 0, opens_all).unwrap();
    assert!(bridge.has(BridgeDataKey::Payload(1)));
    assert!(bridge.has(BridgeDataKey::ExecutionLog(1)));
}

#[test]
fn test_atomic_grant_execution() {
    let mut bridge = AtomicBridge::new();
    let admin = 1;
    let governance_contract = 2;
    let grant_contract = 3;
    let authorized_callers = vec![admin];
    let recipient = 4;
    let asset = 5;

    // Initialize bridge
    bridge
        .initialize(governance_contract, grant_contract, 10, 1000000, authorized_callers)
        .unwrap();

    // Create grant configs
    let grant_configs = vec![GranteeConfig {
        recipient,
        total_amount: 100000,
        flow_rate: 1000,
        asset,
        warmup_duration: 0,
        validator: None,
    }];

    // Test atomic execution, the grant contract opening the grant
    let result = bridge.execute_atomic_grants(
        admin,
        1, // proposal_id
        grant_configs.clone(),
        100000, // total_amount
        0,
        |_contract: u64, _configs: &Vec<GranteeConfig>, start: u64| {
            Ok(BatchInitResult {
                successful_grants: vec![start],
                failed_grants: vec![],
                total_deposited: 100000,
                grants_created: 1,
            })
        },
    );

    match result {
        Ok(_) => {
            // Check execution log
            let execution_log = bridge.get_execution_log(1).unwrap();
            assert!(execution_log.success);
            assert_eq!(execution_log.grants_created, 1);
            assert_eq!(execution_log.total_amount, 100000);
        }
        Err(BridgeError::ExecutionFailed) => {
            // The grant contract refused the batch
        }
        _ => panic!("Unexpected error"),
    }
}

#[test]
fn grant_contract_receives_proposal_and_first_id() {
    let mut bridge = AtomicBridge::new();
    bridge.initialize(2, 3, 10, 1000000, vec![1]).unwrap();
    let configs = vec![grantee_config(5, 6), grantee_config(7, 8)];
    let mut seen: Option<(u64, Vec<GranteeConfig>, u64)> = None;
    let result = bridge.execute_atomic_grants(1, 1, configs.clone(), 200000, 0, |contract: u64, cfgs: &Vec<GranteeConfig>, start: u64| {
        seen = Some((contract, cfgs.clone(), start));
        opens_all(contract, cfgs, start)
    });
    assert_eq!(result, Ok(vec![1, 2]));
    assert_eq!(seen, Some((3, configs.clone(), 1)));

    let mut seen_second: Option<u64> = None;
    bridge
        .execute_atomic_grants(1, 2, configs, 200000, 0, |contract: u64, cfgs: &Vec<GranteeConfig>, start: u64| {
            seen_second = Some(start);
            opens_all(contract, cfgs, start)
        })
        .unwrap();
    assert_eq!(seen_second, Some(1001));
}

#[test]
fn refused_request_never_reaches_grant_contract() {
    let mut bridge = AtomicBridge::new();
    bridge.initialize(2, 3, 1, 1000, vec![1]).unwrap();
    let mut called = false;
    let result = bridge.execute_atomic_grants(1, 1, vec![grantee_config(5, 6); 2], 10, 0, |c: u64, cfgs: &Vec<GranteeConfig>, s: u64| {
        called = true;
        opens_all(c, cfgs, s)
    });
    assert_eq!(result, Err(BridgeError::TooManyGrants));
    assert!(!called);
    assert_eq!(bridge.next_execution_id, Some(1));
}

#[test]
fn grant_contract_failure_is_logged() {
    let mut bridge = AtomicBridge::new();
    bridge.initialize(2, 3, 10, 1000000, vec![1]).unwrap();
    let configs = vec![grantee_config(5, 6), grantee_config(7, 6)];
    let result = bridge.execute_atomic_grants(1, 3, configs, 200000, 55, refuses);
    assert_eq!(result, Err(BridgeError::ExecutionFailed));
    let log = bridge.get_execution_log(3).unwrap();
    assert!(!log.success);
    assert_eq!(log.failed_grants, 2);
    assert_eq!(log.executed_at, 55);
    assert_eq!(log.error_message, "Grant contract error: GrantContractError");
    // The payload is kept and the proposal cannot run again.
    assert!(bridge.get_payload(3).is_ok());
    assert_eq!(
        bridge.execute_atomic_grants(1, 3, vec![], 1, 60, opens_all),
        Err(BridgeError::AlreadyExecuted)
    );
}

#[test]
fn prepare_then_record_outcome() {
    let mut bridge = AtomicBridge::new();
    bridge.initialize(2, 3, 10, 1000000, vec![1]).unwrap();
    let configs = vec![grantee_config(5, 6)];
    // Unauthorized callers are refused and nothing is stored.
    assert_eq!(bridge.prepare_atomic_grants(9, 1, &configs, 100, 0), Err(BridgeError::NotAuthorized));
    assert!(bridge.get_payload(1).is_err());
    // A valid request hands out the first grant id and moves the counter.
    assert_eq!(bridge.prepare_atomic_grants(1, 1, &configs, 100, 7), Ok(1));
    assert_eq!(bridge.next_execution_id, Some(1001));
    let payload = bridge.get_payload(1).unwrap();
    assert_eq!(payload.grant_configs, configs);
    assert_eq!(payload.asset_addresses, vec![6]);
    assert_eq!(payload.execution_timestamp, 7);
    // No log until the grant contract's answer is recorded.
    assert!(bridge.get_execution_log(1).is_err());
    let answer = opens_all(3, &configs, 1).unwrap();
    assert_eq!(bridge.record_batch_outcome(1, configs.len(), 100, 8, Ok(answer)), Ok(vec![1]));
    let log = bridge.get_execution_log(1).unwrap();
    assert!(log.success);
    assert_eq!(log.grants_created, 1);
    assert_eq!(log.executed_at, 8);
}
