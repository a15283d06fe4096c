use std::collections::HashMap;
use vstd::prelude::*;

use crate::grant::Error as GrantError;
use crate::Address;

verus! {

broadcast use vstd::std_specs::hash::group_hash_axioms;

/// Whether the bridge executes proposals.
#[derive(Clone, Copy, Debug, PartialEq, Eq, Structural)]
pub enum BridgeStatus {
    Active,
    Paused,
    Emergency,
}

/// One grant that a proposal asks the grant contract to open.
#[derive(Clone, Copy, Debug, PartialEq, Eq, Structural)]
pub struct GranteeConfig {
    pub recipient: Address,
    pub total_amount: i128,
    pub flow_rate: i128,
    pub asset: Address,
    pub warmup_duration: u64,
    pub validator: Option<Address>,
}

/// The bridge's configuration.
#[derive(Clone, Debug, PartialEq, Eq)]
pub struct BridgeConfig {
    pub governance_contract: Address,
    pub grant_contract: Address,
    pub status: BridgeStatus,
    pub max_grants_per_proposal: u32,
    pub max_total_amount: i128,
    pub authorized_callers: Vec<Address>,
}

/// What a proposal asked for, kept for audit.
#[derive(Clone, Debug, PartialEq, Eq)]
pub struct AtomicGrantPayload {
    pub proposal_id: u64,
    pub grant_configs: Vec<GranteeConfig>,
    pub total_amount: i128,
    pub asset_addresses: Vec<Address>,
    pub execution_timestamp: u64,
}

/// Keys under which the bridge keeps its state.
#[derive(Clone, Copy, Debug, PartialEq, Eq, Structural)]
pub enum BridgeDataKey {
    Config,
    Payload(u64),
    ExecutionLog(u64),
    AuthorizedCallers,
    NextExecutionId,
}

/// Errors of the bridge.
#[derive(Clone, Copy, Debug, PartialEq, Eq, Structural)]
pub enum BridgeError {
    NotInitialized,
    AlreadyInitialized,
    NotAuthorized,
    InvalidConfig,
    BridgePaused,
    InvalidPayload,
    TooManyGrants,
    AmountTooLarge,
    ExecutionFailed,
    ProposalNotFound,
    AlreadyExecuted,
    GrantContractError,
    InvalidAsset,
    MathOverflow,
}

/// Name of an error variant, as its debug form spells it.
pub open spec fn bridge_error_name(e: BridgeError) -> Seq<char> {
    match e {
        BridgeError::NotInitialized => "NotInitialized"@,
        BridgeError::AlreadyInitialized => "AlreadyInitialized"@,
        BridgeError::NotAuthorized => "NotAuthorized"@,
        BridgeError::InvalidConfig => "InvalidConfig"@,
        BridgeError::BridgePaused => "BridgePaused"@,
        BridgeError::InvalidPayload => "InvalidPayload"@,
        BridgeError::TooManyGrants => "TooManyGrants"@,
        BridgeError::AmountTooLarge => "AmountTooLarge"@,
        BridgeError::ExecutionFailed => "ExecutionFailed"@,
        BridgeError::ProposalNotFound => "ProposalNotFound"@,
        BridgeError::AlreadyExecuted => "AlreadyExecuted"@,
        BridgeError::GrantContractError => "GrantContractError"@,
        BridgeError::InvalidAsset => "InvalidAsset"@,
        BridgeError::MathOverflow => "MathOverflow"@,
    }
}

/// The numeric code the contract reports for an error.
pub open spec fn bridge_error_code(e: BridgeError) -> u32 {
    match e {
        BridgeError::NotInitialized => 1001,
        BridgeError::AlreadyInitialized => 1002,
        BridgeError::NotAuthorized => 1003,
        BridgeError::InvalidConfig => 1004,
        BridgeError::BridgePaused => 1005,
        BridgeError::InvalidPayload => 1006,
        BridgeError::TooManyGrants => 1007,
        BridgeError::AmountTooLarge => 1008,
        BridgeError::ExecutionFailed => 1009,
        BridgeError::ProposalNotFound => 1010,
        BridgeError::AlreadyExecuted => 1011,
        BridgeError::GrantContractError => 1012,
        BridgeError::InvalidAsset => 1013,
        BridgeError::MathOverflow => 1014,
    }
}

impl BridgeError {
    /// The error's numeric code as the contract reports it.
    pub fn code(&self) -> (c: u32)
        ensures
            c == bridge_error_code(*self),
    {
        match self {
            BridgeError::NotInitialized => 1001,
            BridgeError::AlreadyInitialized => 1002,
            BridgeError::NotAuthorized => 1003,
            BridgeError::InvalidConfig => 1004,
            BridgeError::BridgePaused => 1005,
            BridgeError::InvalidPayload => 1006,
            BridgeError::TooManyGrants => 1007,
            BridgeError::AmountTooLarge => 1008,
            BridgeError::ExecutionFailed => 1009,
            BridgeError::ProposalNotFound => 1010,
            BridgeError::AlreadyExecuted => 1011,
            BridgeError::GrantContractError => 1012,
            BridgeError::InvalidAsset => 1013,
            BridgeError::MathOverflow => 1014,
        }
    }

    /// The variant's name.
    pub fn name(&self) -> (s: &'static str)
        ensures
            s@ == bridge_error_name(*self),
    {
        match self {
            BridgeError::NotInitialized => "NotInitialized",
            BridgeError::AlreadyInitialized => "AlreadyInitialized",
            BridgeError::NotAuthorized => "NotAuthorized",
            BridgeError::InvalidConfig => "InvalidConfig",
            BridgeError::BridgePaused => "BridgePaused",
            BridgeError::InvalidPayload => "InvalidPayload",
            BridgeError::TooManyGrants => "TooManyGrants",
            BridgeError::AmountTooLarge => "AmountTooLarge",
            BridgeError::ExecutionFailed => "ExecutionFailed",
            BridgeError::ProposalNotFound => "ProposalNotFound",
            BridgeError::AlreadyExecuted => "AlreadyExecuted",
            BridgeError::GrantContractError => "GrantContractError",
            BridgeError::InvalidAsset => "InvalidAsset",
            BridgeError::MathOverflow => "MathOverflow",
        }
    }
}

/// The record of how a proposal's execution went.
#[derive(Clone, Debug, PartialEq, Eq)]
pub struct ExecutionResult {
    pub proposal_id: u64,
    pub success: bool,
    pub grants_created: u32,
    pub failed_grants: u32,
    pub total_amount: i128,
    pub executed_at: u64,
    pub error_message: String,
}

/// What the grant contract reports after opening a batch of grants.
#[derive(Clone, Debug, PartialEq, Eq)]
pub struct BatchInitResult {
    pub successful_grants: Vec<u64>,
    pub failed_grants: Vec<u64>,
    pub total_deposited: i128,
    pub grants_created: u32,
}

/// How the bridge reads the grant contract's answer to a batch: its
/// failures come back as `GrantContractError`.
pub open spec fn batch_outcome(answer: Result<BatchInitResult, GrantError>) -> Result<
    BatchInitResult,
    BridgeError,
> {
    match answer {
        Ok(res) => Ok(res),
        Err(_) => Err(BridgeError::GrantContractError),
    }
}

/// A copy of `v`.
fn copy_vec<T: Copy>(v: &Vec<T>) -> (r: Vec<T>)
    ensures
        r@ == v@,
{
    let mut r: Vec<T> = Vec::new();
    let mut i: usize = 0;
    while i < v.len()
        invariant
            0 <= i <= v@.len(),
            r@ == v@.take(i as int),
        decreases v@.len() - i,
    {
        r.push(v[i]);
        proof {
            assert(v@.take(i as int + 1) =~= v@.take(i as int).push(v@[i as int]));
        }
        i = i + 1;
    }
    proof {
        assert(v@.take(v@.len() as int) =~= v@);
    }
    r
}

/// The assets of a list of grants, in order.
pub open spec fn assets_of(cs: Seq<GranteeConfig>) -> Seq<Address> {
    cs.map_values(|c: GranteeConfig| c.asset)
}

/// `s` without repetitions, each element kept where it first occurs.
pub open spec fn unique_in_order(s: Seq<Address>) -> Seq<Address>
    decreases s.len(),
{
    if s.len() == 0 {
        Seq::empty()
    } else {
        let p = unique_in_order(s.drop_last());
        if p.contains(s.last()) {
            p
        } else {
            p.push(s.last())
        }
    }
}

/// `s` with every occurrence of `x` left out.
pub open spec fn without(s: Seq<Address>, x: Address) -> Seq<Address>
    decreases s.len(),
{
    if s.len() == 0 {
        Seq::empty()
    } else {
        let p = without(s.drop_last(), x);
        if s.last() == x {
            p
        } else {
            p.push(s.last())
        }
    }
}

/// Whether `x` occurs in `v`.
fn contains_address(v: &Vec<Address>, x: Address) -> (r: bool)
    ensures
        r == v@.contains(x),
{
    let mut i: usize = 0;
    while i < v.len()
        invariant
            0 <= i <= v@.len(),
            forall|j: int| 0 <= j < i ==> v@[j] != x,
        decreases v@.len() - i,
    {
        if v[i] == x {
            return true;
        }
        i = i + 1;
    }
    false
}

/// The bridge's state.
pub struct AtomicBridge {
    pub config: Option<BridgeConfig>,
    pub authorized_callers: Option<Vec<Address>>,
    pub payloads: HashMap<u64, AtomicGrantPayload>,
    pub execution_logs: HashMap<u64, ExecutionResult>,
    pub next_execution_id: Option<u64>,
}


/// `c` is the configuration that `initialize` records.
pub open spec fn config_is(
    c: BridgeConfig,
    governance_contract: Address,
    grant_contract: Address,
    status: BridgeStatus,
    max_grants_per_proposal: u32,
    max_total_amount: i128,
    callers: Seq<Address>,
) -> bool {
    &&& c.governance_contract == governance_contract
    &&& c.grant_contract == grant_contract
    &&& c.status == status
    &&& c.max_grants_per_proposal == max_grants_per_proposal
    &&& c.max_total_amount == max_total_amount
    &&& c.authorized_callers@ == callers
}

/// `c` is `old` with another status and otherwise the same settings and callers.
pub open spec fn config_with_status(c: BridgeConfig, old: BridgeConfig, status: BridgeStatus) -> bool {
    config_is(
        c,
        old.governance_contract,
        old.grant_contract,
        status,
        old.max_grants_per_proposal,
        old.max_total_amount,
        old.authorized_callers@,
    )
}

/// `c` is `old` with another list of authorized callers.
pub open spec fn config_with_callers(c: BridgeConfig, old: BridgeConfig, callers: Seq<Address>) -> bool {
    config_is(
        c,
        old.governance_contract,
        old.grant_contract,
        old.status,
        old.max_grants_per_proposal,
        old.max_total_amount,
        callers,
    )
}

/// `p` records proposal `id` asking for `configs` worth `total`, received at `now`.
pub open spec fn payload_is(
    p: AtomicGrantPayload,
    id: u64,
    configs: Seq<GranteeConfig>,
    total: i128,
    now: u64,
) -> bool {
    &&& p.proposal_id == id
    &&& p.grant_configs@ == configs
    &&& p.total_amount == total
    &&& p.asset_addresses@ == unique_in_order(assets_of(configs))
    &&& p.execution_timestamp == now
}

/// `l` records a successful execution of proposal `id`.
pub open spec fn success_log(l: ExecutionResult, id: u64, created: u32, failed: u32, total: i128, now: u64) -> bool {
    &&& l.proposal_id == id
    &&& l.success
    &&& l.grants_created == created
    &&& l.failed_grants == failed
    &&& l.total_amount == total
    &&& l.executed_at == now
    &&& l.error_message@ == Seq::<char>::empty()
}

/// `l` records a failed execution of proposal `id` that attempted
/// `attempted` grants and failed with `e`.
pub open spec fn failure_log(l: ExecutionResult, id: u64, attempted: u32, total: i128, now: u64, e: BridgeError) -> bool {
    &&& l.proposal_id == id
    &&& !l.success
    &&& l.grants_created == 0
    &&& l.failed_grants == attempted
    &&& l.total_amount == total
    &&& l.executed_at == now
    &&& l.error_message@ == "Grant contract error: "@ + bridge_error_name(e)
}

impl AtomicBridge {
    /// Well-formedness: the configuration and the caller list are set
    /// together, and the configuration's copy of the list is the list.
    pub open spec fn wf(&self) -> bool {
        &&& (self.config is Some <==> self.authorized_callers is Some)
        &&& self.config is Some ==> self.config->0.authorized_callers@
            == self.authorized_callers->0@
    }

    /// The authorized callers.
    pub open spec fn callers(&self) -> Seq<Address> {
        self.authorized_callers->0@
    }

    /// The error `require_authorized_caller` reports for `caller`, if any.
    pub open spec fn auth_error(&self, caller: Address) -> Option<BridgeError> {
        if self.authorized_callers is None {
            Some(BridgeError::NotInitialized)
        } else if !self.callers().contains(caller) {
            Some(BridgeError::NotAuthorized)
        } else {
            None
        }
    }

    /// A bridge that has not been initialized.
    pub fn new() -> (b: Self)
        ensures
            b.wf(),
            b.config is None,
            b.authorized_callers is None,
            b.payloads@ == Map::<u64, AtomicGrantPayload>::empty(),
            b.execution_logs@ == Map::<u64, ExecutionResult>::empty(),
            b.next_execution_id is None,
    {
        AtomicBridge {
            config: None,
            authorized_callers: None,
            payloads: HashMap::new(),
            execution_logs: HashMap::new(),
            next_execution_id: None,
        }
    }

    /// Whether the state holds a value under `key`.
    pub fn has(&self, key: BridgeDataKey) -> (r: bool)
        ensures
            r == match key {
                BridgeDataKey::Config => self.config is Some,
                BridgeDataKey::Payload(id) => self.payloads@.contains_key(id),
                BridgeDataKey::ExecutionLog(id) => self.execution_logs@.contains_key(id),
                BridgeDataKey::AuthorizedCallers => self.authorized_callers is Some,
                BridgeDataKey::NextExecutionId => self.next_execution_id is Some,
            },
    {
        match key {
            BridgeDataKey::Config => self.config.is_some(),
            BridgeDataKey::Payload(id) => self.payloads.contains_key(&id),
            BridgeDataKey::ExecutionLog(id) => self.execution_logs.contains_key(&id),
            BridgeDataKey::AuthorizedCallers => self.authorized_callers.is_some(),
            BridgeDataKey::NextExecutionId => self.next_execution_id.is_some(),
        }
    }

    /// Sets up the bridge, active, with its limits and its first authorized
    /// callers; refused when already set up or when a limit is not positive.
    pub fn initialize(
        &mut self,
        governance_contract: Address,
        grant_contract: Address,
        max_grants_per_proposal: u32,
        max_total_amount: i128,
        initial_authorized_callers: Vec<Address>,
    ) -> (r: Result<(), BridgeError>)
        requires
            old(self).wf(),
        ensures
            final(self).wf(),
            old(self).config is Some ==> r == Err::<(), BridgeError>(
                BridgeError::AlreadyInitialized,
            ) && *final(self) == *old(self),
            old(self).config is None && (max_grants_per_proposal == 0 || max_total_amount <= 0)
                ==> r == Err::<(), BridgeError>(BridgeError::InvalidConfig) && *final(self) == *old(
                self,
            ),
            old(self).config is None && max_grants_per_proposal > 0 && max_total_amount > 0 ==> {
                &&& r is Ok
                &&& final(self).config is Some
                &&& config_is(
                    final(self).config->0,
                    governance_contract,
                    grant_contract,
                    BridgeStatus::Active,
                    max_grants_per_proposal,
                    max_total_amount,
                    initial_authorized_callers@,
                )
                &&& final(self).callers() == initial_authorized_callers@
                &&& final(self).next_execution_id == Some(1u64)
                &&& final(self).payloads@ == old(self).payloads@
                &&& final(self).execution_logs@ == old(self).execution_logs@
            },
    {
        if self.config.is_some() {
            return Err(BridgeError::AlreadyInitialized);
        }
        if max_grants_per_proposal == 0 || max_total_amount <= 0 {
            return Err(BridgeError::InvalidConfig);
        }
        let config = BridgeConfig {
            governance_contract,
            grant_contract,
            status: BridgeStatus::Active,
            max_grants_per_proposal,
            max_total_amount,
            authorized_callers: copy_vec(&initial_authorized_callers),
        };
        self.config = Some(config);
        self.authorized_callers = Some(initial_authorized_callers);
        self.next_execution_id = Some(1);
        Ok(())
    }

    /// Checks that `caller` (who has authorized the call) is on the list of
    /// authorized callers.
    fn require_authorized_caller(&self, caller: Address) -> (r: Result<(), BridgeError>)
        ensures
            match self.auth_error(caller) {
                Some(e) => r == Err::<(), BridgeError>(e),
                None => r is Ok,
            },
    {
        match &self.authorized_callers {
            None => Err(BridgeError::NotInitialized),
            Some(callers) => if contains_address(callers, caller) {
                Ok(())
            } else {
                Err(BridgeError::NotAuthorized)
            },
        }
    }

    /// The assets of `grant_configs`, each once, in order of first appearance.
    pub fn extract_unique_assets(grant_configs: &Vec<GranteeConfig>) -> (r: Vec<Address>)
        ensures
            r@ == unique_in_order(assets_of(grant_configs@)),
    {
        let mut unique_assets: Vec<Address> = Vec::new();
        let mut i: usize = 0;
        while i < grant_configs.len()
            invariant
                0 <= i <= grant_configs@.len(),
                unique_assets@ == unique_in_order(assets_of(grant_configs@).take(i as int)),
            decreases grant_configs@.len() - i,
        {
            let asset: Address = grant_configs[i].asset;
            proof {
                let t = assets_of(grant_configs@).take(i as int + 1);
                assert(t.drop_last() =~= assets_of(grant_configs@).take(i as int));
                assert(t.last() == asset);
            }
            if !contains_address(&unique_assets, asset) {
                unique_assets.push(asset);
            }
            i = i + 1;
        }
        proof {
            assert(assets_of(grant_configs@).take(grant_configs@.len() as int) =~= assets_of(
                grant_configs@,
            ));
        }
        unique_assets
    }

    /// The next execution id, 1 when none is stored; the stored id moves
    /// 1000 ahead.
    fn get_next_grant_id(&mut self) -> (r: Result<u64, BridgeError>)
        requires
            old(self).wf(),
            (match old(self).next_execution_id {
                Some(n) => n,
                None => 1,
            }) + 1000 <= u64::MAX,
        ensures
            final(self).wf(),
            r == Ok::<u64, BridgeError>(
                match old(self).next_execution_id {
                    Some(n) => n,
                    None => 1,
                },
            ),
            final(self).next_execution_id == Some((r->Ok_0 + 1000) as u64),
            final(self).config == old(self).config,
            final(self).authorized_callers == old(self).authorized_callers,
            final(self).payloads@ == old(self).payloads@,
            final(self).execution_logs@ == old(self).execution_logs@,
    {
        let next_id: u64 = match self.next_execution_id {
            Some(n) => n,
            None => 1,
        };
        self.next_execution_id = Some(next_id + 1000);
        Ok(next_id)
    }

    /// Asks the configured grant contract, through `batch_init`, to open
    /// `grant_configs` from `starting_grant_id` on; its failures come back
    /// as `GrantContractError`.
    fn call_grant_contract_batch_init<F>(
        &self,
        grant_configs: &Vec<GranteeConfig>,
        starting_grant_id: u64,
        batch_init: F,
    ) -> (r: Result<BatchInitResult, BridgeError>) where
        F: FnOnce(Address, &Vec<GranteeConfig>, u64) -> Result<BatchInitResult, GrantError>,

        requires
            self.config is Some ==> batch_init.requires(
                (self.config->0.grant_contract, grant_configs, starting_grant_id),
            ),
        ensures
            self.config is None ==> r == Err::<BatchInitResult, BridgeError>(
                BridgeError::NotInitialized,
            ),
            self.config is Some ==> exists|answer: Result<BatchInitResult, GrantError>|
                {
                    &&& #[trigger] batch_init.ensures(
                        (self.config->0.grant_contract, grant_configs, starting_grant_id),
                        answer,
                    )
                    &&& r == batch_outcome(answer)
                },
    {
        let contract_id: Address = match &self.config {
            Some(c) => c.grant_contract,
            None => {
                return Err(BridgeError::NotInitialized);
            },
        };
        let answer = batch_init(contract_id, grant_configs, starting_grant_id);
        let r = match answer {
            Ok(result) => Ok(result),
            Err(_) => Err(BridgeError::GrantContractError),
        };
        proof {
            assert(batch_init.ensures((contract_id, grant_configs, starting_grant_id), answer));
            assert(r == batch_outcome(answer));
        }
        r
    }

    /// Logs how the grant contract answered for proposal `proposal_id`, which
    /// asked for `attempted` grants worth `total_amount`, at `now`. On
    /// success the ids of the grants opened are returned; on failure the
    /// log carries the error's name and `ExecutionFailed` is returned.
    pub fn record_batch_outcome(
        &mut self,
        proposal_id: u64,
        attempted: usize,
        total_amount: i128,
        now: u64,
        outcome: Result<BatchInitResult, BridgeError>,
    ) -> (r: Result<Vec<u64>, BridgeError>)
        requires
            old(self).wf(),
        ensures
            final(self).wf(),
            old(self).outcome_logged(
                final(self),
                proposal_id,
                attempted as nat,
                total_amount,
                now,
                outcome,
                r,
            ),
    {
        match outcome {
            Ok(result) => {
                let successful_grants: Vec<u64> = result.successful_grants;
                let failed_count: u32 = result.failed_grants.len() as u32;
                let execution_log = ExecutionResult {
                    proposal_id,
                    success: true,
                    grants_created: successful_grants.len() as u32,
                    failed_grants: failed_count,
                    total_amount,
                    executed_at: now,
                    error_message: String::new(),
                };
                self.execution_logs.insert(proposal_id, execution_log);
                Ok(successful_grants)
            },
            Err(e) => {
                let mut message: String = String::from_str("Grant contract error: ");
                message.append(e.name());
                let execution_log = ExecutionResult {
                    proposal_id,
                    success: false,
                    grants_created: 0,
                    failed_grants: attempted as u32,
                    total_amount,
                    executed_at: now,
                    error_message: message,
                };
                self.execution_logs.insert(proposal_id, execution_log);
                Err(BridgeError::ExecutionFailed)
            },
        }
    }
}


impl AtomicBridge {
    /// The error `execute_atomic_grants` reports before creating anything,
    /// if any, for a proposal asking for `n` grants worth `total_amount`.
    pub open spec fn execute_error(
        &self,
        caller: Address,
        proposal_id: u64,
        n: nat,
        total_amount: i128,
    ) -> Option<BridgeError> {
        let c = self.config->0;
        if self.auth_error(caller) is Some {
            self.auth_error(caller)
        } else if self.config is None {
            Some(BridgeError::NotInitialized)
        } else if c.status != BridgeStatus::Active {
            Some(BridgeError::BridgePaused)
        } else if n > c.max_grants_per_proposal {
            Some(BridgeError::TooManyGrants)
        } else if total_amount > c.max_total_amount {
            Some(BridgeError::AmountTooLarge)
        } else if self.execution_logs@.contains_key(proposal_id) {
            Some(BridgeError::AlreadyExecuted)
        } else {
            None
        }
    }

    /// `post` is this state after proposal `proposal_id`, asking for
    /// `configs` worth `total_amount`, passed the checks at `now`: the
    /// payload is kept for audit, the execution id counter has moved 1000
    /// ahead, and nothing else has changed.
    pub open spec fn execution_prepared(
        &self,
        post: &Self,
        proposal_id: u64,
        configs: Seq<GranteeConfig>,
        total_amount: i128,
        now: u64,
    ) -> bool {
        &&& post.config == self.config
        &&& post.authorized_callers == self.authorized_callers
        &&& post.payloads@ == self.payloads@.insert(proposal_id, post.payloads@[proposal_id])
        &&& payload_is(post.payloads@[proposal_id], proposal_id, configs, total_amount, now)
        &&& post.next_execution_id == Some((self.next_id() + 1000) as u64)
        &&& post.execution_logs@ == self.execution_logs@
    }

    /// `post` is this state with the outcome of proposal `proposal_id`,
    /// which asked for `attempted` grants worth `total_amount`, logged at
    /// `now`, and `r` is what the bridge answers: the ids of the grants
    /// opened on success, `ExecutionFailed` on failure.
    pub open spec fn outcome_logged(
        &self,
        post: &Self,
        proposal_id: u64,
        attempted: nat,
        total_amount: i128,
        now: u64,
        outcome: Result<BatchInitResult, BridgeError>,
        r: Result<Vec<u64>, BridgeError>,
    ) -> bool {
        &&& post.config == self.config
        &&& post.authorized_callers == self.authorized_callers
        &&& post.payloads@ == self.payloads@
        &&& post.next_execution_id == self.next_execution_id
        &&& post.execution_logs@ == self.execution_logs@.insert(
            proposal_id,
            post.execution_logs@[proposal_id],
        )
        &&& match outcome {
            Ok(res) => {
                &&& r is Ok
                &&& r->Ok_0@ == res.successful_grants@
                &&& success_log(
                    post.execution_logs@[proposal_id],
                    proposal_id,
                    res.successful_grants@.len() as u32,
                    res.failed_grants@.len() as u32,
                    total_amount,
                    now,
                )
            },
            Err(e) => {
                &&& r == Err::<Vec<u64>, BridgeError>(BridgeError::ExecutionFailed)
                &&& failure_log(
                    post.execution_logs@[proposal_id],
                    proposal_id,
                    attempted as u32,
                    total_amount,
                    now,
                    e,
                )
            },
        }
    }

    /// `post` is this state after proposal `proposal_id` went through at
    /// `now`, the grant contract having answered `answer`: the payload is
    /// kept, the counter has moved 1000 ahead, and the answer is logged as
    /// `outcome_logged` describes, `r` being the bridge's answer.
    pub open spec fn execution_recorded(
        &self,
        post: &Self,
        proposal_id: u64,
        configs: Seq<GranteeConfig>,
        total_amount: i128,
        now: u64,
        answer: Result<BatchInitResult, GrantError>,
        r: Result<Vec<u64>, BridgeError>,
    ) -> bool {
        &&& post.payloads@ == self.payloads@.insert(proposal_id, post.payloads@[proposal_id])
        &&& payload_is(post.payloads@[proposal_id], proposal_id, configs, total_amount, now)
        &&& post.next_execution_id == Some((self.next_id() + 1000) as u64)
        &&& post.config == self.config
        &&& post.authorized_callers == self.authorized_callers
        &&& post.execution_logs@ == self.execution_logs@.insert(
            proposal_id,
            post.execution_logs@[proposal_id],
        )
        &&& match batch_outcome(answer) {
            Ok(res) => {
                &&& r is Ok
                &&& r->Ok_0@ == res.successful_grants@
                &&& success_log(
                    post.execution_logs@[proposal_id],
                    proposal_id,
                    res.successful_grants@.len() as u32,
                    res.failed_grants@.len() as u32,
                    total_amount,
                    now,
                )
            },
            Err(e) => {
                &&& r == Err::<Vec<u64>, BridgeError>(BridgeError::ExecutionFailed)
                &&& failure_log(
                    post.execution_logs@[proposal_id],
                    proposal_id,
                    configs.len() as u32,
                    total_amount,
                    now,
                    e,
                )
            },
        }
    }

    /// The execution id counter as the bridge reads it.
    pub open spec fn next_id(&self) -> u64 {
        match self.next_execution_id {
            Some(n) => n,
            None => 1,
        }
    }

    /// Checks proposal `proposal_id`, which `caller` (who has authorized
    /// the call) asks at `now` to execute with `grant_configs` worth
    /// `total_amount`, and prepares its execution: the bridge must be
    /// active, `caller` authorized, the proposal within the limits and not
    /// executed before. The payload is kept for audit and the execution id
    /// counter moves 1000 ahead; the id it stood at is returned, the first
    /// grant id to hand to the grant contract.
    pub fn prepare_atomic_grants(
        &mut self,
        caller: Address,
        proposal_id: u64,
        grant_configs: &Vec<GranteeConfig>,
        total_amount: i128,
        now: u64,
    ) -> (r: Result<u64, BridgeError>)
        requires
            old(self).wf(),
            old(self).execute_error(caller, proposal_id, grant_configs@.len(), total_amount) is None
                ==> old(self).next_id() + 1000 <= u64::MAX,
        ensures
            final(self).wf(),
            match old(self).execute_error(caller, proposal_id, grant_configs@.len(), total_amount) {
                Some(e) => r == Err::<u64, BridgeError>(e) && *final(self) == *old(self),
                None => {
                    &&& r == Ok::<u64, BridgeError>(old(self).next_id())
                    &&& old(self).execution_prepared(
                        final(self),
                        proposal_id,
                        grant_configs@,
                        total_amount,
                        now,
                    )
                },
            },
    {
        match self.require_authorized_caller(caller) {
            Ok(()) => {},
            Err(e) => {
                return Err(e);
            },
        }
        let (status, max_grants, max_total): (BridgeStatus, u32, i128) = match &self.config {
            Some(c) => (c.status, c.max_grants_per_proposal, c.max_total_amount),
            None => {
                return Err(BridgeError::NotInitialized);
            },
        };
        if status != BridgeStatus::Active {
            return Err(BridgeError::BridgePaused);
        }
        if grant_configs.len() > max_grants as usize {
            return Err(BridgeError::TooManyGrants);
        }
        if total_amount > max_total {
            return Err(BridgeError::AmountTooLarge);
        }
        if self.execution_logs.contains_key(&proposal_id) {
            return Err(BridgeError::AlreadyExecuted);
        }
        let payload = AtomicGrantPayload {
            proposal_id,
            grant_configs: copy_vec(grant_configs),
            total_amount,
            asset_addresses: Self::extract_unique_assets(grant_configs),
            execution_timestamp: now,
        };
        self.payloads.insert(proposal_id, payload);
        self.get_next_grant_id()
    }

    /// Creates the grants of proposal `proposal_id` through the grant
    /// contract, as `caller`, an authorized caller who has authorized the
    /// call, asks at `now`.
    ///
    /// Once `prepare_atomic_grants` has checked and recorded the proposal,
    /// `batch_init` is called once, with the configured grant contract, the
    /// proposal's grants and the first grant id; it stands for the grant
    /// contract's batch interface. Its answer is logged and the ids of the
    /// grants it opened are returned; when it fails, the log carries the
    /// failure and `ExecutionFailed` is returned.
    pub fn execute_atomic_grants<F>(
        &mut self,
        caller: Address,
        proposal_id: u64,
        grant_configs: Vec<GranteeConfig>,
        total_amount: i128,
        now: u64,
        batch_init: F,
    ) -> (r: Result<Vec<u64>, BridgeError>) where
        F: FnOnce(Address, &Vec<GranteeConfig>, u64) -> Result<BatchInitResult, GrantError>,

        requires
            old(self).wf(),
            old(self).execute_error(caller, proposal_id, grant_configs@.len(), total_amount) is None
                ==> {
                &&& old(self).next_id() + 1000 <= u64::MAX
                &&& batch_init.requires(
                    (old(self).config->0.grant_contract, &grant_configs, old(self).next_id()),
                )
            },
        ensures
            final(self).wf(),
            match old(self).execute_error(caller, proposal_id, grant_configs@.len(), total_amount) {
                Some(e) => r == Err::<Vec<u64>, BridgeError>(e) && *final(self) == *old(self),
                None => exists|answer: Result<BatchInitResult, GrantError>|
                    {
                        &&& #[trigger] batch_init.ensures(
                            (old(self).config->0.grant_contract, &grant_configs, old(self).next_id()),
                            answer,
                        )
                        &&& old(self).execution_recorded(
                            final(self),
                            proposal_id,
                            grant_configs@,
                            total_amount,
                            now,
                            answer,
                            r,
                        )
                    },
            },
    {
        let first_grant_id: u64 = match self.prepare_atomic_grants(
            caller,
            proposal_id,
            &grant_configs,
            total_amount,
            now,
        ) {
            Ok(id) => id,
            Err(e) => {
                return Err(e);
            },
        };
        let attempted: usize = grant_configs.len();
        let ghost mid = *self;
        let outcome = self.call_grant_contract_batch_init(&grant_configs, first_grant_id, batch_init);
        let r = self.record_batch_outcome(proposal_id, attempted, total_amount, now, outcome);
        proof {
            let answer = choose|answer: Result<BatchInitResult, GrantError>|
                #[trigger] batch_init.ensures(
                    (mid.config->0.grant_contract, &grant_configs, first_grant_id),
                    answer,
                ) && outcome == batch_outcome(answer);
            assert(old(self).execution_recorded(
                final(self),
                proposal_id,
                grant_configs@,
                total_amount,
                now,
                answer,
                r,
            ));
        }
        r
    }

    /// The error `pause_bridge` reports, if any.
    pub open spec fn pause_error(&self, caller: Address) -> Option<BridgeError> {
        if self.auth_error(caller) is Some {
            self.auth_error(caller)
        } else if self.config is None {
            Some(BridgeError::NotInitialized)
        } else if self.config->0.status == BridgeStatus::Emergency {
            Some(BridgeError::BridgePaused)
        } else {
            None
        }
    }

    /// Pauses the bridge, at the request of an authorized `caller`; refused
    /// in an emergency.
    pub fn pause_bridge(&mut self, caller: Address) -> (r: Result<(), BridgeError>)
        requires
            old(self).wf(),
        ensures
            final(self).wf(),
            match old(self).pause_error(caller) {
                Some(e) => r == Err::<(), BridgeError>(e) && *final(self) == *old(self),
                None => {
                    &&& r is Ok
                    &&& final(self).config is Some
                    &&& config_with_status(
                        final(self).config->0,
                        old(self).config->0,
                        BridgeStatus::Paused,
                    )
                    &&& final(self).authorized_callers == old(self).authorized_callers
                    &&& final(self).payloads@ == old(self).payloads@
                    &&& final(self).execution_logs@ == old(self).execution_logs@
                    &&& final(self).next_execution_id == old(self).next_execution_id
                },
            },
    {
        match self.require_authorized_caller(caller) {
            Ok(()) => {},
            Err(e) => {
                return Err(e);
            },
        }
        let mut config: BridgeConfig = match self.config.take() {
            Some(c) => c,
            None => {
                return Err(BridgeError::NotInitialized);
            },
        };
        if config.status == BridgeStatus::Emergency {
            self.config = Some(config);
            return Err(BridgeError::BridgePaused);
        }
        config.status = BridgeStatus::Paused;
        self.config = Some(config);
        Ok(())
    }

    /// The error `resume_bridge` reports, if any.
    pub open spec fn resume_error(&self, caller: Address) -> Option<BridgeError> {
        if self.auth_error(caller) is Some {
            self.auth_error(caller)
        } else if self.config is None {
            Some(BridgeError::NotInitialized)
        } else if self.config->0.status != BridgeStatus::Paused {
            Some(BridgeError::InvalidConfig)
        } else {
            None
        }
    }

    /// Makes a paused bridge active again, at the request of an authorized
    /// `caller`.
    pub fn resume_bridge(&mut self, caller: Address) -> (r: Result<(), BridgeError>)
        requires
            old(self).wf(),
        ensures
            final(self).wf(),
            match old(self).resume_error(caller) {
                Some(e) => r == Err::<(), BridgeError>(e) && *final(self) == *old(self),
                None => {
                    &&& r is Ok
                    &&& final(self).config is Some
                    &&& config_with_status(
                        final(self).config->0,
                        old(self).config->0,
                        BridgeStatus::Active,
                    )
                    &&& final(self).authorized_callers == old(self).authorized_callers
                    &&& final(self).payloads@ == old(self).payloads@
                    &&& final(self).execution_logs@ == old(self).execution_logs@
                    &&& final(self).next_execution_id == old(self).next_execution_id
                },
            },
    {
        match self.require_authorized_caller(caller) {
            Ok(()) => {},
            Err(e) => {
                return Err(e);
            },
        }
        let mut config: BridgeConfig = match self.config.take() {
            Some(c) => c,
            None => {
                return Err(BridgeError::NotInitialized);
            },
        };
        if config.status != BridgeStatus::Paused {
            self.config = Some(config);
            return Err(BridgeError::InvalidConfig);
        }
        config.status = BridgeStatus::Active;
        self.config = Some(config);
        Ok(())
    }

    /// The error `add_authorized_caller` reports, if any.
    pub open spec fn add_error(&self, caller: Address, new_caller: Address) -> Option<BridgeError> {
        if self.auth_error(caller) is Some {
            self.auth_error(caller)
        } else if self.callers().contains(new_caller) {
            Some(BridgeError::NotAuthorized)
        } else {
            None
        }
    }

    /// Appends `new_caller` to the authorized callers, at the request of an
    /// authorized `caller`; refused when it is already on the list.
    pub fn add_authorized_caller(&mut self, caller: Address, new_caller: Address) -> (r: Result<
        (),
        BridgeError,
    >)
        requires
            old(self).wf(),
        ensures
            final(self).wf(),
            match old(self).add_error(caller, new_caller) {
                Some(e) => r == Err::<(), BridgeError>(e) && *final(self) == *old(self),
                None => {
                    &&& r is Ok
                    &&& final(self).authorized_callers is Some
                    &&& final(self).callers() == old(self).callers().push(new_caller)
                    &&& final(self).config is Some
                    &&& config_with_callers(
                        final(self).config->0,
                        old(self).config->0,
                        old(self).callers().push(new_caller),
                    )
                    &&& final(self).payloads@ == old(self).payloads@
                    &&& final(self).execution_logs@ == old(self).execution_logs@
                    &&& final(self).next_execution_id == old(self).next_execution_id
                },
            },
    {
        match self.require_authorized_caller(caller) {
            Ok(()) => {},
            Err(e) => {
                return Err(e);
            },
        }
        let mut authorized: Vec<Address> = match self.authorized_callers.take() {
            Some(v) => v,
            None => {
                return Err(BridgeError::NotInitialized);
            },
        };
        if contains_address(&authorized, new_caller) {
            self.authorized_callers = Some(authorized);
            return Err(BridgeError::NotAuthorized);
        }
        authorized.push(new_caller);
        let copy: Vec<Address> = copy_vec(&authorized);
        self.authorized_callers = Some(authorized);
        let mut config: BridgeConfig = match self.config.take() {
            Some(c) => c,
            None => {
                return Err(BridgeError::NotInitialized);
            },
        };
        config.authorized_callers = copy;
        self.config = Some(config);
        Ok(())
    }

    /// The error `remove_authorized_caller` reports, if any.
    pub open spec fn remove_error(&self, caller: Address, target_caller: Address) -> Option<
        BridgeError,
    > {
        if self.auth_error(caller) is Some {
            self.auth_error(caller)
        } else if !self.callers().contains(target_caller) {
            Some(BridgeError::NotAuthorized)
        } else {
            None
        }
    }

    /// Removes every occurrence of `target_caller` from the authorized
    /// callers, at the request of an authorized `caller`; refused when it is
    /// not on the list.
    pub fn remove_authorized_caller(&mut self, caller: Address, target_caller: Address) -> (r:
        Result<(), BridgeError>)
        requires
            old(self).wf(),
        ensures
            final(self).wf(),
            match old(self).remove_error(caller, target_caller) {
                Some(e) => r == Err::<(), BridgeError>(e) && *final(self) == *old(self),
                None => {
                    &&& r is Ok
                    &&& final(self).authorized_callers is Some
                    &&& final(self).callers() == without(old(self).callers(), target_caller)
                    &&& final(self).config is Some
                    &&& config_with_callers(
                        final(self).config->0,
                        old(self).config->0,
                        without(old(self).callers(), target_caller),
                    )
                    &&& final(self).payloads@ == old(self).payloads@
                    &&& final(self).execution_logs@ == old(self).execution_logs@
                    &&& final(self).next_execution_id == old(self).next_execution_id
                },
            },
    {
        match self.require_authorized_caller(caller) {
            Ok(()) => {},
            Err(e) => {
                return Err(e);
            },
        }
        let authorized: &Vec<Address> = match &self.authorized_callers {
            Some(v) => v,
            None => {
                return Err(BridgeError::NotInitialized);
            },
        };
        let mut found: bool = false;
        let mut new_authorized: Vec<Address> = Vec::new();
        let mut i: usize = 0;
        while i < authorized.len()
            invariant
                0 <= i <= authorized@.len(),
                new_authorized@ == without(authorized@.take(i as int), target_caller),
                found == authorized@.take(i as int).contains(target_caller),
            decreases authorized@.len() - i,
        {
            let existing: Address = authorized[i];
            proof {
                let t = authorized@.take(i as int + 1);
                assert(t.drop_last() =~= authorized@.take(i as int));
                assert(t.last() == existing);
                if t.contains(target_caller) {
                    let k = choose|k: int| 0 <= k < t.len() && t[k] == target_caller;
                    if k < i {
                        assert(authorized@.take(i as int)[k] == target_caller);
                    }
                }
                if authorized@.take(i as int).contains(target_caller) {
                    let k = choose|k: int|
                        0 <= k < i && authorized@.take(i as int)[k] == target_caller;
                    assert(t[k] == target_caller);
                }
            }
            if existing == target_caller {
                found = true;
            } else {
                new_authorized.push(existing);
            }
            i = i + 1;
        }
        proof {
            assert(authorized@.take(authorized@.len() as int) =~= authorized@);
        }
        if !found {
            return Err(BridgeError::NotAuthorized);
        }
        let copy: Vec<Address> = copy_vec(&new_authorized);
        self.authorized_callers = Some(new_authorized);
        let mut config: BridgeConfig = match self.config.take() {
            Some(c) => c,
            None => {
                return Err(BridgeError::NotInitialized);
            },
        };
        config.authorized_callers = copy;
        self.config = Some(config);
        Ok(())
    }

    /// The bridge's configuration.
    pub fn get_config(&self) -> (r: Result<&BridgeConfig, BridgeError>)
        ensures
            self.config is Some ==> r is Ok && *r->Ok_0 == self.config->0,
            self.config is None ==> r is Err && r->Err_0 == BridgeError::NotInitialized,
    {
        match &self.config {
            Some(c) => Ok(c),
            None => Err(BridgeError::NotInitialized),
        }
    }

    /// The log of proposal `proposal_id`'s execution.
    pub fn get_execution_log(&self, proposal_id: u64) -> (r: Result<&ExecutionResult, BridgeError>)
        ensures
            self.execution_logs@.contains_key(proposal_id) ==> r is Ok && *r->Ok_0
                == self.execution_logs@[proposal_id],
            !self.execution_logs@.contains_key(proposal_id) ==> r is Err && r->Err_0
                == BridgeError::ProposalNotFound,
    {
        match self.execution_logs.get(&proposal_id) {
            Some(l) => Ok(l),
            None => Err(BridgeError::ProposalNotFound),
        }
    }

    /// The payload proposal `proposal_id` was executed with.
    pub fn get_payload(&self, proposal_id: u64) -> (r: Result<&AtomicGrantPayload, BridgeError>)
        ensures
            self.payloads@.contains_key(proposal_id) ==> r is Ok && *r->Ok_0
                == self.payloads@[proposal_id],
            !self.payloads@.contains_key(proposal_id) ==> r is Err && r->Err_0
                == BridgeError::ProposalNotFound,
    {
        match self.payloads.get(&proposal_id) {
            Some(p) => Ok(p),
            None => Err(BridgeError::ProposalNotFound),
        }
    }

    /// The authorized callers.
    pub fn get_authorized_callers(&self) -> (r: Result<&Vec<Address>, BridgeError>)
        ensures
            self.authorized_callers is Some ==> r is Ok && r->Ok_0@ == self.callers(),
            self.authorized_callers is None ==> r is Err && r->Err_0
                == BridgeError::NotInitialized,
    {
        match &self.authorized_callers {
            Some(v) => Ok(v),
            None => Err(BridgeError::NotInitialized),
        }
    }
}


/// Taking every occurrence of `x` out of a list that does not hold `x`
/// leaves it as it was.
pub proof fn lemma_without_absent(s: Seq<Address>, x: Address)
    requires
        !s.contains(x),
    ensures
        without(s, x) == s,
    decreases s.len(),
{
    if s.len() > 0 {
        assert(!s.drop_last().contains(x)) by {
            if s.drop_last().contains(x) {
                let k = choose|k: int| 0 <= k < s.drop_last().len() && s.drop_last()[k] == x;
                assert(s[k] == x);
            }
        }
        lemma_without_absent(s.drop_last(), x);
        assert(s.drop_last().push(s.last()) =~= s);
    }
}

/// After removal, `x` is gone from the list and every other entry is kept.
pub proof fn lemma_without_membership(s: Seq<Address>, x: Address)
    ensures
        !without(s, x).contains(x),
        forall|y: Address| y != x ==> (#[trigger] without(s, x).contains(y) <==> s.contains(y)),
    decreases s.len(),
{
    broadcast use vstd::seq_lib::lemma_seq_contains_after_push;

    if s.len() == 0 {
        assert(without(s, x) =~= Seq::<Address>::empty());
    } else {
        let p = s.drop_last();
        lemma_without_membership(p, x);
        assert(s =~= p.push(s.last()));
        if s.last() == x {
            assert(without(s, x) == without(p, x));
        } else {
            assert(without(s, x) == without(p, x).push(s.last()));
        }
        assert forall|y: Address| y != x implies (without(s, x).contains(y) <==> s.contains(y)) by {
            assert(without(p, x).contains(y) <==> p.contains(y));
            assert(s.contains(y) <==> p.push(s.last()).contains(y));
        }
    }
}

/// Authorizing a new caller and then removing it again leaves the list of
/// authorized callers as it was.
pub proof fn lemma_add_then_remove_caller(callers: Seq<Address>, new_caller: Address)
    requires
        !callers.contains(new_caller),
    ensures
        without(callers.push(new_caller), new_caller) == callers,
{
    assert(callers.push(new_caller).drop_last() =~= callers);
    lemma_without_absent(callers, new_caller);
}

/// The assets kept with a payload hold each asset once, and exactly the
/// assets the proposal's grants use.
pub proof fn lemma_unique_assets(s: Seq<Address>)
    ensures
        unique_in_order(s).no_duplicates(),
        forall|a: Address| #[trigger] unique_in_order(s).contains(a) <==> s.contains(a),
    decreases s.len(),
{
    broadcast use vstd::seq_lib::lemma_seq_contains_after_push;

    if s.len() > 0 {
        let p = s.drop_last();
        lemma_unique_assets(p);
        let u = unique_in_order(p);
        assert(s =~= p.push(s.last()));
        assert forall|a: Address| #[trigger] unique_in_order(s).contains(a) <==> s.contains(a) by {
            assert(u.contains(a) <==> p.contains(a));
            assert(s.contains(a) <==> p.push(s.last()).contains(a));
            if !u.contains(s.last()) {
                assert(u.push(s.last()).contains(a) <==> (s.last() == a || u.contains(a)));
            }
        }
        if !u.contains(s.last()) {
            assert forall|i: int, j: int|
                0 <= i < unique_in_order(s).len() && 0 <= j < unique_in_order(s).len() && i
                    != j implies unique_in_order(s)[i] != unique_in_order(s)[j] by {
                if i < u.len() && j < u.len() {
                    assert(u[i] != u[j]);
                } else if i < u.len() {
                    assert(u.contains(u[i]));
                } else {
                    assert(u.contains(u[j]));
                }
            }
        }
    }
}

/// A proposal executes at most once: once its execution has gone through,
/// whatever the grant contract answered, every further request for it is
/// refused, and the same request from the same caller is refused as already
/// executed.
pub proof fn lemma_proposal_executes_once(
    pre: AtomicBridge,
    post: AtomicBridge,
    caller: Address,
    proposal_id: u64,
    configs: Seq<GranteeConfig>,
    total_amount: i128,
    now: u64,
    answer: Result<BatchInitResult, GrantError>,
    r: Result<Vec<u64>, BridgeError>,
)
    requires
        pre.wf(),
        pre.execute_error(caller, proposal_id, configs.len(), total_amount) is None,
        pre.execution_recorded(&post, proposal_id, configs, total_amount, now, answer, r),
    ensures
        post.wf(),
        post.execute_error(caller, proposal_id, configs.len(), total_amount) == Some(
            BridgeError::AlreadyExecuted,
        ),
        forall|c: Address, n: nat, t: i128| #[trigger] post.execute_error(c, proposal_id, n, t) is Some,
{
    assert(post.execution_logs@.contains_key(proposal_id));
}

/// A request refused by the checks leaves the bridge as it was, and one
/// that passes them leaves a payload but no log behind until the grant
/// contract's answer is recorded.
pub proof fn lemma_prepared_execution_is_pending(
    pre: AtomicBridge,
    post: AtomicBridge,
    proposal_id: u64,
    configs: Seq<GranteeConfig>,
    total_amount: i128,
    now: u64,
)
    requires
        pre.execution_prepared(&post, proposal_id, configs, total_amount, now),
    ensures
        post.payloads@.contains_key(proposal_id),
        !post.execution_logs@.contains_key(proposal_id) <==> !pre.execution_logs@.contains_key(
            proposal_id,
        ),
{
}

/// A bridge that is not active refuses to execute, whoever the authorized
/// caller and whatever the proposal.
pub proof fn lemma_inactive_bridge_refuses(b: AtomicBridge, caller: Address, proposal_id: u64, n: nat, total_amount: i128)
    requires
        b.wf(),
        b.config is Some,
        b.config->0.status != BridgeStatus::Active,
        b.auth_error(caller) is None,
    ensures
        b.execute_error(caller, proposal_id, n, total_amount) == Some(BridgeError::BridgePaused),
{
}

/// Pausing an active bridge and resuming it restores its configuration.
pub proof fn lemma_pause_then_resume(c0: BridgeConfig, c1: BridgeConfig, c2: BridgeConfig)
    requires
        c0.status == BridgeStatus::Active,
        config_with_status(c1, c0, BridgeStatus::Paused),
        config_with_status(c2, c1, BridgeStatus::Active),
    ensures
        config_with_status(c2, c0, c0.status),
{
}


/// Only authorized callers act on the bridge: for anyone else, executing a
/// proposal, pausing, resuming and managing the caller list are all refused
/// with the same error, before anything else is looked at.
pub proof fn lemma_only_authorized_callers_act(b: AtomicBridge, caller: Address)
    requires
        b.auth_error(caller) is Some,
    ensures
        forall|id: u64, n: nat, t: i128| #[trigger]
            b.execute_error(caller, id, n, t) == b.auth_error(caller),
        b.pause_error(caller) == b.auth_error(caller),
        b.resume_error(caller) == b.auth_error(caller),
        forall|x: Address| #[trigger] b.add_error(caller, x) == b.auth_error(caller),
        forall|x: Address| #[trigger] b.remove_error(caller, x) == b.auth_error(caller),
{
}

/// `post` is `pre` after one proposal went through to the grant contract,
/// whatever the proposal and whatever the grant contract answered.
pub open spec fn executed_once(pre: AtomicBridge, post: AtomicBridge) -> bool {
    exists|
        proposal_id: u64,
        configs: Seq<GranteeConfig>,
        total_amount: i128,
        now: u64,
        answer: Result<BatchInitResult, GrantError>,
        r: Result<Vec<u64>, BridgeError>,
    |
        #[trigger] pre.execution_recorded(&post, proposal_id, configs, total_amount, now, answer, r)
}

/// Grant ids are handed out in blocks of 1000: starting from a freshly
/// initialized bridge, the execution that follows `k` earlier ones gives
/// the grant contract first id `1 + 1000 * k`.
pub proof fn lemma_execution_ids_advance(states: Seq<AtomicBridge>)
    requires
        states.len() >= 1,
        states[0].next_execution_id == Some(1u64),
        1 + 1000 * (states.len() - 1) <= u64::MAX,
        forall|i: int| 0 <= i < states.len() - 1 ==> executed_once(#[trigger] states[i], states[i + 1]),
    ensures
        forall|k: int| 0 <= k < states.len() ==> #[trigger] states[k].next_id() == 1 + 1000 * k,
    decreases states.len(),
{
    if states.len() > 1 {
        let p = states.drop_last();
        assert forall|i: int| 0 <= i < p.len() - 1 implies executed_once(#[trigger] p[i], p[i + 1]) by {
            assert(p[i] == states[i] && p[i + 1] == states[i + 1]);
        }
        lemma_execution_ids_advance(p);
        let n = states.len() - 1;
        assert(executed_once(states[n - 1], states[n]));
        assert(p[n - 1] == states[n - 1]);
        assert forall|k: int| 0 <= k < states.len() implies #[trigger] states[k].next_id() == 1 + 1000 * k by {
            if k < n {
                assert(p[k] == states[k]);
            }
        }
    }
}

} // verus!
