use vstd::prelude::*;

use crate::params::{
    alonzo_agree, babbage_agree, conway_agree, copy_model, copy_models, era_of, model_view,
    models_view, params_agree, protocol_of, AlonzoProtParams, BabbageProtParams, BlockVersion,
    ByronProtParams, ConwayProtParams, CostModels, DRepVotingThresholds, Era, ExUnitPrices,
    ExUnits, Language, LanguageCostModel, MultiEraProtocolParameters, Nonce, PoolVotingThresholds,
    ProtocolVersion, RationalNumber, ShelleyProtParams, SoftForkRule,
};

verus! {

/// Alonzo genesis values for the fields that the Alonzo era introduces.
#[derive(Clone, Debug)]
pub struct AlonzoGenesis {
    pub lovelace_per_utxo_word: u64,
    pub cost_models: Vec<LanguageCostModel>,
    pub execution_prices: ExUnitPrices,
    pub max_tx_ex_units: ExUnits,
    pub max_block_ex_units: ExUnits,
    pub max_value_size: u64,
    pub collateral_percentage: u64,
    pub max_collateral_inputs: u64,
}

/// Conway genesis values for the fields that the Conway era introduces.
#[derive(Clone, Debug)]
pub struct ConwayGenesis {
    pub plutus_v3_cost_model: Vec<i64>,
}

/// The genesis configuration of every era, read-only for the whole fold.
#[derive(Clone, Debug)]
pub struct Genesis {
    pub byron: ByronGenesis,
    pub shelley: ShelleyGenesis,
    pub alonzo: AlonzoGenesis,
    pub conway: ConwayGenesis,
}

/// A fold that cannot go on.
#[derive(Clone, Copy, Debug, PartialEq, Eq, Structural)]
pub enum PParamsError {
    /// No rule is known for moving parameters of `era` to protocol version `next_protocol`.
    UnhandledTransition { era: Era, next_protocol: u64 },
}

/// The model of the first entry for language `l` at index `i` or later.
pub open spec fn first_model_from(s: Seq<LanguageCostModel>, l: Language, i: int) -> Option<Vec<i64>>
    decreases s.len() - i,
{
    if i < 0 || i >= s.len() {
        None
    } else if s[i].language == l {
        Some(s[i].model)
    } else {
        first_model_from(s, l, i + 1)
    }
}

/// Tables with the same contents give the same first model for a language.
pub proof fn lemma_first_model_by_contents(a: Vec<LanguageCostModel>, b: Vec<LanguageCostModel>, l: Language, i: int)
    requires
        models_view(a) == models_view(b),
        0 <= i,
    ensures
        model_view(first_model_from(a@, l, i)) == model_view(first_model_from(b@, l, i)),
    decreases a@.len() - i,
{
    assert(models_view(a).len() == a@.len());
    if i < a@.len() {
        assert(models_view(a)[i] == models_view(b)[i]);
        lemma_first_model_by_contents(a, b, l, i + 1);
    }
}

/// A copy of the model of the first entry for a language, if any.
pub fn first_model(v: &Vec<LanguageCostModel>, l: Language) -> (r: Option<Vec<i64>>)
    ensures
        model_view(r) == model_view(first_model_from(v@, l, 0)),
{
    let mut i: usize = 0;
    while i < v.len()
        invariant
            i <= v.len(),
            first_model_from(v@, l, 0) == first_model_from(v@, l, i as int),
        decreases v.len() - i,
    {
        if v[i].language == l {
            return Some(copy_model(&v[i].model));
        }
        i = i + 1;
    }
    None
}

/// Conway pool voting thresholds that no genesis or update sets yet: all zero.
pub open spec fn unwired_pool_thresholds_spec() -> PoolVotingThresholds {
    let z = RationalNumber { numerator: 0, denominator: 1 };
    PoolVotingThresholds {
        motion_no_confidence: z,
        committee_normal: z,
        committee_no_confidence: z,
        hard_fork_initiation: z,
        security_voting_threshold: z,
    }
}

/// The unwired Conway pool voting thresholds.
pub fn unwired_pool_thresholds() -> (r: PoolVotingThresholds)
    ensures
        r == unwired_pool_thresholds_spec(),
{
    let z = RationalNumber { numerator: 0, denominator: 1 };
    PoolVotingThresholds {
        motion_no_confidence: z,
        committee_normal: z,
        committee_no_confidence: z,
        hard_fork_initiation: z,
        security_voting_threshold: z,
    }
}

/// Conway representative voting thresholds that no genesis or update sets yet: all zero.
pub open spec fn unwired_drep_thresholds_spec() -> DRepVotingThresholds {
    let z = RationalNumber { numerator: 0, denominator: 1 };
    DRepVotingThresholds {
        motion_no_confidence: z,
        committee_normal: z,
        committee_no_confidence: z,
        update_constitution: z,
        hard_fork_initiation: z,
        pp_network_group: z,
        pp_economic_group: z,
        pp_technical_group: z,
        pp_governance_group: z,
        treasury_withdrawal: z,
    }
}

/// The unwired Conway representative voting thresholds.
pub fn unwired_drep_thresholds() -> (r: DRepVotingThresholds)
    ensures
        r == unwired_drep_thresholds_spec(),
{
    let z = RationalNumber { numerator: 0, denominator: 1 };
    DRepVotingThresholds {
        motion_no_confidence: z,
        committee_normal: z,
        committee_no_confidence: z,
        update_constitution: z,
        hard_fork_initiation: z,
        pp_network_group: z,
        pp_economic_group: z,
        pp_technical_group: z,
        pp_governance_group: z,
        treasury_withdrawal: z,
    }
}

/// Byron genesis values that the Byron parameters start from.
#[derive(Clone, Copy, Debug, PartialEq, Eq)]
pub struct ByronGenesis {
    pub summand: u64,
    pub multiplier: u64,
    pub max_tx_size: u64,
    pub script_version: u16,
    pub slot_duration: u64,
    pub max_block_size: u64,
    pub max_header_size: u64,
    pub max_proposal_size: u64,
    pub mpc_thd: u64,
    pub heavy_del_thd: u64,
    pub update_vote_thd: u64,
    pub update_proposal_thd: u64,
    pub update_implicit: u64,
    pub soft_fork_rule: SoftForkRule,
    pub unlock_stake_epoch: u64,
}

/// Shelley genesis protocol parameters.
#[derive(Clone, Copy, Debug, PartialEq, Eq)]
pub struct ShelleyGenesis {
    pub protocol_version: ProtocolVersion,
    pub max_block_body_size: u64,
    pub max_transaction_size: u64,
    pub max_block_header_size: u64,
    pub key_deposit: u64,
    pub min_utxo_value: u64,
    pub minfee_a: u64,
    pub minfee_b: u64,
    pub pool_deposit: u64,
    pub desired_number_of_stake_pools: u64,
    pub min_pool_cost: u64,
    pub expansion_rate: RationalNumber,
    pub treasury_growth_rate: RationalNumber,
    pub maximum_epoch: u64,
    pub pool_pledge_influence: RationalNumber,
    pub decentralization_constant: RationalNumber,
    pub extra_entropy: Nonce,
}

/// Byron parameters as genesis gives them, at block version 0.0.0.
pub open spec fn bootstrap_byron_spec(g: ByronGenesis) -> ByronProtParams {
    ByronProtParams {
        block_version: BlockVersion { major: 0, minor: 0, alt: 0 },
        summand: g.summand,
        multiplier: g.multiplier,
        max_tx_size: g.max_tx_size,
        script_version: g.script_version,
        slot_duration: g.slot_duration,
        max_block_size: g.max_block_size,
        max_header_size: g.max_header_size,
        max_proposal_size: g.max_proposal_size,
        mpc_thd: g.mpc_thd,
        heavy_del_thd: g.heavy_del_thd,
        update_vote_thd: g.update_vote_thd,
        update_proposal_thd: g.update_proposal_thd,
        update_implicit: g.update_implicit,
        soft_fork_rule: g.soft_fork_rule,
        unlock_stake_epoch: g.unlock_stake_epoch,
    }
}

/// Builds the Byron parameters from genesis.
pub fn bootstrap_byron_pparams(g: &ByronGenesis) -> (r: ByronProtParams)
    ensures
        r == bootstrap_byron_spec(*g),
{
    ByronProtParams {
        block_version: BlockVersion { major: 0, minor: 0, alt: 0 },
        summand: g.summand,
        multiplier: g.multiplier,
        max_tx_size: g.max_tx_size,
        script_version: g.script_version,
        slot_duration: g.slot_duration,
        max_block_size: g.max_block_size,
        max_header_size: g.max_header_size,
        max_proposal_size: g.max_proposal_size,
        mpc_thd: g.mpc_thd,
        heavy_del_thd: g.heavy_del_thd,
        update_vote_thd: g.update_vote_thd,
        update_proposal_thd: g.update_proposal_thd,
        update_implicit: g.update_implicit,
        soft_fork_rule: g.soft_fork_rule,
        unlock_stake_epoch: g.unlock_stake_epoch,
    }
}

/// Shelley parameters as genesis gives them.
pub open spec fn bootstrap_shelley_spec(g: ShelleyGenesis) -> ShelleyProtParams {
    ShelleyProtParams {
        protocol_version: g.protocol_version,
        max_block_body_size: g.max_block_body_size,
        max_transaction_size: g.max_transaction_size,
        max_block_header_size: g.max_block_header_size,
        key_deposit: g.key_deposit,
        min_utxo_value: g.min_utxo_value,
        minfee_a: g.minfee_a,
        minfee_b: g.minfee_b,
        pool_deposit: g.pool_deposit,
        desired_number_of_stake_pools: g.desired_number_of_stake_pools,
        min_pool_cost: g.min_pool_cost,
        expansion_rate: g.expansion_rate,
        treasury_growth_rate: g.treasury_growth_rate,
        maximum_epoch: g.maximum_epoch,
        pool_pledge_influence: g.pool_pledge_influence,
        decentralization_constant: g.decentralization_constant,
        extra_entropy: g.extra_entropy,
    }
}

/// Builds the Shelley parameters from genesis.
pub fn bootstrap_shelley_pparams(g: &ShelleyGenesis) -> (r: ShelleyProtParams)
    ensures
        r == bootstrap_shelley_spec(*g),
{
    ShelleyProtParams {
        protocol_version: g.protocol_version,
        max_block_body_size: g.max_block_body_size,
        max_transaction_size: g.max_transaction_size,
        max_block_header_size: g.max_block_header_size,
        key_deposit: g.key_deposit,
        min_utxo_value: g.min_utxo_value,
        minfee_a: g.minfee_a,
        minfee_b: g.minfee_b,
        pool_deposit: g.pool_deposit,
        desired_number_of_stake_pools: g.desired_number_of_stake_pools,
        min_pool_cost: g.min_pool_cost,
        expansion_rate: g.expansion_rate,
        treasury_growth_rate: g.treasury_growth_rate,
        maximum_epoch: g.maximum_epoch,
        pool_pledge_influence: g.pool_pledge_influence,
        decentralization_constant: g.decentralization_constant,
        extra_entropy: g.extra_entropy,
    }
}

/// Alonzo parameters at the fork: Shelley's fields carried over, the new ones from the Alonzo genesis.
pub open spec fn bootstrap_alonzo_spec(prev: ShelleyProtParams, g: AlonzoGenesis) -> AlonzoProtParams {
    AlonzoProtParams {
        minfee_a: prev.minfee_a,
        minfee_b: prev.minfee_b,
        max_block_body_size: prev.max_block_body_size,
        max_transaction_size: prev.max_transaction_size,
        max_block_header_size: prev.max_block_header_size,
        key_deposit: prev.key_deposit,
        pool_deposit: prev.pool_deposit,
        protocol_version: prev.protocol_version,
        min_pool_cost: prev.min_pool_cost,
        desired_number_of_stake_pools: prev.desired_number_of_stake_pools,
        expansion_rate: prev.expansion_rate,
        treasury_growth_rate: prev.treasury_growth_rate,
        maximum_epoch: prev.maximum_epoch,
        pool_pledge_influence: prev.pool_pledge_influence,
        decentralization_constant: prev.decentralization_constant,
        extra_entropy: prev.extra_entropy,
        ada_per_utxo_byte: g.lovelace_per_utxo_word,
        execution_costs: g.execution_prices,
        max_tx_ex_units: g.max_tx_ex_units,
        max_block_ex_units: g.max_block_ex_units,
        max_value_size: g.max_value_size,
        collateral_percentage: g.collateral_percentage,
        max_collateral_inputs: g.max_collateral_inputs,
        cost_models_for_script_languages: g.cost_models,
    }
}

/// Builds the Alonzo parameters at the fork from Shelley.
pub fn bootstrap_alonzo_pparams(prev: ShelleyProtParams, g: &AlonzoGenesis) -> (r: AlonzoProtParams)
    ensures
        alonzo_agree(r, bootstrap_alonzo_spec(prev, *g)),
{
    AlonzoProtParams {
        minfee_a: prev.minfee_a,
        minfee_b: prev.minfee_b,
        max_block_body_size: prev.max_block_body_size,
        max_transaction_size: prev.max_transaction_size,
        max_block_header_size: prev.max_block_header_size,
        key_deposit: prev.key_deposit,
        pool_deposit: prev.pool_deposit,
        protocol_version: prev.protocol_version,
        min_pool_cost: prev.min_pool_cost,
        desired_number_of_stake_pools: prev.desired_number_of_stake_pools,
        expansion_rate: prev.expansion_rate,
        treasury_growth_rate: prev.treasury_growth_rate,
        maximum_epoch: prev.maximum_epoch,
        pool_pledge_influence: prev.pool_pledge_influence,
        decentralization_constant: prev.decentralization_constant,
        extra_entropy: prev.extra_entropy,
        ada_per_utxo_byte: g.lovelace_per_utxo_word,
        execution_costs: g.execution_prices,
        max_tx_ex_units: g.max_tx_ex_units,
        max_block_ex_units: g.max_block_ex_units,
        max_value_size: g.max_value_size,
        collateral_percentage: g.collateral_percentage,
        max_collateral_inputs: g.max_collateral_inputs,
        cost_models_for_script_languages: copy_models(&g.cost_models),
    }
}

/// Babbage parameters at the fork: Alonzo's fields carried over; of the cost models, the first
/// Plutus V1 entry of the Alonzo table.
pub open spec fn bootstrap_babbage_spec(prev: AlonzoProtParams) -> BabbageProtParams {
    BabbageProtParams {
        minfee_a: prev.minfee_a,
        minfee_b: prev.minfee_b,
        max_block_body_size: prev.max_block_body_size,
        max_transaction_size: prev.max_transaction_size,
        max_block_header_size: prev.max_block_header_size,
        key_deposit: prev.key_deposit,
        pool_deposit: prev.pool_deposit,
        protocol_version: prev.protocol_version,
        min_pool_cost: prev.min_pool_cost,
        desired_number_of_stake_pools: prev.desired_number_of_stake_pools,
        expansion_rate: prev.expansion_rate,
        treasury_growth_rate: prev.treasury_growth_rate,
        maximum_epoch: prev.maximum_epoch,
        pool_pledge_influence: prev.pool_pledge_influence,
        decentralization_constant: prev.decentralization_constant,
        extra_entropy: prev.extra_entropy,
        ada_per_utxo_byte: prev.ada_per_utxo_byte,
        execution_costs: prev.execution_costs,
        max_tx_ex_units: prev.max_tx_ex_units,
        max_block_ex_units: prev.max_block_ex_units,
        max_value_size: prev.max_value_size,
        collateral_percentage: prev.collateral_percentage,
        max_collateral_inputs: prev.max_collateral_inputs,
        cost_models_for_script_languages: CostModels {
            plutus_v1: first_model_from(prev.cost_models_for_script_languages@, Language::PlutusV1, 0),
            plutus_v2: None,
            plutus_v3: None,
        },
    }
}

/// Builds the Babbage parameters at the fork from Alonzo.
pub fn bootstrap_babbage_pparams(prev: AlonzoProtParams) -> (r: BabbageProtParams)
    ensures
        babbage_agree(r, bootstrap_babbage_spec(prev)),
{
    let plutus_v1 = first_model(&prev.cost_models_for_script_languages, Language::PlutusV1);
    BabbageProtParams {
        minfee_a: prev.minfee_a,
        minfee_b: prev.minfee_b,
        max_block_body_size: prev.max_block_body_size,
        max_transaction_size: prev.max_transaction_size,
        max_block_header_size: prev.max_block_header_size,
        key_deposit: prev.key_deposit,
        pool_deposit: prev.pool_deposit,
        protocol_version: prev.protocol_version,
        min_pool_cost: prev.min_pool_cost,
        desired_number_of_stake_pools: prev.desired_number_of_stake_pools,
        expansion_rate: prev.expansion_rate,
        treasury_growth_rate: prev.treasury_growth_rate,
        maximum_epoch: prev.maximum_epoch,
        pool_pledge_influence: prev.pool_pledge_influence,
        decentralization_constant: prev.decentralization_constant,
        extra_entropy: prev.extra_entropy,
        ada_per_utxo_byte: prev.ada_per_utxo_byte,
        execution_costs: prev.execution_costs,
        max_tx_ex_units: prev.max_tx_ex_units,
        max_block_ex_units: prev.max_block_ex_units,
        max_value_size: prev.max_value_size,
        collateral_percentage: prev.collateral_percentage,
        max_collateral_inputs: prev.max_collateral_inputs,
        cost_models_for_script_languages: CostModels { plutus_v1, plutus_v2: None, plutus_v3: None },
    }
}

/// Conway parameters at the fork: Babbage's fields carried over, the Plutus V3 cost model from
/// the Conway genesis, and the governance fields at their unwired defaults.
pub open spec fn bootstrap_conway_spec(prev: BabbageProtParams, g: ConwayGenesis) -> ConwayProtParams {
    ConwayProtParams {
        minfee_a: prev.minfee_a,
        minfee_b: prev.minfee_b,
        max_block_body_size: prev.max_block_body_size,
        max_transaction_size: prev.max_transaction_size,
        max_block_header_size: prev.max_block_header_size,
        key_deposit: prev.key_deposit,
        pool_deposit: prev.pool_deposit,
        protocol_version: prev.protocol_version,
        min_pool_cost: prev.min_pool_cost,
        desired_number_of_stake_pools: prev.desired_number_of_stake_pools,
        expansion_rate: prev.expansion_rate,
        treasury_growth_rate: prev.treasury_growth_rate,
        maximum_epoch: prev.maximum_epoch,
        pool_pledge_influence: prev.pool_pledge_influence,
        ada_per_utxo_byte: prev.ada_per_utxo_byte,
        execution_costs: prev.execution_costs,
        max_tx_ex_units: prev.max_tx_ex_units,
        max_block_ex_units: prev.max_block_ex_units,
        max_value_size: prev.max_value_size,
        collateral_percentage: prev.collateral_percentage,
        max_collateral_inputs: prev.max_collateral_inputs,
        cost_models_for_script_languages: CostModels {
            plutus_v1: prev.cost_models_for_script_languages.plutus_v1,
            plutus_v2: prev.cost_models_for_script_languages.plutus_v2,
            plutus_v3: Some(g.plutus_v3_cost_model),
        },
        pool_voting_thresholds: unwired_pool_thresholds_spec(),
        drep_voting_thresholds: unwired_drep_thresholds_spec(),
        min_committee_size: 0,
        committee_term_limit: 0,
        governance_action_validity_period: 0,
        governance_action_deposit: 0,
        drep_deposit: 0,
        drep_inactivity_period: 0,
        minfee_refscript_cost_per_byte: RationalNumber { numerator: 0, denominator: 1 },
    }
}

/// Builds the Conway parameters at the fork from Babbage.
pub fn bootstrap_conway_pparams(prev: BabbageProtParams, g: &ConwayGenesis) -> (r: ConwayProtParams)
    ensures
        conway_agree(r, bootstrap_conway_spec(prev, *g)),
{
    ConwayProtParams {
        minfee_a: prev.minfee_a,
        minfee_b: prev.minfee_b,
        max_block_body_size: prev.max_block_body_size,
        max_transaction_size: prev.max_transaction_size,
        max_block_header_size: prev.max_block_header_size,
        key_deposit: prev.key_deposit,
        pool_deposit: prev.pool_deposit,
        protocol_version: prev.protocol_version,
        min_pool_cost: prev.min_pool_cost,
        desired_number_of_stake_pools: prev.desired_number_of_stake_pools,
        expansion_rate: prev.expansion_rate,
        treasury_growth_rate: prev.treasury_growth_rate,
        maximum_epoch: prev.maximum_epoch,
        pool_pledge_influence: prev.pool_pledge_influence,
        ada_per_utxo_byte: prev.ada_per_utxo_byte,
        execution_costs: prev.execution_costs,
        max_tx_ex_units: prev.max_tx_ex_units,
        max_block_ex_units: prev.max_block_ex_units,
        max_value_size: prev.max_value_size,
        collateral_percentage: prev.collateral_percentage,
        max_collateral_inputs: prev.max_collateral_inputs,
        cost_models_for_script_languages: CostModels {
            plutus_v1: prev.cost_models_for_script_languages.plutus_v1,
            plutus_v2: prev.cost_models_for_script_languages.plutus_v2,
            plutus_v3: Some(copy_model(&g.plutus_v3_cost_model)),
        },
        pool_voting_thresholds: unwired_pool_thresholds(),
        drep_voting_thresholds: unwired_drep_thresholds(),
        min_committee_size: 0,
        committee_term_limit: 0,
        governance_action_validity_period: 0,
        governance_action_deposit: 0,
        drep_deposit: 0,
        drep_inactivity_period: 0,
        minfee_refscript_cost_per_byte: RationalNumber { numerator: 0, denominator: 1 },
    }
}

/// The fields that an era shares with the one before it hold, right after the fork, the
/// values they held before it; within an era the parameters do not change at a fork.
pub open spec fn inherits(before: MultiEraProtocolParameters, after: MultiEraProtocolParameters) -> bool {
    match (before, after) {
        (MultiEraProtocolParameters::Shelley(x), MultiEraProtocolParameters::Alonzo(y)) => {
            &&& x.minfee_a == y.minfee_a
            &&& x.minfee_b == y.minfee_b
            &&& x.max_block_body_size == y.max_block_body_size
            &&& x.max_transaction_size == y.max_transaction_size
            &&& x.max_block_header_size == y.max_block_header_size
            &&& x.key_deposit == y.key_deposit
            &&& x.pool_deposit == y.pool_deposit
            &&& x.protocol_version == y.protocol_version
            &&& x.min_pool_cost == y.min_pool_cost
            &&& x.desired_number_of_stake_pools == y.desired_number_of_stake_pools
            &&& x.expansion_rate == y.expansion_rate
            &&& x.treasury_growth_rate == y.treasury_growth_rate
            &&& x.maximum_epoch == y.maximum_epoch
            &&& x.pool_pledge_influence == y.pool_pledge_influence
            &&& x.decentralization_constant == y.decentralization_constant
            &&& x.extra_entropy == y.extra_entropy
        },
        (MultiEraProtocolParameters::Alonzo(x), MultiEraProtocolParameters::Babbage(y)) => {
            &&& x.minfee_a == y.minfee_a
            &&& x.minfee_b == y.minfee_b
            &&& x.max_block_body_size == y.max_block_body_size
            &&& x.max_transaction_size == y.max_transaction_size
            &&& x.max_block_header_size == y.max_block_header_size
            &&& x.key_deposit == y.key_deposit
            &&& x.pool_deposit == y.pool_deposit
            &&& x.protocol_version == y.protocol_version
            &&& x.min_pool_cost == y.min_pool_cost
            &&& x.desired_number_of_stake_pools == y.desired_number_of_stake_pools
            &&& x.expansion_rate == y.expansion_rate
            &&& x.treasury_growth_rate == y.treasury_growth_rate
            &&& x.maximum_epoch == y.maximum_epoch
            &&& x.pool_pledge_influence == y.pool_pledge_influence
            &&& x.decentralization_constant == y.decentralization_constant
            &&& x.extra_entropy == y.extra_entropy
            &&& x.ada_per_utxo_byte == y.ada_per_utxo_byte
            &&& x.execution_costs == y.execution_costs
            &&& x.max_tx_ex_units == y.max_tx_ex_units
            &&& x.max_block_ex_units == y.max_block_ex_units
            &&& x.max_value_size == y.max_value_size
            &&& x.collateral_percentage == y.collateral_percentage
            &&& x.max_collateral_inputs == y.max_collateral_inputs
        },
        (MultiEraProtocolParameters::Babbage(x), MultiEraProtocolParameters::Conway(y)) => {
            &&& x.minfee_a == y.minfee_a
            &&& x.minfee_b == y.minfee_b
            &&& x.max_block_body_size == y.max_block_body_size
            &&& x.max_transaction_size == y.max_transaction_size
            &&& x.max_block_header_size == y.max_block_header_size
            &&& x.key_deposit == y.key_deposit
            &&& x.pool_deposit == y.pool_deposit
            &&& x.protocol_version == y.protocol_version
            &&& x.min_pool_cost == y.min_pool_cost
            &&& x.desired_number_of_stake_pools == y.desired_number_of_stake_pools
            &&& x.expansion_rate == y.expansion_rate
            &&& x.treasury_growth_rate == y.treasury_growth_rate
            &&& x.maximum_epoch == y.maximum_epoch
            &&& x.pool_pledge_influence == y.pool_pledge_influence
            &&& x.ada_per_utxo_byte == y.ada_per_utxo_byte
            &&& x.execution_costs == y.execution_costs
            &&& x.max_tx_ex_units == y.max_tx_ex_units
            &&& x.max_block_ex_units == y.max_block_ex_units
            &&& x.max_value_size == y.max_value_size
            &&& x.collateral_percentage == y.collateral_percentage
            &&& x.max_collateral_inputs == y.max_collateral_inputs
            &&& x.cost_models_for_script_languages.plutus_v1 == y.cost_models_for_script_languages.plutus_v1
            &&& x.cost_models_for_script_languages.plutus_v2 == y.cost_models_for_script_languages.plutus_v2
        },
        (MultiEraProtocolParameters::Byron(_), MultiEraProtocolParameters::Shelley(_)) => true,
        _ => before == after,
    }
}
/// The parameters after one protocol version step, or `None` where no rule covers the
/// step. Byron moves to version 1 within the era and to Shelley at 2; Shelley stays
/// below 5 (Allegra, Mary) and moves to Alonzo at 5; Alonzo stays at 6 and moves to
/// Babbage at 7; Babbage stays at 8 and moves to Conway at 9.
pub open spec fn hardfork_spec(p: MultiEraProtocolParameters, g: Genesis, next: u64) -> Option<MultiEraProtocolParameters> {
    match p {
        MultiEraProtocolParameters::Byron(x) => if next == 1 {
            Some(p)
        } else if next == 2 {
            Some(MultiEraProtocolParameters::Shelley(bootstrap_shelley_spec(g.shelley)))
        } else {
            None
        },
        MultiEraProtocolParameters::Shelley(x) => if next < 5 {
            Some(p)
        } else if next == 5 {
            Some(MultiEraProtocolParameters::Alonzo(bootstrap_alonzo_spec(x, g.alonzo)))
        } else {
            None
        },
        MultiEraProtocolParameters::Alonzo(x) => if next == 6 {
            Some(p)
        } else if next == 7 {
            Some(MultiEraProtocolParameters::Babbage(bootstrap_babbage_spec(x)))
        } else {
            None
        },
        MultiEraProtocolParameters::Babbage(x) => if next == 8 {
            Some(p)
        } else if next == 9 {
            Some(MultiEraProtocolParameters::Conway(bootstrap_conway_spec(x, g.conway)))
        } else {
            None
        },
        MultiEraProtocolParameters::Conway(_) => None,
    }
}

/// Moves the parameters one protocol version step forward, to `next_protocol`.
pub fn advance_hardfork(current: MultiEraProtocolParameters, genesis: &Genesis, next_protocol: u64) -> (r: Result<MultiEraProtocolParameters, PParamsError>)
    ensures
        match hardfork_spec(current, *genesis, next_protocol) {
            Some(s) => r is Ok && params_agree(r->Ok_0, s),
            None => r == Err::<MultiEraProtocolParameters, PParamsError>(
                PParamsError::UnhandledTransition { era: era_of(current), next_protocol },
            ),
        },
{
    match current {
        MultiEraProtocolParameters::Byron(x) => if next_protocol == 1 {
            Ok(MultiEraProtocolParameters::Byron(x))
        } else if next_protocol == 2 {
            Ok(MultiEraProtocolParameters::Shelley(bootstrap_shelley_pparams(&genesis.shelley)))
        } else {
            Err(PParamsError::UnhandledTransition { era: Era::Byron, next_protocol })
        },
        MultiEraProtocolParameters::Shelley(x) => if next_protocol < 5 {
            Ok(MultiEraProtocolParameters::Shelley(x))
        } else if next_protocol == 5 {
            Ok(MultiEraProtocolParameters::Alonzo(bootstrap_alonzo_pparams(x, &genesis.alonzo)))
        } else {
            Err(PParamsError::UnhandledTransition { era: Era::Shelley, next_protocol })
        },
        MultiEraProtocolParameters::Alonzo(x) => if next_protocol == 6 {
            Ok(MultiEraProtocolParameters::Alonzo(x))
        } else if next_protocol == 7 {
            Ok(MultiEraProtocolParameters::Babbage(bootstrap_babbage_pparams(x)))
        } else {
            Err(PParamsError::UnhandledTransition { era: Era::Alonzo, next_protocol })
        },
        MultiEraProtocolParameters::Babbage(x) => if next_protocol == 8 {
            Ok(MultiEraProtocolParameters::Babbage(x))
        } else if next_protocol == 9 {
            Ok(MultiEraProtocolParameters::Conway(bootstrap_conway_pparams(x, &genesis.conway)))
        } else {
            Err(PParamsError::UnhandledTransition { era: Era::Babbage, next_protocol })
        },
        MultiEraProtocolParameters::Conway(_) => {
            Err(PParamsError::UnhandledTransition { era: Era::Conway, next_protocol })
        },
    }
}

/// A fork step on parameters that agree is covered for both or for neither, and gives
/// parameters that agree.
pub proof fn lemma_hardfork_respects_agreement(a: MultiEraProtocolParameters, b: MultiEraProtocolParameters, g: Genesis, next: u64)
    requires
        params_agree(a, b),
    ensures
        era_of(a) == era_of(b),
        protocol_of(a) == protocol_of(b),
        hardfork_spec(a, g, next) is Some <==> hardfork_spec(b, g, next) is Some,
        hardfork_spec(a, g, next) is Some ==> params_agree(hardfork_spec(a, g, next)->0, hardfork_spec(b, g, next)->0),
{
    match (a, b) {
        (MultiEraProtocolParameters::Alonzo(x), MultiEraProtocolParameters::Alonzo(y)) => {
            lemma_first_model_by_contents(x.cost_models_for_script_languages, y.cost_models_for_script_languages, Language::PlutusV1, 0);
        },
        _ => {},
    }
}

/// Across every fork step that a rule covers, the fields shared with the era before keep
/// their values, and a step within an era changes nothing.
pub proof fn lemma_hardfork_inherits(p: MultiEraProtocolParameters, g: Genesis, next: u64)
    ensures
        hardfork_spec(p, g, next) is Some ==> inherits(p, hardfork_spec(p, g, next)->0),
{
}

} // verus!
