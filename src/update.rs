use vstd::prelude::*;

use crate::params::{
    copy_cost_models, copy_models, alonzo_agree, babbage_agree, conway_agree, params_agree,
    AlonzoProtParams, BabbageProtParams, BlockVersion, ByronProtParams, ConwayProtParams,
    CostModels, ExUnitPrices, ExUnits, LanguageCostModel, MultiEraProtocolParameters, Nonce,
    ProtocolVersion, RationalNumber, ShelleyProtParams,
};

verus! {

/// The encoding variant that carried an update proposal.
#[derive(Clone, Copy, Debug, PartialEq, Eq, Structural)]
pub enum UpdateEra {
    Byron,
    AlonzoCompatible,
    Babbage,
    Conway,
}

/// A Byron transaction fee policy: a constant and a per-byte factor.
#[derive(Clone, Copy, Debug, PartialEq, Eq)]
pub struct TxFeePolicy {
    pub summand: u64,
    pub multiplier: u64,
}

/// The values that a Byron update proposes; `None` where it proposes nothing.
#[derive(Clone, Copy, Debug, PartialEq, Eq)]
pub struct ByronUpdate {
    pub block_version: Option<BlockVersion>,
    pub fee_policy: Option<TxFeePolicy>,
    pub max_tx_size: Option<u64>,
}

/// An update proposal, as decoded from a block: the epoch it targets and what
/// each encoding variant proposes (all `None` for a variant the block does not carry).
#[derive(Clone, Debug)]
pub struct EraUpdate {
    pub era: UpdateEra,
    pub epoch: u64,
    pub byron: ByronUpdate,
    pub alonzo_compatible: ParamUpdate,
    pub babbage: ParamUpdate,
    pub conway: ParamUpdate,
}

/// The first of two proposed values that is present, else the current value.
pub open spec fn first_present<T>(a: Option<T>, b: Option<T>, cur: T) -> T {
    match a {
        Some(v) => v,
        None => match b {
            Some(v) => v,
            None => cur,
        },
    }
}

/// The proposed value if present, else the current value.
pub open spec fn present_or<T>(a: Option<T>, cur: T) -> T {
    match a {
        Some(v) => v,
        None => cur,
    }
}

/// Picks the first of two proposed values that is present, else the current value.
pub fn first_present_of<T: Copy>(a: Option<T>, b: Option<T>, cur: T) -> (r: T)
    ensures
        r == first_present(a, b, cur),
{
    match a {
        Some(v) => v,
        None => match b {
            Some(v) => v,
            None => cur,
        },
    }
}

/// Picks the proposed value if present, else the current value.
pub fn present_or_of<T: Copy>(a: Option<T>, cur: T) -> (r: T)
    ensures
        r == present_or(a, cur),
{
    match a {
        Some(v) => v,
        None => cur,
    }
}

/// A proposed protocol version, kept only where its major number does not go below the
/// current one.
pub open spec fn not_lower(v: ProtocolVersion, cur: ProtocolVersion) -> ProtocolVersion {
    if v.major >= cur.major {
        v
    } else {
        cur
    }
}

/// Keeps a proposed protocol version unless it would lower the major number.
pub fn not_lower_of(v: ProtocolVersion, cur: ProtocolVersion) -> (r: ProtocolVersion)
    ensures
        r == not_lower(v, cur),
{
    if v.major >= cur.major {
        v
    } else {
        cur
    }
}

/// A proposed Byron block version, kept only where its major number does not go below the
/// current one.
pub open spec fn not_lower_block(v: BlockVersion, cur: BlockVersion) -> BlockVersion {
    if v.major >= cur.major {
        v
    } else {
        cur
    }
}

/// Keeps a proposed Byron block version unless it would lower the major number.
pub fn not_lower_block_of(v: BlockVersion, cur: BlockVersion) -> (r: BlockVersion)
    ensures
        r == not_lower_block(v, cur),
{
    if v.major >= cur.major {
        v
    } else {
        cur
    }
}

/// The Byron record after one update: block version, fee policy and maximum
/// transaction size take the proposed values (a block version only where its major number
/// does not go down); the rest stays.
pub open spec fn update_byron_spec(p: ByronProtParams, u: EraUpdate) -> ByronProtParams {
    let q = ByronProtParams {
        block_version: not_lower_block(present_or(u.byron.block_version, p.block_version), p.block_version),
        max_tx_size: present_or(u.byron.max_tx_size, p.max_tx_size),
        ..p
    };
    match u.byron.fee_policy {
        Some(f) => ByronProtParams { summand: f.summand, multiplier: f.multiplier, ..q },
        None => q,
    }
}

/// Applies one update to Byron parameters.
pub fn update_byron_pparams(p: ByronProtParams, u: &EraUpdate) -> (r: ByronProtParams)
    ensures
        r == update_byron_spec(p, *u),
{
    let mut q = p;
    q.block_version = not_lower_block_of(present_or_of(u.byron.block_version, q.block_version), q.block_version);
    match u.byron.fee_policy {
        Some(f) => {
            q.summand = f.summand;
            q.multiplier = f.multiplier;
        },
        None => {},
    }
    q.max_tx_size = present_or_of(u.byron.max_tx_size, q.max_tx_size);
    q
}

/// The parameters after one update, in the era they are in.
pub open spec fn apply_update_spec(p: MultiEraProtocolParameters, u: EraUpdate) -> MultiEraProtocolParameters {
    match p {
        MultiEraProtocolParameters::Byron(x) => MultiEraProtocolParameters::Byron(update_byron_spec(x, u)),
        MultiEraProtocolParameters::Shelley(x) => MultiEraProtocolParameters::Shelley(update_shelley_spec(x, u)),
        MultiEraProtocolParameters::Alonzo(x) => MultiEraProtocolParameters::Alonzo(update_alonzo_spec(x, u)),
        MultiEraProtocolParameters::Babbage(x) => MultiEraProtocolParameters::Babbage(update_babbage_spec(x, u)),
        MultiEraProtocolParameters::Conway(x) => MultiEraProtocolParameters::Conway(update_conway_spec(x, u)),
    }
}

/// Applies one update proposal to the parameters, keeping their era.
pub fn apply_param_update(current: MultiEraProtocolParameters, update: &EraUpdate) -> (r: MultiEraProtocolParameters)
    ensures
        params_agree(r, apply_update_spec(current, *update)),
{
    match current {
        MultiEraProtocolParameters::Byron(p) => MultiEraProtocolParameters::Byron(update_byron_pparams(p, update)),
        MultiEraProtocolParameters::Shelley(p) => MultiEraProtocolParameters::Shelley(update_shelley_pparams(p, update)),
        MultiEraProtocolParameters::Alonzo(p) => MultiEraProtocolParameters::Alonzo(update_alonzo_pparams(p, update)),
        MultiEraProtocolParameters::Babbage(p) => MultiEraProtocolParameters::Babbage(update_babbage_pparams(p, update)),
        MultiEraProtocolParameters::Conway(p) => MultiEraProtocolParameters::Conway(update_conway_pparams(p, update)),
    }
}

/// Updating parameters that agree gives parameters that agree.
pub proof fn lemma_update_respects_agreement(a: MultiEraProtocolParameters, b: MultiEraProtocolParameters, u: EraUpdate)
    requires
        params_agree(a, b),
    ensures
        params_agree(apply_update_spec(a, u), apply_update_spec(b, u)),
{
}

/// The values that the first proposal of one encoding variant puts forward; `None` where it proposes nothing.
#[derive(Clone, Debug)]
pub struct ParamUpdate {
    pub minfee_a: Option<u64>,
    pub minfee_b: Option<u64>,
    pub max_block_body_size: Option<u64>,
    pub max_transaction_size: Option<u64>,
    pub max_block_header_size: Option<u64>,
    pub key_deposit: Option<u64>,
    pub pool_deposit: Option<u64>,
    pub protocol_version: Option<ProtocolVersion>,
    pub min_pool_cost: Option<u64>,
    pub desired_number_of_stake_pools: Option<u64>,
    pub expansion_rate: Option<RationalNumber>,
    pub treasury_growth_rate: Option<RationalNumber>,
    pub pool_pledge_influence: Option<RationalNumber>,
    pub decentralization_constant: Option<RationalNumber>,
    pub extra_entropy: Option<Nonce>,
    pub ada_per_utxo_byte: Option<u64>,
    pub execution_costs: Option<ExUnitPrices>,
    pub max_tx_ex_units: Option<ExUnits>,
    pub max_block_ex_units: Option<ExUnits>,
    pub max_value_size: Option<u64>,
    pub collateral_percentage: Option<u64>,
    pub max_collateral_inputs: Option<u64>,
    pub alonzo_cost_models: Option<Vec<LanguageCostModel>>,
    pub cost_models: Option<CostModels>,
}

/// The Shelley record after one update: each field that the era takes from updates gets the
/// value of the first encoding, in its declared order, that proposes one (a protocol version
/// only where its major number does not go down); the rest stays.
pub open spec fn update_shelley_spec(p: ShelleyProtParams, u: EraUpdate) -> ShelleyProtParams {
    ShelleyProtParams {
        protocol_version: not_lower(first_present(u.alonzo_compatible.protocol_version, u.babbage.protocol_version, p.protocol_version), p.protocol_version),
        max_block_body_size: first_present(u.alonzo_compatible.max_block_body_size, u.babbage.max_block_body_size, p.max_block_body_size),
        max_transaction_size: first_present(u.alonzo_compatible.max_transaction_size, u.babbage.max_transaction_size, p.max_transaction_size),
        max_block_header_size: first_present(u.alonzo_compatible.max_block_header_size, u.babbage.max_block_header_size, p.max_block_header_size),
        key_deposit: first_present(u.alonzo_compatible.key_deposit, u.babbage.key_deposit, p.key_deposit),
        min_utxo_value: p.min_utxo_value,
        minfee_a: first_present(u.alonzo_compatible.minfee_a, u.babbage.minfee_a, p.minfee_a),
        minfee_b: first_present(u.alonzo_compatible.minfee_b, u.babbage.minfee_b, p.minfee_b),
        pool_deposit: first_present(u.alonzo_compatible.pool_deposit, u.babbage.pool_deposit, p.pool_deposit),
        desired_number_of_stake_pools: first_present(u.alonzo_compatible.desired_number_of_stake_pools, u.babbage.desired_number_of_stake_pools, p.desired_number_of_stake_pools),
        min_pool_cost: first_present(u.alonzo_compatible.min_pool_cost, u.babbage.min_pool_cost, p.min_pool_cost),
        expansion_rate: first_present(u.alonzo_compatible.expansion_rate, u.babbage.expansion_rate, p.expansion_rate),
        treasury_growth_rate: first_present(u.alonzo_compatible.treasury_growth_rate, u.babbage.treasury_growth_rate, p.treasury_growth_rate),
        maximum_epoch: p.maximum_epoch,
        pool_pledge_influence: first_present(u.alonzo_compatible.pool_pledge_influence, u.babbage.pool_pledge_influence, p.pool_pledge_influence),
        decentralization_constant: present_or(u.alonzo_compatible.decentralization_constant, p.decentralization_constant),
        extra_entropy: present_or(u.alonzo_compatible.extra_entropy, p.extra_entropy),
    }
}

/// Applies one update to Shelley parameters.
pub fn update_shelley_pparams(p: ShelleyProtParams, u: &EraUpdate) -> (r: ShelleyProtParams)
    ensures
        r == update_shelley_spec(p, *u),
{
    let mut q = p;
    q.protocol_version = not_lower_of(first_present_of(u.alonzo_compatible.protocol_version, u.babbage.protocol_version, q.protocol_version), q.protocol_version);
    q.max_block_body_size = first_present_of(u.alonzo_compatible.max_block_body_size, u.babbage.max_block_body_size, q.max_block_body_size);
    q.max_transaction_size = first_present_of(u.alonzo_compatible.max_transaction_size, u.babbage.max_transaction_size, q.max_transaction_size);
    q.max_block_header_size = first_present_of(u.alonzo_compatible.max_block_header_size, u.babbage.max_block_header_size, q.max_block_header_size);
    q.key_deposit = first_present_of(u.alonzo_compatible.key_deposit, u.babbage.key_deposit, q.key_deposit);
    q.minfee_a = first_present_of(u.alonzo_compatible.minfee_a, u.babbage.minfee_a, q.minfee_a);
    q.minfee_b = first_present_of(u.alonzo_compatible.minfee_b, u.babbage.minfee_b, q.minfee_b);
    q.pool_deposit = first_present_of(u.alonzo_compatible.pool_deposit, u.babbage.pool_deposit, q.pool_deposit);
    q.desired_number_of_stake_pools = first_present_of(u.alonzo_compatible.desired_number_of_stake_pools, u.babbage.desired_number_of_stake_pools, q.desired_number_of_stake_pools);
    q.min_pool_cost = first_present_of(u.alonzo_compatible.min_pool_cost, u.babbage.min_pool_cost, q.min_pool_cost);
    q.expansion_rate = first_present_of(u.alonzo_compatible.expansion_rate, u.babbage.expansion_rate, q.expansion_rate);
    q.treasury_growth_rate = first_present_of(u.alonzo_compatible.treasury_growth_rate, u.babbage.treasury_growth_rate, q.treasury_growth_rate);
    q.pool_pledge_influence = first_present_of(u.alonzo_compatible.pool_pledge_influence, u.babbage.pool_pledge_influence, q.pool_pledge_influence);
    q.decentralization_constant = present_or_of(u.alonzo_compatible.decentralization_constant, q.decentralization_constant);
    q.extra_entropy = present_or_of(u.alonzo_compatible.extra_entropy, q.extra_entropy);
    q
}

/// The Alonzo record after one update: each field that the era takes from updates gets the
/// value of the first encoding, in its declared order, that proposes one (a protocol version
/// only where its major number does not go down); the rest stays.
pub open spec fn update_alonzo_spec(p: AlonzoProtParams, u: EraUpdate) -> AlonzoProtParams {
    AlonzoProtParams {
        minfee_a: first_present(u.alonzo_compatible.minfee_a, u.babbage.minfee_a, p.minfee_a),
        minfee_b: first_present(u.alonzo_compatible.minfee_b, u.babbage.minfee_b, p.minfee_b),
        max_block_body_size: first_present(u.alonzo_compatible.max_block_body_size, u.babbage.max_block_body_size, p.max_block_body_size),
        max_transaction_size: first_present(u.alonzo_compatible.max_transaction_size, u.babbage.max_transaction_size, p.max_transaction_size),
        max_block_header_size: first_present(u.alonzo_compatible.max_block_header_size, u.babbage.max_block_header_size, p.max_block_header_size),
        key_deposit: first_present(u.alonzo_compatible.key_deposit, u.babbage.key_deposit, p.key_deposit),
        pool_deposit: first_present(u.alonzo_compatible.pool_deposit, u.babbage.pool_deposit, p.pool_deposit),
        protocol_version: not_lower(first_present(u.alonzo_compatible.protocol_version, u.babbage.protocol_version, p.protocol_version), p.protocol_version),
        min_pool_cost: first_present(u.alonzo_compatible.min_pool_cost, u.babbage.min_pool_cost, p.min_pool_cost),
        desired_number_of_stake_pools: first_present(u.alonzo_compatible.desired_number_of_stake_pools, u.babbage.desired_number_of_stake_pools, p.desired_number_of_stake_pools),
        expansion_rate: first_present(u.alonzo_compatible.expansion_rate, u.babbage.expansion_rate, p.expansion_rate),
        treasury_growth_rate: first_present(u.alonzo_compatible.treasury_growth_rate, u.babbage.treasury_growth_rate, p.treasury_growth_rate),
        maximum_epoch: p.maximum_epoch,
        pool_pledge_influence: first_present(u.alonzo_compatible.pool_pledge_influence, u.babbage.pool_pledge_influence, p.pool_pledge_influence),
        decentralization_constant: present_or(u.alonzo_compatible.decentralization_constant, p.decentralization_constant),
        extra_entropy: present_or(u.alonzo_compatible.extra_entropy, p.extra_entropy),
        ada_per_utxo_byte: first_present(u.alonzo_compatible.ada_per_utxo_byte, u.babbage.ada_per_utxo_byte, p.ada_per_utxo_byte),
        execution_costs: first_present(u.alonzo_compatible.execution_costs, u.babbage.execution_costs, p.execution_costs),
        max_tx_ex_units: first_present(u.alonzo_compatible.max_tx_ex_units, u.babbage.max_tx_ex_units, p.max_tx_ex_units),
        max_block_ex_units: first_present(u.alonzo_compatible.max_block_ex_units, u.babbage.max_block_ex_units, p.max_block_ex_units),
        max_value_size: first_present(u.alonzo_compatible.max_value_size, u.babbage.max_value_size, p.max_value_size),
        collateral_percentage: first_present(u.alonzo_compatible.collateral_percentage, u.babbage.collateral_percentage, p.collateral_percentage),
        max_collateral_inputs: first_present(u.alonzo_compatible.max_collateral_inputs, u.babbage.max_collateral_inputs, p.max_collateral_inputs),
        cost_models_for_script_languages: present_or(u.alonzo_compatible.alonzo_cost_models, p.cost_models_for_script_languages),
    }
}

/// Applies one update to Alonzo parameters.
pub fn update_alonzo_pparams(p: AlonzoProtParams, u: &EraUpdate) -> (r: AlonzoProtParams)
    ensures
        alonzo_agree(r, update_alonzo_spec(p, *u)),
{
    let mut q = p;
    q.minfee_a = first_present_of(u.alonzo_compatible.minfee_a, u.babbage.minfee_a, q.minfee_a);
    q.minfee_b = first_present_of(u.alonzo_compatible.minfee_b, u.babbage.minfee_b, q.minfee_b);
    q.max_block_body_size = first_present_of(u.alonzo_compatible.max_block_body_size, u.babbage.max_block_body_size, q.max_block_body_size);
    q.max_transaction_size = first_present_of(u.alonzo_compatible.max_transaction_size, u.babbage.max_transaction_size, q.max_transaction_size);
    q.max_block_header_size = first_present_of(u.alonzo_compatible.max_block_header_size, u.babbage.max_block_header_size, q.max_block_header_size);
    q.key_deposit = first_present_of(u.alonzo_compatible.key_deposit, u.babbage.key_deposit, q.key_deposit);
    q.pool_deposit = first_present_of(u.alonzo_compatible.pool_deposit, u.babbage.pool_deposit, q.pool_deposit);
    q.protocol_version = not_lower_of(first_present_of(u.alonzo_compatible.protocol_version, u.babbage.protocol_version, q.protocol_version), q.protocol_version);
    q.min_pool_cost = first_present_of(u.alonzo_compatible.min_pool_cost, u.babbage.min_pool_cost, q.min_pool_cost);
    q.desired_number_of_stake_pools = first_present_of(u.alonzo_compatible.desired_number_of_stake_pools, u.babbage.desired_number_of_stake_pools, q.desired_number_of_stake_pools);
    q.expansion_rate = first_present_of(u.alonzo_compatible.expansion_rate, u.babbage.expansion_rate, q.expansion_rate);
    q.treasury_growth_rate = first_present_of(u.alonzo_compatible.treasury_growth_rate, u.babbage.treasury_growth_rate, q.treasury_growth_rate);
    q.pool_pledge_influence = first_present_of(u.alonzo_compatible.pool_pledge_influence, u.babbage.pool_pledge_influence, q.pool_pledge_influence);
    q.decentralization_constant = present_or_of(u.alonzo_compatible.decentralization_constant, q.decentralization_constant);
    q.extra_entropy = present_or_of(u.alonzo_compatible.extra_entropy, q.extra_entropy);
    q.ada_per_utxo_byte = first_present_of(u.alonzo_compatible.ada_per_utxo_byte, u.babbage.ada_per_utxo_byte, q.ada_per_utxo_byte);
    q.execution_costs = first_present_of(u.alonzo_compatible.execution_costs, u.babbage.execution_costs, q.execution_costs);
    q.max_tx_ex_units = first_present_of(u.alonzo_compatible.max_tx_ex_units, u.babbage.max_tx_ex_units, q.max_tx_ex_units);
    q.max_block_ex_units = first_present_of(u.alonzo_compatible.max_block_ex_units, u.babbage.max_block_ex_units, q.max_block_ex_units);
    q.max_value_size = first_present_of(u.alonzo_compatible.max_value_size, u.babbage.max_value_size, q.max_value_size);
    q.collateral_percentage = first_present_of(u.alonzo_compatible.collateral_percentage, u.babbage.collateral_percentage, q.collateral_percentage);
    q.max_collateral_inputs = first_present_of(u.alonzo_compatible.max_collateral_inputs, u.babbage.max_collateral_inputs, q.max_collateral_inputs);
    match &u.alonzo_compatible.alonzo_cost_models {
        Some(v) => {
            q.cost_models_for_script_languages = copy_models(v);
        },
        None => {},
    }
    q
}

/// The Babbage record after one update: each field that the era takes from updates gets the
/// value of the first encoding, in its declared order, that proposes one (a protocol version
/// only where its major number does not go down); the rest stays.
pub open spec fn update_babbage_spec(p: BabbageProtParams, u: EraUpdate) -> BabbageProtParams {
    BabbageProtParams {
        minfee_a: first_present(u.alonzo_compatible.minfee_a, u.babbage.minfee_a, p.minfee_a),
        minfee_b: first_present(u.alonzo_compatible.minfee_b, u.babbage.minfee_b, p.minfee_b),
        max_block_body_size: first_present(u.alonzo_compatible.max_block_body_size, u.babbage.max_block_body_size, p.max_block_body_size),
        max_transaction_size: first_present(u.alonzo_compatible.max_transaction_size, u.babbage.max_transaction_size, p.max_transaction_size),
        max_block_header_size: first_present(u.alonzo_compatible.max_block_header_size, u.babbage.max_block_header_size, p.max_block_header_size),
        key_deposit: first_present(u.alonzo_compatible.key_deposit, u.babbage.key_deposit, p.key_deposit),
        pool_deposit: first_present(u.alonzo_compatible.pool_deposit, u.babbage.pool_deposit, p.pool_deposit),
        protocol_version: not_lower(first_present(u.alonzo_compatible.protocol_version, u.babbage.protocol_version, p.protocol_version), p.protocol_version),
        min_pool_cost: first_present(u.alonzo_compatible.min_pool_cost, u.babbage.min_pool_cost, p.min_pool_cost),
        desired_number_of_stake_pools: first_present(u.alonzo_compatible.desired_number_of_stake_pools, u.babbage.desired_number_of_stake_pools, p.desired_number_of_stake_pools),
        expansion_rate: first_present(u.alonzo_compatible.expansion_rate, u.babbage.expansion_rate, p.expansion_rate),
        treasury_growth_rate: first_present(u.alonzo_compatible.treasury_growth_rate, u.babbage.treasury_growth_rate, p.treasury_growth_rate),
        maximum_epoch: p.maximum_epoch,
        pool_pledge_influence: first_present(u.alonzo_compatible.pool_pledge_influence, u.babbage.pool_pledge_influence, p.pool_pledge_influence),
        decentralization_constant: present_or(u.alonzo_compatible.decentralization_constant, p.decentralization_constant),
        extra_entropy: present_or(u.alonzo_compatible.extra_entropy, p.extra_entropy),
        ada_per_utxo_byte: first_present(u.alonzo_compatible.ada_per_utxo_byte, u.babbage.ada_per_utxo_byte, p.ada_per_utxo_byte),
        execution_costs: first_present(u.alonzo_compatible.execution_costs, u.babbage.execution_costs, p.execution_costs),
        max_tx_ex_units: first_present(u.alonzo_compatible.max_tx_ex_units, u.babbage.max_tx_ex_units, p.max_tx_ex_units),
        max_block_ex_units: first_present(u.alonzo_compatible.max_block_ex_units, u.babbage.max_block_ex_units, p.max_block_ex_units),
        max_value_size: first_present(u.alonzo_compatible.max_value_size, u.babbage.max_value_size, p.max_value_size),
        collateral_percentage: first_present(u.alonzo_compatible.collateral_percentage, u.babbage.collateral_percentage, p.collateral_percentage),
        max_collateral_inputs: first_present(u.alonzo_compatible.max_collateral_inputs, u.babbage.max_collateral_inputs, p.max_collateral_inputs),
        cost_models_for_script_languages: present_or(u.babbage.cost_models, p.cost_models_for_script_languages),
    }
}

/// Applies one update to Babbage parameters.
pub fn update_babbage_pparams(p: BabbageProtParams, u: &EraUpdate) -> (r: BabbageProtParams)
    ensures
        babbage_agree(r, update_babbage_spec(p, *u)),
{
    let mut q = p;
    q.minfee_a = first_present_of(u.alonzo_compatible.minfee_a, u.babbage.minfee_a, q.minfee_a);
    q.minfee_b = first_present_of(u.alonzo_compatible.minfee_b, u.babbage.minfee_b, q.minfee_b);
    q.max_block_body_size = first_present_of(u.alonzo_compatible.max_block_body_size, u.babbage.max_block_body_size, q.max_block_body_size);
    q.max_transaction_size = first_present_of(u.alonzo_compatible.max_transaction_size, u.babbage.max_transaction_size, q.max_transaction_size);
    q.max_block_header_size = first_present_of(u.alonzo_compatible.max_block_header_size, u.babbage.max_block_header_size, q.max_block_header_size);
    q.key_deposit = first_present_of(u.alonzo_compatible.key_deposit, u.babbage.key_deposit, q.key_deposit);
    q.pool_deposit = first_present_of(u.alonzo_compatible.pool_deposit, u.babbage.pool_deposit, q.pool_deposit);
    q.protocol_version = not_lower_of(first_present_of(u.alonzo_compatible.protocol_version, u.babbage.protocol_version, q.protocol_version), q.protocol_version);
    q.min_pool_cost = first_present_of(u.alonzo_compatible.min_pool_cost, u.babbage.min_pool_cost, q.min_pool_cost);
    q.desired_number_of_stake_pools = first_present_of(u.alonzo_compatible.desired_number_of_stake_pools, u.babbage.desired_number_of_stake_pools, q.desired_number_of_stake_pools);
    q.expansion_rate = first_present_of(u.alonzo_compatible.expansion_rate, u.babbage.expansion_rate, q.expansion_rate);
    q.treasury_growth_rate = first_present_of(u.alonzo_compatible.treasury_growth_rate, u.babbage.treasury_growth_rate, q.treasury_growth_rate);
    q.pool_pledge_influence = first_present_of(u.alonzo_compatible.pool_pledge_influence, u.babbage.pool_pledge_influence, q.pool_pledge_influence);
    q.decentralization_constant = present_or_of(u.alonzo_compatible.decentralization_constant, q.decentralization_constant);
    q.extra_entropy = present_or_of(u.alonzo_compatible.extra_entropy, q.extra_entropy);
    q.ada_per_utxo_byte = first_present_of(u.alonzo_compatible.ada_per_utxo_byte, u.babbage.ada_per_utxo_byte, q.ada_per_utxo_byte);
    q.execution_costs = first_present_of(u.alonzo_compatible.execution_costs, u.babbage.execution_costs, q.execution_costs);
    q.max_tx_ex_units = first_present_of(u.alonzo_compatible.max_tx_ex_units, u.babbage.max_tx_ex_units, q.max_tx_ex_units);
    q.max_block_ex_units = first_present_of(u.alonzo_compatible.max_block_ex_units, u.babbage.max_block_ex_units, q.max_block_ex_units);
    q.max_value_size = first_present_of(u.alonzo_compatible.max_value_size, u.babbage.max_value_size, q.max_value_size);
    q.collateral_percentage = first_present_of(u.alonzo_compatible.collateral_percentage, u.babbage.collateral_percentage, q.collateral_percentage);
    q.max_collateral_inputs = first_present_of(u.alonzo_compatible.max_collateral_inputs, u.babbage.max_collateral_inputs, q.max_collateral_inputs);
    match &u.babbage.cost_models {
        Some(v) => {
            q.cost_models_for_script_languages = copy_cost_models(v);
        },
        None => {},
    }
    q
}

/// The Conway record after one update: each field that the era takes from updates gets the
/// value of the first encoding, in its declared order, that proposes one (a protocol version
/// only where its major number does not go down); the rest stays.
pub open spec fn update_conway_spec(p: ConwayProtParams, u: EraUpdate) -> ConwayProtParams {
    ConwayProtParams {
        minfee_a: first_present(u.alonzo_compatible.minfee_a, u.babbage.minfee_a, p.minfee_a),
        minfee_b: first_present(u.alonzo_compatible.minfee_b, u.babbage.minfee_b, p.minfee_b),
        max_block_body_size: first_present(u.alonzo_compatible.max_block_body_size, u.babbage.max_block_body_size, p.max_block_body_size),
        max_transaction_size: first_present(u.alonzo_compatible.max_transaction_size, u.babbage.max_transaction_size, p.max_transaction_size),
        max_block_header_size: first_present(u.alonzo_compatible.max_block_header_size, u.babbage.max_block_header_size, p.max_block_header_size),
        key_deposit: first_present(u.alonzo_compatible.key_deposit, u.babbage.key_deposit, p.key_deposit),
        pool_deposit: first_present(u.alonzo_compatible.pool_deposit, u.babbage.pool_deposit, p.pool_deposit),
        protocol_version: not_lower(first_present(u.alonzo_compatible.protocol_version, u.babbage.protocol_version, p.protocol_version), p.protocol_version),
        min_pool_cost: first_present(u.alonzo_compatible.min_pool_cost, u.babbage.min_pool_cost, p.min_pool_cost),
        desired_number_of_stake_pools: first_present(u.alonzo_compatible.desired_number_of_stake_pools, u.babbage.desired_number_of_stake_pools, p.desired_number_of_stake_pools),
        expansion_rate: first_present(u.alonzo_compatible.expansion_rate, u.babbage.expansion_rate, p.expansion_rate),
        treasury_growth_rate: first_present(u.alonzo_compatible.treasury_growth_rate, u.babbage.treasury_growth_rate, p.treasury_growth_rate),
        maximum_epoch: p.maximum_epoch,
        pool_pledge_influence: first_present(u.alonzo_compatible.pool_pledge_influence, u.babbage.pool_pledge_influence, p.pool_pledge_influence),
        ada_per_utxo_byte: first_present(u.alonzo_compatible.ada_per_utxo_byte, u.babbage.ada_per_utxo_byte, p.ada_per_utxo_byte),
        execution_costs: first_present(u.alonzo_compatible.execution_costs, u.babbage.execution_costs, p.execution_costs),
        max_tx_ex_units: first_present(u.alonzo_compatible.max_tx_ex_units, u.babbage.max_tx_ex_units, p.max_tx_ex_units),
        max_block_ex_units: first_present(u.alonzo_compatible.max_block_ex_units, u.babbage.max_block_ex_units, p.max_block_ex_units),
        max_value_size: first_present(u.alonzo_compatible.max_value_size, u.babbage.max_value_size, p.max_value_size),
        collateral_percentage: first_present(u.alonzo_compatible.collateral_percentage, u.babbage.collateral_percentage, p.collateral_percentage),
        max_collateral_inputs: first_present(u.alonzo_compatible.max_collateral_inputs, u.babbage.max_collateral_inputs, p.max_collateral_inputs),
        cost_models_for_script_languages: present_or(u.conway.cost_models, p.cost_models_for_script_languages),
        pool_voting_thresholds: p.pool_voting_thresholds,
        drep_voting_thresholds: p.drep_voting_thresholds,
        min_committee_size: p.min_committee_size,
        committee_term_limit: p.committee_term_limit,
        governance_action_validity_period: p.governance_action_validity_period,
        governance_action_deposit: p.governance_action_deposit,
        drep_deposit: p.drep_deposit,
        drep_inactivity_period: p.drep_inactivity_period,
        minfee_refscript_cost_per_byte: p.minfee_refscript_cost_per_byte,
    }
}

/// Applies one update to Conway parameters.
pub fn update_conway_pparams(p: ConwayProtParams, u: &EraUpdate) -> (r: ConwayProtParams)
    ensures
        conway_agree(r, update_conway_spec(p, *u)),
{
    let mut q = p;
    q.minfee_a = first_present_of(u.alonzo_compatible.minfee_a, u.babbage.minfee_a, q.minfee_a);
    q.minfee_b = first_present_of(u.alonzo_compatible.minfee_b, u.babbage.minfee_b, q.minfee_b);
    q.max_block_body_size = first_present_of(u.alonzo_compatible.max_block_body_size, u.babbage.max_block_body_size, q.max_block_body_size);
    q.max_transaction_size = first_present_of(u.alonzo_compatible.max_transaction_size, u.babbage.max_transaction_size, q.max_transaction_size);
    q.max_block_header_size = first_present_of(u.alonzo_compatible.max_block_header_size, u.babbage.max_block_header_size, q.max_block_header_size);
    q.key_deposit = first_present_of(u.alonzo_compatible.key_deposit, u.babbage.key_deposit, q.key_deposit);
    q.pool_deposit = first_present_of(u.alonzo_compatible.pool_deposit, u.babbage.pool_deposit, q.pool_deposit);
    q.protocol_version = not_lower_of(first_present_of(u.alonzo_compatible.protocol_version, u.babbage.protocol_version, q.protocol_version), q.protocol_version);
    q.min_pool_cost = first_present_of(u.alonzo_compatible.min_pool_cost, u.babbage.min_pool_cost, q.min_pool_cost);
    q.desired_number_of_stake_pools = first_present_of(u.alonzo_compatible.desired_number_of_stake_pools, u.babbage.desired_number_of_stake_pools, q.desired_number_of_stake_pools);
    q.expansion_rate = first_present_of(u.alonzo_compatible.expansion_rate, u.babbage.expansion_rate, q.expansion_rate);
    q.treasury_growth_rate = first_present_of(u.alonzo_compatible.treasury_growth_rate, u.babbage.treasury_growth_rate, q.treasury_growth_rate);
    q.pool_pledge_influence = first_present_of(u.alonzo_compatible.pool_pledge_influence, u.babbage.pool_pledge_influence, q.pool_pledge_influence);
    q.ada_per_utxo_byte = first_present_of(u.alonzo_compatible.ada_per_utxo_byte, u.babbage.ada_per_utxo_byte, q.ada_per_utxo_byte);
    q.execution_costs = first_present_of(u.alonzo_compatible.execution_costs, u.babbage.execution_costs, q.execution_costs);
    q.max_tx_ex_units = first_present_of(u.alonzo_compatible.max_tx_ex_units, u.babbage.max_tx_ex_units, q.max_tx_ex_units);
    q.max_block_ex_units = first_present_of(u.alonzo_compatible.max_block_ex_units, u.babbage.max_block_ex_units, q.max_block_ex_units);
    q.max_value_size = first_present_of(u.alonzo_compatible.max_value_size, u.babbage.max_value_size, q.max_value_size);
    q.collateral_percentage = first_present_of(u.alonzo_compatible.collateral_percentage, u.babbage.collateral_percentage, q.collateral_percentage);
    q.max_collateral_inputs = first_present_of(u.alonzo_compatible.max_collateral_inputs, u.babbage.max_collateral_inputs, q.max_collateral_inputs);
    match &u.conway.cost_models {
        Some(v) => {
            q.cost_models_for_script_languages = copy_cost_models(v);
        },
        None => {},
    }
    q
}

/// In the Shelley era, a field proposed in the Alonzo-compatible encoding takes that value,
/// whatever the Babbage encoding proposes; the Babbage encoding is used only where the
/// first proposes nothing; a field that no encoding proposes keeps its value. A proposed
/// protocol version is taken only where it does not lower the major number.
pub proof fn lemma_shelley_first_match_wins(p: ShelleyProtParams, u: EraUpdate)
    ensures
        u.alonzo_compatible.protocol_version is Some ==> update_shelley_spec(p, u).protocol_version == not_lower(u.alonzo_compatible.protocol_version->0, p.protocol_version),
        u.alonzo_compatible.protocol_version is None && u.babbage.protocol_version is Some ==> update_shelley_spec(p, u).protocol_version == not_lower(u.babbage.protocol_version->0, p.protocol_version),
        u.alonzo_compatible.protocol_version is None && u.babbage.protocol_version is None ==> update_shelley_spec(p, u).protocol_version == p.protocol_version,
        u.alonzo_compatible.max_block_body_size is Some ==> update_shelley_spec(p, u).max_block_body_size == u.alonzo_compatible.max_block_body_size->0,
        u.alonzo_compatible.max_block_body_size is None && u.babbage.max_block_body_size is Some ==> update_shelley_spec(p, u).max_block_body_size == u.babbage.max_block_body_size->0,
        u.alonzo_compatible.max_block_body_size is None && u.babbage.max_block_body_size is None ==> update_shelley_spec(p, u).max_block_body_size == p.max_block_body_size,
        u.alonzo_compatible.max_transaction_size is Some ==> update_shelley_spec(p, u).max_transaction_size == u.alonzo_compatible.max_transaction_size->0,
        u.alonzo_compatible.max_transaction_size is None && u.babbage.max_transaction_size is Some ==> update_shelley_spec(p, u).max_transaction_size == u.babbage.max_transaction_size->0,
        u.alonzo_compatible.max_transaction_size is None && u.babbage.max_transaction_size is None ==> update_shelley_spec(p, u).max_transaction_size == p.max_transaction_size,
        u.alonzo_compatible.max_block_header_size is Some ==> update_shelley_spec(p, u).max_block_header_size == u.alonzo_compatible.max_block_header_size->0,
        u.alonzo_compatible.max_block_header_size is None && u.babbage.max_block_header_size is Some ==> update_shelley_spec(p, u).max_block_header_size == u.babbage.max_block_header_size->0,
        u.alonzo_compatible.max_block_header_size is None && u.babbage.max_block_header_size is None ==> update_shelley_spec(p, u).max_block_header_size == p.max_block_header_size,
        u.alonzo_compatible.key_deposit is Some ==> update_shelley_spec(p, u).key_deposit == u.alonzo_compatible.key_deposit->0,
        u.alonzo_compatible.key_deposit is None && u.babbage.key_deposit is Some ==> update_shelley_spec(p, u).key_deposit == u.babbage.key_deposit->0,
        u.alonzo_compatible.key_deposit is None && u.babbage.key_deposit is None ==> update_shelley_spec(p, u).key_deposit == p.key_deposit,
        u.alonzo_compatible.minfee_a is Some ==> update_shelley_spec(p, u).minfee_a == u.alonzo_compatible.minfee_a->0,
        u.alonzo_compatible.minfee_a is None && u.babbage.minfee_a is Some ==> update_shelley_spec(p, u).minfee_a == u.babbage.minfee_a->0,
        u.alonzo_compatible.minfee_a is None && u.babbage.minfee_a is None ==> update_shelley_spec(p, u).minfee_a == p.minfee_a,
        u.alonzo_compatible.minfee_b is Some ==> update_shelley_spec(p, u).minfee_b == u.alonzo_compatible.minfee_b->0,
        u.alonzo_compatible.minfee_b is None && u.babbage.minfee_b is Some ==> update_shelley_spec(p, u).minfee_b == u.babbage.minfee_b->0,
        u.alonzo_compatible.minfee_b is None && u.babbage.minfee_b is None ==> update_shelley_spec(p, u).minfee_b == p.minfee_b,
        u.alonzo_compatible.pool_deposit is Some ==> update_shelley_spec(p, u).pool_deposit == u.alonzo_compatible.pool_deposit->0,
        u.alonzo_compatible.pool_deposit is None && u.babbage.pool_deposit is Some ==> update_shelley_spec(p, u).pool_deposit == u.babbage.pool_deposit->0,
        u.alonzo_compatible.pool_deposit is None && u.babbage.pool_deposit is None ==> update_shelley_spec(p, u).pool_deposit == p.pool_deposit,
        u.alonzo_compatible.desired_number_of_stake_pools is Some ==> update_shelley_spec(p, u).desired_number_of_stake_pools == u.alonzo_compatible.desired_number_of_stake_pools->0,
        u.alonzo_compatible.desired_number_of_stake_pools is None && u.babbage.desired_number_of_stake_pools is Some ==> update_shelley_spec(p, u).desired_number_of_stake_pools == u.babbage.desired_number_of_stake_pools->0,
        u.alonzo_compatible.desired_number_of_stake_pools is None && u.babbage.desired_number_of_stake_pools is None ==> update_shelley_spec(p, u).desired_number_of_stake_pools == p.desired_number_of_stake_pools,
        u.alonzo_compatible.min_pool_cost is Some ==> update_shelley_spec(p, u).min_pool_cost == u.alonzo_compatible.min_pool_cost->0,
        u.alonzo_compatible.min_pool_cost is None && u.babbage.min_pool_cost is Some ==> update_shelley_spec(p, u).min_pool_cost == u.babbage.min_pool_cost->0,
        u.alonzo_compatible.min_pool_cost is None && u.babbage.min_pool_cost is None ==> update_shelley_spec(p, u).min_pool_cost == p.min_pool_cost,
        u.alonzo_compatible.expansion_rate is Some ==> update_shelley_spec(p, u).expansion_rate == u.alonzo_compatible.expansion_rate->0,
        u.alonzo_compatible.expansion_rate is None && u.babbage.expansion_rate is Some ==> update_shelley_spec(p, u).expansion_rate == u.babbage.expansion_rate->0,
        u.alonzo_compatible.expansion_rate is None && u.babbage.expansion_rate is None ==> update_shelley_spec(p, u).expansion_rate == p.expansion_rate,
        u.alonzo_compatible.treasury_growth_rate is Some ==> update_shelley_spec(p, u).treasury_growth_rate == u.alonzo_compatible.treasury_growth_rate->0,
        u.alonzo_compatible.treasury_growth_rate is None && u.babbage.treasury_growth_rate is Some ==> update_shelley_spec(p, u).treasury_growth_rate == u.babbage.treasury_growth_rate->0,
        u.alonzo_compatible.treasury_growth_rate is None && u.babbage.treasury_growth_rate is None ==> update_shelley_spec(p, u).treasury_growth_rate == p.treasury_growth_rate,
        u.alonzo_compatible.pool_pledge_influence is Some ==> update_shelley_spec(p, u).pool_pledge_influence == u.alonzo_compatible.pool_pledge_influence->0,
        u.alonzo_compatible.pool_pledge_influence is None && u.babbage.pool_pledge_influence is Some ==> update_shelley_spec(p, u).pool_pledge_influence == u.babbage.pool_pledge_influence->0,
        u.alonzo_compatible.pool_pledge_influence is None && u.babbage.pool_pledge_influence is None ==> update_shelley_spec(p, u).pool_pledge_influence == p.pool_pledge_influence,
        u.alonzo_compatible.decentralization_constant is Some ==> update_shelley_spec(p, u).decentralization_constant == u.alonzo_compatible.decentralization_constant->0,
        u.alonzo_compatible.decentralization_constant is None ==> update_shelley_spec(p, u).decentralization_constant == p.decentralization_constant,
        u.alonzo_compatible.extra_entropy is Some ==> update_shelley_spec(p, u).extra_entropy == u.alonzo_compatible.extra_entropy->0,
        u.alonzo_compatible.extra_entropy is None ==> update_shelley_spec(p, u).extra_entropy == p.extra_entropy,
{
}

/// In the Alonzo era, a field proposed in the Alonzo-compatible encoding takes that value,
/// whatever the Babbage encoding proposes; the Babbage encoding is used only where the
/// first proposes nothing; a field that no encoding proposes keeps its value. A proposed
/// protocol version is taken only where it does not lower the major number.
pub proof fn lemma_alonzo_first_match_wins(p: AlonzoProtParams, u: EraUpdate)
    ensures
        u.alonzo_compatible.minfee_a is Some ==> update_alonzo_spec(p, u).minfee_a == u.alonzo_compatible.minfee_a->0,
        u.alonzo_compatible.minfee_a is None && u.babbage.minfee_a is Some ==> update_alonzo_spec(p, u).minfee_a == u.babbage.minfee_a->0,
        u.alonzo_compatible.minfee_a is None && u.babbage.minfee_a is None ==> update_alonzo_spec(p, u).minfee_a == p.minfee_a,
        u.alonzo_compatible.minfee_b is Some ==> update_alonzo_spec(p, u).minfee_b == u.alonzo_compatible.minfee_b->0,
        u.alonzo_compatible.minfee_b is None && u.babbage.minfee_b is Some ==> update_alonzo_spec(p, u).minfee_b == u.babbage.minfee_b->0,
        u.alonzo_compatible.minfee_b is None && u.babbage.minfee_b is None ==> update_alonzo_spec(p, u).minfee_b == p.minfee_b,
        u.alonzo_compatible.max_block_body_size is Some ==> update_alonzo_spec(p, u).max_block_body_size == u.alonzo_compatible.max_block_body_size->0,
        u.alonzo_compatible.max_block_body_size is None && u.babbage.max_block_body_size is Some ==> update_alonzo_spec(p, u).max_block_body_size == u.babbage.max_block_body_size->0,
        u.alonzo_compatible.max_block_body_size is None && u.babbage.max_block_body_size is None ==> update_alonzo_spec(p, u).max_block_body_size == p.max_block_body_size,
        u.alonzo_compatible.max_transaction_size is Some ==> update_alonzo_spec(p, u).max_transaction_size == u.alonzo_compatible.max_transaction_size->0,
        u.alonzo_compatible.max_transaction_size is None && u.babbage.max_transaction_size is Some ==> update_alonzo_spec(p, u).max_transaction_size == u.babbage.max_transaction_size->0,
        u.alonzo_compatible.max_transaction_size is None && u.babbage.max_transaction_size is None ==> update_alonzo_spec(p, u).max_transaction_size == p.max_transaction_size,
        u.alonzo_compatible.max_block_header_size is Some ==> update_alonzo_spec(p, u).max_block_header_size == u.alonzo_compatible.max_block_header_size->0,
        u.alonzo_compatible.max_block_header_size is None && u.babbage.max_block_header_size is Some ==> update_alonzo_spec(p, u).max_block_header_size == u.babbage.max_block_header_size->0,
        u.alonzo_compatible.max_block_header_size is None && u.babbage.max_block_header_size is None ==> update_alonzo_spec(p, u).max_block_header_size == p.max_block_header_size,
        u.alonzo_compatible.key_deposit is Some ==> update_alonzo_spec(p, u).key_deposit == u.alonzo_compatible.key_deposit->0,
        u.alonzo_compatible.key_deposit is None && u.babbage.key_deposit is Some ==> update_alonzo_spec(p, u).key_deposit == u.babbage.key_deposit->0,
        u.alonzo_compatible.key_deposit is None && u.babbage.key_deposit is None ==> update_alonzo_spec(p, u).key_deposit == p.key_deposit,
        u.alonzo_compatible.pool_deposit is Some ==> update_alonzo_spec(p, u).pool_deposit == u.alonzo_compatible.pool_deposit->0,
        u.alonzo_compatible.pool_deposit is None && u.babbage.pool_deposit is Some ==> update_alonzo_spec(p, u).pool_deposit == u.babbage.pool_deposit->0,
        u.alonzo_compatible.pool_deposit is None && u.babbage.pool_deposit is None ==> update_alonzo_spec(p, u).pool_deposit == p.pool_deposit,
        u.alonzo_compatible.protocol_version is Some ==> update_alonzo_spec(p, u).protocol_version == not_lower(u.alonzo_compatible.protocol_version->0, p.protocol_version),
        u.alonzo_compatible.protocol_version is None && u.babbage.protocol_version is Some ==> update_alonzo_spec(p, u).protocol_version == not_lower(u.babbage.protocol_version->0, p.protocol_version),
        u.alonzo_compatible.protocol_version is None && u.babbage.protocol_version is None ==> update_alonzo_spec(p, u).protocol_version == p.protocol_version,
        u.alonzo_compatible.min_pool_cost is Some ==> update_alonzo_spec(p, u).min_pool_cost == u.alonzo_compatible.min_pool_cost->0,
        u.alonzo_compatible.min_pool_cost is None && u.babbage.min_pool_cost is Some ==> update_alonzo_spec(p, u).min_pool_cost == u.babbage.min_pool_cost->0,
        u.alonzo_compatible.min_pool_cost is None && u.babbage.min_pool_cost is None ==> update_alonzo_spec(p, u).min_pool_cost == p.min_pool_cost,
        u.alonzo_compatible.desired_number_of_stake_pools is Some ==> update_alonzo_spec(p, u).desired_number_of_stake_pools == u.alonzo_compatible.desired_number_of_stake_pools->0,
        u.alonzo_compatible.desired_number_of_stake_pools is None && u.babbage.desired_number_of_stake_pools is Some ==> update_alonzo_spec(p, u).desired_number_of_stake_pools == u.babbage.desired_number_of_stake_pools->0,
        u.alonzo_compatible.desired_number_of_stake_pools is None && u.babbage.desired_number_of_stake_pools is None ==> update_alonzo_spec(p, u).desired_number_of_stake_pools == p.desired_number_of_stake_pools,
        u.alonzo_compatible.expansion_rate is Some ==> update_alonzo_spec(p, u).expansion_rate == u.alonzo_compatible.expansion_rate->0,
        u.alonzo_compatible.expansion_rate is None && u.babbage.expansion_rate is Some ==> update_alonzo_spec(p, u).expansion_rate == u.babbage.expansion_rate->0,
        u.alonzo_compatible.expansion_rate is None && u.babbage.expansion_rate is None ==> update_alonzo_spec(p, u).expansion_rate == p.expansion_rate,
        u.alonzo_compatible.treasury_growth_rate is Some ==> update_alonzo_spec(p, u).treasury_growth_rate == u.alonzo_compatible.treasury_growth_rate->0,
        u.alonzo_compatible.treasury_growth_rate is None && u.babbage.treasury_growth_rate is Some ==> update_alonzo_spec(p, u).treasury_growth_rate == u.babbage.treasury_growth_rate->0,
        u.alonzo_compatible.treasury_growth_rate is None && u.babbage.treasury_growth_rate is None ==> update_alonzo_spec(p, u).treasury_growth_rate == p.treasury_growth_rate,
        u.alonzo_compatible.pool_pledge_influence is Some ==> update_alonzo_spec(p, u).pool_pledge_influence == u.alonzo_compatible.pool_pledge_influence->0,
        u.alonzo_compatible.pool_pledge_influence is None && u.babbage.pool_pledge_influence is Some ==> update_alonzo_spec(p, u).pool_pledge_influence == u.babbage.pool_pledge_influence->0,
        u.alonzo_compatible.pool_pledge_influence is None && u.babbage.pool_pledge_influence is None ==> update_alonzo_spec(p, u).pool_pledge_influence == p.pool_pledge_influence,
        u.alonzo_compatible.ada_per_utxo_byte is Some ==> update_alonzo_spec(p, u).ada_per_utxo_byte == u.alonzo_compatible.ada_per_utxo_byte->0,
        u.alonzo_compatible.ada_per_utxo_byte is None && u.babbage.ada_per_utxo_byte is Some ==> update_alonzo_spec(p, u).ada_per_utxo_byte == u.babbage.ada_per_utxo_byte->0,
        u.alonzo_compatible.ada_per_utxo_byte is None && u.babbage.ada_per_utxo_byte is None ==> update_alonzo_spec(p, u).ada_per_utxo_byte == p.ada_per_utxo_byte,
        u.alonzo_compatible.execution_costs is Some ==> update_alonzo_spec(p, u).execution_costs == u.alonzo_compatible.execution_costs->0,
        u.alonzo_compatible.execution_costs is None && u.babbage.execution_costs is Some ==> update_alonzo_spec(p, u).execution_costs == u.babbage.execution_costs->0,
        u.alonzo_compatible.execution_costs is None && u.babbage.execution_costs is None ==> update_alonzo_spec(p, u).execution_costs == p.execution_costs,
        u.alonzo_compatible.max_tx_ex_units is Some ==> update_alonzo_spec(p, u).max_tx_ex_units == u.alonzo_compatible.max_tx_ex_units->0,
        u.alonzo_compatible.max_tx_ex_units is None && u.babbage.max_tx_ex_units is Some ==> update_alonzo_spec(p, u).max_tx_ex_units == u.babbage.max_tx_ex_units->0,
        u.alonzo_compatible.max_tx_ex_units is None && u.babbage.max_tx_ex_units is None ==> update_alonzo_spec(p, u).max_tx_ex_units == p.max_tx_ex_units,
        u.alonzo_compatible.max_block_ex_units is Some ==> update_alonzo_spec(p, u).max_block_ex_units == u.alonzo_compatible.max_block_ex_units->0,
        u.alonzo_compatible.max_block_ex_units is None && u.babbage.max_block_ex_units is Some ==> update_alonzo_spec(p, u).max_block_ex_units == u.babbage.max_block_ex_units->0,
        u.alonzo_compatible.max_block_ex_units is None && u.babbage.max_block_ex_units is None ==> update_alonzo_spec(p, u).max_block_ex_units == p.max_block_ex_units,
        u.alonzo_compatible.max_value_size is Some ==> update_alonzo_spec(p, u).max_value_size == u.alonzo_compatible.max_value_size->0,
        u.alonzo_compatible.max_value_size is None && u.babbage.max_value_size is Some ==> update_alonzo_spec(p, u).max_value_size == u.babbage.max_value_size->0,
        u.alonzo_compatible.max_value_size is None && u.babbage.max_value_size is None ==> update_alonzo_spec(p, u).max_value_size == p.max_value_size,
        u.alonzo_compatible.collateral_percentage is Some ==> update_alonzo_spec(p, u).collateral_percentage == u.alonzo_compatible.collateral_percentage->0,
        u.alonzo_compatible.collateral_percentage is None && u.babbage.collateral_percentage is Some ==> update_alonzo_spec(p, u).collateral_percentage == u.babbage.collateral_percentage->0,
        u.alonzo_compatible.collateral_percentage is None && u.babbage.collateral_percentage is None ==> update_alonzo_spec(p, u).collateral_percentage == p.collateral_percentage,
        u.alonzo_compatible.max_collateral_inputs is Some ==> update_alonzo_spec(p, u).max_collateral_inputs == u.alonzo_compatible.max_collateral_inputs->0,
        u.alonzo_compatible.max_collateral_inputs is None && u.babbage.max_collateral_inputs is Some ==> update_alonzo_spec(p, u).max_collateral_inputs == u.babbage.max_collateral_inputs->0,
        u.alonzo_compatible.max_collateral_inputs is None && u.babbage.max_collateral_inputs is None ==> update_alonzo_spec(p, u).max_collateral_inputs == p.max_collateral_inputs,
        u.alonzo_compatible.decentralization_constant is Some ==> update_alonzo_spec(p, u).decentralization_constant == u.alonzo_compatible.decentralization_constant->0,
        u.alonzo_compatible.decentralization_constant is None ==> update_alonzo_spec(p, u).decentralization_constant == p.decentralization_constant,
        u.alonzo_compatible.extra_entropy is Some ==> update_alonzo_spec(p, u).extra_entropy == u.alonzo_compatible.extra_entropy->0,
        u.alonzo_compatible.extra_entropy is None ==> update_alonzo_spec(p, u).extra_entropy == p.extra_entropy,
{
}

/// In the Babbage era, a field proposed in the Alonzo-compatible encoding takes that value,
/// whatever the Babbage encoding proposes; the Babbage encoding is used only where the
/// first proposes nothing; a field that no encoding proposes keeps its value. A proposed
/// protocol version is taken only where it does not lower the major number.
pub proof fn lemma_babbage_first_match_wins(p: BabbageProtParams, u: EraUpdate)
    ensures
        u.alonzo_compatible.minfee_a is Some ==> update_babbage_spec(p, u).minfee_a == u.alonzo_compatible.minfee_a->0,
        u.alonzo_compatible.minfee_a is None && u.babbage.minfee_a is Some ==> update_babbage_spec(p, u).minfee_a == u.babbage.minfee_a->0,
        u.alonzo_compatible.minfee_a is None && u.babbage.minfee_a is None ==> update_babbage_spec(p, u).minfee_a == p.minfee_a,
        u.alonzo_compatible.minfee_b is Some ==> update_babbage_spec(p, u).minfee_b == u.alonzo_compatible.minfee_b->0,
        u.alonzo_compatible.minfee_b is None && u.babbage.minfee_b is Some ==> update_babbage_spec(p, u).minfee_b == u.babbage.minfee_b->0,
        u.alonzo_compatible.minfee_b is None && u.babbage.minfee_b is None ==> update_babbage_spec(p, u).minfee_b == p.minfee_b,
        u.alonzo_compatible.max_block_body_size is Some ==> update_babbage_spec(p, u).max_block_body_size == u.alonzo_compatible.max_block_body_size->0,
        u.alonzo_compatible.max_block_body_size is None && u.babbage.max_block_body_size is Some ==> update_babbage_spec(p, u).max_block_body_size == u.babbage.max_block_body_size->0,
        u.alonzo_compatible.max_block_body_size is None && u.babbage.max_block_body_size is None ==> update_babbage_spec(p, u).max_block_body_size == p.max_block_body_size,
        u.alonzo_compatible.max_transaction_size is Some ==> update_babbage_spec(p, u).max_transaction_size == u.alonzo_compatible.max_transaction_size->0,
        u.alonzo_compatible.max_transaction_size is None && u.babbage.max_transaction_size is Some ==> update_babbage_spec(p, u).max_transaction_size == u.babbage.max_transaction_size->0,
        u.alonzo_compatible.max_transaction_size is None && u.babbage.max_transaction_size is None ==> update_babbage_spec(p, u).max_transaction_size == p.max_transaction_size,
        u.alonzo_compatible.max_block_header_size is Some ==> update_babbage_spec(p, u).max_block_header_size == u.alonzo_compatible.max_block_header_size->0,
        u.alonzo_compatible.max_block_header_size is None && u.babbage.max_block_header_size is Some ==> update_babbage_spec(p, u).max_block_header_size == u.babbage.max_block_header_size->0,
        u.alonzo_compatible.max_block_header_size is None && u.babbage.max_block_header_size is None ==> update_babbage_spec(p, u).max_block_header_size == p.max_block_header_size,
        u.alonzo_compatible.key_deposit is Some ==> update_babbage_spec(p, u).key_deposit == u.alonzo_compatible.key_deposit->0,
        u.alonzo_compatible.key_deposit is None && u.babbage.key_deposit is Some ==> update_babbage_spec(p, u).key_deposit == u.babbage.key_deposit->0,
        u.alonzo_compatible.key_deposit is None && u.babbage.key_deposit is None ==> update_babbage_spec(p, u).key_deposit == p.key_deposit,
        u.alonzo_compatible.pool_deposit is Some ==> update_babbage_spec(p, u).pool_deposit == u.alonzo_compatible.pool_deposit->0,
        u.alonzo_compatible.pool_deposit is None && u.babbage.pool_deposit is Some ==> update_babbage_spec(p, u).pool_deposit == u.babbage.pool_deposit->0,
        u.alonzo_compatible.pool_deposit is None && u.babbage.pool_deposit is None ==> update_babbage_spec(p, u).pool_deposit == p.pool_deposit,
        u.alonzo_compatible.protocol_version is Some ==> update_babbage_spec(p, u).protocol_version == not_lower(u.alonzo_compatible.protocol_version->0, p.protocol_version),
        u.alonzo_compatible.protocol_version is None && u.babbage.protocol_version is Some ==> update_babbage_spec(p, u).protocol_version == not_lower(u.babbage.protocol_version->0, p.protocol_version),
        u.alonzo_compatible.protocol_version is None && u.babbage.protocol_version is None ==> update_babbage_spec(p, u).protocol_version == p.protocol_version,
        u.alonzo_compatible.min_pool_cost is Some ==> update_babbage_spec(p, u).min_pool_cost == u.alonzo_compatible.min_pool_cost->0,
        u.alonzo_compatible.min_pool_cost is None && u.babbage.min_pool_cost is Some ==> update_babbage_spec(p, u).min_pool_cost == u.babbage.min_pool_cost->0,
        u.alonzo_compatible.min_pool_cost is None && u.babbage.min_pool_cost is None ==> update_babbage_spec(p, u).min_pool_cost == p.min_pool_cost,
        u.alonzo_compatible.desired_number_of_stake_pools is Some ==> update_babbage_spec(p, u).desired_number_of_stake_pools == u.alonzo_compatible.desired_number_of_stake_pools->0,
        u.alonzo_compatible.desired_number_of_stake_pools is None && u.babbage.desired_number_of_stake_pools is Some ==> update_babbage_spec(p, u).desired_number_of_stake_pools == u.babbage.desired_number_of_stake_pools->0,
        u.alonzo_compatible.desired_number_of_stake_pools is None && u.babbage.desired_number_of_stake_pools is None ==> update_babbage_spec(p, u).desired_number_of_stake_pools == p.desired_number_of_stake_pools,
        u.alonzo_compatible.expansion_rate is Some ==> update_babbage_spec(p, u).expansion_rate == u.alonzo_compatible.expansion_rate->0,
        u.alonzo_compatible.expansion_rate is None && u.babbage.expansion_rate is Some ==> update_babbage_spec(p, u).expansion_rate == u.babbage.expansion_rate->0,
        u.alonzo_compatible.expansion_rate is None && u.babbage.expansion_rate is None ==> update_babbage_spec(p, u).expansion_rate == p.expansion_rate,
        u.alonzo_compatible.treasury_growth_rate is Some ==> update_babbage_spec(p, u).treasury_growth_rate == u.alonzo_compatible.treasury_growth_rate->0,
        u.alonzo_compatible.treasury_growth_rate is None && u.babbage.treasury_growth_rate is Some ==> update_babbage_spec(p, u).treasury_growth_rate == u.babbage.treasury_growth_rate->0,
        u.alonzo_compatible.treasury_growth_rate is None && u.babbage.treasury_growth_rate is None ==> update_babbage_spec(p, u).treasury_growth_rate == p.treasury_growth_rate,
        u.alonzo_compatible.pool_pledge_influence is Some ==> update_babbage_spec(p, u).pool_pledge_influence == u.alonzo_compatible.pool_pledge_influence->0,
        u.alonzo_compatible.pool_pledge_influence is None && u.babbage.pool_pledge_influence is Some ==> update_babbage_spec(p, u).pool_pledge_influence == u.babbage.pool_pledge_influence->0,
        u.alonzo_compatible.pool_pledge_influence is None && u.babbage.pool_pledge_influence is None ==> update_babbage_spec(p, u).pool_pledge_influence == p.pool_pledge_influence,
        u.alonzo_compatible.ada_per_utxo_byte is Some ==> update_babbage_spec(p, u).ada_per_utxo_byte == u.alonzo_compatible.ada_per_utxo_byte->0,
        u.alonzo_compatible.ada_per_utxo_byte is None && u.babbage.ada_per_utxo_byte is Some ==> update_babbage_spec(p, u).ada_per_utxo_byte == u.babbage.ada_per_utxo_byte->0,
        u.alonzo_compatible.ada_per_utxo_byte is None && u.babbage.ada_per_utxo_byte is None ==> update_babbage_spec(p, u).ada_per_utxo_byte == p.ada_per_utxo_byte,
        u.alonzo_compatible.execution_costs is Some ==> update_babbage_spec(p, u).execution_costs == u.alonzo_compatible.execution_costs->0,
        u.alonzo_compatible.execution_costs is None && u.babbage.execution_costs is Some ==> update_babbage_spec(p, u).execution_costs == u.babbage.execution_costs->0,
        u.alonzo_compatible.execution_costs is None && u.babbage.execution_costs is None ==> update_babbage_spec(p, u).execution_costs == p.execution_costs,
        u.alonzo_compatible.max_tx_ex_units is Some ==> update_babbage_spec(p, u).max_tx_ex_units == u.alonzo_compatible.max_tx_ex_units->0,
        u.alonzo_compatible.max_tx_ex_units is None && u.babbage.max_tx_ex_units is Some ==> update_babbage_spec(p, u).max_tx_ex_units == u.babbage.max_tx_ex_units->0,
        u.alonzo_compatible.max_tx_ex_units is None && u.babbage.max_tx_ex_units is None ==> update_babbage_spec(p, u).max_tx_ex_units == p.max_tx_ex_units,
        u.alonzo_compatible.max_block_ex_units is Some ==> update_babbage_spec(p, u).max_block_ex_units == u.alonzo_compatible.max_block_ex_units->0,
        u.alonzo_compatible.max_block_ex_units is None && u.babbage.max_block_ex_units is Some ==> update_babbage_spec(p, u).max_block_ex_units == u.babbage.max_block_ex_units->0,
        u.alonzo_compatible.max_block_ex_units is None && u.babbage.max_block_ex_units is None ==> update_babbage_spec(p, u).max_block_ex_units == p.max_block_ex_units,
        u.alonzo_compatible.max_value_size is Some ==> update_babbage_spec(p, u).max_value_size == u.alonzo_compatible.max_value_size->0,
        u.alonzo_compatible.max_value_size is None && u.babbage.max_value_size is Some ==> update_babbage_spec(p, u).max_value_size == u.babbage.max_value_size->0,
        u.alonzo_compatible.max_value_size is None && u.babbage.max_value_size is None ==> update_babbage_spec(p, u).max_value_size == p.max_value_size,
        u.alonzo_compatible.collateral_percentage is Some ==> update_babbage_spec(p, u).collateral_percentage == u.alonzo_compatible.collateral_percentage->0,
        u.alonzo_compatible.collateral_percentage is None && u.babbage.collateral_percentage is Some ==> update_babbage_spec(p, u).collateral_percentage == u.babbage.collateral_percentage->0,
        u.alonzo_compatible.collateral_percentage is None && u.babbage.collateral_percentage is None ==> update_babbage_spec(p, u).collateral_percentage == p.collateral_percentage,
        u.alonzo_compatible.max_collateral_inputs is Some ==> update_babbage_spec(p, u).max_collateral_inputs == u.alonzo_compatible.max_collateral_inputs->0,
        u.alonzo_compatible.max_collateral_inputs is None && u.babbage.max_collateral_inputs is Some ==> update_babbage_spec(p, u).max_collateral_inputs == u.babbage.max_collateral_inputs->0,
        u.alonzo_compatible.max_collateral_inputs is None && u.babbage.max_collateral_inputs is None ==> update_babbage_spec(p, u).max_collateral_inputs == p.max_collateral_inputs,
        u.alonzo_compatible.decentralization_constant is Some ==> update_babbage_spec(p, u).decentralization_constant == u.alonzo_compatible.decentralization_constant->0,
        u.alonzo_compatible.decentralization_constant is None ==> update_babbage_spec(p, u).decentralization_constant == p.decentralization_constant,
        u.alonzo_compatible.extra_entropy is Some ==> update_babbage_spec(p, u).extra_entropy == u.alonzo_compatible.extra_entropy->0,
        u.alonzo_compatible.extra_entropy is None ==> update_babbage_spec(p, u).extra_entropy == p.extra_entropy,
{
}

/// In the Conway era, a field proposed in the Alonzo-compatible encoding takes that value,
/// whatever the Babbage encoding proposes; the Babbage encoding is used only where the
/// first proposes nothing; a field that no encoding proposes keeps its value. A proposed
/// protocol version is taken only where it does not lower the major number.
pub proof fn lemma_conway_first_match_wins(p: ConwayProtParams, u: EraUpdate)
    ensures
        u.alonzo_compatible.minfee_a is Some ==> update_conway_spec(p, u).minfee_a == u.alonzo_compatible.minfee_a->0,
        u.alonzo_compatible.minfee_a is None && u.babbage.minfee_a is Some ==> update_conway_spec(p, u).minfee_a == u.babbage.minfee_a->0,
        u.alonzo_compatible.minfee_a is None && u.babbage.minfee_a is None ==> update_conway_spec(p, u).minfee_a == p.minfee_a,
        u.alonzo_compatible.minfee_b is Some ==> update_conway_spec(p, u).minfee_b == u.alonzo_compatible.minfee_b->0,
        u.alonzo_compatible.minfee_b is None && u.babbage.minfee_b is Some ==> update_conway_spec(p, u).minfee_b == u.babbage.minfee_b->0,
        u.alonzo_compatible.minfee_b is None && u.babbage.minfee_b is None ==> update_conway_spec(p, u).minfee_b == p.minfee_b,
        u.alonzo_compatible.max_block_body_size is Some ==> update_conway_spec(p, u).max_block_body_size == u.alonzo_compatible.max_block_body_size->0,
        u.alonzo_compatible.max_block_body_size is None && u.babbage.max_block_body_size is Some ==> update_conway_spec(p, u).max_block_body_size == u.babbage.max_block_body_size->0,
        u.alonzo_compatible.max_block_body_size is None && u.babbage.max_block_body_size is None ==> update_conway_spec(p, u).max_block_body_size == p.max_block_body_size,
        u.alonzo_compatible.max_transaction_size is Some ==> update_conway_spec(p, u).max_transaction_size == u.alonzo_compatible.max_transaction_size->0,
        u.alonzo_compatible.max_transaction_size is None && u.babbage.max_transaction_size is Some ==> update_conway_spec(p, u).max_transaction_size == u.babbage.max_transaction_size->0,
        u.alonzo_compatible.max_transaction_size is None && u.babbage.max_transaction_size is None ==> update_conway_spec(p, u).max_transaction_size == p.max_transaction_size,
        u.alonzo_compatible.max_block_header_size is Some ==> update_conway_spec(p, u).max_block_header_size == u.alonzo_compatible.max_block_header_size->0,
        u.alonzo_compatible.max_block_header_size is None && u.babbage.max_block_header_size is Some ==> update_conway_spec(p, u).max_block_header_size == u.babbage.max_block_header_size->0,
        u.alonzo_compatible.max_block_header_size is None && u.babbage.max_block_header_size is None ==> update_conway_spec(p, u).max_block_header_size == p.max_block_header_size,
        u.alonzo_compatible.key_deposit is Some ==> update_conway_spec(p, u).key_deposit == u.alonzo_compatible.key_deposit->0,
        u.alonzo_compatible.key_deposit is None && u.babbage.key_deposit is Some ==> update_conway_spec(p, u).key_deposit == u.babbage.key_deposit->0,
        u.alonzo_compatible.key_deposit is None && u.babbage.key_deposit is None ==> update_conway_spec(p, u).key_deposit == p.key_deposit,
        u.alonzo_compatible.pool_deposit is Some ==> update_conway_spec(p, u).pool_deposit == u.alonzo_compatible.pool_deposit->0,
        u.alonzo_compatible.pool_deposit is None && u.babbage.pool_deposit is Some ==> update_conway_spec(p, u).pool_deposit == u.babbage.pool_deposit->0,
        u.alonzo_compatible.pool_deposit is None && u.babbage.pool_deposit is None ==> update_conway_spec(p, u).pool_deposit == p.pool_deposit,
        u.alonzo_compatible.protocol_version is Some ==> update_conway_spec(p, u).protocol_version == not_lower(u.alonzo_compatible.protocol_version->0, p.protocol_version),
        u.alonzo_compatible.protocol_version is None && u.babbage.protocol_version is Some ==> update_conway_spec(p, u).protocol_version == not_lower(u.babbage.protocol_version->0, p.protocol_version),
        u.alonzo_compatible.protocol_version is None && u.babbage.protocol_version is None ==> update_conway_spec(p, u).protocol_version == p.protocol_version,
        u.alonzo_compatible.min_pool_cost is Some ==> update_conway_spec(p, u).min_pool_cost == u.alonzo_compatible.min_pool_cost->0,
        u.alonzo_compatible.min_pool_cost is None && u.babbage.min_pool_cost is Some ==> update_conway_spec(p, u).min_pool_cost == u.babbage.min_pool_cost->0,
        u.alonzo_compatible.min_pool_cost is None && u.babbage.min_pool_cost is None ==> update_conway_spec(p, u).min_pool_cost == p.min_pool_cost,
        u.alonzo_compatible.desired_number_of_stake_pools is Some ==> update_conway_spec(p, u).desired_number_of_stake_pools == u.alonzo_compatible.desired_number_of_stake_pools->0,
        u.alonzo_compatible.desired_number_of_stake_pools is None && u.babbage.desired_number_of_stake_pools is Some ==> update_conway_spec(p, u).desired_number_of_stake_pools == u.babbage.desired_number_of_stake_pools->0,
        u.alonzo_compatible.desired_number_of_stake_pools is None && u.babbage.desired_number_of_stake_pools is None ==> update_conway_spec(p, u).desired_number_of_stake_pools == p.desired_number_of_stake_pools,
        u.alonzo_compatible.expansion_rate is Some ==> update_conway_spec(p, u).expansion_rate == u.alonzo_compatible.expansion_rate->0,
        u.alonzo_compatible.expansion_rate is None && u.babbage.expansion_rate is Some ==> update_conway_spec(p, u).expansion_rate == u.babbage.expansion_rate->0,
        u.alonzo_compatible.expansion_rate is None && u.babbage.expansion_rate is None ==> update_conway_spec(p, u).expansion_rate == p.expansion_rate,
        u.alonzo_compatible.treasury_growth_rate is Some ==> update_conway_spec(p, u).treasury_growth_rate == u.alonzo_compatible.treasury_growth_rate->0,
        u.alonzo_compatible.treasury_growth_rate is None && u.babbage.treasury_growth_rate is Some ==> update_conway_spec(p, u).treasury_growth_rate == u.babbage.treasury_growth_rate->0,
        u.alonzo_compatible.treasury_growth_rate is None && u.babbage.treasury_growth_rate is None ==> update_conway_spec(p, u).treasury_growth_rate == p.treasury_growth_rate,
        u.alonzo_compatible.pool_pledge_influence is Some ==> update_conway_spec(p, u).pool_pledge_influence == u.alonzo_compatible.pool_pledge_influence->0,
        u.alonzo_compatible.pool_pledge_influence is None && u.babbage.pool_pledge_influence is Some ==> update_conway_spec(p, u).pool_pledge_influence == u.babbage.pool_pledge_influence->0,
        u.alonzo_compatible.pool_pledge_influence is None && u.babbage.pool_pledge_influence is None ==> update_conway_spec(p, u).pool_pledge_influence == p.pool_pledge_influence,
        u.alonzo_compatible.ada_per_utxo_byte is Some ==> update_conway_spec(p, u).ada_per_utxo_byte == u.alonzo_compatible.ada_per_utxo_byte->0,
        u.alonzo_compatible.ada_per_utxo_byte is None && u.babbage.ada_per_utxo_byte is Some ==> update_conway_spec(p, u).ada_per_utxo_byte == u.babbage.ada_per_utxo_byte->0,
        u.alonzo_compatible.ada_per_utxo_byte is None && u.babbage.ada_per_utxo_byte is None ==> update_conway_spec(p, u).ada_per_utxo_byte == p.ada_per_utxo_byte,
        u.alonzo_compatible.execution_costs is Some ==> update_conway_spec(p, u).execution_costs == u.alonzo_compatible.execution_costs->0,
        u.alonzo_compatible.execution_costs is None && u.babbage.execution_costs is Some ==> update_conway_spec(p, u).execution_costs == u.babbage.execution_costs->0,
        u.alonzo_compatible.execution_costs is None && u.babbage.execution_costs is None ==> update_conway_spec(p, u).execution_costs == p.execution_costs,
        u.alonzo_compatible.max_tx_ex_units is Some ==> update_conway_spec(p, u).max_tx_ex_units == u.alonzo_compatible.max_tx_ex_units->0,
        u.alonzo_compatible.max_tx_ex_units is None && u.babbage.max_tx_ex_units is Some ==> update_conway_spec(p, u).max_tx_ex_units == u.babbage.max_tx_ex_units->0,
        u.alonzo_compatible.max_tx_ex_units is None && u.babbage.max_tx_ex_units is None ==> update_conway_spec(p, u).max_tx_ex_units == p.max_tx_ex_units,
        u.alonzo_compatible.max_block_ex_units is Some ==> update_conway_spec(p, u).max_block_ex_units == u.alonzo_compatible.max_block_ex_units->0,
        u.alonzo_compatible.max_block_ex_units is None && u.babbage.max_block_ex_units is Some ==> update_conway_spec(p, u).max_block_ex_units == u.babbage.max_block_ex_units->0,
        u.alonzo_compatible.max_block_ex_units is None && u.babbage.max_block_ex_units is None ==> update_conway_spec(p, u).max_block_ex_units == p.max_block_ex_units,
        u.alonzo_compatible.max_value_size is Some ==> update_conway_spec(p, u).max_value_size == u.alonzo_compatible.max_value_size->0,
        u.alonzo_compatible.max_value_size is None && u.babbage.max_value_size is Some ==> update_conway_spec(p, u).max_value_size == u.babbage.max_value_size->0,
        u.alonzo_compatible.max_value_size is None && u.babbage.max_value_size is None ==> update_conway_spec(p, u).max_value_size == p.max_value_size,
        u.alonzo_compatible.collateral_percentage is Some ==> update_conway_spec(p, u).collateral_percentage == u.alonzo_compatible.collateral_percentage->0,
        u.alonzo_compatible.collateral_percentage is None && u.babbage.collateral_percentage is Some ==> update_conway_spec(p, u).collateral_percentage == u.babbage.collateral_percentage->0,
        u.alonzo_compatible.collateral_percentage is None && u.babbage.collateral_percentage is None ==> update_conway_spec(p, u).collateral_percentage == p.collateral_percentage,
        u.alonzo_compatible.max_collateral_inputs is Some ==> update_conway_spec(p, u).max_collateral_inputs == u.alonzo_compatible.max_collateral_inputs->0,
        u.alonzo_compatible.max_collateral_inputs is None && u.babbage.max_collateral_inputs is Some ==> update_conway_spec(p, u).max_collateral_inputs == u.babbage.max_collateral_inputs->0,
        u.alonzo_compatible.max_collateral_inputs is None && u.babbage.max_collateral_inputs is None ==> update_conway_spec(p, u).max_collateral_inputs == p.max_collateral_inputs,
{
}
} // verus!
