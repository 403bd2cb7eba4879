use vstd::prelude::*;

verus! {

/// A protocol version: major and minor number.
#[derive(Clone, Copy, Debug, PartialEq, Eq)]
pub struct ProtocolVersion {
    pub major: u64,
    pub minor: u64,
}

/// The Byron block version: major, minor and alternative number.
#[derive(Clone, Copy, Debug, PartialEq, Eq)]
pub struct BlockVersion {
    pub major: u16,
    pub minor: u16,
    pub alt: u8,
}

/// The Byron soft-fork rule thresholds.
#[derive(Clone, Copy, Debug, PartialEq, Eq)]
pub struct SoftForkRule {
    pub init_thd: u64,
    pub min_thd: u64,
    pub thd_decrement: u64,
}

/// A non-negative fraction.
#[derive(Clone, Copy, Debug, PartialEq, Eq)]
pub struct RationalNumber {
    pub numerator: u64,
    pub denominator: u64,
}

/// Execution budget of a script.
#[derive(Clone, Copy, Debug, PartialEq, Eq)]
pub struct ExUnits {
    pub mem: u64,
    pub steps: u64,
}

/// Prices of one unit of memory and one step of execution.
#[derive(Clone, Copy, Debug, PartialEq, Eq)]
pub struct ExUnitPrices {
    pub mem_price: RationalNumber,
    pub step_price: RationalNumber,
}

/// Extra entropy: neutral, or a 32-byte hash.
#[derive(Clone, Copy, Debug, PartialEq, Eq)]
pub enum Nonce {
    Neutral,
    Hash([u8; 32]),
}

/// Plutus language versions.
#[derive(Clone, Copy, Debug, PartialEq, Eq, Structural)]
pub enum Language {
    PlutusV1,
    PlutusV2,
    PlutusV3,
}

/// One entry of the Alonzo cost model table.
#[derive(Clone, Debug)]
pub struct LanguageCostModel {
    pub language: Language,
    pub model: Vec<i64>,
}

/// Cost models of the Babbage and Conway eras, one slot per language.
#[derive(Clone, Debug)]
pub struct CostModels {
    pub plutus_v1: Option<Vec<i64>>,
    pub plutus_v2: Option<Vec<i64>>,
    pub plutus_v3: Option<Vec<i64>>,
}

/// Stake pool voting thresholds of the Conway era.
#[derive(Clone, Copy, Debug, PartialEq, Eq)]
pub struct PoolVotingThresholds {
    pub motion_no_confidence: RationalNumber,
    pub committee_normal: RationalNumber,
    pub committee_no_confidence: RationalNumber,
    pub hard_fork_initiation: RationalNumber,
    pub security_voting_threshold: RationalNumber,
}

/// Delegated representative voting thresholds of the Conway era.
#[derive(Clone, Copy, Debug, PartialEq, Eq)]
pub struct DRepVotingThresholds {
    pub motion_no_confidence: RationalNumber,
    pub committee_normal: RationalNumber,
    pub committee_no_confidence: RationalNumber,
    pub update_constitution: RationalNumber,
    pub hard_fork_initiation: RationalNumber,
    pub pp_network_group: RationalNumber,
    pub pp_economic_group: RationalNumber,
    pub pp_technical_group: RationalNumber,
    pub pp_governance_group: RationalNumber,
    pub treasury_withdrawal: RationalNumber,
}

/// Contents of an optional cost model.
pub open spec fn model_view(m: Option<Vec<i64>>) -> Option<Seq<i64>> {
    match m {
        Some(v) => Some(v@),
        None => None,
    }
}

/// Contents of a Babbage or Conway cost model record.
pub open spec fn cost_models_view(c: CostModels) -> (Option<Seq<i64>>, Option<Seq<i64>>, Option<Seq<i64>>) {
    (model_view(c.plutus_v1), model_view(c.plutus_v2), model_view(c.plutus_v3))
}

/// Contents of an Alonzo cost model table.
pub open spec fn models_view(v: Vec<LanguageCostModel>) -> Seq<(Language, Seq<i64>)> {
    v@.map_values(|m: LanguageCostModel| (m.language, m.model@))
}

/// A copy of a cost model.
pub fn copy_model(v: &Vec<i64>) -> (r: Vec<i64>)
    ensures
        r@ == v@,
{
    let mut r: Vec<i64> = Vec::new();
    let mut i: usize = 0;
    while i < v.len()
        invariant
            i <= v.len(),
            r@ == v@.subrange(0, i as int),
        decreases v.len() - i,
    {
        r.push(v[i]);
        i = i + 1;
        assert(r@ =~= v@.subrange(0, i as int));
    }
    assert(v@.subrange(0, v.len() as int) =~= v@);
    r
}

/// A copy of an optional cost model.
pub fn copy_opt_model(m: &Option<Vec<i64>>) -> (r: Option<Vec<i64>>)
    ensures
        model_view(r) == model_view(*m),
{
    match m {
        Some(v) => Some(copy_model(v)),
        None => None,
    }
}

/// A copy of a Babbage or Conway cost model record.
pub fn copy_cost_models(c: &CostModels) -> (r: CostModels)
    ensures
        cost_models_view(r) == cost_models_view(*c),
{
    CostModels {
        plutus_v1: copy_opt_model(&c.plutus_v1),
        plutus_v2: copy_opt_model(&c.plutus_v2),
        plutus_v3: copy_opt_model(&c.plutus_v3),
    }
}

/// A copy of an Alonzo cost model table.
pub fn copy_models(v: &Vec<LanguageCostModel>) -> (r: Vec<LanguageCostModel>)
    ensures
        models_view(r) == models_view(*v),
{
    let mut r: Vec<LanguageCostModel> = Vec::new();
    let mut i: usize = 0;
    while i < v.len()
        invariant
            i <= v.len(),
            r.len() == i,
            forall|j: int|
                0 <= j < i ==> r@[j].language == v@[j].language && r@[j].model@ == v@[j].model@,
        decreases v.len() - i,
    {
        let entry = LanguageCostModel { language: v[i].language, model: copy_model(&v[i].model) };
        r.push(entry);
        i = i + 1;
    }
    assert(models_view(r) =~= models_view(*v));
    r
}

/// Parameters of the Byron era.
#[derive(Clone, Debug)]
pub struct ByronProtParams {
    pub block_version: BlockVersion,
    pub summand: u64,
    pub multiplier: u64,
    pub max_tx_size: u64,
    pub script_version: u16,
    pub slot_duration: u64,
    pub max_block_size: u64,
    pub max_header_size: u64,
    pub max_proposal_size: u64,
    pub mpc_thd: u64,
    pub heavy_del_thd: u64,
    pub update_vote_thd: u64,
    pub update_proposal_thd: u64,
    pub update_implicit: u64,
    pub soft_fork_rule: SoftForkRule,
    pub unlock_stake_epoch: u64,
}

/// Parameters of the Shelley era (and of its intra-era forks, Allegra and Mary).
#[derive(Clone, Debug)]
pub struct ShelleyProtParams {
    pub protocol_version: ProtocolVersion,
    pub max_block_body_size: u64,
    pub max_transaction_size: u64,
    pub max_block_header_size: u64,
    pub key_deposit: u64,
    pub min_utxo_value: u64,
    pub minfee_a: u64,
    pub minfee_b: u64,
    pub pool_deposit: u64,
    pub desired_number_of_stake_pools: u64,
    pub min_pool_cost: u64,
    pub expansion_rate: RationalNumber,
    pub treasury_growth_rate: RationalNumber,
    pub maximum_epoch: u64,
    pub pool_pledge_influence: RationalNumber,
    pub decentralization_constant: RationalNumber,
    pub extra_entropy: Nonce,
}

/// Parameters of the Alonzo era.
#[derive(Clone, Debug)]
pub struct AlonzoProtParams {
    pub minfee_a: u64,
    pub minfee_b: u64,
    pub max_block_body_size: u64,
    pub max_transaction_size: u64,
    pub max_block_header_size: u64,
    pub key_deposit: u64,
    pub pool_deposit: u64,
    pub protocol_version: ProtocolVersion,
    pub min_pool_cost: u64,
    pub desired_number_of_stake_pools: u64,
    pub expansion_rate: RationalNumber,
    pub treasury_growth_rate: RationalNumber,
    pub maximum_epoch: u64,
    pub pool_pledge_influence: RationalNumber,
    pub decentralization_constant: RationalNumber,
    pub extra_entropy: Nonce,
    pub ada_per_utxo_byte: u64,
    pub execution_costs: ExUnitPrices,
    pub max_tx_ex_units: ExUnits,
    pub max_block_ex_units: ExUnits,
    pub max_value_size: u64,
    pub collateral_percentage: u64,
    pub max_collateral_inputs: u64,
    pub cost_models_for_script_languages: Vec<LanguageCostModel>,
}

/// Parameters of the Babbage era.
#[derive(Clone, Debug)]
pub struct BabbageProtParams {
    pub minfee_a: u64,
    pub minfee_b: u64,
    pub max_block_body_size: u64,
    pub max_transaction_size: u64,
    pub max_block_header_size: u64,
    pub key_deposit: u64,
    pub pool_deposit: u64,
    pub protocol_version: ProtocolVersion,
    pub min_pool_cost: u64,
    pub desired_number_of_stake_pools: u64,
    pub expansion_rate: RationalNumber,
    pub treasury_growth_rate: RationalNumber,
    pub maximum_epoch: u64,
    pub pool_pledge_influence: RationalNumber,
    pub decentralization_constant: RationalNumber,
    pub extra_entropy: Nonce,
    pub ada_per_utxo_byte: u64,
    pub execution_costs: ExUnitPrices,
    pub max_tx_ex_units: ExUnits,
    pub max_block_ex_units: ExUnits,
    pub max_value_size: u64,
    pub collateral_percentage: u64,
    pub max_collateral_inputs: u64,
    pub cost_models_for_script_languages: CostModels,
}

/// Parameters of the Conway era.
#[derive(Clone, Debug)]
pub struct ConwayProtParams {
    pub minfee_a: u64,
    pub minfee_b: u64,
    pub max_block_body_size: u64,
    pub max_transaction_size: u64,
    pub max_block_header_size: u64,
    pub key_deposit: u64,
    pub pool_deposit: u64,
    pub protocol_version: ProtocolVersion,
    pub min_pool_cost: u64,
    pub desired_number_of_stake_pools: u64,
    pub expansion_rate: RationalNumber,
    pub treasury_growth_rate: RationalNumber,
    pub maximum_epoch: u64,
    pub pool_pledge_influence: RationalNumber,
    pub ada_per_utxo_byte: u64,
    pub execution_costs: ExUnitPrices,
    pub max_tx_ex_units: ExUnits,
    pub max_block_ex_units: ExUnits,
    pub max_value_size: u64,
    pub collateral_percentage: u64,
    pub max_collateral_inputs: u64,
    pub cost_models_for_script_languages: CostModels,
    pub pool_voting_thresholds: PoolVotingThresholds,
    pub drep_voting_thresholds: DRepVotingThresholds,
    pub min_committee_size: u64,
    pub committee_term_limit: u64,
    pub governance_action_validity_period: u64,
    pub governance_action_deposit: u64,
    pub drep_deposit: u64,
    pub drep_inactivity_period: u64,
    pub minfee_refscript_cost_per_byte: RationalNumber,
}


/// Two Alonzo records hold the same values, cost models compared by their contents.
pub open spec fn alonzo_agree(a: AlonzoProtParams, b: AlonzoProtParams) -> bool {
    &&& a.minfee_a == b.minfee_a
    &&& a.minfee_b == b.minfee_b
    &&& a.max_block_body_size == b.max_block_body_size
    &&& a.max_transaction_size == b.max_transaction_size
    &&& a.max_block_header_size == b.max_block_header_size
    &&& a.key_deposit == b.key_deposit
    &&& a.pool_deposit == b.pool_deposit
    &&& a.protocol_version == b.protocol_version
    &&& a.min_pool_cost == b.min_pool_cost
    &&& a.desired_number_of_stake_pools == b.desired_number_of_stake_pools
    &&& a.expansion_rate == b.expansion_rate
    &&& a.treasury_growth_rate == b.treasury_growth_rate
    &&& a.maximum_epoch == b.maximum_epoch
    &&& a.pool_pledge_influence == b.pool_pledge_influence
    &&& a.decentralization_constant == b.decentralization_constant
    &&& a.extra_entropy == b.extra_entropy
    &&& a.ada_per_utxo_byte == b.ada_per_utxo_byte
    &&& a.execution_costs == b.execution_costs
    &&& a.max_tx_ex_units == b.max_tx_ex_units
    &&& a.max_block_ex_units == b.max_block_ex_units
    &&& a.max_value_size == b.max_value_size
    &&& a.collateral_percentage == b.collateral_percentage
    &&& a.max_collateral_inputs == b.max_collateral_inputs
    &&& models_view(a.cost_models_for_script_languages) == models_view(b.cost_models_for_script_languages)
}

/// Two Babbage records hold the same values, cost models compared by their contents.
pub open spec fn babbage_agree(a: BabbageProtParams, b: BabbageProtParams) -> bool {
    &&& a.minfee_a == b.minfee_a
    &&& a.minfee_b == b.minfee_b
    &&& a.max_block_body_size == b.max_block_body_size
    &&& a.max_transaction_size == b.max_transaction_size
    &&& a.max_block_header_size == b.max_block_header_size
    &&& a.key_deposit == b.key_deposit
    &&& a.pool_deposit == b.pool_deposit
    &&& a.protocol_version == b.protocol_version
    &&& a.min_pool_cost == b.min_pool_cost
    &&& a.desired_number_of_stake_pools == b.desired_number_of_stake_pools
    &&& a.expansion_rate == b.expansion_rate
    &&& a.treasury_growth_rate == b.treasury_growth_rate
    &&& a.maximum_epoch == b.maximum_epoch
    &&& a.pool_pledge_influence == b.pool_pledge_influence
    &&& a.decentralization_constant == b.decentralization_constant
    &&& a.extra_entropy == b.extra_entropy
    &&& a.ada_per_utxo_byte == b.ada_per_utxo_byte
    &&& a.execution_costs == b.execution_costs
    &&& a.max_tx_ex_units == b.max_tx_ex_units
    &&& a.max_block_ex_units == b.max_block_ex_units
    &&& a.max_value_size == b.max_value_size
    &&& a.collateral_percentage == b.collateral_percentage
    &&& a.max_collateral_inputs == b.max_collateral_inputs
    &&& cost_models_view(a.cost_models_for_script_languages) == cost_models_view(b.cost_models_for_script_languages)
}

/// Two Conway records hold the same values, cost models compared by their contents.
pub open spec fn conway_agree(a: ConwayProtParams, b: ConwayProtParams) -> bool {
    &&& a.minfee_a == b.minfee_a
    &&& a.minfee_b == b.minfee_b
    &&& a.max_block_body_size == b.max_block_body_size
    &&& a.max_transaction_size == b.max_transaction_size
    &&& a.max_block_header_size == b.max_block_header_size
    &&& a.key_deposit == b.key_deposit
    &&& a.pool_deposit == b.pool_deposit
    &&& a.protocol_version == b.protocol_version
    &&& a.min_pool_cost == b.min_pool_cost
    &&& a.desired_number_of_stake_pools == b.desired_number_of_stake_pools
    &&& a.expansion_rate == b.expansion_rate
    &&& a.treasury_growth_rate == b.treasury_growth_rate
    &&& a.maximum_epoch == b.maximum_epoch
    &&& a.pool_pledge_influence == b.pool_pledge_influence
    &&& a.ada_per_utxo_byte == b.ada_per_utxo_byte
    &&& a.execution_costs == b.execution_costs
    &&& a.max_tx_ex_units == b.max_tx_ex_units
    &&& a.max_block_ex_units == b.max_block_ex_units
    &&& a.max_value_size == b.max_value_size
    &&& a.collateral_percentage == b.collateral_percentage
    &&& a.max_collateral_inputs == b.max_collateral_inputs
    &&& cost_models_view(a.cost_models_for_script_languages) == cost_models_view(b.cost_models_for_script_languages)
    &&& a.pool_voting_thresholds == b.pool_voting_thresholds
    &&& a.drep_voting_thresholds == b.drep_voting_thresholds
    &&& a.min_committee_size == b.min_committee_size
    &&& a.committee_term_limit == b.committee_term_limit
    &&& a.governance_action_validity_period == b.governance_action_validity_period
    &&& a.governance_action_deposit == b.governance_action_deposit
    &&& a.drep_deposit == b.drep_deposit
    &&& a.drep_inactivity_period == b.drep_inactivity_period
    &&& a.minfee_refscript_cost_per_byte == b.minfee_refscript_cost_per_byte
}

/// The protocol parameters in effect, for the era they belong to.
#[derive(Clone, Debug)]
pub enum MultiEraProtocolParameters {
    Byron(ByronProtParams),
    Shelley(ShelleyProtParams),
    Alonzo(AlonzoProtParams),
    Babbage(BabbageProtParams),
    Conway(ConwayProtParams),
}

/// The eras that parameters can belong to.
#[derive(Clone, Copy, Debug, PartialEq, Eq, Structural)]
pub enum Era {
    Byron,
    Shelley,
    Alonzo,
    Babbage,
    Conway,
}

/// The era of a parameter set.
pub open spec fn era_of(p: MultiEraProtocolParameters) -> Era {
    match p {
        MultiEraProtocolParameters::Byron(_) => Era::Byron,
        MultiEraProtocolParameters::Shelley(_) => Era::Shelley,
        MultiEraProtocolParameters::Alonzo(_) => Era::Alonzo,
        MultiEraProtocolParameters::Babbage(_) => Era::Babbage,
        MultiEraProtocolParameters::Conway(_) => Era::Conway,
    }
}

/// The major protocol version that a parameter set records.
pub open spec fn protocol_of(p: MultiEraProtocolParameters) -> u64 {
    match p {
        MultiEraProtocolParameters::Byron(b) => b.block_version.major as u64,
        MultiEraProtocolParameters::Shelley(s) => s.protocol_version.major,
        MultiEraProtocolParameters::Alonzo(a) => a.protocol_version.major,
        MultiEraProtocolParameters::Babbage(b) => b.protocol_version.major,
        MultiEraProtocolParameters::Conway(c) => c.protocol_version.major,
    }
}

/// Two parameter sets belong to one era and hold the same values, cost models
/// compared by their contents.
pub open spec fn params_agree(a: MultiEraProtocolParameters, b: MultiEraProtocolParameters) -> bool {
    match (a, b) {
        (MultiEraProtocolParameters::Byron(x), MultiEraProtocolParameters::Byron(y)) => x == y,
        (MultiEraProtocolParameters::Shelley(x), MultiEraProtocolParameters::Shelley(y)) => x == y,
        (MultiEraProtocolParameters::Alonzo(x), MultiEraProtocolParameters::Alonzo(y)) => alonzo_agree(x, y),
        (MultiEraProtocolParameters::Babbage(x), MultiEraProtocolParameters::Babbage(y)) => babbage_agree(x, y),
        (MultiEraProtocolParameters::Conway(x), MultiEraProtocolParameters::Conway(y)) => conway_agree(x, y),
        _ => false,
    }
}

impl MultiEraProtocolParameters {
    /// The major protocol version recorded in the parameters.
    pub fn protocol_version(&self) -> (r: u64)
        ensures
            r == protocol_of(*self),
    {
        match self {
            MultiEraProtocolParameters::Byron(b) => b.block_version.major as u64,
            MultiEraProtocolParameters::Shelley(s) => s.protocol_version.major,
            MultiEraProtocolParameters::Alonzo(a) => a.protocol_version.major,
            MultiEraProtocolParameters::Babbage(b) => b.protocol_version.major,
            MultiEraProtocolParameters::Conway(c) => c.protocol_version.major,
        }
    }

    /// The era the parameters belong to.
    pub fn era(&self) -> (r: Era)
        ensures
            r == era_of(*self),
    {
        match self {
            MultiEraProtocolParameters::Byron(_) => Era::Byron,
            MultiEraProtocolParameters::Shelley(_) => Era::Shelley,
            MultiEraProtocolParameters::Alonzo(_) => Era::Alonzo,
            MultiEraProtocolParameters::Babbage(_) => Era::Babbage,
            MultiEraProtocolParameters::Conway(_) => Era::Conway,
        }
    }
}

} // verus!
