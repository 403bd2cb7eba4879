use dolos::hardfork::{AlonzoGenesis, ByronGenesis, ConwayGenesis, Genesis, PParamsError, ShelleyGenesis};
use dolos::fold::fold_pparams;
use dolos::params::{
    Era, ExUnitPrices, ExUnits, Language, LanguageCostModel, MultiEraProtocolParameters, Nonce,
    ProtocolVersion, RationalNumber, SoftForkRule, BlockVersion,
};
use dolos::update::{ByronUpdate, EraUpdate, ParamUpdate, TxFeePolicy, UpdateEra};

fn ratio(numerator: u64, denominator: u64) -> RationalNumber {
    RationalNumber { numerator, denominator }
}

fn no_params() -> ParamUpdate {
    ParamUpdate {
        minfee_a: None,
        minfee_b: None,
        max_block_body_size: None,
        max_transaction_size: None,
        max_block_header_size: None,
        key_deposit: None,
        pool_deposit: None,
        protocol_version: None,
        min_pool_cost: None,
        desired_number_of_stake_pools: None,
        expansion_rate: None,
        treasury_growth_rate: None,
        pool_pledge_influence: None,
        decentralization_constant: None,
        extra_entropy: None,
        ada_per_utxo_byte: None,
        execution_costs: None,
        max_tx_ex_units: None,
        max_block_ex_units: None,
        max_value_size: None,
        collateral_percentage: None,
        max_collateral_inputs: None,
        alonzo_cost_models: None,
        cost_models: None,
    }
}

fn no_byron() -> ByronUpdate {
    ByronUpdate { block_version: None, fee_policy: None, max_tx_size: None }
}

fn genesis() -> Genesis {
    Genesis {
        byron: ByronGenesis {
            summand: 155381,
            multiplier: 44,
            max_tx_size: 4096,
            script_version: 0,
            slot_duration: 20000,
            max_block_size: 2000000,
            max_header_size: 2000000,
            max_proposal_size: 700,
            mpc_thd: 20000000000000,
            heavy_del_thd: 300000000000,
            update_vote_thd: 1000000000000,
            update_proposal_thd: 100000000000000,
            update_implicit: 10000,
            soft_fork_rule: SoftForkRule { init_thd: 900000000000000, min_thd: 600000000000000, thd_decrement: 50000000000000 },
            unlock_stake_epoch: 18446744073709551615,
        },
        shelley: ShelleyGenesis {
            protocol_version: ProtocolVersion { major: 2, minor: 0 },
            max_block_body_size: 65536,
            max_transaction_size: 16384,
            max_block_header_size: 1100,
            key_deposit: 2000000,
            min_utxo_value: 1000000,
            minfee_a: 44,
            minfee_b: 155381,
            pool_deposit: 500000000,
            desired_number_of_stake_pools: 150,
            min_pool_cost: 340000000,
            expansion_rate: ratio(3, 1000),
            treasury_growth_rate: ratio(2, 10),
            maximum_epoch: 18,
            pool_pledge_influence: ratio(3, 10),
            decentralization_constant: ratio(1, 1),
            extra_entropy: Nonce::Neutral,
        },
        alonzo: AlonzoGenesis {
            lovelace_per_utxo_word: 34482,
            cost_models: vec![
                LanguageCostModel { language: Language::PlutusV2, model: vec![9, 9] },
                LanguageCostModel { language: Language::PlutusV1, model: vec![1, 2, 3] },
            ],
            execution_prices: ExUnitPrices { mem_price: ratio(577, 10000), step_price: ratio(721, 10000000) },
            max_tx_ex_units: ExUnits { mem: 10000000, steps: 10000000000 },
            max_block_ex_units: ExUnits { mem: 50000000, steps: 40000000000 },
            max_value_size: 5000,
            collateral_percentage: 150,
            max_collateral_inputs: 3,
        },
        conway: ConwayGenesis { plutus_v3_cost_model: vec![7, 8] },
    }
}

fn byron_update(epoch: u64, byron: ByronUpdate) -> EraUpdate {
    EraUpdate {
        era: UpdateEra::Byron,
        epoch,
        byron,
        alonzo_compatible: no_params(),
        babbage: no_params(),
        conway: no_params(),
    }
}

fn shelley_update(epoch: u64, alonzo_compatible: ParamUpdate, babbage: ParamUpdate) -> EraUpdate {
    EraUpdate {
        era: UpdateEra::AlonzoCompatible,
        epoch,
        byron: no_byron(),
        alonzo_compatible,
        babbage,
        conway: no_params(),
    }
}

#[test]
fn byron_max_tx_size_update_is_applied() {
    let g = genesis();
    let mut proposal = no_byron();
    proposal.max_tx_size = Some(8192);
    let updates = vec![byron_update(0, proposal)];
    match fold_pparams(&g, &updates, 1).unwrap() {
        MultiEraProtocolParameters::Byron(p) => {
            assert_eq!(p.max_tx_size, 8192);
            assert_eq!(p.summand, 155381);
            assert_eq!(p.multiplier, 44);
            assert_eq!(p.max_block_size, 2000000);
            assert_eq!(p.slot_duration, 20000);
            assert_eq!(p.block_version, BlockVersion { major: 0, minor: 0, alt: 0 });
        }
        other => panic!("expected Byron parameters, got {:?}", other),
    }
}

#[test]
fn byron_fee_policy_update_is_applied() {
    let g = genesis();
    let mut proposal = no_byron();
    proposal.fee_policy = Some(TxFeePolicy { summand: 1, multiplier: 2 });
    let updates = vec![byron_update(0, proposal)];
    match fold_pparams(&g, &updates, 1).unwrap() {
        MultiEraProtocolParameters::Byron(p) => {
            assert_eq!(p.summand, 1);
            assert_eq!(p.multiplier, 2);
            assert_eq!(p.max_tx_size, 4096);
        }
        other => panic!("expected Byron parameters, got {:?}", other),
    }
}

#[test]
fn update_of_a_later_epoch_is_not_applied_yet() {
    let g = genesis();
    let mut proposal = no_byron();
    proposal.max_tx_size = Some(8192);
    let updates = vec![byron_update(1, proposal)];
    match fold_pparams(&g, &updates, 1).unwrap() {
        MultiEraProtocolParameters::Byron(p) => assert_eq!(p.max_tx_size, 4096),
        other => panic!("expected Byron parameters, got {:?}", other),
    }
}

#[test]
fn later_update_in_an_epoch_overwrites_earlier() {
    let g = genesis();
    let mut first = no_params();
    first.minfee_a = Some(50);
    let mut second = no_params();
    second.minfee_a = Some(60);
    let updates = vec![shelley_update(0, first, no_params()), shelley_update(0, second, no_params())];
    match fold_pparams(&g, &updates, 1).unwrap() {
        MultiEraProtocolParameters::Shelley(p) => assert_eq!(p.minfee_a, 60),
        other => panic!("expected Shelley parameters, got {:?}", other),
    }
}

#[test]
fn second_encoding_is_used_when_first_is_absent() {
    let g = genesis();
    let mut babbage = no_params();
    babbage.key_deposit = Some(3000000);
    let updates = vec![shelley_update(0, no_params(), babbage)];
    match fold_pparams(&g, &updates, 1).unwrap() {
        MultiEraProtocolParameters::Shelley(p) => {
            assert_eq!(p.key_deposit, 3000000);
            assert_eq!(p.minfee_a, 44);
        }
        other => panic!("expected Shelley parameters, got {:?}", other),
    }
}

#[test]
fn first_encoding_wins_when_both_are_present() {
    let g = genesis();
    let mut alonzo = no_params();
    alonzo.key_deposit = Some(1);
    let mut babbage = no_params();
    babbage.key_deposit = Some(2);
    let updates = vec![shelley_update(0, alonzo, babbage)];
    match fold_pparams(&g, &updates, 1).unwrap() {
        MultiEraProtocolParameters::Shelley(p) => assert_eq!(p.key_deposit, 1),
        other => panic!("expected Shelley parameters, got {:?}", other),
    }
}

#[test]
fn byron_moves_to_shelley_at_version_two() {
    let g = genesis();
    let mut proposal = no_byron();
    proposal.block_version = Some(BlockVersion { major: 2, minor: 0, alt: 0 });
    let updates = vec![byron_update(0, proposal)];
    let p = fold_pparams(&g, &updates, 2).unwrap();
    assert_eq!(p.era(), Era::Shelley);
    assert_eq!(p.protocol_version(), 2);
    match p {
        MultiEraProtocolParameters::Shelley(s) => assert_eq!(s.minfee_a, 44),
        other => panic!("expected Shelley parameters, got {:?}", other),
    }
}

#[test]
fn alonzo_inherits_shelley_fields() {
    let g = genesis();
    let mut proposal = no_params();
    proposal.protocol_version = Some(ProtocolVersion { major: 5, minor: 0 });
    proposal.minfee_a = Some(45);
    let updates = vec![shelley_update(0, proposal, no_params())];
    match fold_pparams(&g, &updates, 2).unwrap() {
        MultiEraProtocolParameters::Alonzo(p) => {
            assert_eq!(p.minfee_a, 45);
            assert_eq!(p.minfee_b, 155381);
            assert_eq!(p.protocol_version, ProtocolVersion { major: 5, minor: 0 });
            assert_eq!(p.ada_per_utxo_byte, 34482);
            assert_eq!(p.max_collateral_inputs, 3);
            assert_eq!(p.cost_models_for_script_languages.len(), 2);
        }
        other => panic!("expected Alonzo parameters, got {:?}", other),
    }
}

#[test]
fn babbage_takes_first_plutus_v1_model() {
    let g = genesis();
    let mut proposal = no_params();
    proposal.protocol_version = Some(ProtocolVersion { major: 7, minor: 0 });
    let updates = vec![shelley_update(0, proposal, no_params())];
    match fold_pparams(&g, &updates, 2).unwrap() {
        MultiEraProtocolParameters::Babbage(p) => {
            assert_eq!(p.cost_models_for_script_languages.plutus_v1, Some(vec![1, 2, 3]));
            assert_eq!(p.cost_models_for_script_languages.plutus_v2, None);
            assert_eq!(p.collateral_percentage, 150);
        }
        other => panic!("expected Babbage parameters, got {:?}", other),
    }
}

#[test]
fn conway_gets_plutus_v3_and_unwired_governance() {
    let g = genesis();
    let mut proposal = no_params();
    proposal.protocol_version = Some(ProtocolVersion { major: 9, minor: 0 });
    let updates = vec![shelley_update(0, proposal, no_params())];
    match fold_pparams(&g, &updates, 2).unwrap() {
        MultiEraProtocolParameters::Conway(p) => {
            assert_eq!(p.cost_models_for_script_languages.plutus_v1, Some(vec![1, 2, 3]));
            assert_eq!(p.cost_models_for_script_languages.plutus_v3, Some(vec![7, 8]));
            assert_eq!(p.drep_deposit, 0);
            assert_eq!(p.minfee_refscript_cost_per_byte, ratio(0, 1));
            assert_eq!(p.max_value_size, 5000);
        }
        other => panic!("expected Conway parameters, got {:?}", other),
    }
}

#[test]
fn unknown_transition_is_an_error() {
    let g = genesis();
    let mut proposal = no_params();
    proposal.protocol_version = Some(ProtocolVersion { major: 10, minor: 0 });
    let updates = vec![shelley_update(0, proposal, no_params())];
    assert_eq!(
        fold_pparams(&g, &updates, 2).unwrap_err(),
        PParamsError::UnhandledTransition { era: Era::Conway, next_protocol: 10 }
    );
}

#[test]
fn fork_waits_for_the_next_epoch() {
    let g = genesis();
    let mut proposal = no_params();
    proposal.protocol_version = Some(ProtocolVersion { major: 5, minor: 0 });
    let updates = vec![shelley_update(0, proposal, no_params())];
    let p = fold_pparams(&g, &updates, 1).unwrap();
    assert_eq!(p.era(), Era::Shelley);
    assert_eq!(p.protocol_version(), 5);
}

#[test]
fn zero_epochs_gives_genesis_parameters() {
    let g = genesis();
    let updates = vec![shelley_update(0, no_params(), no_params())];
    match fold_pparams(&g, &updates, 0).unwrap() {
        MultiEraProtocolParameters::Shelley(p) => {
            assert_eq!(p.minfee_a, 44);
            assert_eq!(p.extra_entropy, Nonce::Neutral);
            assert_eq!(p.expansion_rate, ratio(3, 1000));
        }
        other => panic!("expected Shelley parameters, got {:?}", other),
    }
}

#[test]
fn lower_protocol_version_proposal_is_ignored() {
    let g = genesis();
    let mut proposal = no_params();
    proposal.protocol_version = Some(ProtocolVersion { major: 1, minor: 5 });
    proposal.minfee_b = Some(7);
    let updates = vec![shelley_update(0, proposal, no_params())];
    let before = fold_pparams(&g, &updates, 0).unwrap();
    let after = fold_pparams(&g, &updates, 1).unwrap();
    assert_eq!(before.protocol_version(), 2);
    assert_eq!(after.protocol_version(), 2);
    match after {
        MultiEraProtocolParameters::Shelley(p) => {
            assert_eq!(p.protocol_version, ProtocolVersion { major: 2, minor: 0 });
            assert_eq!(p.minfee_b, 7);
        }
        other => panic!("expected Shelley parameters, got {:?}", other),
    }
}

#[test]
fn lower_byron_block_version_proposal_is_ignored() {
    let g = genesis();
    let mut up = no_byron();
    up.block_version = Some(BlockVersion { major: 1, minor: 0, alt: 0 });
    let mut down = no_byron();
    down.block_version = Some(BlockVersion { major: 0, minor: 3, alt: 0 });
    let updates = vec![byron_update(0, up), byron_update(1, down)];
    match fold_pparams(&g, &updates, 2).unwrap() {
        MultiEraProtocolParameters::Byron(p) => {
            assert_eq!(p.block_version, BlockVersion { major: 1, minor: 0, alt: 0 })
        }
        other => panic!("expected Byron parameters, got {:?}", other),
    }
}
