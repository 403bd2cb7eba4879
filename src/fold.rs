use vstd::prelude::*;

use crate::hardfork::{
    inherits, lemma_hardfork_inherits,
    bootstrap_byron_pparams, bootstrap_byron_spec, bootstrap_shelley_pparams,
    bootstrap_shelley_spec, hardfork_spec, lemma_hardfork_respects_agreement, advance_hardfork,
    Genesis, PParamsError,
};
use crate::params::{era_of, params_agree, protocol_of, Era, MultiEraProtocolParameters};
use crate::update::{
    apply_param_update, apply_update_spec, lemma_update_respects_agreement, EraUpdate, UpdateEra,
};

verus! {

/// The parameters a fold starts from: Byron's genesis values when the first update is a
/// Byron one, Shelley's otherwise.
pub open spec fn initial_spec(g: Genesis, first: EraUpdate) -> MultiEraProtocolParameters {
    if first.era == UpdateEra::Byron {
        MultiEraProtocolParameters::Byron(bootstrap_byron_spec(g.byron))
    } else {
        MultiEraProtocolParameters::Shelley(bootstrap_shelley_spec(g.shelley))
    }
}

/// Steps the parameters one protocol version at a time from `last` up to `top`, failing
/// at the first step that no rule covers.
pub open spec fn catch_up_spec(p: MultiEraProtocolParameters, g: Genesis, last: u64, top: u64) -> Result<MultiEraProtocolParameters, PParamsError>
    decreases top - last,
{
    if last >= top {
        Ok(p)
    } else {
        let next = (last + 1) as u64;
        match hardfork_spec(p, g, next) {
            Some(q) => catch_up_spec(q, g, next, top),
            None => Err(PParamsError::UnhandledTransition { era: era_of(p), next_protocol: next }),
        }
    }
}

/// Applies, in arrival order, those of the first `n` updates that target `epoch`.
pub open spec fn apply_epoch_spec(p: MultiEraProtocolParameters, us: Seq<EraUpdate>, epoch: u64, n: int) -> MultiEraProtocolParameters
    decreases n,
{
    if n <= 0 {
        p
    } else {
        let q = apply_epoch_spec(p, us, epoch, n - 1);
        if us[n - 1].epoch == epoch {
            apply_update_spec(q, us[n - 1])
        } else {
            q
        }
    }
}

/// The parameters after `n` epochs, with the last protocol version stepped to: each epoch
/// first catches the protocol version up, then applies that epoch's updates.
pub open spec fn fold_spec(g: Genesis, us: Seq<EraUpdate>, n: nat) -> Result<(MultiEraProtocolParameters, u64), PParamsError>
    decreases n,
{
    if n == 0 {
        Ok((initial_spec(g, us[0]), 0u64))
    } else {
        match fold_spec(g, us, (n - 1) as nat) {
            Err(e) => Err(e),
            Ok(s) => {
                let top = protocol_of(s.0);
                match catch_up_spec(s.0, g, s.1, top) {
                    Err(e) => Err(e),
                    Ok(q) => Ok((
                        apply_epoch_spec(q, us, (n - 1) as u64, us.len() as int),
                        if top > s.1 { top } else { s.1 },
                    )),
                }
            },
        }
    }
}

/// A fold that failed at some epoch fails with the same error at every later one.
pub proof fn lemma_fold_error_persists(g: Genesis, us: Seq<EraUpdate>, n: nat, m: nat)
    requires
        n <= m,
        fold_spec(g, us, n) is Err,
    ensures
        fold_spec(g, us, m) == fold_spec(g, us, n),
    decreases m,
{
    if m > n {
        lemma_fold_error_persists(g, us, n, (m - 1) as nat);
    }
}

/// Across each epoch of a fold, the protocol version that the fork steps have reached
/// never decreases: it becomes the larger of the one before and the version that the
/// parameters recorded, and every version in between is stepped through, one at a time.
pub proof fn lemma_fold_protocol_monotone(g: Genesis, us: Seq<EraUpdate>, n: nat)
    requires
        fold_spec(g, us, n + 1) is Ok,
    ensures
        fold_spec(g, us, n) is Ok,
        fold_spec(g, us, n)->Ok_0.1 <= fold_spec(g, us, n + 1)->Ok_0.1,
        fold_spec(g, us, n + 1)->Ok_0.1 == if protocol_of(fold_spec(g, us, n)->Ok_0.0) > fold_spec(g, us, n)->Ok_0.1 {
            protocol_of(fold_spec(g, us, n)->Ok_0.0)
        } else {
            fold_spec(g, us, n)->Ok_0.1
        },
        catch_up_spec(fold_spec(g, us, n)->Ok_0.0, g, fold_spec(g, us, n)->Ok_0.1, protocol_of(fold_spec(g, us, n)->Ok_0.0)) is Ok,
{
}

/// A catch-up that succeeds takes each version step in turn: the step to the next version
/// is covered by a rule, and the rest of the catch-up starts from its result.
pub proof fn lemma_catch_up_takes_each_step(p: MultiEraProtocolParameters, g: Genesis, last: u64, top: u64)
    requires
        last < top,
        catch_up_spec(p, g, last, top) is Ok,
    ensures
        hardfork_spec(p, g, (last + 1) as u64) is Some,
        catch_up_spec(p, g, last, top) == catch_up_spec(hardfork_spec(p, g, (last + 1) as u64)->0, g, (last + 1) as u64, top),
{
}

/// Computes the protocol parameters in effect after `for_epoch` epochs, starting from genesis
/// and replaying fork steps and update proposals in order.
#[verifier::loop_isolation(false)]
pub fn fold_pparams(genesis: &Genesis, updates: &[EraUpdate], for_epoch: u64) -> (r: Result<MultiEraProtocolParameters, PParamsError>)
    requires
        updates@.len() > 0,
    ensures
        match fold_spec(*genesis, updates@, for_epoch as nat) {
            Ok(s) => r is Ok && params_agree(r->Ok_0, s.0),
            Err(e) => r == Err::<MultiEraProtocolParameters, PParamsError>(e),
        },
{
    let mut pparams = if updates[0].era == UpdateEra::Byron {
        MultiEraProtocolParameters::Byron(bootstrap_byron_pparams(&genesis.byron))
    } else {
        MultiEraProtocolParameters::Shelley(bootstrap_shelley_pparams(&genesis.shelley))
    };
    let mut last_protocol: u64 = 0;
    let ghost mut sp = pparams;
    let mut epoch: u64 = 0;
    while epoch < for_epoch
        invariant
            epoch <= for_epoch,
            updates@.len() > 0,
            fold_spec(*genesis, updates@, epoch as nat) == Ok::<(MultiEraProtocolParameters, u64), PParamsError>((sp, last_protocol)),
            params_agree(pparams, sp),
        decreases for_epoch - epoch,
    {
        let top = pparams.protocol_version();
        proof {
            lemma_hardfork_respects_agreement(pparams, sp, *genesis, 0);
        }
        let ghost start = sp;
        let ghost last0 = last_protocol;
        while last_protocol < top
            invariant
                last0 <= last_protocol,
                last0 < top ==> last_protocol <= top,
                last0 >= top ==> last_protocol == last0,
                params_agree(pparams, sp),
                catch_up_spec(start, *genesis, last0, top) == catch_up_spec(sp, *genesis, last_protocol, top),
            decreases top - last_protocol,
        {
            let next = last_protocol + 1;
            proof {
                lemma_hardfork_respects_agreement(pparams, sp, *genesis, next);
            }
            let ghost before = pparams;
            match advance_hardfork(pparams, genesis, next) {
                Ok(p) => {
                    pparams = p;
                    proof {
                        sp = hardfork_spec(sp, *genesis, next)->0;
                    }
                },
                Err(e) => {
                    proof {
                        assert(catch_up_spec(sp, *genesis, last_protocol, top) == Err::<MultiEraProtocolParameters, PParamsError>(e));
                        assert(fold_spec(*genesis, updates@, (epoch + 1) as nat) == Err::<(MultiEraProtocolParameters, u64), PParamsError>(e));
                        lemma_fold_error_persists(*genesis, updates@, (epoch + 1) as nat, for_epoch as nat);
                    }
                    return Err(e);
                },
            }
            last_protocol = next;
        }
        assert(catch_up_spec(start, *genesis, last0, top) == Ok::<MultiEraProtocolParameters, PParamsError>(sp));
        assert(last_protocol == if top > last0 { top } else { last0 });
        let ghost caught = sp;
        let mut i: usize = 0;
        while i < updates.len()
            invariant
                i <= updates@.len(),
                params_agree(pparams, sp),
                sp == apply_epoch_spec(caught, updates@, epoch, i as int),
            decreases updates@.len() - i,
        {
            if updates[i].epoch == epoch {
                proof {
                    lemma_update_respects_agreement(pparams, sp, updates@[i as int]);
                }
                pparams = apply_param_update(pparams, &updates[i]);
                proof {
                    sp = apply_update_spec(sp, updates@[i as int]);
                }
            }
            i = i + 1;
        }
        assert(fold_spec(*genesis, updates@, (epoch + 1) as nat) == Ok::<(MultiEraProtocolParameters, u64), PParamsError>((sp, last_protocol)));
        epoch = epoch + 1;
    }
    Ok(pparams)
}

/// No Byron proposal among `us` puts forward a block version whose major number exceeds the
/// major protocol version that the Shelley genesis starts from.
pub open spec fn byron_proposals_within(g: Genesis, us: Seq<EraUpdate>) -> bool {
    forall|i: int|
        0 <= i < us.len() && (#[trigger] us[i]).byron.block_version is Some
            ==> us[i].byron.block_version->0.major <= g.shelley.protocol_version.major
}

/// Byron parameters stay at or below the major version that the Shelley genesis starts from.
pub open spec fn byron_within(p: MultiEraProtocolParameters, g: Genesis) -> bool {
    p is Byron ==> protocol_of(p) <= g.shelley.protocol_version.major
}

/// A fork step never lowers the protocol version.
proof fn lemma_hardfork_version(p: MultiEraProtocolParameters, g: Genesis, next: u64)
    requires
        byron_within(p, g),
        hardfork_spec(p, g, next) is Some,
    ensures
        protocol_of(p) <= protocol_of(hardfork_spec(p, g, next)->0),
        byron_within(hardfork_spec(p, g, next)->0, g),
{
}

/// A catch-up never lowers the protocol version.
proof fn lemma_catch_up_version(p: MultiEraProtocolParameters, g: Genesis, last: u64, top: u64)
    requires
        byron_within(p, g),
        catch_up_spec(p, g, last, top) is Ok,
    ensures
        protocol_of(p) <= protocol_of(catch_up_spec(p, g, last, top)->Ok_0),
        byron_within(catch_up_spec(p, g, last, top)->Ok_0, g),
    decreases top - last,
{
    if last < top {
        let next = (last + 1) as u64;
        lemma_hardfork_version(p, g, next);
        lemma_catch_up_version(hardfork_spec(p, g, next)->0, g, next, top);
    }
}

/// Applying an epoch's updates never lowers the protocol version.
proof fn lemma_epoch_version(p: MultiEraProtocolParameters, g: Genesis, us: Seq<EraUpdate>, epoch: u64, n: int)
    requires
        byron_within(p, g),
        byron_proposals_within(g, us),
        0 <= n <= us.len(),
    ensures
        protocol_of(p) <= protocol_of(apply_epoch_spec(p, us, epoch, n)),
        byron_within(apply_epoch_spec(p, us, epoch, n), g),
    decreases n,
{
    if n > 0 {
        lemma_epoch_version(p, g, us, epoch, n - 1);
        let q = apply_epoch_spec(p, us, epoch, n - 1);
        let u = us[n - 1];
        assert(u.byron.block_version is Some ==> u.byron.block_version->0.major <= g.shelley.protocol_version.major);
    }
}

/// Every parameter set that a fold reaches stays within the Byron bound.
proof fn lemma_fold_byron_within(g: Genesis, us: Seq<EraUpdate>, n: nat)
    requires
        byron_proposals_within(g, us),
        fold_spec(g, us, n) is Ok,
    ensures
        byron_within(fold_spec(g, us, n)->Ok_0.0, g),
    decreases n,
{
    if n > 0 {
        lemma_fold_byron_within(g, us, (n - 1) as nat);
        let s = fold_spec(g, us, (n - 1) as nat)->Ok_0;
        let top = protocol_of(s.0);
        lemma_catch_up_version(s.0, g, s.1, top);
        let q = catch_up_spec(s.0, g, s.1, top)->Ok_0;
        lemma_epoch_version(q, g, us, (n - 1) as u64, us.len() as int);
    }
}

/// The protocol version of the folded parameters never decreases from one epoch to the
/// next, where no Byron proposal goes beyond the version that the Shelley genesis starts from.
pub proof fn lemma_fold_version_nondecreasing(g: Genesis, us: Seq<EraUpdate>, n: nat)
    requires
        byron_proposals_within(g, us),
        fold_spec(g, us, n + 1) is Ok,
    ensures
        fold_spec(g, us, n) is Ok,
        protocol_of(fold_spec(g, us, n)->Ok_0.0) <= protocol_of(fold_spec(g, us, n + 1)->Ok_0.0),
{
    lemma_fold_byron_within(g, us, n);
    let s = fold_spec(g, us, n)->Ok_0;
    let top = protocol_of(s.0);
    lemma_catch_up_version(s.0, g, s.1, top);
    let q = catch_up_spec(s.0, g, s.1, top)->Ok_0;
    lemma_epoch_version(q, g, us, n as u64, us.len() as int);
}

/// The era that a protocol version belongs to: Byron up to 1, Shelley (with Allegra and
/// Mary) from 2 to 4, Alonzo at 5 and 6, Babbage at 7 and 8, Conway from 9.
pub open spec fn era_for(version: u64) -> Era {
    if version <= 1 {
        Era::Byron
    } else if version <= 4 {
        Era::Shelley
    } else if version <= 6 {
        Era::Alonzo
    } else if version <= 8 {
        Era::Babbage
    } else {
        Era::Conway
    }
}

/// A fork step from the era of one version lands in the era of the next.
proof fn lemma_step_era(p: MultiEraProtocolParameters, g: Genesis, last: u64)
    requires
        era_of(p) == era_for(last),
        last < u64::MAX,
        hardfork_spec(p, g, (last + 1) as u64) is Some,
    ensures
        era_of(hardfork_spec(p, g, (last + 1) as u64)->0) == era_for((last + 1) as u64),
{
}

/// A catch-up from the era of `last` ends in the era of the version it reaches.
proof fn lemma_catch_up_era(p: MultiEraProtocolParameters, g: Genesis, last: u64, top: u64)
    requires
        era_of(p) == era_for(last),
        catch_up_spec(p, g, last, top) is Ok,
    ensures
        era_of(catch_up_spec(p, g, last, top)->Ok_0) == era_for(if top > last { top } else { last }),
    decreases top - last,
{
    if last < top {
        let next = (last + 1) as u64;
        lemma_step_era(p, g, last);
        lemma_catch_up_era(hardfork_spec(p, g, next)->0, g, next, top);
    }
}

/// Updates never change the era.
proof fn lemma_epoch_keeps_era(p: MultiEraProtocolParameters, us: Seq<EraUpdate>, epoch: u64, n: int)
    ensures
        era_of(apply_epoch_spec(p, us, epoch, n)) == era_of(p),
    decreases n,
{
    if n > 0 {
        lemma_epoch_keeps_era(p, us, epoch, n - 1);
    }
}

/// For a fold that starts in Byron, the era after each epoch is the era of the highest
/// protocol version reached so far: every fork step up to it has been taken in turn, with or
/// without update proposals for the versions in between.
pub proof fn lemma_fold_era_matches_version(g: Genesis, us: Seq<EraUpdate>, n: nat)
    requires
        us.len() > 0,
        us[0].era == UpdateEra::Byron,
        fold_spec(g, us, n) is Ok,
    ensures
        era_of(fold_spec(g, us, n)->Ok_0.0) == era_for(fold_spec(g, us, n)->Ok_0.1),
    decreases n,
{
    if n > 0 {
        lemma_fold_era_matches_version(g, us, (n - 1) as nat);
        let s = fold_spec(g, us, (n - 1) as nat)->Ok_0;
        let top = protocol_of(s.0);
        lemma_catch_up_era(s.0, g, s.1, top);
        let q = catch_up_spec(s.0, g, s.1, top)->Ok_0;
        lemma_epoch_keeps_era(q, us, (n - 1) as u64, us.len() as int);
    }
}

/// What a run of fork steps carries over: between two eras, the fields that every era in
/// between shares hold the same values; within one era nothing changes; nothing of Byron's
/// carries into a later era.
pub open spec fn carried(before: MultiEraProtocolParameters, after: MultiEraProtocolParameters) -> bool {
    match (before, after) {
        (MultiEraProtocolParameters::Shelley(x), MultiEraProtocolParameters::Alonzo(y)) => {
            &&& x.minfee_a == y.minfee_a
            &&& x.minfee_b == y.minfee_b
            &&& x.max_block_body_size == y.max_block_body_size
            &&& x.max_transaction_size == y.max_transaction_size
            &&& x.max_block_header_size == y.max_block_header_size
            &&& x.key_deposit == y.key_deposit
            &&& x.pool_deposit == y.pool_deposit
            &&& x.protocol_version == y.protocol_version
            &&& x.min_pool_cost == y.min_pool_cost
            &&& x.desired_number_of_stake_pools == y.desired_number_of_stake_pools
            &&& x.expansion_rate == y.expansion_rate
            &&& x.treasury_growth_rate == y.treasury_growth_rate
            &&& x.maximum_epoch == y.maximum_epoch
            &&& x.pool_pledge_influence == y.pool_pledge_influence
            &&& x.decentralization_constant == y.decentralization_constant
            &&& x.extra_entropy == y.extra_entropy
        },
        (MultiEraProtocolParameters::Shelley(x), MultiEraProtocolParameters::Babbage(y)) => {
            &&& x.minfee_a == y.minfee_a
            &&& x.minfee_b == y.minfee_b
            &&& x.max_block_body_size == y.max_block_body_size
            &&& x.max_transaction_size == y.max_transaction_size
            &&& x.max_block_header_size == y.max_block_header_size
            &&& x.key_deposit == y.key_deposit
            &&& x.pool_deposit == y.pool_deposit
            &&& x.protocol_version == y.protocol_version
            &&& x.min_pool_cost == y.min_pool_cost
            &&& x.desired_number_of_stake_pools == y.desired_number_of_stake_pools
            &&& x.expansion_rate == y.expansion_rate
            &&& x.treasury_growth_rate == y.treasury_growth_rate
            &&& x.maximum_epoch == y.maximum_epoch
            &&& x.pool_pledge_influence == y.pool_pledge_influence
            &&& x.decentralization_constant == y.decentralization_constant
            &&& x.extra_entropy == y.extra_entropy
        },
        (MultiEraProtocolParameters::Shelley(x), MultiEraProtocolParameters::Conway(y)) => {
            &&& x.minfee_a == y.minfee_a
            &&& x.minfee_b == y.minfee_b
            &&& x.max_block_body_size == y.max_block_body_size
            &&& x.max_transaction_size == y.max_transaction_size
            &&& x.max_block_header_size == y.max_block_header_size
            &&& x.key_deposit == y.key_deposit
            &&& x.pool_deposit == y.pool_deposit
            &&& x.protocol_version == y.protocol_version
            &&& x.min_pool_cost == y.min_pool_cost
            &&& x.desired_number_of_stake_pools == y.desired_number_of_stake_pools
            &&& x.expansion_rate == y.expansion_rate
            &&& x.treasury_growth_rate == y.treasury_growth_rate
            &&& x.maximum_epoch == y.maximum_epoch
            &&& x.pool_pledge_influence == y.pool_pledge_influence
        },
        (MultiEraProtocolParameters::Alonzo(x), MultiEraProtocolParameters::Babbage(y)) => {
            &&& x.minfee_a == y.minfee_a
            &&& x.minfee_b == y.minfee_b
            &&& x.max_block_body_size == y.max_block_body_size
            &&& x.max_transaction_size == y.max_transaction_size
            &&& x.max_block_header_size == y.max_block_header_size
            &&& x.key_deposit == y.key_deposit
            &&& x.pool_deposit == y.pool_deposit
            &&& x.protocol_version == y.protocol_version
            &&& x.min_pool_cost == y.min_pool_cost
            &&& x.desired_number_of_stake_pools == y.desired_number_of_stake_pools
            &&& x.expansion_rate == y.expansion_rate
            &&& x.treasury_growth_rate == y.treasury_growth_rate
            &&& x.maximum_epoch == y.maximum_epoch
            &&& x.pool_pledge_influence == y.pool_pledge_influence
            &&& x.decentralization_constant == y.decentralization_constant
            &&& x.extra_entropy == y.extra_entropy
            &&& x.ada_per_utxo_byte == y.ada_per_utxo_byte
            &&& x.execution_costs == y.execution_costs
            &&& x.max_tx_ex_units == y.max_tx_ex_units
            &&& x.max_block_ex_units == y.max_block_ex_units
            &&& x.max_value_size == y.max_value_size
            &&& x.collateral_percentage == y.collateral_percentage
            &&& x.max_collateral_inputs == y.max_collateral_inputs
        },
        (MultiEraProtocolParameters::Alonzo(x), MultiEraProtocolParameters::Conway(y)) => {
            &&& x.minfee_a == y.minfee_a
            &&& x.minfee_b == y.minfee_b
            &&& x.max_block_body_size == y.max_block_body_size
            &&& x.max_transaction_size == y.max_transaction_size
            &&& x.max_block_header_size == y.max_block_header_size
            &&& x.key_deposit == y.key_deposit
            &&& x.pool_deposit == y.pool_deposit
            &&& x.protocol_version == y.protocol_version
            &&& x.min_pool_cost == y.min_pool_cost
            &&& x.desired_number_of_stake_pools == y.desired_number_of_stake_pools
            &&& x.expansion_rate == y.expansion_rate
            &&& x.treasury_growth_rate == y.treasury_growth_rate
            &&& x.maximum_epoch == y.maximum_epoch
            &&& x.pool_pledge_influence == y.pool_pledge_influence
            &&& x.ada_per_utxo_byte == y.ada_per_utxo_byte
            &&& x.execution_costs == y.execution_costs
            &&& x.max_tx_ex_units == y.max_tx_ex_units
            &&& x.max_block_ex_units == y.max_block_ex_units
            &&& x.max_value_size == y.max_value_size
            &&& x.collateral_percentage == y.collateral_percentage
            &&& x.max_collateral_inputs == y.max_collateral_inputs
        },
        (MultiEraProtocolParameters::Babbage(x), MultiEraProtocolParameters::Conway(y)) => {
            &&& x.minfee_a == y.minfee_a
            &&& x.minfee_b == y.minfee_b
            &&& x.max_block_body_size == y.max_block_body_size
            &&& x.max_transaction_size == y.max_transaction_size
            &&& x.max_block_header_size == y.max_block_header_size
            &&& x.key_deposit == y.key_deposit
            &&& x.pool_deposit == y.pool_deposit
            &&& x.protocol_version == y.protocol_version
            &&& x.min_pool_cost == y.min_pool_cost
            &&& x.desired_number_of_stake_pools == y.desired_number_of_stake_pools
            &&& x.expansion_rate == y.expansion_rate
            &&& x.treasury_growth_rate == y.treasury_growth_rate
            &&& x.maximum_epoch == y.maximum_epoch
            &&& x.pool_pledge_influence == y.pool_pledge_influence
            &&& x.ada_per_utxo_byte == y.ada_per_utxo_byte
            &&& x.execution_costs == y.execution_costs
            &&& x.max_tx_ex_units == y.max_tx_ex_units
            &&& x.max_block_ex_units == y.max_block_ex_units
            &&& x.max_value_size == y.max_value_size
            &&& x.collateral_percentage == y.collateral_percentage
            &&& x.max_collateral_inputs == y.max_collateral_inputs
            &&& x.cost_models_for_script_languages.plutus_v1 == y.cost_models_for_script_languages.plutus_v1
            &&& x.cost_models_for_script_languages.plutus_v2 == y.cost_models_for_script_languages.plutus_v2
        },
        (MultiEraProtocolParameters::Byron(_), _) => true,
        _ => before == after,
    }
}

/// A catch-up carries over every field that the eras it passes through share: the values
/// just before the forks are the values right after them, before any update of the epoch.
pub proof fn lemma_catch_up_carries(p: MultiEraProtocolParameters, g: Genesis, last: u64, top: u64)
    requires
        catch_up_spec(p, g, last, top) is Ok,
    ensures
        carried(p, catch_up_spec(p, g, last, top)->Ok_0),
    decreases top - last,
{
    if last < top {
        let next = (last + 1) as u64;
        let q = hardfork_spec(p, g, next)->0;
        lemma_hardfork_inherits(p, g, next);
        lemma_catch_up_carries(q, g, next, top);
        lemma_carried_chain(p, q, catch_up_spec(q, g, next, top)->Ok_0);
    }
}

/// Carrying over is preserved when a single fork step comes first.
proof fn lemma_carried_chain(a: MultiEraProtocolParameters, b: MultiEraProtocolParameters, c: MultiEraProtocolParameters)
    requires
        inherits(a, b),
        carried(b, c),
        era_of(a) == Era::Byron || era_of(c) != Era::Byron,
    ensures
        carried(a, c),
{
}

/// Across the forks at the start of an epoch, the fields shared by the eras passed through
/// keep the values they had at the end of the epoch before; only that epoch's updates, applied
/// after the forks, may change them.
pub proof fn lemma_fold_carries_across_forks(g: Genesis, us: Seq<EraUpdate>, n: nat)
    requires
        fold_spec(g, us, n + 1) is Ok,
    ensures
        fold_spec(g, us, n) is Ok,
        catch_up_spec(fold_spec(g, us, n)->Ok_0.0, g, fold_spec(g, us, n)->Ok_0.1, protocol_of(fold_spec(g, us, n)->Ok_0.0)) is Ok,
        carried(
            fold_spec(g, us, n)->Ok_0.0,
            catch_up_spec(fold_spec(g, us, n)->Ok_0.0, g, fold_spec(g, us, n)->Ok_0.1, protocol_of(fold_spec(g, us, n)->Ok_0.0))->Ok_0,
        ),
        fold_spec(g, us, n + 1)->Ok_0.0 == apply_epoch_spec(
            catch_up_spec(fold_spec(g, us, n)->Ok_0.0, g, fold_spec(g, us, n)->Ok_0.1, protocol_of(fold_spec(g, us, n)->Ok_0.0))->Ok_0,
            us,
            n as u64,
            us.len() as int,
        ),
{
    let s = fold_spec(g, us, n)->Ok_0;
    lemma_catch_up_carries(s.0, g, s.1, protocol_of(s.0));
}

} // verus!
