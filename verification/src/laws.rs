//! Conservation and all-or-nothing laws of the tick engine, proved over
//! the pass functions.
//!
//! The quantities a tick mints, consumes and absorbs are defined here as
//! functions of the evolving pass state, and the material account is
//! shown to balance against them, kind by kind.

use vstd::prelude::*;

use crate::game::{MapObjectModel, RegistryModel};
use crate::kinds::{lemma_resource_idx_injective, Resource, COMMODITY_COUNT, RESOURCE_COUNT};
use crate::managers::{
    absorb_fold, charge_fold, charge_step, discharge_fold, discharge_step, em_has_energy,
    lemma_withdraw_list_bounds, object_wf, produce_fold, produce_step, recipe_ok,
    registry_structures_wf, reset_deficits, spec_min, withdraw_list, EnergyModel, MaterialModel,
};
use crate::structures::{energy_of, mine_output_of, recipe_of, resource_store_of, StructureModel};
use crate::tick::tick_spec;

verus! {

/// Resource of kind `k` sitting in an object's bounded store; only
/// storage structures take part in the intake pass.
pub open spec fn storage_amt(o: MapObjectModel, k: int) -> int {
    match o.structure {
        Some(StructureModel::Storage { blueprint }) => resource_store_of(blueprint).amt[k] as int,
        _ => 0,
    }
}

/// Resource of kind `k` sitting in the stores of the entries from `i`
/// on.
pub open spec fn storage_total_from(s: RegistryModel, i: int, k: int) -> int
    decreases s.len() - i,
{
    if i < 0 || i >= s.len() {
        0
    } else {
        storage_amt(s[i].1, k) + storage_total_from(s, i + 1, k)
    }
}

/// Resource of kind `k` a production step mints: a mine's yield, when
/// the pool covers its demand.
pub open spec fn step_minted_res(e: EnergyModel, o: MapObjectModel, k: int) -> int {
    match o.structure {
        Some(StructureModel::Mine { blueprint, resource, .. }) => if resource.idx_spec() == k
            && em_has_energy(e, energy_of(blueprint).energy_in as int) {
            mine_output_of(blueprint).resource_out as int
        } else {
            0
        },
        _ => 0,
    }
}

/// Amount of kind `k` among the first `n` requirements of a recipe.
pub open spec fn reqs_amount(reqs: Seq<(Resource, u64)>, n: int, k: int) -> int
    decreases n,
{
    if n <= 0 {
        0
    } else {
        reqs_amount(reqs, n - 1, k) + (if reqs[n - 1].0.idx_spec() == k {
            reqs[n - 1].1 as int
        } else {
            0
        })
    }
}

/// Resource of kind `k` a production step consumes: a factory's
/// requirement, when the whole recipe goes through.
pub open spec fn step_consumed_res(e: EnergyModel, m: MaterialModel, o: MapObjectModel, k: int)
    -> int {
    match o.structure {
        Some(StructureModel::Factory { blueprint, .. }) => match recipe_of(blueprint) {
            Some(recipe) => if em_has_energy(e, recipe.energy_required as int) && recipe_ok(
                m.res,
                recipe.resource_required,
            ) {
                reqs_amount(recipe.resource_required, recipe.resource_required.len() as int, k)
            } else {
                0
            },
            None => 0,
        },
        _ => 0,
    }
}

/// Commodity of kind `k` a production step mints: a factory's yield,
/// when the whole recipe goes through.
pub open spec fn step_minted_com(e: EnergyModel, m: MaterialModel, o: MapObjectModel, k: int)
    -> int {
    match o.structure {
        Some(StructureModel::Factory { blueprint, commodity }) => match recipe_of(blueprint) {
            Some(recipe) => if commodity.idx_spec() == k && em_has_energy(
                e,
                recipe.energy_required as int,
            ) && recipe_ok(m.res, recipe.resource_required) {
                recipe.commodity_out as int
            } else {
                0
            },
            None => 0,
        },
        _ => 0,
    }
}

/// Resource of kind `k` the first `n` production steps mint.
pub open spec fn minted_res_upto(
    e0: EnergyModel,
    m0: MaterialModel,
    s: RegistryModel,
    n: int,
    k: int,
) -> int
    decreases n,
{
    if n <= 0 {
        0
    } else {
        minted_res_upto(e0, m0, s, n - 1, k) + step_minted_res(
            produce_fold(e0, m0, s, n - 1).0,
            s[n - 1].1,
            k,
        )
    }
}

/// Resource of kind `k` the first `n` production steps consume.
pub open spec fn consumed_res_upto(
    e0: EnergyModel,
    m0: MaterialModel,
    s: RegistryModel,
    n: int,
    k: int,
) -> int
    decreases n,
{
    if n <= 0 {
        0
    } else {
        consumed_res_upto(e0, m0, s, n - 1, k) + step_consumed_res(
            produce_fold(e0, m0, s, n - 1).0,
            produce_fold(e0, m0, s, n - 1).1,
            s[n - 1].1,
            k,
        )
    }
}

/// Commodity of kind `k` the first `n` production steps mint.
pub open spec fn minted_com_upto(
    e0: EnergyModel,
    m0: MaterialModel,
    s: RegistryModel,
    n: int,
    k: int,
) -> int
    decreases n,
{
    if n <= 0 {
        0
    } else {
        minted_com_upto(e0, m0, s, n - 1, k) + step_minted_com(
            produce_fold(e0, m0, s, n - 1).0,
            produce_fold(e0, m0, s, n - 1).1,
            s[n - 1].1,
            k,
        )
    }
}

/// A recipe that names no requirement of kind `k` consumes nothing of
/// it.
proof fn lemma_reqs_amount_absent(reqs: Seq<(Resource, u64)>, n: int, k: int)
    requires
        forall|j: int| 0 <= j < n ==> (#[trigger] reqs[j]).0.idx_spec() != k,
    ensures
        reqs_amount(reqs, n, k) == 0,
    decreases n,
{
    if n > 0 {
        lemma_reqs_amount_absent(reqs, n - 1, k);
    }
}

/// When the stocks strictly cover a duplicate-free recipe, the
/// withdrawal loop removes exactly the required amounts.
proof fn lemma_withdraw_list_exact(res: Seq<int>, reqs: Seq<(Resource, u64)>, n: int)
    requires
        res.len() == RESOURCE_COUNT,
        forall|j: int| 0 <= j < res.len() ==> #[trigger] res[j] >= 0,
        recipe_ok(res, reqs),
        forall|i: int, j: int| 0 <= i < j < reqs.len() ==> (#[trigger] reqs[i]).0 != (
        #[trigger] reqs[j]).0,
        0 <= n <= reqs.len(),
    ensures
        withdraw_list(res, reqs, n).len() == res.len(),
        forall|k: int|
            0 <= k < RESOURCE_COUNT ==> #[trigger] withdraw_list(res, reqs, n)[k] == res[k]
                - reqs_amount(reqs, n, k),
    decreases n,
{
    if n > 0 {
        lemma_withdraw_list_exact(res, reqs, n - 1);
        let p = withdraw_list(res, reqs, n - 1);
        let idx = reqs[n - 1].0.idx_spec();
        assert(0 <= idx < RESOURCE_COUNT);
        assert forall|j: int| 0 <= j < n - 1 implies (#[trigger] reqs[j]).0.idx_spec() != idx by {
            if reqs[j].0.idx_spec() == idx {
                lemma_resource_idx_injective(reqs[j].0, reqs[n - 1].0);
            }
        }
        lemma_reqs_amount_absent(reqs, n - 1, idx);
        assert(p[idx] == res[idx]);
        assert(res[idx] > reqs[n - 1].1);
        assert(spec_min(reqs[n - 1].1 as int, p[idx]) == reqs[n - 1].1 as int);
        assert forall|k: int| 0 <= k < RESOURCE_COUNT implies #[trigger] withdraw_list(
            res,
            reqs,
            n,
        )[k] == res[k] - reqs_amount(reqs, n, k) by {}
    }
}

/// What the storage intake leaves behind: the tables keep their shape,
/// and each kind's global stock plus stored amount is conserved.
proof fn lemma_absorb_fold_props(
    res: Seq<int>,
    store: crate::component::StoreModel,
    n: int,
)
    requires
        store.wf(RESOURCE_COUNT as int),
        res.len() == RESOURCE_COUNT,
        forall|j: int| 0 <= j < res.len() ==> #[trigger] res[j] >= 0,
        0 <= n <= RESOURCE_COUNT,
    ensures
        absorb_fold(res, store, n).0.len() == RESOURCE_COUNT,
        absorb_fold(res, store, n).1.wf(RESOURCE_COUNT as int),
        absorb_fold(res, store, n).1.known == store.known,
        absorb_fold(res, store, n).1.cap == store.cap,
        forall|k: int|
            0 <= k < RESOURCE_COUNT ==> 0 <= #[trigger] absorb_fold(res, store, n).0[k] <= res[k],
        forall|k: int|
            0 <= k < RESOURCE_COUNT ==> #[trigger] absorb_fold(res, store, n).0[k] + absorb_fold(
                res,
                store,
                n,
            ).1.amt[k] == res[k] + store.amt[k],
    decreases n,
{
    if n > 0 {
        lemma_absorb_fold_props(res, store, n - 1);
    }
}

/// Replacing one entry shifts a storage total by exactly that entry's
/// change.
proof fn lemma_storage_total_update(
    s: RegistryModel,
    j: int,
    entry: (crate::game::Position, MapObjectModel),
    k: int,
    i: int,
)
    requires
        0 <= j < s.len(),
        0 <= i <= s.len(),
    ensures
        storage_total_from(s.update(j, entry), i, k) == storage_total_from(s, i, k) + (if i <= j {
            storage_amt(entry.1, k) - storage_amt(s[j].1, k)
        } else {
            0
        }),
    decreases s.len() - i,
{
    if i < s.len() {
        lemma_storage_total_update(s, j, entry, k, i + 1);
    }
}

/// A production step keeps the material tables shaped and non-negative,
/// and the object fit for further passes.
proof fn lemma_produce_step_ok(e: EnergyModel, m: MaterialModel, o: MapObjectModel)
    requires
        m.ok(),
        object_wf(o),
    ensures
        produce_step(e, m, o).1.ok(),
        object_wf(produce_step(e, m, o).2),
        produce_step(e, m, o).2.resource == o.resource,
    decreases 0int,
{
    match o.structure {
        Some(StructureModel::Storage { blueprint }) => {
            lemma_absorb_fold_props(
                m.res,
                resource_store_of(blueprint),
                RESOURCE_COUNT as int,
            );
        },
        Some(StructureModel::Factory { blueprint, .. }) => {
            match recipe_of(blueprint) {
                Some(recipe) => {
                    lemma_withdraw_list_bounds(
                        m.res,
                        recipe.resource_required,
                        recipe.resource_required.len() as int,
                    );
                },
                None => {},
            }
        },
        _ => {},
    }
}

/// The production pass never touches entries it has not reached, keeps
/// every coordinate, and keeps the tables shaped.
proof fn lemma_produce_fold_frame(e0: EnergyModel, m0: MaterialModel, s: RegistryModel, n: int)
    requires
        m0.ok(),
        registry_structures_wf(s),
        0 <= n <= s.len(),
    ensures
        produce_fold(e0, m0, s, n).1.ok(),
        produce_fold(e0, m0, s, n).2.len() == s.len(),
        registry_structures_wf(produce_fold(e0, m0, s, n).2),
        forall|j: int| n <= j < s.len() ==> (#[trigger] produce_fold(e0, m0, s, n).2[j]) == s[j],
        forall|j: int|
            0 <= j < s.len() ==> (#[trigger] produce_fold(e0, m0, s, n).2[j]).0 == s[j].0,
    decreases n,
{
    if n > 0 {
        lemma_produce_fold_frame(e0, m0, s, n - 1);
        let prev = produce_fold(e0, m0, s, n - 1);
        assert(prev.2[n - 1] == s[n - 1]);
        lemma_produce_step_ok(prev.0, prev.1, s[n - 1].1);
    }
}

/// One production step balances for each resource kind: new stock plus
/// new stored amount equals old stock plus old stored amount plus what
/// the step minted minus what it consumed.
proof fn lemma_produce_step_conservation(
    e: EnergyModel,
    m: MaterialModel,
    o: MapObjectModel,
    k: int,
)
    requires
        m.ok(),
        object_wf(o),
        0 <= k < RESOURCE_COUNT,
    ensures
        produce_step(e, m, o).1.res[k] + storage_amt(produce_step(e, m, o).2, k) == m.res[k]
            + storage_amt(o, k) + step_minted_res(e, o, k) - step_consumed_res(e, m, o, k),
    decreases 0int,
{
    match o.structure {
        Some(StructureModel::Storage { blueprint }) => {
            lemma_absorb_fold_props(
                m.res,
                resource_store_of(blueprint),
                RESOURCE_COUNT as int,
            );
        },
        Some(StructureModel::Factory { blueprint, .. }) => {
            match recipe_of(blueprint) {
                Some(recipe) => {
                    if em_has_energy(e, recipe.energy_required as int) && recipe_ok(
                        m.res,
                        recipe.resource_required,
                    ) {
                        lemma_withdraw_list_exact(
                            m.res,
                            recipe.resource_required,
                            recipe.resource_required.len() as int,
                        );
                    }
                },
                None => {},
            }
        },
        _ => {},
    }
}

/// One production step balances for each commodity kind.
proof fn lemma_produce_step_conservation_com(
    e: EnergyModel,
    m: MaterialModel,
    o: MapObjectModel,
    k: int,
)
    requires
        m.ok(),
        object_wf(o),
        0 <= k < COMMODITY_COUNT,
    ensures
        produce_step(e, m, o).1.com[k] == m.com[k] + step_minted_com(e, m, o, k),
    decreases 0int,
{
}

/// The production pass balances for each resource kind.
proof fn lemma_produce_fold_conservation(
    e0: EnergyModel,
    m0: MaterialModel,
    s: RegistryModel,
    n: int,
    k: int,
)
    requires
        m0.ok(),
        registry_structures_wf(s),
        0 <= n <= s.len(),
        0 <= k < RESOURCE_COUNT,
    ensures
        produce_fold(e0, m0, s, n).1.res[k] + storage_total_from(produce_fold(e0, m0, s, n).2, 0, k)
            == m0.res[k] + storage_total_from(s, 0, k) + minted_res_upto(e0, m0, s, n, k)
            - consumed_res_upto(e0, m0, s, n, k),
    decreases n,
{
    if n > 0 {
        lemma_produce_fold_conservation(e0, m0, s, n - 1, k);
        lemma_produce_fold_frame(e0, m0, s, n - 1);
        let prev = produce_fold(e0, m0, s, n - 1);
        assert(prev.2[n - 1] == s[n - 1]);
        lemma_produce_step_conservation(prev.0, prev.1, s[n - 1].1, k);
        let step = produce_step(prev.0, prev.1, s[n - 1].1);
        lemma_storage_total_update(prev.2, n - 1, (prev.2[n - 1].0, step.2), k, 0);
    }
}

/// The production pass balances for each commodity kind; nothing in the
/// engine consumes or stores commodities, so the stock grows by exactly
/// what the factories minted.
proof fn lemma_produce_fold_conservation_com(
    e0: EnergyModel,
    m0: MaterialModel,
    s: RegistryModel,
    n: int,
    k: int,
)
    requires
        m0.ok(),
        registry_structures_wf(s),
        0 <= n <= s.len(),
        0 <= k < COMMODITY_COUNT,
    ensures
        produce_fold(e0, m0, s, n).1.com[k] == m0.com[k] + minted_com_upto(e0, m0, s, n, k),
    decreases n,
{
    if n > 0 {
        lemma_produce_fold_conservation_com(e0, m0, s, n - 1, k);
        lemma_produce_fold_frame(e0, m0, s, n - 1);
        let prev = produce_fold(e0, m0, s, n - 1);
        assert(prev.2[n - 1] == s[n - 1]);
        lemma_produce_step_conservation_com(prev.0, prev.1, s[n - 1].1, k);
    }
}

/// The battery-charge pass moves no material: every storage total is
/// untouched.
proof fn lemma_charge_fold_storage(e: EnergyModel, s: RegistryModel, n: int, k: int)
    requires
        0 <= n <= s.len(),
    ensures
        charge_fold(e, s, n).1.len() == s.len(),
        forall|j: int| n <= j < s.len() ==> (#[trigger] charge_fold(e, s, n).1[j]) == s[j],
        storage_total_from(charge_fold(e, s, n).1, 0, k) == storage_total_from(s, 0, k),
    decreases n,
{
    if n > 0 {
        lemma_charge_fold_storage(e, s, n - 1, k);
        let prev = charge_fold(e, s, n - 1);
        let step = charge_step(prev.0, prev.1[n - 1].1);
        assert(storage_amt(step.1, k) == storage_amt(prev.1[n - 1].1, k));
        lemma_storage_total_update(prev.1, n - 1, (prev.1[n - 1].0, step.1), k, 0);
    }
}

/// The battery-discharge pass moves no material either.
proof fn lemma_discharge_fold_storage(e: EnergyModel, s: RegistryModel, n: int, k: int)
    requires
        0 <= n <= s.len(),
    ensures
        discharge_fold(e, s, n).1.len() == s.len(),
        forall|j: int| n <= j < s.len() ==> (#[trigger] discharge_fold(e, s, n).1[j]) == s[j],
        storage_total_from(discharge_fold(e, s, n).1, 0, k) == storage_total_from(s, 0, k),
    decreases n,
{
    if n > 0 {
        lemma_discharge_fold_storage(e, s, n - 1, k);
        let prev = discharge_fold(e, s, n - 1);
        let step = discharge_step(prev.0, prev.1[n - 1].1);
        assert(storage_amt(step.1, k) == storage_amt(prev.1[n - 1].1, k));
        lemma_storage_total_update(prev.1, n - 1, (prev.1[n - 1].0, step.1), k, 0);
    }
}

/// The energy pool a tick starts production with: the collected output
/// and reported reserves, everything else zero.
pub open spec fn collected_energy(s: RegistryModel) -> EnergyModel {
    EnergyModel {
        output: crate::managers::out_sum_from(s, 0),
        stored: crate::managers::stored_sum_from(s, 0),
        discharged: 0,
        deficit: 0,
    }
}

/// Law: conservation of materials.  For every resource kind, the stock
/// after a tick equals the stock before, plus what the tick's production
/// minted minus what it consumed, minus what the storage structures
/// absorbed.
pub proof fn lemma_tick_conservation_resources(m: MaterialModel, s: RegistryModel, k: int)
    requires
        m.ok(),
        registry_structures_wf(s),
        0 <= k < RESOURCE_COUNT,
    ensures
        tick_spec(m, s).1.res[k] == m.res[k] + (minted_res_upto(
            collected_energy(s),
            reset_deficits(m),
            s,
            s.len() as int,
            k,
        ) - consumed_res_upto(collected_energy(s), reset_deficits(m), s, s.len() as int, k)) - (
        storage_total_from(tick_spec(m, s).2, 0, k) - storage_total_from(s, 0, k)),
{
    let e0 = collected_energy(s);
    let m0 = reset_deficits(m);
    assert(m0.ok());
    lemma_produce_fold_conservation(e0, m0, s, s.len() as int, k);
    let produced = produce_fold(e0, m0, s, s.len() as int);
    lemma_produce_fold_frame(e0, m0, s, s.len() as int);
    let after_discharge = if produced.0.discharged > 0 {
        discharge_fold(produced.0, produced.2, s.len() as int)
    } else {
        (produced.0, produced.2)
    };
    if produced.0.discharged > 0 {
        lemma_discharge_fold_storage(produced.0, produced.2, s.len() as int, k);
    }
    if after_discharge.0.output > 0 {
        lemma_charge_fold_storage(after_discharge.0, after_discharge.1, s.len() as int, k);
    }
}

/// Law: conservation of commodities.  For every commodity kind, the
/// stock after a tick equals the stock before plus what the factories
/// minted; nothing in the engine consumes or stores commodities.
pub proof fn lemma_tick_conservation_commodities(m: MaterialModel, s: RegistryModel, k: int)
    requires
        m.ok(),
        registry_structures_wf(s),
        0 <= k < COMMODITY_COUNT,
    ensures
        tick_spec(m, s).1.com[k] == m.com[k] + minted_com_upto(
            collected_energy(s),
            reset_deficits(m),
            s,
            s.len() as int,
            k,
        ),
{
    let e0 = collected_energy(s);
    let m0 = reset_deficits(m);
    assert(m0.ok());
    lemma_produce_fold_conservation_com(e0, m0, s, s.len() as int, k);
}

/// Every bounded buffer a blueprint holds respects its capacity: the
/// battery, the resource store and the commodity store, whichever are
/// present.
pub open spec fn bp_stores_wf(bp: crate::structures::BlueprintModel) -> bool {
    &&& crate::structures::battery_of(bp).wf()
    &&& crate::structures::has_resource_store(bp) ==> resource_store_of(bp).wf(
        RESOURCE_COUNT as int,
    )
    &&& crate::structures::has_commodity_store(bp) ==> crate::structures::commodity_store_of(
        bp,
    ).wf(crate::kinds::COMMODITY_COUNT as int)
}

/// Whatever occupies a coordinate keeps its buffers within capacity.
pub open spec fn object_stores_wf(o: MapObjectModel) -> bool {
    match o.structure {
        None => true,
        Some(sm) => bp_stores_wf(crate::structures::bp_of(sm)),
    }
}

/// Every placed object keeps its buffers within capacity.
pub open spec fn registry_stores_wf(s: RegistryModel) -> bool {
    forall|i: int| 0 <= i < s.len() ==> object_stores_wf((#[trigger] s[i]).1)
}

proof fn lemma_produce_step_stores(e: EnergyModel, m: MaterialModel, o: MapObjectModel)
    requires
        m.ok(),
        object_wf(o),
        object_stores_wf(o),
    ensures
        object_stores_wf(produce_step(e, m, o).2),
    decreases 0int,
{
    match o.structure {
        Some(StructureModel::Storage { blueprint }) => {
            lemma_absorb_fold_props(
                m.res,
                resource_store_of(blueprint),
                RESOURCE_COUNT as int,
            );
        },
        _ => {},
    }
}

proof fn lemma_produce_fold_stores(e0: EnergyModel, m0: MaterialModel, s: RegistryModel, n: int)
    requires
        m0.ok(),
        registry_structures_wf(s),
        registry_stores_wf(s),
        0 <= n <= s.len(),
    ensures
        registry_stores_wf(produce_fold(e0, m0, s, n).2),
    decreases n,
{
    if n > 0 {
        lemma_produce_fold_stores(e0, m0, s, n - 1);
        lemma_produce_fold_frame(e0, m0, s, n - 1);
        let prev = produce_fold(e0, m0, s, n - 1);
        assert(prev.2[n - 1] == s[n - 1]);
        assert(object_stores_wf(s[n - 1].1));
        lemma_produce_step_stores(prev.0, prev.1, s[n - 1].1);
    }
}

proof fn lemma_charge_fold_stores(e: EnergyModel, s: RegistryModel, n: int)
    requires
        registry_structures_wf(s),
        registry_stores_wf(s),
        0 <= n <= s.len(),
    ensures
        registry_stores_wf(charge_fold(e, s, n).1),
        registry_structures_wf(charge_fold(e, s, n).1),
        charge_fold(e, s, n).1.len() == s.len(),
        forall|j: int| n <= j < s.len() ==> (#[trigger] charge_fold(e, s, n).1[j]) == s[j],
    decreases n,
{
    if n > 0 {
        lemma_charge_fold_stores(e, s, n - 1);
        let prev = charge_fold(e, s, n - 1);
        assert(prev.1[n - 1] == s[n - 1]);
        assert(object_stores_wf(s[n - 1].1));
        assert(object_wf(s[n - 1].1));
    }
}

proof fn lemma_discharge_fold_stores(e: EnergyModel, s: RegistryModel, n: int)
    requires
        registry_structures_wf(s),
        registry_stores_wf(s),
        0 <= n <= s.len(),
    ensures
        registry_stores_wf(discharge_fold(e, s, n).1),
        registry_structures_wf(discharge_fold(e, s, n).1),
        discharge_fold(e, s, n).1.len() == s.len(),
        forall|j: int| n <= j < s.len() ==> (#[trigger] discharge_fold(e, s, n).1[j]) == s[j],
    decreases n,
{
    if n > 0 {
        lemma_discharge_fold_stores(e, s, n - 1);
        let prev = discharge_fold(e, s, n - 1);
        assert(prev.1[n - 1] == s[n - 1]);
        assert(object_stores_wf(s[n - 1].1));
        assert(object_wf(s[n - 1].1));
    }
}

/// Law: the capacity invariant.  Every battery, resource store and
/// commodity store that respects its capacity before a tick still
/// respects it after; no deposit ever silently exceeds a bound.
pub proof fn lemma_tick_capacity_invariant(m: MaterialModel, s: RegistryModel)
    requires
        m.ok(),
        registry_structures_wf(s),
        registry_stores_wf(s),
    ensures
        registry_stores_wf(tick_spec(m, s).2),
{
    let e0 = collected_energy(s);
    let m0 = reset_deficits(m);
    assert(m0.ok());
    lemma_produce_fold_stores(e0, m0, s, s.len() as int);
    lemma_produce_fold_frame(e0, m0, s, s.len() as int);
    let produced = produce_fold(e0, m0, s, s.len() as int);
    let after_discharge = if produced.0.discharged > 0 {
        discharge_fold(produced.0, produced.2, s.len() as int)
    } else {
        (produced.0, produced.2)
    };
    if produced.0.discharged > 0 {
        lemma_discharge_fold_stores(produced.0, produced.2, produced.2.len() as int);
    }
    if after_discharge.0.output > 0 {
        lemma_charge_fold_stores(after_discharge.0, after_discharge.1, after_discharge.1.len() as int);
    }
}

/// Law: all-or-nothing recipes.  When a factory's recipe cannot go
/// through — the energy check or any strict resource check fails — no
/// resource is decremented, no commodity is produced, the pool is
/// untouched, and only the factory's commodity deficit grows by its
/// yield.
pub proof fn lemma_all_or_nothing(
    e: EnergyModel,
    m: MaterialModel,
    o: MapObjectModel,
    blueprint: crate::structures::BlueprintModel,
    commodity: crate::kinds::Commodity,
    recipe: crate::component::RecipeModel,
)
    requires
        m.ok(),
        o.structure == Some(StructureModel::Factory { blueprint, commodity }),
        recipe_of(blueprint) == Some(recipe),
        !(em_has_energy(e, recipe.energy_required as int) && recipe_ok(
            m.res,
            recipe.resource_required,
        )),
    ensures
        produce_step(e, m, o).0 == e,
        produce_step(e, m, o).2 == o,
        produce_step(e, m, o).1.res == m.res,
        produce_step(e, m, o).1.com == m.com,
        produce_step(e, m, o).1.res_def == m.res_def,
        produce_step(e, m, o).1.com_def == m.com_def.update(
            commodity.idx_spec(),
            m.com_def[commodity.idx_spec()] + recipe.commodity_out,
        ),
{
}

} // verus!
