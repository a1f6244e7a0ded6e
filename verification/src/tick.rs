//! The per-tick orchestration: one engine owning both ledgers, driving
//! the five ordered passes over the placed structures.
//!
//! A tick runs exactly once and in full: reset, energy collection,
//! production and consumption, battery discharge (only if reserves were
//! lent out), and battery charge (only if output is left over).

use vstd::prelude::*;

use crate::game::{ObjectManager, RegistryModel};
use crate::kinds::{Commodity, Resource, COMMODITY_COUNT, RESOURCE_COUNT};
use crate::managers::{
    charge_fold, com_inflow_from, discharge_fold, mine_req_from, out_sum_from, produce_fold,
    registry_structures_wf, reset_deficits, stored_sum_from, EnergyManager, EnergyModel,
    MaterialModel, ResourceManager,
};

verus! {

/// Mathematical model of the engine: the two ledgers it owns.
#[verifier::ext_equal]
pub struct TickModel {
    pub energy: EnergyModel,
    pub materials: MaterialModel,
}

/// The whole tick as a function of the material stocks and the placed
/// structures: the resulting energy pool, material account, and
/// structure set.  The prior energy pool and both deficit tables are
/// reset before anything runs, so they cannot influence the result.
pub open spec fn tick_spec(m: MaterialModel, s: RegistryModel) -> (
    EnergyModel,
    MaterialModel,
    RegistryModel,
) {
    let collected = EnergyModel {
        output: out_sum_from(s, 0),
        stored: stored_sum_from(s, 0),
        discharged: 0,
        deficit: 0,
    };
    let produced = produce_fold(collected, reset_deficits(m), s, s.len() as int);
    let discharged = if produced.0.discharged > 0 {
        discharge_fold(produced.0, produced.2, s.len() as int)
    } else {
        (produced.0, produced.2)
    };
    let charged = if discharged.0.output > 0 {
        charge_fold(discharged.0, discharged.1, s.len() as int)
    } else {
        (discharged.0, discharged.1)
    };
    (charged.0, produced.1, charged.1)
}

/// The engine owning both ledgers for the duration of each tick.
pub struct TickEngine {
    energy: EnergyManager,
    resources: ResourceManager,
}

impl View for TickEngine {
    type V = TickModel;

    closed spec fn view(&self) -> TickModel {
        TickModel { energy: self.energy@, materials: self.resources@ }
    }
}

impl TickEngine {
    /// A fresh engine with both ledgers zeroed.
    pub fn new() -> (t: TickEngine)
        ensures
            t@.energy == (EnergyModel { output: 0, stored: 0, discharged: 0, deficit: 0 }),
            t@.materials.wf(),
            forall|k: int| 0 <= k < RESOURCE_COUNT ==> #[trigger] t@.materials.res[k] == 0,
            forall|k: int| 0 <= k < RESOURCE_COUNT ==> #[trigger] t@.materials.res_def[k] == 0,
            forall|k: int| 0 <= k < COMMODITY_COUNT ==> #[trigger] t@.materials.com[k] == 0,
            forall|k: int| 0 <= k < COMMODITY_COUNT ==> #[trigger] t@.materials.com_def[k] == 0,
    {
        TickEngine {
            energy: EnergyManager::new(),
            resources: ResourceManager::new(Resource::all(), Commodity::all()),
        }
    }

    /// The energy ledger, for display after a tick.
    pub fn energy(&self) -> (e: &EnergyManager)
        ensures
            e@ == self@.energy,
    {
        &self.energy
    }

    /// The material ledger, for display after a tick.
    pub fn resources(&self) -> (r: &ResourceManager)
        ensures
            r@ == self@.materials,
    {
        &self.resources
    }

    /// Mutable access to the material ledger, for seeding stocks between
    /// ticks.
    pub fn resources_mut(&mut self) -> (r: &mut ResourceManager)
        ensures
            (*r)@ == old(self)@.materials,
            final(self)@ == (TickModel { materials: final(r)@, ..old(self)@ }),
    {
        &mut self.resources
    }

    /// Run one full tick over the placed structures, in placement order:
    /// reset both ledgers' per-tick counters, collect energy, run
    /// production and consumption, then reconcile batteries — discharge
    /// only if reserves were lent out, charge only if output is left.
    pub fn run(&mut self, objects: &mut ObjectManager)
        requires
            old(self)@.materials.wf(),
            registry_structures_wf(old(objects)@),
            out_sum_from(old(objects)@, 0) + stored_sum_from(old(objects)@, 0) <= u64::MAX,
            mine_req_from(old(objects)@, 0) <= u64::MAX,
            forall|k: int|
                0 <= k < RESOURCE_COUNT ==> old(self)@.materials.res[k] + crate::managers::res_inflow_from(
                    old(objects)@,
                    0,
                    k,
                ) <= u64::MAX,
            forall|k: int|
                0 <= k < COMMODITY_COUNT ==> old(self)@.materials.com[k] + com_inflow_from(
                    old(objects)@,
                    0,
                    k,
                ) <= u64::MAX,
        ensures
            final(self)@.energy == tick_spec(old(self)@.materials, old(objects)@).0,
            final(self)@.materials == tick_spec(old(self)@.materials, old(objects)@).1,
            final(objects)@ == tick_spec(old(self)@.materials, old(objects)@).2,
            final(self)@.materials.wf(),
            registry_structures_wf(final(objects)@),
            final(objects)@.len() == old(objects)@.len(),
            forall|k: int|
                0 <= k < old(objects)@.len() ==> (#[trigger] final(objects)@[k]).0 == (old(
                    objects,
                )@[k]).0,
    {
        proof {
            crate::managers::lemma_out_sum_nonneg(objects@, 0);
            crate::managers::lemma_stored_sum_nonneg(objects@, 0);
        }
        self.energy.zero();
        self.energy.collect(objects);
        self.resources.collect(objects, &mut self.energy);
        if self.energy.discharged() > 0 {
            self.energy.discharge(objects);
        }
        if self.energy.output() > 0 {
            self.energy.charge(objects);
        }
    }
}

/// Law: deficits are per-tick counters.  Two material accounts with the
/// same stocks — whatever their deficit tables hold, and whatever the
/// prior energy pool held — give identical results for a tick over the
/// same structures.
pub proof fn lemma_deficit_reset(m1: MaterialModel, m2: MaterialModel, s: RegistryModel)
    requires
        m1.res == m2.res,
        m1.com == m2.com,
    ensures
        tick_spec(m1, s) == tick_spec(m2, s),
{
    assert(reset_deficits(m1) =~~= reset_deficits(m2));
}

} // verus!
