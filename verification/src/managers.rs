//! The two global ledgers the tick engine drives: the pooled energy
//! account and the per-kind material account.
//!
//! The energy ledger follows a strict per-tick cycle: reset, accumulate
//! output and battery reserves, drain output before reserves, then
//! reconcile batteries.  The material ledger keeps one stock and one
//! per-tick deficit counter per resource and per commodity kind.

use vstd::prelude::*;

use crate::component::{BatteryComponent, ComponentGroup, ComponentModel, ComponentName};
use crate::game::{MapObject, MapObjectModel, ObjectManager, RegistryModel};
use crate::kinds::{Commodity, Resource, COMMODITY_COUNT, RESOURCE_COUNT};
use crate::structures::{
    battery_of, energy_of, has_battery, has_resource_store, mine_output_of, recipe_of,
    resource_store_of, BatteryTrait, EnergyTrait, MineOutputTrait, ResourceStorageTrait, Structure,
    StructureModel,
};

verus! {

/// Mathematical model of the pooled energy account.  Fields are exact
/// integers; the executable ledger holds them as `u64`.
pub struct EnergyModel {
    pub output: int,
    pub stored: int,
    pub discharged: int,
    pub deficit: int,
}

/// Smaller of the two.
pub open spec fn spec_min(a: int, b: int) -> int {
    if a <= b {
        a
    } else {
        b
    }
}

/// Whether the pool can cover `amount`.
pub open spec fn em_has_energy(e: EnergyModel, amount: int) -> bool {
    e.output >= amount || e.output + e.stored >= amount
}

/// What a withdrawal actually obtains: output first, then reserves.
pub open spec fn em_withdraw_got(e: EnergyModel, amount: int) -> int {
    let from_out = spec_min(amount, e.output);
    from_out + spec_min(amount - from_out, e.stored)
}

/// The pool after a withdrawal: output drains first; whatever comes out
/// of the reserves is added to `discharged`.
pub open spec fn em_withdraw(e: EnergyModel, amount: int) -> EnergyModel {
    let from_out = spec_min(amount, e.output);
    let from_stored = spec_min(amount - from_out, e.stored);
    EnergyModel {
        output: e.output - from_out,
        stored: e.stored - from_stored,
        discharged: e.discharged + from_stored,
        deficit: e.deficit,
    }
}

/// The process-wide pooled energy account.
pub struct EnergyManager {
    output: u64,
    stored: u64,
    discharged: u64,
    deficit: u64,
}

impl View for EnergyManager {
    type V = EnergyModel;

    closed spec fn view(&self) -> EnergyModel {
        EnergyModel {
            output: self.output as int,
            stored: self.stored as int,
            discharged: self.discharged as int,
            deficit: self.deficit as int,
        }
    }
}

impl EnergyManager {
    pub fn new() -> (m: EnergyManager)
        ensures
            m@ == (EnergyModel { output: 0, stored: 0, discharged: 0, deficit: 0 }),
    {
        let output: u64 = 0;
        let stored: u64 = 0;
        let discharged: u64 = 0;
        let deficit: u64 = 0;

        EnergyManager { output, stored, discharged, deficit }
    }

    /// Output accumulated this tick and not yet consumed.
    pub fn output(&self) -> (r: u64)
        ensures
            r == self@.output,
    {
        self.output
    }

    /// Battery reserves the pool counts as spendable this tick.
    pub fn stored(&self) -> (r: u64)
        ensures
            r == self@.stored,
    {
        self.stored
    }

    /// How much was drawn out of reserves and still has to be debited
    /// from real batteries.
    pub fn discharged(&self) -> (r: u64)
        ensures
            r == self@.discharged,
    {
        self.discharged
    }

    /// Demand that could not be met this tick.
    pub fn deficit(&self) -> (r: u64)
        ensures
            r == self@.deficit,
    {
        self.deficit
    }

    /// Output plus reserves.
    pub fn combined(&self) -> (r: u64)
        requires
            self@.output + self@.stored <= u64::MAX,
        ensures
            r == self@.output + self@.stored,
    {
        self.output + self.stored
    }

    /// Reset every counter; the first step of each tick.
    pub fn zero(&mut self)
        ensures
            final(self)@ == (EnergyModel { output: 0, stored: 0, discharged: 0, deficit: 0 }),
    {
        self.output = 0;
        self.stored = 0;
        self.discharged = 0;
        self.deficit = 0;
    }

    /// Availability check: call before `withdraw` to avoid partially
    /// consuming the pool for a demand that cannot be met.
    pub fn has_energy(&self, amount: u64) -> (r: bool)
        requires
            self@.output + self@.stored <= u64::MAX,
        ensures
            r == em_has_energy(self@, amount as int),
    {
        self.output() >= amount || self.combined() >= amount
    }

    /// Drain up to `amount` from output alone.
    pub fn withdraw_output(&mut self, amount: u64) -> (got: u64)
        ensures
            got == spec_min(amount as int, old(self)@.output),
            final(self)@ == (EnergyModel {
                output: old(self)@.output - got,
                ..old(self)@
            }),
    {
        if self.output == 0 || amount == 0 {
            return 0;
        }

        let available = self.output;
        if available < amount {
            self.output = 0;
            return available;
        }

        self.output = self.output - amount;
        amount
    }

    /// Drain up to `amount` from reserves alone, recording the drained
    /// amount as owed by real batteries.
    pub fn withdraw_stored(&mut self, amount: u64) -> (got: u64)
        requires
            old(self)@.discharged + old(self)@.stored <= u64::MAX,
        ensures
            got == spec_min(amount as int, old(self)@.stored),
            final(self)@ == (EnergyModel {
                stored: old(self)@.stored - got,
                discharged: old(self)@.discharged + got,
                ..old(self)@
            }),
    {
        if self.stored == 0 || amount == 0 {
            return 0;
        }

        if self.stored < amount {
            let available = self.stored;
            self.stored = 0;
            self.discharged = self.discharged + available;
            return available;
        }

        self.stored = self.stored - amount;
        self.discharged = self.discharged + amount;
        amount
    }

    /// Settle up to `amount` of the battery debt.
    pub fn withdraw_discharge(&mut self, amount: u64) -> (got: u64)
        ensures
            got == spec_min(amount as int, old(self)@.discharged),
            final(self)@ == (EnergyModel {
                discharged: old(self)@.discharged - got,
                ..old(self)@
            }),
    {
        if self.discharged == 0 || amount == 0 {
            return 0;
        }

        let discharged = self.discharged;
        if discharged < amount {
            self.discharged = 0;
            return discharged;
        }

        self.discharged = self.discharged - amount;
        amount
    }

    /// Record demand that went unmet this tick.
    pub fn add_deficit(&mut self, amount: u64)
        requires
            old(self)@.deficit + amount <= u64::MAX,
        ensures
            final(self)@ == (EnergyModel {
                deficit: old(self)@.deficit + amount,
                ..old(self)@
            }),
    {
        self.deficit = self.deficit + amount;
    }

    /// Ordered withdrawal: output drains before reserves; whatever comes
    /// out of reserves is recorded in `discharged`.  Returns the total
    /// actually obtained, which may fall short of `amount`; the caller
    /// treats a partial return as unmet demand.  If output alone covers
    /// the demand, the reserves are untouched.
    pub fn withdraw(&mut self, amount: u64) -> (got: u64)
        requires
            old(self)@.discharged + old(self)@.stored <= u64::MAX,
        ensures
            got == em_withdraw_got(old(self)@, amount as int),
            final(self)@ == em_withdraw(old(self)@, amount as int),
            old(self)@.output >= amount ==> final(self)@.stored == old(self)@.stored,
            final(self)@.deficit == old(self)@.deficit,
    {
        let available_output = self.withdraw_output(amount);
        if available_output >= amount {
            return amount;
        }

        let available_stored = self.withdraw_stored(amount - available_output);
        let available = available_output + available_stored;

        if available >= amount {
            return amount;
        }

        available
    }
}

/// Mathematical model of the material account: one stock and one
/// per-tick deficit per resource kind and per commodity kind, as exact
/// integers.
#[verifier::ext_equal]
pub struct MaterialModel {
    pub res: Seq<int>,
    pub res_def: Seq<int>,
    pub com: Seq<int>,
    pub com_def: Seq<int>,
}

impl MaterialModel {
    /// The tables cover every kind and hold nothing negative; no bound
    /// above, for reasoning about the passes as pure functions.
    pub open spec fn ok(self) -> bool {
        &&& self.res.len() == RESOURCE_COUNT
        &&& self.res_def.len() == RESOURCE_COUNT
        &&& self.com.len() == COMMODITY_COUNT
        &&& self.com_def.len() == COMMODITY_COUNT
        &&& forall|i: int| 0 <= i < RESOURCE_COUNT ==> 0 <= #[trigger] self.res[i]
        &&& forall|i: int| 0 <= i < COMMODITY_COUNT ==> 0 <= #[trigger] self.com[i]
    }

    /// The tables cover every kind and hold nothing negative.
    pub open spec fn wf(self) -> bool {
        &&& self.res.len() == RESOURCE_COUNT
        &&& self.res_def.len() == RESOURCE_COUNT
        &&& self.com.len() == COMMODITY_COUNT
        &&& self.com_def.len() == COMMODITY_COUNT
        &&& forall|i: int| 0 <= i < RESOURCE_COUNT ==> 0 <= #[trigger] self.res[i] <= u64::MAX
        &&& forall|i: int| 0 <= i < RESOURCE_COUNT ==> 0 <= #[trigger] self.res_def[i] <= u64::MAX
        &&& forall|i: int| 0 <= i < COMMODITY_COUNT ==> 0 <= #[trigger] self.com[i] <= u64::MAX
        &&& forall|i: int| 0 <= i < COMMODITY_COUNT ==> 0 <= #[trigger] self.com_def[i] <= u64::MAX
    }
}

/// The model with both deficit tables zeroed and the stocks kept.
pub open spec fn reset_deficits(m: MaterialModel) -> MaterialModel {
    MaterialModel {
        res: m.res,
        res_def: Seq::new(RESOURCE_COUNT as nat, |i: int| 0),
        com: m.com,
        com_def: Seq::new(COMMODITY_COUNT as nat, |i: int| 0),
    }
}

/// The process-wide material account.
pub struct ResourceManager {
    resources: Vec<u64>,
    resources_deficit: Vec<u64>,
    commodities: Vec<u64>,
    commodities_deficit: Vec<u64>,
}

impl View for ResourceManager {
    type V = MaterialModel;

    closed spec fn view(&self) -> MaterialModel {
        MaterialModel {
            res: self.resources@.map_values(|x: u64| x as int),
            res_def: self.resources_deficit@.map_values(|x: u64| x as int),
            com: self.commodities@.map_values(|x: u64| x as int),
            com_def: self.commodities_deficit@.map_values(|x: u64| x as int),
        }
    }
}

impl ResourceManager {
    /// A fresh account: a zeroed stock and deficit for every resource
    /// and commodity kind.  The account covers all kinds; the argument
    /// lists are the kinds the caller intends to use.
    #[allow(unused_variables)]
    pub fn new(resource_types: Vec<Resource>, commodity_types: Vec<Commodity>) -> (m:
        ResourceManager)
        ensures
            m@.wf(),
            forall|i: int| 0 <= i < RESOURCE_COUNT ==> #[trigger] m@.res[i] == 0,
            forall|i: int| 0 <= i < RESOURCE_COUNT ==> #[trigger] m@.res_def[i] == 0,
            forall|i: int| 0 <= i < COMMODITY_COUNT ==> #[trigger] m@.com[i] == 0,
            forall|i: int| 0 <= i < COMMODITY_COUNT ==> #[trigger] m@.com_def[i] == 0,
    {
        let mut resources: Vec<u64> = Vec::new();
        let mut resources_deficit: Vec<u64> = Vec::new();
        let mut i: usize = 0;
        while i < RESOURCE_COUNT
            invariant
                i <= RESOURCE_COUNT,
                resources@.len() == i,
                resources_deficit@.len() == i,
                forall|k: int| 0 <= k < i ==> (#[trigger] resources@[k]) == 0,
                forall|k: int| 0 <= k < i ==> (#[trigger] resources_deficit@[k]) == 0,
            decreases RESOURCE_COUNT - i,
        {
            resources.push(0);
            resources_deficit.push(0);
            i = i + 1;
        }

        let mut commodities: Vec<u64> = Vec::new();
        let mut commodities_deficit: Vec<u64> = Vec::new();
        let mut j: usize = 0;
        while j < COMMODITY_COUNT
            invariant
                j <= COMMODITY_COUNT,
                commodities@.len() == j,
                commodities_deficit@.len() == j,
                forall|k: int| 0 <= k < j ==> (#[trigger] commodities@[k]) == 0,
                forall|k: int| 0 <= k < j ==> (#[trigger] commodities_deficit@[k]) == 0,
            decreases COMMODITY_COUNT - j,
        {
            commodities.push(0);
            commodities_deficit.push(0);
            j = j + 1;
        }

        ResourceManager { resources, resources_deficit, commodities, commodities_deficit }
    }

    /// Every resource kind the account covers, in table order.
    pub fn resource_types(&self) -> (v: Vec<Resource>)
        ensures
            v@.len() == RESOURCE_COUNT,
            forall|i: int| 0 <= i < RESOURCE_COUNT ==> #[trigger] v@[i].idx_spec() == i,
            forall|r: Resource| #[trigger] v@.contains(r),
    {
        Resource::all()
    }

    /// The stock table, indexed by resource kind.
    pub fn resources(&self) -> (v: &Vec<u64>)
        ensures
            v@.map_values(|x: u64| x as int) == self@.res,
    {
        &self.resources
    }

    /// Mutable access to the stock table, indexed by resource kind.
    pub fn resources_mut(&mut self) -> (v: &mut Vec<u64>)
        ensures
            (*v)@.map_values(|x: u64| x as int) == old(self)@.res,
            final(self)@ =~= (MaterialModel {
                res: final(v)@.map_values(|x: u64| x as int),
                ..old(self)@
            }),
    {
        &mut self.resources
    }

    /// Strict availability check: true only when the stock strictly
    /// exceeds `amount`.
    pub fn has_resource(&self, resource_type: &Resource, amount: u64) -> (r: bool)
        requires
            self@.wf(),
        ensures
            r == (self@.res[resource_type.idx_spec()] > amount),
    {
        let available = self.resources[resource_type.idx()];
        available > amount
    }

    /// Unconditionally add to the stock; returns the new stock.
    pub fn deposit_resource(&mut self, resource_type: &Resource, amount: u64) -> (stock: u64)
        requires
            old(self)@.wf(),
            old(self)@.res[resource_type.idx_spec()] + amount <= u64::MAX,
        ensures
            stock == old(self)@.res[resource_type.idx_spec()] + amount,
            final(self)@ =~= (MaterialModel {
                res: old(self)@.res.update(resource_type.idx_spec(), stock as int),
                ..old(self)@
            }),
    {
        let idx = resource_type.idx();
        let updated = self.resources[idx] + amount;
        self.resources[idx] = updated;
        updated
    }

    /// Remove up to `amount` from the stock, clamped to what is there;
    /// returns the amount actually removed.  Never drives stock
    /// negative.
    pub fn withdraw_resource(&mut self, resource_type: &Resource, amount: u64) -> (got: u64)
        requires
            old(self)@.wf(),
        ensures
            got == spec_min(amount as int, old(self)@.res[resource_type.idx_spec()]),
            final(self)@ =~= (MaterialModel {
                res: old(self)@.res.update(
                    resource_type.idx_spec(),
                    old(self)@.res[resource_type.idx_spec()] - got,
                ),
                ..old(self)@
            }),
    {
        let idx = resource_type.idx();
        let stored = self.resources[idx];

        if amount > stored {
            self.resources[idx] = 0;
            return stored;
        }

        self.resources[idx] = stored - amount;
        amount
    }

    /// Record resource demand that went unmet this tick.
    pub fn add_resource_deficit(&mut self, resource_type: &Resource, amount: u64)
        requires
            old(self)@.wf(),
            old(self)@.res_def[resource_type.idx_spec()] + amount <= u64::MAX,
        ensures
            final(self)@ =~= (MaterialModel {
                res_def: old(self)@.res_def.update(
                    resource_type.idx_spec(),
                    old(self)@.res_def[resource_type.idx_spec()] + amount,
                ),
                ..old(self)@
            }),
    {
        let idx = resource_type.idx();
        let updated = self.resources_deficit[idx] + amount;
        self.resources_deficit[idx] = updated;
    }

    pub fn get_resource_deficit(&self, resource_type: &Resource) -> (d: u64)
        requires
            self@.wf(),
        ensures
            d == self@.res_def[resource_type.idx_spec()],
    {
        self.resources_deficit[resource_type.idx()]
    }

    /// Every commodity kind the account covers, in table order.
    pub fn commodity_types(&self) -> (v: Vec<Commodity>)
        ensures
            v@.len() == COMMODITY_COUNT,
            forall|i: int| 0 <= i < COMMODITY_COUNT ==> #[trigger] v@[i].idx_spec() == i,
            forall|c: Commodity| #[trigger] v@.contains(c),
    {
        Commodity::all()
    }

    /// The commodity stock table, indexed by commodity kind.
    pub fn commodities(&self) -> (v: &Vec<u64>)
        ensures
            v@.map_values(|x: u64| x as int) == self@.com,
    {
        &self.commodities
    }

    /// Mutable access to the commodity stock table.
    pub fn commodities_mut(&mut self) -> (v: &mut Vec<u64>)
        ensures
            (*v)@.map_values(|x: u64| x as int) == old(self)@.com,
            final(self)@ =~= (MaterialModel {
                com: final(v)@.map_values(|x: u64| x as int),
                ..old(self)@
            }),
    {
        &mut self.commodities
    }

    /// Unconditionally add to the commodity stock; returns the new
    /// stock.
    pub fn deposit_commodity(&mut self, commodity_type: &Commodity, value: u64) -> (stock: u64)
        requires
            old(self)@.wf(),
            old(self)@.com[commodity_type.idx_spec()] + value <= u64::MAX,
        ensures
            stock == old(self)@.com[commodity_type.idx_spec()] + value,
            final(self)@ =~= (MaterialModel {
                com: old(self)@.com.update(commodity_type.idx_spec(), stock as int),
                ..old(self)@
            }),
    {
        let idx = commodity_type.idx();
        let updated = self.commodities[idx] + value;
        self.commodities[idx] = updated;
        updated
    }

    /// Remove up to `amount` from the commodity stock, clamped to what
    /// is there; returns the amount actually removed.
    pub fn withdraw_commodity(&mut self, commodity_type: &Commodity, amount: u64) -> (got: u64)
        requires
            old(self)@.wf(),
        ensures
            got == spec_min(amount as int, old(self)@.com[commodity_type.idx_spec()]),
            final(self)@ =~= (MaterialModel {
                com: old(self)@.com.update(
                    commodity_type.idx_spec(),
                    old(self)@.com[commodity_type.idx_spec()] - got,
                ),
                ..old(self)@
            }),
    {
        let idx = commodity_type.idx();
        let stored = self.commodities[idx];

        if amount > stored {
            self.commodities[idx] = 0;
            return stored;
        }

        self.commodities[idx] = stored - amount;
        amount
    }

    /// Record commodity demand that went unmet this tick.
    pub fn add_commodity_deficit(&mut self, commodity_type: &Commodity, amount: u64)
        requires
            old(self)@.wf(),
            old(self)@.com_def[commodity_type.idx_spec()] + amount <= u64::MAX,
        ensures
            final(self)@ =~= (MaterialModel {
                com_def: old(self)@.com_def.update(
                    commodity_type.idx_spec(),
                    old(self)@.com_def[commodity_type.idx_spec()] + amount,
                ),
                ..old(self)@
            }),
    {
        let idx = commodity_type.idx();
        let updated = self.commodities_deficit[idx] + amount;
        self.commodities_deficit[idx] = updated;
    }

    pub fn get_commodity_deficit(&self, commodity_type: &Commodity) -> (d: u64)
        requires
            self@.wf(),
        ensures
            d == self@.com_def[commodity_type.idx_spec()],
    {
        self.commodities_deficit[commodity_type.idx()]
    }

    /// Zero both deficit tables; deficits never carry across ticks.
    pub fn zero_deficit(&mut self)
        requires
            old(self)@.wf(),
        ensures
            final(self)@ =~= reset_deficits(old(self)@),
    {
        let mut i: usize = 0;
        while i < RESOURCE_COUNT
            invariant
                i <= RESOURCE_COUNT,
                self.resources_deficit@.len() == RESOURCE_COUNT,
                forall|k: int| 0 <= k < i ==> (#[trigger] self.resources_deficit@[k]) == 0,
                self.resources@ == old(self).resources@,
                self.commodities@ == old(self).commodities@,
                self.commodities_deficit@ == old(self).commodities_deficit@,
            decreases RESOURCE_COUNT - i,
        {
            self.resources_deficit[i] = 0;
            i = i + 1;
        }
        let mut j: usize = 0;
        while j < COMMODITY_COUNT
            invariant
                j <= COMMODITY_COUNT,
                self.commodities_deficit@.len() == COMMODITY_COUNT,
                self.resources_deficit@.len() == RESOURCE_COUNT,
                forall|k: int| 0 <= k < RESOURCE_COUNT ==> (#[trigger] self.resources_deficit@[k])
                    == 0,
                forall|k: int| 0 <= k < j ==> (#[trigger] self.commodities_deficit@[k]) == 0,
                self.resources@ == old(self).resources@,
                self.commodities@ == old(self).commodities@,
            decreases COMMODITY_COUNT - j,
        {
            self.commodities_deficit[j] = 0;
            j = j + 1;
        }
    }
}

/// What the tick passes demand of one structure: the components its
/// behaviour reads are present and well formed.
pub open spec fn structure_wf(sm: StructureModel) -> bool {
    match sm {
        StructureModel::Base { blueprint } => blueprint.contains_key(ComponentName::EnergyComponent)
            && has_battery(blueprint) && battery_of(blueprint).wf(),
        StructureModel::PowerPlant { blueprint } => blueprint.contains_key(
            ComponentName::EnergyComponent,
        ),
        StructureModel::Mine { blueprint, .. } => blueprint.contains_key(
            ComponentName::EnergyComponent,
        ) && blueprint.contains_key(ComponentName::MineOutputComponent),
        StructureModel::Storage { blueprint } => has_resource_store(blueprint)
            && resource_store_of(blueprint).wf(RESOURCE_COUNT as int),
        StructureModel::Factory { blueprint, .. } => blueprint.contains_key(
            ComponentName::FactoryOutputComponent,
        ) && (recipe_of(blueprint) matches Some(r) ==> r.wf()),
        StructureModel::Refinery { .. } => true,
    }
}

/// Whatever occupies a coordinate is fit for the tick passes.
pub open spec fn object_wf(o: MapObjectModel) -> bool {
    match o.structure {
        None => true,
        Some(sm) => structure_wf(sm),
    }
}

/// Every placed object is fit for the tick passes.
pub open spec fn registry_structures_wf(s: RegistryModel) -> bool {
    forall|i: int| 0 <= i < s.len() ==> object_wf((#[trigger] s[i]).1)
}

/// The object with its structure replaced.
pub open spec fn with_structure(o: MapObjectModel, sm: StructureModel) -> MapObjectModel {
    MapObjectModel { structure: Some(sm), ..o }
}

/// Energy an object feeds into the pool during collection.
pub open spec fn out_contrib(o: MapObjectModel) -> int {
    match o.structure {
        Some(StructureModel::Base { blueprint }) => energy_of(blueprint).energy_out as int,
        Some(StructureModel::PowerPlant { blueprint }) => energy_of(blueprint).energy_out as int,
        _ => 0,
    }
}

/// Battery reserve an object reports during collection.
pub open spec fn stored_contrib(o: MapObjectModel) -> int {
    match o.structure {
        Some(StructureModel::Base { blueprint }) => battery_of(blueprint).stored as int,
        _ => 0,
    }
}

/// Total output contribution of the entries from `i` on.
pub open spec fn out_sum_from(s: RegistryModel, i: int) -> int
    decreases s.len() - i,
{
    if i < 0 || i >= s.len() {
        0
    } else {
        out_contrib(s[i].1) + out_sum_from(s, i + 1)
    }
}

/// Total reserve contribution of the entries from `i` on.
pub open spec fn stored_sum_from(s: RegistryModel, i: int) -> int
    decreases s.len() - i,
{
    if i < 0 || i >= s.len() {
        0
    } else {
        stored_contrib(s[i].1) + stored_sum_from(s, i + 1)
    }
}

pub proof fn lemma_out_sum_nonneg(s: RegistryModel, i: int)
    ensures
        out_sum_from(s, i) >= 0,
    decreases s.len() - i,
{
    if 0 <= i < s.len() {
        lemma_out_sum_nonneg(s, i + 1);
    }
}

pub proof fn lemma_stored_sum_nonneg(s: RegistryModel, i: int)
    ensures
        stored_sum_from(s, i) >= 0,
    decreases s.len() - i,
{
    if 0 <= i < s.len() {
        lemma_stored_sum_nonneg(s, i + 1);
    }
}

/// What the battery-charge pass does to the pool and one object: leftover
/// output moves into a base's free battery capacity.
pub open spec fn charge_step(e: EnergyModel, o: MapObjectModel) -> (EnergyModel, MapObjectModel) {
    match o.structure {
        Some(StructureModel::Base { blueprint }) => {
            let b = battery_of(blueprint);
            let free = b.capacity - b.stored;
            if free > 0 && e.output > 0 {
                let from_out = spec_min(free, e.output);
                let charged = BatteryComponent {
                    capacity: b.capacity,
                    stored: (b.stored + from_out) as u64,
                };
                (
                    EnergyModel { output: e.output - from_out, ..e },
                    with_structure(
                        o,
                        StructureModel::Base {
                            blueprint: blueprint.insert(
                                ComponentName::BatteryComponent,
                                ComponentModel::Battery { component: charged },
                            ),
                        },
                    ),
                )
            } else {
                (e, o)
            }
        },
        _ => (e, o),
    }
}

/// The charge pass over the first `n` entries.
pub open spec fn charge_fold(e: EnergyModel, s: RegistryModel, n: int) -> (EnergyModel,
    RegistryModel)
    decreases n,
{
    if n <= 0 {
        (e, s)
    } else {
        let prev = charge_fold(e, s, n - 1);
        let step = charge_step(prev.0, prev.1[n - 1].1);
        (step.0, prev.1.update(n - 1, (prev.1[n - 1].0, step.1)))
    }
}

/// What the battery-discharge pass does to the pool and one object: the
/// pool's battery debt is debited from a base's real battery.
pub open spec fn discharge_step(e: EnergyModel, o: MapObjectModel) -> (EnergyModel,
    MapObjectModel) {
    match o.structure {
        Some(StructureModel::Base { blueprint }) => {
            let b = battery_of(blueprint);
            if b.stored > 0 && e.discharged > 0 {
                let got = spec_min(e.discharged, b.stored as int);
                let drained = BatteryComponent {
                    capacity: b.capacity,
                    stored: (b.stored - got) as u64,
                };
                (
                    EnergyModel { discharged: e.discharged - got, ..e },
                    with_structure(
                        o,
                        StructureModel::Base {
                            blueprint: blueprint.insert(
                                ComponentName::BatteryComponent,
                                ComponentModel::Battery { component: drained },
                            ),
                        },
                    ),
                )
            } else {
                (e, o)
            }
        },
        _ => (e, o),
    }
}

/// The discharge pass over the first `n` entries.
pub open spec fn discharge_fold(e: EnergyModel, s: RegistryModel, n: int) -> (EnergyModel,
    RegistryModel)
    decreases n,
{
    if n <= 0 {
        (e, s)
    } else {
        let prev = discharge_fold(e, s, n - 1);
        let step = discharge_step(prev.0, prev.1[n - 1].1);
        (step.0, prev.1.update(n - 1, (prev.1[n - 1].0, step.1)))
    }
}

impl EnergyManager {
    /// Energy collection: every base and power plant adds its output to
    /// the pool, and every base additionally reports its current battery
    /// reserve as spendable capacity for the tick.  The batteries
    /// themselves are not touched here; real removal happens in the
    /// discharge pass.
    pub fn collect(&mut self, objects: &ObjectManager)
        requires
            registry_structures_wf(objects@),
            old(self)@.output + out_sum_from(objects@, 0) <= u64::MAX,
            old(self)@.stored + stored_sum_from(objects@, 0) <= u64::MAX,
        ensures
            final(self)@ == (EnergyModel {
                output: old(self)@.output + out_sum_from(objects@, 0),
                stored: old(self)@.stored + stored_sum_from(objects@, 0),
                ..old(self)@
            }),
    {
        let n = objects.count();
        let mut i: usize = 0;
        while i < n
            invariant
                i <= n,
                n == objects@.len(),
                registry_structures_wf(objects@),
                self@.output + out_sum_from(objects@, i as int) == old(self)@.output
                    + out_sum_from(objects@, 0),
                self@.stored + stored_sum_from(objects@, i as int) == old(self)@.stored
                    + stored_sum_from(objects@, 0),
                self@.discharged == old(self)@.discharged,
                self@.deficit == old(self)@.deficit,
                old(self)@.output + out_sum_from(objects@, 0) <= u64::MAX,
                old(self)@.stored + stored_sum_from(objects@, 0) <= u64::MAX,
            decreases n - i,
        {
            proof {
                assert(object_wf(objects@[i as int].1));
                lemma_out_sum_nonneg(objects@, i + 1);
                lemma_stored_sum_nonneg(objects@, i + 1);
            }
            let object = objects.object_at(i);
            match &object.structure {
                Some(Structure::Base { structure }) => {
                    let out = structure.blueprint().energy_out();
                    self.output = self.output + out;
                    let reserve = BatteryTrait::stored(structure.blueprint());
                    self.stored = self.stored + reserve;
                },
                Some(Structure::PowerPlant { structure }) => {
                    let out = structure.blueprint().energy_out();
                    self.output = self.output + out;
                },
                _ => {},
            }
            i = i + 1;
        }
    }

    /// One object's share of the charge pass.
    fn charge_one(&mut self, object: &mut MapObject)
        requires
            object_wf(old(object)@),
        ensures
            final(self)@ == charge_step(old(self)@, old(object)@).0,
            final(object)@ == charge_step(old(self)@, old(object)@).1,
            object_wf(final(object)@),
    {
        let ghost e0 = self@;
        let ghost o0 = object@;
        match &mut object.structure {
            Some(Structure::Base { structure }) => {
                let bp = structure.blueprint_mut();
                let battery_capacity_free = BatteryTrait::capacity_free(bp);
                if battery_capacity_free > 0 {
                    if self.output() > 0 {
                        let output_energy = self.withdraw_output(battery_capacity_free);
                        if output_energy > 0 {
                            BatteryTrait::charge(bp, output_energy);
                        }
                    }
                }
            },
            _ => {},
        }
        proof {
            assert(final(self)@ == charge_step(e0, o0).0);
            assert(object@ =~~= charge_step(e0, o0).1);
        }
    }

    /// Battery charge: leftover output after all consumption is pushed
    /// into free battery capacity, base by base; output that finds no
    /// free capacity is lost, not carried to the next tick.
    pub fn charge(&mut self, objects: &mut ObjectManager)
        requires
            registry_structures_wf(old(objects)@),
        ensures
            final(self)@ == charge_fold(old(self)@, old(objects)@, old(objects)@.len() as int).0,
            final(objects)@ == charge_fold(
                old(self)@,
                old(objects)@,
                old(objects)@.len() as int,
            ).1,
            registry_structures_wf(final(objects)@),
            final(objects)@.len() == old(objects)@.len(),
            forall|k: int|
                0 <= k < old(objects)@.len() ==> (#[trigger] final(objects)@[k]).0 == (old(
                    objects,
                )@[k]).0,
    {
        let n = objects.count();
        let mut i: usize = 0;
        while i < n
            invariant
                i <= n,
                n == old(objects)@.len(),
                objects@.len() == n,
                self@ == charge_fold(old(self)@, old(objects)@, i as int).0,
                objects@ == charge_fold(old(self)@, old(objects)@, i as int).1,
                registry_structures_wf(objects@),
                forall|k: int|
                    i <= k < n ==> (#[trigger] objects@[k]) == (old(objects)@[k]),
                forall|k: int|
                    0 <= k < n ==> (#[trigger] objects@[k]).0 == (old(objects)@[k]).0,
            decreases n - i,
        {
            let ghost pre_e = self@;
            let ghost pre_s = objects@;
            proof {
                assert(object_wf(pre_s[i as int].1));
            }
            let object = objects.object_at_mut(i);
            self.charge_one(object);
            proof {
                assert(objects@ =~~= charge_fold(old(self)@, old(objects)@, i + 1).1);
            }
            i = i + 1;
        }
    }

    /// One object's share of the discharge pass.
    fn discharge_one(&mut self, object: &mut MapObject)
        requires
            object_wf(old(object)@),
        ensures
            final(self)@ == discharge_step(old(self)@, old(object)@).0,
            final(object)@ == discharge_step(old(self)@, old(object)@).1,
            object_wf(final(object)@),
    {
        let ghost e0 = self@;
        let ghost o0 = object@;
        match &mut object.structure {
            Some(Structure::Base { structure }) => {
                let bp = structure.blueprint_mut();
                let battery_stored = BatteryTrait::stored(bp);
                let total_discharged = self.discharged();
                if battery_stored > 0 && total_discharged > 0 {
                    let discharged_amt = BatteryTrait::discharge(bp, total_discharged);
                    self.withdraw_discharge(discharged_amt);
                }
            },
            _ => {},
        }
        proof {
            assert(final(self)@ == discharge_step(e0, o0).0);
            assert(object@ =~~= discharge_step(e0, o0).1);
        }
    }

    /// Battery discharge: the pool's `discharged` bookkeeping — energy it
    /// lent out of battery reserves — is reconciled against the real
    /// per-base battery stock.
    pub fn discharge(&mut self, objects: &mut ObjectManager)
        requires
            registry_structures_wf(old(objects)@),
        ensures
            final(self)@ == discharge_fold(old(self)@, old(objects)@, old(objects)@.len() as int).0,
            final(objects)@ == discharge_fold(
                old(self)@,
                old(objects)@,
                old(objects)@.len() as int,
            ).1,
            registry_structures_wf(final(objects)@),
            final(objects)@.len() == old(objects)@.len(),
            forall|k: int|
                0 <= k < old(objects)@.len() ==> (#[trigger] final(objects)@[k]).0 == (old(
                    objects,
                )@[k]).0,
    {
        let n = objects.count();
        let mut i: usize = 0;
        while i < n
            invariant
                i <= n,
                n == old(objects)@.len(),
                objects@.len() == n,
                self@ == discharge_fold(old(self)@, old(objects)@, i as int).0,
                objects@ == discharge_fold(old(self)@, old(objects)@, i as int).1,
                registry_structures_wf(objects@),
                forall|k: int|
                    i <= k < n ==> (#[trigger] objects@[k]) == (old(objects)@[k]),
                forall|k: int|
                    0 <= k < n ==> (#[trigger] objects@[k]).0 == (old(objects)@[k]).0,
            decreases n - i,
        {
            let ghost pre_s = objects@;
            proof {
                assert(object_wf(pre_s[i as int].1));
            }
            let object = objects.object_at_mut(i);
            self.discharge_one(object);
            proof {
                assert(objects@ =~~= discharge_fold(old(self)@, old(objects)@, i + 1).1);
            }
            i = i + 1;
        }
    }
}

/// Energy a mine demands during production.
pub open spec fn mine_req_contrib(o: MapObjectModel) -> int {
    match o.structure {
        Some(StructureModel::Mine { blueprint, .. }) => energy_of(blueprint).energy_in as int,
        _ => 0,
    }
}

/// Resource of kind `k` an object can mint during production.
pub open spec fn res_inflow_contrib(o: MapObjectModel, k: int) -> int {
    match o.structure {
        Some(StructureModel::Mine { blueprint, resource, .. }) => if resource.idx_spec() == k {
            mine_output_of(blueprint).resource_out as int
        } else {
            0
        },
        _ => 0,
    }
}

/// Commodity of kind `k` an object can mint during production.
pub open spec fn com_inflow_contrib(o: MapObjectModel, k: int) -> int {
    match o.structure {
        Some(StructureModel::Factory { blueprint, commodity }) => if commodity.idx_spec() == k {
            match recipe_of(blueprint) {
                Some(r) => r.commodity_out as int,
                None => 0,
            }
        } else {
            0
        },
        _ => 0,
    }
}

/// Total mine energy demand of the entries from `i` on.
pub open spec fn mine_req_from(s: RegistryModel, i: int) -> int
    decreases s.len() - i,
{
    if i < 0 || i >= s.len() {
        0
    } else {
        mine_req_contrib(s[i].1) + mine_req_from(s, i + 1)
    }
}

/// Total possible minting of resource kind `k` by the entries from `i`
/// on.
pub open spec fn res_inflow_from(s: RegistryModel, i: int, k: int) -> int
    decreases s.len() - i,
{
    if i < 0 || i >= s.len() {
        0
    } else {
        res_inflow_contrib(s[i].1, k) + res_inflow_from(s, i + 1, k)
    }
}

/// Total possible minting of commodity kind `k` by the entries from `i`
/// on.
pub open spec fn com_inflow_from(s: RegistryModel, i: int, k: int) -> int
    decreases s.len() - i,
{
    if i < 0 || i >= s.len() {
        0
    } else {
        com_inflow_contrib(s[i].1, k) + com_inflow_from(s, i + 1, k)
    }
}

pub proof fn lemma_mine_req_nonneg(s: RegistryModel, i: int)
    ensures
        mine_req_from(s, i) >= 0,
    decreases s.len() - i,
{
    if 0 <= i < s.len() {
        lemma_mine_req_nonneg(s, i + 1);
    }
}

pub proof fn lemma_res_inflow_nonneg(s: RegistryModel, i: int, k: int)
    ensures
        res_inflow_from(s, i, k) >= 0,
    decreases s.len() - i,
{
    if 0 <= i < s.len() {
        lemma_res_inflow_nonneg(s, i + 1, k);
    }
}

pub proof fn lemma_com_inflow_nonneg(s: RegistryModel, i: int, k: int)
    ensures
        com_inflow_from(s, i, k) >= 0,
    decreases s.len() - i,
{
    if 0 <= i < s.len() {
        lemma_com_inflow_nonneg(s, i + 1, k);
    }
}

/// Whether the stocks strictly cover every requirement of a recipe.
pub open spec fn recipe_ok(res: Seq<int>, reqs: Seq<(Resource, u64)>) -> bool {
    forall|j: int|
        0 <= j < reqs.len() ==> res[(#[trigger] reqs[j]).0.idx_spec()] > reqs[j].1
}

/// The stocks after withdrawing the first `n` requirements, each clamped
/// to what is there.
pub open spec fn withdraw_list(res: Seq<int>, reqs: Seq<(Resource, u64)>, n: int) -> Seq<int>
    decreases n,
{
    if n <= 0 {
        res
    } else {
        let p = withdraw_list(res, reqs, n - 1);
        let idx = reqs[n - 1].0.idx_spec();
        p.update(idx, p[idx] - spec_min(reqs[n - 1].1 as int, p[idx]))
    }
}

pub proof fn lemma_withdraw_list_bounds(res: Seq<int>, reqs: Seq<(Resource, u64)>, n: int)
    requires
        res.len() == RESOURCE_COUNT,
        forall|j: int| 0 <= j < res.len() ==> #[trigger] res[j] >= 0,
    ensures
        withdraw_list(res, reqs, n).len() == res.len(),
        forall|j: int|
            0 <= j < res.len() ==> 0 <= #[trigger] withdraw_list(res, reqs, n)[j] <= res[j],
    decreases n,
{
    if n > 0 {
        lemma_withdraw_list_bounds(res, reqs, n - 1);
    }
}

/// The storage intake for one resource kind: as much of the global stock
/// as fits moves into the store's slot.
pub open spec fn store_absorb(res: Seq<int>, store: crate::component::StoreModel, k: int) -> (Seq<
    int,
>, crate::component::StoreModel) {
    if store.known[k] && res[k] > 0 {
        let free = store.cap[k] - store.amt[k];
        let accepted = spec_min(res[k], free);
        (
            res.update(k, res[k] - accepted),
            crate::component::StoreModel {
                amt: store.amt.update(k, (store.amt[k] + accepted) as u64),
                ..store
            },
        )
    } else {
        (res, store)
    }
}

/// The storage intake over the kinds below `k`.
pub open spec fn absorb_fold(res: Seq<int>, store: crate::component::StoreModel, k: int) -> (Seq<
    int,
>, crate::component::StoreModel)
    decreases k,
{
    if k <= 0 {
        (res, store)
    } else {
        let p = absorb_fold(res, store, k - 1);
        store_absorb(p.0, p.1, k - 1)
    }
}

/// What the production pass does for one object.
///
/// A mine either fully produces — withdrawing its energy and depositing
/// its yield — or fully fails, recording an energy and a resource
/// deficit.  A storage pulls global stock into its bounded store, kind
/// by kind.  A factory runs its recipe all-or-nothing: only when the
/// energy check and every strict resource check pass does it withdraw
/// everything and deposit its commodity; otherwise nothing is consumed
/// and only the commodity deficit grows.
pub open spec fn produce_step(e: EnergyModel, m: MaterialModel, o: MapObjectModel) -> (
    EnergyModel,
    MaterialModel,
    MapObjectModel,
) {
    match o.structure {
        Some(StructureModel::Mine { blueprint, resource, .. }) => {
            let req = energy_of(blueprint).energy_in as int;
            let yield_amt = mine_output_of(blueprint).resource_out as int;
            let idx = resource.idx_spec();
            if em_has_energy(e, req) {
                (
                    em_withdraw(e, req),
                    MaterialModel { res: m.res.update(idx, m.res[idx] + yield_amt), ..m },
                    o,
                )
            } else {
                (
                    EnergyModel { deficit: e.deficit + req, ..e },
                    MaterialModel {
                        res_def: m.res_def.update(idx, m.res_def[idx] + yield_amt),
                        ..m
                    },
                    o,
                )
            }
        },
        Some(StructureModel::Storage { blueprint }) => {
            let p = absorb_fold(m.res, resource_store_of(blueprint), RESOURCE_COUNT as int);
            (
                e,
                MaterialModel { res: p.0, ..m },
                with_structure(
                    o,
                    StructureModel::Storage {
                        blueprint: blueprint.insert(
                            ComponentName::ResourceStorageComponent,
                            ComponentModel::ResourceStorage { component: p.1 },
                        ),
                    },
                ),
            )
        },
        Some(StructureModel::Factory { blueprint, commodity }) => {
            match recipe_of(blueprint) {
                Some(recipe) => {
                    let cidx = commodity.idx_spec();
                    if em_has_energy(e, recipe.energy_required as int) && recipe_ok(
                        m.res,
                        recipe.resource_required,
                    ) {
                        (
                            em_withdraw(e, recipe.energy_required as int),
                            MaterialModel {
                                res: withdraw_list(
                                    m.res,
                                    recipe.resource_required,
                                    recipe.resource_required.len() as int,
                                ),
                                com: m.com.update(
                                    cidx,
                                    m.com[cidx] + recipe.commodity_out,
                                ),
                                ..m
                            },
                            o,
                        )
                    } else {
                        (
                            e,
                            MaterialModel {
                                com_def: m.com_def.update(
                                    cidx,
                                    m.com_def[cidx] + recipe.commodity_out,
                                ),
                                ..m
                            },
                            o,
                        )
                    }
                },
                None => (e, m, o),
            }
        },
        _ => (e, m, o),
    }
}

/// The production pass over the first `n` entries.
pub open spec fn produce_fold(e: EnergyModel, m: MaterialModel, s: RegistryModel, n: int) -> (
    EnergyModel,
    MaterialModel,
    RegistryModel,
)
    decreases n,
{
    if n <= 0 {
        (e, m, s)
    } else {
        let prev = produce_fold(e, m, s, n - 1);
        let step = produce_step(prev.0, prev.1, prev.2[n - 1].1);
        (step.0, step.1, prev.2.update(n - 1, (prev.2[n - 1].0, step.2)))
    }
}

impl ResourceManager {
    /// Storage intake for one store: for every resource kind the store
    /// was built for, pull as much of the global stock as fits through
    /// the capacity-clamped add, decrementing the stock by exactly the
    /// amount accepted.
    fn absorb_store(&mut self, bp: &mut crate::structures::StructureBlueprint)
        requires
            has_resource_store(old(bp)@),
            resource_store_of(old(bp)@).wf(RESOURCE_COUNT as int),
            old(self)@.wf(),
        ensures
            final(self)@ == (MaterialModel {
                res: absorb_fold(
                    old(self)@.res,
                    resource_store_of(old(bp)@),
                    RESOURCE_COUNT as int,
                ).0,
                ..old(self)@
            }),
            final(bp)@ == old(bp)@.insert(
                ComponentName::ResourceStorageComponent,
                ComponentModel::ResourceStorage {
                    component: absorb_fold(
                        old(self)@.res,
                        resource_store_of(old(bp)@),
                        RESOURCE_COUNT as int,
                    ).1,
                },
            ),
            final(self)@.wf(),
            has_resource_store(final(bp)@),
            resource_store_of(final(bp)@).wf(RESOURCE_COUNT as int),
            forall|k: int|
                0 <= k < RESOURCE_COUNT ==> #[trigger] final(self)@.res[k] <= old(self)@.res[k],
    {
        let ghost res0 = self@.res;
        let ghost st0 = resource_store_of(bp@);
        proof {
            assert(old(bp)@ =~~= old(bp)@.insert(
                ComponentName::ResourceStorageComponent,
                ComponentModel::ResourceStorage { component: st0 },
            ));
        }
        let mut k: usize = 0;
        while k < RESOURCE_COUNT
            invariant
                k <= RESOURCE_COUNT,
                self@.wf(),
                old(self)@.wf(),
                has_resource_store(old(bp)@),
                resource_store_of(old(bp)@) == st0,
                st0.wf(RESOURCE_COUNT as int),
                res0 == old(self)@.res,
                self@.res == absorb_fold(res0, st0, k as int).0,
                bp@ == old(bp)@.insert(
                    ComponentName::ResourceStorageComponent,
                    ComponentModel::ResourceStorage {
                        component: absorb_fold(res0, st0, k as int).1,
                    },
                ),
                absorb_fold(res0, st0, k as int).1.wf(RESOURCE_COUNT as int),
                self@.res_def == old(self)@.res_def,
                self@.com == old(self)@.com,
                self@.com_def == old(self)@.com_def,
                forall|j: int|
                    0 <= j < RESOURCE_COUNT ==> #[trigger] self@.res[j] <= old(self)@.res[j],
            decreases RESOURCE_COUNT - k,
        {
            let ghost pre_res = self@.res;
            let ghost pre_store = absorb_fold(res0, st0, k as int).1;
            let r = Resource::from_idx(k);
            if ResourceStorageTrait::resource_known(bp, &r) {
                let stock = self.resources[k];
                if stock > 0 {
                    let accepted = ResourceStorageTrait::resource_add(bp, &r, stock);
                    self.resources[k] = stock - accepted;
                }
            }
            proof {
                assert(self@.res =~= absorb_fold(res0, st0, k + 1).0);
                assert(bp@ =~~= old(bp)@.insert(
                    ComponentName::ResourceStorageComponent,
                    ComponentModel::ResourceStorage {
                        component: absorb_fold(res0, st0, k + 1).1,
                    },
                ));
                assert(self@.res_def =~= old(self)@.res_def);
                assert(self@.com =~= old(self)@.com);
                assert(self@.com_def =~= old(self)@.com_def);
            }
            k = k + 1;
        }
        proof {
            assert(final(self)@ =~~= (MaterialModel {
                res: absorb_fold(res0, st0, RESOURCE_COUNT as int).0,
                ..old(self)@
            }));
        }
    }

    /// Production for one object, by structure kind.
    fn produce_one(&mut self, object: &mut MapObject, energy_manager: &mut EnergyManager)
        requires
            object_wf(old(object)@),
            old(self)@.wf(),
            old(energy_manager)@.output + old(energy_manager)@.stored <= u64::MAX,
            old(energy_manager)@.discharged + old(energy_manager)@.stored <= u64::MAX,
            old(energy_manager)@.deficit + mine_req_contrib(old(object)@) <= u64::MAX,
            forall|k: int|
                0 <= k < RESOURCE_COUNT ==> old(self)@.res[k] + res_inflow_contrib(
                    old(object)@,
                    k,
                ) <= u64::MAX,
            forall|k: int|
                0 <= k < RESOURCE_COUNT ==> old(self)@.res_def[k] + res_inflow_contrib(
                    old(object)@,
                    k,
                ) <= u64::MAX,
            forall|k: int|
                0 <= k < COMMODITY_COUNT ==> old(self)@.com[k] + com_inflow_contrib(
                    old(object)@,
                    k,
                ) <= u64::MAX,
            forall|k: int|
                0 <= k < COMMODITY_COUNT ==> old(self)@.com_def[k] + com_inflow_contrib(
                    old(object)@,
                    k,
                ) <= u64::MAX,
        ensures
            final(energy_manager)@ == produce_step(
                old(energy_manager)@,
                old(self)@,
                old(object)@,
            ).0,
            final(self)@ == produce_step(old(energy_manager)@, old(self)@, old(object)@).1,
            final(object)@ == produce_step(old(energy_manager)@, old(self)@, old(object)@).2,
            final(self)@.wf(),
            object_wf(final(object)@),
            final(energy_manager)@.output <= old(energy_manager)@.output,
            final(energy_manager)@.stored <= old(energy_manager)@.stored,
            final(energy_manager)@.discharged + final(energy_manager)@.stored == old(
                energy_manager,
            )@.discharged + old(energy_manager)@.stored,
            final(energy_manager)@.deficit <= old(energy_manager)@.deficit + mine_req_contrib(
                old(object)@,
            ),
            forall|k: int|
                0 <= k < RESOURCE_COUNT ==> #[trigger] final(self)@.res[k] <= old(self)@.res[k]
                    + res_inflow_contrib(old(object)@, k),
            forall|k: int|
                0 <= k < RESOURCE_COUNT ==> #[trigger] final(self)@.res_def[k] <= old(
                    self,
                )@.res_def[k] + res_inflow_contrib(old(object)@, k),
            forall|k: int|
                0 <= k < COMMODITY_COUNT ==> #[trigger] final(self)@.com[k] <= old(self)@.com[k]
                    + com_inflow_contrib(old(object)@, k),
            forall|k: int|
                0 <= k < COMMODITY_COUNT ==> #[trigger] final(self)@.com_def[k] <= old(
                    self,
                )@.com_def[k] + com_inflow_contrib(old(object)@, k),
    {
        let ghost e0 = energy_manager@;
        let ghost m0 = self@;
        let ghost o0 = object@;
        match &mut object.structure {
            Some(Structure::Mine { structure }) => {
                let energy_required = structure.blueprint().energy_in();
                let resource = *structure.resource();
                let yield_amt = structure.blueprint().resource_out();
                proof {
                    assert(res_inflow_contrib(o0, resource.idx_spec()) == yield_amt as int);
                    assert(mine_req_contrib(o0) == energy_required as int);
                    assert forall|k: int|
                        0 <= k < RESOURCE_COUNT && k != resource.idx_spec() implies #[trigger]
                    res_inflow_contrib(o0, k) == 0 by {}
                    assert forall|k: int| 0 <= k < COMMODITY_COUNT implies #[trigger]
                    com_inflow_contrib(o0, k) == 0 by {}
                }
                if energy_manager.has_energy(energy_required) {
                    energy_manager.withdraw(energy_required);
                    self.deposit_resource(&resource, yield_amt);
                } else {
                    energy_manager.add_deficit(energy_required);
                    self.add_resource_deficit(&resource, yield_amt);
                }
            },
            Some(Structure::Storage { structure }) => {
                self.absorb_store(structure.blueprint_mut());
            },
            Some(Structure::Factory { structure }) => {
                let commodity = *structure.commodity();
                let component = structure.blueprint().get_component(
                    &ComponentName::FactoryOutputComponent,
                );
                match component {
                    ComponentGroup::FactoryOutput { component } => {
                        let ghost recipe = component@;
                        let has_energy = energy_manager.has_energy(component.energy_required);
                        let reqs = component.resources();
                        let rn = reqs.len();
                        let mut has_resources = true;
                        let mut j: usize = 0;
                        while j < rn
                            invariant
                                j <= rn,
                                rn == reqs@.len(),
                                reqs@ == recipe.resource_required,
                                self@ == m0,
                                m0.wf(),
                                has_resources == recipe_ok(m0.res, recipe.resource_required.take(
                                    j as int,
                                )),
                            decreases rn - j,
                        {
                            let pair = reqs[j];
                            if !self.has_resource(&pair.0, pair.1) {
                                has_resources = false;
                            }
                            proof {
                                assert(recipe.resource_required.take(j + 1).drop_last()
                                    =~= recipe.resource_required.take(j as int));
                                assert(recipe.resource_required.take(j + 1).last() == recipe
                                    .resource_required[j as int]);
                                assert forall|x: int| 0 <= x < j + 1 implies (
                                recipe.resource_required.take(j + 1)[x]
                                    == recipe.resource_required[x]) by {}
                            }
                            j = j + 1;
                        }
                        proof {
                            assert(recipe.resource_required.take(rn as int)
                                =~= recipe.resource_required);
                        }
                        if has_energy && has_resources {
                            energy_manager.withdraw(component.energy_required);
                            let mut j2: usize = 0;
                            while j2 < rn
                                invariant
                                    j2 <= rn,
                                    rn == reqs@.len(),
                                    reqs@ == recipe.resource_required,
                                    m0.wf(),
                                    self@ == (MaterialModel {
                                        res: withdraw_list(
                                            m0.res,
                                            recipe.resource_required,
                                            j2 as int,
                                        ),
                                        ..m0
                                    }),
                                    self@.wf(),
                                decreases rn - j2,
                            {
                                let pair = reqs[j2];
                                self.withdraw_resource(&pair.0, pair.1);
                                proof {
                                    assert(self@ =~~= (MaterialModel {
                                        res: withdraw_list(
                                            m0.res,
                                            recipe.resource_required,
                                            j2 + 1,
                                        ),
                                        ..m0
                                    }));
                                }
                                j2 = j2 + 1;
                            }
                            proof {
                                assert(com_inflow_contrib(o0, commodity.idx_spec())
                                    == recipe.commodity_out as int);
                            }
                            self.deposit_commodity(&commodity, component.commodity_out);
                        } else {
                            proof {
                                assert(com_inflow_contrib(o0, commodity.idx_spec())
                                    == recipe.commodity_out as int);
                            }
                            self.add_commodity_deficit(&commodity, component.commodity_out);
                        }
                    },
                    _ => {},
                }
            },
            _ => {},
        }
        proof {
            match o0.structure {
                Some(StructureModel::Factory { blueprint, .. }) => {
                    match recipe_of(blueprint) {
                        Some(recipe) => {
                            lemma_withdraw_list_bounds(
                                m0.res,
                                recipe.resource_required,
                                recipe.resource_required.len() as int,
                            );
                        },
                        None => {},
                    }
                },
                _ => {},
            }
            assert(final(energy_manager)@ == produce_step(e0, m0, o0).0);
            assert(self@ =~~= produce_step(e0, m0, o0).1);
            assert(object@ =~~= produce_step(e0, m0, o0).2);
        }
    }

    /// The production and consumption pass: reset both deficit tables,
    /// then visit every placed structure once, in placement order.
    pub fn collect(&mut self, objects: &mut ObjectManager, energy_manager: &mut EnergyManager)
        requires
            old(self)@.wf(),
            registry_structures_wf(old(objects)@),
            old(energy_manager)@.output + old(energy_manager)@.stored <= u64::MAX,
            old(energy_manager)@.discharged + old(energy_manager)@.stored <= u64::MAX,
            old(energy_manager)@.deficit + mine_req_from(old(objects)@, 0) <= u64::MAX,
            forall|k: int|
                0 <= k < RESOURCE_COUNT ==> old(self)@.res[k] + res_inflow_from(
                    old(objects)@,
                    0,
                    k,
                ) <= u64::MAX,
            forall|k: int|
                0 <= k < COMMODITY_COUNT ==> old(self)@.com[k] + com_inflow_from(
                    old(objects)@,
                    0,
                    k,
                ) <= u64::MAX,
        ensures
            final(energy_manager)@ == produce_fold(
                old(energy_manager)@,
                reset_deficits(old(self)@),
                old(objects)@,
                old(objects)@.len() as int,
            ).0,
            final(self)@ == produce_fold(
                old(energy_manager)@,
                reset_deficits(old(self)@),
                old(objects)@,
                old(objects)@.len() as int,
            ).1,
            final(objects)@ == produce_fold(
                old(energy_manager)@,
                reset_deficits(old(self)@),
                old(objects)@,
                old(objects)@.len() as int,
            ).2,
            final(self)@.wf(),
            registry_structures_wf(final(objects)@),
            final(objects)@.len() == old(objects)@.len(),
            forall|k: int|
                0 <= k < old(objects)@.len() ==> (#[trigger] final(objects)@[k]).0 == (old(
                    objects,
                )@[k]).0,
    {
        self.zero_deficit();
        let ghost e_init = energy_manager@;
        let ghost m_init = self@;
        let ghost s0 = objects@;
        proof {
            assert(m_init =~~= reset_deficits(old(self)@));
        }
        let n = objects.count();
        let mut i: usize = 0;
        while i < n
            invariant
                i <= n,
                n == s0.len(),
                s0 == old(objects)@,
                e_init == old(energy_manager)@,
                m_init == reset_deficits(old(self)@),
                m_init.wf(),
                objects@.len() == n,
                energy_manager@ == produce_fold(e_init, m_init, s0, i as int).0,
                self@ == produce_fold(e_init, m_init, s0, i as int).1,
                objects@ == produce_fold(e_init, m_init, s0, i as int).2,
                self@.wf(),
                registry_structures_wf(objects@),
                forall|k: int| i <= k < n ==> (#[trigger] objects@[k]) == s0[k],
                forall|k: int| 0 <= k < n ==> (#[trigger] objects@[k]).0 == (s0[k]).0,
                energy_manager@.output <= e_init.output,
                energy_manager@.stored <= e_init.stored,
                energy_manager@.discharged + energy_manager@.stored == e_init.discharged
                    + e_init.stored,
                e_init.output + e_init.stored <= u64::MAX,
                e_init.discharged + e_init.stored <= u64::MAX,
                energy_manager@.deficit + mine_req_from(s0, i as int) <= u64::MAX,
                forall|k: int|
                    0 <= k < RESOURCE_COUNT ==> #[trigger] self@.res[k] + res_inflow_from(
                        s0,
                        i as int,
                        k,
                    ) <= u64::MAX,
                forall|k: int|
                    0 <= k < RESOURCE_COUNT ==> #[trigger] self@.res_def[k] + res_inflow_from(
                        s0,
                        i as int,
                        k,
                    ) <= u64::MAX,
                forall|k: int|
                    0 <= k < COMMODITY_COUNT ==> #[trigger] self@.com[k] + com_inflow_from(
                        s0,
                        i as int,
                        k,
                    ) <= u64::MAX,
                forall|k: int|
                    0 <= k < COMMODITY_COUNT ==> #[trigger] self@.com_def[k] + com_inflow_from(
                        s0,
                        i as int,
                        k,
                    ) <= u64::MAX,
            decreases n - i,
        {
            let ghost pre_e = energy_manager@;
            let ghost pre_m = self@;
            let ghost pre_s = objects@;
            proof {
                assert(object_wf(pre_s[i as int].1));
                assert(pre_s[i as int] == s0[i as int]);
                lemma_mine_req_nonneg(s0, i + 1);
                assert forall|k: int| 0 <= k < RESOURCE_COUNT implies #[trigger] res_inflow_from(
                    s0,
                    i + 1,
                    k,
                ) >= 0 by {
                    lemma_res_inflow_nonneg(s0, i + 1, k);
                }
                assert forall|k: int| 0 <= k < COMMODITY_COUNT implies #[trigger] com_inflow_from(
                    s0,
                    i + 1,
                    k,
                ) >= 0 by {
                    lemma_com_inflow_nonneg(s0, i + 1, k);
                }
            }
            proof {
                assert(energy_manager@.deficit + mine_req_contrib(s0[i as int].1) <= u64::MAX);
                assert forall|k: int| 0 <= k < RESOURCE_COUNT implies self@.res[k]
                    + res_inflow_contrib(s0[i as int].1, k) <= u64::MAX && self@.res_def[k]
                    + res_inflow_contrib(s0[i as int].1, k) <= u64::MAX by {
                    lemma_res_inflow_nonneg(s0, i + 1, k);
                    assert(res_inflow_from(s0, i as int, k) == res_inflow_contrib(
                        s0[i as int].1,
                        k,
                    ) + res_inflow_from(s0, i + 1, k));
                }
                assert forall|k: int| 0 <= k < COMMODITY_COUNT implies self@.com[k]
                    + com_inflow_contrib(s0[i as int].1, k) <= u64::MAX && self@.com_def[k]
                    + com_inflow_contrib(s0[i as int].1, k) <= u64::MAX by {
                    lemma_com_inflow_nonneg(s0, i + 1, k);
                    assert(com_inflow_from(s0, i as int, k) == com_inflow_contrib(
                        s0[i as int].1,
                        k,
                    ) + com_inflow_from(s0, i + 1, k));
                }
            }
            let object = objects.object_at_mut(i);
            self.produce_one(object, energy_manager);
            proof {
                assert(objects@ =~~= produce_fold(e_init, m_init, s0, i + 1).2);
            }
            i = i + 1;
        }
    }
}

} // verus!
