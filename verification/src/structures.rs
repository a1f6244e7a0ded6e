//! Blueprints and the closed set of placeable structures.
//!
//! A blueprint is a mapping from component name to component, at most one
//! component per name.  Each structure kind wraps one blueprint plus its
//! identity data (which resource a mine extracts, which commodity a
//! factory yields).  Capability traits expose the blueprint's components
//! to the tick engine.

use vstd::prelude::*;

use crate::component::{
    BatteryComponent, CommodityStorageComponent, ComponentGroup, ComponentModel, ComponentName,
    EnergyComponent, FactoryOutputComponent, MineOutputComponent, RecipeModel, RefineryModel,
    RefineryOutputComponent, ResourceStorageComponent, StoreModel,
};
use crate::kinds::{Commodity, Manufactured, Resource, COMMODITY_COUNT, RESOURCE_COUNT};

verus! {

/// Mathematical model of a blueprint: the component each slot holds.
pub type BlueprintModel = Map<ComponentName, ComponentModel>;

/// The kind of a placeable structure.
#[derive(Clone, Copy, Debug, PartialEq, Eq, Hash, Structural)]
pub enum StructureGroup {
    Base,
    Power,
    Mine,
    Refinery,
    Factory,
    Storage,
}

/// Energy figures of a blueprint; zeroes when the slot holds another
/// component kind.
pub open spec fn energy_of(m: BlueprintModel) -> EnergyComponent {
    if m.contains_key(ComponentName::EnergyComponent) {
        match m[ComponentName::EnergyComponent] {
            ComponentModel::Energy { component } => component,
            _ => EnergyComponent { energy_in: 0, energy_out: 0 },
        }
    } else {
        EnergyComponent { energy_in: 0, energy_out: 0 }
    }
}

/// Battery of a blueprint; an empty battery when the slot holds another
/// component kind.
pub open spec fn battery_of(m: BlueprintModel) -> BatteryComponent {
    if m.contains_key(ComponentName::BatteryComponent) {
        match m[ComponentName::BatteryComponent] {
            ComponentModel::Battery { component } => component,
            _ => BatteryComponent { capacity: 0, stored: 0 },
        }
    } else {
        BatteryComponent { capacity: 0, stored: 0 }
    }
}

/// Whether the battery slot holds an actual battery.
pub open spec fn has_battery(m: BlueprintModel) -> bool {
    m.contains_key(ComponentName::BatteryComponent) && m[ComponentName::BatteryComponent] matches
        ComponentModel::Battery { .. }
}

/// Mine yields of a blueprint; zeroes when the slot holds another
/// component kind.
pub open spec fn mine_output_of(m: BlueprintModel) -> MineOutputComponent {
    if m.contains_key(ComponentName::MineOutputComponent) {
        match m[ComponentName::MineOutputComponent] {
            ComponentModel::MineOutput { component } => component,
            _ => MineOutputComponent { resource_out: 0, manufactured_out: 0 },
        }
    } else {
        MineOutputComponent { resource_out: 0, manufactured_out: 0 }
    }
}

/// Whether the resource storage slot holds an actual resource store.
pub open spec fn has_resource_store(m: BlueprintModel) -> bool {
    m.contains_key(ComponentName::ResourceStorageComponent)
        && m[ComponentName::ResourceStorageComponent] matches ComponentModel::ResourceStorage { .. }
}

/// The resource store of a blueprint; empty tables when absent.
pub open spec fn resource_store_of(m: BlueprintModel) -> StoreModel {
    if has_resource_store(m) {
        match m[ComponentName::ResourceStorageComponent] {
            ComponentModel::ResourceStorage { component } => component,
            _ => StoreModel { known: Seq::empty(), cap: Seq::empty(), amt: Seq::empty() },
        }
    } else {
        StoreModel { known: Seq::empty(), cap: Seq::empty(), amt: Seq::empty() }
    }
}

/// Whether the commodity storage slot holds an actual commodity store.
pub open spec fn has_commodity_store(m: BlueprintModel) -> bool {
    m.contains_key(ComponentName::CommodityStorageComponent)
        && m[ComponentName::CommodityStorageComponent] matches ComponentModel::CommodityStorage {
        .. }
}

/// The commodity store of a blueprint; empty tables when absent.
pub open spec fn commodity_store_of(m: BlueprintModel) -> StoreModel {
    if has_commodity_store(m) {
        match m[ComponentName::CommodityStorageComponent] {
            ComponentModel::CommodityStorage { component } => component,
            _ => StoreModel { known: Seq::empty(), cap: Seq::empty(), amt: Seq::empty() },
        }
    } else {
        StoreModel { known: Seq::empty(), cap: Seq::empty(), amt: Seq::empty() }
    }
}

/// The recipe of a blueprint, when the factory output slot holds one.
pub open spec fn recipe_of(m: BlueprintModel) -> Option<RecipeModel> {
    if m.contains_key(ComponentName::FactoryOutputComponent) {
        match m[ComponentName::FactoryOutputComponent] {
            ComponentModel::FactoryOutput { component } => Some(component),
            _ => None,
        }
    } else {
        None
    }
}

/// Fixed per-tick energy demand and supply of a structure.
pub trait EnergyTrait: View<V = BlueprintModel> {
    fn energy_in(&self) -> (r: u64)
        requires
            self@.contains_key(ComponentName::EnergyComponent),
        ensures
            r == energy_of(self@).energy_in,
    ;

    fn energy_out(&self) -> (r: u64)
        requires
            self@.contains_key(ComponentName::EnergyComponent),
        ensures
            r == energy_of(self@).energy_out,
    ;
}

/// Bounded local energy buffer of a structure.
pub trait BatteryTrait: View<V = BlueprintModel> {
    fn capacity(&self) -> (r: u64)
        requires
            self@.contains_key(ComponentName::BatteryComponent),
        ensures
            r == battery_of(self@).capacity,
    ;

    fn capacity_free(&self) -> (r: u64)
        requires
            self@.contains_key(ComponentName::BatteryComponent),
            battery_of(self@).wf(),
        ensures
            r == battery_of(self@).capacity - battery_of(self@).stored,
    ;

    fn stored(&self) -> (r: u64)
        requires
            self@.contains_key(ComponentName::BatteryComponent),
        ensures
            r == battery_of(self@).stored,
    ;

    /// Add up to `amount`, clamped to free capacity; returns what was
    /// actually taken in.
    fn charge(&mut self, amount: u64) -> (given: u64)
        requires
            old(self)@.contains_key(ComponentName::BatteryComponent),
            battery_of(old(self)@).wf(),
        ensures
            given == if amount <= battery_of(old(self)@).capacity - battery_of(old(self)@).stored {
                amount
            } else {
                (battery_of(old(self)@).capacity - battery_of(old(self)@).stored) as u64
            },
            has_battery(old(self)@) ==> final(self)@ == old(self)@.insert(
                ComponentName::BatteryComponent,
                ComponentModel::Battery {
                    component: BatteryComponent {
                        capacity: battery_of(old(self)@).capacity,
                        stored: (battery_of(old(self)@).stored + given) as u64,
                    },
                },
            ),
            !has_battery(old(self)@) ==> final(self)@ == old(self)@,
    ;

    /// Take out up to `amount`, clamped to what is stored; returns what
    /// was actually given back.
    fn discharge(&mut self, amount: u64) -> (got: u64)
        requires
            old(self)@.contains_key(ComponentName::BatteryComponent),
        ensures
            got == if amount <= battery_of(old(self)@).stored {
                amount
            } else {
                battery_of(old(self)@).stored
            },
            has_battery(old(self)@) ==> final(self)@ == old(self)@.insert(
                ComponentName::BatteryComponent,
                ComponentModel::Battery {
                    component: BatteryComponent {
                        capacity: battery_of(old(self)@).capacity,
                        stored: (battery_of(old(self)@).stored - got) as u64,
                    },
                },
            ),
            !has_battery(old(self)@) ==> final(self)@ == old(self)@,
    ;
}

/// Fixed per-tick yields of a mining structure.
pub trait MineOutputTrait: View<V = BlueprintModel> {
    fn resource_out(&self) -> (r: u64)
        requires
            self@.contains_key(ComponentName::MineOutputComponent),
        ensures
            r == mine_output_of(self@).resource_out,
    ;

    fn manufactured_out(&self) -> (r: u64)
        requires
            self@.contains_key(ComponentName::MineOutputComponent),
        ensures
            r == mine_output_of(self@).manufactured_out,
    ;
}

/// Bounded per-resource store of a structure.
pub trait ResourceStorageTrait: View<V = BlueprintModel> {
    /// Whether the store was built for the given kind.
    fn resource_known(&self, group: &Resource) -> (r: bool)
        requires
            has_resource_store(self@),
            resource_store_of(self@).wf(RESOURCE_COUNT as int),
        ensures
            r == resource_store_of(self@).known[group.idx_spec()],
    ;

    fn capacity(&self, group: &Resource) -> (r: u64)
        requires
            has_resource_store(self@),
            resource_store_of(self@).wf(RESOURCE_COUNT as int),
            resource_store_of(self@).known[group.idx_spec()],
        ensures
            r == resource_store_of(self@).cap[group.idx_spec()],
    ;

    fn resource(&self, group: &Resource) -> (r: u64)
        requires
            has_resource_store(self@),
            resource_store_of(self@).wf(RESOURCE_COUNT as int),
            resource_store_of(self@).known[group.idx_spec()],
        ensures
            r == resource_store_of(self@).amt[group.idx_spec()],
    ;

    /// The single clamping primitive: add up to `amount` of the kind,
    /// never beyond capacity; returns the amount actually accepted.
    fn resource_add(&mut self, group: &Resource, amount: u64) -> (accepted: u64)
        requires
            has_resource_store(old(self)@),
            resource_store_of(old(self)@).wf(RESOURCE_COUNT as int),
            resource_store_of(old(self)@).known[group.idx_spec()],
        ensures
            accepted == if amount <= resource_store_of(old(self)@).cap[group.idx_spec()]
                - resource_store_of(old(self)@).amt[group.idx_spec()] {
                amount
            } else {
                (resource_store_of(old(self)@).cap[group.idx_spec()] - resource_store_of(
                    old(self)@,
                ).amt[group.idx_spec()]) as u64
            },
            final(self)@ == old(self)@.insert(
                ComponentName::ResourceStorageComponent,
                ComponentModel::ResourceStorage {
                    component: StoreModel {
                        amt: resource_store_of(old(self)@).amt.update(
                            group.idx_spec(),
                            (resource_store_of(old(self)@).amt[group.idx_spec()] + accepted) as u64,
                        ),
                        ..resource_store_of(old(self)@)
                    },
                },
            ),
    ;

    fn resources(&self) -> (v: Vec<Resource>)
        requires
            has_resource_store(self@),
            resource_store_of(self@).wf(RESOURCE_COUNT as int),
        ensures
            forall|k: int|
                0 <= k < v@.len() ==> resource_store_of(self@).known[(#[trigger] v@[k]).idx_spec()],
            forall|r: Resource|
                resource_store_of(self@).known[r.idx_spec()] ==> #[trigger] v@.contains(r),
            forall|k: int, l: int| 0 <= k < l < v@.len() ==> v@[k] != v@[l],
    ;
}

/// Bounded per-commodity store of a structure.
pub trait CommodityStorageTrait: View<V = BlueprintModel> {
    fn capacity(&self, group: &Commodity) -> (r: u64)
        requires
            has_commodity_store(self@),
            commodity_store_of(self@).wf(COMMODITY_COUNT as int),
            commodity_store_of(self@).known[group.idx_spec()],
        ensures
            r == commodity_store_of(self@).cap[group.idx_spec()],
    ;

    fn commodity(&self, group: &Commodity) -> (r: u64)
        requires
            has_commodity_store(self@),
            commodity_store_of(self@).wf(COMMODITY_COUNT as int),
            commodity_store_of(self@).known[group.idx_spec()],
        ensures
            r == commodity_store_of(self@).amt[group.idx_spec()],
    ;

    /// Add up to `amount` of the kind, clamped to free capacity; returns
    /// the amount actually accepted.
    fn commodity_add(&mut self, group: &Commodity, amount: u64) -> (accepted: u64)
        requires
            has_commodity_store(old(self)@),
            commodity_store_of(old(self)@).wf(COMMODITY_COUNT as int),
            commodity_store_of(old(self)@).known[group.idx_spec()],
        ensures
            accepted == if amount <= commodity_store_of(old(self)@).cap[group.idx_spec()]
                - commodity_store_of(old(self)@).amt[group.idx_spec()] {
                amount
            } else {
                (commodity_store_of(old(self)@).cap[group.idx_spec()] - commodity_store_of(
                    old(self)@,
                ).amt[group.idx_spec()]) as u64
            },
            final(self)@ == old(self)@.insert(
                ComponentName::CommodityStorageComponent,
                ComponentModel::CommodityStorage {
                    component: StoreModel {
                        amt: commodity_store_of(old(self)@).amt.update(
                            group.idx_spec(),
                            (commodity_store_of(old(self)@).amt[group.idx_spec()]
                                + accepted) as u64,
                        ),
                        ..commodity_store_of(old(self)@)
                    },
                },
            ),
    ;

    fn commodities(&self) -> (v: Vec<Commodity>)
        requires
            has_commodity_store(self@),
            commodity_store_of(self@).wf(COMMODITY_COUNT as int),
        ensures
            forall|k: int|
                0 <= k < v@.len() ==> commodity_store_of(self@).known[(
                #[trigger] v@[k]).idx_spec()],
            forall|c: Commodity|
                commodity_store_of(self@).known[c.idx_spec()] ==> #[trigger] v@.contains(c),
            forall|k: int, l: int| 0 <= k < l < v@.len() ==> v@[k] != v@[l],
    ;
}

/// A blueprint: at most one component per component name.
pub struct StructureBlueprint {
    energy: Option<ComponentGroup>,
    mine_output: Option<ComponentGroup>,
    resource_storage: Option<ComponentGroup>,
    commodity_storage: Option<ComponentGroup>,
    battery: Option<ComponentGroup>,
    refinery_output: Option<ComponentGroup>,
    factory_output: Option<ComponentGroup>,
}

impl StructureBlueprint {
    /// The slot for the given component name.
    closed spec fn slot(&self, n: ComponentName) -> Option<ComponentGroup> {
        match n {
            ComponentName::EnergyComponent => self.energy,
            ComponentName::MineOutputComponent => self.mine_output,
            ComponentName::ResourceStorageComponent => self.resource_storage,
            ComponentName::CommodityStorageComponent => self.commodity_storage,
            ComponentName::BatteryComponent => self.battery,
            ComponentName::RefineryOutputComponent => self.refinery_output,
            ComponentName::FactoryOutputComponent => self.factory_output,
        }
    }
}

impl View for StructureBlueprint {
    type V = BlueprintModel;

    closed spec fn view(&self) -> BlueprintModel {
        Map::new(|n: ComponentName| self.slot(n) is Some, |n: ComponentName| self.slot(n)->0@)
    }
}

impl StructureBlueprint {
    /// A blueprint with every slot empty.
    pub fn new() -> (b: StructureBlueprint)
        ensures
            b@ == Map::<ComponentName, ComponentModel>::empty(),
    {
        let b = StructureBlueprint {
            energy: None,
            mine_output: None,
            resource_storage: None,
            commodity_storage: None,
            battery: None,
            refinery_output: None,
            factory_output: None,
        };
        proof {
            assert(b@ =~= Map::<ComponentName, ComponentModel>::empty());
        }
        b
    }

    /// Insert or replace the component held under `name`.
    pub fn add_component(&mut self, name: ComponentName, component: ComponentGroup)
        ensures
            final(self)@ == old(self)@.insert(name, component@),
    {
        match name {
            ComponentName::EnergyComponent => self.energy = Some(component),
            ComponentName::MineOutputComponent => self.mine_output = Some(component),
            ComponentName::ResourceStorageComponent => self.resource_storage = Some(component),
            ComponentName::CommodityStorageComponent => self.commodity_storage = Some(component),
            ComponentName::BatteryComponent => self.battery = Some(component),
            ComponentName::RefineryOutputComponent => self.refinery_output = Some(component),
            ComponentName::FactoryOutputComponent => self.factory_output = Some(component),
        }
        proof {
            assert(self@ =~= old(self)@.insert(name, component@));
        }
    }

    /// The component held under `name`; the structure constructors
    /// guarantee the names a structure's behaviour needs are present.
    pub fn get_component(&self, name: &ComponentName) -> (c: &ComponentGroup)
        requires
            self@.contains_key(*name),
        ensures
            c@ == self@[*name],
    {
        match name {
            ComponentName::EnergyComponent => match &self.energy {
                Some(c) => c,
                None => vstd::pervasive::unreached(),
            },
            ComponentName::MineOutputComponent => match &self.mine_output {
                Some(c) => c,
                None => vstd::pervasive::unreached(),
            },
            ComponentName::ResourceStorageComponent => match &self.resource_storage {
                Some(c) => c,
                None => vstd::pervasive::unreached(),
            },
            ComponentName::CommodityStorageComponent => match &self.commodity_storage {
                Some(c) => c,
                None => vstd::pervasive::unreached(),
            },
            ComponentName::BatteryComponent => match &self.battery {
                Some(c) => c,
                None => vstd::pervasive::unreached(),
            },
            ComponentName::RefineryOutputComponent => match &self.refinery_output {
                Some(c) => c,
                None => vstd::pervasive::unreached(),
            },
            ComponentName::FactoryOutputComponent => match &self.factory_output {
                Some(c) => c,
                None => vstd::pervasive::unreached(),
            },
        }
    }

    /// Mutable access to the component held under `name`.
    pub fn get_component_mut(&mut self, name: &ComponentName) -> (c: &mut ComponentGroup)
        requires
            old(self)@.contains_key(*name),
        ensures
            (*c)@ == old(self)@[*name],
            final(self)@ == old(self)@.insert(*name, final(c)@),
    {
        match name {
            ComponentName::EnergyComponent => match &mut self.energy {
                Some(c) => c,
                None => vstd::pervasive::unreached(),
            },
            ComponentName::MineOutputComponent => match &mut self.mine_output {
                Some(c) => c,
                None => vstd::pervasive::unreached(),
            },
            ComponentName::ResourceStorageComponent => match &mut self.resource_storage {
                Some(c) => c,
                None => vstd::pervasive::unreached(),
            },
            ComponentName::CommodityStorageComponent => match &mut self.commodity_storage {
                Some(c) => c,
                None => vstd::pervasive::unreached(),
            },
            ComponentName::BatteryComponent => match &mut self.battery {
                Some(c) => c,
                None => vstd::pervasive::unreached(),
            },
            ComponentName::RefineryOutputComponent => match &mut self.refinery_output {
                Some(c) => c,
                None => vstd::pervasive::unreached(),
            },
            ComponentName::FactoryOutputComponent => match &mut self.factory_output {
                Some(c) => c,
                None => vstd::pervasive::unreached(),
            },
        }
    }

    /// Non-failing capability probe.
    pub fn has_component(&self, name: &ComponentName) -> (r: bool)
        ensures
            r == self@.contains_key(*name),
    {
        let r = match name {
            ComponentName::EnergyComponent => self.energy.is_some(),
            ComponentName::MineOutputComponent => self.mine_output.is_some(),
            ComponentName::ResourceStorageComponent => self.resource_storage.is_some(),
            ComponentName::CommodityStorageComponent => self.commodity_storage.is_some(),
            ComponentName::BatteryComponent => self.battery.is_some(),
            ComponentName::RefineryOutputComponent => self.refinery_output.is_some(),
            ComponentName::FactoryOutputComponent => self.factory_output.is_some(),
        };
        r
    }
}

impl EnergyTrait for StructureBlueprint {
    fn energy_in(&self) -> (r: u64) {
        match self.get_component(&ComponentName::EnergyComponent) {
            ComponentGroup::Energy { component } => component.energy_in,
            _ => 0,
        }
    }

    fn energy_out(&self) -> (r: u64) {
        match self.get_component(&ComponentName::EnergyComponent) {
            ComponentGroup::Energy { component } => component.energy_out,
            _ => 0,
        }
    }
}

impl BatteryTrait for StructureBlueprint {
    fn capacity(&self) -> (r: u64) {
        match self.get_component(&ComponentName::BatteryComponent) {
            ComponentGroup::Battery { component } => component.capacity,
            _ => 0,
        }
    }

    fn capacity_free(&self) -> (r: u64) {
        match self.get_component(&ComponentName::BatteryComponent) {
            ComponentGroup::Battery { component } => component.capacity - component.stored,
            _ => 0,
        }
    }

    fn stored(&self) -> (r: u64) {
        match self.get_component(&ComponentName::BatteryComponent) {
            ComponentGroup::Battery { component } => component.stored,
            _ => 0,
        }
    }

    fn charge(&mut self, amount: u64) -> (given: u64) {
        let c = self.get_component_mut(&ComponentName::BatteryComponent);
        match c {
            ComponentGroup::Battery { component } => {
                let free = component.capacity - component.stored;
                if free == 0 {
                    0
                } else if free <= amount {
                    component.stored = component.stored + free;
                    free
                } else {
                    component.stored = component.stored + amount;
                    amount
                }
            },
            _ => 0,
        }
    }

    fn discharge(&mut self, amount: u64) -> (got: u64) {
        let c = self.get_component_mut(&ComponentName::BatteryComponent);
        match c {
            ComponentGroup::Battery { component } => {
                if component.stored < amount {
                    let stored_available = component.stored;
                    component.stored = 0;
                    stored_available
                } else {
                    component.stored = component.stored - amount;
                    amount
                }
            },
            _ => 0,
        }
    }
}

impl MineOutputTrait for StructureBlueprint {
    fn resource_out(&self) -> (r: u64) {
        match self.get_component(&ComponentName::MineOutputComponent) {
            ComponentGroup::MineOutput { component } => component.resource_out,
            _ => 0,
        }
    }

    fn manufactured_out(&self) -> (r: u64) {
        match self.get_component(&ComponentName::MineOutputComponent) {
            ComponentGroup::MineOutput { component } => component.manufactured_out,
            _ => 0,
        }
    }
}

impl ResourceStorageTrait for StructureBlueprint {
    fn resource_known(&self, group: &Resource) -> (r: bool) {
        match self.get_component(&ComponentName::ResourceStorageComponent) {
            ComponentGroup::ResourceStorage { component } => component.knows(group),
            _ => vstd::pervasive::unreached(),
        }
    }

    fn capacity(&self, group: &Resource) -> (r: u64) {
        match self.get_component(&ComponentName::ResourceStorageComponent) {
            ComponentGroup::ResourceStorage { component } => component.capacity(group),
            _ => vstd::pervasive::unreached(),
        }
    }

    fn resource(&self, group: &Resource) -> (r: u64) {
        match self.get_component(&ComponentName::ResourceStorageComponent) {
            ComponentGroup::ResourceStorage { component } => component.resource(group),
            _ => vstd::pervasive::unreached(),
        }
    }

    fn resource_add(&mut self, group: &Resource, amount: u64) -> (accepted: u64) {
        let c = self.get_component_mut(&ComponentName::ResourceStorageComponent);
        match c {
            ComponentGroup::ResourceStorage { component } => {
                let free_capacity = component.capacity_free(group);
                let accepted: u64;
                if free_capacity == 0 {
                    accepted = 0;
                } else if amount <= free_capacity {
                    component.resource_add(group, amount);
                    accepted = amount;
                } else {
                    component.resource_add(group, free_capacity);
                    accepted = free_capacity;
                }
                proof {
                    assert(self@ =~~= old(self)@.insert(
                        ComponentName::ResourceStorageComponent,
                        ComponentModel::ResourceStorage {
                            component: StoreModel {
                                amt: resource_store_of(old(self)@).amt.update(
                                    group.idx_spec(),
                                    (resource_store_of(old(self)@).amt[group.idx_spec()]
                                        + accepted) as u64,
                                ),
                                ..resource_store_of(old(self)@)
                            },
                        },
                    ));
                }
                accepted
            },
            _ => vstd::pervasive::unreached(),
        }
    }

    fn resources(&self) -> (v: Vec<Resource>) {
        match self.get_component(&ComponentName::ResourceStorageComponent) {
            ComponentGroup::ResourceStorage { component } => {
                let v = component.resources();
                proof {
                    assert forall|r: Resource|
                        resource_store_of(self@).known[r.idx_spec()] implies #[trigger] v@.contains(
                        r,
                    ) by {
                        assert(component.knows_spec(r));
                    }
                }
                v
            },
            _ => vstd::pervasive::unreached(),
        }
    }
}

impl CommodityStorageTrait for StructureBlueprint {
    fn capacity(&self, group: &Commodity) -> (r: u64) {
        match self.get_component(&ComponentName::CommodityStorageComponent) {
            ComponentGroup::CommodityStorage { component } => component.capacity(group),
            _ => vstd::pervasive::unreached(),
        }
    }

    fn commodity(&self, group: &Commodity) -> (r: u64) {
        match self.get_component(&ComponentName::CommodityStorageComponent) {
            ComponentGroup::CommodityStorage { component } => component.commodity(group),
            _ => vstd::pervasive::unreached(),
        }
    }

    fn commodity_add(&mut self, group: &Commodity, amount: u64) -> (accepted: u64) {
        let c = self.get_component_mut(&ComponentName::CommodityStorageComponent);
        match c {
            ComponentGroup::CommodityStorage { component } => {
                let free_capacity = component.capacity_free(group);
                let accepted: u64;
                if free_capacity == 0 {
                    accepted = 0;
                } else if amount <= free_capacity {
                    component.commodity_add(group, amount);
                    accepted = amount;
                } else {
                    component.commodity_add(group, free_capacity);
                    accepted = free_capacity;
                }
                proof {
                    assert(self@ =~~= old(self)@.insert(
                        ComponentName::CommodityStorageComponent,
                        ComponentModel::CommodityStorage {
                            component: StoreModel {
                                amt: commodity_store_of(old(self)@).amt.update(
                                    group.idx_spec(),
                                    (commodity_store_of(old(self)@).amt[group.idx_spec()]
                                        + accepted) as u64,
                                ),
                                ..commodity_store_of(old(self)@)
                            },
                        },
                    ));
                }
                accepted
            },
            _ => vstd::pervasive::unreached(),
        }
    }

    fn commodities(&self) -> (v: Vec<Commodity>) {
        match self.get_component(&ComponentName::CommodityStorageComponent) {
            ComponentGroup::CommodityStorage { component } => {
                let v = component.commodities();
                proof {
                    assert forall|c: Commodity|
                        commodity_store_of(self@).known[c.idx_spec()] implies #[trigger] v@.contains(
                        c,
                    ) by {
                        assert(component.knows_spec(c));
                    }
                }
                v
            },
            _ => vstd::pervasive::unreached(),
        }
    }
}

/// Mathematical model of a placed structure: its kind, its blueprint,
/// and its identity data.
#[verifier::ext_equal]
pub enum StructureModel {
    Base { blueprint: BlueprintModel },
    PowerPlant { blueprint: BlueprintModel },
    Mine { blueprint: BlueprintModel, resource: Resource, manufactured: Manufactured },
    Storage { blueprint: BlueprintModel },
    Factory { blueprint: BlueprintModel, commodity: Commodity },
    Refinery { blueprint: BlueprintModel, resources: Seq<Manufactured> },
}

/// The blueprint of a structure model.
pub open spec fn bp_of(s: StructureModel) -> BlueprintModel {
    match s {
        StructureModel::Base { blueprint } => blueprint,
        StructureModel::PowerPlant { blueprint } => blueprint,
        StructureModel::Mine { blueprint, .. } => blueprint,
        StructureModel::Storage { blueprint } => blueprint,
        StructureModel::Factory { blueprint, .. } => blueprint,
        StructureModel::Refinery { blueprint, .. } => blueprint,
    }
}

/// The same structure model with its blueprint replaced.
pub open spec fn with_bp(s: StructureModel, bp: BlueprintModel) -> StructureModel {
    match s {
        StructureModel::Base { .. } => StructureModel::Base { blueprint: bp },
        StructureModel::PowerPlant { .. } => StructureModel::PowerPlant { blueprint: bp },
        StructureModel::Mine { resource, manufactured, .. } => StructureModel::Mine {
            blueprint: bp,
            resource,
            manufactured,
        },
        StructureModel::Storage { .. } => StructureModel::Storage { blueprint: bp },
        StructureModel::Factory { commodity, .. } => StructureModel::Factory {
            blueprint: bp,
            commodity,
        },
        StructureModel::Refinery { resources, .. } => StructureModel::Refinery {
            blueprint: bp,
            resources,
        },
    }
}

/// The kind of a structure model.
pub open spec fn group_of(s: StructureModel) -> StructureGroup {
    match s {
        StructureModel::Base { .. } => StructureGroup::Base,
        StructureModel::PowerPlant { .. } => StructureGroup::Power,
        StructureModel::Mine { .. } => StructureGroup::Mine,
        StructureModel::Storage { .. } => StructureGroup::Storage,
        StructureModel::Factory { .. } => StructureGroup::Factory,
        StructureModel::Refinery { .. } => StructureGroup::Refinery,
    }
}

/// A placed structure: one of the closed set of kinds, each wrapping its
/// blueprint.
pub enum Structure {
    Base { structure: Base },
    PowerPlant { structure: PowerPlant },
    Mine { structure: Mine },
    Refinery { structure: Refinery },
    Factory { structure: Factory },
    Storage { structure: Storage },
}

impl View for Structure {
    type V = StructureModel;

    open spec fn view(&self) -> StructureModel {
        match self {
            Structure::Base { structure } => StructureModel::Base { blueprint: structure@ },
            Structure::PowerPlant { structure } => StructureModel::PowerPlant {
                blueprint: structure@,
            },
            Structure::Mine { structure } => StructureModel::Mine {
                blueprint: structure@,
                resource: structure.resource_spec(),
                manufactured: structure.manufactured_spec(),
            },
            Structure::Refinery { structure } => StructureModel::Refinery {
                blueprint: structure@,
                resources: structure.resources_spec(),
            },
            Structure::Factory { structure } => StructureModel::Factory {
                blueprint: structure@,
                commodity: structure.commodity_spec(),
            },
            Structure::Storage { structure } => StructureModel::Storage { blueprint: structure@ },
        }
    }
}

/// The kind a structure belongs to.
pub trait StructureGroupTrait {
    spec fn spec_group(&self) -> StructureGroup;

    fn group(&self) -> (g: StructureGroup)
        ensures
            g == self.spec_group(),
    ;
}

impl StructureGroupTrait for Structure {
    open spec fn spec_group(&self) -> StructureGroup {
        group_of(self@)
    }

    fn group(&self) -> (g: StructureGroup) {
        match self {
            Structure::Base { .. } => StructureGroup::Base,
            Structure::PowerPlant { .. } => StructureGroup::Power,
            Structure::Mine { .. } => StructureGroup::Mine,
            Structure::Factory { .. } => StructureGroup::Factory,
            Structure::Refinery { .. } => StructureGroup::Refinery,
            Structure::Storage { .. } => StructureGroup::Storage,
        }
    }
}

/// The resource store every base and storage starts with: a slot of
/// capacity 1000 for every resource kind, all empty.
pub open spec fn full_resource_store() -> StoreModel {
    StoreModel {
        known: Seq::new(RESOURCE_COUNT as nat, |i: int| true),
        cap: Seq::new(RESOURCE_COUNT as nat, |i: int| 1000u64),
        amt: Seq::new(RESOURCE_COUNT as nat, |i: int| 0u64),
    }
}

/// The blueprint a fresh base is assembled with.
pub open spec fn base_blueprint() -> BlueprintModel {
    Map::empty().insert(
        ComponentName::EnergyComponent,
        ComponentModel::Energy { component: EnergyComponent { energy_in: 0, energy_out: 50 } },
    ).insert(
        ComponentName::BatteryComponent,
        ComponentModel::Battery { component: BatteryComponent { capacity: 1000, stored: 0 } },
    ).insert(
        ComponentName::ResourceStorageComponent,
        ComponentModel::ResourceStorage { component: full_resource_store() },
    )
}

// Base
pub struct Base {
    blueprint: StructureBlueprint,
}

impl View for Base {
    type V = BlueprintModel;

    closed spec fn view(&self) -> BlueprintModel {
        self.blueprint@
    }
}

impl Base {
    /// A base supplies 50 energy a tick, holds a battery of capacity
    /// 1000, and stores every resource kind.
    pub fn new() -> (b: Base)
        ensures
            b@ == base_blueprint(),
    {
        let energy_component = ComponentGroup::Energy {
            component: EnergyComponent { energy_out: 50, energy_in: 0 },
        };

        let battery_component = ComponentGroup::Battery {
            component: BatteryComponent { capacity: 1000, stored: 0 },
        };

        let storage_resources = Resource::all();
        let storage = ResourceStorageComponent::new(storage_resources);
        proof {
            assert forall|i: int| 0 <= i < RESOURCE_COUNT implies storage@.known[i] == true
                && storage@.cap[i] == 1000u64 && storage@.amt[i] == 0u64 by {
                crate::kinds::lemma_resource_idx_onto(i);
                let r = choose|r: Resource| (#[trigger] r.idx_spec()) == i;
                assert(storage_resources@.contains(r));
                assert(storage.knows_spec(r));
                assert(storage.cap_spec(r) == 1000);
                assert(storage.amt_spec(r) == 0);
            }
            assert(storage@ =~~= full_resource_store());
        }
        let storage_component = ComponentGroup::ResourceStorage { component: storage };

        let mut blueprint = StructureBlueprint::new();
        blueprint.add_component(ComponentName::EnergyComponent, energy_component);
        blueprint.add_component(ComponentName::BatteryComponent, battery_component);
        blueprint.add_component(ComponentName::ResourceStorageComponent, storage_component);

        proof {
            assert(blueprint@ =~~= base_blueprint());
        }
        Base { blueprint }
    }

    pub fn blueprint(&self) -> (b: &StructureBlueprint)
        ensures
            b@ == self@,
    {
        &self.blueprint
    }

    pub fn blueprint_mut(&mut self) -> (b: &mut StructureBlueprint)
        ensures
            (*b)@ == old(self)@,
            final(self)@ == final(b)@,
    {
        &mut self.blueprint
    }
}

/// The blueprint a fresh power plant is assembled with.
pub open spec fn power_plant_blueprint() -> BlueprintModel {
    Map::empty().insert(
        ComponentName::EnergyComponent,
        ComponentModel::Energy { component: EnergyComponent { energy_in: 0, energy_out: 100 } },
    )
}

// PowerPlant
pub struct PowerPlant {
    blueprint: StructureBlueprint,
}

impl View for PowerPlant {
    type V = BlueprintModel;

    closed spec fn view(&self) -> BlueprintModel {
        self.blueprint@
    }
}

impl PowerPlant {
    /// A power plant supplies 100 energy a tick and consumes nothing.
    pub fn new() -> (p: PowerPlant)
        ensures
            p@ == power_plant_blueprint(),
    {
        let energy_component = ComponentGroup::Energy {
            component: EnergyComponent { energy_out: 100, energy_in: 0 },
        };

        let mut blueprint = StructureBlueprint::new();
        blueprint.add_component(ComponentName::EnergyComponent, energy_component);

        proof {
            assert(blueprint@ =~~= power_plant_blueprint());
        }
        PowerPlant { blueprint }
    }

    pub fn blueprint(&self) -> (b: &StructureBlueprint)
        ensures
            b@ == self@,
    {
        &self.blueprint
    }

    pub fn blueprint_mut(&mut self) -> (b: &mut StructureBlueprint)
        ensures
            (*b)@ == old(self)@,
            final(self)@ == final(b)@,
    {
        &mut self.blueprint
    }
}

/// The blueprint a fresh mine is assembled with.
pub open spec fn mine_blueprint() -> BlueprintModel {
    Map::empty().insert(
        ComponentName::EnergyComponent,
        ComponentModel::Energy { component: EnergyComponent { energy_in: 25, energy_out: 0 } },
    ).insert(
        ComponentName::MineOutputComponent,
        ComponentModel::MineOutput {
            component: MineOutputComponent { resource_out: 1, manufactured_out: 1 },
        },
    )
}

// Mine
pub struct Mine {
    blueprint: StructureBlueprint,
    resource: Resource,
    manufactured: Manufactured,
}

impl View for Mine {
    type V = BlueprintModel;

    closed spec fn view(&self) -> BlueprintModel {
        self.blueprint@
    }
}

impl Mine {
    /// The resource kind this mine extracts.
    pub closed spec fn resource_spec(&self) -> Resource {
        self.resource
    }

    /// The manufactured kind this mine is tagged with.
    pub closed spec fn manufactured_spec(&self) -> Manufactured {
        self.manufactured
    }

    /// A mine needs 25 energy a tick and yields 1 unit of its assigned
    /// resource.
    pub fn new(resource: Resource) -> (m: Mine)
        ensures
            m@ == mine_blueprint(),
            m.resource_spec() == resource,
            m.manufactured_spec() == Manufactured::Gravel,
    {
        let energy_component = ComponentGroup::Energy {
            component: EnergyComponent { energy_out: 0, energy_in: 25 },
        };

        let resource_component = ComponentGroup::MineOutput {
            component: MineOutputComponent { resource_out: 1, manufactured_out: 1 },
        };

        let mut blueprint = StructureBlueprint::new();
        blueprint.add_component(ComponentName::EnergyComponent, energy_component);
        blueprint.add_component(ComponentName::MineOutputComponent, resource_component);

        let manufactured = Manufactured::Gravel;

        proof {
            assert(blueprint@ =~~= mine_blueprint());
        }
        Mine { blueprint, resource, manufactured }
    }

    pub fn blueprint(&self) -> (b: &StructureBlueprint)
        ensures
            b@ == self@,
    {
        &self.blueprint
    }

    pub fn blueprint_mut(&mut self) -> (b: &mut StructureBlueprint)
        ensures
            (*b)@ == old(self)@,
            final(self)@ == final(b)@,
            final(self).resource_spec() == old(self).resource_spec(),
            final(self).manufactured_spec() == old(self).manufactured_spec(),
    {
        &mut self.blueprint
    }

    pub fn resource(&self) -> (r: &Resource)
        ensures
            *r == self.resource_spec(),
    {
        &self.resource
    }

    pub fn manufactured(&self) -> (m: &Manufactured)
        ensures
            *m == self.manufactured_spec(),
    {
        &self.manufactured
    }
}

// Storage
pub struct Storage {
    blueprint: StructureBlueprint,
}

impl View for Storage {
    type V = BlueprintModel;

    closed spec fn view(&self) -> BlueprintModel {
        self.blueprint@
    }
}

impl Storage {
    /// A storage holds a resource store and a commodity store, one slot
    /// of capacity 1000 per kind given, all starting empty.
    pub fn new(resources: Vec<Resource>, commodities: Vec<Commodity>) -> (s: Storage)
        ensures
            s@.dom() =~= set![
                ComponentName::ResourceStorageComponent,
                ComponentName::CommodityStorageComponent,
            ],
            has_resource_store(s@),
            has_commodity_store(s@),
            resource_store_of(s@).wf(RESOURCE_COUNT as int),
            commodity_store_of(s@).wf(COMMODITY_COUNT as int),
            forall|r: Resource| #[trigger]
                resource_store_of(s@).known[r.idx_spec()] <==> resources@.contains(r),
            forall|r: Resource|
                resources@.contains(r) ==> #[trigger] resource_store_of(s@).cap[r.idx_spec()]
                    == 1000,
            forall|r: Resource| #[trigger] resource_store_of(s@).amt[r.idx_spec()] == 0,
            forall|c: Commodity| #[trigger]
                commodity_store_of(s@).known[c.idx_spec()] <==> commodities@.contains(c),
            forall|c: Commodity|
                commodities@.contains(c) ==> #[trigger] commodity_store_of(s@).cap[c.idx_spec()]
                    == 1000,
            forall|c: Commodity| #[trigger] commodity_store_of(s@).amt[c.idx_spec()] == 0,
    {
        let resource_store = ResourceStorageComponent::new(resources);
        let ghost rstore = resource_store;
        let resource_storage_component = ComponentGroup::ResourceStorage {
            component: resource_store,
        };

        let commodity_store = CommodityStorageComponent::new(commodities);
        let ghost cstore = commodity_store;
        let commodity_storage_component = ComponentGroup::CommodityStorage {
            component: commodity_store,
        };

        let mut blueprint = StructureBlueprint::new();

        blueprint.add_component(
            ComponentName::ResourceStorageComponent,
            resource_storage_component,
        );

        blueprint.add_component(
            ComponentName::CommodityStorageComponent,
            commodity_storage_component,
        );

        proof {
            assert(has_resource_store(blueprint@));
            assert(has_commodity_store(blueprint@));
            assert(resource_store_of(blueprint@) == rstore@);
            assert(commodity_store_of(blueprint@) == cstore@);
            assert(blueprint@.dom() =~= set![
                ComponentName::ResourceStorageComponent,
                ComponentName::CommodityStorageComponent,
            ]);
            assert forall|r: Resource| #[trigger]
                resource_store_of(blueprint@).known[r.idx_spec()] <==> resources@.contains(r) by {
                assert(rstore.knows_spec(r) <==> resources@.contains(r));
            }
            assert forall|r: Resource| resources@.contains(r) implies #[trigger] resource_store_of(
                blueprint@,
            ).cap[r.idx_spec()] == 1000 by {
                assert(rstore.cap_spec(r) == 1000);
            }
            assert forall|r: Resource| #[trigger]
                resource_store_of(blueprint@).amt[r.idx_spec()] == 0 by {
                assert(rstore.amt_spec(r) == 0);
            }
            assert forall|c: Commodity| #[trigger]
                commodity_store_of(blueprint@).known[c.idx_spec()] <==> commodities@.contains(
                c,
            ) by {
                assert(cstore.knows_spec(c) <==> commodities@.contains(c));
            }
            assert forall|c: Commodity| commodities@.contains(c) implies #[trigger]
                commodity_store_of(blueprint@).cap[c.idx_spec()] == 1000 by {
                assert(cstore.cap_spec(c) == 1000);
            }
            assert forall|c: Commodity| #[trigger]
                commodity_store_of(blueprint@).amt[c.idx_spec()] == 0 by {
                assert(cstore.amt_spec(c) == 0);
            }
        }
        Storage { blueprint }
    }

    pub fn blueprint(&self) -> (b: &StructureBlueprint)
        ensures
            b@ == self@,
    {
        &self.blueprint
    }

    pub fn blueprint_mut(&mut self) -> (b: &mut StructureBlueprint)
        ensures
            (*b)@ == old(self)@,
            final(self)@ == final(b)@,
    {
        &mut self.blueprint
    }
}

pub struct ResourceRequireFactory {}

impl ResourceRequireFactory {
    /// Energy needed to refine one unit of the given good.
    pub open spec fn energy_spec(resource: Manufactured) -> u64 {
        match resource {
            Manufactured::Silicon => 60,
            Manufactured::Food => 15,
            Manufactured::Steel => 45,
            Manufactured::BioPlastic => 70,
            Manufactured::Oxygen => 30,
            Manufactured::Gravel => 40,
            Manufactured::Hydrogen => 35,
            Manufactured::FuelPellet => 100,
        }
    }

    pub fn energy_for_manufactured(resource: &Manufactured) -> (r: u64)
        ensures
            r == Self::energy_spec(*resource),
    {
        match resource {
            Manufactured::Silicon => 60,
            Manufactured::Food => 15,
            Manufactured::Steel => 45,
            Manufactured::BioPlastic => 70,
            Manufactured::Oxygen => 30,
            Manufactured::Gravel => 40,
            Manufactured::Hydrogen => 35,
            Manufactured::FuelPellet => 100,
        }
    }

    /// Resources needed to refine one unit of the given good.
    pub open spec fn resources_spec(resource: Manufactured) -> Seq<(Resource, u64)> {
        match resource {
            Manufactured::Silicon => seq![(Resource::Silica, 5u64)],
            Manufactured::Food => seq![(Resource::Water, 5u64)],
            Manufactured::Steel => seq![(Resource::Iron, 3u64)],
            Manufactured::BioPlastic => seq![(Resource::Silica, 3u64), (Resource::Carbon, 7u64)],
            Manufactured::Oxygen => seq![(Resource::Water, 5u64)],
            Manufactured::Gravel => Seq::empty(),
            Manufactured::Hydrogen => seq![(Resource::Water, 10u64)],
            Manufactured::FuelPellet => seq![(Resource::Uranium, 3u64)],
        }
    }

    pub fn resources_for_manufactured(resource: &Manufactured) -> (v: Vec<(Resource, u64)>)
        ensures
            v@ == Self::resources_spec(*resource),
    {
        let mut requires_list: Vec<(Resource, u64)> = Vec::new();
        match resource {
            Manufactured::Silicon => requires_list.push((Resource::Silica, 5)),
            Manufactured::Food => requires_list.push((Resource::Water, 5)),
            Manufactured::Steel => requires_list.push((Resource::Iron, 3)),
            Manufactured::BioPlastic => {
                requires_list.push((Resource::Silica, 3));
                requires_list.push((Resource::Carbon, 7));
            },
            Manufactured::Oxygen => requires_list.push((Resource::Water, 5)),
            Manufactured::Gravel => {},
            Manufactured::Hydrogen => requires_list.push((Resource::Water, 10)),
            Manufactured::FuelPellet => requires_list.push((Resource::Uranium, 3)),
        }
        proof {
            assert(requires_list@ =~= Self::resources_spec(*resource));
        }
        requires_list
    }
}

pub struct CommodityRequireFactory {}

impl CommodityRequireFactory {
    /// Energy needed to manufacture one unit of the given commodity.
    pub open spec fn energy_spec(commodity: Commodity) -> u64 {
        match commodity {
            Commodity::Concrete => 45,
            Commodity::Fuel => 20,
            Commodity::Semiconductor => 40,
            Commodity::Glass => 120,
            Commodity::FuelRod => 200,
        }
    }

    pub fn energy_for_commodity(commodity: &Commodity) -> (r: u64)
        ensures
            r == Self::energy_spec(*commodity),
    {
        match commodity {
            Commodity::Concrete => 45,
            Commodity::Fuel => 20,
            Commodity::Semiconductor => 40,
            Commodity::Glass => 120,
            Commodity::FuelRod => 200,
        }
    }

    /// Resources needed to manufacture one unit of the given commodity.
    pub open spec fn resources_spec(commodity: Commodity) -> Seq<(Resource, u64)> {
        match commodity {
            Commodity::Concrete => seq![(Resource::Silica, 15u64)],
            Commodity::Fuel => seq![(Resource::Water, 35u64)],
            Commodity::Semiconductor => seq![
                (Resource::Aluminum, 5u64),
                (Resource::Carbon, 10u64),
                (Resource::Silica, 25u64),
            ],
            Commodity::Glass => seq![(Resource::Silica, 50u64)],
            Commodity::FuelRod => seq![(Resource::Uranium, 50u64)],
        }
    }

    pub fn resources_for_commodity(commodity: &Commodity) -> (v: Vec<(Resource, u64)>)
        ensures
            v@ == Self::resources_spec(*commodity),
    {
        let mut requires_list: Vec<(Resource, u64)> = Vec::new();
        match commodity {
            Commodity::Concrete => requires_list.push((Resource::Silica, 15)),
            Commodity::Fuel => requires_list.push((Resource::Water, 35)),
            Commodity::Semiconductor => {
                requires_list.push((Resource::Aluminum, 5));
                requires_list.push((Resource::Carbon, 10));
                requires_list.push((Resource::Silica, 25));
            },
            Commodity::Glass => requires_list.push((Resource::Silica, 50)),
            Commodity::FuelRod => requires_list.push((Resource::Uranium, 50)),
        }
        proof {
            assert(requires_list@ =~= Self::resources_spec(*commodity));
        }
        requires_list
    }
}

/// The blueprint a fresh factory for the given commodity is assembled
/// with.
pub open spec fn factory_blueprint(c: Commodity) -> BlueprintModel {
    Map::empty().insert(
        ComponentName::EnergyComponent,
        ComponentModel::Energy { component: EnergyComponent { energy_in: 20, energy_out: 0 } },
    ).insert(
        ComponentName::FactoryOutputComponent,
        ComponentModel::FactoryOutput {
            component: RecipeModel {
                commodity_out: 1,
                energy_required: CommodityRequireFactory::energy_spec(c),
                resource_required: CommodityRequireFactory::resources_spec(c),
            },
        },
    )
}

// Factory
pub struct Factory {
    blueprint: StructureBlueprint,
    commodity: Commodity,
}

impl View for Factory {
    type V = BlueprintModel;

    closed spec fn view(&self) -> BlueprintModel {
        self.blueprint@
    }
}

impl Factory {
    /// The commodity kind this factory yields.
    pub closed spec fn commodity_spec(&self) -> Commodity {
        self.commodity
    }

    /// A factory carries the all-or-nothing recipe for its assigned
    /// commodity: the table energy and resources in, one unit out.
    pub fn new(commodity: Commodity) -> (f: Factory)
        ensures
            f@ == factory_blueprint(commodity),
            f.commodity_spec() == commodity,
    {
        let energy_component = ComponentGroup::Energy {
            component: EnergyComponent { energy_out: 0, energy_in: 20 },
        };

        let energy_required = CommodityRequireFactory::energy_for_commodity(&commodity);
        let resource_required = CommodityRequireFactory::resources_for_commodity(&commodity);

        let commodity_component = ComponentGroup::FactoryOutput {
            component: FactoryOutputComponent {
                commodity_out: 1,
                energy_required,
                resource_required,
            },
        };

        let mut blueprint = StructureBlueprint::new();
        blueprint.add_component(ComponentName::EnergyComponent, energy_component);
        blueprint.add_component(ComponentName::FactoryOutputComponent, commodity_component);

        proof {
            assert(blueprint@ =~~= factory_blueprint(commodity));
        }
        Factory { blueprint, commodity }
    }

    pub fn blueprint(&self) -> (b: &StructureBlueprint)
        ensures
            b@ == self@,
    {
        &self.blueprint
    }

    pub fn blueprint_mut(&mut self) -> (b: &mut StructureBlueprint)
        ensures
            (*b)@ == old(self)@,
            final(self)@ == final(b)@,
            final(self).commodity_spec() == old(self).commodity_spec(),
    {
        &mut self.blueprint
    }

    pub fn commodity(&self) -> (c: &Commodity)
        ensures
            *c == self.commodity_spec(),
    {
        &self.commodity
    }
}

/// The blueprint a fresh refinery for the given goods is assembled with.
pub open spec fn refinery_blueprint(rs: Seq<Manufactured>) -> BlueprintModel {
    Map::empty().insert(
        ComponentName::EnergyComponent,
        ComponentModel::Energy { component: EnergyComponent { energy_in: 50, energy_out: 0 } },
    ).insert(
        ComponentName::RefineryOutputComponent,
        ComponentModel::RefineryOutput {
            component: RefineryModel {
                manufactured_out: rs.map_values(|m: Manufactured| (m, 1u64)),
                energy_required: rs.map_values(
                    |m: Manufactured| (m, ResourceRequireFactory::energy_spec(m)),
                ),
                resource_required: rs.map_values(
                    |m: Manufactured| (m, ResourceRequireFactory::resources_spec(m)),
                ),
            },
        },
    )
}

// Refinery
pub struct Refinery {
    blueprint: StructureBlueprint,
    resources: Vec<Manufactured>,
}

impl View for Refinery {
    type V = BlueprintModel;

    closed spec fn view(&self) -> BlueprintModel {
        self.blueprint@
    }
}

impl Refinery {
    /// The goods this refinery is set up to yield.
    pub closed spec fn resources_spec(&self) -> Seq<Manufactured> {
        self.resources@
    }

    /// A refinery needs 50 energy a tick and carries the per-good
    /// refining tables for the goods it was set up with.
    pub fn new(resources: Vec<Manufactured>) -> (r: Refinery)
        ensures
            r@ == refinery_blueprint(resources@),
            r.resources_spec() == resources@,
    {
        let energy_component = ComponentGroup::Energy {
            component: EnergyComponent { energy_out: 0, energy_in: 50 },
        };

        let mut manufactured_out: Vec<(Manufactured, u64)> = Vec::new();
        let mut energy_required: Vec<(Manufactured, u64)> = Vec::new();
        let mut resource_required: Vec<(Manufactured, Vec<(Resource, u64)>)> = Vec::new();

        let mut i: usize = 0;
        while i < resources.len()
            invariant
                i <= resources@.len(),
                manufactured_out@ == resources@.take(i as int).map_values(
                    |m: Manufactured| (m, 1u64),
                ),
                energy_required@ == resources@.take(i as int).map_values(
                    |m: Manufactured| (m, ResourceRequireFactory::energy_spec(m)),
                ),
                resource_required@.len() == i,
                forall|k: int|
                    0 <= k < i ==> (#[trigger] resource_required@[k]).0 == resources@[k]
                        && resource_required@[k].1@ == ResourceRequireFactory::resources_spec(
                        resources@[k],
                    ),
            decreases resources@.len() - i,
        {
            let resource = resources[i];
            manufactured_out.push((resource, 1));
            energy_required.push((resource, ResourceRequireFactory::energy_for_manufactured(
                &resource,
            )));
            resource_required.push((resource, ResourceRequireFactory::resources_for_manufactured(
                &resource,
            )));
            proof {
                assert(resources@.take(i + 1) =~= resources@.take(i as int).push(
                    resources@[i as int],
                ));
                assert(manufactured_out@ =~= resources@.take(i + 1).map_values(
                    |m: Manufactured| (m, 1u64),
                ));
                assert(energy_required@ =~= resources@.take(i + 1).map_values(
                    |m: Manufactured| (m, ResourceRequireFactory::energy_spec(m)),
                ));
            }
            i = i + 1;
        }
        proof {
            assert(resources@.take(resources@.len() as int) =~= resources@);
        }

        let commodity_component = ComponentGroup::RefineryOutput {
            component: RefineryOutputComponent {
                manufactured_out,
                energy_required,
                resource_required,
            },
        };

        let mut blueprint = StructureBlueprint::new();
        blueprint.add_component(ComponentName::EnergyComponent, energy_component);
        blueprint.add_component(ComponentName::RefineryOutputComponent, commodity_component);

        proof {
            assert(blueprint@ =~~= refinery_blueprint(resources@));
        }
        Refinery { blueprint, resources }
    }

    pub fn blueprint(&self) -> (b: &StructureBlueprint)
        ensures
            b@ == self@,
    {
        &self.blueprint
    }

    pub fn blueprint_mut(&mut self) -> (b: &mut StructureBlueprint)
        ensures
            (*b)@ == old(self)@,
            final(self)@ == final(b)@,
            final(self).resources_spec() == old(self).resources_spec(),
    {
        &mut self.blueprint
    }

    pub fn resources(&self) -> (v: &Vec<Manufactured>)
        ensures
            v@ == self.resources_spec(),
    {
        &self.resources
    }
}

/// The commodity store every fresh storage covers: a slot of capacity
/// 1000 for every commodity kind, all empty.
pub open spec fn full_commodity_store() -> StoreModel {
    StoreModel {
        known: Seq::new(COMMODITY_COUNT as nat, |i: int| true),
        cap: Seq::new(COMMODITY_COUNT as nat, |i: int| 1000u64),
        amt: Seq::new(COMMODITY_COUNT as nat, |i: int| 0u64),
    }
}

/// Whether a tile can take a structure of the given kind.
pub open spec fn allowed_spec(group: StructureGroup, tile: crate::game::MapTile) -> bool {
    match group {
        StructureGroup::Base => !tile.is_resource && (tile.flora == crate::game::Flora::Sand
            || tile.flora == crate::game::Flora::Grass),
        StructureGroup::Power => !tile.is_resource && (tile.flora == crate::game::Flora::Sand
            || tile.flora == crate::game::Flora::Water),
        StructureGroup::Mine => tile.is_resource,
        StructureGroup::Storage => !tile.is_resource && (tile.flora == crate::game::Flora::Sand
            || tile.flora == crate::game::Flora::Grass),
        StructureGroup::Factory => !tile.is_resource && (tile.flora == crate::game::Flora::Grass
            || tile.flora == crate::game::Flora::Dirt),
        StructureGroup::Refinery => !tile.is_resource && (tile.flora == crate::game::Flora::Sand
            || tile.flora == crate::game::Flora::Dirt || tile.flora == crate::game::Flora::Grass),
    }
}

pub struct StructureFactory {}

impl StructureFactory {
    /// Assemble a structure of the given kind.  A mine takes the
    /// resource chosen for it and must stand on a deposit; a factory
    /// takes the commodity chosen for it; a storage covers every kind
    /// the material account covers.
    pub fn new(
        group: &StructureGroup,
        object: Option<&crate::game::MapObject>,
        resource_manager: &crate::managers::ResourceManager,
        mine_resource: Resource,
        commodity: Commodity,
    ) -> (r: Option<Structure>)
        requires
            *group == StructureGroup::Mine ==> object is Some && object->0.resource is Some,
        ensures
            r is Some,
            *group == StructureGroup::Base ==> r->0@ == (StructureModel::Base {
                blueprint: base_blueprint(),
            }),
            *group == StructureGroup::Power ==> r->0@ == (StructureModel::PowerPlant {
                blueprint: power_plant_blueprint(),
            }),
            *group == StructureGroup::Mine ==> r->0@ == (StructureModel::Mine {
                blueprint: mine_blueprint(),
                resource: mine_resource,
                manufactured: Manufactured::Gravel,
            }),
            *group == StructureGroup::Refinery ==> r->0@ == (StructureModel::Refinery {
                blueprint: refinery_blueprint(
                    seq![Manufactured::Hydrogen, Manufactured::Oxygen],
                ),
                resources: seq![Manufactured::Hydrogen, Manufactured::Oxygen],
            }),
            *group == StructureGroup::Factory ==> r->0@ == (StructureModel::Factory {
                blueprint: factory_blueprint(commodity),
                commodity,
            }),
            *group == StructureGroup::Storage ==> (r->0@ matches StructureModel::Storage {
                blueprint,
            } && has_resource_store(blueprint) && resource_store_of(blueprint)
                == full_resource_store() && has_commodity_store(blueprint) && commodity_store_of(
                blueprint,
            ) == full_commodity_store()),
    {
        match group {
            StructureGroup::Base => {
                let structure = Structure::Base { structure: Base::new() };
                Some(structure)
            },
            StructureGroup::Power => {
                let structure = Structure::PowerPlant { structure: PowerPlant::new() };
                Some(structure)
            },
            StructureGroup::Mine => {
                let structure = Structure::Mine { structure: Mine::new(mine_resource) };
                Some(structure)
            },
            StructureGroup::Refinery => {
                let goods = vec![Manufactured::Hydrogen, Manufactured::Oxygen];
                proof {
                    assert(goods@ =~= seq![Manufactured::Hydrogen, Manufactured::Oxygen]);
                }
                let structure = Structure::Refinery { structure: Refinery::new(goods) };
                Some(structure)
            },
            StructureGroup::Factory => {
                let structure = Structure::Factory { structure: Factory::new(commodity) };
                Some(structure)
            },
            StructureGroup::Storage => {
                let storage = Storage::new(
                    resource_manager.resource_types(),
                    resource_manager.commodity_types(),
                );
                proof {
                    assert forall|i: int|
                        0 <= i < RESOURCE_COUNT implies resource_store_of(storage@).known[i]
                        == true && resource_store_of(storage@).cap[i] == 1000u64
                        && resource_store_of(storage@).amt[i] == 0u64 by {
                        crate::kinds::lemma_resource_idx_onto(i);
                        let rr = choose|rr: Resource| (#[trigger] rr.idx_spec()) == i;
                    }
                    assert(resource_store_of(storage@) =~~= full_resource_store());
                    assert forall|i: int|
                        0 <= i < COMMODITY_COUNT implies commodity_store_of(storage@).known[i]
                        == true && commodity_store_of(storage@).cap[i] == 1000u64
                        && commodity_store_of(storage@).amt[i] == 0u64 by {
                        crate::kinds::lemma_commodity_idx_onto(i);
                        let cc = choose|cc: Commodity| (#[trigger] cc.idx_spec()) == i;
                    }
                    assert(commodity_store_of(storage@) =~~= full_commodity_store());
                }
                let structure = Structure::Storage { structure: storage };
                Some(structure)
            },
        }
    }

    /// Whether a tile can take a structure of the given kind: mines need
    /// a deposit; everything else needs suitable, deposit-free ground.
    pub fn allowed(group: &StructureGroup, tile: &crate::game::MapTile) -> (r: bool)
        ensures
            r == allowed_spec(*group, *tile),
    {
        match group {
            StructureGroup::Base => {
                !tile.is_resource && (tile.flora == crate::game::Flora::Sand || tile.flora
                    == crate::game::Flora::Grass)
            },
            StructureGroup::Power => {
                !tile.is_resource && (tile.flora == crate::game::Flora::Sand || tile.flora
                    == crate::game::Flora::Water)
            },
            StructureGroup::Mine => tile.is_resource,
            StructureGroup::Storage => {
                !tile.is_resource && (tile.flora == crate::game::Flora::Sand || tile.flora
                    == crate::game::Flora::Grass)
            },
            StructureGroup::Factory => {
                !tile.is_resource && (tile.flora == crate::game::Flora::Grass || tile.flora
                    == crate::game::Flora::Dirt)
            },
            StructureGroup::Refinery => {
                !tile.is_resource && (tile.flora == crate::game::Flora::Sand || tile.flora
                    == crate::game::Flora::Dirt || tile.flora == crate::game::Flora::Grass)
            },
        }
    }
}

} // verus!
