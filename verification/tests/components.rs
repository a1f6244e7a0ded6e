use colony_engine::component::{
    BatteryComponent, CommodityStorageComponent, ComponentGroup, ComponentName, EnergyComponent,
    ResourceStorageComponent,
};
use colony_engine::game::{Flora, MapObject, MapTile, MapTileFactory, ObjectManager, Position};
use colony_engine::kinds::{Commodity, Manufactured, Resource};
use colony_engine::managers::ResourceManager;
use colony_engine::structures::{
    Base, BatteryTrait, CommodityStorageTrait, EnergyTrait, Factory, Mine, PowerPlant, Refinery,
    ResourceStorageTrait, Storage, Structure, StructureBlueprint, StructureFactory, StructureGroup,
};

#[test]
fn resource_storage_tracks_its_kinds() {
    let store = ResourceStorageComponent::new(vec![Resource::Iron, Resource::Water]);
    assert!(store.knows(&Resource::Iron));
    assert!(store.knows(&Resource::Water));
    assert!(!store.knows(&Resource::Carbon));
    assert_eq!(store.capacity(&Resource::Iron), 1000);
    assert_eq!(store.resource(&Resource::Iron), 0);
    assert_eq!(store.capacity_free(&Resource::Iron), 1000);
}

#[test]
fn resource_storage_mutation() {
    let mut store = ResourceStorageComponent::new(vec![Resource::Iron]);
    store.resource_add(&Resource::Iron, 250);
    assert_eq!(store.resource(&Resource::Iron), 250);
    assert_eq!(store.capacity_free(&Resource::Iron), 750);
    let slot = store.resource_mut(&Resource::Iron);
    *slot = 400;
    assert_eq!(store.resource(&Resource::Iron), 400);
    let kinds = store.resources();
    assert_eq!(kinds, vec![Resource::Iron]);
}

#[test]
fn commodity_storage_tracks_its_kinds() {
    let mut store = CommodityStorageComponent::new(vec![Commodity::Fuel, Commodity::Glass]);
    assert_eq!(store.capacity(&Commodity::Fuel), 1000);
    store.commodity_add(&Commodity::Fuel, 10);
    assert_eq!(store.commodity(&Commodity::Fuel), 10);
    let slot = store.commodity_mut(&Commodity::Fuel);
    *slot = 25;
    assert_eq!(store.commodity(&Commodity::Fuel), 25);
    assert_eq!(store.commodities(), vec![Commodity::Fuel, Commodity::Glass]);
}

#[test]
fn blueprint_add_get_has() {
    let mut blueprint = StructureBlueprint::new();
    assert!(!blueprint.has_component(&ComponentName::EnergyComponent));
    blueprint.add_component(
        ComponentName::EnergyComponent,
        ComponentGroup::Energy { component: EnergyComponent { energy_in: 5, energy_out: 9 } },
    );
    assert!(blueprint.has_component(&ComponentName::EnergyComponent));
    match blueprint.get_component(&ComponentName::EnergyComponent) {
        ComponentGroup::Energy { component } => {
            assert_eq!(component.energy_in, 5);
            assert_eq!(component.energy_out, 9);
        }
        _ => panic!("expected the energy component"),
    }
    assert_eq!(blueprint.energy_in(), 5);
    assert_eq!(blueprint.energy_out(), 9);
    match blueprint.get_component_mut(&ComponentName::EnergyComponent) {
        ComponentGroup::Energy { component } => component.energy_out = 11,
        _ => panic!("expected the energy component"),
    }
    assert_eq!(blueprint.energy_out(), 11);
}

#[test]
fn battery_charge_clamps_to_capacity() {
    let mut blueprint = StructureBlueprint::new();
    blueprint.add_component(
        ComponentName::BatteryComponent,
        ComponentGroup::Battery { component: BatteryComponent { capacity: 100, stored: 0 } },
    );
    assert_eq!(BatteryTrait::capacity(&blueprint), 100);
    assert_eq!(BatteryTrait::charge(&mut blueprint, 60), 60);
    assert_eq!(BatteryTrait::stored(&blueprint), 60);
    assert_eq!(BatteryTrait::charge(&mut blueprint, 60), 40);
    assert_eq!(BatteryTrait::stored(&blueprint), 100);
    assert_eq!(BatteryTrait::capacity_free(&blueprint), 0);
    assert_eq!(BatteryTrait::charge(&mut blueprint, 5), 0);
}

#[test]
fn battery_discharge_clamps_to_stored() {
    let mut blueprint = StructureBlueprint::new();
    blueprint.add_component(
        ComponentName::BatteryComponent,
        ComponentGroup::Battery { component: BatteryComponent { capacity: 100, stored: 30 } },
    );
    assert_eq!(BatteryTrait::discharge(&mut blueprint, 10), 10);
    assert_eq!(BatteryTrait::stored(&blueprint), 20);
    assert_eq!(BatteryTrait::discharge(&mut blueprint, 50), 20);
    assert_eq!(BatteryTrait::stored(&blueprint), 0);
}

#[test]
fn storage_add_clamps_and_reports_accepted() {
    let mut storage = Storage::new(vec![Resource::Iron], vec![Commodity::Fuel]);
    let accepted = ResourceStorageTrait::resource_add(storage.blueprint_mut(), &Resource::Iron, 700);
    assert_eq!(accepted, 700);
    let accepted = ResourceStorageTrait::resource_add(storage.blueprint_mut(), &Resource::Iron, 700);
    assert_eq!(accepted, 300);
    assert_eq!(ResourceStorageTrait::resource(storage.blueprint(), &Resource::Iron), 1000);
    let accepted = CommodityStorageTrait::commodity_add(storage.blueprint_mut(), &Commodity::Fuel, 1200);
    assert_eq!(accepted, 1000);
    assert_eq!(CommodityStorageTrait::commodity(storage.blueprint(), &Commodity::Fuel), 1000);
}

#[test]
fn structure_constructors_assemble_the_right_components() {
    let base = Base::new();
    assert!(base.blueprint().has_component(&ComponentName::EnergyComponent));
    assert!(base.blueprint().has_component(&ComponentName::BatteryComponent));
    assert!(base.blueprint().has_component(&ComponentName::ResourceStorageComponent));
    assert_eq!(base.blueprint().energy_out(), 50);
    assert_eq!(BatteryTrait::capacity(base.blueprint()), 1000);

    let mine = Mine::new(Resource::Uranium);
    assert_eq!(mine.blueprint().energy_in(), 25);
    assert_eq!(*mine.resource(), Resource::Uranium);
    assert_eq!(*mine.manufactured(), Manufactured::Gravel);

    let factory = Factory::new(Commodity::Glass);
    assert_eq!(*factory.commodity(), Commodity::Glass);
    assert_eq!(factory.blueprint().energy_in(), 20);
    match factory.blueprint().get_component(&ComponentName::FactoryOutputComponent) {
        ComponentGroup::FactoryOutput { component } => {
            assert_eq!(component.commodity_out, 1);
            assert_eq!(component.energy_required, 120);
            assert_eq!(component.resources(), &vec![(Resource::Silica, 50)]);
        }
        _ => panic!("expected the factory output component"),
    }
}

#[test]
fn refinery_energy_table() {
    let refinery = Refinery::new(vec![Manufactured::Hydrogen, Manufactured::Oxygen]);
    assert_eq!(refinery.blueprint().energy_in(), 50);
    assert_eq!(refinery.resources(), &vec![Manufactured::Hydrogen, Manufactured::Oxygen]);
    match refinery.blueprint().get_component(&ComponentName::RefineryOutputComponent) {
        ComponentGroup::RefineryOutput { component } => {
            // Hydrogen refining needs 35 energy, oxygen 30.
            assert_eq!(component.resource_required_sum(), 65);
            assert_eq!(component.resources().len(), 2);
        }
        _ => panic!("expected the refinery output component"),
    }
}

#[test]
fn material_ledger_primitives() {
    let mut ledger = ResourceManager::new(
        vec![Resource::Iron, Resource::Water],
        vec![Commodity::Fuel],
    );
    assert_eq!(ledger.deposit_resource(&Resource::Iron, 40), 40);
    assert_eq!(ledger.deposit_resource(&Resource::Iron, 2), 42);
    // Strictly greater-than: 42 covers a demand of 41, not of 42.
    assert!(ledger.has_resource(&Resource::Iron, 41));
    assert!(!ledger.has_resource(&Resource::Iron, 42));
    assert_eq!(ledger.withdraw_resource(&Resource::Iron, 50), 42);
    assert_eq!(ledger.resources()[Resource::Iron.idx()], 0);
    assert_eq!(ledger.deposit_commodity(&Commodity::Fuel, 7), 7);
    assert_eq!(ledger.withdraw_commodity(&Commodity::Fuel, 3), 3);
    assert_eq!(ledger.commodities()[Commodity::Fuel.idx()], 4);
    ledger.add_resource_deficit(&Resource::Water, 9);
    assert_eq!(ledger.get_resource_deficit(&Resource::Water), 9);
    ledger.add_commodity_deficit(&Commodity::Fuel, 2);
    assert_eq!(ledger.get_commodity_deficit(&Commodity::Fuel), 2);
    ledger.zero_deficit();
    assert_eq!(ledger.get_resource_deficit(&Resource::Water), 0);
    assert_eq!(ledger.get_commodity_deficit(&Commodity::Fuel), 0);
    let types = ledger.resource_types();
    assert_eq!(types.len(), 6);
    assert_eq!(ledger.commodity_types().len(), 5);
}

#[test]
fn object_registry_set_get_remove() {
    let mut objects = ObjectManager::new();
    let position = Position::new(3, 4);
    assert!(objects.get(&position).is_none());
    let prev = objects.set(
        position,
        MapObject { resource: None, structure: Some(Structure::Base { structure: Base::new() }) },
    );
    assert!(prev.is_none());
    assert_eq!(objects.count(), 1);
    assert!(objects.get(&position).is_some());
    let replaced = objects.set(
        position,
        MapObject { resource: None, structure: Some(Structure::PowerPlant { structure: PowerPlant::new() }) },
    );
    assert!(replaced.is_some());
    assert_eq!(objects.count(), 1);
    let removed = objects.remove(&position);
    assert!(removed.is_some());
    assert_eq!(objects.count(), 0);
    assert!(objects.remove(&position).is_none());
}

#[test]
fn registry_mutable_access() {
    let mut objects = ObjectManager::new();
    let position = Position::new(0, 0);
    objects.set(
        position,
        MapObject { resource: None, structure: Some(Structure::Base { structure: Base::new() }) },
    );
    if let Some(object) = objects.get_mut(&position) {
        if let Some(Structure::Base { structure }) = object.structure.as_mut() {
            BatteryTrait::charge(structure.blueprint_mut(), 12);
        }
    }
    match objects.get(&position).unwrap().structure.as_ref().unwrap() {
        Structure::Base { structure } => {
            assert_eq!(BatteryTrait::stored(structure.blueprint()), 12);
        }
        _ => panic!("expected a base"),
    }
    assert_eq!(objects.list().len(), 1);
}

#[test]
fn build_rules_follow_the_ground() {
    let grass = MapTileFactory::new(Flora::Grass);
    assert!(StructureFactory::allowed(&StructureGroup::Base, &grass));
    assert!(StructureFactory::allowed(&StructureGroup::Factory, &grass));
    assert!(!StructureFactory::allowed(&StructureGroup::Power, &grass));
    assert!(!StructureFactory::allowed(&StructureGroup::Mine, &grass));

    let deposit = MapTile { flora: Flora::Rock, is_resource: true };
    assert!(StructureFactory::allowed(&StructureGroup::Mine, &deposit));
    assert!(!StructureFactory::allowed(&StructureGroup::Base, &deposit));

    let water = MapTileFactory::new(Flora::Water);
    assert!(StructureFactory::allowed(&StructureGroup::Power, &water));
    assert!(!StructureFactory::allowed(&StructureGroup::Storage, &water));
}

#[test]
fn structure_factory_assembles_each_kind() {
    let ledger = ResourceManager::new(vec![Resource::Iron], vec![Commodity::Fuel]);
    let deposit_object = MapObject {
        resource: Some(colony_engine::game::Resource {
            group: colony_engine::game::ResourceGroup::Metal,
            amount: 500,
        }),
        structure: None,
    };

    let built = StructureFactory::new(
        &StructureGroup::Mine,
        Some(&deposit_object),
        &ledger,
        Resource::Iron,
        Commodity::Fuel,
    );
    match built.unwrap() {
        Structure::Mine { structure } => assert_eq!(*structure.resource(), Resource::Iron),
        _ => panic!("expected a mine"),
    }

    let built = StructureFactory::new(
        &StructureGroup::Storage,
        None,
        &ledger,
        Resource::Iron,
        Commodity::Fuel,
    );
    match built.unwrap() {
        Structure::Storage { structure } => {
            assert_eq!(ResourceStorageTrait::capacity(structure.blueprint(), &Resource::Water), 1000);
        }
        _ => panic!("expected a storage"),
    }

    let built = StructureFactory::new(
        &StructureGroup::Factory,
        None,
        &ledger,
        Resource::Iron,
        Commodity::Fuel,
    );
    match built.unwrap() {
        Structure::Factory { structure } => assert_eq!(*structure.commodity(), Commodity::Fuel),
        _ => panic!("expected a factory"),
    }
}
