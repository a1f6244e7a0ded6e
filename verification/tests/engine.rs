use colony_engine::game::{MapObject, ObjectManager, Position};
use colony_engine::kinds::{Commodity, Resource};
use colony_engine::managers::EnergyManager;
use colony_engine::component::{ComponentGroup, ComponentName, MineOutputComponent};
use colony_engine::structures::{
    Base, BatteryTrait, Factory, Mine, PowerPlant, ResourceStorageTrait, Storage, Structure,
    StructureGroupTrait,
};
use colony_engine::tick::TickEngine;

fn place(objects: &mut ObjectManager, x: i16, y: i16, structure: Structure) {
    let object = MapObject { resource: None, structure: Some(structure) };
    objects.set(Position::new(x, y), object);
}

fn mine_with_yield(resource: Resource, resource_out: u64) -> Mine {
    let mut mine = Mine::new(resource);
    mine.blueprint_mut().add_component(
        ComponentName::MineOutputComponent,
        ComponentGroup::MineOutput {
            component: MineOutputComponent { resource_out, manufactured_out: 1 },
        },
    );
    mine
}

#[test]
fn scenario_powered_mine() {
    // One power plant (100 out) and one mine (25 in, 100 iron out).
    let mut objects = ObjectManager::new();
    place(&mut objects, 0, 0, Structure::PowerPlant { structure: PowerPlant::new() });
    place(&mut objects, 1, 0, Structure::Mine { structure: mine_with_yield(Resource::Iron, 100) });

    let mut engine = TickEngine::new();
    engine.run(&mut objects);

    assert_eq!(engine.energy().output(), 75);
    assert_eq!(engine.energy().deficit(), 0);
    assert_eq!(engine.resources().resources()[Resource::Iron.idx()], 100);
}

#[test]
fn scenario_unpowered_mine() {
    // The same mine with no power plant: it fully fails.
    let mut objects = ObjectManager::new();
    place(&mut objects, 1, 0, Structure::Mine { structure: mine_with_yield(Resource::Iron, 100) });

    let mut engine = TickEngine::new();
    engine.run(&mut objects);

    assert_eq!(engine.energy().deficit(), 25);
    assert_eq!(engine.resources().get_resource_deficit(&Resource::Iron), 100);
    assert_eq!(engine.resources().resources()[Resource::Iron.idx()], 0);
}

#[test]
fn scenario_base_charges_battery() {
    // One base alone: its 50 output ends up in its battery.
    let mut objects = ObjectManager::new();
    place(&mut objects, 0, 0, Structure::Base { structure: Base::new() });

    let mut engine = TickEngine::new();
    engine.run(&mut objects);

    assert_eq!(engine.energy().output(), 0);
    let object = objects.get(&Position::new(0, 0)).unwrap();
    match object.structure.as_ref().unwrap() {
        Structure::Base { structure } => {
            assert_eq!(BatteryTrait::stored(structure.blueprint()), 50);
        }
        _ => panic!("expected a base"),
    }
}

#[test]
fn scenario_storage_intake() {
    // Iron capacity 1000 against a global stock of 1500.
    let mut objects = ObjectManager::new();
    let storage = Storage::new(
        vec![
            Resource::Iron,
            Resource::Aluminum,
            Resource::Carbon,
            Resource::Silica,
            Resource::Uranium,
            Resource::Water,
        ],
        vec![
            Commodity::Concrete,
            Commodity::Semiconductor,
            Commodity::Fuel,
            Commodity::Glass,
            Commodity::FuelRod,
        ],
    );
    place(&mut objects, 2, 2, Structure::Storage { structure: storage });

    let mut engine = TickEngine::new();
    engine.resources_mut().deposit_resource(&Resource::Iron, 1500);
    engine.run(&mut objects);

    assert_eq!(engine.resources().resources()[Resource::Iron.idx()], 500);
    let object = objects.get(&Position::new(2, 2)).unwrap();
    match object.structure.as_ref().unwrap() {
        Structure::Storage { structure } => {
            assert_eq!(ResourceStorageTrait::resource(structure.blueprint(), &Resource::Iron), 1000);
        }
        _ => panic!("expected a storage"),
    }
}

#[test]
fn conservation_across_one_tick() {
    // Mine mints 100 iron; storage absorbs all of it; ledger ends empty,
    // and the total (stock + stored) equals what was minted.
    let mut objects = ObjectManager::new();
    place(&mut objects, 0, 0, Structure::PowerPlant { structure: PowerPlant::new() });
    place(&mut objects, 1, 0, Structure::Mine { structure: mine_with_yield(Resource::Iron, 100) });
    let storage = Storage::new(vec![Resource::Iron], vec![]);
    place(&mut objects, 2, 0, Structure::Storage { structure: storage });

    let mut engine = TickEngine::new();
    engine.run(&mut objects);

    let ledger_iron = engine.resources().resources()[Resource::Iron.idx()];
    let stored_iron = match objects.get(&Position::new(2, 0)).unwrap().structure.as_ref().unwrap() {
        Structure::Storage { structure } => {
            ResourceStorageTrait::resource(structure.blueprint(), &Resource::Iron)
        }
        _ => panic!("expected a storage"),
    };
    assert_eq!(ledger_iron + stored_iron, 100);
    assert_eq!(ledger_iron, 0);
    assert_eq!(stored_iron, 100);
}

#[test]
fn deficits_reset_every_tick() {
    // A starved mine reports the same deficit each tick; nothing
    // accumulates across ticks.
    let mut objects = ObjectManager::new();
    place(&mut objects, 1, 0, Structure::Mine { structure: mine_with_yield(Resource::Iron, 100) });

    let mut engine = TickEngine::new();
    engine.run(&mut objects);
    assert_eq!(engine.energy().deficit(), 25);
    assert_eq!(engine.resources().get_resource_deficit(&Resource::Iron), 100);

    engine.run(&mut objects);
    assert_eq!(engine.energy().deficit(), 25);
    assert_eq!(engine.resources().get_resource_deficit(&Resource::Iron), 100);
}

#[test]
fn factory_recipe_is_all_or_nothing() {
    // Concrete needs 45 energy and strictly more than 15 silica.  With
    // only 10 silica nothing is consumed; only the deficit grows.
    let mut objects = ObjectManager::new();
    place(&mut objects, 0, 0, Structure::PowerPlant { structure: PowerPlant::new() });
    place(&mut objects, 1, 0, Structure::Factory { structure: Factory::new(Commodity::Concrete) });

    let mut engine = TickEngine::new();
    engine.resources_mut().deposit_resource(&Resource::Silica, 10);
    engine.run(&mut objects);

    assert_eq!(engine.resources().resources()[Resource::Silica.idx()], 10);
    assert_eq!(engine.resources().commodities()[Commodity::Concrete.idx()], 0);
    assert_eq!(engine.resources().get_commodity_deficit(&Commodity::Concrete), 1);
    assert_eq!(engine.energy().output(), 100);
}

#[test]
fn factory_produces_when_everything_is_covered() {
    let mut objects = ObjectManager::new();
    place(&mut objects, 0, 0, Structure::PowerPlant { structure: PowerPlant::new() });
    place(&mut objects, 1, 0, Structure::Factory { structure: Factory::new(Commodity::Concrete) });

    let mut engine = TickEngine::new();
    engine.resources_mut().deposit_resource(&Resource::Silica, 40);
    engine.run(&mut objects);

    assert_eq!(engine.resources().resources()[Resource::Silica.idx()], 25);
    assert_eq!(engine.resources().commodities()[Commodity::Concrete.idx()], 1);
    assert_eq!(engine.resources().get_commodity_deficit(&Commodity::Concrete), 0);
    assert_eq!(engine.energy().output(), 55);
}

#[test]
fn exact_amount_is_not_enough() {
    // The availability checks are strictly greater-than: a factory
    // needing 15 silica cannot run on exactly 15.
    let mut objects = ObjectManager::new();
    place(&mut objects, 0, 0, Structure::PowerPlant { structure: PowerPlant::new() });
    place(&mut objects, 1, 0, Structure::Factory { structure: Factory::new(Commodity::Concrete) });

    let mut engine = TickEngine::new();
    engine.resources_mut().deposit_resource(&Resource::Silica, 15);
    engine.run(&mut objects);

    assert_eq!(engine.resources().resources()[Resource::Silica.idx()], 15);
    assert_eq!(engine.resources().commodities()[Commodity::Concrete.idx()], 0);
    assert_eq!(engine.resources().get_commodity_deficit(&Commodity::Concrete), 1);
}

#[test]
fn withdraw_consumes_output_before_stored() {
    // With 50 output and 30 reserves, a withdrawal of 40 leaves the
    // reserves untouched.
    let mut objects = ObjectManager::new();
    let mut base = Base::new();
    BatteryTrait::charge(base.blueprint_mut(), 30);
    place(&mut objects, 0, 0, Structure::Base { structure: base });

    let mut energy = EnergyManager::new();
    energy.collect(&objects);
    assert_eq!(energy.output(), 50);
    assert_eq!(energy.stored(), 30);

    let got = energy.withdraw(40);
    assert_eq!(got, 40);
    assert_eq!(energy.output(), 10);
    assert_eq!(energy.stored(), 30);
    assert_eq!(energy.discharged(), 0);
}

#[test]
fn withdraw_falls_back_to_stored() {
    let mut objects = ObjectManager::new();
    let mut base = Base::new();
    BatteryTrait::charge(base.blueprint_mut(), 30);
    place(&mut objects, 0, 0, Structure::Base { structure: base });

    let mut energy = EnergyManager::new();
    energy.collect(&objects);

    let got = energy.withdraw(70);
    assert_eq!(got, 70);
    assert_eq!(energy.output(), 0);
    assert_eq!(energy.stored(), 10);
    assert_eq!(energy.discharged(), 20);
}

#[test]
fn discharge_debits_the_real_battery() {
    // A base with 30 in its battery lends 20 through the pool; the
    // discharge pass takes the 20 back out of the battery.
    let mut objects = ObjectManager::new();
    let mut base = Base::new();
    BatteryTrait::charge(base.blueprint_mut(), 30);
    place(&mut objects, 0, 0, Structure::Base { structure: base });
    // A factory whose recipe needs 70 energy would dig into reserves;
    // instead drive the ledger directly for a precise picture.
    let mut energy = EnergyManager::new();
    energy.collect(&objects);
    energy.withdraw(70);
    assert_eq!(energy.discharged(), 20);

    energy.discharge(&mut objects);
    assert_eq!(energy.discharged(), 0);
    match objects.get(&Position::new(0, 0)).unwrap().structure.as_ref().unwrap() {
        Structure::Base { structure } => {
            assert_eq!(BatteryTrait::stored(structure.blueprint()), 10);
        }
        _ => panic!("expected a base"),
    }
}

#[test]
fn structure_groups() {
    let base = Structure::Base { structure: Base::new() };
    let plant = Structure::PowerPlant { structure: PowerPlant::new() };
    assert_eq!(base.group(), colony_engine::structures::StructureGroup::Base);
    assert_eq!(plant.group(), colony_engine::structures::StructureGroup::Power);
}
