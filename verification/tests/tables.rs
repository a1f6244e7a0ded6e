use colony_engine::kinds::{Commodity, Manufactured, Resource};
use colony_engine::structures::{
    CommodityRequireFactory, ResourceRequireFactory, StructureFactory, StructureGroup,
};
use colony_engine::managers::ResourceManager;

#[test]
fn commodity_energy_table() {
    assert_eq!(CommodityRequireFactory::energy_for_commodity(&Commodity::Concrete), 45);
    assert_eq!(CommodityRequireFactory::energy_for_commodity(&Commodity::Fuel), 20);
    assert_eq!(CommodityRequireFactory::energy_for_commodity(&Commodity::Semiconductor), 40);
    assert_eq!(CommodityRequireFactory::energy_for_commodity(&Commodity::Glass), 120);
    assert_eq!(CommodityRequireFactory::energy_for_commodity(&Commodity::FuelRod), 200);
}

#[test]
fn commodity_resource_table() {
    assert_eq!(
        CommodityRequireFactory::resources_for_commodity(&Commodity::Semiconductor),
        vec![(Resource::Aluminum, 5), (Resource::Carbon, 10), (Resource::Silica, 25)]
    );
    assert_eq!(
        CommodityRequireFactory::resources_for_commodity(&Commodity::FuelRod),
        vec![(Resource::Uranium, 50)]
    );
}

#[test]
fn manufactured_energy_table() {
    assert_eq!(ResourceRequireFactory::energy_for_manufactured(&Manufactured::Silicon), 60);
    assert_eq!(ResourceRequireFactory::energy_for_manufactured(&Manufactured::Food), 15);
    assert_eq!(ResourceRequireFactory::energy_for_manufactured(&Manufactured::FuelPellet), 100);
}

#[test]
fn manufactured_resource_table() {
    assert_eq!(
        ResourceRequireFactory::resources_for_manufactured(&Manufactured::BioPlastic),
        vec![(Resource::Silica, 3), (Resource::Carbon, 7)]
    );
    assert_eq!(
        ResourceRequireFactory::resources_for_manufactured(&Manufactured::Gravel),
        Vec::new()
    );
}

#[test]
fn kind_indices_round_trip() {
    for i in 0..6 {
        assert_eq!(Resource::from_idx(i).idx(), i);
    }
    for i in 0..5 {
        assert_eq!(Commodity::from_idx(i).idx(), i);
    }
    assert_eq!(Resource::all().len(), 6);
    assert_eq!(Commodity::all().len(), 5);
    assert_eq!(Manufactured::all().len(), 8);
}

#[test]
fn factory_builds_base_power_and_refinery() {
    let ledger = ResourceManager::new(vec![], vec![]);
    let base = StructureFactory::new(
        &StructureGroup::Base,
        None,
        &ledger,
        Resource::Iron,
        Commodity::Fuel,
    );
    assert!(matches!(
        base,
        Some(colony_engine::structures::Structure::Base { .. })
    ));

    let plant = StructureFactory::new(
        &StructureGroup::Power,
        None,
        &ledger,
        Resource::Iron,
        Commodity::Fuel,
    );
    assert!(matches!(
        plant,
        Some(colony_engine::structures::Structure::PowerPlant { .. })
    ));

    let refinery = StructureFactory::new(
        &StructureGroup::Refinery,
        None,
        &ledger,
        Resource::Iron,
        Commodity::Fuel,
    );
    match refinery.unwrap() {
        colony_engine::structures::Structure::Refinery { structure } => {
            assert_eq!(
                structure.resources(),
                &vec![Manufactured::Hydrogen, Manufactured::Oxygen]
            );
        }
        _ => panic!("expected a refinery"),
    }
}
