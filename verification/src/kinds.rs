//! The closed sets of material kinds the ledgers are keyed by: raw
//! resources, refined manufactured goods, and manufactured commodities.
//!
//! Every kind carries a fixed small index so that per-kind tables can be
//! held in plain vectors indexed by kind.

use vstd::prelude::*;

verus! {

/// Number of raw resource kinds.
pub const RESOURCE_COUNT: usize = 6;

/// Number of commodity kinds.
pub const COMMODITY_COUNT: usize = 5;

/// Number of manufactured-good kinds.
pub const MANUFACTURED_COUNT: usize = 8;

/// A raw material extracted by mines and stocked by the material ledger.
#[derive(Clone, Copy, Debug, PartialEq, Eq, Hash, Structural)]
pub enum Resource {
    Iron,
    Aluminum,
    Carbon,
    Silica,
    Uranium,
    Water,
}

/// A manufactured good produced by factories and stocked by the material
/// ledger.
#[derive(Clone, Copy, Debug, PartialEq, Eq, Hash, Structural)]
pub enum Commodity {
    Concrete,
    Semiconductor,
    Fuel,
    Glass,
    FuelRod,
}

/// A refined good a refinery is configured to yield.
#[derive(Clone, Copy, Debug, PartialEq, Eq, Hash, Structural)]
pub enum Manufactured {
    Silicon,
    Food,
    Steel,
    BioPlastic,
    Oxygen,
    Gravel,
    Hydrogen,
    FuelPellet,
}

impl Resource {
    /// Position of this kind in per-resource tables.
    pub open spec fn idx_spec(self) -> int {
        match self {
            Resource::Iron => 0,
            Resource::Aluminum => 1,
            Resource::Carbon => 2,
            Resource::Silica => 3,
            Resource::Uranium => 4,
            Resource::Water => 5,
        }
    }

    pub fn idx(self) -> (i: usize)
        ensures
            i as int == self.idx_spec(),
            i < RESOURCE_COUNT,
    {
        match self {
            Resource::Iron => 0,
            Resource::Aluminum => 1,
            Resource::Carbon => 2,
            Resource::Silica => 3,
            Resource::Uranium => 4,
            Resource::Water => 5,
        }
    }

    pub fn from_idx(i: usize) -> (r: Resource)
        requires
            i < RESOURCE_COUNT,
        ensures
            r.idx_spec() == i as int,
    {
        if i == 0 {
            Resource::Iron
        } else if i == 1 {
            Resource::Aluminum
        } else if i == 2 {
            Resource::Carbon
        } else if i == 3 {
            Resource::Silica
        } else if i == 4 {
            Resource::Uranium
        } else {
            Resource::Water
        }
    }

    /// All resource kinds, in table order.
    pub fn all() -> (v: Vec<Resource>)
        ensures
            v@.len() == RESOURCE_COUNT,
            forall|i: int| 0 <= i < RESOURCE_COUNT ==> #[trigger] v@[i].idx_spec() == i,
            forall|r: Resource| #[trigger] v@.contains(r),
    {
        let v = vec![
            Resource::Iron,
            Resource::Aluminum,
            Resource::Carbon,
            Resource::Silica,
            Resource::Uranium,
            Resource::Water,
        ];
        proof {
            assert forall|r: Resource| #[trigger] v@.contains(r) by {
                match r {
                    Resource::Iron => assert(v@[0] == r),
                    Resource::Aluminum => assert(v@[1] == r),
                    Resource::Carbon => assert(v@[2] == r),
                    Resource::Silica => assert(v@[3] == r),
                    Resource::Uranium => assert(v@[4] == r),
                    Resource::Water => assert(v@[5] == r),
                }
            }
        }
        v
    }
}

/// Every table index below `RESOURCE_COUNT` is the index of some kind.
pub proof fn lemma_resource_idx_onto(i: int)
    requires
        0 <= i < RESOURCE_COUNT,
    ensures
        exists|r: Resource| (#[trigger] r.idx_spec()) == i,
{
    if i == 0 {
        assert(Resource::Iron.idx_spec() == 0);
    } else if i == 1 {
        assert(Resource::Aluminum.idx_spec() == 1);
    } else if i == 2 {
        assert(Resource::Carbon.idx_spec() == 2);
    } else if i == 3 {
        assert(Resource::Silica.idx_spec() == 3);
    } else if i == 4 {
        assert(Resource::Uranium.idx_spec() == 4);
    } else {
        assert(Resource::Water.idx_spec() == 5);
    }
}

/// Distinct resource kinds have distinct table indices.
pub proof fn lemma_resource_idx_injective(a: Resource, b: Resource)
    requires
        a.idx_spec() == b.idx_spec(),
    ensures
        a == b,
{
}

/// Every table index below `COMMODITY_COUNT` is the index of some kind.
pub proof fn lemma_commodity_idx_onto(i: int)
    requires
        0 <= i < COMMODITY_COUNT,
    ensures
        exists|c: Commodity| (#[trigger] c.idx_spec()) == i,
{
    if i == 0 {
        assert(Commodity::Concrete.idx_spec() == 0);
    } else if i == 1 {
        assert(Commodity::Semiconductor.idx_spec() == 1);
    } else if i == 2 {
        assert(Commodity::Fuel.idx_spec() == 2);
    } else if i == 3 {
        assert(Commodity::Glass.idx_spec() == 3);
    } else {
        assert(Commodity::FuelRod.idx_spec() == 4);
    }
}

impl Commodity {
    /// Position of this kind in per-commodity tables.
    pub open spec fn idx_spec(self) -> int {
        match self {
            Commodity::Concrete => 0,
            Commodity::Semiconductor => 1,
            Commodity::Fuel => 2,
            Commodity::Glass => 3,
            Commodity::FuelRod => 4,
        }
    }

    pub fn idx(self) -> (i: usize)
        ensures
            i as int == self.idx_spec(),
            i < COMMODITY_COUNT,
    {
        match self {
            Commodity::Concrete => 0,
            Commodity::Semiconductor => 1,
            Commodity::Fuel => 2,
            Commodity::Glass => 3,
            Commodity::FuelRod => 4,
        }
    }

    pub fn from_idx(i: usize) -> (c: Commodity)
        requires
            i < COMMODITY_COUNT,
        ensures
            c.idx_spec() == i as int,
    {
        if i == 0 {
            Commodity::Concrete
        } else if i == 1 {
            Commodity::Semiconductor
        } else if i == 2 {
            Commodity::Fuel
        } else if i == 3 {
            Commodity::Glass
        } else {
            Commodity::FuelRod
        }
    }

    /// All commodity kinds, in table order.
    pub fn all() -> (v: Vec<Commodity>)
        ensures
            v@.len() == COMMODITY_COUNT,
            forall|i: int| 0 <= i < COMMODITY_COUNT ==> #[trigger] v@[i].idx_spec() == i,
            forall|c: Commodity| #[trigger] v@.contains(c),
    {
        let v = vec![
            Commodity::Concrete,
            Commodity::Semiconductor,
            Commodity::Fuel,
            Commodity::Glass,
            Commodity::FuelRod,
        ];
        proof {
            assert forall|c: Commodity| #[trigger] v@.contains(c) by {
                match c {
                    Commodity::Concrete => assert(v@[0] == c),
                    Commodity::Semiconductor => assert(v@[1] == c),
                    Commodity::Fuel => assert(v@[2] == c),
                    Commodity::Glass => assert(v@[3] == c),
                    Commodity::FuelRod => assert(v@[4] == c),
                }
            }
        }
        v
    }
}

impl Manufactured {
    /// Position of this kind in per-manufactured tables.
    pub open spec fn idx_spec(self) -> int {
        match self {
            Manufactured::Silicon => 0,
            Manufactured::Food => 1,
            Manufactured::Steel => 2,
            Manufactured::BioPlastic => 3,
            Manufactured::Oxygen => 4,
            Manufactured::Gravel => 5,
            Manufactured::Hydrogen => 6,
            Manufactured::FuelPellet => 7,
        }
    }

    pub fn idx(self) -> (i: usize)
        ensures
            i as int == self.idx_spec(),
            i < MANUFACTURED_COUNT,
    {
        match self {
            Manufactured::Silicon => 0,
            Manufactured::Food => 1,
            Manufactured::Steel => 2,
            Manufactured::BioPlastic => 3,
            Manufactured::Oxygen => 4,
            Manufactured::Gravel => 5,
            Manufactured::Hydrogen => 6,
            Manufactured::FuelPellet => 7,
        }
    }

    /// All manufactured kinds, in table order.
    pub fn all() -> (v: Vec<Manufactured>)
        ensures
            v@.len() == MANUFACTURED_COUNT,
            forall|i: int| 0 <= i < MANUFACTURED_COUNT ==> #[trigger] v@[i].idx_spec() == i,
    {
        let v = vec![
            Manufactured::Silicon,
            Manufactured::Food,
            Manufactured::Steel,
            Manufactured::BioPlastic,
            Manufactured::Oxygen,
            Manufactured::Gravel,
            Manufactured::Hydrogen,
            Manufactured::FuelPellet,
        ];
        v
    }
}

} // verus!
