//! Capability components out of which structures are assembled.
//!
//! A component is one declared capability record: fixed energy figures, a
//! bounded battery, a mine yield, a bounded per-kind store, or a
//! production recipe.  Per-kind tables are plain vectors indexed by the
//! kind's fixed index, with a parallel `known` vector recording which
//! kinds the component was built for.

use vstd::prelude::*;

use crate::kinds::{Commodity, Manufactured, Resource, COMMODITY_COUNT, RESOURCE_COUNT};

verus! {

/// Names of the component slots a blueprint can hold, one slot per name.
#[derive(Clone, Copy, Debug, PartialEq, Eq, Hash, Structural)]
pub enum ComponentName {
    EnergyComponent,
    MineOutputComponent,
    ResourceStorageComponent,
    CommodityStorageComponent,
    BatteryComponent,
    RefineryOutputComponent,
    FactoryOutputComponent,
}

/// Fixed per-tick energy demand and supply declared by a structure type.
#[derive(Clone, Copy, Debug, PartialEq, Eq, Hash, Structural)]
pub struct EnergyComponent {
    pub energy_in: u64,
    pub energy_out: u64,
}

/// Bounded local energy buffer; `stored <= capacity` is the intended
/// invariant, kept by the blueprint's charge and discharge operations.
#[derive(Clone, Copy, Debug, PartialEq, Eq, Hash, Structural)]
pub struct BatteryComponent {
    pub capacity: u64,
    pub stored: u64,
}

impl BatteryComponent {
    /// The battery never holds more than its capacity.
    pub open spec fn wf(self) -> bool {
        self.stored <= self.capacity
    }
}

/// Fixed per-tick yields of a mine.
#[derive(Clone, Copy, Debug, PartialEq, Eq, Hash, Structural)]
pub struct MineOutputComponent {
    pub resource_out: u64,
    pub manufactured_out: u64,
}

/// Mathematical model of a bounded per-kind store: which kinds it was
/// built for, and per kind its capacity and current amount.
#[verifier::ext_equal]
pub struct StoreModel {
    pub known: Seq<bool>,
    pub cap: Seq<u64>,
    pub amt: Seq<u64>,
}

impl StoreModel {
    /// Well-formed over `n` kinds: the tables cover every kind, no slot
    /// exceeds its capacity, and unknown kinds hold nothing.
    pub open spec fn wf(self, n: int) -> bool {
        &&& self.known.len() == n
        &&& self.cap.len() == n
        &&& self.amt.len() == n
        &&& forall|i: int| 0 <= i < n ==> #[trigger] self.amt[i] <= self.cap[i]
        &&& forall|i: int| 0 <= i < n && !(#[trigger] self.known[i]) ==> self.cap[i] == 0
            && self.amt[i] == 0
    }
}

/// Bounded local buffer of raw resources, one slot per resource kind the
/// component was built for.
pub struct ResourceStorageComponent {
    known: Vec<bool>,
    capacity: Vec<u64>,
    resources: Vec<u64>,
}

impl View for ResourceStorageComponent {
    type V = StoreModel;

    closed spec fn view(&self) -> StoreModel {
        StoreModel { known: self.known@, cap: self.capacity@, amt: self.resources@ }
    }
}

/// Bounded local buffer of commodities, one slot per commodity kind the
/// component was built for.
pub struct CommodityStorageComponent {
    known: Vec<bool>,
    capacity: Vec<u64>,
    commodities: Vec<u64>,
}

impl View for CommodityStorageComponent {
    type V = StoreModel;

    closed spec fn view(&self) -> StoreModel {
        StoreModel { known: self.known@, cap: self.capacity@, amt: self.commodities@ }
    }
}

/// Mathematical model of a factory recipe.
#[verifier::ext_equal]
pub struct RecipeModel {
    pub commodity_out: u64,
    pub energy_required: u64,
    pub resource_required: Seq<(Resource, u64)>,
}

impl RecipeModel {
    /// No resource kind appears twice among the requirements.
    pub open spec fn wf(self) -> bool {
        forall|i: int, j: int|
            0 <= i < j < self.resource_required.len() ==> (#[trigger] self.resource_required[i]).0
                != (#[trigger] self.resource_required[j]).0
    }
}

/// An all-or-nothing production rule: required energy, required resource
/// amounts, and the commodity yield.
pub struct FactoryOutputComponent {
    pub commodity_out: u64,
    pub energy_required: u64,
    pub resource_required: Vec<(Resource, u64)>,
}

impl View for FactoryOutputComponent {
    type V = RecipeModel;

    open spec fn view(&self) -> RecipeModel {
        RecipeModel {
            commodity_out: self.commodity_out,
            energy_required: self.energy_required,
            resource_required: self.resource_required@,
        }
    }
}

impl FactoryOutputComponent {
    /// The recipe's required resources with their amounts.
    pub fn resources(&self) -> (r: &Vec<(Resource, u64)>)
        ensures
            r@ == self@.resource_required,
    {
        &self.resource_required
    }
}

/// Mathematical model of a refinery's per-good tables.
#[verifier::ext_equal]
pub struct RefineryModel {
    pub manufactured_out: Seq<(Manufactured, u64)>,
    pub energy_required: Seq<(Manufactured, u64)>,
    pub resource_required: Seq<(Manufactured, Seq<(Resource, u64)>)>,
}

/// Per-manufactured-good production tables of a refinery.
pub struct RefineryOutputComponent {
    pub manufactured_out: Vec<(Manufactured, u64)>,
    pub energy_required: Vec<(Manufactured, u64)>,
    pub resource_required: Vec<(Manufactured, Vec<(Resource, u64)>)>,
}

impl View for RefineryOutputComponent {
    type V = RefineryModel;

    open spec fn view(&self) -> RefineryModel {
        RefineryModel {
            manufactured_out: self.manufactured_out@,
            energy_required: self.energy_required@,
            resource_required: Seq::new(
                self.resource_required@.len(),
                |i: int| (self.resource_required@[i].0, self.resource_required@[i].1@),
            ),
        }
    }
}

/// Sum of the amounts in a keyed table of manufactured goods.
pub open spec fn manufactured_sum(s: Seq<(Manufactured, u64)>) -> int
    decreases s.len(),
{
    if s.len() == 0 {
        0
    } else {
        manufactured_sum(s.drop_last()) + s.last().1
    }
}

pub proof fn lemma_manufactured_sum_nonneg(s: Seq<(Manufactured, u64)>)
    ensures
        manufactured_sum(s) >= 0,
    decreases s.len(),
{
    if s.len() > 0 {
        lemma_manufactured_sum_nonneg(s.drop_last());
    }
}

pub proof fn lemma_manufactured_sum_prefix(s: Seq<(Manufactured, u64)>, i: int)
    requires
        0 <= i <= s.len(),
    ensures
        manufactured_sum(s.take(i)) <= manufactured_sum(s),
    decreases s.len(),
{
    if i == s.len() {
        assert(s.take(i) =~= s);
    } else if s.len() > 0 {
        assert(s.drop_last().take(i) =~= s.take(i));
        lemma_manufactured_sum_prefix(s.drop_last(), i);
    }
}

impl RefineryOutputComponent {
    /// The per-good resource requirement tables.
    pub fn resources(&self) -> (r: &Vec<(Manufactured, Vec<(Resource, u64)>)>)
        ensures
            r@.len() == self@.resource_required.len(),
            forall|i: int|
                0 <= i < r@.len() ==> (#[trigger] r@[i]).0 == self@.resource_required[i].0
                    && r@[i].1@ == self@.resource_required[i].1,
    {
        &self.resource_required
    }

    /// Total energy the refinery needs across all goods it is set up for.
    pub fn resource_required_sum(&self) -> (total: u64)
        requires
            manufactured_sum(self@.energy_required) <= u64::MAX,
        ensures
            total as int == manufactured_sum(self@.energy_required),
    {
        let mut total: u64 = 0;
        let n = self.energy_required.len();
        let mut i: usize = 0;
        while i < n
            invariant
                0 <= i <= n,
                n == self.energy_required@.len(),
                total as int == manufactured_sum(self.energy_required@.take(i as int)),
                manufactured_sum(self.energy_required@) <= u64::MAX,
                self@.energy_required == self.energy_required@,
            decreases n - i,
        {
            proof {
                assert(self.energy_required@.take(i + 1).drop_last() =~= self.energy_required@.take(
                    i as int,
                ));
                lemma_manufactured_sum_prefix(self.energy_required@, i + 1);
                lemma_manufactured_sum_nonneg(self.energy_required@.take(i + 1));
            }
            total = total + self.energy_required[i].1;
            i = i + 1;
        }
        proof {
            assert(self.energy_required@.take(n as int) =~= self.energy_required@);
        }
        total
    }
}

impl ResourceStorageComponent {
    /// Which resource kinds the store was built for.
    pub open spec fn knows_spec(&self, r: Resource) -> bool {
        self@.known[r.idx_spec()]
    }

    pub open spec fn cap_spec(&self, r: Resource) -> u64 {
        self@.cap[r.idx_spec()]
    }

    pub open spec fn amt_spec(&self, r: Resource) -> u64 {
        self@.amt[r.idx_spec()]
    }

    pub open spec fn wf(&self) -> bool {
        self@.wf(RESOURCE_COUNT as int)
    }

    /// A fresh store for the given kinds: each gets capacity 1000 and
    /// starts empty.
    pub fn new(items: Vec<Resource>) -> (c: ResourceStorageComponent)
        ensures
            c.wf(),
            forall|r: Resource| #[trigger] c.knows_spec(r) <==> items@.contains(r),
            forall|r: Resource| items@.contains(r) ==> #[trigger] c.cap_spec(r) == 1000,
            forall|r: Resource| #[trigger] c.amt_spec(r) == 0,
    {
        let mut known: Vec<bool> = Vec::new();
        let mut capacity: Vec<u64> = Vec::new();
        let mut resources: Vec<u64> = Vec::new();
        let mut i: usize = 0;
        while i < RESOURCE_COUNT
            invariant
                known@.len() == i,
                capacity@.len() == i,
                resources@.len() == i,
                i <= RESOURCE_COUNT,
                forall|k: int| 0 <= k < i ==> !(#[trigger] known@[k]),
                forall|k: int| 0 <= k < i ==> (#[trigger] capacity@[k]) == 0,
                forall|k: int| 0 <= k < i ==> (#[trigger] resources@[k]) == 0,
            decreases RESOURCE_COUNT - i,
        {
            known.push(false);
            capacity.push(0);
            resources.push(0);
            i = i + 1;
        }
        let mut j: usize = 0;
        while j < items.len()
            invariant
                known@.len() == RESOURCE_COUNT,
                capacity@.len() == RESOURCE_COUNT,
                resources@.len() == RESOURCE_COUNT,
                j <= items@.len(),
                forall|r: Resource| #[trigger]
                    known@[r.idx_spec()] <==> items@.take(j as int).contains(r),
                forall|k: int|
                    0 <= k < RESOURCE_COUNT ==> (#[trigger] capacity@[k]) == (if known@[k] {
                        1000u64
                    } else {
                        0u64
                    }),
                forall|k: int| 0 <= k < RESOURCE_COUNT ==> (#[trigger] resources@[k]) == 0,
            decreases items@.len() - j,
        {
            let idx = items[j].idx();
            known[idx] = true;
            capacity[idx] = 1000;
            proof {
                assert forall|r: Resource| #[trigger]
                    known@[r.idx_spec()] <==> items@.take(j + 1).contains(r) by {
                    assert(items@.take(j + 1).drop_last() =~= items@.take(j as int));
                    if known@[r.idx_spec()] {
                        if r == items@[j as int] {
                            assert(items@.take(j + 1)[j as int] == r);
                        } else {
                            assert(items@.take(j as int).contains(r));
                            let w = choose|w: int|
                                0 <= w < j && items@.take(j as int)[w] == r;
                            assert(items@.take(j + 1)[w] == r);
                        }
                    }
                    if items@.take(j + 1).contains(r) {
                        let w = choose|w: int| 0 <= w < j + 1 && (#[trigger] items@.take(j + 1)[w]) == r;
                        if w < j {
                            assert(items@.take(j as int)[w] == r);
                        }
                    }
                }
            }
            j = j + 1;
        }
        proof {
            assert(items@.take(items@.len() as int) =~= items@);
        }
        ResourceStorageComponent { known, capacity, resources }
    }

    /// Whether the store was built for the given kind.
    pub fn knows(&self, group: &Resource) -> (r: bool)
        requires
            self.wf(),
        ensures
            r == self.knows_spec(*group),
    {
        self.known[group.idx()]
    }

    /// Capacity of the slot for the given kind.
    pub fn capacity(&self, group: &Resource) -> (c: u64)
        requires
            self.wf(),
            self.knows_spec(*group),
        ensures
            c == self.cap_spec(*group),
    {
        self.capacity[group.idx()]
    }

    /// Free room left in the slot for the given kind.
    pub fn capacity_free(&self, group: &Resource) -> (c: u64)
        requires
            self.wf(),
            self.knows_spec(*group),
        ensures
            c == self.cap_spec(*group) - self.amt_spec(*group),
    {
        self.capacity[group.idx()] - self.resources[group.idx()]
    }

    /// Amount currently held of the given kind.
    pub fn resource(&self, group: &Resource) -> (a: u64)
        requires
            self.wf(),
            self.knows_spec(*group),
        ensures
            a == self.amt_spec(*group),
    {
        self.resources[group.idx()]
    }

    /// Mutable access to the held amount of the given kind.
    pub fn resource_mut(&mut self, group: &Resource) -> (a: &mut u64)
        requires
            old(self).wf(),
            old(self).knows_spec(*group),
        ensures
            *a == old(self).amt_spec(*group),
            final(self)@ == (StoreModel {
                amt: old(self)@.amt.update(group.idx_spec(), *final(a)),
                ..old(self)@
            }),
    {
        &mut self.resources[group.idx()]
    }

    /// Unconditionally add to the held amount of the given kind.  The
    /// blueprint-level add is responsible for clamping to capacity.
    pub fn resource_add(&mut self, group: &Resource, amount: u64)
        requires
            old(self).wf(),
            old(self).knows_spec(*group),
            old(self).amt_spec(*group) + amount <= u64::MAX,
        ensures
            final(self)@ == (StoreModel {
                amt: old(self)@.amt.update(
                    group.idx_spec(),
                    (old(self).amt_spec(*group) + amount) as u64,
                ),
                ..old(self)@
            }),
    {
        let idx = group.idx();
        let cur = self.resources[idx];
        self.resources[idx] = cur + amount;
    }

    /// The kinds this store was built for, in table order.
    pub fn resources(&self) -> (v: Vec<Resource>)
        requires
            self.wf(),
        ensures
            forall|k: int| 0 <= k < v@.len() ==> self.knows_spec(#[trigger] v@[k]),
            forall|r: Resource| #[trigger] self.knows_spec(r) ==> v@.contains(r),
            forall|k: int, l: int| 0 <= k < l < v@.len() ==> v@[k] != v@[l],
    {
        let mut v: Vec<Resource> = Vec::new();
        let mut i: usize = 0;
        while i < RESOURCE_COUNT
            invariant
                i <= RESOURCE_COUNT,
                self.wf(),
                forall|k: int| 0 <= k < v@.len() ==> self.knows_spec(#[trigger] v@[k]),
                forall|r: Resource|
                    r.idx_spec() < i && #[trigger] self.knows_spec(r) ==> v@.contains(r),
                forall|k: int| 0 <= k < v@.len() ==> (#[trigger] v@[k]).idx_spec() < i,
                forall|k: int, l: int| 0 <= k < l < v@.len() ==> v@[k] != v@[l],
            decreases RESOURCE_COUNT - i,
        {
            if self.known[i] {
                let r = Resource::from_idx(i);
                let ghost old_v = v@;
                v.push(r);
                proof {
                    assert(v@[old_v.len() as int] == r);
                    assert forall|rr: Resource|
                        rr.idx_spec() < i + 1 && #[trigger] self.knows_spec(rr) implies v@.contains(
                        rr,
                    ) by {
                        if rr.idx_spec() < i {
                            let w = choose|w: int| 0 <= w < old_v.len() && old_v[w] == rr;
                            assert(v@[w] == rr);
                        } else {
                            assert(rr == r);
                        }
                    }
                }
            } else {
                proof {
                    assert forall|rr: Resource|
                        rr.idx_spec() < i + 1 && #[trigger] self.knows_spec(rr) implies v@.contains(
                        rr,
                    ) by {
                        if rr.idx_spec() == i {
                            assert(!self@.known[rr.idx_spec()]);
                        }
                    }
                }
            }
            i = i + 1;
        }
        v
    }
}

impl CommodityStorageComponent {
    /// Which commodity kinds the store was built for.
    pub open spec fn knows_spec(&self, c: Commodity) -> bool {
        self@.known[c.idx_spec()]
    }

    pub open spec fn cap_spec(&self, c: Commodity) -> u64 {
        self@.cap[c.idx_spec()]
    }

    pub open spec fn amt_spec(&self, c: Commodity) -> u64 {
        self@.amt[c.idx_spec()]
    }

    pub open spec fn wf(&self) -> bool {
        self@.wf(COMMODITY_COUNT as int)
    }

    /// A fresh store for the given kinds: each gets capacity 1000 and
    /// starts empty.
    pub fn new(items: Vec<Commodity>) -> (c: CommodityStorageComponent)
        ensures
            c.wf(),
            forall|k: Commodity| #[trigger] c.knows_spec(k) <==> items@.contains(k),
            forall|k: Commodity| items@.contains(k) ==> #[trigger] c.cap_spec(k) == 1000,
            forall|k: Commodity| #[trigger] c.amt_spec(k) == 0,
    {
        let mut known: Vec<bool> = Vec::new();
        let mut capacity: Vec<u64> = Vec::new();
        let mut commodities: Vec<u64> = Vec::new();
        let mut i: usize = 0;
        while i < COMMODITY_COUNT
            invariant
                known@.len() == i,
                capacity@.len() == i,
                commodities@.len() == i,
                i <= COMMODITY_COUNT,
                forall|k: int| 0 <= k < i ==> !(#[trigger] known@[k]),
                forall|k: int| 0 <= k < i ==> (#[trigger] capacity@[k]) == 0,
                forall|k: int| 0 <= k < i ==> (#[trigger] commodities@[k]) == 0,
            decreases COMMODITY_COUNT - i,
        {
            known.push(false);
            capacity.push(0);
            commodities.push(0);
            i = i + 1;
        }
        let mut j: usize = 0;
        while j < items.len()
            invariant
                known@.len() == COMMODITY_COUNT,
                capacity@.len() == COMMODITY_COUNT,
                commodities@.len() == COMMODITY_COUNT,
                j <= items@.len(),
                forall|c: Commodity| #[trigger]
                    known@[c.idx_spec()] <==> items@.take(j as int).contains(c),
                forall|k: int|
                    0 <= k < COMMODITY_COUNT ==> (#[trigger] capacity@[k]) == (if known@[k] {
                        1000u64
                    } else {
                        0u64
                    }),
                forall|k: int| 0 <= k < COMMODITY_COUNT ==> (#[trigger] commodities@[k]) == 0,
            decreases items@.len() - j,
        {
            let idx = items[j].idx();
            known[idx] = true;
            capacity[idx] = 1000;
            proof {
                assert forall|c: Commodity| #[trigger]
                    known@[c.idx_spec()] <==> items@.take(j + 1).contains(c) by {
                    assert(items@.take(j + 1).drop_last() =~= items@.take(j as int));
                    if known@[c.idx_spec()] {
                        if c == items@[j as int] {
                            assert(items@.take(j + 1)[j as int] == c);
                        } else {
                            assert(items@.take(j as int).contains(c));
                            let w = choose|w: int|
                                0 <= w < j && items@.take(j as int)[w] == c;
                            assert(items@.take(j + 1)[w] == c);
                        }
                    }
                    if items@.take(j + 1).contains(c) {
                        let w = choose|w: int| 0 <= w < j + 1 && (#[trigger] items@.take(j + 1)[w]) == c;
                        if w < j {
                            assert(items@.take(j as int)[w] == c);
                        }
                    }
                }
            }
            j = j + 1;
        }
        proof {
            assert(items@.take(items@.len() as int) =~= items@);
        }
        CommodityStorageComponent { known, capacity, commodities }
    }

    /// Capacity of the slot for the given kind.
    pub fn capacity(&self, group: &Commodity) -> (c: u64)
        requires
            self.wf(),
            self.knows_spec(*group),
        ensures
            c == self.cap_spec(*group),
    {
        self.capacity[group.idx()]
    }

    /// Free room left in the slot for the given kind.
    pub fn capacity_free(&self, group: &Commodity) -> (c: u64)
        requires
            self.wf(),
            self.knows_spec(*group),
        ensures
            c == self.cap_spec(*group) - self.amt_spec(*group),
    {
        self.capacity[group.idx()] - self.commodities[group.idx()]
    }

    /// Amount currently held of the given kind.
    pub fn commodity(&self, group: &Commodity) -> (a: u64)
        requires
            self.wf(),
            self.knows_spec(*group),
        ensures
            a == self.amt_spec(*group),
    {
        self.commodities[group.idx()]
    }

    /// Mutable access to the held amount of the given kind.
    pub fn commodity_mut(&mut self, group: &Commodity) -> (a: &mut u64)
        requires
            old(self).wf(),
            old(self).knows_spec(*group),
        ensures
            *a == old(self).amt_spec(*group),
            final(self)@ == (StoreModel {
                amt: old(self)@.amt.update(group.idx_spec(), *final(a)),
                ..old(self)@
            }),
    {
        &mut self.commodities[group.idx()]
    }

    /// Unconditionally add to the held amount of the given kind.  The
    /// blueprint-level add is responsible for clamping to capacity.
    pub fn commodity_add(&mut self, group: &Commodity, amount: u64)
        requires
            old(self).wf(),
            old(self).knows_spec(*group),
            old(self).amt_spec(*group) + amount <= u64::MAX,
        ensures
            final(self)@ == (StoreModel {
                amt: old(self)@.amt.update(
                    group.idx_spec(),
                    (old(self).amt_spec(*group) + amount) as u64,
                ),
                ..old(self)@
            }),
    {
        let idx = group.idx();
        let cur = self.commodities[idx];
        self.commodities[idx] = cur + amount;
    }

    /// The kinds this store was built for, in table order.
    pub fn commodities(&self) -> (v: Vec<Commodity>)
        requires
            self.wf(),
        ensures
            forall|k: int| 0 <= k < v@.len() ==> self.knows_spec(#[trigger] v@[k]),
            forall|c: Commodity| #[trigger] self.knows_spec(c) ==> v@.contains(c),
            forall|k: int, l: int| 0 <= k < l < v@.len() ==> v@[k] != v@[l],
    {
        let mut v: Vec<Commodity> = Vec::new();
        let mut i: usize = 0;
        while i < COMMODITY_COUNT
            invariant
                i <= COMMODITY_COUNT,
                self.wf(),
                forall|k: int| 0 <= k < v@.len() ==> self.knows_spec(#[trigger] v@[k]),
                forall|c: Commodity|
                    c.idx_spec() < i && #[trigger] self.knows_spec(c) ==> v@.contains(c),
                forall|k: int| 0 <= k < v@.len() ==> (#[trigger] v@[k]).idx_spec() < i,
                forall|k: int, l: int| 0 <= k < l < v@.len() ==> v@[k] != v@[l],
            decreases COMMODITY_COUNT - i,
        {
            if self.known[i] {
                let c = Commodity::from_idx(i);
                let ghost old_v = v@;
                v.push(c);
                proof {
                    assert(v@[old_v.len() as int] == c);
                    assert forall|cc: Commodity|
                        cc.idx_spec() < i + 1 && #[trigger] self.knows_spec(cc) implies v@.contains(
                        cc,
                    ) by {
                        if cc.idx_spec() < i {
                            let w = choose|w: int| 0 <= w < old_v.len() && old_v[w] == cc;
                            assert(v@[w] == cc);
                        } else {
                            assert(cc == c);
                        }
                    }
                }
            } else {
                proof {
                    assert forall|cc: Commodity|
                        cc.idx_spec() < i + 1 && #[trigger] self.knows_spec(cc) implies v@.contains(
                        cc,
                    ) by {
                        if cc.idx_spec() == i {
                            assert(!self@.known[cc.idx_spec()]);
                        }
                    }
                }
            }
            i = i + 1;
        }
        v
    }
}

/// Mathematical model of one component, mirroring `ComponentGroup`.
#[verifier::ext_equal]
pub enum ComponentModel {
    Energy { component: EnergyComponent },
    MineOutput { component: MineOutputComponent },
    RefineryOutput { component: RefineryModel },
    FactoryOutput { component: RecipeModel },
    ResourceStorage { component: StoreModel },
    CommodityStorage { component: StoreModel },
    Battery { component: BatteryComponent },
}

/// One capability record, tagged by which capability it is.
pub enum ComponentGroup {
    Energy { component: EnergyComponent },
    MineOutput { component: MineOutputComponent },
    RefineryOutput { component: RefineryOutputComponent },
    FactoryOutput { component: FactoryOutputComponent },
    ResourceStorage { component: ResourceStorageComponent },
    CommodityStorage { component: CommodityStorageComponent },
    Battery { component: BatteryComponent },
}

impl View for ComponentGroup {
    type V = ComponentModel;

    open spec fn view(&self) -> ComponentModel {
        match self {
            ComponentGroup::Energy { component } => ComponentModel::Energy {
                component: *component,
            },
            ComponentGroup::MineOutput { component } => ComponentModel::MineOutput {
                component: *component,
            },
            ComponentGroup::RefineryOutput { component } => ComponentModel::RefineryOutput {
                component: component@,
            },
            ComponentGroup::FactoryOutput { component } => ComponentModel::FactoryOutput {
                component: component@,
            },
            ComponentGroup::ResourceStorage { component } => ComponentModel::ResourceStorage {
                component: component@,
            },
            ComponentGroup::CommodityStorage { component } => ComponentModel::CommodityStorage {
                component: component@,
            },
            ComponentGroup::Battery { component } => ComponentModel::Battery {
                component: *component,
            },
        }
    }
}

impl ComponentGroup {
    /// The slot name this component naturally belongs under.
    pub open spec fn name_spec(&self) -> ComponentName {
        match self {
            ComponentGroup::Energy { .. } => ComponentName::EnergyComponent,
            ComponentGroup::MineOutput { .. } => ComponentName::MineOutputComponent,
            ComponentGroup::RefineryOutput { .. } => ComponentName::RefineryOutputComponent,
            ComponentGroup::FactoryOutput { .. } => ComponentName::FactoryOutputComponent,
            ComponentGroup::ResourceStorage { .. } => ComponentName::ResourceStorageComponent,
            ComponentGroup::CommodityStorage { .. } => ComponentName::CommodityStorageComponent,
            ComponentGroup::Battery { .. } => ComponentName::BatteryComponent,
        }
    }

    /// The slot name this component naturally belongs under.
    pub fn name(&self) -> (n: ComponentName)
        ensures
            n == self.name_spec(),
    {
        match self {
            ComponentGroup::Energy { .. } => ComponentName::EnergyComponent,
            ComponentGroup::MineOutput { .. } => ComponentName::MineOutputComponent,
            ComponentGroup::RefineryOutput { .. } => ComponentName::RefineryOutputComponent,
            ComponentGroup::FactoryOutput { .. } => ComponentName::FactoryOutputComponent,
            ComponentGroup::ResourceStorage { .. } => ComponentName::ResourceStorageComponent,
            ComponentGroup::CommodityStorage { .. } => ComponentName::CommodityStorageComponent,
            ComponentGroup::Battery { .. } => ComponentName::BatteryComponent,
        }
    }
}

} // verus!
