//! The placement grid: coordinates, tiles, deposits, and the registry of
//! placed structures.
//!
//! The registry keeps its entries in insertion order, so every pass of
//! the tick engine visits structures in one documented order.

use vstd::prelude::*;

use crate::structures::{Structure, StructureModel};

verus! {

/// A grid coordinate.
#[derive(Clone, Copy, Debug, PartialEq, Eq, Hash, Structural)]
pub struct Position {
    pub x: i16,
    pub y: i16,
}

impl Position {
    pub fn new(x: i16, y: i16) -> (p: Position)
        ensures
            p.x == x,
            p.y == y,
    {
        Position { x, y }
    }

    /// Set the horizontal coordinate.
    pub fn x(&mut self, x: i16)
        ensures
            final(self).x == x,
            final(self).y == old(self).y,
    {
        self.x = x
    }

    /// Set the vertical coordinate.
    pub fn y(&mut self, y: i16)
        ensures
            final(self).y == y,
            final(self).x == old(self).x,
    {
        self.y = y
    }
}

/// The family a raw deposit belongs to.
#[derive(Clone, Copy, Debug, PartialEq, Eq, Hash, Structural)]
pub enum ResourceGroup {
    Energy,
    Metal,
    Mineral,
    Gas,
    Carbon,
}

/// A raw deposit sitting on a tile: its family and how much is left.
#[derive(Clone, Copy, Debug, PartialEq, Eq, Hash, Structural)]
pub struct Resource {
    pub group: ResourceGroup,
    pub amount: u32,
}

/// Ground cover of a tile.
#[derive(Clone, Copy, Debug, PartialEq, Eq, Hash, Structural)]
pub enum Flora {
    Water,
    Sand,
    Dirt,
    Grass,
    Rock,
}

/// One tile of the generated world.
#[derive(Clone, Copy, Debug, PartialEq, Eq, Hash, Structural)]
pub struct MapTile {
    pub flora: Flora,
    pub is_resource: bool,
}

pub struct MapTileFactory {}

impl MapTileFactory {
    /// A plain tile of the given ground cover, with no deposit.
    pub fn new(flora: Flora) -> (t: MapTile)
        ensures
            t.flora == flora,
            !t.is_resource,
    {
        MapTile { flora, is_resource: false }
    }
}

/// Mathematical model of what occupies a coordinate.
#[verifier::ext_equal]
pub struct MapObjectModel {
    pub resource: Option<Resource>,
    pub structure: Option<StructureModel>,
}

/// What occupies a coordinate: at most one deposit marker and at most
/// one structure.
pub struct MapObject {
    pub resource: Option<Resource>,
    pub structure: Option<Structure>,
}

impl View for MapObject {
    type V = MapObjectModel;

    open spec fn view(&self) -> MapObjectModel {
        MapObjectModel {
            resource: self.resource,
            structure: match &self.structure {
                Some(s) => Some(s@),
                None => None,
            },
        }
    }
}

/// The model of a registry: the placed objects with their coordinates,
/// in insertion order.
pub type RegistryModel = Seq<(Position, MapObjectModel)>;

/// View of a vector of placements.
pub open spec fn registry_view(s: Seq<(Position, MapObject)>) -> RegistryModel {
    s.map_values(|p: (Position, MapObject)| (p.0, p.1@))
}

/// No coordinate occurs twice.
pub open spec fn registry_wf(s: RegistryModel) -> bool {
    forall|a: int, b: int|
        0 <= a < b < s.len() ==> (#[trigger] s[a]).0 != (#[trigger] s[b]).0
}

/// Whether some entry sits at the coordinate.
pub open spec fn registry_contains(s: RegistryModel, p: Position) -> bool {
    exists|i: int| 0 <= i < s.len() && (#[trigger] s[i]).0 == p
}

/// The index of the entry at the coordinate.
pub open spec fn registry_index(s: RegistryModel, p: Position) -> int {
    choose|i: int| 0 <= i < s.len() && (#[trigger] s[i]).0 == p
}

/// The registry of placed objects, looked up by coordinate.
pub struct ObjectManager {
    objects: Vec<(Position, MapObject)>,
}

impl View for ObjectManager {
    type V = RegistryModel;

    closed spec fn view(&self) -> RegistryModel {
        registry_view(self.objects@)
    }
}

impl ObjectManager {
    /// Distinct coordinates throughout.
    pub open spec fn wf(&self) -> bool {
        registry_wf(self@)
    }

    pub fn new() -> (m: ObjectManager)
        ensures
            m@ == Seq::<(Position, MapObjectModel)>::empty(),
            m.wf(),
    {
        let m = ObjectManager { objects: Vec::new() };
        proof {
            assert(m@ =~= Seq::<(Position, MapObjectModel)>::empty());
        }
        m
    }

    /// How many objects are placed.
    pub fn count(&self) -> (n: usize)
        ensures
            n == self@.len(),
    {
        self.objects.len()
    }

    /// The object at the given placement index.
    pub fn object_at(&self, i: usize) -> (o: &MapObject)
        requires
            i < self@.len(),
        ensures
            o@ == self@[i as int].1,
    {
        &self.objects[i].1
    }

    /// Mutable access to the object at the given placement index; the
    /// coordinate stays as it was.
    pub fn object_at_mut(&mut self, i: usize) -> (o: &mut MapObject)
        requires
            i < old(self)@.len(),
        ensures
            (*o)@ == old(self)@[i as int].1,
            final(self)@ =~= old(self)@.update(i as int, (old(self)@[i as int].0, final(o)@)),
    {
        &mut self.objects[i].1
    }

    /// The object at the coordinate, if one is placed there.
    pub fn get(&self, position: &Position) -> (r: Option<&MapObject>)
        requires
            self.wf(),
        ensures
            (r is Some) == registry_contains(self@, *position),
            r is Some ==> (r->0)@ == self@[registry_index(self@, *position)].1,
    {
        let n = self.objects.len();
        let mut i: usize = 0;
        while i < n
            invariant
                i <= n,
                n == self@.len(),
                self.wf(),
                forall|k: int| 0 <= k < i ==> (#[trigger] self@[k]).0 != *position,
            decreases n - i,
        {
            if self.objects[i].0 == *position {
                proof {
                    assert((self@[i as int]).0 == *position);
                    assert(registry_contains(self@, *position));
                    let w = registry_index(self@, *position);
                    assert(0 <= w < self@.len() && (self@[w]).0 == *position);
                    assert(w == i);
                }
                return Some(&self.objects[i].1);
            }
            i = i + 1;
        }
        None
    }

    /// Mutable access to the object at the coordinate, if one is placed
    /// there.
    pub fn get_mut(&mut self, position: &Position) -> (r: Option<&mut MapObject>)
        requires
            old(self).wf(),
        ensures
            (r is Some) == registry_contains(old(self)@, *position),
            r is Some ==> (*r->0)@ == old(self)@[registry_index(old(self)@, *position)].1
                && final(self)@ =~= old(self)@.update(
                registry_index(old(self)@, *position),
                (old(self)@[registry_index(old(self)@, *position)].0, final(r->0)@),
            ),
            r is None ==> final(self)@ == old(self)@,
    {
        let n = self.objects.len();
        let mut i: usize = 0;
        while i < n
            invariant
                i <= n,
                n == self@.len(),
                self.wf(),
                self@ == old(self)@,
                forall|k: int| 0 <= k < i ==> (#[trigger] self@[k]).0 != *position,
            decreases n - i,
        {
            if self.objects[i].0 == *position {
                proof {
                    assert((self@[i as int]).0 == *position);
                    assert(registry_contains(self@, *position));
                    let w = registry_index(self@, *position);
                    assert(0 <= w < self@.len() && (self@[w]).0 == *position);
                    assert(w == i);
                }
                return Some(&mut self.objects[i].1);
            }
            i = i + 1;
        }
        None
    }

    /// Place an object at the coordinate, handing back whatever was
    /// there before.
    #[verifier::loop_isolation(false)]
    pub fn set(&mut self, position: Position, object: MapObject) -> (prev: Option<MapObject>)
        requires
            old(self).wf(),
        ensures
            final(self).wf(),
            registry_contains(old(self)@, position) ==> prev is Some && (prev->0)@ == old(self)@[
                registry_index(old(self)@, position)
            ].1 && final(self)@ == old(self)@.update(
                registry_index(old(self)@, position),
                (position, object@),
            ),
            !registry_contains(old(self)@, position) ==> prev is None && final(self)@ == old(
                self,
            )@.push((position, object@)),
    {
        let ghost obj_model = object@;
        let n = self.objects.len();
        let mut i: usize = 0;
        let mut object = object;
        while i < n
            invariant
                i <= n,
                n == self@.len(),
                self.wf(),
                object@ == obj_model,
                self@ == old(self)@,
                forall|k: int| 0 <= k < i ==> (#[trigger] self@[k]).0 != position,
            decreases n - i,
        {
            if self.objects[i].0 == position {
                proof {
                    assert((self@[i as int]).0 == position);
                    assert(registry_contains(self@, position));
                    let w = registry_index(self@, position);
                    assert(0 <= w < self@.len() && (self@[w]).0 == position);
                    assert(w == i);
                }
                let slot = &mut self.objects[i].1;
                core::mem::swap(slot, &mut object);
                proof {
                    assert(self@ =~= old(self)@.update(i as int, (position, obj_model)));
                    assert(self.wf()) by {
                        assert forall|a: int, b: int|
                            0 <= a < b < self@.len() implies (#[trigger] self@[a]).0 != (
                        #[trigger] self@[b]).0 by {
                            assert((old(self)@[a]).0 == (self@[a]).0);
                            assert((old(self)@[b]).0 == (self@[b]).0);
                        }
                    }
                }
                return Some(object);
            }
            i = i + 1;
        }
        self.objects.push((position, object));
        proof {
            assert(self@ =~= old(self)@.push((position, obj_model)));
            assert forall|a: int, b: int| 0 <= a < b < self@.len() implies (#[trigger] self@[a]).0
                != (#[trigger] self@[b]).0 by {
                if b < self@.len() - 1 {
                    assert((old(self)@[a]).0 == (self@[a]).0);
                    assert((old(self)@[b]).0 == (self@[b]).0);
                } else {
                    assert((self@[b]).0 == position);
                    assert((old(self)@[a]).0 == (self@[a]).0);
                }
            }
        }
        None
    }

    /// Remove and hand back the object at the coordinate, if one is
    /// placed there.
    pub fn remove(&mut self, position: &Position) -> (prev: Option<MapObject>)
        requires
            old(self).wf(),
        ensures
            final(self).wf(),
            registry_contains(old(self)@, *position) ==> prev is Some && (prev->0)@ == old(
                self,
            )@[registry_index(old(self)@, *position)].1 && final(self)@ == old(self)@.remove(
                registry_index(old(self)@, *position),
            ),
            !registry_contains(old(self)@, *position) ==> prev is None && final(self)@ == old(
                self,
            )@,
    {
        let n = self.objects.len();
        let mut i: usize = 0;
        while i < n
            invariant
                i <= n,
                n == self@.len(),
                self.wf(),
                self@ == old(self)@,
                forall|k: int| 0 <= k < i ==> (#[trigger] self@[k]).0 != *position,
            decreases n - i,
        {
            if self.objects[i].0 == *position {
                proof {
                    assert((self@[i as int]).0 == *position);
                    assert(registry_contains(self@, *position));
                    let w = registry_index(self@, *position);
                    assert(0 <= w < self@.len() && (self@[w]).0 == *position);
                    assert(w == i);
                }
                let entry = self.objects.remove(i);
                proof {
                    assert(self@ =~= old(self)@.remove(i as int));
                    assert forall|a: int, b: int|
                        0 <= a < b < self@.len() implies (#[trigger] self@[a]).0 != (
                    #[trigger] self@[b]).0 by {
                        let oa = if a < i { a } else { a + 1 };
                        let ob = if b < i { b } else { b + 1 };
                        assert((old(self)@[oa]).0 == (self@[a]).0);
                        assert((old(self)@[ob]).0 == (self@[b]).0);
                    }
                }
                return Some(entry.1);
            }
            i = i + 1;
        }
        None
    }

    /// All placements, in insertion order.
    pub fn list(&self) -> (v: &Vec<(Position, MapObject)>)
        ensures
            registry_view(v@) == self@,
    {
        &self.objects
    }

    /// Mutable access to all placements, in insertion order.
    pub fn list_mut(&mut self) -> (v: &mut Vec<(Position, MapObject)>)
        ensures
            registry_view((*v)@) == old(self)@,
            final(self)@ == registry_view(final(v)@),
    {
        &mut self.objects
    }
}

} // verus!
