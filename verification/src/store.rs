//! The resource side: the location record, the input shape that create and
//! update carry, and an in-memory store implementing the collaborator
//! contract — create with a fresh numeric identifier, get, update and
//! delete by identifier.

use std::collections::HashMap;
use vstd::prelude::*;

verus! {

/// A persisted resource: a location row addressed by its numeric
/// identifier.
#[derive(Clone, Debug, PartialEq)]
pub struct Location {
    pub id: i32,
    pub star_system: String,
    pub area: String,
}

/// The mutable fields of a location, as carried by create and update
/// requests (no id).
#[derive(Clone, Debug, PartialEq)]
pub struct UpsertLocation {
    pub star_system: String,
    pub area: String,
}

/// A store-side fault (connectivity, exhaustion), kept distinct from every
/// business failure such as a missing row.
#[derive(Clone, Copy, Debug, PartialEq, Eq, Structural)]
pub enum StoreFault {
    Unavailable,
}

/// An in-memory resource store. Its abstract value is the map from
/// identifier to stored row; identifiers are assigned in creation order,
/// starting at 1, and never reused.
pub struct LocationStore {
    rows: HashMap<i32, Location>,
    next_id: i32,
}

impl View for LocationStore {
    type V = Map<i32, Location>;

    closed spec fn view(&self) -> Map<i32, Location> {
        self.rows@
    }
}

impl LocationStore {
    pub closed spec fn spec_next_id(&self) -> int {
        self.next_id as int
    }

    /// Well-formedness: the next fresh identifier is positive and in
    /// machine range, every stored identifier lies below it, and every row
    /// is keyed by its own identifier.
    pub open spec fn wf(&self) -> bool {
        &&& 1 <= self.spec_next_id() <= i32::MAX as int
        &&& forall|id: i32| #[trigger] self@.contains_key(id) ==> 1 <= id < self.spec_next_id()
        &&& forall|id: i32| self@.contains_key(id) ==> (#[trigger] self@[id]).id == id
    }

    pub fn new() -> (s: Self)
        ensures
            s.wf(),
            s@ == Map::<i32, Location>::empty(),
            s.spec_next_id() == 1,
    {
        LocationStore { rows: HashMap::new(), next_id: 1 }
    }

    /// Stores a new row under a fresh identifier and returns it. Fails only
    /// when the identifier space is exhausted, the store's one fault.
    pub fn create(&mut self, item: UpsertLocation) -> (r: Result<Location, StoreFault>)
        requires
            old(self).wf(),
        ensures
            final(self).wf(),
            (r is Ok <==> old(self).spec_next_id() < i32::MAX as int),
            (match r {
                Result::Ok(loc) => {
                    &&& loc.id as int == old(self).spec_next_id()
                    &&& loc.star_system == item.star_system
                    &&& loc.area == item.area
                    &&& !old(self)@.contains_key(loc.id)
                    &&& final(self)@ == old(self)@.insert(loc.id, loc)
                    &&& final(self).spec_next_id() == old(self).spec_next_id() + 1
                },
                Result::Err(_) => *final(self) == *old(self),
            }),
    {
        if self.next_id == i32::MAX {
            return Result::Err(StoreFault::Unavailable);
        }
        let id = self.next_id;
        let loc = Location { id, star_system: item.star_system, area: item.area };
        let returned = Location {
            id,
            star_system: loc.star_system.clone(),
            area: loc.area.clone(),
        };
        self.rows.insert(id, loc);
        self.next_id = id + 1;
        proof {
            assert forall|x: i32| #[trigger] self@.contains_key(x) implies 1 <= x
                < self.spec_next_id() by {
                if x != id {
                    assert(old(self)@.contains_key(x));
                }
            }
            assert forall|x: i32| self@.contains_key(x) implies (#[trigger] self@[x]).id == x by {
                if x != id {
                    assert(old(self)@.contains_key(x));
                }
            }
        }
        Result::Ok(returned)
    }

    /// Reads the row stored under an identifier, if any.
    pub fn get(&self, location_id: i32) -> (r: Option<&Location>)
        ensures
            (match r {
                Option::Some(loc) => self@.contains_key(location_id) && *loc == self@[location_id],
                Option::None => !self@.contains_key(location_id),
            }),
    {
        self.rows.get(&location_id)
    }

    /// Replaces the mutable fields of the row stored under an identifier
    /// and returns the updated row; answers nothing when no such row
    /// exists, leaving the store unchanged.
    pub fn update(&mut self, location_id: i32, item: UpsertLocation) -> (r: Option<Location>)
        requires
            old(self).wf(),
        ensures
            final(self).wf(),
            (r is Some <==> old(self)@.contains_key(location_id)),
            (match r {
                Option::Some(loc) => {
                    &&& loc.id == location_id
                    &&& loc.star_system == item.star_system
                    &&& loc.area == item.area
                    &&& final(self)@ == old(self)@.insert(location_id, loc)
                    &&& final(self).spec_next_id() == old(self).spec_next_id()
                },
                Option::None => *final(self) == *old(self),
            }),
    {
        if self.rows.contains_key(&location_id) {
            let loc = Location { id: location_id, star_system: item.star_system, area: item.area };
            let returned = Location {
                id: location_id,
                star_system: loc.star_system.clone(),
                area: loc.area.clone(),
            };
            self.rows.insert(location_id, loc);
            proof {
                assert forall|x: i32| #[trigger] self@.contains_key(x) implies 1 <= x
                    < self.spec_next_id() by {
                    if x != location_id {
                        assert(old(self)@.contains_key(x));
                    } else {
                        assert(old(self)@.contains_key(location_id));
                    }
                }
                assert forall|x: i32| self@.contains_key(x) implies (#[trigger] self@[x]).id
                    == x by {
                    if x != location_id {
                        assert(old(self)@.contains_key(x));
                    }
                }
            }
            Option::Some(returned)
        } else {
            Option::None
        }
    }

    /// Removes the row stored under an identifier, if any; reports whether
    /// a row was removed. Removing an absent identifier is not a fault.
    pub fn delete(&mut self, location_id: i32) -> (r: bool)
        requires
            old(self).wf(),
        ensures
            final(self).wf(),
            r == old(self)@.contains_key(location_id),
            final(self)@ == old(self)@.remove(location_id),
            final(self).spec_next_id() == old(self).spec_next_id(),
    {
        let removed = self.rows.remove(&location_id);
        proof {
            assert(self.rows@ =~= old(self).rows@.remove(location_id));
            assert forall|x: i32| #[trigger] self@.contains_key(x) implies 1 <= x
                < self.spec_next_id() by {
                assert(old(self)@.contains_key(x));
            }
            assert forall|x: i32| self@.contains_key(x) implies (#[trigger] self@[x]).id == x by {
                assert(old(self)@.contains_key(x));
            }
        }
        removed.is_some()
    }
}

/// After a delete, a read of the same identifier finds nothing: removal is
/// visible to every later lookup of that identifier.
pub proof fn lemma_deleted_id_not_found(rows: Map<i32, Location>, id: i32)
    ensures
        !rows.remove(id).contains_key(id),
{
}

} // verus!
