//! The mapped areas of a user address space, as far as thread stacks need
//! them.
use vstd::prelude::*;

verus! {

/// Permission bit: readable.
pub const MAP_R: u8 = 2;

/// Permission bit: writable.
pub const MAP_W: u8 = 4;

/// Permission bit: executable.
pub const MAP_X: u8 = 8;

/// Permission bit: reachable from user mode.
pub const MAP_U: u8 = 16;

/// A range of virtual pages `[start_vpn, end_vpn)` mapped with `perm`.
#[derive(Clone, Copy, Debug, PartialEq, Eq, Structural)]
pub struct MapArea {
    pub start_vpn: u64,
    pub end_vpn: u64,
    pub perm: u8,
}

/// The areas mapped in one address space, in the order they were mapped.
pub struct MemorySet {
    areas: Vec<MapArea>,
}

impl View for MemorySet {
    type V = Seq<MapArea>;

    closed spec fn view(&self) -> Seq<MapArea> {
        self.areas@
    }
}

impl MemorySet {
    /// An address space with nothing mapped.
    pub fn new_bare() -> (r: MemorySet)
        ensures
            r@ == Seq::<MapArea>::empty(),
    {
        MemorySet { areas: Vec::new() }
    }

    /// The mapped areas, in the order they were mapped.
    pub fn areas(&self) -> (r: &[MapArea])
        ensures
            r@ == self@,
    {
        self.areas.as_slice()
    }

    /// Maps the pages `[start_vpn, end_vpn)` with `perm`, backed by fresh
    /// frames.
    pub fn insert_framed_area(&mut self, start_vpn: u64, end_vpn: u64, perm: u8)
        ensures
            final(self)@ == old(self)@.push(MapArea { start_vpn, end_vpn, perm }),
    {
        self.areas.push(MapArea { start_vpn, end_vpn, perm });
    }

    /// Unmaps the first area that starts at page `start_vpn`, if there is one.
    pub fn remove_area_with_start_vpn(&mut self, start_vpn: u64)
        ensures
            (forall|j: int| 0 <= j < old(self)@.len() ==> old(self)@[j].start_vpn != start_vpn)
                ==> final(self)@ == old(self)@,
            (exists|j: int| 0 <= j < old(self)@.len() && old(self)@[j].start_vpn == start_vpn)
                ==> exists|i: int|
                0 <= i < old(self)@.len() && old(self)@[i].start_vpn == start_vpn && (forall|j: int|
                    0 <= j < i ==> old(self)@[j].start_vpn != start_vpn) && final(self)@ == old(
                    self,
                )@.remove(i),
    {
        let mut i: usize = 0;
        while i < self.areas.len()
            invariant
                i <= self.areas@.len(),
                self.areas@ == old(self)@,
                forall|j: int| 0 <= j < i ==> self.areas@[j].start_vpn != start_vpn,
            decreases self.areas@.len() - i,
        {
            if self.areas[i].start_vpn == start_vpn {
                self.areas.remove(i);
                return;
            }
            i = i + 1;
        }
    }
}

} // verus!
