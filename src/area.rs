//! Regions, the keys under which shards are registered.

use vstd::prelude::*;

verus! {

/// A region: one partition of the data, held by its own shard.
#[derive(Debug, Clone, Copy, PartialEq, Eq, Hash, Structural)]
pub enum Area {
    Unknown,
    Russia,
    Usa,
}

/// Number of regions, and so of shard slots in a router.
pub const AREA_COUNT: usize = 3;

impl Area {
    /// Position of the region's slot in a router's shard table.
    pub open spec fn index_spec(self) -> int {
        match self {
            Area::Unknown => 0,
            Area::Russia => 1,
            Area::Usa => 2,
        }
    }

    /// The region's tag, as the database procedures spell it.
    pub open spec fn tag_spec(self) -> Seq<char> {
        match self {
            Area::Unknown => "Unknown"@,
            Area::Russia => "Russia"@,
            Area::Usa => "USA"@,
        }
    }

    /// Position of the region's slot in a router's shard table.
    pub fn index(&self) -> (r: usize)
        ensures
            r as int == self.index_spec(),
            r < AREA_COUNT,
    {
        match self {
            Area::Unknown => 0,
            Area::Russia => 1,
            Area::Usa => 2,
        }
    }

    /// The region's tag, as the database procedures spell it.
    pub fn tag(&self) -> (r: String)
        ensures
            r@ == self.tag_spec(),
    {
        match self {
            Area::Unknown => "Unknown".to_string(),
            Area::Russia => "Russia".to_string(),
            Area::Usa => "USA".to_string(),
        }
    }
}

/// Two regions share a slot only if they are the same region.
pub proof fn lemma_index_injective(a: Area, b: Area)
    ensures
        a.index_spec() == b.index_spec() <==> a == b,
{
}

impl Default for Area {
    fn default() -> (r: Area)
        ensures
            r == Area::Unknown,
    {
        Area::Unknown
    }
}

} // verus!
