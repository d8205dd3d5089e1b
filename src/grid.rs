use vstd::prelude::*;

verus! {

/// A cell coordinate on the map.
#[derive(PartialEq, Eq, Structural, Clone, Copy, Debug, Hash, PartialOrd, Ord)]
pub struct GridPoint {
    pub x: i32,
    pub y: i32,
}

impl GridPoint {
    pub fn new(x: i32, y: i32) -> (r: GridPoint)
        ensures
            r == (GridPoint { x, y }),
    {
        GridPoint { x, y }
    }
}

/// What a discovered cell holds. A coordinate with no entry is undiscovered.
#[derive(PartialEq, Eq, Structural, Clone, Copy, Debug, Hash)]
pub enum CellContent {
    Floor,
    Box,
}

impl CellContent {
    /// The glyph drawn for this content.
    pub fn glyph(&self) -> (r: &'static str)
        ensures
            r@ == glyph_of(*self),
    {
        match self {
            CellContent::Floor => {
                proof {
                    reveal_strlit(".");
                }
                "."
            },
            CellContent::Box => {
                proof {
                    reveal_strlit("*");
                }
                "*"
            },
        }
    }
}

pub open spec fn glyph_of(c: CellContent) -> Seq<char> {
    match c {
        CellContent::Floor => seq!['.'],
        CellContent::Box => seq!['*'],
    }
}

} // verus!
