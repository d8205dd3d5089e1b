use vstd::prelude::*;

use crate::effects::{Effect, Notice};
use crate::grid::{CellContent, GridPoint};
use crate::player::{move_effects, PlayerCore, PlayerView};

verus! {

/// Damage dealt by a decoy box.
pub const TRAP_DAMAGE: i32 = 30;

/// The map that a list of entries stands for.
pub open spec fn map_of(s: Seq<(GridPoint, CellContent)>) -> Map<GridPoint, CellContent>
    decreases s.len(),
{
    if s.len() == 0 {
        Map::empty()
    } else {
        map_of(s.drop_last()).insert(s.last().0, s.last().1)
    }
}

/// No coordinate has two entries.
pub open spec fn keys_unique(s: Seq<(GridPoint, CellContent)>) -> bool {
    forall|i: int, j: int| 0 <= i < j < s.len() ==> s[i].0 != s[j].0
}

/// The entries after `g` is set to `c`: an entry for `g` is changed where it
/// stands; otherwise a new one goes last.
pub open spec fn upsert(s: Seq<(GridPoint, CellContent)>, g: GridPoint, c: CellContent) -> Seq<
    (GridPoint, CellContent),
> {
    if exists|i: int| 0 <= i < s.len() && s[i].0 == g {
        s.update(choose|i: int| 0 <= i < s.len() && s[i].0 == g, (g, c))
    } else {
        s.push((g, c))
    }
}

proof fn lemma_map_of_lookup(s: Seq<(GridPoint, CellContent)>, i: int)
    requires
        keys_unique(s),
        0 <= i < s.len(),
    ensures
        map_of(s).contains_key(s[i].0),
        map_of(s)[s[i].0] == s[i].1,
    decreases s.len(),
{
    if i < s.len() - 1 {
        let t = s.drop_last();
        lemma_map_of_lookup(t, i);
    }
}

proof fn lemma_map_of_absent(s: Seq<(GridPoint, CellContent)>, g: GridPoint)
    requires
        forall|i: int| 0 <= i < s.len() ==> s[i].0 != g,
    ensures
        !map_of(s).contains_key(g),
    decreases s.len(),
{
    if s.len() > 0 {
        lemma_map_of_absent(s.drop_last(), g);
    }
}

proof fn lemma_map_of_update(s: Seq<(GridPoint, CellContent)>, i: int, c: CellContent)
    requires
        keys_unique(s),
        0 <= i < s.len(),
    ensures
        map_of(s.update(i, (s[i].0, c))) =~= map_of(s).insert(s[i].0, c),
    decreases s.len(),
{
    let u = s.update(i, (s[i].0, c));
    if i == s.len() - 1 {
        assert(u.drop_last() =~= s.drop_last());
        assert forall|j: int| 0 <= j < s.len() - 1 implies s.drop_last()[j].0 != s[i].0 by {}
        lemma_map_of_absent(s.drop_last(), s[i].0);
    } else {
        let t = s.drop_last();
        assert(u.drop_last() =~= t.update(i, (t[i].0, c)));
        lemma_map_of_update(t, i, c);
    }
}

proof fn lemma_map_of_push(s: Seq<(GridPoint, CellContent)>, e: (GridPoint, CellContent))
    ensures
        map_of(s.push(e)) == map_of(s).insert(e.0, e.1),
{
    assert(s.push(e).drop_last() =~= s);
}

/// The mathematical state of a world: the known cells and the prize location.
pub struct WorldView {
    pub cells: Map<GridPoint, CellContent>,
    pub prize: Option<GridPoint>,
}

impl WorldView {
    /// A world with no known cell and no prize.
    pub open spec fn empty() -> WorldView {
        WorldView { cells: Map::empty(), prize: None }
    }

    /// A move onto (x, y) is possible: the cell is known (Floor or Box).
    pub open spec fn is_free(self, x: i32, y: i32) -> bool {
        self.cells.contains_key(GridPoint { x, y })
    }

    pub open spec fn has_box(self, g: GridPoint) -> bool {
        self.cells.contains_key(g) && self.cells[g] == CellContent::Box
    }

    /// The state after a dig event; only the value 0 opens the cell.
    pub open spec fn dig(self, x: i32, y: i32, val: i32) -> WorldView {
        if val == 0 {
            WorldView { cells: self.cells.insert(GridPoint { x, y }, CellContent::Floor), ..self }
        } else {
            self
        }
    }

    /// The state after a box is placed at (x, y), over whatever was there.
    pub open spec fn with_box(self, x: i32, y: i32) -> WorldView {
        WorldView { cells: self.cells.insert(GridPoint { x, y }, CellContent::Box), ..self }
    }

    /// The state after (x, y) is marked as the prize: only a box can be.
    pub open spec fn mark_prize(self, x: i32, y: i32) -> WorldView {
        if self.has_box(GridPoint { x, y }) {
            WorldView { prize: Some(GridPoint { x, y }), ..self }
        } else {
            self
        }
    }

    /// The message that opening (x, y) shows, if any.
    pub open spec fn open_notice(self, x: i32, y: i32) -> Option<Notice> {
        let g = GridPoint { x, y };
        if !self.has_box(g) {
            Some(Notice::NoPrizeBox)
        } else {
            match self.prize {
                None => None,
                Some(p) => if p == g {
                    Some(Notice::ModuleFound)
                } else {
                    Some(Notice::BoobyTrap)
                },
            }
        }
    }

    /// Opening (x, y) springs a trap.
    pub open spec fn is_trap(self, x: i32, y: i32) -> bool {
        self.open_notice(x, y) == Some(Notice::BoobyTrap)
    }

    /// The state after (x, y) is opened: a box becomes Floor, anything else
    /// stays; the prize marker is kept.
    pub open spec fn opened(self, x: i32, y: i32) -> WorldView {
        if self.has_box(GridPoint { x, y }) {
            WorldView { cells: self.cells.insert(GridPoint { x, y }, CellContent::Floor), ..self }
        } else {
            self
        }
    }

    /// The plain draws that restore the glyph at `g`, if it is known.
    pub open spec fn redraw_effects(self, g: GridPoint) -> Seq<Effect> {
        if self.cells.contains_key(g) {
            seq![Effect::Draw { x: g.x, y: g.y, glyph: self.cells[g] }]
        } else {
            seq![]
        }
    }
}

/// What opening a cell reports: its message, if any, then the player's new
/// stats where a trap hurt them.
pub open spec fn open_effects(notice: Option<Notice>, after: PlayerView) -> Seq<Effect> {
    match notice {
        None => seq![],
        Some(Notice::BoobyTrap) => seq![
            Effect::Notify(Notice::BoobyTrap),
            Effect::Stats(after.stats()),
        ],
        Some(n) => seq![Effect::Notify(n)],
    }
}

/// The plain draw of one entry of the map.
pub open spec fn draw_of(e: (GridPoint, CellContent)) -> Effect {
    Effect::Draw { x: e.0.x, y: e.0.y, glyph: e.1 }
}

/// The known cells, in the order they were first created, and the prize.
pub struct Engine {
    points: Vec<(GridPoint, CellContent)>,
    prize_location: Option<GridPoint>,
}

impl View for Engine {
    type V = WorldView;

    open spec fn view(&self) -> WorldView {
        WorldView { cells: map_of(self.entries()), prize: self.prize() }
    }
}

impl Engine {
    /// The known cells in the order they were first created, which is the
    /// order in which the map is drawn.
    pub closed spec fn entries(&self) -> Seq<(GridPoint, CellContent)> {
        self.points@
    }

    pub closed spec fn prize(&self) -> Option<GridPoint> {
        self.prize_location
    }

    pub open spec fn wf(&self) -> bool {
        keys_unique(self.entries())
    }

    pub fn new() -> (r: Engine)
        ensures
            r.wf(),
            r@ == WorldView::empty(),
            r.entries().len() == 0,
    {
        Engine { points: Vec::new(), prize_location: None }
    }

    /// The index of the entry for `g`, if there is one.
    fn find(&self, g: GridPoint) -> (r: Option<usize>)
        ensures
            match r {
                Some(i) => i < self.points@.len() && self.points@[i as int].0 == g,
                None => forall|i: int| 0 <= i < self.points@.len() ==> self.points@[i].0 != g,
            },
    {
        let mut i: usize = 0;
        while i < self.points.len()
            invariant
                i <= self.points@.len(),
                forall|j: int| 0 <= j < i ==> self.points@[j].0 != g,
            decreases self.points@.len() - i,
        {
            if self.points[i].0 == g {
                return Some(i);
            }
            i = i + 1;
        }
        None
    }

    /// The content at `g`, if the cell is known.
    fn get(&self, g: GridPoint) -> (r: Option<CellContent>)
        requires
            self.wf(),
        ensures
            r == if self@.cells.contains_key(g) {
                Some(self@.cells[g])
            } else {
                None::<CellContent>
            },
    {
        match self.find(g) {
            Some(i) => {
                proof {
                    lemma_map_of_lookup(self.points@, i as int);
                }
                Some(self.points[i].1)
            },
            None => {
                proof {
                    lemma_map_of_absent(self.points@, g);
                }
                None
            },
        }
    }

    /// Sets the content at `g`; a new cell goes after all known ones.
    fn set(&mut self, g: GridPoint, c: CellContent)
        requires
            old(self).wf(),
        ensures
            final(self).wf(),
            final(self)@ == (WorldView { cells: old(self)@.cells.insert(g, c), ..old(self)@ }),
            final(self).entries() == upsert(old(self).entries(), g, c),
    {
        match self.find(g) {
            Some(i) => {
                proof {
                    lemma_map_of_update(self.points@, i as int, c);
                    let j = choose|j: int| 0 <= j < self.points@.len() && self.points@[j].0 == g;
                    assert(j == i);
                }
                self.points.set(i, (g, c));
            },
            None => {
                proof {
                    lemma_map_of_push(self.points@, (g, c));
                }
                self.points.push((g, c));
            },
        }
    }
    /// Opens the cell at (x, y). A cell without a box is reported and left as
    /// it is. A box becomes Floor; if a prize is marked, the user learns
    /// whether this was it, and a decoy deals trap damage to the player.
    pub fn open_box(&mut self, pc: &mut PlayerCore, x: i32, y: i32, fx: &mut Vec<Effect>)
        requires
            old(self).wf(),
            old(self)@.is_trap(x, y) ==> old(pc)@.hitpoints - TRAP_DAMAGE >= i32::MIN,
        ensures
            final(self).wf(),
            final(self)@ == old(self)@.opened(x, y),
            final(self).entries() == if old(self)@.has_box(GridPoint { x, y }) {
                upsert(old(self).entries(), GridPoint { x, y }, CellContent::Floor)
            } else {
                old(self).entries()
            },
            final(pc)@ == if old(self)@.is_trap(x, y) {
                old(pc)@.damaged(TRAP_DAMAGE as int)
            } else {
                old(pc)@
            },
            final(fx)@ == old(fx)@ + open_effects(old(self)@.open_notice(x, y), final(pc)@),
    {
        let spot = GridPoint { x, y };
        if self.get(spot) != Some(CellContent::Box) {
            fx.push(Effect::Notify(Notice::NoPrizeBox));
            return;
        }
        match self.prize_location {
            None => {},
            Some(loc) => {
                if loc == spot {
                    fx.push(Effect::Notify(Notice::ModuleFound));
                } else {
                    fx.push(Effect::Notify(Notice::BoobyTrap));
                    proof {
                        pc.lemma_view_in_range();
                    }
                    pc.take_damage(TRAP_DAMAGE, fx);
                }
            },
        }
        self.remove_box(spot);
    }

    /// Turns the cell at `loc` into Floor.
    fn remove_box(&mut self, loc: GridPoint)
        requires
            old(self).wf(),
        ensures
            final(self).wf(),
            final(self)@ == (WorldView {
                cells: old(self)@.cells.insert(loc, CellContent::Floor),
                ..old(self)@
            }),
            final(self).entries() == upsert(old(self).entries(), loc, CellContent::Floor),
    {
        self.set(loc, CellContent::Floor);
    }

    /// Marks (x, y) as the prize if it holds a box; otherwise nothing changes.
    pub fn mark_wasmprize(&mut self, x: i32, y: i32)
        requires
            old(self).wf(),
        ensures
            final(self).wf(),
            final(self)@ == old(self)@.mark_prize(x, y),
            final(self).entries() == old(self).entries(),
    {
        let g = GridPoint { x, y };
        match self.get(g) {
            Some(CellContent::Box) => self.prize_location = Some(g),
            _ => {},
        }
    }

    /// Whether opening (x, y) now would spring a trap: the cell holds a box,
    /// a prize is marked, and it is elsewhere.
    pub fn is_trap(&self, x: i32, y: i32) -> (r: bool)
        requires
            self.wf(),
        ensures
            r == self@.is_trap(x, y),
    {
        let g = GridPoint { x, y };
        match (self.get(g), self.prize_location) {
            (Some(CellContent::Box), Some(p)) => p != g,
            _ => false,
        }
    }

    /// Whether (x, y) is known, as Floor or Box.
    pub fn free_cell(&self, x: i32, y: i32) -> (r: bool)
        requires
            self.wf(),
        ensures
            r == self@.is_free(x, y),
    {
        let g = GridPoint { x, y };
        match self.get(g) {
            None => false,
            Some(v) => v == CellContent::Floor || v == CellContent::Box,
        }
    }

    /// A dig event: the value 0 makes (x, y) Floor; any other is ignored.
    pub fn on_dig(&mut self, x: i32, y: i32, val: i32)
        requires
            old(self).wf(),
        ensures
            final(self).wf(),
            final(self)@ == old(self)@.dig(x, y, val),
            final(self).entries() == if val == 0 {
                upsert(old(self).entries(), GridPoint { x, y }, CellContent::Floor)
            } else {
                old(self).entries()
            },
    {
        if val == 0 {
            let pt = GridPoint { x, y };
            self.set(pt, CellContent::Floor);
        }
    }

    /// Puts a box at (x, y), over whatever the cell held.
    pub fn place_box(&mut self, x: i32, y: i32)
        requires
            old(self).wf(),
        ensures
            final(self).wf(),
            final(self)@ == old(self)@.with_box(x, y),
            final(self).entries() == upsert(old(self).entries(), GridPoint { x, y }, CellContent::Box),
    {
        let g = GridPoint { x, y };
        self.set(g, CellContent::Box);
    }

    /// Draws every known cell, in the order the cells were created.
    pub fn draw_map(&self, fx: &mut Vec<Effect>)
        ensures
            final(fx)@ == old(fx)@ + self.entries().map_values(|e| draw_of(e)),
    {
        let ghost start = fx@;
        let mut i: usize = 0;
        while i < self.points.len()
            invariant
                i <= self.points@.len(),
                fx@ == start + self.points@.take(i as int).map_values(|e| draw_of(e)),
            decreases self.points@.len() - i,
        {
            let (k, v) = self.points[i];
            fx.push(Effect::Draw { x: k.x, y: k.y, glyph: v });
            proof {
                assert(self.points@.take(i + 1) =~= self.points@.take(i as int).push((k, v)));
            }
            i = i + 1;
        }
        proof {
            assert(self.points@.take(i as int) =~= self.points@);
        }
    }

    /// Re-draws the glyph at `g`, if the cell is known.
    fn redraw_at(&self, g: GridPoint, fx: &mut Vec<Effect>)
        requires
            self.wf(),
        ensures
            final(fx)@ == old(fx)@ + self@.redraw_effects(g),
    {
        if let Some(v) = self.get(g) {
            fx.push(Effect::Draw { x: g.x, y: g.y, glyph: v });
        }
    }

    /// Moves the player to (x, y). The glyph of the cell being left is
    /// restored first, then the player moves and is drawn there.
    pub fn move_player(&mut self, pc: &mut PlayerCore, x: i32, y: i32, fx: &mut Vec<Effect>)
        requires
            old(self).wf(),
            old(pc)@.moves < i32::MAX,
        ensures
            *final(self) == *old(self),
            final(pc)@ == old(pc)@.moved(x, y),
            final(fx)@ == old(fx)@ + old(self)@.redraw_effects(old(pc)@.loc) + move_effects(
                final(pc)@,
            ),
    {
        let here = pc.position();
        self.redraw_at(here, fx);
        pc.move_to(x, y, fx);
    }
}

} // verus!
