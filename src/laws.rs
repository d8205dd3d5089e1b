use vstd::prelude::*;

use crate::effects::{Effect, Notice};
use crate::grid::{CellContent, GridPoint};
use crate::player::PlayerView;
use crate::world::WorldView;

verus! {

/// In a new world no cell is free.
pub proof fn law_new_world_has_no_free_cell(x: i32, y: i32)
    ensures
        !WorldView::empty().is_free(x, y),
{
}

/// A cell that is not free stays so under every operation except a dig with
/// the value 0, or a box placed, at that very cell.
pub proof fn law_only_dig_or_box_frees(w: WorldView, x: i32, y: i32, a: i32, b: i32, val: i32)
    requires
        !w.is_free(x, y),
    ensures
        !(a == x && b == y && val == 0) ==> !w.dig(a, b, val).is_free(x, y),
        !(a == x && b == y) ==> !w.with_box(a, b).is_free(x, y),
        !w.mark_prize(a, b).is_free(x, y),
        !w.opened(a, b).is_free(x, y),
{
    let g = GridPoint { x, y };
    if !(a == x && b == y) {
        assert(GridPoint { x: a, y: b } != g);
    }
}

/// After a dig with the value 0 the cell is free and holds Floor.
pub proof fn law_dig_opens_floor(w: WorldView, x: i32, y: i32)
    ensures
        w.dig(x, y, 0).is_free(x, y),
        w.dig(x, y, 0).cells[GridPoint { x, y }] == CellContent::Floor,
{
}

/// A placed box makes its cell free; opening it leaves Floor; opening it
/// again reports that there is no box and changes nothing.
pub proof fn law_box_opens_once(w: WorldView, x: i32, y: i32)
    ensures
        w.with_box(x, y).is_free(x, y),
        w.with_box(x, y).has_box(GridPoint { x, y }),
        w.with_box(x, y).opened(x, y).cells[GridPoint { x, y }] == CellContent::Floor,
        w.with_box(x, y).opened(x, y).open_notice(x, y) == Some(Notice::NoPrizeBox),
        w.with_box(x, y).opened(x, y).opened(x, y) == w.with_box(x, y).opened(x, y),
{
}

/// Marking a cell without a box leaves the prize location as it was; in a
/// new world there is then still none.
pub proof fn law_mark_without_box_keeps_prize(w: WorldView, x: i32, y: i32)
    requires
        !w.has_box(GridPoint { x, y }),
    ensures
        w.mark_prize(x, y).prize == w.prize,
        WorldView::empty().mark_prize(x, y).prize == None::<GridPoint>,
{
}

/// Two hits in a row take both amounts off the hitpoints and leave the rest
/// of the player alone; each reports its own stats, the first one first.
pub proof fn law_damage_accumulates(p: PlayerView, d1: int, d2: int, log: Seq<Effect>)
    requires
        i32::MIN <= p.hitpoints <= i32::MAX,
        i32::MIN <= p.max_hitpoints <= i32::MAX,
        i32::MIN <= p.moves <= i32::MAX,
        i32::MIN <= p.hitpoints - d1 <= i32::MAX,
        i32::MIN <= p.hitpoints - d1 - d2 <= i32::MAX,
    ensures
        p.damaged(d1).damaged(d2) == (PlayerView { hitpoints: p.hitpoints - d1 - d2, ..p }),
        log.push(Effect::Stats(p.damaged(d1).stats())).push(
            Effect::Stats(p.damaged(d1).damaged(d2).stats()),
        ) == log + seq![
            Effect::Stats(
                crate::effects::Stats {
                    hitpoints: (p.hitpoints - d1) as i32,
                    max_hitpoints: p.max_hitpoints as i32,
                    moves: p.moves as i32,
                },
            ),
            Effect::Stats(
                crate::effects::Stats {
                    hitpoints: (p.hitpoints - d1 - d2) as i32,
                    max_hitpoints: p.max_hitpoints as i32,
                    moves: p.moves as i32,
                },
            ),
        ],
{
    assert(log.push(Effect::Stats(p.damaged(d1).stats())).push(
        Effect::Stats(p.damaged(d1).damaged(d2).stats()),
    ) =~= log + seq![Effect::Stats(p.damaged(d1).stats()), Effect::Stats(p.damaged(d1).damaged(d2).stats())]);
}

} // verus!
