use vstd::prelude::*;

use crate::effects::{Effect, Stats};
use crate::grid::GridPoint;

verus! {

/// Hitpoints and maximum hitpoints of a new player.
pub const START_HITPOINTS: i32 = 100;

/// The mathematical state of a player.
pub struct PlayerView {
    pub loc: GridPoint,
    pub moves: int,
    pub hitpoints: int,
    pub max_hitpoints: int,
    pub icon: Seq<char>,
    pub color: Seq<char>,
}

impl PlayerView {
    /// The state after a move to (x, y).
    pub open spec fn moved(self, x: i32, y: i32) -> PlayerView {
        PlayerView { loc: GridPoint { x, y }, moves: self.moves + 1, ..self }
    }

    /// The state after taking `hits` damage; hitpoints may go negative.
    pub open spec fn damaged(self, hits: int) -> PlayerView {
        PlayerView { hitpoints: self.hitpoints - hits, ..self }
    }

    pub open spec fn stats(self) -> Stats {
        Stats {
            hitpoints: self.hitpoints as i32,
            max_hitpoints: self.max_hitpoints as i32,
            moves: self.moves as i32,
        }
    }
}

/// The effects of a player's move: the player is drawn at the new place, then
/// the new stats are reported.
pub open spec fn move_effects(after: PlayerView) -> Seq<Effect> {
    seq![Effect::DrawPlayer { x: after.loc.x, y: after.loc.y }, Effect::Stats(after.stats())]
}

/// A player: position, health, move counter and look.
pub struct PlayerCore {
    loc: GridPoint,
    moves: i32,
    hitpoints: i32,
    max_hitpoints: i32,
    icon: String,
    color: String,
}

impl View for PlayerCore {
    type V = PlayerView;

    closed spec fn view(&self) -> PlayerView {
        PlayerView {
            loc: self.loc,
            moves: self.moves as int,
            hitpoints: self.hitpoints as int,
            max_hitpoints: self.max_hitpoints as int,
            icon: self.icon@,
            color: self.color@,
        }
    }
}

impl PlayerCore {
    /// A move counter only ever counts up from zero.
    #[verifier::type_invariant]
    closed spec fn inv(&self) -> bool {
        self.moves >= 0
    }

    /// The counters of a player fit the machine integers they are kept in.
    pub proof fn lemma_view_in_range(&self)
        ensures
            i32::MIN <= self@.hitpoints <= i32::MAX,
            i32::MIN <= self@.max_hitpoints <= i32::MAX,
            i32::MIN <= self@.moves <= i32::MAX,
    {
    }

    pub fn new(x: i32, y: i32, icon: &str, color: &str) -> (r: PlayerCore)
        ensures
            r@ == (PlayerView {
                loc: GridPoint { x, y },
                moves: 0,
                hitpoints: START_HITPOINTS as int,
                max_hitpoints: START_HITPOINTS as int,
                icon: icon@,
                color: color@,
            }),
    {
        PlayerCore {
            loc: GridPoint { x, y },
            icon: icon.to_owned(),
            color: color.to_owned(),
            moves: 0,
            hitpoints: START_HITPOINTS,
            max_hitpoints: START_HITPOINTS,
        }
    }

    pub fn x(&self) -> (r: i32)
        ensures
            r == self@.loc.x,
    {
        self.loc.x
    }

    pub fn y(&self) -> (r: i32)
        ensures
            r == self@.loc.y,
    {
        self.loc.y
    }

    pub fn position(&self) -> (r: GridPoint)
        ensures
            r == self@.loc,
    {
        self.loc
    }

    pub fn icon(&self) -> (r: &str)
        ensures
            r@ == self@.icon,
    {
        self.icon.as_str()
    }

    pub fn color(&self) -> (r: &str)
        ensures
            r@ == self@.color,
    {
        self.color.as_str()
    }

    /// The record that a stats notification carries.
    pub fn stats(&self) -> (r: Stats)
        ensures
            r == self@.stats(),
            r.moves >= 0,
    {
        proof {
            use_type_invariant(self);
        }
        Stats { hitpoints: self.hitpoints, max_hitpoints: self.max_hitpoints, moves: self.moves }
    }

    /// Draws the player's icon, in its color, at its position.
    pub fn draw(&self, fx: &mut Vec<Effect>)
        ensures
            final(fx)@ == old(fx)@.push(Effect::DrawPlayer { x: self@.loc.x, y: self@.loc.y }),
    {
        fx.push(Effect::DrawPlayer { x: self.loc.x, y: self.loc.y });
    }

    /// Reports the current stats to the host.
    pub fn emit_stats(&self, fx: &mut Vec<Effect>)
        ensures
            final(fx)@ == old(fx)@.push(Effect::Stats(self@.stats())),
    {
        let s = self.stats();
        fx.push(Effect::Stats(s));
    }

    /// Moves to (x, y): the player is redrawn there, the move is counted, and
    /// the new stats are reported.
    pub fn move_to(&mut self, x: i32, y: i32, fx: &mut Vec<Effect>)
        requires
            old(self)@.moves < i32::MAX,
        ensures
            final(self)@ == old(self)@.moved(x, y),
            final(fx)@ == old(fx)@ + move_effects(final(self)@),
    {
        proof {
            use_type_invariant(&*self);
        }
        self.loc = GridPoint { x, y };
        self.draw(fx);
        self.moves = self.moves + 1;
        self.emit_stats(fx);
    }

    /// Subtracts `hits` from the hitpoints, with no lower bound, reports the
    /// new stats and returns the new hitpoints.
    pub fn take_damage(&mut self, hits: i32, fx: &mut Vec<Effect>) -> (r: i32)
        requires
            i32::MIN <= old(self)@.hitpoints - hits <= i32::MAX,
        ensures
            final(self)@ == old(self)@.damaged(hits as int),
            r == final(self)@.hitpoints,
            final(fx)@ == old(fx)@.push(Effect::Stats(final(self)@.stats())),
    {
        proof {
            use_type_invariant(&*self);
        }
        self.hitpoints = self.hitpoints - hits;
        self.emit_stats(fx);
        self.hitpoints
    }
}

} // verus!
