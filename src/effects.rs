use vstd::prelude::*;

use crate::grid::CellContent;

verus! {

/// The record pushed to the host after every change of a player's state.
#[derive(PartialEq, Eq, Structural, Clone, Copy, Debug)]
pub struct Stats {
    pub hitpoints: i32,
    pub max_hitpoints: i32,
    pub moves: i32,
}

/// A message shown to the user when a box is opened.
#[derive(PartialEq, Eq, Structural, Clone, Copy, Debug)]
pub enum Notice {
    /// The cell holds no box.
    NoPrizeBox,
    /// The opened box held the prize.
    ModuleFound,
    /// The opened box was a decoy.
    BoobyTrap,
}

impl Notice {
    /// The text shown to the user.
    pub fn message(&self) -> (r: &'static str)
        ensures
            r@ == message_of(*self),
    {
        match self {
            Notice::NoPrizeBox => {
                proof {
                    reveal_strlit("There is no prize box here.");
                }
                "There is no prize box here."
            },
            Notice::ModuleFound => {
                proof {
                    reveal_strlit("Congratulations! You've found the WebAssembly Module!");
                }
                "Congratulations! You've found the WebAssembly Module!"
            },
            Notice::BoobyTrap => {
                proof {
                    reveal_strlit("Woops! This was booby trap!");
                }
                "Woops! This was booby trap!"
            },
        }
    }
}

pub open spec fn message_of(n: Notice) -> Seq<char> {
    match n {
        Notice::NoPrizeBox => "There is no prize box here."@,
        Notice::ModuleFound => "Congratulations! You've found the WebAssembly Module!"@,
        Notice::BoobyTrap => "Woops! This was booby trap!"@,
    }
}

/// One action for the host to perform, in the order the log holds them.
#[derive(PartialEq, Eq, Structural, Clone, Copy, Debug)]
pub enum Effect {
    /// Plain draw of a map glyph.
    Draw { x: i32, y: i32, glyph: CellContent },
    /// Colored draw of the player's icon, in the player's color.
    DrawPlayer { x: i32, y: i32 },
    /// Stats notification to the host's observer.
    Stats(Stats),
    /// Message to the user.
    Notify(Notice),
}

} // verus!
