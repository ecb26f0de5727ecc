use crate::game::entity::card::CardRef;
use vstd::prelude::*;

verus! {

/// The number of creature slots of a board.
pub const CREATURE_SLOTS: usize = 6;

/// The number of artifact slots of a board.
pub const ARTIFACT_SLOTS: usize = 3;

/// The number of enchantment slots of a board.
pub const ENCHANTMENT_SLOTS: usize = 3;

/// A player's side of the board: fixed slots in three categories, each empty
/// or holding a card.
#[derive(Debug)]
pub struct BoardView {
    pub creatures: [Option<CardRef>; 6],
    pub artifacts: [Option<CardRef>; 3],
    pub enchantments: [Option<CardRef>; 3],
}

impl BoardView {
    /// Whether every slot of the board is empty.
    pub open spec fn is_empty(self) -> bool {
        &&& forall|i: int| 0 <= i < 6 ==> self.creatures@[i] is None
        &&& forall|i: int| 0 <= i < 3 ==> self.artifacts@[i] is None
        &&& forall|i: int| 0 <= i < 3 ==> self.enchantments@[i] is None
    }
}

/// Copies what a board slot holds.
pub fn clone_ref(slot: &Option<CardRef>) -> (copy: Option<CardRef>)
    ensures
        copy == *slot,
{
    match slot {
        Some(card) => Some(card.clone()),
        None => None,
    }
}

/// Copies a list of card references.
pub fn clone_refs(refs: &Vec<CardRef>) -> (copy: Vec<CardRef>)
    ensures
        copy@ == refs@,
{
    let mut copy: Vec<CardRef> = Vec::new();
    let mut i: usize = 0;
    while i < refs.len()
        invariant
            0 <= i <= refs@.len(),
            copy@ == refs@.subrange(0, i as int),
        decreases refs@.len() - i,
    {
        copy.push(refs[i].clone());
        proof {
            assert(copy@ =~= refs@.subrange(0, i + 1));
        }
        i = i + 1;
    }
    proof {
        assert(refs@.subrange(0, i as int) =~= refs@);
    }
    copy
}

impl Clone for BoardView {
    fn clone(&self) -> (copy: BoardView)
        ensures
            copy.creatures@ == self.creatures@,
            copy.artifacts@ == self.artifacts@,
            copy.enchantments@ == self.enchantments@,
    {
        let copy = BoardView {
            creatures: [
                clone_ref(&self.creatures[0]),
                clone_ref(&self.creatures[1]),
                clone_ref(&self.creatures[2]),
                clone_ref(&self.creatures[3]),
                clone_ref(&self.creatures[4]),
                clone_ref(&self.creatures[5]),
            ],
            artifacts: [
                clone_ref(&self.artifacts[0]),
                clone_ref(&self.artifacts[1]),
                clone_ref(&self.artifacts[2]),
            ],
            enchantments: [
                clone_ref(&self.enchantments[0]),
                clone_ref(&self.enchantments[1]),
                clone_ref(&self.enchantments[2]),
            ],
        };
        proof {
            assert(copy.creatures@ =~= self.creatures@);
            assert(copy.artifacts@ =~= self.artifacts@);
            assert(copy.enchantments@ =~= self.enchantments@);
        }
        copy
    }
}

impl Clone for GraveyardView {
    fn clone(&self) -> (copy: GraveyardView)
        ensures
            copy.creatures@ == self.creatures@,
            copy.artifacts@ == self.artifacts@,
            copy.enchantments@ == self.enchantments@,
    {
        GraveyardView {
            creatures: clone_refs(&self.creatures),
            artifacts: clone_refs(&self.artifacts),
            enchantments: clone_refs(&self.enchantments),
        }
    }
}

impl Default for BoardView {
    /// The empty board.
    fn default() -> (board: BoardView)
        ensures
            board.is_empty(),
    {
        BoardView {
            artifacts: [None, None, None],
            enchantments: [None, None, None],
            creatures: [None, None, None, None, None, None],
        }
    }
}

/// The cards a player has lost, in the order they were lost, by category.
#[derive(Debug)]
pub struct GraveyardView {
    pub creatures: Vec<CardRef>,
    pub artifacts: Vec<CardRef>,
    pub enchantments: Vec<CardRef>,
}

impl GraveyardView {
    /// Whether the graveyard holds no card.
    pub open spec fn is_empty(self) -> bool {
        &&& self.creatures@.len() == 0
        &&& self.artifacts@.len() == 0
        &&& self.enchantments@.len() == 0
    }
}

impl Default for GraveyardView {
    /// The empty graveyard.
    fn default() -> (graveyard: GraveyardView)
        ensures
            graveyard.is_empty(),
    {
        GraveyardView { creatures: Vec::new(), artifacts: Vec::new(), enchantments: Vec::new() }
    }
}

} // verus!
