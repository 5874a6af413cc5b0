//! The playable characters: their order on the select screen, their names,
//! the names of their special and super moves, and their signature colours.

use vstd::prelude::*;

verus! {

/// One of the four playable characters.
#[derive(Clone, Copy, Debug, PartialEq, Eq, Structural)]
pub enum Character {
    DeeJay,
    Rose,
    FeiLong,
    Cammy,
}

/// Position of a character on the select screen, from left to right.
pub open spec fn slot(character: Character) -> nat {
    match character {
        Character::DeeJay => 0,
        Character::Rose => 1,
        Character::FeiLong => 2,
        Character::Cammy => 3,
    }
}

/// The character standing in a slot of the select screen.
pub open spec fn in_slot(slot: nat) -> Character
    recommends
        slot < 4,
{
    if slot == 0 {
        Character::DeeJay
    } else if slot == 1 {
        Character::Rose
    } else if slot == 2 {
        Character::FeiLong
    } else {
        Character::Cammy
    }
}

/// The name shown on a character's card and health bar.
pub open spec fn display_name(character: Character) -> Seq<char> {
    match character {
        Character::DeeJay => "DEE JAY"@,
        Character::Rose => "ROSE"@,
        Character::FeiLong => "FEI LONG"@,
        Character::Cammy => "CAMMY"@,
    }
}

/// The name of a special move: variant 0 and 1 are named moves, every
/// other variant is the character's third special.
pub open spec fn special_move_name(character: Character, variant: u8) -> Seq<char> {
    match character {
        Character::DeeJay => if variant == 0 {
            "Air Slasher"@
        } else if variant == 1 {
            "Machine Gun Upper"@
        } else {
            "Double Rolling Sobat"@
        },
        Character::Rose => if variant == 0 {
            "Soul Spark"@
        } else if variant == 1 {
            "Soul Throw"@
        } else {
            "Soul Spiral"@
        },
        Character::FeiLong => if variant == 0 {
            "Rekka Chain"@
        } else if variant == 1 {
            "Flame Rise"@
        } else {
            "Flying Kick"@
        },
        Character::Cammy => if variant == 0 {
            "Spiral Arrow"@
        } else if variant == 1 {
            "Cannon Spike"@
        } else {
            "Hooligan Rush"@
        },
    }
}

/// The name of a character's super move.
pub open spec fn super_move_name(character: Character) -> Seq<char> {
    match character {
        Character::DeeJay => "SOBAT CARNIVAL"@,
        Character::Rose => "AURA SOUL STORM"@,
        Character::FeiLong => "DRAGON RUSH"@,
        Character::Cammy => "SPIN DRIVE SMASHER"@,
    }
}

/// A character's signature colour as red, green, blue and alpha bytes.
pub open spec fn signature_rgba(character: Character) -> (u8, u8, u8, u8) {
    match character {
        Character::DeeJay => (255, 132, 48, 255),
        Character::Rose => (215, 83, 255, 255),
        Character::FeiLong => (255, 151, 58, 255),
        Character::Cammy => (91, 238, 193, 255),
    }
}

impl Character {
    /// All characters in select-screen order.
    pub fn all() -> (roster: [Character; 4])
        ensures
            forall|i: int| 0 <= i < 4 ==> roster@[i] == in_slot(i as nat),
    {
        [Character::DeeJay, Character::Rose, Character::FeiLong, Character::Cammy]
    }

    /// Position of the character on the select screen.
    pub fn index(self) -> (i: usize)
        ensures
            i == slot(self),
            i < 4,
    {
        match self {
            Character::DeeJay => 0,
            Character::Rose => 1,
            Character::FeiLong => 2,
            Character::Cammy => 3,
        }
    }

    /// The character in slot `i` of the select screen.
    pub fn from_index(i: usize) -> (character: Character)
        requires
            i < 4,
        ensures
            character == in_slot(i as nat),
            slot(character) == i,
    {
        if i == 0 {
            Character::DeeJay
        } else if i == 1 {
            Character::Rose
        } else if i == 2 {
            Character::FeiLong
        } else {
            Character::Cammy
        }
    }

    /// The name shown on the character's card and health bar.
    pub fn name(self) -> (s: &'static str)
        ensures
            s@ == display_name(self),
    {
        match self {
            Character::DeeJay => "DEE JAY",
            Character::Rose => "ROSE",
            Character::FeiLong => "FEI LONG",
            Character::Cammy => "CAMMY",
        }
    }

    /// The signature colour, as red, green, blue and alpha bytes.
    pub fn color_rgba(self) -> (rgba: (u8, u8, u8, u8))
        ensures
            rgba == signature_rgba(self),
    {
        match self {
            Character::DeeJay => (255, 132, 48, 255),
            Character::Rose => (215, 83, 255, 255),
            Character::FeiLong => (255, 151, 58, 255),
            Character::Cammy => (91, 238, 193, 255),
        }
    }

    /// The name of special move `variant`.
    pub fn special_name(self, variant: u8) -> (s: &'static str)
        ensures
            s@ == special_move_name(self, variant),
    {
        match self {
            Character::DeeJay => if variant == 0 {
                "Air Slasher"
            } else if variant == 1 {
                "Machine Gun Upper"
            } else {
                "Double Rolling Sobat"
            },
            Character::Rose => if variant == 0 {
                "Soul Spark"
            } else if variant == 1 {
                "Soul Throw"
            } else {
                "Soul Spiral"
            },
            Character::FeiLong => if variant == 0 {
                "Rekka Chain"
            } else if variant == 1 {
                "Flame Rise"
            } else {
                "Flying Kick"
            },
            Character::Cammy => if variant == 0 {
                "Spiral Arrow"
            } else if variant == 1 {
                "Cannon Spike"
            } else {
                "Hooligan Rush"
            },
        }
    }

    /// The name of the character's super move.
    pub fn super_name(self) -> (s: &'static str)
        ensures
            s@ == super_move_name(self),
    {
        match self {
            Character::DeeJay => "SOBAT CARNIVAL",
            Character::Rose => "AURA SOUL STORM",
            Character::FeiLong => "DRAGON RUSH",
            Character::Cammy => "SPIN DRIVE SMASHER",
        }
    }
}

/// The character `steps` slots away from `current` on the select screen,
/// wrapping around at either end.
pub open spec fn cycled(current: Character, steps: int) -> Character {
    in_slot(((slot(current) + steps) % 4) as nat)
}

/// The character a select cursor lands on after moving `nav` slots from
/// `current`; moving past either end wraps around.
pub fn cycle_pick(current: Character, nav: i8) -> (next: Character)
    ensures
        next == cycled(current, nav as int),
        slot(next) == (slot(current) + nav) % 4,
{
    // 128 is a multiple of four, so the shift keeps the remainder.
    let shifted: u16 = (current.index() as u16) + ((nav as i16 + 128) as u16);
    Character::from_index((shifted % 4) as usize)
}

/// The slot numbering and the slot lookup undo each other.
pub proof fn lemma_slot_round_trip(character: Character)
    ensures
        in_slot(slot(character)) == character,
        slot(character) < 4,
{
}

/// Moving the select cursor one slot to the right and then one slot to the
/// left comes back to the character it started on, from every slot.
pub proof fn lemma_cycle_back_and_forth(character: Character)
    ensures
        cycled(cycled(character, 1), -1) == character,
        cycled(cycled(character, -1), 1) == character,
{
}

} // verus!
