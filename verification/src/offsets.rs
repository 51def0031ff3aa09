//! Where the watched values lie in the game's memory.

use vstd::prelude::*;

verus! {

/// Byte addresses of the watched values, relative to the start of the game's
/// memory.
#[derive(Clone, Copy, Debug, PartialEq, Eq)]
pub struct Offsets {
    /// The game identifier, 11 bytes.
    pub gamecode_ntsc: u32,
    /// Health, 2 bytes.
    pub hp: u32,
    /// The in-game clock, 4 bytes, 30 ticks to the second.
    pub igt: u32,
    /// The id of the current room, 2 bytes.
    pub map_id: u32,
    /// The first of 12 inventory slots, each a record of three 2-byte entries.
    pub item_1: u32,
    /// The ending flag, 2 bytes.
    pub ending: u32,
}

impl Offsets {
    /// The addresses of the supported game.
    pub fn new() -> (offsets: Self)
        ensures
            offsets.gamecode_ntsc == 0x93DC,
            offsets.hp == 0xB3F2E,
            offsets.igt == 0xB3EFC,
            offsets.map_id == 0xB3EF2,
            offsets.item_1 == 0xB3F42,
            offsets.ending == 0xB3F28,
    {
        Offsets {
            gamecode_ntsc: 0x93DC,
            hp: 0xB3F2E,
            igt: 0xB3EFC,
            map_id: 0xB3EF2,
            item_1: 0xB3F42,
            ending: 0xB3F28,
        }
    }
}

} // verus!
