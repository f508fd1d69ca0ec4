//! The game's records, decoded field by field from their 32-bit little-endian
//! layout. A one-byte boolean is followed by the padding the game's compiler put
//! after it, up to the next four-byte boundary.

use vstd::prelude::*;

use crate::layout::{flag, le_i32, le_u32, read_flag, read_i32_le, read_u32_le, LayoutError};

verus! {

/// Width in bytes of a [`LuigiMachineHacking`] record.
pub const LUIGI_MACHINE_HACKING_SIZE: usize = 16;

/// Width in bytes of a [`LuigiProp`] record.
pub const LUIGI_PROP_SIZE: usize = 8;

/// Width in bytes of a [`LuigiItem`] record.
pub const LUIGI_ITEM_SIZE: usize = 12;

/// Width in bytes of a [`LuigiEntity`] record.
pub const LUIGI_ENTITY_SIZE: usize = 48;

/// Width in bytes of a [`LuigiTile`] record.
pub const LUIGI_TILE_SIZE: usize = 28;

/// Width in bytes of a [`LuigiAi`] record.
pub const LUIGI_AI_SIZE: usize = 44;

/// The hacking state of a machine that the player is working on.
#[derive(Debug, Clone, Copy, PartialEq, Eq, Structural)]
pub struct LuigiMachineHacking {
    pub action_ready: i32,
    pub detect_chance: i32,
    pub trace_progress: i32,
    pub last_hack_success: bool,
}

impl LuigiMachineHacking {
    /// The record that a buffer of exactly [`LUIGI_MACHINE_HACKING_SIZE`] bytes holds.
    pub open spec fn fields_of(b: Seq<u8>) -> LuigiMachineHacking {
        LuigiMachineHacking {
            action_ready: le_i32(b, 0),
            detect_chance: le_i32(b, 4),
            trace_progress: le_i32(b, 8),
            last_hack_success: flag(b, 12),
        }
    }

    /// Decoding: the record when the buffer is exactly as wide as one, else the
    /// error that gives both widths.
    pub open spec fn decode(b: Seq<u8>) -> Result<LuigiMachineHacking, LayoutError> {
        if b.len() == LUIGI_MACHINE_HACKING_SIZE {
            Ok(LuigiMachineHacking::fields_of(b))
        } else {
            Err(LayoutError { expected: LUIGI_MACHINE_HACKING_SIZE, found: b.len() as usize })
        }
    }

    /// Decodes a record from a buffer of exactly its width; any other length is an
    /// error and nothing is decoded.
    pub fn from(bytes: &Vec<u8>) -> (r: Result<LuigiMachineHacking, LayoutError>)
        ensures
            r == LuigiMachineHacking::decode(bytes@),
    {
        if bytes.len() != LUIGI_MACHINE_HACKING_SIZE {
            return Err(LayoutError { expected: LUIGI_MACHINE_HACKING_SIZE, found: bytes.len() });
        }
        Ok(LuigiMachineHacking {
            action_ready: read_i32_le(bytes, 0),
            detect_chance: read_i32_le(bytes, 4),
            trace_progress: read_i32_le(bytes, 8),
            last_hack_success: read_flag(bytes, 12),
        })
    }
}

/// A prop standing on a map tile.
#[derive(Debug, Clone, Copy, PartialEq, Eq, Structural)]
pub struct LuigiProp {
    pub id: i32,
    pub interactive_piece: bool,
}

impl LuigiProp {
    /// The record that a buffer of exactly [`LUIGI_PROP_SIZE`] bytes holds.
    pub open spec fn fields_of(b: Seq<u8>) -> LuigiProp {
        LuigiProp {
            id: le_i32(b, 0),
            interactive_piece: flag(b, 4),
        }
    }

    /// Decoding: the record when the buffer is exactly as wide as one, else the
    /// error that gives both widths.
    pub open spec fn decode(b: Seq<u8>) -> Result<LuigiProp, LayoutError> {
        if b.len() == LUIGI_PROP_SIZE {
            Ok(LuigiProp::fields_of(b))
        } else {
            Err(LayoutError { expected: LUIGI_PROP_SIZE, found: b.len() as usize })
        }
    }

    /// Decodes a record from a buffer of exactly its width; any other length is an
    /// error and nothing is decoded.
    pub fn from(bytes: &Vec<u8>) -> (r: Result<LuigiProp, LayoutError>)
        ensures
            r == LuigiProp::decode(bytes@),
    {
        if bytes.len() != LUIGI_PROP_SIZE {
            return Err(LayoutError { expected: LUIGI_PROP_SIZE, found: bytes.len() });
        }
        Ok(LuigiProp {
            id: read_i32_le(bytes, 0),
            interactive_piece: read_flag(bytes, 4),
        })
    }
}

/// An item, on the ground or in an inventory.
#[derive(Debug, Clone, Copy, PartialEq, Eq, Structural)]
pub struct LuigiItem {
    pub id: i32,
    pub integrity: i32,
    pub equipped: bool,
}

impl LuigiItem {
    /// The record that a buffer of exactly [`LUIGI_ITEM_SIZE`] bytes holds.
    pub open spec fn fields_of(b: Seq<u8>) -> LuigiItem {
        LuigiItem {
            id: le_i32(b, 0),
            integrity: le_i32(b, 4),
            equipped: flag(b, 8),
        }
    }

    /// Decoding: the record when the buffer is exactly as wide as one, else the
    /// error that gives both widths.
    pub open spec fn decode(b: Seq<u8>) -> Result<LuigiItem, LayoutError> {
        if b.len() == LUIGI_ITEM_SIZE {
            Ok(LuigiItem::fields_of(b))
        } else {
            Err(LayoutError { expected: LUIGI_ITEM_SIZE, found: b.len() as usize })
        }
    }

    /// Decodes a record from a buffer of exactly its width; any other length is an
    /// error and nothing is decoded.
    pub fn from(bytes: &Vec<u8>) -> (r: Result<LuigiItem, LayoutError>)
        ensures
            r == LuigiItem::decode(bytes@),
    {
        if bytes.len() != LUIGI_ITEM_SIZE {
            return Err(LayoutError { expected: LUIGI_ITEM_SIZE, found: bytes.len() });
        }
        Ok(LuigiItem {
            id: read_i32_le(bytes, 0),
            integrity: read_i32_le(bytes, 4),
            equipped: read_flag(bytes, 8),
        })
    }
}

/// A robot or other entity; `inventory` is the address of its inventory.
#[derive(Debug, Clone, Copy, PartialEq, Eq, Structural)]
pub struct LuigiEntity {
    pub id: i32,
    pub integrity: i32,
    pub relation: i32,
    pub active_state: i32,
    pub exposure: i32,
    pub energy: i32,
    pub matter: i32,
    pub heat: i32,
    pub system_corruption: i32,
    pub speed: i32,
    pub inventory_size: i32,
    pub inventory: u32,
}

impl LuigiEntity {
    /// The record that a buffer of exactly [`LUIGI_ENTITY_SIZE`] bytes holds.
    pub open spec fn fields_of(b: Seq<u8>) -> LuigiEntity {
        LuigiEntity {
            id: le_i32(b, 0),
            integrity: le_i32(b, 4),
            relation: le_i32(b, 8),
            active_state: le_i32(b, 12),
            exposure: le_i32(b, 16),
            energy: le_i32(b, 20),
            matter: le_i32(b, 24),
            heat: le_i32(b, 28),
            system_corruption: le_i32(b, 32),
            speed: le_i32(b, 36),
            inventory_size: le_i32(b, 40),
            inventory: le_u32(b, 44),
        }
    }

    /// Decoding: the record when the buffer is exactly as wide as one, else the
    /// error that gives both widths.
    pub open spec fn decode(b: Seq<u8>) -> Result<LuigiEntity, LayoutError> {
        if b.len() == LUIGI_ENTITY_SIZE {
            Ok(LuigiEntity::fields_of(b))
        } else {
            Err(LayoutError { expected: LUIGI_ENTITY_SIZE, found: b.len() as usize })
        }
    }

    /// Decodes a record from a buffer of exactly its width; any other length is an
    /// error and nothing is decoded.
    pub fn from(bytes: &Vec<u8>) -> (r: Result<LuigiEntity, LayoutError>)
        ensures
            r == LuigiEntity::decode(bytes@),
    {
        if bytes.len() != LUIGI_ENTITY_SIZE {
            return Err(LayoutError { expected: LUIGI_ENTITY_SIZE, found: bytes.len() });
        }
        Ok(LuigiEntity {
            id: read_i32_le(bytes, 0),
            integrity: read_i32_le(bytes, 4),
            relation: read_i32_le(bytes, 8),
            active_state: read_i32_le(bytes, 12),
            exposure: read_i32_le(bytes, 16),
            energy: read_i32_le(bytes, 20),
            matter: read_i32_le(bytes, 24),
            heat: read_i32_le(bytes, 28),
            system_corruption: read_i32_le(bytes, 32),
            speed: read_i32_le(bytes, 36),
            inventory_size: read_i32_le(bytes, 40),
            inventory: read_u32_le(bytes, 44),
        })
    }
}

/// One map tile; `prop`, `entity` and `item` are addresses, zero where empty.
#[derive(Debug, Clone, Copy, PartialEq, Eq, Structural)]
pub struct LuigiTile {
    pub last_action: i32,
    pub last_fov: i32,
    pub cell: i32,
    pub door_open: bool,
    pub prop: u32,
    pub entity: u32,
    pub item: u32,
}

impl LuigiTile {
    /// The record that a buffer of exactly [`LUIGI_TILE_SIZE`] bytes holds.
    pub open spec fn fields_of(b: Seq<u8>) -> LuigiTile {
        LuigiTile {
            last_action: le_i32(b, 0),
            last_fov: le_i32(b, 4),
            cell: le_i32(b, 8),
            door_open: flag(b, 12),
            prop: le_u32(b, 16),
            entity: le_u32(b, 20),
            item: le_u32(b, 24),
        }
    }

    /// Decoding: the record when the buffer is exactly as wide as one, else the
    /// error that gives both widths.
    pub open spec fn decode(b: Seq<u8>) -> Result<LuigiTile, LayoutError> {
        if b.len() == LUIGI_TILE_SIZE {
            Ok(LuigiTile::fields_of(b))
        } else {
            Err(LayoutError { expected: LUIGI_TILE_SIZE, found: b.len() as usize })
        }
    }

    /// Decodes a record from a buffer of exactly its width; any other length is an
    /// error and nothing is decoded.
    pub fn from(bytes: &Vec<u8>) -> (r: Result<LuigiTile, LayoutError>)
        ensures
            r == LuigiTile::decode(bytes@),
    {
        if bytes.len() != LUIGI_TILE_SIZE {
            return Err(LayoutError { expected: LUIGI_TILE_SIZE, found: bytes.len() });
        }
        Ok(LuigiTile {
            last_action: read_i32_le(bytes, 0),
            last_fov: read_i32_le(bytes, 4),
            cell: read_i32_le(bytes, 8),
            door_open: read_flag(bytes, 12),
            prop: read_u32_le(bytes, 16),
            entity: read_u32_le(bytes, 20),
            item: read_u32_le(bytes, 24),
        })
    }
}

/// The game's top-level state record. `map_data`, `player` and `machine_hacking`
/// are addresses in the game's memory; they are kept as numbers and never followed here.
#[derive(Debug, Clone, Copy, PartialEq, Eq, Structural)]
pub struct LuigiAi {
    pub magic1: i32,
    pub magic2: i32,
    pub action_ready: i32,
    pub map_width: i32,
    pub map_height: i32,
    pub location_depth: i32,
    pub location_map: i32,
    pub map_data: u32,
    pub map_cursor_index: i32,
    pub player: u32,
    pub machine_hacking: u32,
}

impl LuigiAi {
    /// The record that a buffer of exactly [`LUIGI_AI_SIZE`] bytes holds.
    pub open spec fn fields_of(b: Seq<u8>) -> LuigiAi {
        LuigiAi {
            magic1: le_i32(b, 0),
            magic2: le_i32(b, 4),
            action_ready: le_i32(b, 8),
            map_width: le_i32(b, 12),
            map_height: le_i32(b, 16),
            location_depth: le_i32(b, 20),
            location_map: le_i32(b, 24),
            map_data: le_u32(b, 28),
            map_cursor_index: le_i32(b, 32),
            player: le_u32(b, 36),
            machine_hacking: le_u32(b, 40),
        }
    }

    /// Decoding: the record when the buffer is exactly as wide as one, else the
    /// error that gives both widths.
    pub open spec fn decode(b: Seq<u8>) -> Result<LuigiAi, LayoutError> {
        if b.len() == LUIGI_AI_SIZE {
            Ok(LuigiAi::fields_of(b))
        } else {
            Err(LayoutError { expected: LUIGI_AI_SIZE, found: b.len() as usize })
        }
    }

    /// Decodes a record from a buffer of exactly its width; any other length is an
    /// error and nothing is decoded.
    pub fn from(bytes: &Vec<u8>) -> (r: Result<LuigiAi, LayoutError>)
        ensures
            r == LuigiAi::decode(bytes@),
    {
        if bytes.len() != LUIGI_AI_SIZE {
            return Err(LayoutError { expected: LUIGI_AI_SIZE, found: bytes.len() });
        }
        Ok(LuigiAi {
            magic1: read_i32_le(bytes, 0),
            magic2: read_i32_le(bytes, 4),
            action_ready: read_i32_le(bytes, 8),
            map_width: read_i32_le(bytes, 12),
            map_height: read_i32_le(bytes, 16),
            location_depth: read_i32_le(bytes, 20),
            location_map: read_i32_le(bytes, 24),
            map_data: read_u32_le(bytes, 28),
            map_cursor_index: read_i32_le(bytes, 32),
            player: read_u32_le(bytes, 36),
            machine_hacking: read_u32_le(bytes, 40),
        })
    }
}

/// Decoding the game's state record is total and deterministic on buffers of its
/// width: any such buffer decodes, and equal buffers decode to equal records.
pub proof fn lemma_decode_total_and_deterministic(b1: Seq<u8>, b2: Seq<u8>)
    requires
        b1.len() == LUIGI_AI_SIZE,
        b2 == b1,
    ensures
        LuigiAi::decode(b1) is Ok,
        LuigiAi::decode(b1) == LuigiAi::decode(b2),
{
}

/// A buffer of any other width never decodes to a record.
pub proof fn lemma_decode_rejects_other_widths(b: Seq<u8>)
    requires
        b.len() != LUIGI_AI_SIZE,
    ensures
        LuigiAi::decode(b) is Err,
{
}

} // verus!
