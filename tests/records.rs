use cogmind_presence::layout::LayoutError;
use cogmind_presence::records::{
    LuigiAi, LuigiEntity, LuigiItem, LuigiMachineHacking, LuigiProp, LuigiTile, LUIGI_AI_SIZE,
};

fn state_record_bytes() -> Vec<u8> {
    vec![
        0x4C, 0xFA, 0xAD, 0x64, 0x00, 0x00, 0x00, 0x00, 0x01, 0x00, 0x00, 0x00, 0x40, 0x00, 0x00,
        0x00, 0x30, 0x00, 0x00, 0x00, 0x05, 0x00, 0x00, 0x00, 0x03, 0x00, 0x00, 0x00, 0x00, 0x00,
        0x00, 0x00, 0x00, 0x00, 0x00, 0x00, 0x00, 0x00, 0x00, 0x00, 0x00, 0x00, 0x00, 0x00,
    ]
}

#[test]
fn state_record_decodes_scenario_fields() {
    let rec = LuigiAi::from(&state_record_bytes()).unwrap();
    assert_eq!(rec.magic1, 0x64AD_FA4C);
    assert_eq!(rec.magic2, 0);
    assert_eq!(rec.action_ready, 1);
    assert_eq!(rec.map_width, 0x40);
    assert_eq!(rec.map_height, 0x30);
    assert_eq!(rec.location_depth, 5);
    assert_eq!(rec.location_map, 3);
    assert_eq!(rec.map_data, 0);
    assert_eq!(rec.map_cursor_index, 0);
    assert_eq!(rec.player, 0);
    assert_eq!(rec.machine_hacking, 0);
}

#[test]
fn state_record_decoding_is_deterministic() {
    let a = LuigiAi::from(&state_record_bytes()).unwrap();
    let b = LuigiAi::from(&state_record_bytes()).unwrap();
    assert_eq!(a, b);
}

#[test]
fn state_record_any_width_buffer_decodes() {
    let bytes: Vec<u8> = (0..LUIGI_AI_SIZE as u8).map(|i| i.wrapping_mul(37)).collect();
    assert!(LuigiAi::from(&bytes).is_ok());
    let zeros = vec![0u8; LUIGI_AI_SIZE];
    assert!(LuigiAi::from(&zeros).is_ok());
}

#[test]
fn state_record_wrong_widths_fail() {
    let mut short = state_record_bytes();
    short.pop();
    assert_eq!(
        LuigiAi::from(&short),
        Err(LayoutError { expected: 44, found: 43 })
    );
    let mut long = state_record_bytes();
    long.push(0);
    assert_eq!(
        LuigiAi::from(&long),
        Err(LayoutError { expected: 44, found: 45 })
    );
    assert_eq!(
        LuigiAi::from(&Vec::new()),
        Err(LayoutError { expected: 44, found: 0 })
    );
}

#[test]
fn signed_and_unsigned_fields_are_little_endian() {
    let mut bytes = vec![0u8; 44];
    bytes[20..24].copy_from_slice(&[0xFF, 0xFF, 0xFF, 0xFF]);
    bytes[24..28].copy_from_slice(&[0xFE, 0xFF, 0xFF, 0xFF]);
    bytes[28..32].copy_from_slice(&[0x78, 0x56, 0x34, 0x12]);
    bytes[36..40].copy_from_slice(&[0xFF, 0xFF, 0xFF, 0xFF]);
    let rec = LuigiAi::from(&bytes).unwrap();
    assert_eq!(rec.location_depth, -1);
    assert_eq!(rec.location_map, -2);
    assert_eq!(rec.map_data, 0x1234_5678);
    assert_eq!(rec.player, u32::MAX);
}

#[test]
fn machine_hacking_decodes_with_padding() {
    let bytes = vec![
        1, 0, 0, 0, 0x32, 0, 0, 0, 0x10, 0x27, 0, 0, 2, 0xAA, 0xBB, 0xCC,
    ];
    let rec = LuigiMachineHacking::from(&bytes).unwrap();
    assert_eq!(rec.action_ready, 1);
    assert_eq!(rec.detect_chance, 50);
    assert_eq!(rec.trace_progress, 10000);
    assert!(rec.last_hack_success);
    let mut off = bytes.clone();
    off[12] = 0;
    assert!(!LuigiMachineHacking::from(&off).unwrap().last_hack_success);
    assert_eq!(
        LuigiMachineHacking::from(&bytes[..13].to_vec()),
        Err(LayoutError { expected: 16, found: 13 })
    );
}

#[test]
fn prop_decodes() {
    let rec = LuigiProp::from(&vec![7, 1, 0, 0, 1, 0, 0, 0]).unwrap();
    assert_eq!(rec, LuigiProp { id: 263, interactive_piece: true });
    assert!(LuigiProp::from(&vec![7, 1, 0, 0]).is_err());
}

#[test]
fn item_decodes() {
    let rec = LuigiItem::from(&vec![9, 0, 0, 0, 0xF6, 0xFF, 0xFF, 0xFF, 0, 1, 1, 1]).unwrap();
    assert_eq!(rec, LuigiItem { id: 9, integrity: -10, equipped: false });
    assert!(LuigiItem::from(&vec![0; 13]).is_err());
}

#[test]
fn entity_decodes() {
    let mut bytes = Vec::new();
    for i in 1..=11i32 {
        bytes.extend_from_slice(&(i * 100).to_le_bytes());
    }
    bytes.extend_from_slice(&0xDEAD_BEEFu32.to_le_bytes());
    let rec = LuigiEntity::from(&bytes).unwrap();
    assert_eq!(rec.id, 100);
    assert_eq!(rec.integrity, 200);
    assert_eq!(rec.relation, 300);
    assert_eq!(rec.active_state, 400);
    assert_eq!(rec.exposure, 500);
    assert_eq!(rec.energy, 600);
    assert_eq!(rec.matter, 700);
    assert_eq!(rec.heat, 800);
    assert_eq!(rec.system_corruption, 900);
    assert_eq!(rec.speed, 1000);
    assert_eq!(rec.inventory_size, 1100);
    assert_eq!(rec.inventory, 0xDEAD_BEEF);
    assert_eq!(
        LuigiEntity::from(&bytes[..44].to_vec()),
        Err(LayoutError { expected: 48, found: 44 })
    );
}

#[test]
fn tile_decodes() {
    let mut bytes = Vec::new();
    bytes.extend_from_slice(&3i32.to_le_bytes());
    bytes.extend_from_slice(&(-4i32).to_le_bytes());
    bytes.extend_from_slice(&12i32.to_le_bytes());
    bytes.extend_from_slice(&[1, 0, 0, 0]);
    bytes.extend_from_slice(&0x1000u32.to_le_bytes());
    bytes.extend_from_slice(&0x2000u32.to_le_bytes());
    bytes.extend_from_slice(&0u32.to_le_bytes());
    let rec = LuigiTile::from(&bytes).unwrap();
    assert_eq!(
        rec,
        LuigiTile {
            last_action: 3,
            last_fov: -4,
            cell: 12,
            door_open: true,
            prop: 0x1000,
            entity: 0x2000,
            item: 0,
        }
    );
    bytes.push(0);
    assert_eq!(
        LuigiTile::from(&bytes),
        Err(LayoutError { expected: 28, found: 29 })
    );
}
