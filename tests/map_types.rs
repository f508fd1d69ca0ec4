use cogmind_presence::types::{InvalidMapType, MapType};

const TABLE: [(i32, &str); 46] = [
    (0, "None"),
    (-1, "Sandbox"),
    (1, "Junkyard"),
    (2, "Materials"),
    (3, "Factory"),
    (4, "Research"),
    (5, "Access"),
    (6, "Surface"),
    (7, "Mines"),
    (8, "Exiles"),
    (9, "Storage"),
    (10, "Recycling"),
    (11, "Wastes"),
    (12, "Garrison"),
    (13, "DSF"),
    (14, "Subcaves"),
    (15, "Lower Caves"),
    (16, "Upper Caves"),
    (17, "Proxy Caves"),
    (18, "Deep Caves"),
    (19, "Zion"),
    (20, "Data Miner"),
    (21, "Zhirov"),
    (22, "Warlord"),
    (23, "Extension"),
    (24, "Cetus"),
    (25, "Archives"),
    (26, "Hub_04(d)"),
    (27, "Armory"),
    (28, "Lab"),
    (29, "Quarantine"),
    (30, "Testing"),
    (31, "Section 7"),
    (32, "Command"),
    (33, "Access 0"),
    (34, "Abomination Lair"),
    (35, "Wartown"),
    (1000, "w0"),
    (1001, "w1"),
    (1002, "w2"),
    (1003, "w3"),
    (1004, "w4"),
    (1005, "w5"),
    (1006, "w6"),
    (1007, "w7"),
    (1008, "w8"),
];

#[test]
fn every_table_code_translates_and_round_trips() {
    for (code, name) in TABLE.iter() {
        let m = MapType::try_from(*code).unwrap();
        assert_eq!(m.code_of(), *code);
        assert_eq!(m.name(), *name);
    }
}

#[test]
fn table_names_are_distinct() {
    for (i, (_, a)) in TABLE.iter().enumerate() {
        for (_, b) in TABLE.iter().skip(i + 1) {
            assert_ne!(a, b);
        }
    }
}

#[test]
fn factory_code() {
    assert_eq!(MapType::try_from(3).unwrap(), MapType::MapFac);
    assert_eq!(MapType::MapFac.name(), "Factory");
}

#[test]
fn unknown_codes_fail_with_the_code() {
    assert_eq!(MapType::try_from(999).unwrap_err(), InvalidMapType(999));
    assert_eq!(MapType::try_from(-2).unwrap_err(), InvalidMapType(-2));
    assert_eq!(MapType::try_from(36).unwrap_err(), InvalidMapType(36));
    assert_eq!(MapType::try_from(1009).unwrap_err(), InvalidMapType(1009));
    assert_eq!(MapType::try_from(i32::MIN).unwrap_err(), InvalidMapType(i32::MIN));
}
