//! Location codes of the game and their names.

use vstd::prelude::*;

verus! {

/// A location of the game, as the record's location code names it.
#[derive(Debug, Clone, Copy, PartialEq, Eq, Structural)]
pub enum MapType {
    MapNone,
    MapSan,
    MapScr,
    MapMat,
    MapFac,
    MapRes,
    MapAcc,
    MapSur,
    MapMin,
    MapExi,
    MapSto,
    MapRec,
    MapWas,
    MapGar,
    MapDsf,
    MapSub,
    MapLow,
    MapUpp,
    MapPro,
    MapDee,
    MapZio,
    MapDat,
    MapZhi,
    MapWar,
    MapExt,
    MapCet,
    MapArc,
    MapHub,
    MapArm,
    MapLab,
    MapQua,
    MapTes,
    MapSec,
    MapCom,
    MapAc0,
    MapLai,
    MapTow,
    MapW00,
    MapW01,
    MapW02,
    MapW03,
    MapW04,
    MapW05,
    MapW06,
    MapW07,
    MapW08,
}

/// A location code that names no location; it carries the code.
#[derive(Debug, Clone, Copy, PartialEq, Eq, Structural)]
pub struct InvalidMapType(pub i32);

impl MapType {
    /// The code that the game stores for this location.
    pub open spec fn code(self) -> i32 {
        match self {
            MapType::MapNone => 0i32,
            MapType::MapSan => -1i32,
            MapType::MapScr => 1i32,
            MapType::MapMat => 2i32,
            MapType::MapFac => 3i32,
            MapType::MapRes => 4i32,
            MapType::MapAcc => 5i32,
            MapType::MapSur => 6i32,
            MapType::MapMin => 7i32,
            MapType::MapExi => 8i32,
            MapType::MapSto => 9i32,
            MapType::MapRec => 10i32,
            MapType::MapWas => 11i32,
            MapType::MapGar => 12i32,
            MapType::MapDsf => 13i32,
            MapType::MapSub => 14i32,
            MapType::MapLow => 15i32,
            MapType::MapUpp => 16i32,
            MapType::MapPro => 17i32,
            MapType::MapDee => 18i32,
            MapType::MapZio => 19i32,
            MapType::MapDat => 20i32,
            MapType::MapZhi => 21i32,
            MapType::MapWar => 22i32,
            MapType::MapExt => 23i32,
            MapType::MapCet => 24i32,
            MapType::MapArc => 25i32,
            MapType::MapHub => 26i32,
            MapType::MapArm => 27i32,
            MapType::MapLab => 28i32,
            MapType::MapQua => 29i32,
            MapType::MapTes => 30i32,
            MapType::MapSec => 31i32,
            MapType::MapCom => 32i32,
            MapType::MapAc0 => 33i32,
            MapType::MapLai => 34i32,
            MapType::MapTow => 35i32,
            MapType::MapW00 => 1000i32,
            MapType::MapW01 => 1001i32,
            MapType::MapW02 => 1002i32,
            MapType::MapW03 => 1003i32,
            MapType::MapW04 => 1004i32,
            MapType::MapW05 => 1005i32,
            MapType::MapW06 => 1006i32,
            MapType::MapW07 => 1007i32,
            MapType::MapW08 => 1008i32,
        }
    }

    /// The location that a code stands for, if any.
    pub open spec fn of_code(c: i32) -> Option<MapType> {
        if c == 0i32 {
            Some(MapType::MapNone)
        } else if c == -1i32 {
            Some(MapType::MapSan)
        } else if c == 1i32 {
            Some(MapType::MapScr)
        } else if c == 2i32 {
            Some(MapType::MapMat)
        } else if c == 3i32 {
            Some(MapType::MapFac)
        } else if c == 4i32 {
            Some(MapType::MapRes)
        } else if c == 5i32 {
            Some(MapType::MapAcc)
        } else if c == 6i32 {
            Some(MapType::MapSur)
        } else if c == 7i32 {
            Some(MapType::MapMin)
        } else if c == 8i32 {
            Some(MapType::MapExi)
        } else if c == 9i32 {
            Some(MapType::MapSto)
        } else if c == 10i32 {
            Some(MapType::MapRec)
        } else if c == 11i32 {
            Some(MapType::MapWas)
        } else if c == 12i32 {
            Some(MapType::MapGar)
        } else if c == 13i32 {
            Some(MapType::MapDsf)
        } else if c == 14i32 {
            Some(MapType::MapSub)
        } else if c == 15i32 {
            Some(MapType::MapLow)
        } else if c == 16i32 {
            Some(MapType::MapUpp)
        } else if c == 17i32 {
            Some(MapType::MapPro)
        } else if c == 18i32 {
            Some(MapType::MapDee)
        } else if c == 19i32 {
            Some(MapType::MapZio)
        } else if c == 20i32 {
            Some(MapType::MapDat)
        } else if c == 21i32 {
            Some(MapType::MapZhi)
        } else if c == 22i32 {
            Some(MapType::MapWar)
        } else if c == 23i32 {
            Some(MapType::MapExt)
        } else if c == 24i32 {
            Some(MapType::MapCet)
        } else if c == 25i32 {
            Some(MapType::MapArc)
        } else if c == 26i32 {
            Some(MapType::MapHub)
        } else if c == 27i32 {
            Some(MapType::MapArm)
        } else if c == 28i32 {
            Some(MapType::MapLab)
        } else if c == 29i32 {
            Some(MapType::MapQua)
        } else if c == 30i32 {
            Some(MapType::MapTes)
        } else if c == 31i32 {
            Some(MapType::MapSec)
        } else if c == 32i32 {
            Some(MapType::MapCom)
        } else if c == 33i32 {
            Some(MapType::MapAc0)
        } else if c == 34i32 {
            Some(MapType::MapLai)
        } else if c == 35i32 {
            Some(MapType::MapTow)
        } else if c == 1000i32 {
            Some(MapType::MapW00)
        } else if c == 1001i32 {
            Some(MapType::MapW01)
        } else if c == 1002i32 {
            Some(MapType::MapW02)
        } else if c == 1003i32 {
            Some(MapType::MapW03)
        } else if c == 1004i32 {
            Some(MapType::MapW04)
        } else if c == 1005i32 {
            Some(MapType::MapW05)
        } else if c == 1006i32 {
            Some(MapType::MapW06)
        } else if c == 1007i32 {
            Some(MapType::MapW07)
        } else if c == 1008i32 {
            Some(MapType::MapW08)
        } else {
            None
        }
    }

    /// The location's display name.
    pub open spec fn name_of(self) -> Seq<char> {
        match self {
            MapType::MapNone => "None"@,
            MapType::MapSan => "Sandbox"@,
            MapType::MapScr => "Junkyard"@,
            MapType::MapMat => "Materials"@,
            MapType::MapFac => "Factory"@,
            MapType::MapRes => "Research"@,
            MapType::MapAcc => "Access"@,
            MapType::MapSur => "Surface"@,
            MapType::MapMin => "Mines"@,
            MapType::MapExi => "Exiles"@,
            MapType::MapSto => "Storage"@,
            MapType::MapRec => "Recycling"@,
            MapType::MapWas => "Wastes"@,
            MapType::MapGar => "Garrison"@,
            MapType::MapDsf => "DSF"@,
            MapType::MapSub => "Subcaves"@,
            MapType::MapLow => "Lower Caves"@,
            MapType::MapUpp => "Upper Caves"@,
            MapType::MapPro => "Proxy Caves"@,
            MapType::MapDee => "Deep Caves"@,
            MapType::MapZio => "Zion"@,
            MapType::MapDat => "Data Miner"@,
            MapType::MapZhi => "Zhirov"@,
            MapType::MapWar => "Warlord"@,
            MapType::MapExt => "Extension"@,
            MapType::MapCet => "Cetus"@,
            MapType::MapArc => "Archives"@,
            MapType::MapHub => "Hub_04(d)"@,
            MapType::MapArm => "Armory"@,
            MapType::MapLab => "Lab"@,
            MapType::MapQua => "Quarantine"@,
            MapType::MapTes => "Testing"@,
            MapType::MapSec => "Section 7"@,
            MapType::MapCom => "Command"@,
            MapType::MapAc0 => "Access 0"@,
            MapType::MapLai => "Abomination Lair"@,
            MapType::MapTow => "Wartown"@,
            MapType::MapW00 => "w0"@,
            MapType::MapW01 => "w1"@,
            MapType::MapW02 => "w2"@,
            MapType::MapW03 => "w3"@,
            MapType::MapW04 => "w4"@,
            MapType::MapW05 => "w5"@,
            MapType::MapW06 => "w6"@,
            MapType::MapW07 => "w7"@,
            MapType::MapW08 => "w8"@,
        }
    }

    /// Looks a location code up in the table of locations; a code outside it is an
    /// error that carries the code.
    pub fn try_from(value: i32) -> (r: Result<MapType, InvalidMapType>)
        ensures
            r == (match MapType::of_code(value) {
                Some(m) => Ok::<MapType, InvalidMapType>(m),
                None => Err(InvalidMapType(value)),
            }),
    {
        match value {
            0 => Ok(MapType::MapNone),
            -1 => Ok(MapType::MapSan),
            1 => Ok(MapType::MapScr),
            2 => Ok(MapType::MapMat),
            3 => Ok(MapType::MapFac),
            4 => Ok(MapType::MapRes),
            5 => Ok(MapType::MapAcc),
            6 => Ok(MapType::MapSur),
            7 => Ok(MapType::MapMin),
            8 => Ok(MapType::MapExi),
            9 => Ok(MapType::MapSto),
            10 => Ok(MapType::MapRec),
            11 => Ok(MapType::MapWas),
            12 => Ok(MapType::MapGar),
            13 => Ok(MapType::MapDsf),
            14 => Ok(MapType::MapSub),
            15 => Ok(MapType::MapLow),
            16 => Ok(MapType::MapUpp),
            17 => Ok(MapType::MapPro),
            18 => Ok(MapType::MapDee),
            19 => Ok(MapType::MapZio),
            20 => Ok(MapType::MapDat),
            21 => Ok(MapType::MapZhi),
            22 => Ok(MapType::MapWar),
            23 => Ok(MapType::MapExt),
            24 => Ok(MapType::MapCet),
            25 => Ok(MapType::MapArc),
            26 => Ok(MapType::MapHub),
            27 => Ok(MapType::MapArm),
            28 => Ok(MapType::MapLab),
            29 => Ok(MapType::MapQua),
            30 => Ok(MapType::MapTes),
            31 => Ok(MapType::MapSec),
            32 => Ok(MapType::MapCom),
            33 => Ok(MapType::MapAc0),
            34 => Ok(MapType::MapLai),
            35 => Ok(MapType::MapTow),
            1000 => Ok(MapType::MapW00),
            1001 => Ok(MapType::MapW01),
            1002 => Ok(MapType::MapW02),
            1003 => Ok(MapType::MapW03),
            1004 => Ok(MapType::MapW04),
            1005 => Ok(MapType::MapW05),
            1006 => Ok(MapType::MapW06),
            1007 => Ok(MapType::MapW07),
            1008 => Ok(MapType::MapW08),
            _ => Err(InvalidMapType(value)),
        }
    }

    /// The code that the game stores for this location.
    pub fn code_of(&self) -> (r: i32)
        ensures
            r == self.code(),
    {
        match self {
            MapType::MapNone => 0,
            MapType::MapSan => -1,
            MapType::MapScr => 1,
            MapType::MapMat => 2,
            MapType::MapFac => 3,
            MapType::MapRes => 4,
            MapType::MapAcc => 5,
            MapType::MapSur => 6,
            MapType::MapMin => 7,
            MapType::MapExi => 8,
            MapType::MapSto => 9,
            MapType::MapRec => 10,
            MapType::MapWas => 11,
            MapType::MapGar => 12,
            MapType::MapDsf => 13,
            MapType::MapSub => 14,
            MapType::MapLow => 15,
            MapType::MapUpp => 16,
            MapType::MapPro => 17,
            MapType::MapDee => 18,
            MapType::MapZio => 19,
            MapType::MapDat => 20,
            MapType::MapZhi => 21,
            MapType::MapWar => 22,
            MapType::MapExt => 23,
            MapType::MapCet => 24,
            MapType::MapArc => 25,
            MapType::MapHub => 26,
            MapType::MapArm => 27,
            MapType::MapLab => 28,
            MapType::MapQua => 29,
            MapType::MapTes => 30,
            MapType::MapSec => 31,
            MapType::MapCom => 32,
            MapType::MapAc0 => 33,
            MapType::MapLai => 34,
            MapType::MapTow => 35,
            MapType::MapW00 => 1000,
            MapType::MapW01 => 1001,
            MapType::MapW02 => 1002,
            MapType::MapW03 => 1003,
            MapType::MapW04 => 1004,
            MapType::MapW05 => 1005,
            MapType::MapW06 => 1006,
            MapType::MapW07 => 1007,
            MapType::MapW08 => 1008,
        }
    }

    /// The location's display name.
    pub fn name(&self) -> (r: &'static str)
        ensures
            r@ == self.name_of(),
    {
        match self {
            MapType::MapNone => "None",
            MapType::MapSan => "Sandbox",
            MapType::MapScr => "Junkyard",
            MapType::MapMat => "Materials",
            MapType::MapFac => "Factory",
            MapType::MapRes => "Research",
            MapType::MapAcc => "Access",
            MapType::MapSur => "Surface",
            MapType::MapMin => "Mines",
            MapType::MapExi => "Exiles",
            MapType::MapSto => "Storage",
            MapType::MapRec => "Recycling",
            MapType::MapWas => "Wastes",
            MapType::MapGar => "Garrison",
            MapType::MapDsf => "DSF",
            MapType::MapSub => "Subcaves",
            MapType::MapLow => "Lower Caves",
            MapType::MapUpp => "Upper Caves",
            MapType::MapPro => "Proxy Caves",
            MapType::MapDee => "Deep Caves",
            MapType::MapZio => "Zion",
            MapType::MapDat => "Data Miner",
            MapType::MapZhi => "Zhirov",
            MapType::MapWar => "Warlord",
            MapType::MapExt => "Extension",
            MapType::MapCet => "Cetus",
            MapType::MapArc => "Archives",
            MapType::MapHub => "Hub_04(d)",
            MapType::MapArm => "Armory",
            MapType::MapLab => "Lab",
            MapType::MapQua => "Quarantine",
            MapType::MapTes => "Testing",
            MapType::MapSec => "Section 7",
            MapType::MapCom => "Command",
            MapType::MapAc0 => "Access 0",
            MapType::MapLai => "Abomination Lair",
            MapType::MapTow => "Wartown",
            MapType::MapW00 => "w0",
            MapType::MapW01 => "w1",
            MapType::MapW02 => "w2",
            MapType::MapW03 => "w3",
            MapType::MapW04 => "w4",
            MapType::MapW05 => "w5",
            MapType::MapW06 => "w6",
            MapType::MapW07 => "w7",
            MapType::MapW08 => "w8",
        }
    }
}

/// Every location code in the table leads to its location and back: looking up a
/// location's own code gives that location.
pub proof fn lemma_code_round_trip(m: MapType)
    ensures
        MapType::of_code(m.code()) == Some(m),
{
}

/// A code that the table accepts is the code of the location it gives; so no two
/// locations share a code.
pub proof fn lemma_code_determines_map(c: i32)
    ensures
        MapType::of_code(c) is Some ==> MapType::of_code(c).unwrap().code() == c,
        MapType::of_code(c) is None ==> forall|m: MapType| m.code() != c,
{
}

/// The location whose name is `s`, if any. The names are tried by length first,
/// so that a name need only be told apart from the others of its length.
pub open spec fn map_named(s: Seq<char>) -> Option<MapType> {
    if s.len() == 2 {
        if s == "w0"@ {
            Some(MapType::MapW00)
        } else if s == "w1"@ {
            Some(MapType::MapW01)
        } else if s == "w2"@ {
            Some(MapType::MapW02)
        } else if s == "w3"@ {
            Some(MapType::MapW03)
        } else if s == "w4"@ {
            Some(MapType::MapW04)
        } else if s == "w5"@ {
            Some(MapType::MapW05)
        } else if s == "w6"@ {
            Some(MapType::MapW06)
        } else if s == "w7"@ {
            Some(MapType::MapW07)
        } else if s == "w8"@ {
            Some(MapType::MapW08)
        } else {
            None
        }
    } else if s.len() == 3 {
        if s == "DSF"@ {
            Some(MapType::MapDsf)
        } else if s == "Lab"@ {
            Some(MapType::MapLab)
        } else {
            None
        }
    } else if s.len() == 4 {
        if s == "None"@ {
            Some(MapType::MapNone)
        } else if s == "Zion"@ {
            Some(MapType::MapZio)
        } else {
            None
        }
    } else if s.len() == 5 {
        if s == "Mines"@ {
            Some(MapType::MapMin)
        } else if s == "Cetus"@ {
            Some(MapType::MapCet)
        } else {
            None
        }
    } else if s.len() == 6 {
        if s == "Access"@ {
            Some(MapType::MapAcc)
        } else if s == "Exiles"@ {
            Some(MapType::MapExi)
        } else if s == "Wastes"@ {
            Some(MapType::MapWas)
        } else if s == "Zhirov"@ {
            Some(MapType::MapZhi)
        } else if s == "Armory"@ {
            Some(MapType::MapArm)
        } else {
            None
        }
    } else if s.len() == 7 {
        if s == "Sandbox"@ {
            Some(MapType::MapSan)
        } else if s == "Factory"@ {
            Some(MapType::MapFac)
        } else if s == "Surface"@ {
            Some(MapType::MapSur)
        } else if s == "Storage"@ {
            Some(MapType::MapSto)
        } else if s == "Warlord"@ {
            Some(MapType::MapWar)
        } else if s == "Testing"@ {
            Some(MapType::MapTes)
        } else if s == "Command"@ {
            Some(MapType::MapCom)
        } else if s == "Wartown"@ {
            Some(MapType::MapTow)
        } else {
            None
        }
    } else if s.len() == 8 {
        if s == "Junkyard"@ {
            Some(MapType::MapScr)
        } else if s == "Research"@ {
            Some(MapType::MapRes)
        } else if s == "Garrison"@ {
            Some(MapType::MapGar)
        } else if s == "Subcaves"@ {
            Some(MapType::MapSub)
        } else if s == "Archives"@ {
            Some(MapType::MapArc)
        } else if s == "Access 0"@ {
            Some(MapType::MapAc0)
        } else {
            None
        }
    } else if s.len() == 9 {
        if s == "Materials"@ {
            Some(MapType::MapMat)
        } else if s == "Recycling"@ {
            Some(MapType::MapRec)
        } else if s == "Extension"@ {
            Some(MapType::MapExt)
        } else if s == "Hub_04(d)"@ {
            Some(MapType::MapHub)
        } else if s == "Section 7"@ {
            Some(MapType::MapSec)
        } else {
            None
        }
    } else if s.len() == 10 {
        if s == "Deep Caves"@ {
            Some(MapType::MapDee)
        } else if s == "Data Miner"@ {
            Some(MapType::MapDat)
        } else if s == "Quarantine"@ {
            Some(MapType::MapQua)
        } else {
            None
        }
    } else if s.len() == 11 {
        if s == "Lower Caves"@ {
            Some(MapType::MapLow)
        } else if s == "Upper Caves"@ {
            Some(MapType::MapUpp)
        } else if s == "Proxy Caves"@ {
            Some(MapType::MapPro)
        } else {
            None
        }
    } else if s.len() == 16 {
        if s == "Abomination Lair"@ {
            Some(MapType::MapLai)
        } else {
            None
        }
    } else {
        None
    }
}

/// Each location's name leads back to that location alone.
pub proof fn lemma_name_round_trip(m: MapType)
    ensures
        map_named(m.name_of()) == Some(m),
{
    match m {
        MapType::MapNone => {
            reveal_strlit("None");
        },
        MapType::MapSan => {
            reveal_strlit("Sandbox");
        },
        MapType::MapScr => {
            reveal_strlit("Junkyard");
        },
        MapType::MapMat => {
            reveal_strlit("Materials");
        },
        MapType::MapFac => {
            reveal_strlit("Factory");
            reveal_strlit("Sandbox");
            assert("Factory"@[0] != "Sandbox"@[0]);
        },
        MapType::MapRes => {
            reveal_strlit("Research");
            reveal_strlit("Junkyard");
            assert("Research"@[0] != "Junkyard"@[0]);
        },
        MapType::MapAcc => {
            reveal_strlit("Access");
        },
        MapType::MapSur => {
            reveal_strlit("Surface");
            reveal_strlit("Sandbox");
            assert("Surface"@[1] != "Sandbox"@[1]);
            reveal_strlit("Factory");
            assert("Surface"@[0] != "Factory"@[0]);
        },
        MapType::MapMin => {
            reveal_strlit("Mines");
        },
        MapType::MapExi => {
            reveal_strlit("Exiles");
            reveal_strlit("Access");
            assert("Exiles"@[0] != "Access"@[0]);
        },
        MapType::MapSto => {
            reveal_strlit("Storage");
            reveal_strlit("Sandbox");
            assert("Storage"@[1] != "Sandbox"@[1]);
            reveal_strlit("Factory");
            assert("Storage"@[0] != "Factory"@[0]);
            reveal_strlit("Surface");
            assert("Storage"@[1] != "Surface"@[1]);
        },
        MapType::MapRec => {
            reveal_strlit("Recycling");
            reveal_strlit("Materials");
            assert("Recycling"@[0] != "Materials"@[0]);
        },
        MapType::MapWas => {
            reveal_strlit("Wastes");
            reveal_strlit("Access");
            assert("Wastes"@[0] != "Access"@[0]);
            reveal_strlit("Exiles");
            assert("Wastes"@[0] != "Exiles"@[0]);
        },
        MapType::MapGar => {
            reveal_strlit("Garrison");
            reveal_strlit("Junkyard");
            assert("Garrison"@[0] != "Junkyard"@[0]);
            reveal_strlit("Research");
            assert("Garrison"@[0] != "Research"@[0]);
        },
        MapType::MapDsf => {
            reveal_strlit("DSF");
        },
        MapType::MapSub => {
            reveal_strlit("Subcaves");
            reveal_strlit("Junkyard");
            assert("Subcaves"@[0] != "Junkyard"@[0]);
            reveal_strlit("Research");
            assert("Subcaves"@[0] != "Research"@[0]);
            reveal_strlit("Garrison");
            assert("Subcaves"@[0] != "Garrison"@[0]);
        },
        MapType::MapLow => {
            reveal_strlit("Lower Caves");
        },
        MapType::MapUpp => {
            reveal_strlit("Upper Caves");
            reveal_strlit("Lower Caves");
            assert("Upper Caves"@[0] != "Lower Caves"@[0]);
        },
        MapType::MapPro => {
            reveal_strlit("Proxy Caves");
            reveal_strlit("Lower Caves");
            assert("Proxy Caves"@[0] != "Lower Caves"@[0]);
            reveal_strlit("Upper Caves");
            assert("Proxy Caves"@[0] != "Upper Caves"@[0]);
        },
        MapType::MapDee => {
            reveal_strlit("Deep Caves");
        },
        MapType::MapZio => {
            reveal_strlit("Zion");
            reveal_strlit("None");
            assert("Zion"@[0] != "None"@[0]);
        },
        MapType::MapDat => {
            reveal_strlit("Data Miner");
            reveal_strlit("Deep Caves");
            assert("Data Miner"@[1] != "Deep Caves"@[1]);
        },
        MapType::MapZhi => {
            reveal_strlit("Zhirov");
            reveal_strlit("Access");
            assert("Zhirov"@[0] != "Access"@[0]);
            reveal_strlit("Exiles");
            assert("Zhirov"@[0] != "Exiles"@[0]);
            reveal_strlit("Wastes");
            assert("Zhirov"@[0] != "Wastes"@[0]);
        },
        MapType::MapWar => {
            reveal_strlit("Warlord");
            reveal_strlit("Sandbox");
            assert("Warlord"@[0] != "Sandbox"@[0]);
            reveal_strlit("Factory");
            assert("Warlord"@[0] != "Factory"@[0]);
            reveal_strlit("Surface");
            assert("Warlord"@[0] != "Surface"@[0]);
            reveal_strlit("Storage");
            assert("Warlord"@[0] != "Storage"@[0]);
        },
        MapType::MapExt => {
            reveal_strlit("Extension");
            reveal_strlit("Materials");
            assert("Extension"@[0] != "Materials"@[0]);
            reveal_strlit("Recycling");
            assert("Extension"@[0] != "Recycling"@[0]);
        },
        MapType::MapCet => {
            reveal_strlit("Cetus");
            reveal_strlit("Mines");
            assert("Cetus"@[0] != "Mines"@[0]);
        },
        MapType::MapArc => {
            reveal_strlit("Archives");
            reveal_strlit("Junkyard");
            assert("Archives"@[0] != "Junkyard"@[0]);
            reveal_strlit("Research");
            assert("Archives"@[0] != "Research"@[0]);
            reveal_strlit("Garrison");
            assert("Archives"@[0] != "Garrison"@[0]);
            reveal_strlit("Subcaves");
            assert("Archives"@[0] != "Subcaves"@[0]);
        },
        MapType::MapHub => {
            reveal_strlit("Hub_04(d)");
            reveal_strlit("Materials");
            assert("Hub_04(d)"@[0] != "Materials"@[0]);
            reveal_strlit("Recycling");
            assert("Hub_04(d)"@[0] != "Recycling"@[0]);
            reveal_strlit("Extension");
            assert("Hub_04(d)"@[0] != "Extension"@[0]);
        },
        MapType::MapArm => {
            reveal_strlit("Armory");
            reveal_strlit("Access");
            assert("Armory"@[1] != "Access"@[1]);
            reveal_strlit("Exiles");
            assert("Armory"@[0] != "Exiles"@[0]);
            reveal_strlit("Wastes");
            assert("Armory"@[0] != "Wastes"@[0]);
            reveal_strlit("Zhirov");
            assert("Armory"@[0] != "Zhirov"@[0]);
        },
        MapType::MapLab => {
            reveal_strlit("Lab");
            reveal_strlit("DSF");
            assert("Lab"@[0] != "DSF"@[0]);
        },
        MapType::MapQua => {
            reveal_strlit("Quarantine");
            reveal_strlit("Deep Caves");
            assert("Quarantine"@[0] != "Deep Caves"@[0]);
            reveal_strlit("Data Miner");
            assert("Quarantine"@[0] != "Data Miner"@[0]);
        },
        MapType::MapTes => {
            reveal_strlit("Testing");
            reveal_strlit("Sandbox");
            assert("Testing"@[0] != "Sandbox"@[0]);
            reveal_strlit("Factory");
            assert("Testing"@[0] != "Factory"@[0]);
            reveal_strlit("Surface");
            assert("Testing"@[0] != "Surface"@[0]);
            reveal_strlit("Storage");
            assert("Testing"@[0] != "Storage"@[0]);
            reveal_strlit("Warlord");
            assert("Testing"@[0] != "Warlord"@[0]);
        },
        MapType::MapSec => {
            reveal_strlit("Section 7");
            reveal_strlit("Materials");
            assert("Section 7"@[0] != "Materials"@[0]);
            reveal_strlit("Recycling");
            assert("Section 7"@[0] != "Recycling"@[0]);
            reveal_strlit("Extension");
            assert("Section 7"@[0] != "Extension"@[0]);
            reveal_strlit("Hub_04(d)");
            assert("Section 7"@[0] != "Hub_04(d)"@[0]);
        },
        MapType::MapCom => {
            reveal_strlit("Command");
            reveal_strlit("Sandbox");
            assert("Command"@[0] != "Sandbox"@[0]);
            reveal_strlit("Factory");
            assert("Command"@[0] != "Factory"@[0]);
            reveal_strlit("Surface");
            assert("Command"@[0] != "Surface"@[0]);
            reveal_strlit("Storage");
            assert("Command"@[0] != "Storage"@[0]);
            reveal_strlit("Warlord");
            assert("Command"@[0] != "Warlord"@[0]);
            reveal_strlit("Testing");
            assert("Command"@[0] != "Testing"@[0]);
        },
        MapType::MapAc0 => {
            reveal_strlit("Access 0");
            reveal_strlit("Junkyard");
            assert("Access 0"@[0] != "Junkyard"@[0]);
            reveal_strlit("Research");
            assert("Access 0"@[0] != "Research"@[0]);
            reveal_strlit("Garrison");
            assert("Access 0"@[0] != "Garrison"@[0]);
            reveal_strlit("Subcaves");
            assert("Access 0"@[0] != "Subcaves"@[0]);
            reveal_strlit("Archives");
            assert("Access 0"@[1] != "Archives"@[1]);
        },
        MapType::MapLai => {
            reveal_strlit("Abomination Lair");
        },
        MapType::MapTow => {
            reveal_strlit("Wartown");
            reveal_strlit("Sandbox");
            assert("Wartown"@[0] != "Sandbox"@[0]);
            reveal_strlit("Factory");
            assert("Wartown"@[0] != "Factory"@[0]);
            reveal_strlit("Surface");
            assert("Wartown"@[0] != "Surface"@[0]);
            reveal_strlit("Storage");
            assert("Wartown"@[0] != "Storage"@[0]);
            reveal_strlit("Warlord");
            assert("Wartown"@[3] != "Warlord"@[3]);
            reveal_strlit("Testing");
            assert("Wartown"@[0] != "Testing"@[0]);
            reveal_strlit("Command");
            assert("Wartown"@[0] != "Command"@[0]);
        },
        MapType::MapW00 => {
            reveal_strlit("w0");
        },
        MapType::MapW01 => {
            reveal_strlit("w1");
            reveal_strlit("w0");
            assert("w1"@[1] != "w0"@[1]);
        },
        MapType::MapW02 => {
            reveal_strlit("w2");
            reveal_strlit("w0");
            assert("w2"@[1] != "w0"@[1]);
            reveal_strlit("w1");
            assert("w2"@[1] != "w1"@[1]);
        },
        MapType::MapW03 => {
            reveal_strlit("w3");
            reveal_strlit("w0");
            assert("w3"@[1] != "w0"@[1]);
            reveal_strlit("w1");
            assert("w3"@[1] != "w1"@[1]);
            reveal_strlit("w2");
            assert("w3"@[1] != "w2"@[1]);
        },
        MapType::MapW04 => {
            reveal_strlit("w4");
            reveal_strlit("w0");
            assert("w4"@[1] != "w0"@[1]);
            reveal_strlit("w1");
            assert("w4"@[1] != "w1"@[1]);
            reveal_strlit("w2");
            assert("w4"@[1] != "w2"@[1]);
            reveal_strlit("w3");
            assert("w4"@[1] != "w3"@[1]);
        },
        MapType::MapW05 => {
            reveal_strlit("w5");
            reveal_strlit("w0");
            assert("w5"@[1] != "w0"@[1]);
            reveal_strlit("w1");
            assert("w5"@[1] != "w1"@[1]);
            reveal_strlit("w2");
            assert("w5"@[1] != "w2"@[1]);
            reveal_strlit("w3");
            assert("w5"@[1] != "w3"@[1]);
            reveal_strlit("w4");
            assert("w5"@[1] != "w4"@[1]);
        },
        MapType::MapW06 => {
            reveal_strlit("w6");
            reveal_strlit("w0");
            assert("w6"@[1] != "w0"@[1]);
            reveal_strlit("w1");
            assert("w6"@[1] != "w1"@[1]);
            reveal_strlit("w2");
            assert("w6"@[1] != "w2"@[1]);
            reveal_strlit("w3");
            assert("w6"@[1] != "w3"@[1]);
            reveal_strlit("w4");
            assert("w6"@[1] != "w4"@[1]);
            reveal_strlit("w5");
            assert("w6"@[1] != "w5"@[1]);
        },
        MapType::MapW07 => {
            reveal_strlit("w7");
            reveal_strlit("w0");
            assert("w7"@[1] != "w0"@[1]);
            reveal_strlit("w1");
            assert("w7"@[1] != "w1"@[1]);
            reveal_strlit("w2");
            assert("w7"@[1] != "w2"@[1]);
            reveal_strlit("w3");
            assert("w7"@[1] != "w3"@[1]);
            reveal_strlit("w4");
            assert("w7"@[1] != "w4"@[1]);
            reveal_strlit("w5");
            assert("w7"@[1] != "w5"@[1]);
            reveal_strlit("w6");
            assert("w7"@[1] != "w6"@[1]);
        },
        MapType::MapW08 => {
            reveal_strlit("w8");
            reveal_strlit("w0");
            assert("w8"@[1] != "w0"@[1]);
            reveal_strlit("w1");
            assert("w8"@[1] != "w1"@[1]);
            reveal_strlit("w2");
            assert("w8"@[1] != "w2"@[1]);
            reveal_strlit("w3");
            assert("w8"@[1] != "w3"@[1]);
            reveal_strlit("w4");
            assert("w8"@[1] != "w4"@[1]);
            reveal_strlit("w5");
            assert("w8"@[1] != "w5"@[1]);
            reveal_strlit("w6");
            assert("w8"@[1] != "w6"@[1]);
            reveal_strlit("w7");
            assert("w8"@[1] != "w7"@[1]);
        },
    }
}

/// No two locations share a name.
pub proof fn lemma_name_identifies_map(m1: MapType, m2: MapType)
    requires
        m1.name_of() == m2.name_of(),
    ensures
        m1 == m2,
{
    lemma_name_round_trip(m1);
    lemma_name_round_trip(m2);
}

} // verus!
