use vstd::prelude::*;

use crate::error::ParseError;
use crate::primitives::parse_num;
use crate::text::{split_char, split_on, str_eq, u64_of};

verus! {

/// How a cast identity was made.
#[derive(Debug, Clone, Copy, PartialEq, Eq, Structural)]
pub enum CastType {
    Local,
    Active,
    Passive,
    TickA,
    TickB,
}

/// The kind of a creature-like identity, named by its leading token.
#[derive(Debug, Clone, Copy, PartialEq, Eq, Structural)]
pub enum CreatureType {
    Creature,
    Pet,
    GameObject,
    Vehicle,
}

/// The identity of a game entity.
#[derive(Debug, Clone)]
pub enum GUID {
    BattlePet { id: u64 },
    BNetAccount { account_id: u64 },
    Cast {
        cast_type: CastType,
        server_id: u64,
        instance_id: u64,
        zone_uid: u64,
        spell_id: u64,
        cast_uid: u64,
    },
    ClientActor { x: u64, y: u64, z: u64 },
    Creature {
        unit_type: CreatureType,
        server_id: u64,
        instance_id: u64,
        zone_uid: u64,
        id: u64,
        spawn_uid: String,
    },
    Follower(u64),
    Item { server_id: u64, spawn_uid: u64 },
    Player { server_id: u64, player_uid: String },
    Vignette { server_id: u64, instance_id: u64, zone_uid: u64, spawn_uid: u64 },
}

/// The text that stands for no identity.
pub open spec fn null_guid() -> Seq<char> {
    "0000000000000000"@
}

pub open spec fn creature_type_of(t: Seq<char>) -> Option<CreatureType> {
    if t == "Creature"@ {
        Some(CreatureType::Creature)
    } else if t == "Pet"@ {
        Some(CreatureType::Pet)
    } else if t == "GameObject"@ {
        Some(CreatureType::GameObject)
    } else if t == "Vehicle"@ {
        Some(CreatureType::Vehicle)
    } else {
        None
    }
}

/// The leading token of a GUID names a kind that this decoder reads.
pub open spec fn known_guid_kind(t: Seq<char>) -> bool {
    t == "Player"@ || creature_type_of(t) is Some
}

/// The dash-separated parts of a GUID.
pub open spec fn guid_parts(s: Seq<char>) -> Seq<Seq<char>> {
    split_on(s, '-')
}

/// The leading token of a GUID.
pub open spec fn guid_token(s: Seq<char>) -> Seq<char> {
    guid_parts(s)[0]
}

pub open spec fn u64_field_ok(s: Seq<char>) -> bool {
    u64_of(s) is Some
}

/// `s` decodes as a GUID, present or absent.
pub open spec fn guid_ok(s: Seq<char>) -> bool {
    let p = guid_parts(s);
    s == null_guid() || (if p[0] == "Player"@ {
        p.len() >= 3 && u64_field_ok(p[1])
    } else if creature_type_of(p[0]) is Some {
        p.len() >= 7 && u64_field_ok(p[2]) && u64_field_ok(p[3]) && u64_field_ok(p[4])
            && u64_field_ok(p[5])
    } else {
        false
    })
}

/// `g` is what the GUID text `s` decodes to.
pub open spec fn guid_is(s: Seq<char>, g: Option<GUID>) -> bool {
    let p = guid_parts(s);
    if s == null_guid() {
        g is None
    } else if p[0] == "Player"@ {
        g matches Some(GUID::Player { server_id, player_uid }) && u64_of(p[1]) == Some(server_id)
            && player_uid@ == p[2]
    } else {
        g matches Some(GUID::Creature { unit_type, server_id, instance_id, zone_uid, id, spawn_uid })
            && creature_type_of(p[0]) == Some(unit_type) && u64_of(p[2]) == Some(server_id) && u64_of(
            p[3],
        ) == Some(instance_id) && u64_of(p[4]) == Some(zone_uid) && u64_of(p[5]) == Some(id)
            && spawn_uid@ == p[6]
    }
}

fn creature_type(t: &str) -> (r: Option<CreatureType>)
    ensures
        r == creature_type_of(t@),
{
    if str_eq(t, "Creature") {
        Some(CreatureType::Creature)
    } else if str_eq(t, "Pet") {
        Some(CreatureType::Pet)
    } else if str_eq(t, "GameObject") {
        Some(CreatureType::GameObject)
    } else if str_eq(t, "Vehicle") {
        Some(CreatureType::Vehicle)
    } else {
        None
    }
}

impl GUID {
    /// Decodes a GUID. The sixteen-zero text is no identity (`Ok(None)`);
    /// otherwise the leading dash-separated token names the kind.
    pub fn parse(s: &str) -> (r: Result<Option<GUID>, ParseError>)
        ensures
            r is Ok <==> guid_ok(s@),
            r matches Ok(g) ==> guid_is(s@, g),
            s@ == null_guid() ==> r matches Ok(None),
            s@ != null_guid() && !known_guid_kind(guid_token(s@)) ==> (r matches Err(
                ParseError::UnknownGuidKind { token },
            ) && token@ == guid_token(s@)),
    {
        if str_eq(s, "0000000000000000") {
            return Ok(None);
        }
        let parts = split_char(s, '-');
        if str_eq(parts[0], "Player") {
            if parts.len() < 3 {
                return Err(ParseError::MalformedGuid { guid: s.to_owned() });
            }
            let server_id = match parse_num(parts[1]) {
                Ok(v) => v,
                Err(e) => {
                    return Err(e);
                },
            };
            return Ok(Some(GUID::Player { server_id, player_uid: parts[2].to_owned() }));
        }
        match creature_type(parts[0]) {
            Some(unit_type) => {
                if parts.len() < 7 {
                    return Err(ParseError::MalformedGuid { guid: s.to_owned() });
                }
                let server_id = match parse_num(parts[2]) {
                    Ok(v) => v,
                    Err(e) => {
                        return Err(e);
                    },
                };
                let instance_id = match parse_num(parts[3]) {
                    Ok(v) => v,
                    Err(e) => {
                        return Err(e);
                    },
                };
                let zone_uid = match parse_num(parts[4]) {
                    Ok(v) => v,
                    Err(e) => {
                        return Err(e);
                    },
                };
                let id = match parse_num(parts[5]) {
                    Ok(v) => v,
                    Err(e) => {
                        return Err(e);
                    },
                };
                Ok(
                    Some(
                        GUID::Creature {
                            unit_type,
                            server_id,
                            instance_id,
                            zone_uid,
                            id,
                            spawn_uid: parts[6].to_owned(),
                        },
                    ),
                )
            },
            None => Err(ParseError::UnknownGuidKind { token: parts[0].to_owned() }),
        }
    }
}

} // verus!
