use vstd::prelude::*;

use crate::enums::{school_field_is, school_field_ok, SpellSchool};
use crate::error::ParseError;
use crate::guid::{guid_is, guid_ok, null_guid, GUID};
use crate::primitives::{hex_field_of, parse_hex, parse_num};
use crate::text::{str_eq, u64_of};

verus! {

/// A spell: its id, name and schools (`None` where the log gives `-1`).
#[derive(Debug, Clone)]
pub struct SpellInfo {
    pub id: u64,
    pub name: String,
    pub school: Option<Vec<SpellSchool>>,
}

/// A participant of an event.
#[derive(Debug, Clone)]
pub struct Actor {
    pub guid: GUID,
    pub name: String,
    pub flags: u64,
    pub raid_flags: Option<u64>,
}

/// The three fields decode as a spell.
pub open spec fn spell_info_ok(l: Seq<&str>) -> bool {
    l.len() == 3 && u64_of(l[0]@) is Some && school_field_ok(l[2]@)
}

/// `v` is the spell that the three fields `l` describe.
pub open spec fn spell_info_is(l: Seq<&str>, v: SpellInfo) -> bool {
    u64_of(l[0]@) == Some(v.id) && v.name@ == l[1]@ && school_field_is(l[2]@, v.school)
}

/// A raid-flags field is `nil` or hexadecimal.
pub open spec fn raid_flags_ok(s: Seq<char>) -> bool {
    s == "nil"@ || hex_field_of(s) is Some
}

pub open spec fn raid_flags_value(s: Seq<char>) -> Option<u64> {
    if s == "nil"@ {
        None
    } else {
        hex_field_of(s)
    }
}

/// The four fields decode as an actor block, present or absent.
pub open spec fn actor_ok(l: Seq<&str>) -> bool {
    l.len() == 4 && guid_ok(l[0]@) && (l[0]@ == null_guid() || (hex_field_of(l[2]@) is Some
        && raid_flags_ok(l[3]@)))
}

/// `a` is what the actor block `l` decodes to: nothing where its GUID is absent.
pub open spec fn actor_is(l: Seq<&str>, a: Option<Actor>) -> bool {
    if l[0]@ == null_guid() {
        a is None
    } else {
        a matches Some(x) && guid_is(l[0]@, Some(x.guid)) && x.name@ == l[1]@ && hex_field_of(
            l[2]@,
        ) == Some(x.flags) && x.raid_flags == raid_flags_value(l[3]@)
    }
}

impl SpellInfo {
    /// Decodes a spell from its id, name and school fields.
    pub fn parse_record(line: &[&str]) -> (r: Result<SpellInfo, ParseError>)
        ensures
            r is Ok <==> spell_info_ok(line@),
            r matches Ok(v) ==> spell_info_is(line@, v),
            line@.len() != 3 ==> r == Err::<SpellInfo, ParseError>(
                ParseError::FieldCount { wanted: 3, found: line@.len() as usize },
            ),
    {
        if line.len() != 3 {
            return Err(ParseError::FieldCount { wanted: 3, found: line.len() });
        }
        let id = match parse_num(line[0]) {
            Ok(v) => v,
            Err(e) => {
                return Err(e);
            },
        };
        let school = match SpellSchool::parse(line[2]) {
            Ok(v) => v,
            Err(e) => {
                return Err(e);
            },
        };
        Ok(SpellInfo { id, name: line[1].to_owned(), school })
    }
}

impl Actor {
    /// Decodes an actor block of four fields: GUID, name, flags, raid flags.
    /// An absent GUID makes the whole actor absent.
    pub fn parse(line: &[&str]) -> (r: Result<Option<Actor>, ParseError>)
        ensures
            r is Ok <==> actor_ok(line@),
            r matches Ok(a) ==> actor_is(line@, a),
            line@.len() != 4 ==> r == Err::<Option<Actor>, ParseError>(
                ParseError::FieldCount { wanted: 4, found: line@.len() as usize },
            ),
    {
        if line.len() != 4 {
            return Err(ParseError::FieldCount { wanted: 4, found: line.len() });
        }
        let guid = match GUID::parse(line[0]) {
            Ok(Some(g)) => g,
            Ok(None) => {
                return Ok(None);
            },
            Err(e) => {
                return Err(e);
            },
        };
        let flags = match parse_hex(line[2]) {
            Ok(v) => v,
            Err(e) => {
                return Err(e);
            },
        };
        let raid_flags = if str_eq(line[3], "nil") {
            None
        } else {
            match parse_hex(line[3]) {
                Ok(v) => Some(v),
                Err(e) => {
                    return Err(e);
                },
            }
        };
        Ok(Some(Actor { guid, name: line[1].to_owned(), flags, raid_flags }))
    }
}

} // verus!
