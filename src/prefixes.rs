use vstd::prelude::*;

use crate::common::{spell_info_is, spell_info_ok, SpellInfo};
use crate::enums::{environmental_type_of, EnvironmentalType};
use crate::error::ParseError;
use crate::text::{has_prefix, starts_with};

verus! {

/// The leading part of a standard event: what, if anything, caused it.
#[derive(Debug, Clone)]
pub enum Prefix {
    Swing,
    Range(SpellInfo),
    Spell(Option<SpellInfo>),
    SpellPeriodic(SpellInfo),
    SpellBuilding(SpellInfo),
    Environmental(EnvironmentalType),
}

/// The shape of a prefix, chosen by the start of the event name.
#[derive(Debug, Clone, Copy, PartialEq, Eq, Structural)]
pub enum PrefixKind {
    Swing,
    Range,
    SpellPeriodic,
    SpellBuilding,
    Spell,
    Environmental,
}

/// The prefix shape of an event name. `SPELL_PERIODIC` and `SPELL_BUILDING`
/// are tried before the plain `SPELL`.
pub open spec fn prefix_kind_of(name: Seq<char>) -> Option<PrefixKind> {
    if starts_with(name, "SWING"@) {
        Some(PrefixKind::Swing)
    } else if starts_with(name, "RANGE"@) {
        Some(PrefixKind::Range)
    } else if starts_with(name, "SPELL_PERIODIC"@) {
        Some(PrefixKind::SpellPeriodic)
    } else if starts_with(name, "SPELL_BUILDING"@) {
        Some(PrefixKind::SpellBuilding)
    } else if starts_with(name, "SPELL"@) {
        Some(PrefixKind::Spell)
    } else if starts_with(name, "ENVIRONMENTAL"@) {
        Some(PrefixKind::Environmental)
    } else {
        None
    }
}

/// How many fields a prefix of the shape takes.
pub open spec fn prefix_width(k: PrefixKind) -> usize {
    match k {
        PrefixKind::Swing => 0,
        PrefixKind::Environmental => 1,
        _ => 3,
    }
}

/// The prefix fields `l` decode for the shape `k`. A spell prefix may also
/// hold no fields.
pub open spec fn prefix_ok(k: PrefixKind, l: Seq<&str>) -> bool {
    match k {
        PrefixKind::Swing => true,
        PrefixKind::Spell => l.len() == 0 || (l.len() == 3 && spell_info_ok(l)),
        PrefixKind::Environmental => l.len() >= 1 && environmental_type_of(l[0]@) is Some,
        _ => l.len() >= 3 && spell_info_ok(l.subrange(0, 3)),
    }
}

/// `p` is the prefix of the shape `k` that the fields `l` hold.
pub open spec fn prefix_is(k: PrefixKind, l: Seq<&str>, p: Prefix) -> bool {
    match k {
        PrefixKind::Swing => p is Swing,
        PrefixKind::Range => p matches Prefix::Range(s) && spell_info_is(l.subrange(0, 3), s),
        PrefixKind::SpellPeriodic => p matches Prefix::SpellPeriodic(s) && spell_info_is(
            l.subrange(0, 3),
            s,
        ),
        PrefixKind::SpellBuilding => p matches Prefix::SpellBuilding(s) && spell_info_is(
            l.subrange(0, 3),
            s,
        ),
        PrefixKind::Spell => p matches Prefix::Spell(o) && (if l.len() == 0 {
            o is None
        } else {
            o matches Some(s) && spell_info_is(l, s)
        }),
        PrefixKind::Environmental => p matches Prefix::Environmental(t) && environmental_type_of(
            l[0]@,
        ) == Some(t),
    }
}

/// The prefix shape of an event name.
pub fn prefix_kind(event_type: &str) -> (r: Option<PrefixKind>)
    ensures
        r == prefix_kind_of(event_type@),
{
    if has_prefix(event_type, "SWING") {
        Some(PrefixKind::Swing)
    } else if has_prefix(event_type, "RANGE") {
        Some(PrefixKind::Range)
    } else if has_prefix(event_type, "SPELL_PERIODIC") {
        Some(PrefixKind::SpellPeriodic)
    } else if has_prefix(event_type, "SPELL_BUILDING") {
        Some(PrefixKind::SpellBuilding)
    } else if has_prefix(event_type, "SPELL") {
        Some(PrefixKind::Spell)
    } else if has_prefix(event_type, "ENVIRONMENTAL") {
        Some(PrefixKind::Environmental)
    } else {
        None
    }
}

pub open spec fn is_unknown_prefix(e: ParseError, name: Seq<char>) -> bool {
    e matches ParseError::UnknownPrefix { event_type } && event_type@ == name
}

fn leading_spell(line: &[&str]) -> (r: Result<SpellInfo, ParseError>)
    ensures
        r is Ok <==> (line@.len() >= 3 && spell_info_ok(line@.subrange(0, 3))),
        r matches Ok(s) ==> spell_info_is(line@.subrange(0, 3), s),
{
    if line.len() < 3 {
        return Err(ParseError::FieldCount { wanted: 3, found: line.len() });
    }
    SpellInfo::parse_record(&line[0..3])
}

impl Prefix {
    /// How many fields the prefix of an event takes.
    pub fn entries_to_consume(event_type: &str) -> (r: Result<usize, ParseError>)
        ensures
            prefix_kind_of(event_type@) matches Some(k) ==> r == Ok::<usize, ParseError>(
                prefix_width(k),
            ),
            prefix_kind_of(event_type@) is None ==> (r matches Err(e) && is_unknown_prefix(
                e,
                event_type@,
            )),
    {
        match prefix_kind(event_type) {
            Some(PrefixKind::Swing) => Ok(0),
            Some(PrefixKind::Environmental) => Ok(1),
            Some(_) => Ok(3),
            None => Err(ParseError::UnknownPrefix { event_type: event_type.to_owned() }),
        }
    }

    /// Decodes the prefix fields of an event, by the shape its name selects.
    pub fn parse(event_type: &str, line: &[&str]) -> (r: Result<Prefix, ParseError>)
        ensures
            prefix_kind_of(event_type@) matches Some(k) ==> (r is Ok <==> prefix_ok(k, line@)),
            prefix_kind_of(event_type@) is Some && r is Ok ==> prefix_is(
                prefix_kind_of(event_type@).unwrap(),
                line@,
                r->Ok_0,
            ),
            prefix_kind_of(event_type@) is None ==> (r matches Err(e) && is_unknown_prefix(
                e,
                event_type@,
            )),
    {
        match prefix_kind(event_type) {
            Some(PrefixKind::Swing) => Ok(Prefix::Swing),
            Some(PrefixKind::Range) => match leading_spell(line) {
                Ok(s) => Ok(Prefix::Range(s)),
                Err(e) => Err(e),
            },
            Some(PrefixKind::SpellPeriodic) => match leading_spell(line) {
                Ok(s) => Ok(Prefix::SpellPeriodic(s)),
                Err(e) => Err(e),
            },
            Some(PrefixKind::SpellBuilding) => match leading_spell(line) {
                Ok(s) => Ok(Prefix::SpellBuilding(s)),
                Err(e) => Err(e),
            },
            Some(PrefixKind::Spell) => {
                if line.len() == 0 {
                    Ok(Prefix::Spell(None))
                } else if line.len() == 3 {
                    match SpellInfo::parse_record(line) {
                        Ok(s) => Ok(Prefix::Spell(Some(s))),
                        Err(e) => Err(e),
                    }
                } else {
                    Err(ParseError::FieldCount { wanted: 3, found: line.len() })
                }
            },
            Some(PrefixKind::Environmental) => {
                if line.len() < 1 {
                    return Err(ParseError::FieldCount { wanted: 1, found: 0 });
                }
                match EnvironmentalType::parse(line[0]) {
                    Ok(t) => Ok(Prefix::Environmental(t)),
                    Err(e) => Err(e),
                }
            },
            None => Err(ParseError::UnknownPrefix { event_type: event_type.to_owned() }),
        }
    }
}

} // verus!
