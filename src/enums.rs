use vstd::prelude::*;

use crate::error::{EnumKind, NumberKind, ParseError};
use crate::primitives::{is_invalid_number, parse_i8, parse_u8};
use crate::text::{has_prefix, hex_u8_of, i8_of, parse_unsigned, starts_with, str_eq, u8_of};

verus! {

// ---------------------------------------------------------------------
// Title-cased names
// ---------------------------------------------------------------------

pub open spec fn is_ascii_lower(c: char) -> bool {
    'a' <= c && c <= 'z'
}

pub open spec fn is_ascii_upper(c: char) -> bool {
    'A' <= c && c <= 'Z'
}

/// `n` is `c` in ASCII upper case.
pub open spec fn upper_is(c: char, n: char) -> bool {
    if is_ascii_lower(c) {
        c as u32 - 32 == n as u32
    } else {
        c == n
    }
}

/// `n` is `c` in ASCII lower case.
pub open spec fn lower_is(c: char, n: char) -> bool {
    if is_ascii_upper(c) {
        c as u32 + 32 == n as u32
    } else {
        c == n
    }
}

/// Title-casing `s` (first character upper case, the others lower case) gives `name`.
pub open spec fn title_case_is(s: Seq<char>, name: Seq<char>) -> bool {
    s.len() == name.len() && forall|i: int|
        0 <= i < s.len() ==> (if i == 0 {
            upper_is(s[i], name[i])
        } else {
            lower_is(s[i], name[i])
        })
}

fn char_upper_is(c: char, n: char) -> (r: bool)
    ensures
        r == upper_is(c, n),
{
    if 'a' <= c && c <= 'z' {
        c as u32 - 32 == n as u32
    } else {
        c == n
    }
}

fn char_lower_is(c: char, n: char) -> (r: bool)
    ensures
        r == lower_is(c, n),
{
    if 'A' <= c && c <= 'Z' {
        c as u32 + 32 == n as u32
    } else {
        c == n
    }
}

/// Whether title-casing `s` gives `name`.
pub fn title_case_matches(s: &str, name: &str) -> (r: bool)
    ensures
        r == title_case_is(s@, name@),
{
    let n = s.unicode_len();
    if n != name.unicode_len() {
        return false;
    }
    let mut i: usize = 0;
    while i < n
        invariant
            n == s@.len(),
            n == name@.len(),
            0 <= i <= n,
            forall|k: int|
                0 <= k < i ==> (if k == 0 {
                    upper_is(s@[k], name@[k])
                } else {
                    lower_is(s@[k], name@[k])
                }),
        decreases n - i,
    {
        let c = s.get_char(i);
        let m = name.get_char(i);
        let ok = if i == 0 {
            char_upper_is(c, m)
        } else {
            char_lower_is(c, m)
        };
        if !ok {
            return false;
        }
        i = i + 1;
    }
    true
}

// ---------------------------------------------------------------------
// Spell schools
// ---------------------------------------------------------------------

/// A school of magic; a spell's schools are a bitmask of these.
#[derive(Debug, Clone, Copy, PartialEq, Eq, Structural)]
pub enum SpellSchool {
    Physical,
    Holy,
    Fire,
    Nature,
    Frost,
    Shadow,
    Arcane,
}

/// The schools whose bit is set in `m`, in the order of their bits.
pub open spec fn schools_of(m: u8) -> Seq<SpellSchool> {
    (if m & 1 != 0 { seq![SpellSchool::Physical] } else { seq![] }) + (if m & 2 != 0 {
        seq![SpellSchool::Holy]
    } else {
        seq![]
    }) + (if m & 4 != 0 { seq![SpellSchool::Fire] } else { seq![] }) + (if m & 8 != 0 {
        seq![SpellSchool::Nature]
    } else {
        seq![]
    }) + (if m & 16 != 0 { seq![SpellSchool::Frost] } else { seq![] }) + (if m & 32 != 0 {
        seq![SpellSchool::Shadow]
    } else {
        seq![]
    }) + (if m & 64 != 0 { seq![SpellSchool::Arcane] } else { seq![] })
}

/// The bitmask that a school field holds: hexadecimal after `0x`, else decimal.
pub open spec fn school_mask_of(s: Seq<char>) -> Option<u8> {
    if starts_with(s, "0x"@) {
        hex_u8_of(s.subrange(2, s.len() as int))
    } else {
        u8_of(s)
    }
}

/// A school field decodes to no school set (`-1`), to the set of the mask,
/// or fails.
pub open spec fn school_field_ok(s: Seq<char>) -> bool {
    s == "-1"@ || school_mask_of(s) is Some
}

/// `v` is what the school field `s` decodes to.
pub open spec fn school_field_is(s: Seq<char>, v: Option<Vec<SpellSchool>>) -> bool {
    if s == "-1"@ {
        v is None
    } else {
        v matches Some(w) && school_mask_of(s) matches Some(m) && w@ == schools_of(m)
    }
}

fn push_if(v: &mut Vec<SpellSchool>, m: u8, bit: u8, s: SpellSchool)
    ensures
        final(v)@ == old(v)@ + (if m & bit != 0 { seq![s] } else { seq![] }),
{
    if m & bit != 0 {
        v.push(s);
    } else {
        assert(old(v)@ + seq![] =~= old(v)@);
    }
}

impl SpellSchool {
    /// The bit of this school in a school mask.
    pub fn bit(self) -> (r: u8)
        ensures
            r == (match self {
                SpellSchool::Physical => 1u8,
                SpellSchool::Holy => 2u8,
                SpellSchool::Fire => 4u8,
                SpellSchool::Nature => 8u8,
                SpellSchool::Frost => 16u8,
                SpellSchool::Shadow => 32u8,
                SpellSchool::Arcane => 64u8,
            }),
    {
        match self {
            SpellSchool::Physical => 1,
            SpellSchool::Holy => 2,
            SpellSchool::Fire => 4,
            SpellSchool::Nature => 8,
            SpellSchool::Frost => 16,
            SpellSchool::Shadow => 32,
            SpellSchool::Arcane => 64,
        }
    }

    /// The schools of a mask, in the order of their bits.
    pub fn from_mask(m: u8) -> (r: Vec<SpellSchool>)
        ensures
            r@ == schools_of(m),
    {
        let mut v: Vec<SpellSchool> = Vec::new();
        push_if(&mut v, m, 1, SpellSchool::Physical);
        push_if(&mut v, m, 2, SpellSchool::Holy);
        push_if(&mut v, m, 4, SpellSchool::Fire);
        push_if(&mut v, m, 8, SpellSchool::Nature);
        push_if(&mut v, m, 16, SpellSchool::Frost);
        push_if(&mut v, m, 32, SpellSchool::Shadow);
        push_if(&mut v, m, 64, SpellSchool::Arcane);
        assert(v@ =~= schools_of(m));
        v
    }

    /// Decodes a school field: `-1` is no school set; otherwise a mask,
    /// hexadecimal after `0x`, else decimal, of which the named schools are
    /// those whose bit is set.
    pub fn parse(s: &str) -> (r: Result<Option<Vec<SpellSchool>>, ParseError>)
        ensures
            r is Ok <==> school_field_ok(s@),
            r matches Ok(v) ==> school_field_is(s@, v),
            r matches Err(e) ==> is_invalid_number(e, s@, NumberKind::U8),
    {
        if str_eq(s, "-1") {
            return Ok(None);
        }
        let mask = if has_prefix(s, "0x") {
            proof {
                reveal_strlit("0x");
            }
            let n = s.unicode_len();
            match parse_unsigned(s.substring_char(2, n), 16, 255) {
                Some(m) => m as u8,
                None => {
                    return Err(
                        ParseError::InvalidNumber { field: s.to_owned(), expected: NumberKind::U8 },
                    );
                },
            }
        } else {
            match parse_u8(s) {
                Ok(m) => m,
                Err(e) => {
                    return Err(e);
                },
            }
        };
        Ok(Some(SpellSchool::from_mask(mask)))
    }
}

// ---------------------------------------------------------------------
// Power types
// ---------------------------------------------------------------------

/// The kind of resource that a power value counts.
#[derive(Debug, Clone, Copy, PartialEq, Eq, Structural)]
pub enum PowerType {
    Health,
    Mana,
    Rage,
    Focus,
    Energy,
    ComboPoints,
    Runes,
    RunicPower,
    SoulShards,
    LunarPower,
    HolyPower,
    Alternate,
    Maelstrom,
    Chi,
    Insanity,
    Obsolete,
    Obsolete2,
    ArcaneCharges,
    Fury,
    Pain,
    Essence,
    RuneBlood,
    RuneFrost,
    RuneUnholy,
    AlternateQuest,
    AlternateEncounter,
    AlternateMount,
}

/// The power type of a signed code.
pub open spec fn power_type_of(code: i8) -> Option<PowerType> {
    match code {
        -2 => Some(PowerType::Health),
        0 => Some(PowerType::Mana),
        1 => Some(PowerType::Rage),
        2 => Some(PowerType::Focus),
        3 => Some(PowerType::Energy),
        4 => Some(PowerType::ComboPoints),
        5 => Some(PowerType::Runes),
        6 => Some(PowerType::RunicPower),
        7 => Some(PowerType::SoulShards),
        8 => Some(PowerType::LunarPower),
        9 => Some(PowerType::HolyPower),
        10 => Some(PowerType::Alternate),
        11 => Some(PowerType::Maelstrom),
        12 => Some(PowerType::Chi),
        13 => Some(PowerType::Insanity),
        14 => Some(PowerType::Obsolete),
        15 => Some(PowerType::Obsolete2),
        16 => Some(PowerType::ArcaneCharges),
        17 => Some(PowerType::Fury),
        18 => Some(PowerType::Pain),
        19 => Some(PowerType::Essence),
        20 => Some(PowerType::RuneBlood),
        21 => Some(PowerType::RuneFrost),
        22 => Some(PowerType::RuneUnholy),
        23 => Some(PowerType::AlternateQuest),
        24 => Some(PowerType::AlternateEncounter),
        25 => Some(PowerType::AlternateMount),
        _ => None,
    }
}

/// A power-type field holds `-1` (none) or the code of a power type.
pub open spec fn power_field_ok(s: Seq<char>) -> bool {
    s == "-1"@ || (i8_of(s) matches Some(c) && power_type_of(c) is Some)
}

/// The power type that a field that decodes names.
pub open spec fn power_field_value(s: Seq<char>) -> Option<PowerType> {
    if s == "-1"@ {
        None
    } else {
        power_type_of(i8_of(s).unwrap())
    }
}

impl PowerType {
    /// The power type of a code, if the code names one.
    pub fn from_code(code: i8) -> (r: Option<PowerType>)
        ensures
            r == power_type_of(code),
    {
        match code {
            -2 => Some(PowerType::Health),
            0 => Some(PowerType::Mana),
            1 => Some(PowerType::Rage),
            2 => Some(PowerType::Focus),
            3 => Some(PowerType::Energy),
            4 => Some(PowerType::ComboPoints),
            5 => Some(PowerType::Runes),
            6 => Some(PowerType::RunicPower),
            7 => Some(PowerType::SoulShards),
            8 => Some(PowerType::LunarPower),
            9 => Some(PowerType::HolyPower),
            10 => Some(PowerType::Alternate),
            11 => Some(PowerType::Maelstrom),
            12 => Some(PowerType::Chi),
            13 => Some(PowerType::Insanity),
            14 => Some(PowerType::Obsolete),
            15 => Some(PowerType::Obsolete2),
            16 => Some(PowerType::ArcaneCharges),
            17 => Some(PowerType::Fury),
            18 => Some(PowerType::Pain),
            19 => Some(PowerType::Essence),
            20 => Some(PowerType::RuneBlood),
            21 => Some(PowerType::RuneFrost),
            22 => Some(PowerType::RuneUnholy),
            23 => Some(PowerType::AlternateQuest),
            24 => Some(PowerType::AlternateEncounter),
            25 => Some(PowerType::AlternateMount),
            _ => None,
        }
    }

    /// Decodes a power-type field: `-1` is no power type; otherwise a signed
    /// 8-bit code, which must name a power type.
    pub fn parse(s: &str) -> (r: Result<Option<PowerType>, ParseError>)
        ensures
            r is Ok <==> power_field_ok(s@),
            r matches Ok(v) ==> v == power_field_value(s@),
            s@ != "-1"@ && i8_of(s@) is None ==> (r matches Err(e) && is_invalid_number(
                e,
                s@,
                NumberKind::I8,
            )),
            s@ != "-1"@ && i8_of(s@) is Some && power_type_of(i8_of(s@).unwrap()) is None ==> r
                == Err::<Option<PowerType>, ParseError>(
                ParseError::UnknownPowerType { code: i8_of(s@).unwrap() },
            ),
    {
        if str_eq(s, "-1") {
            return Ok(None);
        }
        let code = match parse_i8(s) {
            Ok(c) => c,
            Err(e) => {
                return Err(e);
            },
        };
        match PowerType::from_code(code) {
            Some(p) => Ok(Some(p)),
            None => Err(ParseError::UnknownPowerType { code }),
        }
    }
}

// ---------------------------------------------------------------------
// Named enumerations
// ---------------------------------------------------------------------

pub open spec fn is_unknown_enum(e: ParseError, s: Seq<char>, k: EnumKind) -> bool {
    e matches ParseError::UnknownEnumValue { kind, raw } && kind == k && raw@ == s
}

/// How an attack failed to land.
#[derive(Debug, Clone, Copy, PartialEq, Eq, Structural)]
pub enum MissType {
    Absorb,
    Block,
    Deflect,
    Dodge,
    Evade,
    Immune,
    Miss,
    Parry,
    Reflect,
    Resist,
}

pub open spec fn miss_type_of(s: Seq<char>) -> Option<MissType> {
    if title_case_is(s, "Absorb"@) {
        Some(MissType::Absorb)
    } else if title_case_is(s, "Block"@) {
        Some(MissType::Block)
    } else if title_case_is(s, "Deflect"@) {
        Some(MissType::Deflect)
    } else if title_case_is(s, "Dodge"@) {
        Some(MissType::Dodge)
    } else if title_case_is(s, "Evade"@) {
        Some(MissType::Evade)
    } else if title_case_is(s, "Immune"@) {
        Some(MissType::Immune)
    } else if title_case_is(s, "Miss"@) {
        Some(MissType::Miss)
    } else if title_case_is(s, "Parry"@) {
        Some(MissType::Parry)
    } else if title_case_is(s, "Reflect"@) {
        Some(MissType::Reflect)
    } else if title_case_is(s, "Resist"@) {
        Some(MissType::Resist)
    } else {
        None
    }
}

impl MissType {
    /// Decodes a miss type from its upper-case name.
    pub fn parse(s: &str) -> (r: Result<MissType, ParseError>)
        ensures
            miss_type_of(s@) matches Some(m) ==> r == Ok::<MissType, ParseError>(m),
            miss_type_of(s@) is None ==> (r matches Err(e) && is_unknown_enum(
                e,
                s@,
                EnumKind::MissType,
            )),
    {
        if title_case_matches(s, "Absorb") {
            Ok(MissType::Absorb)
        } else if title_case_matches(s, "Block") {
            Ok(MissType::Block)
        } else if title_case_matches(s, "Deflect") {
            Ok(MissType::Deflect)
        } else if title_case_matches(s, "Dodge") {
            Ok(MissType::Dodge)
        } else if title_case_matches(s, "Evade") {
            Ok(MissType::Evade)
        } else if title_case_matches(s, "Immune") {
            Ok(MissType::Immune)
        } else if title_case_matches(s, "Miss") {
            Ok(MissType::Miss)
        } else if title_case_matches(s, "Parry") {
            Ok(MissType::Parry)
        } else if title_case_matches(s, "Reflect") {
            Ok(MissType::Reflect)
        } else if title_case_matches(s, "Resist") {
            Ok(MissType::Resist)
        } else {
            Err(ParseError::UnknownEnumValue { kind: EnumKind::MissType, raw: s.to_owned() })
        }
    }
}

/// Whether an aura helps or harms.
#[derive(Debug, Clone, Copy, PartialEq, Eq, Structural)]
pub enum AuraType {
    Buff,
    Debuff,
}

pub open spec fn aura_type_of(s: Seq<char>) -> Option<AuraType> {
    if title_case_is(s, "Buff"@) {
        Some(AuraType::Buff)
    } else if title_case_is(s, "Debuff"@) {
        Some(AuraType::Debuff)
    } else {
        None
    }
}

impl AuraType {
    /// Decodes an aura type from its upper-case name.
    pub fn parse(s: &str) -> (r: Result<AuraType, ParseError>)
        ensures
            aura_type_of(s@) matches Some(a) ==> r == Ok::<AuraType, ParseError>(a),
            aura_type_of(s@) is None ==> (r matches Err(e) && is_unknown_enum(
                e,
                s@,
                EnumKind::AuraType,
            )),
    {
        if title_case_matches(s, "Buff") {
            Ok(AuraType::Buff)
        } else if title_case_matches(s, "Debuff") {
            Ok(AuraType::Debuff)
        } else {
            Err(ParseError::UnknownEnumValue { kind: EnumKind::AuraType, raw: s.to_owned() })
        }
    }
}

/// The cause of environmental damage.
#[derive(Debug, Clone, Copy, PartialEq, Eq, Structural)]
pub enum EnvironmentalType {
    Drowning,
    Falling,
    Fatigue,
    Fire,
    Lava,
    Slime,
}

pub open spec fn environmental_type_of(s: Seq<char>) -> Option<EnvironmentalType> {
    if title_case_is(s, "Drowning"@) {
        Some(EnvironmentalType::Drowning)
    } else if title_case_is(s, "Falling"@) {
        Some(EnvironmentalType::Falling)
    } else if title_case_is(s, "Fatigue"@) {
        Some(EnvironmentalType::Fatigue)
    } else if title_case_is(s, "Fire"@) {
        Some(EnvironmentalType::Fire)
    } else if title_case_is(s, "Lava"@) {
        Some(EnvironmentalType::Lava)
    } else if title_case_is(s, "Slime"@) {
        Some(EnvironmentalType::Slime)
    } else {
        None
    }
}

impl EnvironmentalType {
    /// Decodes an environmental type from its name, in any case.
    pub fn parse(s: &str) -> (r: Result<EnvironmentalType, ParseError>)
        ensures
            environmental_type_of(s@) matches Some(t) ==> r == Ok::<EnvironmentalType, ParseError>(
                t,
            ),
            environmental_type_of(s@) is None ==> (r matches Err(e) && is_unknown_enum(
                e,
                s@,
                EnumKind::EnvironmentalType,
            )),
    {
        if title_case_matches(s, "Drowning") {
            Ok(EnvironmentalType::Drowning)
        } else if title_case_matches(s, "Falling") {
            Ok(EnvironmentalType::Falling)
        } else if title_case_matches(s, "Fatigue") {
            Ok(EnvironmentalType::Fatigue)
        } else if title_case_matches(s, "Fire") {
            Ok(EnvironmentalType::Fire)
        } else if title_case_matches(s, "Lava") {
            Ok(EnvironmentalType::Lava)
        } else if title_case_matches(s, "Slime") {
            Ok(EnvironmentalType::Slime)
        } else {
            Err(
                ParseError::UnknownEnumValue {
                    kind: EnumKind::EnvironmentalType,
                    raw: s.to_owned(),
                },
            )
        }
    }
}

} // verus!
