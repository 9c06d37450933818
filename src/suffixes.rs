use vstd::prelude::*;

use crate::common::{actor_is, actor_ok, spell_info_is, spell_info_ok, Actor, SpellInfo};
use crate::decimal::{decimal_of, Decimal};
use crate::enums::{
    aura_type_of, miss_type_of, power_field_ok, power_field_value, school_field_is,
    school_field_ok, AuraType, MissType, PowerType, SpellSchool,
};
use crate::error::ParseError;
use crate::guid::null_guid;
use crate::primitives::{bool_of, parse_bool, parse_i64, parse_num};
use crate::text::{ends_with, has_suffix, i64_of, str_eq, u64_of};

verus! {

/// The amounts of a damage event.
#[derive(Debug, Clone)]
pub struct DamageInfo {
    pub amount: i64,
    pub base_amount: i64,
    pub overkill: Option<u64>,
    pub school: Option<Vec<SpellSchool>>,
    pub resisted: u64,
    pub blocked: u64,
    pub absorbed: i64,
    pub critical: bool,
    pub glancing: bool,
    pub crushing: bool,
}

/// The trailing part of a standard event: what happened.
#[derive(Debug, Clone)]
pub enum Suffix {
    Damage(DamageInfo),
    DamageLanded(DamageInfo),
    Missed {
        miss_type: MissType,
        offhand: bool,
        amount_missed: u64,
        base_amount: u64,
        critical: bool,
    },
    Heal { amount: u64, base_amount: u64, overhealing: u64, absorbed: u64, critical: bool },
    HealAbsorbed {
        actor: Option<Actor>,
        spell_info: SpellInfo,
        absorbed_amount: u64,
        total_amount: u64,
    },
    Absorbed {
        absorb_caster: Actor,
        absorb_spell_info: SpellInfo,
        absorbed_amount: i64,
        base_amount: u64,
        critical: bool,
    },
    Energize {
        amount: Decimal,
        over_energize: Decimal,
        power_type: PowerType,
        max_power: u64,
    },
    Drain { amount: u64, power_type: PowerType, extra_amount: u64, max_power: u64 },
    Leech { amount: u64, power_type: PowerType, extra_amount: u64 },
    Interrupt { spell_info: SpellInfo },
    Dispel { spell_info: SpellInfo, aura_type: AuraType },
    DispelFailed { spell_info: SpellInfo },
    Stolen { spell_info: SpellInfo, aura_type: AuraType },
    ExtraAttacks { amount: u64 },
    AuraApplied { aura_type: AuraType, amount: Option<u64> },
    AuraRemoved { aura_type: AuraType, amount: Option<u64> },
    AuraAppliedDose { aura_type: AuraType, amount: u64 },
    AuraRemovedDose { aura_type: AuraType, amount: u64 },
    AuraRefresh { aura_type: AuraType },
    AuraBroken { aura_type: AuraType },
    AuraBrokenSpell { spell_info: SpellInfo, aura_type: AuraType },
    CastStart,
    CastSuccess,
    CastFailed { failed_type: String },
    Instakill { unconscious_on_death: bool },
    DurabilityDamage,
    DurabilityDamageAll,
    Create,
    Summon,
    Resurrect,
    EmpowerStart,
    EmpowerEnd { empowered_rank: u64 },
    EmpowerInterrupt { empowered_rank: u64 },
}

/// The shape of a suffix, chosen by the end of the event name.
#[derive(Debug, Clone, Copy, PartialEq, Eq, Structural)]
pub enum SuffixKind {
    DurabilityDamageAll,
    DurabilityDamage,
    DamageLanded,
    Damage,
    Missed,
    HealAbsorbed,
    Heal,
    Absorbed,
    Energize,
    Drain,
    Leech,
    EmpowerInterrupt,
    Interrupt,
    DispelFailed,
    Dispel,
    Stolen,
    ExtraAttacks,
    AuraAppliedDose,
    AuraRemovedDose,
    AuraApplied,
    AuraRemoved,
    AuraRefresh,
    AuraBrokenSpell,
    AuraBroken,
    CastStart,
    CastSuccess,
    CastFailed,
    Instakill,
    Create,
    Summon,
    Resurrect,
    EmpowerStart,
    EmpowerEnd,
}

/// The name that decides the suffix: the event name without a trailing
/// `_SUPPORT`, which marks an event credited to a supporting player.
pub open spec fn suffix_name(name: Seq<char>) -> Seq<char> {
    if ends_with(name, "_SUPPORT"@) {
        name.subrange(0, name.len() - 8)
    } else {
        name
    }
}

/// The suffix shape of an event name. An ending that ends another one
/// (`DAMAGE` of `DURABILITY_DAMAGE`, `ABSORBED` of `HEAL_ABSORBED`) is tried
/// after it.
pub open spec fn suffix_kind_of(name: Seq<char>) -> Option<SuffixKind> {
    let n = suffix_name(name);
    if ends_with(n, "DURABILITY_DAMAGE_ALL"@) {
        Some(SuffixKind::DurabilityDamageAll)
    } else if ends_with(n, "DURABILITY_DAMAGE"@) {
        Some(SuffixKind::DurabilityDamage)
    } else if ends_with(n, "DAMAGE_LANDED"@) {
        Some(SuffixKind::DamageLanded)
    } else if ends_with(n, "DAMAGE"@) {
        Some(SuffixKind::Damage)
    } else if ends_with(n, "MISSED"@) {
        Some(SuffixKind::Missed)
    } else if ends_with(n, "HEAL_ABSORBED"@) {
        Some(SuffixKind::HealAbsorbed)
    } else if ends_with(n, "HEAL"@) {
        Some(SuffixKind::Heal)
    } else if ends_with(n, "ABSORBED"@) {
        Some(SuffixKind::Absorbed)
    } else if ends_with(n, "ENERGIZE"@) {
        Some(SuffixKind::Energize)
    } else if ends_with(n, "DRAIN"@) {
        Some(SuffixKind::Drain)
    } else if ends_with(n, "LEECH"@) {
        Some(SuffixKind::Leech)
    } else if ends_with(n, "EMPOWER_INTERRUPT"@) {
        Some(SuffixKind::EmpowerInterrupt)
    } else if ends_with(n, "INTERRUPT"@) {
        Some(SuffixKind::Interrupt)
    } else if ends_with(n, "DISPEL_FAILED"@) {
        Some(SuffixKind::DispelFailed)
    } else if ends_with(n, "DISPEL"@) {
        Some(SuffixKind::Dispel)
    } else if ends_with(n, "STOLEN"@) {
        Some(SuffixKind::Stolen)
    } else if ends_with(n, "EXTRA_ATTACKS"@) {
        Some(SuffixKind::ExtraAttacks)
    } else if ends_with(n, "AURA_APPLIED_DOSE"@) {
        Some(SuffixKind::AuraAppliedDose)
    } else if ends_with(n, "AURA_REMOVED_DOSE"@) {
        Some(SuffixKind::AuraRemovedDose)
    } else if ends_with(n, "AURA_APPLIED"@) {
        Some(SuffixKind::AuraApplied)
    } else if ends_with(n, "AURA_REMOVED"@) {
        Some(SuffixKind::AuraRemoved)
    } else if ends_with(n, "AURA_REFRESH"@) {
        Some(SuffixKind::AuraRefresh)
    } else if ends_with(n, "AURA_BROKEN_SPELL"@) {
        Some(SuffixKind::AuraBrokenSpell)
    } else if ends_with(n, "AURA_BROKEN"@) {
        Some(SuffixKind::AuraBroken)
    } else if ends_with(n, "CAST_START"@) {
        Some(SuffixKind::CastStart)
    } else if ends_with(n, "CAST_SUCCESS"@) {
        Some(SuffixKind::CastSuccess)
    } else if ends_with(n, "CAST_FAILED"@) {
        Some(SuffixKind::CastFailed)
    } else if ends_with(n, "INSTAKILL"@) {
        Some(SuffixKind::Instakill)
    } else if ends_with(n, "CREATE"@) {
        Some(SuffixKind::Create)
    } else if ends_with(n, "SUMMON"@) {
        Some(SuffixKind::Summon)
    } else if ends_with(n, "RESURRECT"@) {
        Some(SuffixKind::Resurrect)
    } else if ends_with(n, "EMPOWER_START"@) {
        Some(SuffixKind::EmpowerStart)
    } else if ends_with(n, "EMPOWER_END"@) {
        Some(SuffixKind::EmpowerEnd)
    } else {
        None
    }
}

/// The suffix shapes that an advanced-parameters block precedes.
pub open spec fn kind_has_advanced(k: SuffixKind) -> bool {
    match k {
        SuffixKind::Damage | SuffixKind::DamageLanded | SuffixKind::Heal | SuffixKind::CastSuccess
        | SuffixKind::Energize | SuffixKind::Drain | SuffixKind::Leech | SuffixKind::Stolen => true,
        _ => false,
    }
}

// ---------------------------------------------------------------------
// What each shape reads
// ---------------------------------------------------------------------

pub open spec fn u64_at(l: Seq<&str>, i: int) -> Option<u64> {
    u64_of(l[i]@)
}

pub open spec fn i64_at(l: Seq<&str>, i: int) -> Option<i64> {
    i64_of(l[i]@)
}

pub open spec fn bool_at(l: Seq<&str>, i: int) -> Option<bool> {
    bool_of(l[i]@)
}

/// The overkill field: `-1` is none.
pub open spec fn overkill_ok(s: Seq<char>) -> bool {
    s == "-1"@ || u64_of(s) is Some
}

pub open spec fn overkill_value(s: Seq<char>) -> Option<u64> {
    if s == "-1"@ {
        None
    } else {
        u64_of(s)
    }
}

pub open spec fn damage_ok(l: Seq<&str>) -> bool {
    &&& l.len() >= 10
    &&& i64_at(l, 0) is Some
    &&& i64_at(l, 1) is Some
    &&& overkill_ok(l[2]@)
    &&& school_field_ok(l[3]@)
    &&& u64_at(l, 4) is Some
    &&& u64_at(l, 5) is Some
    &&& i64_at(l, 6) is Some
    &&& bool_at(l, 7) is Some
    &&& bool_at(l, 8) is Some
    &&& bool_at(l, 9) is Some
}

pub open spec fn damage_is(l: Seq<&str>, d: DamageInfo) -> bool {
    &&& i64_at(l, 0) == Some(d.amount)
    &&& i64_at(l, 1) == Some(d.base_amount)
    &&& overkill_value(l[2]@) == d.overkill
    &&& school_field_is(l[3]@, d.school)
    &&& u64_at(l, 4) == Some(d.resisted)
    &&& u64_at(l, 5) == Some(d.blocked)
    &&& i64_at(l, 6) == Some(d.absorbed)
    &&& bool_at(l, 7) == Some(d.critical)
    &&& bool_at(l, 8) == Some(d.glancing)
    &&& bool_at(l, 9) == Some(d.crushing)
}

/// Only an absorbed miss carries amounts and a critical flag (fields 2 to 4).
pub open spec fn missed_ok(l: Seq<&str>) -> bool {
    &&& l.len() >= 2
    &&& miss_type_of(l[0]@) is Some
    &&& bool_at(l, 1) is Some
    &&& (miss_type_of(l[0]@) == Some(MissType::Absorb) ==> l.len() >= 5 && u64_at(l, 2) is Some
        && u64_at(l, 3) is Some && bool_at(l, 4) is Some)
}

pub open spec fn spell_at_ok(l: Seq<&str>, i: int) -> bool {
    l.len() >= i + 3 && spell_info_ok(l.subrange(i, i + 3))
}

pub open spec fn spell_at_is(l: Seq<&str>, i: int, s: SpellInfo) -> bool {
    spell_info_is(l.subrange(i, i + 3), s)
}

pub open spec fn actor_at_ok(l: Seq<&str>) -> bool {
    l.len() >= 4 && actor_ok(l.subrange(0, 4))
}

pub open spec fn power_at(l: Seq<&str>, i: int) -> Option<PowerType> {
    power_field_value(l[i]@)
}

/// A power type that must be present: a field that is neither `-1` nor unknown.
pub open spec fn power_present_ok(l: Seq<&str>, i: int) -> bool {
    power_field_ok(l[i]@) && power_at(l, i) is Some
}

/// The fields `l` decode as a suffix of the shape `k`.
pub open spec fn suffix_ok(k: SuffixKind, l: Seq<&str>) -> bool {
    match k {
        SuffixKind::Damage | SuffixKind::DamageLanded => damage_ok(l),
        SuffixKind::Missed => missed_ok(l),
        SuffixKind::Heal => l.len() >= 5 && u64_at(l, 0) is Some && u64_at(l, 1) is Some && u64_at(
            l,
            2,
        ) is Some && u64_at(l, 3) is Some && bool_at(l, 4) is Some,
        SuffixKind::HealAbsorbed => l.len() >= 9 && actor_at_ok(l) && spell_at_ok(l, 4) && u64_at(
            l,
            7,
        ) is Some && u64_at(l, 8) is Some,
        SuffixKind::Absorbed => l.len() >= 10 && actor_at_ok(l) && l[0]@ != null_guid()
            && spell_at_ok(l, 4) && i64_at(l, 7) is Some && u64_at(l, 8) is Some && bool_at(l, 9)
            is Some,
        SuffixKind::Energize => l.len() >= 4 && decimal_of(l[0]@) is Some && decimal_of(l[1]@)
            is Some && power_present_ok(l, 2) && u64_at(l, 3) is Some,
        SuffixKind::Drain => l.len() >= 4 && u64_at(l, 0) is Some && power_present_ok(l, 1)
            && u64_at(l, 2) is Some && u64_at(l, 3) is Some,
        SuffixKind::Leech => l.len() >= 3 && u64_at(l, 0) is Some && power_present_ok(l, 1)
            && u64_at(l, 2) is Some,
        SuffixKind::Interrupt | SuffixKind::DispelFailed => spell_at_ok(l, 0),
        SuffixKind::Dispel | SuffixKind::Stolen | SuffixKind::AuraBrokenSpell => l.len() >= 4
            && spell_at_ok(l, 0) && aura_type_of(l[3]@) is Some,
        SuffixKind::ExtraAttacks | SuffixKind::EmpowerEnd | SuffixKind::EmpowerInterrupt => l.len()
            >= 1 && u64_at(l, 0) is Some,
        SuffixKind::AuraApplied | SuffixKind::AuraRemoved => l.len() >= 1 && aura_type_of(l[0]@)
            is Some && (l.len() >= 2 ==> u64_at(l, 1) is Some),
        SuffixKind::AuraAppliedDose | SuffixKind::AuraRemovedDose => l.len() >= 2 && aura_type_of(
            l[0]@,
        ) is Some && u64_at(l, 1) is Some,
        SuffixKind::AuraRefresh | SuffixKind::AuraBroken => l.len() >= 1 && aura_type_of(l[0]@)
            is Some,
        SuffixKind::CastFailed => l.len() >= 1,
        SuffixKind::Instakill => l.len() >= 1 && bool_at(l, 0) is Some,
        _ => true,
    }
}

/// `v` is the suffix of the shape `k` that the fields `l` hold.
pub open spec fn suffix_is(k: SuffixKind, l: Seq<&str>, v: Suffix) -> bool {
    match k {
        SuffixKind::Damage => v matches Suffix::Damage(d) && damage_is(l, d),
        SuffixKind::DamageLanded => v matches Suffix::DamageLanded(d) && damage_is(l, d),
        SuffixKind::Missed => v matches Suffix::Missed {
            miss_type,
            offhand,
            amount_missed,
            base_amount,
            critical,
        } && miss_type_of(l[0]@) == Some(miss_type) && bool_at(l, 1) == Some(offhand) && (
        if miss_type == MissType::Absorb {
            u64_at(l, 2) == Some(amount_missed) && u64_at(l, 3) == Some(base_amount) && bool_at(
                l,
                4,
            ) == Some(critical)
        } else {
            amount_missed == 0 && base_amount == 0 && !critical
        }),
        SuffixKind::Heal => v matches Suffix::Heal {
            amount,
            base_amount,
            overhealing,
            absorbed,
            critical,
        } && u64_at(l, 0) == Some(amount) && u64_at(l, 1) == Some(base_amount) && u64_at(l, 2)
            == Some(overhealing) && u64_at(l, 3) == Some(absorbed) && bool_at(l, 4) == Some(
            critical,
        ),
        SuffixKind::HealAbsorbed => v matches Suffix::HealAbsorbed {
            actor,
            spell_info,
            absorbed_amount,
            total_amount,
        } && actor_is(l.subrange(0, 4), actor) && spell_at_is(l, 4, spell_info) && u64_at(l, 7)
            == Some(absorbed_amount) && u64_at(l, 8) == Some(total_amount),
        SuffixKind::Absorbed => v matches Suffix::Absorbed {
            absorb_caster,
            absorb_spell_info,
            absorbed_amount,
            base_amount,
            critical,
        } && actor_is(l.subrange(0, 4), Some(absorb_caster)) && spell_at_is(
            l,
            4,
            absorb_spell_info,
        ) && i64_at(l, 7) == Some(absorbed_amount) && u64_at(l, 8) == Some(base_amount) && bool_at(
            l,
            9,
        ) == Some(critical),
        SuffixKind::Energize => v matches Suffix::Energize {
            amount,
            over_energize,
            power_type,
            max_power,
        } && decimal_of(l[0]@) == Some(amount) && decimal_of(l[1]@) == Some(over_energize)
            && power_at(l, 2) == Some(power_type) && u64_at(l, 3) == Some(max_power),
        SuffixKind::Drain => v matches Suffix::Drain {
            amount,
            power_type,
            extra_amount,
            max_power,
        } && u64_at(l, 0) == Some(amount) && power_at(l, 1) == Some(power_type) && u64_at(l, 2)
            == Some(extra_amount) && u64_at(l, 3) == Some(max_power),
        SuffixKind::Leech => v matches Suffix::Leech { amount, power_type, extra_amount } && u64_at(
            l,
            0,
        ) == Some(amount) && power_at(l, 1) == Some(power_type) && u64_at(l, 2) == Some(
            extra_amount,
        ),
        SuffixKind::Interrupt => v matches Suffix::Interrupt { spell_info } && spell_at_is(
            l,
            0,
            spell_info,
        ),
        SuffixKind::DispelFailed => v matches Suffix::DispelFailed { spell_info } && spell_at_is(
            l,
            0,
            spell_info,
        ),
        SuffixKind::Dispel => v matches Suffix::Dispel { spell_info, aura_type } && spell_at_is(
            l,
            0,
            spell_info,
        ) && aura_type_of(l[3]@) == Some(aura_type),
        SuffixKind::Stolen => v matches Suffix::Stolen { spell_info, aura_type } && spell_at_is(
            l,
            0,
            spell_info,
        ) && aura_type_of(l[3]@) == Some(aura_type),
        SuffixKind::AuraBrokenSpell => v matches Suffix::AuraBrokenSpell { spell_info, aura_type }
            && spell_at_is(l, 0, spell_info) && aura_type_of(l[3]@) == Some(aura_type),
        SuffixKind::ExtraAttacks => v matches Suffix::ExtraAttacks { amount } && u64_at(l, 0)
            == Some(amount),
        SuffixKind::EmpowerEnd => v matches Suffix::EmpowerEnd { empowered_rank } && u64_at(l, 0)
            == Some(empowered_rank),
        SuffixKind::EmpowerInterrupt => v matches Suffix::EmpowerInterrupt { empowered_rank }
            && u64_at(l, 0) == Some(empowered_rank),
        SuffixKind::AuraApplied => v matches Suffix::AuraApplied { aura_type, amount }
            && aura_type_of(l[0]@) == Some(aura_type) && amount == (if l.len() >= 2 {
            u64_at(l, 1)
        } else {
            None
        }),
        SuffixKind::AuraRemoved => v matches Suffix::AuraRemoved { aura_type, amount }
            && aura_type_of(l[0]@) == Some(aura_type) && amount == (if l.len() >= 2 {
            u64_at(l, 1)
        } else {
            None
        }),
        SuffixKind::AuraAppliedDose => v matches Suffix::AuraAppliedDose { aura_type, amount }
            && aura_type_of(l[0]@) == Some(aura_type) && u64_at(l, 1) == Some(amount),
        SuffixKind::AuraRemovedDose => v matches Suffix::AuraRemovedDose { aura_type, amount }
            && aura_type_of(l[0]@) == Some(aura_type) && u64_at(l, 1) == Some(amount),
        SuffixKind::AuraRefresh => v matches Suffix::AuraRefresh { aura_type } && aura_type_of(
            l[0]@,
        ) == Some(aura_type),
        SuffixKind::AuraBroken => v matches Suffix::AuraBroken { aura_type } && aura_type_of(
            l[0]@,
        ) == Some(aura_type),
        SuffixKind::CastStart => v is CastStart,
        SuffixKind::CastSuccess => v is CastSuccess,
        SuffixKind::CastFailed => v matches Suffix::CastFailed { failed_type } && failed_type@
            == l[0]@,
        SuffixKind::Instakill => v matches Suffix::Instakill { unconscious_on_death } && bool_at(
            l,
            0,
        ) == Some(unconscious_on_death),
        SuffixKind::DurabilityDamage => v is DurabilityDamage,
        SuffixKind::DurabilityDamageAll => v is DurabilityDamageAll,
        SuffixKind::Create => v is Create,
        SuffixKind::Summon => v is Summon,
        SuffixKind::Resurrect => v is Resurrect,
        SuffixKind::EmpowerStart => v is EmpowerStart,
    }
}

pub open spec fn is_unknown_suffix(e: ParseError, name: Seq<char>) -> bool {
    e matches ParseError::UnknownSuffix { event_type } && event_type@ == name
}

// ---------------------------------------------------------------------
// Decoding
// ---------------------------------------------------------------------

fn suffix_name_of(event_type: &str) -> (r: &str)
    ensures
        r@ == suffix_name(event_type@),
{
    if has_suffix(event_type, "_SUPPORT") {
        proof {
            reveal_strlit("_SUPPORT");
        }
        let n = event_type.unicode_len();
        event_type.substring_char(0, n - 8)
    } else {
        event_type
    }
}

/// The suffix shape of an event name.
pub fn suffix_kind(event_type: &str) -> (r: Option<SuffixKind>)
    ensures
        r == suffix_kind_of(event_type@),
{
    let n = suffix_name_of(event_type);
    if has_suffix(n, "DURABILITY_DAMAGE_ALL") {
        Some(SuffixKind::DurabilityDamageAll)
    } else if has_suffix(n, "DURABILITY_DAMAGE") {
        Some(SuffixKind::DurabilityDamage)
    } else if has_suffix(n, "DAMAGE_LANDED") {
        Some(SuffixKind::DamageLanded)
    } else if has_suffix(n, "DAMAGE") {
        Some(SuffixKind::Damage)
    } else if has_suffix(n, "MISSED") {
        Some(SuffixKind::Missed)
    } else if has_suffix(n, "HEAL_ABSORBED") {
        Some(SuffixKind::HealAbsorbed)
    } else if has_suffix(n, "HEAL") {
        Some(SuffixKind::Heal)
    } else if has_suffix(n, "ABSORBED") {
        Some(SuffixKind::Absorbed)
    } else if has_suffix(n, "ENERGIZE") {
        Some(SuffixKind::Energize)
    } else if has_suffix(n, "DRAIN") {
        Some(SuffixKind::Drain)
    } else if has_suffix(n, "LEECH") {
        Some(SuffixKind::Leech)
    } else if has_suffix(n, "EMPOWER_INTERRUPT") {
        Some(SuffixKind::EmpowerInterrupt)
    } else if has_suffix(n, "INTERRUPT") {
        Some(SuffixKind::Interrupt)
    } else if has_suffix(n, "DISPEL_FAILED") {
        Some(SuffixKind::DispelFailed)
    } else if has_suffix(n, "DISPEL") {
        Some(SuffixKind::Dispel)
    } else if has_suffix(n, "STOLEN") {
        Some(SuffixKind::Stolen)
    } else if has_suffix(n, "EXTRA_ATTACKS") {
        Some(SuffixKind::ExtraAttacks)
    } else if has_suffix(n, "AURA_APPLIED_DOSE") {
        Some(SuffixKind::AuraAppliedDose)
    } else if has_suffix(n, "AURA_REMOVED_DOSE") {
        Some(SuffixKind::AuraRemovedDose)
    } else if has_suffix(n, "AURA_APPLIED") {
        Some(SuffixKind::AuraApplied)
    } else if has_suffix(n, "AURA_REMOVED") {
        Some(SuffixKind::AuraRemoved)
    } else if has_suffix(n, "AURA_REFRESH") {
        Some(SuffixKind::AuraRefresh)
    } else if has_suffix(n, "AURA_BROKEN_SPELL") {
        Some(SuffixKind::AuraBrokenSpell)
    } else if has_suffix(n, "AURA_BROKEN") {
        Some(SuffixKind::AuraBroken)
    } else if has_suffix(n, "CAST_START") {
        Some(SuffixKind::CastStart)
    } else if has_suffix(n, "CAST_SUCCESS") {
        Some(SuffixKind::CastSuccess)
    } else if has_suffix(n, "CAST_FAILED") {
        Some(SuffixKind::CastFailed)
    } else if has_suffix(n, "INSTAKILL") {
        Some(SuffixKind::Instakill)
    } else if has_suffix(n, "CREATE") {
        Some(SuffixKind::Create)
    } else if has_suffix(n, "SUMMON") {
        Some(SuffixKind::Summon)
    } else if has_suffix(n, "RESURRECT") {
        Some(SuffixKind::Resurrect)
    } else if has_suffix(n, "EMPOWER_START") {
        Some(SuffixKind::EmpowerStart)
    } else if has_suffix(n, "EMPOWER_END") {
        Some(SuffixKind::EmpowerEnd)
    } else {
        None
    }
}

fn field_count(l: &[&str], wanted: usize) -> (r: Result<(), ParseError>)
    ensures
        r is Ok <==> l@.len() >= wanted,
{
    if l.len() < wanted {
        Err(ParseError::FieldCount { wanted, found: l.len() })
    } else {
        Ok(())
    }
}

fn overkill(s: &str) -> (r: Result<Option<u64>, ParseError>)
    ensures
        r is Ok <==> overkill_ok(s@),
        r matches Ok(v) ==> v == overkill_value(s@),
{
    if str_eq(s, "-1") {
        Ok(None)
    } else {
        Ok(Some(parse_num(s)?))
    }
}

fn damage_info(l: &[&str]) -> (r: Result<DamageInfo, ParseError>)
    ensures
        r is Ok <==> damage_ok(l@),
        r matches Ok(d) ==> damage_is(l@, d),
{
    field_count(l, 10)?;
    Ok(
        DamageInfo {
            amount: parse_i64(l[0])?,
            base_amount: parse_i64(l[1])?,
            overkill: overkill(l[2])?,
            school: SpellSchool::parse(l[3])?,
            resisted: parse_num(l[4])?,
            blocked: parse_num(l[5])?,
            absorbed: parse_i64(l[6])?,
            critical: parse_bool(l[7])?,
            glancing: parse_bool(l[8])?,
            crushing: parse_bool(l[9])?,
        },
    )
}

fn spell_at(l: &[&str], i: usize) -> (r: Result<SpellInfo, ParseError>)
    requires
        i <= 4,
    ensures
        r is Ok <==> spell_at_ok(l@, i as int),
        r matches Ok(s) ==> spell_at_is(l@, i as int, s),
{
    field_count(l, i + 3)?;
    SpellInfo::parse_record(&l[i..i + 3])
}

fn power_present(s: &str) -> (r: Result<PowerType, ParseError>)
    ensures
        r is Ok <==> (power_field_ok(s@) && power_field_value(s@) is Some),
        r matches Ok(p) ==> power_field_value(s@) == Some(p),
{
    match PowerType::parse(s)? {
        Some(p) => Ok(p),
        None => Err(ParseError::UnknownPowerType { code: -1 }),
    }
}

fn missed(l: &[&str]) -> (r: Result<Suffix, ParseError>)
    ensures
        r is Ok <==> suffix_ok(SuffixKind::Missed, l@),
        r matches Ok(v) ==> suffix_is(SuffixKind::Missed, l@, v),
{
    field_count(l, 2)?;
    let miss_type = MissType::parse(l[0])?;
    let offhand = parse_bool(l[1])?;
    let (amount_missed, base_amount, critical) = match miss_type {
        MissType::Absorb => {
            field_count(l, 5)?;
            (parse_num(l[2])?, parse_num(l[3])?, parse_bool(l[4])?)
        },
        _ => (0, 0, false),
    };
    Ok(Suffix::Missed { miss_type, offhand, amount_missed, base_amount, critical })
}

fn heal_absorbed(l: &[&str]) -> (r: Result<Suffix, ParseError>)
    ensures
        r is Ok <==> suffix_ok(SuffixKind::HealAbsorbed, l@),
        r matches Ok(v) ==> suffix_is(SuffixKind::HealAbsorbed, l@, v),
{
    field_count(l, 9)?;
    Ok(
        Suffix::HealAbsorbed {
            actor: Actor::parse(&l[0..4])?,
            spell_info: spell_at(l, 4)?,
            absorbed_amount: parse_num(l[7])?,
            total_amount: parse_num(l[8])?,
        },
    )
}

fn absorbed(l: &[&str]) -> (r: Result<Suffix, ParseError>)
    ensures
        r is Ok <==> suffix_ok(SuffixKind::Absorbed, l@),
        r matches Ok(v) ==> suffix_is(SuffixKind::Absorbed, l@, v),
{
    field_count(l, 10)?;
    let absorb_caster = match Actor::parse(&l[0..4])? {
        Some(a) => a,
        None => {
            return Err(ParseError::MissingActor);
        },
    };
    Ok(
        Suffix::Absorbed {
            absorb_caster,
            absorb_spell_info: spell_at(l, 4)?,
            absorbed_amount: parse_i64(l[7])?,
            base_amount: parse_num(l[8])?,
            critical: parse_bool(l[9])?,
        },
    )
}

fn power_suffix(k: SuffixKind, l: &[&str]) -> (r: Result<Suffix, ParseError>)
    requires
        k == SuffixKind::Energize || k == SuffixKind::Drain || k == SuffixKind::Leech,
    ensures
        r is Ok <==> suffix_ok(k, l@),
        r matches Ok(v) ==> suffix_is(k, l@, v),
{
    match k {
        SuffixKind::Energize => {
            field_count(l, 4)?;
            Ok(
                Suffix::Energize {
                    amount: Decimal::parse(l[0])?,
                    over_energize: Decimal::parse(l[1])?,
                    power_type: power_present(l[2])?,
                    max_power: parse_num(l[3])?,
                },
            )
        },
        SuffixKind::Drain => {
            field_count(l, 4)?;
            Ok(
                Suffix::Drain {
                    amount: parse_num(l[0])?,
                    power_type: power_present(l[1])?,
                    extra_amount: parse_num(l[2])?,
                    max_power: parse_num(l[3])?,
                },
            )
        },
        _ => {
            field_count(l, 3)?;
            Ok(
                Suffix::Leech {
                    amount: parse_num(l[0])?,
                    power_type: power_present(l[1])?,
                    extra_amount: parse_num(l[2])?,
                },
            )
        },
    }
}

fn spell_suffix(k: SuffixKind, l: &[&str]) -> (r: Result<Suffix, ParseError>)
    requires
        k == SuffixKind::Interrupt || k == SuffixKind::DispelFailed || k == SuffixKind::Dispel
            || k == SuffixKind::Stolen || k == SuffixKind::AuraBrokenSpell,
    ensures
        r is Ok <==> suffix_ok(k, l@),
        r matches Ok(v) ==> suffix_is(k, l@, v),
{
    let spell_info = spell_at(l, 0)?;
    match k {
        SuffixKind::Interrupt => Ok(Suffix::Interrupt { spell_info }),
        SuffixKind::DispelFailed => Ok(Suffix::DispelFailed { spell_info }),
        _ => {
            field_count(l, 4)?;
            let aura_type = AuraType::parse(l[3])?;
            match k {
                SuffixKind::Dispel => Ok(Suffix::Dispel { spell_info, aura_type }),
                SuffixKind::Stolen => Ok(Suffix::Stolen { spell_info, aura_type }),
                _ => Ok(Suffix::AuraBrokenSpell { spell_info, aura_type }),
            }
        },
    }
}

fn aura_suffix(k: SuffixKind, l: &[&str]) -> (r: Result<Suffix, ParseError>)
    requires
        k == SuffixKind::AuraApplied || k == SuffixKind::AuraRemoved || k
            == SuffixKind::AuraAppliedDose || k == SuffixKind::AuraRemovedDose || k
            == SuffixKind::AuraRefresh || k == SuffixKind::AuraBroken,
    ensures
        r is Ok <==> suffix_ok(k, l@),
        r matches Ok(v) ==> suffix_is(k, l@, v),
{
    field_count(l, 1)?;
    let aura_type = AuraType::parse(l[0])?;
    match k {
        SuffixKind::AuraApplied | SuffixKind::AuraRemoved => {
            let amount = if l.len() < 2 {
                None
            } else {
                Some(parse_num(l[1])?)
            };
            if k == SuffixKind::AuraApplied {
                Ok(Suffix::AuraApplied { aura_type, amount })
            } else {
                Ok(Suffix::AuraRemoved { aura_type, amount })
            }
        },
        SuffixKind::AuraAppliedDose | SuffixKind::AuraRemovedDose => {
            field_count(l, 2)?;
            let amount = parse_num(l[1])?;
            if k == SuffixKind::AuraAppliedDose {
                Ok(Suffix::AuraAppliedDose { aura_type, amount })
            } else {
                Ok(Suffix::AuraRemovedDose { aura_type, amount })
            }
        },
        SuffixKind::AuraRefresh => Ok(Suffix::AuraRefresh { aura_type }),
        _ => Ok(Suffix::AuraBroken { aura_type }),
    }
}

fn single_number_suffix(k: SuffixKind, l: &[&str]) -> (r: Result<Suffix, ParseError>)
    requires
        k == SuffixKind::ExtraAttacks || k == SuffixKind::EmpowerEnd || k
            == SuffixKind::EmpowerInterrupt,
    ensures
        r is Ok <==> suffix_ok(k, l@),
        r matches Ok(v) ==> suffix_is(k, l@, v),
{
    field_count(l, 1)?;
    let n = parse_num(l[0])?;
    match k {
        SuffixKind::ExtraAttacks => Ok(Suffix::ExtraAttacks { amount: n }),
        SuffixKind::EmpowerEnd => Ok(Suffix::EmpowerEnd { empowered_rank: n }),
        _ => Ok(Suffix::EmpowerInterrupt { empowered_rank: n }),
    }
}

/// Decodes the suffix fields `line` of the shape `k`.
pub fn parse_suffix_of_kind(k: SuffixKind, line: &[&str]) -> (r: Result<Suffix, ParseError>)
    ensures
        r is Ok <==> suffix_ok(k, line@),
        r matches Ok(v) ==> suffix_is(k, line@, v),
{
    let l = line;
    match k {
        SuffixKind::Damage => Ok(Suffix::Damage(damage_info(l)?)),
        SuffixKind::DamageLanded => Ok(Suffix::DamageLanded(damage_info(l)?)),
        SuffixKind::Missed => missed(l),
        SuffixKind::Heal => {
            field_count(l, 5)?;
            Ok(
                Suffix::Heal {
                    amount: parse_num(l[0])?,
                    base_amount: parse_num(l[1])?,
                    overhealing: parse_num(l[2])?,
                    absorbed: parse_num(l[3])?,
                    critical: parse_bool(l[4])?,
                },
            )
        },
        SuffixKind::HealAbsorbed => heal_absorbed(l),
        SuffixKind::Absorbed => absorbed(l),
        SuffixKind::Energize | SuffixKind::Drain | SuffixKind::Leech => power_suffix(k, l),
        SuffixKind::Interrupt | SuffixKind::DispelFailed | SuffixKind::Dispel | SuffixKind::Stolen
        | SuffixKind::AuraBrokenSpell => spell_suffix(k, l),
        SuffixKind::AuraApplied | SuffixKind::AuraRemoved | SuffixKind::AuraAppliedDose
        | SuffixKind::AuraRemovedDose | SuffixKind::AuraRefresh | SuffixKind::AuraBroken =>
            aura_suffix(k, l),
        SuffixKind::ExtraAttacks | SuffixKind::EmpowerEnd | SuffixKind::EmpowerInterrupt =>
            single_number_suffix(k, l),
        SuffixKind::CastStart => Ok(Suffix::CastStart),
        SuffixKind::CastSuccess => Ok(Suffix::CastSuccess),
        SuffixKind::CastFailed => {
            field_count(l, 1)?;
            Ok(Suffix::CastFailed { failed_type: l[0].to_owned() })
        },
        SuffixKind::Instakill => {
            field_count(l, 1)?;
            Ok(Suffix::Instakill { unconscious_on_death: parse_bool(l[0])? })
        },
        SuffixKind::DurabilityDamage => Ok(Suffix::DurabilityDamage),
        SuffixKind::DurabilityDamageAll => Ok(Suffix::DurabilityDamageAll),
        SuffixKind::Create => Ok(Suffix::Create),
        SuffixKind::Summon => Ok(Suffix::Summon),
        SuffixKind::Resurrect => Ok(Suffix::Resurrect),
        SuffixKind::EmpowerStart => Ok(Suffix::EmpowerStart),
    }
}

impl Suffix {
    /// Decodes the suffix fields of an event, by the shape its name selects.
    pub fn parse(event_type: &str, line: &[&str]) -> (r: Result<Suffix, ParseError>)
        ensures
            suffix_kind_of(event_type@) matches Some(k) ==> (r is Ok <==> suffix_ok(k, line@)),
            suffix_kind_of(event_type@) is Some && r is Ok ==> suffix_is(
                suffix_kind_of(event_type@).unwrap(),
                line@,
                r->Ok_0,
            ),
            suffix_kind_of(event_type@) is None ==> (r matches Err(e) && is_unknown_suffix(
                e,
                event_type@,
            )),
    {
        match suffix_kind(event_type) {
            Some(k) => parse_suffix_of_kind(k, line),
            None => Err(ParseError::UnknownSuffix { event_type: event_type.to_owned() }),
        }
    }

    /// Whether an advanced-parameters block precedes the suffix of an event.
    pub fn has_advanced_params(event_type: &str) -> (r: Result<bool, ParseError>)
        ensures
            suffix_kind_of(event_type@) matches Some(k) ==> r == Ok::<bool, ParseError>(
                kind_has_advanced(k),
            ),
            suffix_kind_of(event_type@) is None ==> (r matches Err(e) && is_unknown_suffix(
                e,
                event_type@,
            )),
    {
        match suffix_kind(event_type) {
            Some(k) => Ok(
                match k {
                    SuffixKind::Damage | SuffixKind::DamageLanded | SuffixKind::Heal
                    | SuffixKind::CastSuccess | SuffixKind::Energize | SuffixKind::Drain
                    | SuffixKind::Leech | SuffixKind::Stolen => true,
                    _ => false,
                },
            ),
            None => Err(ParseError::UnknownSuffix { event_type: event_type.to_owned() }),
        }
    }
}

} // verus!
