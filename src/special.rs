use vstd::prelude::*;

use crate::combatant::{combatant_is, combatant_ok, CombatantInfo};
use crate::common::{actor_is, actor_ok, Actor};
use crate::decimal::{decimal_of, Decimal};
use crate::error::ParseError;
use crate::guid::{guid_is, guid_ok, GUID};
use crate::primitives::{bool_of, parse_bool, parse_num};
use crate::text::{str_eq, u64_of, views};

verus! {

/// An event whose record has a shape of its own.
#[derive(Debug, Clone)]
pub enum Special {
    EnchantApplied {
        source: Option<Actor>,
        target: Option<Actor>,
        spell_name: String,
        item_id: u64,
        item_name: String,
    },
    EnchantRemoved {
        source: Option<Actor>,
        target: Option<Actor>,
        spell_name: String,
        item_id: u64,
        item_name: String,
    },
    PartyKill { source: Option<Actor>, target: Option<Actor>, unconscious_on_death: bool },
    UnitDied { source: Option<Actor>, target: Option<Actor>, unconscious_on_death: bool },
    UnitDestroyed { source: Option<Actor>, target: Option<Actor>, unconscious_on_death: bool },
    UnitDissipates { source: Option<Actor>, target: Option<Actor>, unconscious_on_death: bool },
    CombatLogInfo {
        log_version: u64,
        advanced_log_enabled: bool,
        build_version: String,
        project_id: u64,
    },
    ZoneChange { instance_id: u64, zone_name: String, id: u64 },
    MapChange {
        ui_map_id: u64,
        ui_map_name: String,
        x0: Decimal,
        x1: Decimal,
        y0: Decimal,
        y1: Decimal,
    },
    EncounterStart {
        encounter_id: u64,
        encounter_name: String,
        difficulty_id: u64,
        group_size: u64,
        instance_id: u64,
    },
    EncounterEnd {
        encounter_id: u64,
        encounter_name: String,
        difficulty_id: u64,
        group_size: u64,
        success: bool,
        fight_time: u64,
    },
    WorldMarkerPlaced { instance_id: u64, marker: u64, x: Decimal, y: Decimal },
    WorldMarkerRemoved { marker: u64 },
    EmoteStandard { actor: Option<Actor>, text: String },
    EmoteEnvironmental {
        source_guid: Option<GUID>,
        source_name: String,
        target_guid: Option<GUID>,
        target_name: String,
        text: String,
    },
    CombatantInfo(CombatantInfo),
    ChallengeModeStart {
        zone_name: String,
        instance_id: u64,
        challenge_mode_id: u64,
        keystone_level: u64,
        affix_ids: Vec<u64>,
    },
    ChallengeModeEnd { instance_id: u64, success: bool, keystone_level: u64, total_time: u64 },
    /// The event name has no special shape: the event is a standard one.
    NoneSentinel,
}

/// The special shapes, one per event name.
#[derive(Debug, Clone, Copy, PartialEq, Eq, Structural)]
pub enum SpecialKind {
    EnchantApplied,
    EnchantRemoved,
    PartyKill,
    UnitDied,
    UnitDestroyed,
    UnitDissipates,
    CombatLogVersion,
    ZoneChange,
    MapChange,
    EncounterStart,
    EncounterEnd,
    WorldMarkerPlaced,
    WorldMarkerRemoved,
    Emote,
    CombatantInfo,
    ChallengeModeStart,
    ChallengeModeEnd,
}

pub open spec fn special_kind_of(name: Seq<char>) -> Option<SpecialKind> {
    if name == "ENCHANT_APPLIED"@ {
        Some(SpecialKind::EnchantApplied)
    } else if name == "ENCHANT_REMOVED"@ {
        Some(SpecialKind::EnchantRemoved)
    } else if name == "PARTY_KILL"@ {
        Some(SpecialKind::PartyKill)
    } else if name == "UNIT_DIED"@ {
        Some(SpecialKind::UnitDied)
    } else if name == "UNIT_DESTROYED"@ {
        Some(SpecialKind::UnitDestroyed)
    } else if name == "UNIT_DISSIPATES"@ {
        Some(SpecialKind::UnitDissipates)
    } else if name == "COMBAT_LOG_VERSION"@ {
        Some(SpecialKind::CombatLogVersion)
    } else if name == "ZONE_CHANGE"@ {
        Some(SpecialKind::ZoneChange)
    } else if name == "MAP_CHANGE"@ {
        Some(SpecialKind::MapChange)
    } else if name == "ENCOUNTER_START"@ {
        Some(SpecialKind::EncounterStart)
    } else if name == "ENCOUNTER_END"@ {
        Some(SpecialKind::EncounterEnd)
    } else if name == "WORLD_MARKER_PLACED"@ {
        Some(SpecialKind::WorldMarkerPlaced)
    } else if name == "WORLD_MARKER_REMOVED"@ {
        Some(SpecialKind::WorldMarkerRemoved)
    } else if name == "EMOTE"@ {
        Some(SpecialKind::Emote)
    } else if name == "COMBATANT_INFO"@ {
        Some(SpecialKind::CombatantInfo)
    } else if name == "CHALLENGE_MODE_START"@ {
        Some(SpecialKind::ChallengeModeStart)
    } else if name == "CHALLENGE_MODE_END"@ {
        Some(SpecialKind::ChallengeModeEnd)
    } else {
        None
    }
}

pub open spec fn u64_at(l: Seq<&str>, i: int) -> Option<u64> {
    u64_of(l[i]@)
}

pub open spec fn bool_at(l: Seq<&str>, i: int) -> Option<bool> {
    bool_of(l[i]@)
}

pub open spec fn dec_at(l: Seq<&str>, i: int) -> Option<Decimal> {
    decimal_of(l[i]@)
}

/// The two actor blocks at the start of a record decode.
pub open spec fn two_actors_ok(l: Seq<&str>) -> bool {
    l.len() >= 8 && actor_ok(l.subrange(0, 4)) && actor_ok(l.subrange(4, 8))
}

pub open spec fn two_actors_are(l: Seq<&str>, s: Option<Actor>, t: Option<Actor>) -> bool {
    actor_is(l.subrange(0, 4), s) && actor_is(l.subrange(4, 8), t)
}

/// `s` without a leading `[` and without a trailing `]`.
pub open spec fn strip_brackets(s: Seq<char>) -> Seq<char> {
    let a = if s.len() > 0 && s[0] == '[' {
        s.drop_first()
    } else {
        s
    };
    if a.len() > 0 && a.last() == ']' {
        a.drop_last()
    } else {
        a
    }
}

/// The affix list of a challenge-mode start: the fields from index 4 on,
/// the first without its `[` and the last without its `]`.
pub open spec fn affix_piece(l: Seq<&str>, j: int) -> Seq<char> {
    let k = l.len() - 4;
    let f = l[4 + j]@;
    if k == 1 {
        strip_brackets(f)
    } else if j == 0 {
        if f.len() > 0 && f[0] == '[' {
            f.drop_first()
        } else {
            f
        }
    } else if j == k - 1 {
        if f.len() > 0 && f.last() == ']' {
            f.drop_last()
        } else {
            f
        }
    } else {
        f
    }
}

/// An emote whose third field is a GUID names two identities.
pub open spec fn emote_is_environmental(l: Seq<&str>) -> bool {
    guid_ok(l[2]@)
}

/// The fields `l` decode as the special record `k`.
pub open spec fn special_ok(k: SpecialKind, l: Seq<&str>) -> bool {
    match k {
        SpecialKind::EnchantApplied | SpecialKind::EnchantRemoved => l.len() >= 11
            && two_actors_ok(l) && u64_at(l, 9) is Some,
        SpecialKind::PartyKill | SpecialKind::UnitDied | SpecialKind::UnitDestroyed
        | SpecialKind::UnitDissipates => l.len() >= 9 && two_actors_ok(l) && bool_at(l, 8) is Some,
        SpecialKind::CombatLogVersion => l.len() >= 7 && u64_at(l, 0) is Some && bool_at(l, 2)
            is Some && u64_at(l, 6) is Some,
        SpecialKind::ZoneChange => l.len() >= 3 && u64_at(l, 0) is Some && u64_at(l, 2) is Some,
        SpecialKind::MapChange => l.len() >= 6 && u64_at(l, 0) is Some && dec_at(l, 2) is Some
            && dec_at(l, 3) is Some && dec_at(l, 4) is Some && dec_at(l, 5) is Some,
        SpecialKind::EncounterStart => l.len() >= 5 && u64_at(l, 0) is Some && u64_at(l, 2) is Some
            && u64_at(l, 3) is Some && u64_at(l, 4) is Some,
        SpecialKind::EncounterEnd => l.len() >= 6 && u64_at(l, 0) is Some && u64_at(l, 2) is Some
            && u64_at(l, 3) is Some && bool_at(l, 4) is Some && u64_at(l, 5) is Some,
        SpecialKind::WorldMarkerPlaced => l.len() >= 4 && u64_at(l, 0) is Some && u64_at(l, 1)
            is Some && dec_at(l, 2) is Some && dec_at(l, 3) is Some,
        SpecialKind::WorldMarkerRemoved => l.len() >= 1 && u64_at(l, 0) is Some,
        SpecialKind::Emote => l.len() >= 5 && (if emote_is_environmental(l) {
            guid_ok(l[0]@)
        } else {
            actor_ok(l.subrange(0, 4))
        }),
        SpecialKind::CombatantInfo => combatant_ok(views(l)),
        SpecialKind::ChallengeModeStart => l.len() >= 5 && u64_at(l, 1) is Some && u64_at(l, 2)
            is Some && u64_at(l, 3) is Some && forall|j: int|
            0 <= j < l.len() - 4 ==> #[trigger] u64_of(affix_piece(l, j)) is Some,
        SpecialKind::ChallengeModeEnd => l.len() >= 4 && u64_at(l, 0) is Some && bool_at(l, 1)
            is Some && u64_at(l, 2) is Some && u64_at(l, 3) is Some,
    }
}

/// `v` is the special record `k` that the fields `l` hold.
pub open spec fn special_is(k: SpecialKind, l: Seq<&str>, v: Special) -> bool {
    match k {
        SpecialKind::EnchantApplied => v matches Special::EnchantApplied {
            source,
            target,
            spell_name,
            item_id,
            item_name,
        } && two_actors_are(l, source, target) && spell_name@ == l[8]@ && u64_at(l, 9) == Some(
            item_id,
        ) && item_name@ == l[10]@,
        SpecialKind::EnchantRemoved => v matches Special::EnchantRemoved {
            source,
            target,
            spell_name,
            item_id,
            item_name,
        } && two_actors_are(l, source, target) && spell_name@ == l[8]@ && u64_at(l, 9) == Some(
            item_id,
        ) && item_name@ == l[10]@,
        SpecialKind::PartyKill => v matches Special::PartyKill {
            source,
            target,
            unconscious_on_death,
        } && two_actors_are(l, source, target) && bool_at(l, 8) == Some(unconscious_on_death),
        SpecialKind::UnitDied => v matches Special::UnitDied {
            source,
            target,
            unconscious_on_death,
        } && two_actors_are(l, source, target) && bool_at(l, 8) == Some(unconscious_on_death),
        SpecialKind::UnitDestroyed => v matches Special::UnitDestroyed {
            source,
            target,
            unconscious_on_death,
        } && two_actors_are(l, source, target) && bool_at(l, 8) == Some(unconscious_on_death),
        SpecialKind::UnitDissipates => v matches Special::UnitDissipates {
            source,
            target,
            unconscious_on_death,
        } && two_actors_are(l, source, target) && bool_at(l, 8) == Some(unconscious_on_death),
        SpecialKind::CombatLogVersion => v matches Special::CombatLogInfo {
            log_version,
            advanced_log_enabled,
            build_version,
            project_id,
        } && u64_at(l, 0) == Some(log_version) && bool_at(l, 2) == Some(advanced_log_enabled)
            && build_version@ == l[4]@ && u64_at(l, 6) == Some(project_id),
        SpecialKind::ZoneChange => v matches Special::ZoneChange { instance_id, zone_name, id }
            && u64_at(l, 0) == Some(instance_id) && zone_name@ == l[1]@ && u64_at(l, 2) == Some(id),
        SpecialKind::MapChange => v matches Special::MapChange {
            ui_map_id,
            ui_map_name,
            x0,
            x1,
            y0,
            y1,
        } && u64_at(l, 0) == Some(ui_map_id) && ui_map_name@ == l[1]@ && dec_at(l, 2) == Some(x0)
            && dec_at(l, 3) == Some(x1) && dec_at(l, 4) == Some(y0) && dec_at(l, 5) == Some(y1),
        SpecialKind::EncounterStart => v matches Special::EncounterStart {
            encounter_id,
            encounter_name,
            difficulty_id,
            group_size,
            instance_id,
        } && u64_at(l, 0) == Some(encounter_id) && encounter_name@ == l[1]@ && u64_at(l, 2)
            == Some(difficulty_id) && u64_at(l, 3) == Some(group_size) && u64_at(l, 4) == Some(
            instance_id,
        ),
        SpecialKind::EncounterEnd => v matches Special::EncounterEnd {
            encounter_id,
            encounter_name,
            difficulty_id,
            group_size,
            success,
            fight_time,
        } && u64_at(l, 0) == Some(encounter_id) && encounter_name@ == l[1]@ && u64_at(l, 2)
            == Some(difficulty_id) && u64_at(l, 3) == Some(group_size) && bool_at(l, 4) == Some(
            success,
        ) && u64_at(l, 5) == Some(fight_time),
        SpecialKind::WorldMarkerPlaced => v matches Special::WorldMarkerPlaced {
            instance_id,
            marker,
            x,
            y,
        } && u64_at(l, 0) == Some(instance_id) && u64_at(l, 1) == Some(marker) && dec_at(l, 2)
            == Some(x) && dec_at(l, 3) == Some(y),
        SpecialKind::WorldMarkerRemoved => v matches Special::WorldMarkerRemoved { marker }
            && u64_at(l, 0) == Some(marker),
        SpecialKind::Emote => if emote_is_environmental(l) {
            v matches Special::EmoteEnvironmental {
                source_guid,
                source_name,
                target_guid,
                target_name,
                text,
            } && guid_is(l[0]@, source_guid) && source_name@ == l[1]@ && guid_is(
                l[2]@,
                target_guid,
            ) && target_name@ == l[3]@ && text@ == l[4]@
        } else {
            v matches Special::EmoteStandard { actor, text } && actor_is(l.subrange(0, 4), actor)
                && text@ == l[4]@
        },
        SpecialKind::CombatantInfo => v matches Special::CombatantInfo(c) && combatant_is(
            views(l),
            c,
        ),
        SpecialKind::ChallengeModeStart => v matches Special::ChallengeModeStart {
            zone_name,
            instance_id,
            challenge_mode_id,
            keystone_level,
            affix_ids,
        } && zone_name@ == l[0]@ && u64_at(l, 1) == Some(instance_id) && u64_at(l, 2) == Some(
            challenge_mode_id,
        ) && u64_at(l, 3) == Some(keystone_level) && affix_ids@.len() == l.len() - 4 && forall|
            j: int,
        |
            0 <= j < affix_ids@.len() ==> u64_of(affix_piece(l, j)) == Some(
                #[trigger] affix_ids@[j],
            ),
        SpecialKind::ChallengeModeEnd => v matches Special::ChallengeModeEnd {
            instance_id,
            success,
            keystone_level,
            total_time,
        } && u64_at(l, 0) == Some(instance_id) && bool_at(l, 1) == Some(success) && u64_at(l, 2)
            == Some(keystone_level) && u64_at(l, 3) == Some(total_time),
    }
}

// ---------------------------------------------------------------------
// Decoding
// ---------------------------------------------------------------------

/// The special shape of an event name, if it has one.
pub fn special_kind(name: &str) -> (r: Option<SpecialKind>)
    ensures
        r == special_kind_of(name@),
{
    if str_eq(name, "ENCHANT_APPLIED") {
        Some(SpecialKind::EnchantApplied)
    } else if str_eq(name, "ENCHANT_REMOVED") {
        Some(SpecialKind::EnchantRemoved)
    } else if str_eq(name, "PARTY_KILL") {
        Some(SpecialKind::PartyKill)
    } else if str_eq(name, "UNIT_DIED") {
        Some(SpecialKind::UnitDied)
    } else if str_eq(name, "UNIT_DESTROYED") {
        Some(SpecialKind::UnitDestroyed)
    } else if str_eq(name, "UNIT_DISSIPATES") {
        Some(SpecialKind::UnitDissipates)
    } else if str_eq(name, "COMBAT_LOG_VERSION") {
        Some(SpecialKind::CombatLogVersion)
    } else if str_eq(name, "ZONE_CHANGE") {
        Some(SpecialKind::ZoneChange)
    } else if str_eq(name, "MAP_CHANGE") {
        Some(SpecialKind::MapChange)
    } else if str_eq(name, "ENCOUNTER_START") {
        Some(SpecialKind::EncounterStart)
    } else if str_eq(name, "ENCOUNTER_END") {
        Some(SpecialKind::EncounterEnd)
    } else if str_eq(name, "WORLD_MARKER_PLACED") {
        Some(SpecialKind::WorldMarkerPlaced)
    } else if str_eq(name, "WORLD_MARKER_REMOVED") {
        Some(SpecialKind::WorldMarkerRemoved)
    } else if str_eq(name, "EMOTE") {
        Some(SpecialKind::Emote)
    } else if str_eq(name, "COMBATANT_INFO") {
        Some(SpecialKind::CombatantInfo)
    } else if str_eq(name, "CHALLENGE_MODE_START") {
        Some(SpecialKind::ChallengeModeStart)
    } else if str_eq(name, "CHALLENGE_MODE_END") {
        Some(SpecialKind::ChallengeModeEnd)
    } else {
        None
    }
}

fn field_count(l: &[&str], wanted: usize) -> (r: Result<(), ParseError>)
    ensures
        r is Ok <==> l@.len() >= wanted,
{
    if l.len() < wanted {
        Err(ParseError::FieldCount { wanted, found: l.len() })
    } else {
        Ok(())
    }
}

fn two_actors(l: &[&str]) -> (r: Result<(Option<Actor>, Option<Actor>), ParseError>)
    ensures
        r is Ok <==> two_actors_ok(l@),
        r matches Ok(p) ==> two_actors_are(l@, p.0, p.1),
{
    field_count(l, 8)?;
    let source = Actor::parse(&l[0..4])?;
    let target = Actor::parse(&l[4..8])?;
    Ok((source, target))
}

fn without_open_bracket(s: &str) -> (r: &str)
    ensures
        r@ == (if s@.len() > 0 && s@[0] == '[' {
            s@.drop_first()
        } else {
            s@
        }),
{
    let n = s.unicode_len();
    if n > 0 && s.get_char(0) == '[' {
        s.substring_char(1, n)
    } else {
        s
    }
}

fn without_close_bracket(s: &str) -> (r: &str)
    ensures
        r@ == (if s@.len() > 0 && s@.last() == ']' {
            s@.drop_last()
        } else {
            s@
        }),
{
    let n = s.unicode_len();
    if n > 0 && s.get_char(n - 1) == ']' {
        s.substring_char(0, n - 1)
    } else {
        s
    }
}

fn affix_ids(l: &[&str]) -> (r: Result<Vec<u64>, ParseError>)
    requires
        l@.len() >= 5,
    ensures
        r is Ok <==> forall|j: int|
            0 <= j < l@.len() - 4 ==> #[trigger] u64_of(affix_piece(l@, j)) is Some,
        r matches Ok(v) ==> v@.len() == l@.len() - 4 && forall|j: int|
            0 <= j < v@.len() ==> u64_of(affix_piece(l@, j)) == Some(#[trigger] v@[j]),
{
    let n = l.len();
    let k = n - 4;
    let mut out: Vec<u64> = Vec::new();
    let mut j: usize = 0;
    while j < k
        invariant
            k == l@.len() - 4,
            l@.len() == k + 4,
            n == l@.len(),
            k >= 1,
            0 <= j <= k,
            out@.len() == j,
            forall|i: int| 0 <= i < j ==> u64_of(affix_piece(l@, i)) == Some(#[trigger] out@[i]),
        decreases k - j,
    {
        let f = l[4 + j];
        let piece = if k == 1 {
            without_close_bracket(without_open_bracket(f))
        } else if j == 0 {
            without_open_bracket(f)
        } else if j == k - 1 {
            without_close_bracket(f)
        } else {
            f
        };
        assert(piece@ == affix_piece(l@, j as int));
        match parse_num(piece) {
            Ok(v) => {
                out.push(v);
            },
            Err(e) => {
                assert(u64_of(affix_piece(l@, j as int)) is None);
                return Err(e);
            },
        }
        j = j + 1;
    }
    assert forall|i: int| 0 <= i < l@.len() - 4 implies #[trigger] u64_of(affix_piece(l@, i))
        is Some by {
        assert(u64_of(affix_piece(l@, i)) == Some(out@[i]));
    }
    Ok(out)
}

/// Decodes the fields `l` of the special record `k`.
pub fn parse_special_of_kind(k: SpecialKind, l: &[&str]) -> (r: Result<Special, ParseError>)
    ensures
        r is Ok <==> special_ok(k, l@),
        r matches Ok(v) ==> special_is(k, l@, v),
{
    match k {
        SpecialKind::EnchantApplied | SpecialKind::EnchantRemoved => {
            field_count(l, 11)?;
            let (source, target) = two_actors(l)?;
            let item_id = parse_num(l[9])?;
            let spell_name = l[8].to_owned();
            let item_name = l[10].to_owned();
            if k == SpecialKind::EnchantApplied {
                Ok(Special::EnchantApplied { source, target, spell_name, item_id, item_name })
            } else {
                Ok(Special::EnchantRemoved { source, target, spell_name, item_id, item_name })
            }
        },
        SpecialKind::PartyKill | SpecialKind::UnitDied | SpecialKind::UnitDestroyed
        | SpecialKind::UnitDissipates => {
            field_count(l, 9)?;
            let (source, target) = two_actors(l)?;
            let unconscious_on_death = parse_bool(l[8])?;
            match k {
                SpecialKind::PartyKill => Ok(
                    Special::PartyKill { source, target, unconscious_on_death },
                ),
                SpecialKind::UnitDied => Ok(
                    Special::UnitDied { source, target, unconscious_on_death },
                ),
                SpecialKind::UnitDestroyed => Ok(
                    Special::UnitDestroyed { source, target, unconscious_on_death },
                ),
                _ => Ok(Special::UnitDissipates { source, target, unconscious_on_death }),
            }
        },
        SpecialKind::CombatLogVersion => {
            field_count(l, 7)?;
            Ok(
                Special::CombatLogInfo {
                    log_version: parse_num(l[0])?,
                    advanced_log_enabled: parse_bool(l[2])?,
                    build_version: l[4].to_owned(),
                    project_id: parse_num(l[6])?,
                },
            )
        },
        SpecialKind::ZoneChange => {
            field_count(l, 3)?;
            Ok(
                Special::ZoneChange {
                    instance_id: parse_num(l[0])?,
                    zone_name: l[1].to_owned(),
                    id: parse_num(l[2])?,
                },
            )
        },
        SpecialKind::MapChange => {
            field_count(l, 6)?;
            Ok(
                Special::MapChange {
                    ui_map_id: parse_num(l[0])?,
                    ui_map_name: l[1].to_owned(),
                    x0: Decimal::parse(l[2])?,
                    x1: Decimal::parse(l[3])?,
                    y0: Decimal::parse(l[4])?,
                    y1: Decimal::parse(l[5])?,
                },
            )
        },
        SpecialKind::EncounterStart => {
            field_count(l, 5)?;
            Ok(
                Special::EncounterStart {
                    encounter_id: parse_num(l[0])?,
                    encounter_name: l[1].to_owned(),
                    difficulty_id: parse_num(l[2])?,
                    group_size: parse_num(l[3])?,
                    instance_id: parse_num(l[4])?,
                },
            )
        },
        SpecialKind::EncounterEnd => {
            field_count(l, 6)?;
            Ok(
                Special::EncounterEnd {
                    encounter_id: parse_num(l[0])?,
                    encounter_name: l[1].to_owned(),
                    difficulty_id: parse_num(l[2])?,
                    group_size: parse_num(l[3])?,
                    success: parse_bool(l[4])?,
                    fight_time: parse_num(l[5])?,
                },
            )
        },
        SpecialKind::WorldMarkerPlaced => {
            field_count(l, 4)?;
            Ok(
                Special::WorldMarkerPlaced {
                    instance_id: parse_num(l[0])?,
                    marker: parse_num(l[1])?,
                    x: Decimal::parse(l[2])?,
                    y: Decimal::parse(l[3])?,
                },
            )
        },
        SpecialKind::WorldMarkerRemoved => {
            field_count(l, 1)?;
            Ok(Special::WorldMarkerRemoved { marker: parse_num(l[0])? })
        },
        SpecialKind::Emote => {
            field_count(l, 5)?;
            match GUID::parse(l[2]) {
                Ok(target_guid) => Ok(
                    Special::EmoteEnvironmental {
                        source_guid: GUID::parse(l[0])?,
                        source_name: l[1].to_owned(),
                        target_guid,
                        target_name: l[3].to_owned(),
                        text: l[4].to_owned(),
                    },
                ),
                Err(_) => Ok(
                    Special::EmoteStandard {
                        actor: Actor::parse(&l[0..4])?,
                        text: l[4].to_owned(),
                    },
                ),
            }
        },
        SpecialKind::CombatantInfo => Ok(Special::CombatantInfo(CombatantInfo::parse(l)?)),
        SpecialKind::ChallengeModeStart => {
            field_count(l, 5)?;
            Ok(
                Special::ChallengeModeStart {
                    zone_name: l[0].to_owned(),
                    instance_id: parse_num(l[1])?,
                    challenge_mode_id: parse_num(l[2])?,
                    keystone_level: parse_num(l[3])?,
                    affix_ids: affix_ids(l)?,
                },
            )
        },
        SpecialKind::ChallengeModeEnd => {
            field_count(l, 4)?;
            Ok(
                Special::ChallengeModeEnd {
                    instance_id: parse_num(l[0])?,
                    success: parse_bool(l[1])?,
                    keystone_level: parse_num(l[2])?,
                    total_time: parse_num(l[3])?,
                },
            )
        },
    }
}

impl Special {
    /// Decodes a special record. A name without a special shape gives
    /// `NoneSentinel`, which is no error: the event is a standard one.
    pub fn parse(event_type: &str, line: &[&str]) -> (r: Result<Special, ParseError>)
        ensures
            special_kind_of(event_type@) is None ==> r matches Ok(Special::NoneSentinel),
            special_kind_of(event_type@) matches Some(k) ==> (r is Ok <==> special_ok(k, line@)),
            special_kind_of(event_type@) is Some && r is Ok ==> special_is(
                special_kind_of(event_type@).unwrap(),
                line@,
                r->Ok_0,
            ),
    {
        match special_kind(event_type) {
            Some(k) => parse_special_of_kind(k, line),
            None => Ok(Special::NoneSentinel),
        }
    }
}

} // verus!
