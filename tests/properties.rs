use wowlogs::combatant::CombatantInfo;
use wowlogs::decimal::Decimal;
use wowlogs::enums::{AuraType, EnvironmentalType, MissType, PowerType, SpellSchool};
use wowlogs::error::{EnumKind, NumberKind, ParseError};
use wowlogs::events::{Event, EventType};
use wowlogs::guid::{CreatureType, GUID};
use wowlogs::prefixes::Prefix;
use wowlogs::primitives::{parse_bool, parse_hex, parse_i64, parse_num};
use wowlogs::special::Special;
use wowlogs::suffixes::Suffix;
use wowlogs::timestamp::Timestamp;

const SOURCE: [&str; 4] = ["Player-1393-077C088C", "Mubaku-BronzeDragonflight", "0x514", "0x0"];
const TARGET: [&str; 4] = [
    "Creature-0-1469-2549-12530-210177-000011428F",
    "Tormented Ancient",
    "0xa18",
    "0x0",
];
const SPELL: [&str; 3] = ["8936", "Regrowth", "0x8"];
const ADVANCED: [&str; 17] = [
    "Player-1393-077C088C",
    "0000000000000000",
    "696560",
    "696560",
    "14262",
    "2190",
    "4869",
    "0",
    "3",
    "160",
    "160",
    "0",
    "3316.10",
    "13199.07",
    "2232",
    "5.3044",
    "470",
];

fn standard_line<'a>(name: &'a str, prefix: &[&'a str], advanced: bool, suffix: &[&'a str]) -> Vec<&'a str> {
    let mut line = vec![name];
    line.extend_from_slice(&SOURCE);
    line.extend_from_slice(&TARGET);
    line.extend_from_slice(prefix);
    if advanced {
        line.extend_from_slice(&ADVANCED);
    }
    line.extend_from_slice(suffix);
    line
}

fn standard(line: &[&str]) -> (Prefix, Option<wowlogs::advanced::AdvancedParams>, Suffix) {
    match Event::parse(line) {
        Ok(Event { event_type: EventType::Standard { prefix, advanced_params, suffix, .. }, .. }) => {
            (prefix, advanced_params, suffix)
        },
        other => panic!("not a standard event: {:?}", other),
    }
}

#[test]
fn null_guid_is_absent() {
    assert!(matches!(GUID::parse("0000000000000000"), Ok(None)));
}

#[test]
fn unknown_guid_kinds_fail() {
    for s in ["Corpse-0-1465-2454-103-0-000018584E", "nil", "", "player-1-2", "Item-1-2"] {
        match GUID::parse(s) {
            Err(ParseError::UnknownGuidKind { token }) => {
                assert_eq!(token, s.split('-').next().unwrap())
            },
            other => panic!("{:?}", other),
        }
    }
}

#[test]
fn guid_fields() {
    match GUID::parse("Creature-0-1469-2549-12530-209333-000011428A").unwrap().unwrap() {
        GUID::Creature { unit_type, server_id, instance_id, zone_uid, id, spawn_uid } => {
            assert_eq!(unit_type, CreatureType::Creature);
            assert_eq!((server_id, instance_id, zone_uid, id), (1469, 2549, 12530, 209333));
            assert_eq!(spawn_uid, "000011428A");
        },
        other => panic!("{:?}", other),
    }
    match GUID::parse("Player-1403-0A5506C6").unwrap().unwrap() {
        GUID::Player { server_id, player_uid } => {
            assert_eq!(server_id, 1403);
            assert_eq!(player_uid, "0A5506C6");
        },
        other => panic!("{:?}", other),
    }
    assert!(matches!(GUID::parse("Player-1403"), Err(ParseError::MalformedGuid { .. })));
}

#[test]
fn spell_school_scenarios() {
    assert_eq!(SpellSchool::parse("0x2").unwrap(), Some(vec![SpellSchool::Holy]));
    assert_eq!(
        SpellSchool::parse("0x6A").unwrap(),
        Some(vec![SpellSchool::Holy, SpellSchool::Nature, SpellSchool::Shadow, SpellSchool::Arcane])
    );
    assert_eq!(SpellSchool::parse("-1").unwrap(), None);
    assert_eq!(SpellSchool::parse("36").unwrap(), Some(vec![SpellSchool::Fire, SpellSchool::Shadow]));
    assert_eq!(SpellSchool::parse("0").unwrap(), Some(vec![]));
    assert!(matches!(
        SpellSchool::parse("256"),
        Err(ParseError::InvalidNumber { expected: NumberKind::U8, .. })
    ));
}

#[test]
fn power_type_scenarios() {
    assert_eq!(PowerType::parse("-2").unwrap(), Some(PowerType::Health));
    assert_eq!(PowerType::parse("-1").unwrap(), None);
    assert_eq!(PowerType::parse("22").unwrap(), Some(PowerType::RuneUnholy));
    assert!(matches!(PowerType::parse("26"), Err(ParseError::UnknownPowerType { code: 26 })));
    assert!(matches!(
        PowerType::parse("200"),
        Err(ParseError::InvalidNumber { expected: NumberKind::I8, .. })
    ));
}

#[test]
fn bool_scenarios() {
    assert_eq!(parse_bool("nil").unwrap(), false);
    assert_eq!(parse_bool("0").unwrap(), false);
    assert_eq!(parse_bool("1").unwrap(), true);
    for s in ["", "true", "2", "NIL", " 1"] {
        assert!(matches!(parse_bool(s), Err(ParseError::InvalidBool { field }) if field == s));
    }
}

#[test]
fn number_scenarios() {
    assert_eq!(parse_num("18446744073709551615").unwrap(), u64::MAX);
    assert!(parse_num("18446744073709551616").is_err());
    assert_eq!(parse_num("+7").unwrap(), 7);
    assert!(parse_num("-7").is_err());
    assert!(parse_num("").is_err());
    assert_eq!(parse_i64("-9223372036854775808").unwrap(), i64::MIN);
    assert!(parse_i64("9223372036854775808").is_err());
    assert_eq!(parse_i64("-2435").unwrap(), -2435);
    assert_eq!(parse_hex("0x514").unwrap(), 0x514);
    assert_eq!(parse_hex("a18").unwrap(), 0xa18);
    assert_eq!(parse_hex("0x80000000").unwrap(), 0x80000000);
    assert!(matches!(parse_hex("0xZZ"), Err(ParseError::InvalidHex { .. })));
    let d = Decimal::parse("-931.46").unwrap();
    assert_eq!(d, Decimal { negative: true, mantissa: 93146, scale: 2 });
    assert_eq!(Decimal::parse("3800.000000").unwrap().scale, 6);
    assert!(Decimal::parse("1.2.3").is_err());
    assert!(Decimal::parse("-").is_err());
}

#[test]
fn enum_names_are_read_in_any_case() {
    assert_eq!(MissType::parse("PARRY").unwrap(), MissType::Parry);
    assert_eq!(AuraType::parse("DEBUFF").unwrap(), AuraType::Debuff);
    assert_eq!(EnvironmentalType::parse("falling").unwrap(), EnvironmentalType::Falling);
    assert!(matches!(
        AuraType::parse("AURA"),
        Err(ParseError::UnknownEnumValue { kind: EnumKind::AuraType, .. })
    ));
}

#[test]
fn timestamp_is_read_in_the_given_year() {
    let line = vec!["2/29 23:59:59.999  ZONE_CHANGE", "2549", "Amirdrassil", "14"];
    let e = Event::parse_in_year(&line, 2024).unwrap();
    assert_eq!(
        e.timestamp,
        Timestamp { year: 2024, month: 2, day: 29, hour: 23, minute: 59, second: 59, millisecond: 999 }
    );
    let err = Event::parse_in_year(&line, 2023).unwrap_err();
    assert!(matches!(err.cause, ParseError::DateParseFailure { .. }));
    let line = vec!["4/6 24:09:44.867  ZONE_CHANGE", "2549", "Amirdrassil", "14"];
    assert!(matches!(Event::parse(&line).unwrap_err().cause, ParseError::DateParseFailure { .. }));
    let line = vec!["4/6 14:09:44.867 ZONE_CHANGE", "2549", "Amirdrassil", "14"];
    assert!(matches!(Event::parse(&line).unwrap_err().cause, ParseError::FieldSplitFailure { .. }));
    let line = vec!["COMBAT_LOG_VERSION", "20", "ADVANCED_LOG_ENABLED", "1", "BUILD_VERSION", "10.2.6", "PROJECT_ID", "1"];
    assert_eq!(Event::parse(&line).unwrap().timestamp, Timestamp::placeholder());
}

#[test]
fn catalog_of_standard_shapes() {
    let cases: Vec<(&str, Vec<&str>, bool, Vec<&str>, &str)> = vec![
        ("SPELL_DAMAGE", SPELL.to_vec(), true, vec!["23134", "23133", "-1", "2", "0", "0", "0", "nil", "nil", "nil"], "Damage"),
        ("SWING_DAMAGE_LANDED", vec![], true, vec!["16898", "12070", "-1", "1", "0", "0", "0", "1", "nil", "nil"], "DamageLanded"),
        ("SPELL_PERIODIC_MISSED", SPELL.to_vec(), false, vec!["ABSORB", "nil", "9478", "11175", "nil"], "Missed"),
        ("RANGE_MISSED", SPELL.to_vec(), false, vec!["DODGE", "nil"], "Missed"),
        ("SPELL_HEAL", SPELL.to_vec(), true, vec!["2621", "2621", "0", "0", "1"], "Heal"),
        ("SPELL_HEAL_ABSORBED", SPELL.to_vec(), false, vec!["0000000000000000", "Unknown", "0x80000000", "0x80000000", "422382", "Wild Growth", "0x8", "2438", "2438"], "HealAbsorbed"),
        ("SPELL_ENERGIZE", SPELL.to_vec(), true, vec!["1.0000", "0.0000", "5", "6"], "Energize"),
        ("SPELL_DRAIN", SPELL.to_vec(), true, vec!["25", "3", "0", "160"], "Drain"),
        ("SPELL_LEECH", SPELL.to_vec(), true, vec!["25", "3", "0"], "Leech"),
        ("SPELL_INTERRUPT", SPELL.to_vec(), false, vec!["1449", "Arcane Explosion", "0x40"], "Interrupt"),
        ("SPELL_DISPEL", SPELL.to_vec(), false, vec!["1449", "Arcane Explosion", "0x40", "BUFF"], "Dispel"),
        ("SPELL_DISPEL_FAILED", SPELL.to_vec(), false, vec!["1449", "Arcane Explosion", "0x40"], "DispelFailed"),
        ("SPELL_STOLEN", SPELL.to_vec(), true, vec!["1449", "Arcane Explosion", "0x40", "BUFF"], "Stolen"),
        ("SPELL_EXTRA_ATTACKS", SPELL.to_vec(), false, vec!["1"], "ExtraAttacks"),
        ("SPELL_AURA_APPLIED", SPELL.to_vec(), false, vec!["BUFF"], "AuraApplied"),
        ("SPELL_AURA_REMOVED", SPELL.to_vec(), false, vec!["BUFF", "12"], "AuraRemoved"),
        ("SPELL_AURA_APPLIED_DOSE", SPELL.to_vec(), false, vec!["BUFF", "2"], "AuraAppliedDose"),
        ("SPELL_AURA_REMOVED_DOSE", SPELL.to_vec(), false, vec!["BUFF", "1"], "AuraRemovedDose"),
        ("SPELL_AURA_REFRESH", SPELL.to_vec(), false, vec!["DEBUFF"], "AuraRefresh"),
        ("SPELL_AURA_BROKEN", SPELL.to_vec(), false, vec!["DEBUFF"], "AuraBroken"),
        ("SPELL_AURA_BROKEN_SPELL", SPELL.to_vec(), false, vec!["360194", "Deathmark", "1", "DEBUFF"], "AuraBrokenSpell"),
        ("SPELL_CAST_START", SPELL.to_vec(), false, vec![], "CastStart"),
        ("SPELL_CAST_SUCCESS", SPELL.to_vec(), true, vec![], "CastSuccess"),
        ("SPELL_CAST_FAILED", SPELL.to_vec(), false, vec!["Not yet recovered"], "CastFailed"),
        ("SPELL_INSTAKILL", SPELL.to_vec(), false, vec!["nil"], "Instakill"),
        ("SPELL_DURABILITY_DAMAGE", SPELL.to_vec(), false, vec![], "DurabilityDamage"),
        ("SPELL_DURABILITY_DAMAGE_ALL", SPELL.to_vec(), false, vec![], "DurabilityDamageAll"),
        ("SPELL_CREATE", SPELL.to_vec(), false, vec![], "Create"),
        ("SPELL_SUMMON", SPELL.to_vec(), false, vec![], "Summon"),
        ("SPELL_RESURRECT", SPELL.to_vec(), false, vec![], "Resurrect"),
        ("SPELL_EMPOWER_START", SPELL.to_vec(), false, vec![], "EmpowerStart"),
        ("SPELL_EMPOWER_END", SPELL.to_vec(), false, vec!["3"], "EmpowerEnd"),
        ("SPELL_EMPOWER_INTERRUPT", SPELL.to_vec(), false, vec!["0"], "EmpowerInterrupt"),
        ("DAMAGE_SHIELD", SPELL.to_vec(), true, vec!["23134", "23133", "-1", "2", "0", "0", "0", "nil", "nil", "nil"], "Damage"),
        ("DAMAGE_SHIELD_MISSED", SPELL.to_vec(), false, vec!["MISS", "nil"], "Missed"),
    ];
    for (name, prefix, advanced, suffix, tag) in cases {
        let head = format!("4/6 14:09:44.867  {}", name);
        let line = standard_line(&head, &prefix, advanced, &suffix);
        let (_, adv, s) = standard(&line);
        assert_eq!(adv.is_some(), advanced, "{}", name);
        let debug = format!("{:?}", s);
        assert!(debug.starts_with(tag), "{}: {}", name, debug);
        if !name.starts_with("DAMAGE_SHIELD") {
            assert_eq!(Suffix::has_advanced_params(name).unwrap(), advanced, "{}", name);
        }
    }
}

#[test]
fn unknown_shapes_fail() {
    let line = standard_line("4/6 14:09:44.867  SPELL_FROBNICATE", &SPELL, false, &[]);
    assert!(matches!(Event::parse(&line).unwrap_err().cause, ParseError::UnknownSuffix { .. }));
    let line = standard_line("4/6 14:09:44.867  MELEE_DAMAGE", &[], false, &[]);
    assert!(matches!(Event::parse(&line).unwrap_err().cause, ParseError::UnknownPrefix { .. }));
    assert!(matches!(Suffix::has_advanced_params("UNIT_FOO"), Err(ParseError::UnknownSuffix { .. })));
    assert!(matches!(Prefix::entries_to_consume("MELEE_DAMAGE"), Err(ParseError::UnknownPrefix { .. })));
    assert_eq!(Prefix::entries_to_consume("SPELL_PERIODIC_DAMAGE").unwrap(), 3);
    assert_eq!(Prefix::entries_to_consume("ENVIRONMENTAL_DAMAGE").unwrap(), 1);
    assert_eq!(Prefix::entries_to_consume("SWING_DAMAGE").unwrap(), 0);
}

#[test]
fn short_records_fail() {
    let line = standard_line("4/6 14:09:44.867  SPELL_DAMAGE", &SPELL, true, &["1", "2"]);
    assert!(matches!(Event::parse(&line).unwrap_err().cause, ParseError::FieldCount { wanted: 10, found: 2 }));
    let line = standard_line("4/6 14:09:44.867  SPELL_DAMAGE", &SPELL, false, &[]);
    assert!(matches!(Event::parse(&line).unwrap_err().cause, ParseError::FieldCount { .. }));
    assert!(matches!(
        wowlogs::advanced::PowerInfo::parse(&["3|4", "43", "300|6", "25|6"]),
        Err(ParseError::MalformedPowerInfo)
    ));
}

#[test]
fn absorbed_without_and_with_spell() {
    let suffix = ["Player-1329-0A0800FA", "Foxgates-Ravencrest", "0x512", "0x0", "413984", "Shifting Sands", "0x40", "1284", "37144", "nil"];
    let line = standard_line("2/15 20:33:05.904  SPELL_ABSORBED", &[], false, &suffix);
    let (prefix, _, s) = standard(&line);
    assert!(matches!(prefix, Prefix::Spell(None)));
    assert!(matches!(s, Suffix::Absorbed { absorbed_amount: 1284, base_amount: 37144, critical: false, .. }));

    let line = standard_line("2/15 20:33:05.904  SPELL_ABSORBED", &["422578", "Searing Aftermath", "0x4"], false, &suffix);
    let (prefix, _, s) = standard(&line);
    assert!(matches!(prefix, Prefix::Spell(Some(ref info)) if info.id == 422578));
    assert!(matches!(s, Suffix::Absorbed { .. }));

    let missing = ["0000000000000000", "nil", "0x0", "0x0", "413984", "Shifting Sands", "0x40", "1284", "37144", "nil"];
    let line = standard_line("2/15 20:33:05.904  SPELL_ABSORBED", &["422578", "Searing Aftermath", "0x4"], false, &missing);
    assert!(matches!(Event::parse(&line).unwrap_err().cause, ParseError::MissingActor));
}

#[test]
fn environmental_damage_reads_advanced_block_first() {
    let line = vec!["4/11 22:42:01.100  ENVIRONMENTAL_DAMAGE", "0000000000000000", "nil", "0x80000000", "0x80000000", "Player-1329-070EBCFC", "Naladrem-Ravencrest", "0x518", "0x0", "Player-1329-070EBCFC", "0000000000000000", "815216", "866544", "14879", "1421", "5217", "0", "17", "109", "120", "0", "-931.46", "2546.12", "2133", "4.8479", "484", "Falling", "51328", "51328", "0", "1", "0", "0", "0", "nil", "nil", "nil"];
    let (prefix, adv, s) = standard(&line);
    assert!(matches!(prefix, Prefix::Environmental(EnvironmentalType::Falling)));
    let adv = adv.unwrap();
    assert_eq!(adv.current_hp, 815216);
    assert_eq!(adv.power_info[0].power_type, Some(PowerType::Fury));
    assert!(matches!(s, Suffix::Damage(ref d) if d.amount == 51328 && d.overkill == Some(0)));
}

#[test]
fn emote_kinds() {
    let line = vec!["4/11 22:47:58.605  EMOTE", "Player-1329-09AF0ACF", "Adamthebash", "Player-1329-09AF0ACF", "Adamthebash", "Turn back!"];
    let e = Event::parse(&line).unwrap();
    assert!(matches!(e.event_type, EventType::Special { details: Special::EmoteEnvironmental { .. }, .. }));

    let line = vec!["4/11 22:47:58.605  EMOTE", "Creature-0-1465-2444-137-194909-00009853CD", "Duck", "0x0", "nil", "Quack"];
    let e = Event::parse(&line).unwrap();
    match e.event_type {
        EventType::Special { details: Special::EmoteStandard { actor, text }, .. } => {
            assert_eq!(actor.unwrap().name, "Duck");
            assert_eq!(text, "Quack");
        },
        other => panic!("{:?}", other),
    }
}

fn combatant_line() -> Vec<&'static str> {
    let mut line = vec!["Player-1329-09E71507", "1"];
    line.extend_from_slice(&["918", "1422", "45581", "15599", "0", "0", "0", "5520", "5520", "5520", "250", "0", "3363", "3363", "3363", "325", "1847", "4230", "4230", "4230", "13398", "1467"]);
    line.extend_from_slice(&["[(93271", "115577", "1)", "(93272", "115578", "2)]"]);
    line.extend_from_slice(&["(0", "378437", "384660", "378444)"]);
    line.extend_from_slice(&["[(207227", "489", "(7052", "0", "0)", "(6652", "7981)", "(192932", "415))", "(0", "0", "()", "()", "())", "(201759", "486", "()", "()", "())]"]);
    line.extend_from_slice(&["[Player-1098-0500B8C6", "396092]"]);
    line.extend_from_slice(&["11", "0", "0", "0"]);
    line
}

#[test]
fn combatant_info_sections() {
    let c = CombatantInfo::parse(&combatant_line()).unwrap();
    assert_eq!(c.spec_id, 1467);
    assert_eq!(c.stats.strength, 918);
    assert_eq!(c.stats.armor, 13398);
    assert_eq!(c.class_talents.len(), 2);
    assert_eq!(c.class_talents[1].rank, 2);
    assert_eq!(c.pvp_talents, [0, 378437, 384660, 378444]);
    assert_eq!(c.equipped_items.len(), 2);
    assert_eq!(c.equipped_items[0].item_id, 207227);
    assert_eq!(c.equipped_items[0].enchant.unwrap().permanent_id, 7052);
    assert_eq!(c.equipped_items[0].bonus_ids, vec![6652, 7981]);
    assert_eq!(c.equipped_items[0].gem_ids, vec![192932, 415]);
    assert!(c.equipped_items[1].enchant.is_none());
    assert_eq!(c.interesting_auras.len(), 1);
    assert_eq!(c.interesting_auras[0].aura_id, 396092);
    assert_eq!(c.pvp_stats.honor_level, 11);

    let mut missing_talents = combatant_line();
    missing_talents.drain(24..30);
    assert!(matches!(CombatantInfo::parse(&missing_talents), Err(ParseError::MalformedCombatantInfo)));
    let mut missing_pvp = combatant_line();
    missing_pvp.drain(30..34);
    assert!(matches!(CombatantInfo::parse(&missing_pvp), Err(ParseError::MalformedCombatantInfo)));
    let mut missing_auras = combatant_line();
    missing_auras.drain(53..55);
    assert!(matches!(CombatantInfo::parse(&missing_auras), Err(ParseError::MalformedCombatantInfo)));
}

#[test]
fn parsing_twice_gives_the_same_result() {
    let line = standard_line("4/6 14:09:44.867  SPELL_PERIODIC_HEAL", &SPELL, true, &["2557", "2557", "0", "0", "nil"]);
    let a = format!("{:?}", Event::parse(&line));
    let b = format!("{:?}", Event::parse(&line));
    assert_eq!(a, b);
    let bad = vec!["4/6 14:09:44.867  SPELL_HEAL", "x"];
    assert_eq!(format!("{:?}", Event::parse(&bad)), format!("{:?}", Event::parse(&bad)));
}

#[test]
fn renamed_events_keep_their_name() {
    let line = standard_line(
        "4/6 14:09:44.867  DAMAGE_SPLIT",
        &SPELL,
        true,
        &["23134", "23133", "-1", "2", "0", "0", "0", "nil", "nil", "nil"],
    );
    match Event::parse(&line).unwrap().event_type {
        EventType::Standard { name, suffix: Suffix::Damage(_), .. } => assert_eq!(name, "DAMAGE_SPLIT"),
        other => panic!("{:?}", other),
    }
}

#[test]
fn challenge_mode_affixes() {
    let line = vec!["1/31 23:26:12.705  CHALLENGE_MODE_START", "Black Rook Hold", "1501", "199", "18", "[9", "134", "11]"];
    match Event::parse(&line).unwrap().event_type {
        EventType::Special { details: Special::ChallengeModeStart { affix_ids, keystone_level, .. }, .. } => {
            assert_eq!(affix_ids, vec![9, 134, 11]);
            assert_eq!(keystone_level, 18);
        },
        other => panic!("{:?}", other),
    }
    let line = vec!["1/31 23:26:12.705  CHALLENGE_MODE_START", "Black Rook Hold", "1501", "199", "18", "[10]"];
    match Event::parse(&line).unwrap().event_type {
        EventType::Special { details: Special::ChallengeModeStart { affix_ids, .. }, .. } => {
            assert_eq!(affix_ids, vec![10])
        },
        other => panic!("{:?}", other),
    }
}

#[test]
fn spell_without_school_set() {
    let info = wowlogs::common::SpellInfo::parse_record(&["6673", "Battle Shout", "-1"]).unwrap();
    assert_eq!(info.school, None);
    let info = wowlogs::common::SpellInfo::parse_record(&["6673", "Battle Shout", "0"]).unwrap();
    assert_eq!(info.school, Some(vec![]));
    assert!(matches!(
        wowlogs::common::SpellInfo::parse_record(&["6673", "Battle Shout"]),
        Err(ParseError::FieldCount { wanted: 3, found: 2 })
    ));
}
