use wowlogs::advanced::{AdvancedParams, Position, PowerInfo};
use wowlogs::common::{Actor, SpellInfo};
use wowlogs::enums::SpellSchool::{Arcane, Holy, Nature, Shadow};
use wowlogs::enums::{MissType, PowerType, SpellSchool};
use wowlogs::guid::GUID;
use wowlogs::prefixes::Prefix;
use wowlogs::special::Special;
use wowlogs::suffixes::Suffix;

#[test]
fn parse_spell_info() {
    let line = vec!["8936", "Regrowth", "0x8"];
    let parsed = SpellInfo::parse_record(&line);
    let info = parsed.unwrap();
    assert_eq!(info.id, 8936);
    assert_eq!(info.name, "Regrowth");
    assert_eq!(info.school, Some(vec![SpellSchool::Nature]));
}

#[test]
fn parse_actor() {
    let line = vec!["Player-1393-077C088C", "Mubaku-BronzeDragonflight", "0x514", "0x0"];
    let parsed = Actor::parse(&line);
    assert!(parsed.is_ok_and(|x| x.is_some()));

    let line = vec!["0000000000000000", "nil", "0x80000000", "0x80000000"];
    let parsed = Actor::parse(&line);
    assert!(parsed.is_ok_and(|x| x.is_none()));

    let line = vec!["Creature-0-4233-2549-14868-200927-00004E8C97", "Smolderon", "0000000000000000", "nil"];
    let parsed = Actor::parse(&line);
    assert!(parsed.is_ok_and(|a| a.is_some_and(|a| a.raid_flags.is_none())));
}

#[test]
fn enums_parse_spell_school() {
    assert_eq!(SpellSchool::parse("0x2").unwrap(), Some(vec![Holy]));
    assert_eq!(SpellSchool::parse("0x6A").unwrap(), Some(vec![Holy, Nature, Shadow, Arcane]));
    assert!(SpellSchool::parse("-1").unwrap().is_none());
}

#[test]
fn enums_parse_power_type() {
    assert_eq!(PowerType::parse("-2").unwrap(), Some(PowerType::Health));
    assert_eq!(PowerType::parse("-1").unwrap(), None);
    assert_eq!(PowerType::parse("22").unwrap(), Some(PowerType::RuneUnholy));
}

#[test]
fn enums_parse() {
    assert_eq!(MissType::parse("ABSORB").unwrap(), MissType::Absorb);
    assert_eq!(MissType::parse("Absorb").unwrap(), MissType::Absorb);
}

#[test]
fn guid_parse() {
    let parsed = GUID::parse("0000000000000000");
    assert!(parsed.is_ok_and(|x| x.is_none()));

    let parsed = GUID::parse("Player-1403-0A5506C6");
    assert!(parsed.is_ok_and(|x| x.is_some()));

    let parsed = GUID::parse("Creature-0-1469-2549-12530-209333-000011428A");
    assert!(parsed.is_ok_and(|x| x.is_some()));
}

#[test]
fn prefixes_parse() {
    let event_type = "SPELL_PERIODIC_HEAL";
    let lines = vec!["8936", "Regrowth", "0x8"];
    let parsed = Prefix::parse(event_type, &lines);
    assert!(matches!(parsed, Ok(Prefix::SpellPeriodic(_))));

    let event_type = "SWING_DAMAGE";
    let lines: Vec<&str> = vec![];
    let parsed = Prefix::parse(event_type, &lines);
    assert!(matches!(parsed, Ok(Prefix::Swing)));

    let event_type = "SPELL_AURA_APPLIED";
    let lines = vec!["6673", "Battle Shout", "0x1"];
    let parsed = Prefix::parse(event_type, &lines);
    assert!(matches!(parsed, Ok(Prefix::Spell(Some(_)))));
}

#[test]
fn advanced_parse_power_info() {
    let line = vec!["1", "0", "0", "0"];
    let parsed = PowerInfo::parse(&line);
    assert_eq!(parsed.unwrap().len(), 1);

    let line = vec!["3", "160", "160", "0"];
    let parsed = PowerInfo::parse(&line);
    let pools = parsed.unwrap();
    assert_eq!(pools[0].power_type, Some(PowerType::Energy));
    assert_eq!(pools[0].current_power, 160);

    let line = vec!["3|4", "43|6", "300|6", "25|6"];
    let parsed = PowerInfo::parse(&line);
    let pools = parsed.unwrap();
    assert_eq!(pools.len(), 2);
    assert_eq!(pools[1].power_type, Some(PowerType::ComboPoints));
    assert_eq!(pools[1].max_power, 6);
}

#[test]
fn advanced_parse_position() {
    let parsed = Position::parse(&["3295.44", "13209.11"], "3.4506");
    let p = parsed.unwrap();
    assert_eq!((p.x.mantissa, p.x.scale), (329544, 2));
    assert_eq!((p.facing.mantissa, p.facing.scale), (34506, 4));
}

#[test]
fn advanced_parse() {
    let line = vec!["Creature-0-1469-2549-12530-210177-000011428F", "0000000000000000", "5927873", "7468728", "0", "0", "5043", "0", "1", "0", "0", "0", "3295.44", "13209.11", "2232", "3.4506", "72"];
    let parsed = AdvancedParams::parse(&line);
    assert!(parsed.is_ok(), "{:?}", parsed.err());

    let line = vec!["Player-1393-077C088C", "0000000000000000", "696560", "696560", "14262", "2190", "4869", "0", "3", "160", "160", "0", "3316.10", "13199.07", "2232", "5.3044", "470"];
    let parsed = AdvancedParams::parse(&line);
    assert!(parsed.is_ok(), "{:?}", parsed.err());

    let line = vec!["Player-1335-0A264B4C", "0000000000000000", "621960", "621960", "12071", "1488", "4067", "0", "3|4", "43|6", "300|6", "25|6", "3471.75", "13115.98", "2232", "0.4119", "455"];
    let parsed = AdvancedParams::parse(&line);
    let a = parsed.unwrap();
    assert_eq!(a.power_info.len(), 2);
    assert_eq!(a.ui_map_id, 2232);
    assert_eq!(a.level_or_ilvl, 455);
    assert_eq!(a.current_hp, 621960);
}

#[test]
fn suffixes_parse() {
    let event_type = "SPELL_DAMAGE";
    let line: Vec<&str> = vec!["23134", "23133", "-1", "2", "0", "0", "0", "nil", "nil", "nil"];
    let parsed = Suffix::parse(event_type, &line);
    assert!(parsed.is_ok(), "{:?}", parsed.err());

    let event_type = "SPELL_DAMAGE";
    let line: Vec<&str> = vec!["22844", "26082", "-1", "4", "0", "0", "-2025", "nil", "nil", "nil"];
    let parsed = Suffix::parse(event_type, &line);
    assert!(parsed.is_ok(), "{:?}", parsed.err());

    let event_type = "SPELL_PERIODIC_MISSED";
    let line: Vec<&str> = vec!["ABSORB", "nil", "9478", "11175", "nil"];
    let parsed = Suffix::parse(event_type, &line);
    assert!(parsed.is_ok(), "{:?}", parsed.err());

    let event_type = "SPELL_HEAL";
    let line: Vec<&str> = vec!["2621", "2621", "0", "0", "1"];
    let parsed = Suffix::parse(event_type, &line);
    assert!(parsed.is_ok(), "{:?}", parsed.err());

    let event_type = "SPELL_ABSORBED";
    let line: Vec<&str> = vec!["Player-1587-0F81497D", "Huisarts-Arathor", "0x514", "0x0", "47753", "Divine Aegis", "0x2", "983", "56699", "nil"];
    let parsed = Suffix::parse(event_type, &line);
    assert!(parsed.is_ok(), "{:?}", parsed.err());

    let event_type = "SPELL_ABSORBED";
    let line: Vec<&str> = vec!["Player-1329-0A0800FA", "Foxgates-Ravencrest", "0x512", "0x0", "386124", "Fel Armor", "0x20", "-2900", "48673", "nil"];
    let parsed = Suffix::parse(event_type, &line);
    assert!(parsed.is_ok(), "{:?}", parsed.err());

    let event_type = "SPELL_PERIODIC_ENERGIZE";
    let line: Vec<&str> = vec!["1.0000", "0.0000", "5", "6"];
    let parsed = Suffix::parse(event_type, &line);
    assert!(parsed.is_ok(), "{:?}", parsed.err());

    let event_type = "SPELL_DRAIN";
    let line: Vec<&str> = vec!["25", "3", "0", "160"];
    let parsed = Suffix::parse(event_type, &line);
    assert!(parsed.is_ok(), "{:?}", parsed.err());

    let event_type = "SPELL_EMPOWER_INTERRUPT";
    let line: Vec<&str> = vec!["0"];
    let parsed = Suffix::parse(event_type, &line);
    assert!(parsed.is_ok(), "{:?}", parsed.err());

    let event_type = "SPELL_AURA_APPLIED";
    let line: Vec<&str> = vec!["DEBUFF"];
    let parsed = Suffix::parse(event_type, &line);
    assert!(parsed.is_ok(), "{:?}", parsed.err());

    let line: Vec<&str> = vec!["DEBUFF", "123"];
    let parsed = Suffix::parse(event_type, &line);
    assert!(parsed.is_ok(), "{:?}", parsed.err());

    let event_type = "SPELL_AURA_REMOVED";
    let line: Vec<&str> = vec!["DEBUFF"];
    let parsed = Suffix::parse(event_type, &line);
    assert!(parsed.is_ok(), "{:?}", parsed.err());

    let line: Vec<&str> = vec!["DEBUFF", "123"];
    let parsed = Suffix::parse(event_type, &line);
    assert!(parsed.is_ok(), "{:?}", parsed.err());

    let event_type = "SPELL_AURA_APPLIED_DOSE";
    let line: Vec<&str> = vec!["DEBUFF", "123"];
    let parsed = Suffix::parse(event_type, &line);
    assert!(parsed.is_ok(), "{:?}", parsed.err());

    let event_type = "SPELL_AURA_REMOVED_DOSE";
    let line: Vec<&str> = vec!["DEBUFF", "123"];
    let parsed = Suffix::parse(event_type, &line);
    assert!(parsed.is_ok(), "{:?}", parsed.err());

    let event_type = "SPELL_AURA_REFRESH";
    let line: Vec<&str> = vec!["DEBUFF"];
    let parsed = Suffix::parse(event_type, &line);
    assert!(parsed.is_ok(), "{:?}", parsed.err());

    let event_type = "SPELL_AURA_BROKEN";
    let line: Vec<&str> = vec!["DEBUFF"];
    let parsed = Suffix::parse(event_type, &line);
    assert!(parsed.is_ok(), "{:?}", parsed.err());

    let event_type = "SPELL_AURA_BROKEN_SPELL";
    let line: Vec<&str> = vec!["360194", "Deathmark", "1", "DEBUFF"];
    let parsed = Suffix::parse(event_type, &line);
    assert!(parsed.is_ok(), "{:?}", parsed.err());

    let event_type = "SPELL_CAST_START";
    let line: Vec<&str> = vec![];
    let parsed = Suffix::parse(event_type, &line);
    assert!(parsed.is_ok(), "{:?}", parsed.err());

    let event_type = "SPELL_CAST_SUCCESS";
    let line: Vec<&str> = vec![];
    let parsed = Suffix::parse(event_type, &line);
    assert!(parsed.is_ok(), "{:?}", parsed.err());

    let event_type = "SPELL_CAST_FAILED";
    let line: Vec<&str> = vec!["Not yet recovered"];
    let parsed = Suffix::parse(event_type, &line);
    assert!(parsed.is_ok(), "{:?}", parsed.err());

    let event_type = "SPELL_SUMMON";
    let line: Vec<&str> = vec![];
    let parsed = Suffix::parse(event_type, &line);
    assert!(parsed.is_ok(), "{:?}", parsed.err());

    let event_type = "SPELL_RESURRECT";
    let line: Vec<&str> = vec![];
    let parsed = Suffix::parse(event_type, &line);
    assert!(parsed.is_ok(), "{:?}", parsed.err());

    let event_type = "SPELL_EMPOWER_START";
    let line: Vec<&str> = vec![];
    let parsed = Suffix::parse(event_type, &line);
    assert!(parsed.is_ok(), "{:?}", parsed.err());

    let event_type = "SPELL_EMPOWER_END";
    let line: Vec<&str> = vec!["1"];
    let parsed = Suffix::parse(event_type, &line);
    assert!(parsed.is_ok(), "{:?}", parsed.err());

    let event_type = "SWING_DAMAGE_LANDED";
    let line: Vec<&str> = vec!["16898", "12070", "-1", "1", "0", "0", "0", "1", "nil", "nil"];
    let parsed = Suffix::parse(event_type, &line);
    assert!(parsed.is_ok(), "{:?}", parsed.err());

    let event_type = "SPELL_HEAL_ABSORBED";
    let line: Vec<&str> = vec!["Creature-0-4233-2549-14868-54983-00004E66CB", "Treant", "0x2114", "0x0", "422382", "Wild Growth", "0x8", "2585", "2585"];
    let parsed = Suffix::parse(event_type, &line);
    assert!(parsed.is_ok(), "{:?}", parsed.err());

    let event_type = "SPELL_HEAL_ABSORBED";
    let line: Vec<&str> = vec!["0000000000000000", "Unknown", "0x80000000", "0x80000000", "422382", "Wild Growth", "0x8", "2438", "2438"];
    let parsed = Suffix::parse(event_type, &line);
    assert!(parsed.is_ok(), "{:?}", parsed.err());
}

#[test]
fn special_parse() {
    let event_type = "ENCHANT_APPLIED";
    let line: Vec<&str> = vec!["0000000000000000", "nil", "0x80000000", "0x80000000", "Player-1329-09AF0ACF", "Adamthebash-Ravencrest", "0x511", "0x0", "Howling Rune", "207782", "Sickle of the White Stag"];
    let parsed = Special::parse(event_type, &line);
    assert!(parsed.is_ok(), "{:?}", parsed.err());

    let event_type = "ENCHANT_REMOVED";
    let line: Vec<&str> = vec!["0000000000000000", "nil", "0x80000000", "0x80000000", "Player-1329-09AF0ACF", "Adamthebash-Ravencrest", "0x511", "0x0", "Howling Rune", "207782", "Sickle of the White Stag"];
    let parsed = Special::parse(event_type, &line);
    assert!(parsed.is_ok(), "{:?}", parsed.err());

    let event_type = "PARTY_KILL";
    let line: Vec<&str> = vec!["0000000000000000", "nil", "0x80000000", "0x80000000", "Player-1329-09AF0ACF", "Adamthebash-Ravencrest", "0x511", "0x0", "0"];
    let parsed = Special::parse(event_type, &line);
    assert!(parsed.is_ok(), "{:?}", parsed.err());

    let event_type = "UNIT_DIED";
    let line: Vec<&str> = vec!["0000000000000000", "nil", "0x80000000", "0x80000000", "Player-1329-09AF0ACF", "Adamthebash-Ravencrest", "0x511", "0x0", "0"];
    let parsed = Special::parse(event_type, &line);
    assert!(parsed.is_ok(), "{:?}", parsed.err());

    let event_type = "UNIT_DESTROYED";
    let line: Vec<&str> = vec!["0000000000000000", "nil", "0x80000000", "0x80000000", "Player-1329-09AF0ACF", "Adamthebash-Ravencrest", "0x511", "0x0", "0"];
    let parsed = Special::parse(event_type, &line);
    assert!(parsed.is_ok(), "{:?}", parsed.err());

    let event_type = "UNIT_DISSIPATES";
    let line: Vec<&str> = vec!["0000000000000000", "nil", "0x80000000", "0x80000000", "Player-1329-09AF0ACF", "Adamthebash-Ravencrest", "0x511", "0x0", "0"];
    let parsed = Special::parse(event_type, &line);
    assert!(parsed.is_ok(), "{:?}", parsed.err());

    let event_type = "COMBAT_LOG_VERSION";
    let line: Vec<&str> = vec!["20", "ADVANCED_LOG_ENABLED", "1", "BUILD_VERSION", "10.2.6", "PROJECT_ID", "1"];
    let parsed = Special::parse(event_type, &line);
    assert!(parsed.is_ok(), "{:?}", parsed.err());

    let event_type = "ZONE_CHANGE";
    let line: Vec<&str> = vec!["2549", "Amirdrassil, the Dream's Hope", "14"];
    let parsed = Special::parse(event_type, &line);
    assert!(parsed.is_ok(), "{:?}", parsed.err());

    let event_type = "MAP_CHANGE";
    let line: Vec<&str> = vec!["2232", "Amirdrassil", "3800.000000", "3000.000000", "13725.000000", "12525.000000"];
    let parsed = Special::parse(event_type, &line);
    assert!(parsed.is_ok(), "{:?}", parsed.err());

    let event_type = "ENCOUNTER_START";
    let line: Vec<&str> = vec!["2820", "Gnarlroot", "14", "19", "2549"];
    let parsed = Special::parse(event_type, &line);
    assert!(parsed.is_ok(), "{:?}", parsed.err());

    let event_type = "ENCOUNTER_END";
    let line: Vec<&str> = vec!["2820", "Gnarlroot", "14", "19", "1", "162742"];
    let parsed = Special::parse(event_type, &line);
    assert!(parsed.is_ok(), "{:?}", parsed.err());

    let event_type = "WORLD_MARKER_PLACED";
    let line: Vec<&str> = vec!["2549", "7", "4010.06", "13115.27"];
    let parsed = Special::parse(event_type, &line);
    assert!(parsed.is_ok(), "{:?}", parsed.err());

    let event_type = "WORLD_MARKER_REMOVED";
    let line: Vec<&str> = vec!["7"];
    let parsed = Special::parse(event_type, &line);
    assert!(parsed.is_ok(), "{:?}", parsed.err());

    let event_type = "EMOTE";
    let line: Vec<&str> = vec!["Creature-0-4233-2549-14868-200927-00004E8C97", "Smolderon", "0000000000000000", "nil", r"|TInterface\Icons\SPELL_FIRE_RAGNAROS_MOLTENINFERNO.BLP:20|tEmberscar attempts to |cFFFF0000|Hspell:422277|h[Devour Your Essence]|h|r!"];
    let parsed = Special::parse(event_type, &line);
    assert!(parsed.is_ok(), "{:?}", parsed.err());
}

#[test]
fn parse_power_info() {
    let line = vec!["1", "0", "0", "0"];
    let parsed = PowerInfo::parse(&line);
    assert_eq!(parsed.unwrap()[0].power_type, Some(PowerType::Rage));

    let line = vec!["3", "160", "160", "0"];
    let parsed = PowerInfo::parse(&line);
    assert!(parsed.is_ok());

    let line = vec!["3|4", "43|6", "300|6", "25|6"];
    let parsed = PowerInfo::parse(&line);
    assert_eq!(parsed.unwrap()[0].power_cost, 25);
}

#[test]
fn parse_spell_school() {
    assert_eq!(SpellSchool::parse("0x2").unwrap(), Some(vec![Holy]));
    assert_eq!(SpellSchool::parse("0x6A").unwrap(), Some(vec![Holy, Nature, Shadow, Arcane]));
    assert!(SpellSchool::parse("-1").unwrap().is_none());
}

#[test]
fn parse_power_type() {
    assert_eq!(PowerType::parse("-2").unwrap(), Some(PowerType::Health));
    assert_eq!(PowerType::parse("-1").unwrap(), None);
    assert_eq!(PowerType::parse("22").unwrap(), Some(PowerType::RuneUnholy));
}

#[test]
fn parse() {
    assert_eq!(MissType::parse("Absorb").unwrap(), MissType::Absorb);
    assert_eq!(MissType::parse("ABSORB").unwrap(), MissType::Absorb);
}
