use vstd::prelude::*;

use crate::advanced::advanced_is;
use crate::common::spell_info_is;
use crate::enums::environmental_type_of;
use crate::events::{
    dispatch_name_of, event_ok, event_is, event_type_is, event_type_ok, suffix_start, Event,
    EventType, LineError,
};
use crate::guid::guid_ok;
use crate::prefixes::{prefix_kind_of, Prefix, PrefixKind};
use crate::special::{special_kind_of, Special, SpecialKind};
use crate::suffixes::{suffix_kind_of, suffix_name, SuffixKind};
use crate::text::{ends_with, starts_with, u64_of};

verus! {

// Where a few event names fall in the shape tables. Each fact that two names
// differ is shown from one length or one character that tells them apart.

proof fn lemma_environmental_damage_name()
    ensures
        special_kind_of("ENVIRONMENTAL_DAMAGE"@) is None,
        dispatch_name_of("ENVIRONMENTAL_DAMAGE"@) == "ENVIRONMENTAL_DAMAGE"@,
        prefix_kind_of("ENVIRONMENTAL_DAMAGE"@) == Some(PrefixKind::Environmental),
{
    assert("ENVIRONMENTAL_DAMAGE"@ != "ENCHANT_APPLIED"@) by {
        reveal_strlit("ENVIRONMENTAL_DAMAGE");
        reveal_strlit("ENCHANT_APPLIED");
        assert("ENVIRONMENTAL_DAMAGE"@.len() != "ENCHANT_APPLIED"@.len());
    }
    assert("ENVIRONMENTAL_DAMAGE"@ != "ENCHANT_REMOVED"@) by {
        reveal_strlit("ENVIRONMENTAL_DAMAGE");
        reveal_strlit("ENCHANT_REMOVED");
        assert("ENVIRONMENTAL_DAMAGE"@.len() != "ENCHANT_REMOVED"@.len());
    }
    assert("ENVIRONMENTAL_DAMAGE"@ != "PARTY_KILL"@) by {
        reveal_strlit("ENVIRONMENTAL_DAMAGE");
        reveal_strlit("PARTY_KILL");
        assert("ENVIRONMENTAL_DAMAGE"@.len() != "PARTY_KILL"@.len());
    }
    assert("ENVIRONMENTAL_DAMAGE"@ != "UNIT_DIED"@) by {
        reveal_strlit("ENVIRONMENTAL_DAMAGE");
        reveal_strlit("UNIT_DIED");
        assert("ENVIRONMENTAL_DAMAGE"@.len() != "UNIT_DIED"@.len());
    }
    assert("ENVIRONMENTAL_DAMAGE"@ != "UNIT_DESTROYED"@) by {
        reveal_strlit("ENVIRONMENTAL_DAMAGE");
        reveal_strlit("UNIT_DESTROYED");
        assert("ENVIRONMENTAL_DAMAGE"@.len() != "UNIT_DESTROYED"@.len());
    }
    assert("ENVIRONMENTAL_DAMAGE"@ != "UNIT_DISSIPATES"@) by {
        reveal_strlit("ENVIRONMENTAL_DAMAGE");
        reveal_strlit("UNIT_DISSIPATES");
        assert("ENVIRONMENTAL_DAMAGE"@.len() != "UNIT_DISSIPATES"@.len());
    }
    assert("ENVIRONMENTAL_DAMAGE"@ != "COMBAT_LOG_VERSION"@) by {
        reveal_strlit("ENVIRONMENTAL_DAMAGE");
        reveal_strlit("COMBAT_LOG_VERSION");
        assert("ENVIRONMENTAL_DAMAGE"@.len() != "COMBAT_LOG_VERSION"@.len());
    }
    assert("ENVIRONMENTAL_DAMAGE"@ != "ZONE_CHANGE"@) by {
        reveal_strlit("ENVIRONMENTAL_DAMAGE");
        reveal_strlit("ZONE_CHANGE");
        assert("ENVIRONMENTAL_DAMAGE"@.len() != "ZONE_CHANGE"@.len());
    }
    assert("ENVIRONMENTAL_DAMAGE"@ != "MAP_CHANGE"@) by {
        reveal_strlit("ENVIRONMENTAL_DAMAGE");
        reveal_strlit("MAP_CHANGE");
        assert("ENVIRONMENTAL_DAMAGE"@.len() != "MAP_CHANGE"@.len());
    }
    assert("ENVIRONMENTAL_DAMAGE"@ != "ENCOUNTER_START"@) by {
        reveal_strlit("ENVIRONMENTAL_DAMAGE");
        reveal_strlit("ENCOUNTER_START");
        assert("ENVIRONMENTAL_DAMAGE"@.len() != "ENCOUNTER_START"@.len());
    }
    assert("ENVIRONMENTAL_DAMAGE"@ != "ENCOUNTER_END"@) by {
        reveal_strlit("ENVIRONMENTAL_DAMAGE");
        reveal_strlit("ENCOUNTER_END");
        assert("ENVIRONMENTAL_DAMAGE"@.len() != "ENCOUNTER_END"@.len());
    }
    assert("ENVIRONMENTAL_DAMAGE"@ != "WORLD_MARKER_PLACED"@) by {
        reveal_strlit("ENVIRONMENTAL_DAMAGE");
        reveal_strlit("WORLD_MARKER_PLACED");
        assert("ENVIRONMENTAL_DAMAGE"@.len() != "WORLD_MARKER_PLACED"@.len());
    }
    assert("ENVIRONMENTAL_DAMAGE"@ != "WORLD_MARKER_REMOVED"@) by {
        reveal_strlit("ENVIRONMENTAL_DAMAGE");
        reveal_strlit("WORLD_MARKER_REMOVED");
        assert("ENVIRONMENTAL_DAMAGE"@[0] != "WORLD_MARKER_REMOVED"@[0]);
    }
    assert("ENVIRONMENTAL_DAMAGE"@ != "EMOTE"@) by {
        reveal_strlit("ENVIRONMENTAL_DAMAGE");
        reveal_strlit("EMOTE");
        assert("ENVIRONMENTAL_DAMAGE"@.len() != "EMOTE"@.len());
    }
    assert("ENVIRONMENTAL_DAMAGE"@ != "COMBATANT_INFO"@) by {
        reveal_strlit("ENVIRONMENTAL_DAMAGE");
        reveal_strlit("COMBATANT_INFO");
        assert("ENVIRONMENTAL_DAMAGE"@.len() != "COMBATANT_INFO"@.len());
    }
    assert("ENVIRONMENTAL_DAMAGE"@ != "CHALLENGE_MODE_START"@) by {
        reveal_strlit("ENVIRONMENTAL_DAMAGE");
        reveal_strlit("CHALLENGE_MODE_START");
        assert("ENVIRONMENTAL_DAMAGE"@[0] != "CHALLENGE_MODE_START"@[0]);
    }
    assert("ENVIRONMENTAL_DAMAGE"@ != "CHALLENGE_MODE_END"@) by {
        reveal_strlit("ENVIRONMENTAL_DAMAGE");
        reveal_strlit("CHALLENGE_MODE_END");
        assert("ENVIRONMENTAL_DAMAGE"@.len() != "CHALLENGE_MODE_END"@.len());
    }
    assert("ENVIRONMENTAL_DAMAGE"@ != "DAMAGE_SPLIT"@) by {
        reveal_strlit("ENVIRONMENTAL_DAMAGE");
        reveal_strlit("DAMAGE_SPLIT");
        assert("ENVIRONMENTAL_DAMAGE"@.len() != "DAMAGE_SPLIT"@.len());
    }
    assert("ENVIRONMENTAL_DAMAGE"@ != "DAMAGE_SHIELD"@) by {
        reveal_strlit("ENVIRONMENTAL_DAMAGE");
        reveal_strlit("DAMAGE_SHIELD");
        assert("ENVIRONMENTAL_DAMAGE"@.len() != "DAMAGE_SHIELD"@.len());
    }
    assert("ENVIRONMENTAL_DAMAGE"@ != "DAMAGE_SHIELD_MISSED"@) by {
        reveal_strlit("ENVIRONMENTAL_DAMAGE");
        reveal_strlit("DAMAGE_SHIELD_MISSED");
        assert("ENVIRONMENTAL_DAMAGE"@[0] != "DAMAGE_SHIELD_MISSED"@[0]);
    }
    assert("ENVIRONMENTAL_DAMAGE"@ != "SWING_DAMAGE_LANDED_SUPPORT"@) by {
        reveal_strlit("ENVIRONMENTAL_DAMAGE");
        reveal_strlit("SWING_DAMAGE_LANDED_SUPPORT");
        assert("ENVIRONMENTAL_DAMAGE"@.len() != "SWING_DAMAGE_LANDED_SUPPORT"@.len());
    }
    assert(!starts_with("ENVIRONMENTAL_DAMAGE"@, "SWING"@)) by {
        reveal_strlit("ENVIRONMENTAL_DAMAGE");
        reveal_strlit("SWING");
        assert("ENVIRONMENTAL_DAMAGE"@.subrange(0, 5)[0] != "SWING"@[0]);
    }
    assert(!starts_with("ENVIRONMENTAL_DAMAGE"@, "RANGE"@)) by {
        reveal_strlit("ENVIRONMENTAL_DAMAGE");
        reveal_strlit("RANGE");
        assert("ENVIRONMENTAL_DAMAGE"@.subrange(0, 5)[0] != "RANGE"@[0]);
    }
    assert(!starts_with("ENVIRONMENTAL_DAMAGE"@, "SPELL_PERIODIC"@)) by {
        reveal_strlit("ENVIRONMENTAL_DAMAGE");
        reveal_strlit("SPELL_PERIODIC");
        assert("ENVIRONMENTAL_DAMAGE"@.subrange(0, 14)[0] != "SPELL_PERIODIC"@[0]);
    }
    assert(!starts_with("ENVIRONMENTAL_DAMAGE"@, "SPELL_BUILDING"@)) by {
        reveal_strlit("ENVIRONMENTAL_DAMAGE");
        reveal_strlit("SPELL_BUILDING");
        assert("ENVIRONMENTAL_DAMAGE"@.subrange(0, 14)[0] != "SPELL_BUILDING"@[0]);
    }
    assert(!starts_with("ENVIRONMENTAL_DAMAGE"@, "SPELL"@)) by {
        reveal_strlit("ENVIRONMENTAL_DAMAGE");
        reveal_strlit("SPELL");
        assert("ENVIRONMENTAL_DAMAGE"@.subrange(0, 5)[0] != "SPELL"@[0]);
    }
    assert(starts_with("ENVIRONMENTAL_DAMAGE"@, "ENVIRONMENTAL"@)) by {
        reveal_strlit("ENVIRONMENTAL_DAMAGE");
        reveal_strlit("ENVIRONMENTAL");
        assert("ENVIRONMENTAL_DAMAGE"@.subrange(0, 13) =~= "ENVIRONMENTAL"@);
    }
}

proof fn lemma_absorbed_name()
    ensures
        special_kind_of("SPELL_ABSORBED"@) is None,
        dispatch_name_of("SPELL_ABSORBED"@) == "SPELL_ABSORBED"@,
        prefix_kind_of("SPELL_ABSORBED"@) == Some(PrefixKind::Spell),
        suffix_kind_of("SPELL_ABSORBED"@) == Some(SuffixKind::Absorbed),
{
    assert("SPELL_ABSORBED"@ != "ENCHANT_APPLIED"@) by {
        reveal_strlit("SPELL_ABSORBED");
        reveal_strlit("ENCHANT_APPLIED");
        assert("SPELL_ABSORBED"@.len() != "ENCHANT_APPLIED"@.len());
    }
    assert("SPELL_ABSORBED"@ != "ENCHANT_REMOVED"@) by {
        reveal_strlit("SPELL_ABSORBED");
        reveal_strlit("ENCHANT_REMOVED");
        assert("SPELL_ABSORBED"@.len() != "ENCHANT_REMOVED"@.len());
    }
    assert("SPELL_ABSORBED"@ != "PARTY_KILL"@) by {
        reveal_strlit("SPELL_ABSORBED");
        reveal_strlit("PARTY_KILL");
        assert("SPELL_ABSORBED"@.len() != "PARTY_KILL"@.len());
    }
    assert("SPELL_ABSORBED"@ != "UNIT_DIED"@) by {
        reveal_strlit("SPELL_ABSORBED");
        reveal_strlit("UNIT_DIED");
        assert("SPELL_ABSORBED"@.len() != "UNIT_DIED"@.len());
    }
    assert("SPELL_ABSORBED"@ != "UNIT_DESTROYED"@) by {
        reveal_strlit("SPELL_ABSORBED");
        reveal_strlit("UNIT_DESTROYED");
        assert("SPELL_ABSORBED"@[0] != "UNIT_DESTROYED"@[0]);
    }
    assert("SPELL_ABSORBED"@ != "UNIT_DISSIPATES"@) by {
        reveal_strlit("SPELL_ABSORBED");
        reveal_strlit("UNIT_DISSIPATES");
        assert("SPELL_ABSORBED"@.len() != "UNIT_DISSIPATES"@.len());
    }
    assert("SPELL_ABSORBED"@ != "COMBAT_LOG_VERSION"@) by {
        reveal_strlit("SPELL_ABSORBED");
        reveal_strlit("COMBAT_LOG_VERSION");
        assert("SPELL_ABSORBED"@.len() != "COMBAT_LOG_VERSION"@.len());
    }
    assert("SPELL_ABSORBED"@ != "ZONE_CHANGE"@) by {
        reveal_strlit("SPELL_ABSORBED");
        reveal_strlit("ZONE_CHANGE");
        assert("SPELL_ABSORBED"@.len() != "ZONE_CHANGE"@.len());
    }
    assert("SPELL_ABSORBED"@ != "MAP_CHANGE"@) by {
        reveal_strlit("SPELL_ABSORBED");
        reveal_strlit("MAP_CHANGE");
        assert("SPELL_ABSORBED"@.len() != "MAP_CHANGE"@.len());
    }
    assert("SPELL_ABSORBED"@ != "ENCOUNTER_START"@) by {
        reveal_strlit("SPELL_ABSORBED");
        reveal_strlit("ENCOUNTER_START");
        assert("SPELL_ABSORBED"@.len() != "ENCOUNTER_START"@.len());
    }
    assert("SPELL_ABSORBED"@ != "ENCOUNTER_END"@) by {
        reveal_strlit("SPELL_ABSORBED");
        reveal_strlit("ENCOUNTER_END");
        assert("SPELL_ABSORBED"@.len() != "ENCOUNTER_END"@.len());
    }
    assert("SPELL_ABSORBED"@ != "WORLD_MARKER_PLACED"@) by {
        reveal_strlit("SPELL_ABSORBED");
        reveal_strlit("WORLD_MARKER_PLACED");
        assert("SPELL_ABSORBED"@.len() != "WORLD_MARKER_PLACED"@.len());
    }
    assert("SPELL_ABSORBED"@ != "WORLD_MARKER_REMOVED"@) by {
        reveal_strlit("SPELL_ABSORBED");
        reveal_strlit("WORLD_MARKER_REMOVED");
        assert("SPELL_ABSORBED"@.len() != "WORLD_MARKER_REMOVED"@.len());
    }
    assert("SPELL_ABSORBED"@ != "EMOTE"@) by {
        reveal_strlit("SPELL_ABSORBED");
        reveal_strlit("EMOTE");
        assert("SPELL_ABSORBED"@.len() != "EMOTE"@.len());
    }
    assert("SPELL_ABSORBED"@ != "COMBATANT_INFO"@) by {
        reveal_strlit("SPELL_ABSORBED");
        reveal_strlit("COMBATANT_INFO");
        assert("SPELL_ABSORBED"@[0] != "COMBATANT_INFO"@[0]);
    }
    assert("SPELL_ABSORBED"@ != "CHALLENGE_MODE_START"@) by {
        reveal_strlit("SPELL_ABSORBED");
        reveal_strlit("CHALLENGE_MODE_START");
        assert("SPELL_ABSORBED"@.len() != "CHALLENGE_MODE_START"@.len());
    }
    assert("SPELL_ABSORBED"@ != "CHALLENGE_MODE_END"@) by {
        reveal_strlit("SPELL_ABSORBED");
        reveal_strlit("CHALLENGE_MODE_END");
        assert("SPELL_ABSORBED"@.len() != "CHALLENGE_MODE_END"@.len());
    }
    assert("SPELL_ABSORBED"@ != "DAMAGE_SPLIT"@) by {
        reveal_strlit("SPELL_ABSORBED");
        reveal_strlit("DAMAGE_SPLIT");
        assert("SPELL_ABSORBED"@.len() != "DAMAGE_SPLIT"@.len());
    }
    assert("SPELL_ABSORBED"@ != "DAMAGE_SHIELD"@) by {
        reveal_strlit("SPELL_ABSORBED");
        reveal_strlit("DAMAGE_SHIELD");
        assert("SPELL_ABSORBED"@.len() != "DAMAGE_SHIELD"@.len());
    }
    assert("SPELL_ABSORBED"@ != "DAMAGE_SHIELD_MISSED"@) by {
        reveal_strlit("SPELL_ABSORBED");
        reveal_strlit("DAMAGE_SHIELD_MISSED");
        assert("SPELL_ABSORBED"@.len() != "DAMAGE_SHIELD_MISSED"@.len());
    }
    assert("SPELL_ABSORBED"@ != "SWING_DAMAGE_LANDED_SUPPORT"@) by {
        reveal_strlit("SPELL_ABSORBED");
        reveal_strlit("SWING_DAMAGE_LANDED_SUPPORT");
        assert("SPELL_ABSORBED"@.len() != "SWING_DAMAGE_LANDED_SUPPORT"@.len());
    }
    assert(!starts_with("SPELL_ABSORBED"@, "SWING"@)) by {
        reveal_strlit("SPELL_ABSORBED");
        reveal_strlit("SWING");
        assert("SPELL_ABSORBED"@.subrange(0, 5)[1] != "SWING"@[1]);
    }
    assert(!starts_with("SPELL_ABSORBED"@, "RANGE"@)) by {
        reveal_strlit("SPELL_ABSORBED");
        reveal_strlit("RANGE");
        assert("SPELL_ABSORBED"@.subrange(0, 5)[0] != "RANGE"@[0]);
    }
    assert(!starts_with("SPELL_ABSORBED"@, "SPELL_PERIODIC"@)) by {
        reveal_strlit("SPELL_ABSORBED");
        reveal_strlit("SPELL_PERIODIC");
        assert("SPELL_ABSORBED"@.subrange(0, 14)[6] != "SPELL_PERIODIC"@[6]);
    }
    assert(!starts_with("SPELL_ABSORBED"@, "SPELL_BUILDING"@)) by {
        reveal_strlit("SPELL_ABSORBED");
        reveal_strlit("SPELL_BUILDING");
        assert("SPELL_ABSORBED"@.subrange(0, 14)[6] != "SPELL_BUILDING"@[6]);
    }
    assert(starts_with("SPELL_ABSORBED"@, "SPELL"@)) by {
        reveal_strlit("SPELL_ABSORBED");
        reveal_strlit("SPELL");
        assert("SPELL_ABSORBED"@.subrange(0, 5) =~= "SPELL"@);
    }
    assert(!ends_with("SPELL_ABSORBED"@, "_SUPPORT"@)) by {
        reveal_strlit("SPELL_ABSORBED");
        reveal_strlit("_SUPPORT");
        assert("SPELL_ABSORBED"@.subrange(6, 14)[0] != "_SUPPORT"@[0]);
    }
    assert(suffix_name("SPELL_ABSORBED"@) == "SPELL_ABSORBED"@);
    assert(!ends_with("SPELL_ABSORBED"@, "DURABILITY_DAMAGE_ALL"@)) by {
        reveal_strlit("SPELL_ABSORBED");
        reveal_strlit("DURABILITY_DAMAGE_ALL");
        assert("DURABILITY_DAMAGE_ALL"@.len() > "SPELL_ABSORBED"@.len());
    }
    assert(!ends_with("SPELL_ABSORBED"@, "DURABILITY_DAMAGE"@)) by {
        reveal_strlit("SPELL_ABSORBED");
        reveal_strlit("DURABILITY_DAMAGE");
        assert("DURABILITY_DAMAGE"@.len() > "SPELL_ABSORBED"@.len());
    }
    assert(!ends_with("SPELL_ABSORBED"@, "DAMAGE_LANDED"@)) by {
        reveal_strlit("SPELL_ABSORBED");
        reveal_strlit("DAMAGE_LANDED");
        assert("SPELL_ABSORBED"@.subrange(1, 14)[0] != "DAMAGE_LANDED"@[0]);
    }
    assert(!ends_with("SPELL_ABSORBED"@, "DAMAGE"@)) by {
        reveal_strlit("SPELL_ABSORBED");
        reveal_strlit("DAMAGE");
        assert("SPELL_ABSORBED"@.subrange(8, 14)[0] != "DAMAGE"@[0]);
    }
    assert(!ends_with("SPELL_ABSORBED"@, "MISSED"@)) by {
        reveal_strlit("SPELL_ABSORBED");
        reveal_strlit("MISSED");
        assert("SPELL_ABSORBED"@.subrange(8, 14)[0] != "MISSED"@[0]);
    }
    assert(!ends_with("SPELL_ABSORBED"@, "HEAL_ABSORBED"@)) by {
        reveal_strlit("SPELL_ABSORBED");
        reveal_strlit("HEAL_ABSORBED");
        assert("SPELL_ABSORBED"@.subrange(1, 14)[0] != "HEAL_ABSORBED"@[0]);
    }
    assert(!ends_with("SPELL_ABSORBED"@, "HEAL"@)) by {
        reveal_strlit("SPELL_ABSORBED");
        reveal_strlit("HEAL");
        assert("SPELL_ABSORBED"@.subrange(10, 14)[0] != "HEAL"@[0]);
    }
    assert(ends_with("SPELL_ABSORBED"@, "ABSORBED"@)) by {
        reveal_strlit("SPELL_ABSORBED");
        reveal_strlit("ABSORBED");
        assert("SPELL_ABSORBED"@.subrange(6, 14) =~= "ABSORBED"@);
    }
}

proof fn lemma_absorbed_support_name()
    ensures
        special_kind_of("SPELL_ABSORBED_SUPPORT"@) is None,
        dispatch_name_of("SPELL_ABSORBED_SUPPORT"@) == "SPELL_ABSORBED_SUPPORT"@,
        prefix_kind_of("SPELL_ABSORBED_SUPPORT"@) == Some(PrefixKind::Spell),
        suffix_kind_of("SPELL_ABSORBED_SUPPORT"@) == Some(SuffixKind::Absorbed),
{
    assert("SPELL_ABSORBED_SUPPORT"@ != "ENCHANT_APPLIED"@) by {
        reveal_strlit("SPELL_ABSORBED_SUPPORT");
        reveal_strlit("ENCHANT_APPLIED");
        assert("SPELL_ABSORBED_SUPPORT"@.len() != "ENCHANT_APPLIED"@.len());
    }
    assert("SPELL_ABSORBED_SUPPORT"@ != "ENCHANT_REMOVED"@) by {
        reveal_strlit("SPELL_ABSORBED_SUPPORT");
        reveal_strlit("ENCHANT_REMOVED");
        assert("SPELL_ABSORBED_SUPPORT"@.len() != "ENCHANT_REMOVED"@.len());
    }
    assert("SPELL_ABSORBED_SUPPORT"@ != "PARTY_KILL"@) by {
        reveal_strlit("SPELL_ABSORBED_SUPPORT");
        reveal_strlit("PARTY_KILL");
        assert("SPELL_ABSORBED_SUPPORT"@.len() != "PARTY_KILL"@.len());
    }
    assert("SPELL_ABSORBED_SUPPORT"@ != "UNIT_DIED"@) by {
        reveal_strlit("SPELL_ABSORBED_SUPPORT");
        reveal_strlit("UNIT_DIED");
        assert("SPELL_ABSORBED_SUPPORT"@.len() != "UNIT_DIED"@.len());
    }
    assert("SPELL_ABSORBED_SUPPORT"@ != "UNIT_DESTROYED"@) by {
        reveal_strlit("SPELL_ABSORBED_SUPPORT");
        reveal_strlit("UNIT_DESTROYED");
        assert("SPELL_ABSORBED_SUPPORT"@.len() != "UNIT_DESTROYED"@.len());
    }
    assert("SPELL_ABSORBED_SUPPORT"@ != "UNIT_DISSIPATES"@) by {
        reveal_strlit("SPELL_ABSORBED_SUPPORT");
        reveal_strlit("UNIT_DISSIPATES");
        assert("SPELL_ABSORBED_SUPPORT"@.len() != "UNIT_DISSIPATES"@.len());
    }
    assert("SPELL_ABSORBED_SUPPORT"@ != "COMBAT_LOG_VERSION"@) by {
        reveal_strlit("SPELL_ABSORBED_SUPPORT");
        reveal_strlit("COMBAT_LOG_VERSION");
        assert("SPELL_ABSORBED_SUPPORT"@.len() != "COMBAT_LOG_VERSION"@.len());
    }
    assert("SPELL_ABSORBED_SUPPORT"@ != "ZONE_CHANGE"@) by {
        reveal_strlit("SPELL_ABSORBED_SUPPORT");
        reveal_strlit("ZONE_CHANGE");
        assert("SPELL_ABSORBED_SUPPORT"@.len() != "ZONE_CHANGE"@.len());
    }
    assert("SPELL_ABSORBED_SUPPORT"@ != "MAP_CHANGE"@) by {
        reveal_strlit("SPELL_ABSORBED_SUPPORT");
        reveal_strlit("MAP_CHANGE");
        assert("SPELL_ABSORBED_SUPPORT"@.len() != "MAP_CHANGE"@.len());
    }
    assert("SPELL_ABSORBED_SUPPORT"@ != "ENCOUNTER_START"@) by {
        reveal_strlit("SPELL_ABSORBED_SUPPORT");
        reveal_strlit("ENCOUNTER_START");
        assert("SPELL_ABSORBED_SUPPORT"@.len() != "ENCOUNTER_START"@.len());
    }
    assert("SPELL_ABSORBED_SUPPORT"@ != "ENCOUNTER_END"@) by {
        reveal_strlit("SPELL_ABSORBED_SUPPORT");
        reveal_strlit("ENCOUNTER_END");
        assert("SPELL_ABSORBED_SUPPORT"@.len() != "ENCOUNTER_END"@.len());
    }
    assert("SPELL_ABSORBED_SUPPORT"@ != "WORLD_MARKER_PLACED"@) by {
        reveal_strlit("SPELL_ABSORBED_SUPPORT");
        reveal_strlit("WORLD_MARKER_PLACED");
        assert("SPELL_ABSORBED_SUPPORT"@.len() != "WORLD_MARKER_PLACED"@.len());
    }
    assert("SPELL_ABSORBED_SUPPORT"@ != "WORLD_MARKER_REMOVED"@) by {
        reveal_strlit("SPELL_ABSORBED_SUPPORT");
        reveal_strlit("WORLD_MARKER_REMOVED");
        assert("SPELL_ABSORBED_SUPPORT"@.len() != "WORLD_MARKER_REMOVED"@.len());
    }
    assert("SPELL_ABSORBED_SUPPORT"@ != "EMOTE"@) by {
        reveal_strlit("SPELL_ABSORBED_SUPPORT");
        reveal_strlit("EMOTE");
        assert("SPELL_ABSORBED_SUPPORT"@.len() != "EMOTE"@.len());
    }
    assert("SPELL_ABSORBED_SUPPORT"@ != "COMBATANT_INFO"@) by {
        reveal_strlit("SPELL_ABSORBED_SUPPORT");
        reveal_strlit("COMBATANT_INFO");
        assert("SPELL_ABSORBED_SUPPORT"@.len() != "COMBATANT_INFO"@.len());
    }
    assert("SPELL_ABSORBED_SUPPORT"@ != "CHALLENGE_MODE_START"@) by {
        reveal_strlit("SPELL_ABSORBED_SUPPORT");
        reveal_strlit("CHALLENGE_MODE_START");
        assert("SPELL_ABSORBED_SUPPORT"@.len() != "CHALLENGE_MODE_START"@.len());
    }
    assert("SPELL_ABSORBED_SUPPORT"@ != "CHALLENGE_MODE_END"@) by {
        reveal_strlit("SPELL_ABSORBED_SUPPORT");
        reveal_strlit("CHALLENGE_MODE_END");
        assert("SPELL_ABSORBED_SUPPORT"@.len() != "CHALLENGE_MODE_END"@.len());
    }
    assert("SPELL_ABSORBED_SUPPORT"@ != "DAMAGE_SPLIT"@) by {
        reveal_strlit("SPELL_ABSORBED_SUPPORT");
        reveal_strlit("DAMAGE_SPLIT");
        assert("SPELL_ABSORBED_SUPPORT"@.len() != "DAMAGE_SPLIT"@.len());
    }
    assert("SPELL_ABSORBED_SUPPORT"@ != "DAMAGE_SHIELD"@) by {
        reveal_strlit("SPELL_ABSORBED_SUPPORT");
        reveal_strlit("DAMAGE_SHIELD");
        assert("SPELL_ABSORBED_SUPPORT"@.len() != "DAMAGE_SHIELD"@.len());
    }
    assert("SPELL_ABSORBED_SUPPORT"@ != "DAMAGE_SHIELD_MISSED"@) by {
        reveal_strlit("SPELL_ABSORBED_SUPPORT");
        reveal_strlit("DAMAGE_SHIELD_MISSED");
        assert("SPELL_ABSORBED_SUPPORT"@.len() != "DAMAGE_SHIELD_MISSED"@.len());
    }
    assert("SPELL_ABSORBED_SUPPORT"@ != "SWING_DAMAGE_LANDED_SUPPORT"@) by {
        reveal_strlit("SPELL_ABSORBED_SUPPORT");
        reveal_strlit("SWING_DAMAGE_LANDED_SUPPORT");
        assert("SPELL_ABSORBED_SUPPORT"@.len() != "SWING_DAMAGE_LANDED_SUPPORT"@.len());
    }
    assert(!starts_with("SPELL_ABSORBED_SUPPORT"@, "SWING"@)) by {
        reveal_strlit("SPELL_ABSORBED_SUPPORT");
        reveal_strlit("SWING");
        assert("SPELL_ABSORBED_SUPPORT"@.subrange(0, 5)[1] != "SWING"@[1]);
    }
    assert(!starts_with("SPELL_ABSORBED_SUPPORT"@, "RANGE"@)) by {
        reveal_strlit("SPELL_ABSORBED_SUPPORT");
        reveal_strlit("RANGE");
        assert("SPELL_ABSORBED_SUPPORT"@.subrange(0, 5)[0] != "RANGE"@[0]);
    }
    assert(!starts_with("SPELL_ABSORBED_SUPPORT"@, "SPELL_PERIODIC"@)) by {
        reveal_strlit("SPELL_ABSORBED_SUPPORT");
        reveal_strlit("SPELL_PERIODIC");
        assert("SPELL_ABSORBED_SUPPORT"@.subrange(0, 14)[6] != "SPELL_PERIODIC"@[6]);
    }
    assert(!starts_with("SPELL_ABSORBED_SUPPORT"@, "SPELL_BUILDING"@)) by {
        reveal_strlit("SPELL_ABSORBED_SUPPORT");
        reveal_strlit("SPELL_BUILDING");
        assert("SPELL_ABSORBED_SUPPORT"@.subrange(0, 14)[6] != "SPELL_BUILDING"@[6]);
    }
    assert(starts_with("SPELL_ABSORBED_SUPPORT"@, "SPELL"@)) by {
        reveal_strlit("SPELL_ABSORBED_SUPPORT");
        reveal_strlit("SPELL");
        assert("SPELL_ABSORBED_SUPPORT"@.subrange(0, 5) =~= "SPELL"@);
    }
    assert(ends_with("SPELL_ABSORBED_SUPPORT"@, "_SUPPORT"@)) by {
        reveal_strlit("SPELL_ABSORBED_SUPPORT");
        reveal_strlit("_SUPPORT");
        assert("SPELL_ABSORBED_SUPPORT"@.subrange(14, 22) =~= "_SUPPORT"@);
    }
    assert(suffix_name("SPELL_ABSORBED_SUPPORT"@) == "SPELL_ABSORBED"@) by {
        reveal_strlit("SPELL_ABSORBED_SUPPORT");
        reveal_strlit("SPELL_ABSORBED");
        assert("SPELL_ABSORBED_SUPPORT"@.subrange(0, 14) =~= "SPELL_ABSORBED"@);
    }
    assert(!ends_with("SPELL_ABSORBED"@, "DURABILITY_DAMAGE_ALL"@)) by {
        reveal_strlit("SPELL_ABSORBED");
        reveal_strlit("DURABILITY_DAMAGE_ALL");
        assert("DURABILITY_DAMAGE_ALL"@.len() > "SPELL_ABSORBED"@.len());
    }
    assert(!ends_with("SPELL_ABSORBED"@, "DURABILITY_DAMAGE"@)) by {
        reveal_strlit("SPELL_ABSORBED");
        reveal_strlit("DURABILITY_DAMAGE");
        assert("DURABILITY_DAMAGE"@.len() > "SPELL_ABSORBED"@.len());
    }
    assert(!ends_with("SPELL_ABSORBED"@, "DAMAGE_LANDED"@)) by {
        reveal_strlit("SPELL_ABSORBED");
        reveal_strlit("DAMAGE_LANDED");
        assert("SPELL_ABSORBED"@.subrange(1, 14)[0] != "DAMAGE_LANDED"@[0]);
    }
    assert(!ends_with("SPELL_ABSORBED"@, "DAMAGE"@)) by {
        reveal_strlit("SPELL_ABSORBED");
        reveal_strlit("DAMAGE");
        assert("SPELL_ABSORBED"@.subrange(8, 14)[0] != "DAMAGE"@[0]);
    }
    assert(!ends_with("SPELL_ABSORBED"@, "MISSED"@)) by {
        reveal_strlit("SPELL_ABSORBED");
        reveal_strlit("MISSED");
        assert("SPELL_ABSORBED"@.subrange(8, 14)[0] != "MISSED"@[0]);
    }
    assert(!ends_with("SPELL_ABSORBED"@, "HEAL_ABSORBED"@)) by {
        reveal_strlit("SPELL_ABSORBED");
        reveal_strlit("HEAL_ABSORBED");
        assert("SPELL_ABSORBED"@.subrange(1, 14)[0] != "HEAL_ABSORBED"@[0]);
    }
    assert(!ends_with("SPELL_ABSORBED"@, "HEAL"@)) by {
        reveal_strlit("SPELL_ABSORBED");
        reveal_strlit("HEAL");
        assert("SPELL_ABSORBED"@.subrange(10, 14)[0] != "HEAL"@[0]);
    }
    assert(ends_with("SPELL_ABSORBED"@, "ABSORBED"@)) by {
        reveal_strlit("SPELL_ABSORBED");
        reveal_strlit("ABSORBED");
        assert("SPELL_ABSORBED"@.subrange(6, 14) =~= "ABSORBED"@);
    }
}

proof fn lemma_emote_name()
    ensures
        special_kind_of("EMOTE"@) == Some(SpecialKind::Emote),
{
    assert("EMOTE"@ != "ENCHANT_APPLIED"@) by {
        reveal_strlit("EMOTE");
        reveal_strlit("ENCHANT_APPLIED");
        assert("EMOTE"@.len() != "ENCHANT_APPLIED"@.len());
    }
    assert("EMOTE"@ != "ENCHANT_REMOVED"@) by {
        reveal_strlit("EMOTE");
        reveal_strlit("ENCHANT_REMOVED");
        assert("EMOTE"@.len() != "ENCHANT_REMOVED"@.len());
    }
    assert("EMOTE"@ != "PARTY_KILL"@) by {
        reveal_strlit("EMOTE");
        reveal_strlit("PARTY_KILL");
        assert("EMOTE"@.len() != "PARTY_KILL"@.len());
    }
    assert("EMOTE"@ != "UNIT_DIED"@) by {
        reveal_strlit("EMOTE");
        reveal_strlit("UNIT_DIED");
        assert("EMOTE"@.len() != "UNIT_DIED"@.len());
    }
    assert("EMOTE"@ != "UNIT_DESTROYED"@) by {
        reveal_strlit("EMOTE");
        reveal_strlit("UNIT_DESTROYED");
        assert("EMOTE"@.len() != "UNIT_DESTROYED"@.len());
    }
    assert("EMOTE"@ != "UNIT_DISSIPATES"@) by {
        reveal_strlit("EMOTE");
        reveal_strlit("UNIT_DISSIPATES");
        assert("EMOTE"@.len() != "UNIT_DISSIPATES"@.len());
    }
    assert("EMOTE"@ != "COMBAT_LOG_VERSION"@) by {
        reveal_strlit("EMOTE");
        reveal_strlit("COMBAT_LOG_VERSION");
        assert("EMOTE"@.len() != "COMBAT_LOG_VERSION"@.len());
    }
    assert("EMOTE"@ != "ZONE_CHANGE"@) by {
        reveal_strlit("EMOTE");
        reveal_strlit("ZONE_CHANGE");
        assert("EMOTE"@.len() != "ZONE_CHANGE"@.len());
    }
    assert("EMOTE"@ != "MAP_CHANGE"@) by {
        reveal_strlit("EMOTE");
        reveal_strlit("MAP_CHANGE");
        assert("EMOTE"@.len() != "MAP_CHANGE"@.len());
    }
    assert("EMOTE"@ != "ENCOUNTER_START"@) by {
        reveal_strlit("EMOTE");
        reveal_strlit("ENCOUNTER_START");
        assert("EMOTE"@.len() != "ENCOUNTER_START"@.len());
    }
    assert("EMOTE"@ != "ENCOUNTER_END"@) by {
        reveal_strlit("EMOTE");
        reveal_strlit("ENCOUNTER_END");
        assert("EMOTE"@.len() != "ENCOUNTER_END"@.len());
    }
    assert("EMOTE"@ != "WORLD_MARKER_PLACED"@) by {
        reveal_strlit("EMOTE");
        reveal_strlit("WORLD_MARKER_PLACED");
        assert("EMOTE"@.len() != "WORLD_MARKER_PLACED"@.len());
    }
    assert("EMOTE"@ != "WORLD_MARKER_REMOVED"@) by {
        reveal_strlit("EMOTE");
        reveal_strlit("WORLD_MARKER_REMOVED");
        assert("EMOTE"@.len() != "WORLD_MARKER_REMOVED"@.len());
    }
}

/// An `ENVIRONMENTAL_DAMAGE` event reads its advanced block from fields 8
/// to 24, before its one-field environmental prefix at field 25; its suffix
/// begins at field 26. Every other standard event reads its prefix first.
pub proof fn lemma_environmental_damage_order(l: Seq<&str>, v: EventType)
    requires
        event_type_ok("ENVIRONMENTAL_DAMAGE"@, l),
        event_type_is("ENVIRONMENTAL_DAMAGE"@, l, v),
    ensures
        v matches EventType::Standard { prefix, advanced_params, .. } && (prefix matches Prefix::Environmental(t)
            && environmental_type_of(l[25]@) == Some(t)) && (advanced_params matches Some(a)
            && advanced_is(l.subrange(8, 25), a)),
        suffix_start("ENVIRONMENTAL_DAMAGE"@, l) == 26,
{
    lemma_environmental_damage_name();
    assert(l.subrange(25, 26)[0] == l[25]);
}

/// A `SPELL_ABSORBED` (or `SPELL_ABSORBED_SUPPORT`) event whose field after
/// the two actor blocks is no number has the prefix `Spell(None)` and takes
/// no prefix field; one whose field there is a number has `Spell(Some(..))`
/// read from fields 8 to 10, and takes three.
pub proof fn lemma_absorbed_spell_prefix(name: Seq<char>, l: Seq<&str>, v: EventType)
    requires
        name == "SPELL_ABSORBED"@ || name == "SPELL_ABSORBED_SUPPORT"@,
        event_type_ok(name, l),
        event_type_is(name, l, v),
    ensures
        u64_of(l[8]@) is None ==> (v matches EventType::Standard { prefix, .. } && prefix matches Prefix::Spell(None))
            && suffix_start(name, l) == 8,
        u64_of(l[8]@) is Some ==> (v matches EventType::Standard { prefix, .. } && prefix matches Prefix::Spell(Some(s))
            && spell_info_is(l.subrange(8, 11), s)) && suffix_start(name, l) == 11,
{
    if name == "SPELL_ABSORBED"@ {
        lemma_absorbed_name();
    } else {
        lemma_absorbed_support_name();
    }
}

/// An `EMOTE` whose third field is a GUID decodes as an emote between two
/// identities; one whose third field is no GUID (such as `nil`) decodes as
/// an emote of one actor.
pub proof fn lemma_emote_kind(l: Seq<&str>, v: EventType)
    requires
        event_type_is("EMOTE"@, l, v),
    ensures
        guid_ok(l[2]@) ==> (v matches EventType::Special { details, .. } && details is EmoteEnvironmental),
        !guid_ok(l[2]@) ==> (v matches EventType::Special { details, .. } && details is EmoteStandard),
{
    lemma_emote_name();
}

/// Two decodings of one line, each as `Event::parse_in_year` states it,
/// agree on whether the line decodes and, where it does, on its timestamp
/// and on the name and kind of its event.
pub proof fn lemma_decoding_is_deterministic(
    l: Seq<&str>,
    y: i32,
    a: Result<Event, LineError>,
    b: Result<Event, LineError>,
)
    requires
        a is Ok <==> event_ok(l, y),
        a matches Ok(e) ==> event_is(l, y, e),
        b is Ok <==> event_ok(l, y),
        b matches Ok(e) ==> event_is(l, y, e),
    ensures
        a is Ok <==> b is Ok,
        a is Ok ==> a->Ok_0.timestamp == b->Ok_0.timestamp,
        a is Ok ==> event_name(a->Ok_0.event_type)@ == event_name(b->Ok_0.event_type)@,
        a is Ok ==> (a->Ok_0.event_type is Special <==> b->Ok_0.event_type is Special),
{
}

/// The name that an event records.
pub open spec fn event_name(t: EventType) -> String {
    match t {
        EventType::Special { name, .. } => name,
        EventType::Standard { name, .. } => name,
    }
}

} // verus!
