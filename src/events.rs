use vstd::prelude::*;

use crate::advanced::{advanced_is, advanced_ok, AdvancedParams, ADVANCED_FIELDS};
use crate::common::{actor_is, actor_ok, Actor};
use crate::error::ParseError;
use crate::prefixes::{prefix_is, prefix_kind_of, prefix_ok, prefix_width, Prefix};
use crate::special::{special_is, special_kind_of, special_ok, Special};
use crate::suffixes::{kind_has_advanced, suffix_is, suffix_kind_of, suffix_ok, Suffix};
use crate::text::{parse_unsigned, str_eq, u64_of};
use crate::timestamp::{timestamp_of, Timestamp, DEFAULT_YEAR};

verus! {

/// What one line records.
#[derive(Debug, Clone)]
pub enum EventType {
    Special { name: String, details: Special },
    Standard {
        name: String,
        source: Option<Actor>,
        target: Option<Actor>,
        prefix: Prefix,
        advanced_params: Option<AdvancedParams>,
        suffix: Suffix,
    },
}

/// One decoded line: when, and what.
#[derive(Debug, Clone)]
pub struct Event {
    pub timestamp: Timestamp,
    pub event_type: EventType,
}

/// A line that could not be decoded: its fields, and why.
#[derive(Debug, Clone)]
pub struct LineError {
    pub fields: Vec<String>,
    pub cause: ParseError,
}

/// The name whose shapes an event is decoded by: four events reuse the
/// shapes of another.
pub open spec fn dispatch_name_of(name: Seq<char>) -> Seq<char> {
    if name == "DAMAGE_SPLIT"@ || name == "DAMAGE_SHIELD"@ {
        "SPELL_DAMAGE"@
    } else if name == "DAMAGE_SHIELD_MISSED"@ {
        "SPELL_MISSED"@
    } else if name == "SWING_DAMAGE_LANDED_SUPPORT"@ {
        "SPELL_DAMAGE_SUPPORT"@
    } else {
        name
    }
}

/// An absorb event whose field after the two actors is no number carries
/// no spell.
pub open spec fn absorb_without_spell(d: Seq<char>, l: Seq<&str>) -> bool {
    (d == "SPELL_ABSORBED"@ || d == "SPELL_ABSORBED_SUPPORT"@) && (l.len() <= 8 || u64_of(l[8]@)
        is None)
}

/// The number of prefix fields of a standard event other than
/// `ENVIRONMENTAL_DAMAGE`.
pub open spec fn prefix_fields(d: Seq<char>, l: Seq<&str>) -> int {
    if absorb_without_spell(d, l) {
        0
    } else {
        prefix_width(prefix_kind_of(d).unwrap()) as int
    }
}

/// Where the suffix begins.
pub open spec fn suffix_start(name: Seq<char>, l: Seq<&str>) -> int {
    let d = dispatch_name_of(name);
    if name == "ENVIRONMENTAL_DAMAGE"@ {
        26
    } else if kind_has_advanced(suffix_kind_of(d).unwrap()) {
        8 + prefix_fields(d, l) + 17
    } else {
        8 + prefix_fields(d, l)
    }
}

/// The fields `l` decode as a standard event named `name`: two actors,
/// a prefix, an advanced block where the suffix has one, and a suffix.
/// `ENVIRONMENTAL_DAMAGE` holds its advanced block before its prefix.
pub open spec fn standard_ok(name: Seq<char>, l: Seq<&str>) -> bool {
    let d = dispatch_name_of(name);
    let w = prefix_fields(d, l);
    &&& l.len() >= 8
    &&& actor_ok(l.subrange(0, 4))
    &&& actor_ok(l.subrange(4, 8))
    &&& prefix_kind_of(d) is Some
    &&& suffix_kind_of(d) is Some
    &&& if name == "ENVIRONMENTAL_DAMAGE"@ {
        &&& l.len() >= 26
        &&& prefix_ok(prefix_kind_of(d).unwrap(), l.subrange(25, 26))
        &&& advanced_ok(l.subrange(8, 25))
    } else {
        &&& l.len() >= 8 + w
        &&& prefix_ok(prefix_kind_of(d).unwrap(), l.subrange(8, 8 + w))
        &&& kind_has_advanced(suffix_kind_of(d).unwrap()) ==> l.len() >= 8 + w + 17 && advanced_ok(
            l.subrange(8 + w, 8 + w + 17),
        )
    }
    &&& suffix_ok(suffix_kind_of(d).unwrap(), l.subrange(suffix_start(name, l), l.len() as int))
}

/// `v` is the standard event named `name` that the fields `l` hold.
pub open spec fn standard_is(name: Seq<char>, l: Seq<&str>, v: EventType) -> bool {
    let d = dispatch_name_of(name);
    let w = prefix_fields(d, l);
    v matches EventType::Standard { name: n, source, target, prefix, advanced_params, suffix }
        && n@ == name && actor_is(l.subrange(0, 4), source) && actor_is(l.subrange(4, 8), target)
        && (if name == "ENVIRONMENTAL_DAMAGE"@ {
        prefix_is(prefix_kind_of(d).unwrap(), l.subrange(25, 26), prefix) && (
        advanced_params matches Some(a) && advanced_is(l.subrange(8, 25), a))
    } else {
        prefix_is(prefix_kind_of(d).unwrap(), l.subrange(8, 8 + w), prefix) && (if kind_has_advanced(
            suffix_kind_of(d).unwrap(),
        ) {
            (advanced_params matches Some(a) && advanced_is(l.subrange(8 + w, 8 + w + 17), a))
        } else {
            advanced_params is None
        })
    }) && suffix_is(
        suffix_kind_of(d).unwrap(),
        l.subrange(suffix_start(name, l), l.len() as int),
        suffix,
    )
}

/// The fields after the event name decode as the event `name`: as its
/// special record where it has one, else as a standard event.
pub open spec fn event_type_ok(name: Seq<char>, l: Seq<&str>) -> bool {
    match special_kind_of(name) {
        Some(k) => special_ok(k, l),
        None => standard_ok(name, l),
    }
}

pub open spec fn event_type_is(name: Seq<char>, l: Seq<&str>, v: EventType) -> bool {
    match special_kind_of(name) {
        Some(k) => v matches EventType::Special { name: n, details } && n@ == name && special_is(
            k,
            l,
            details,
        ),
        None => standard_is(name, l, v),
    }
}

fn dispatch_name(name: &str) -> (r: &'static str)
    requires
        dispatch_name_of(name@) != name@,
    ensures
        r@ == dispatch_name_of(name@),
{
    if str_eq(name, "DAMAGE_SPLIT") || str_eq(name, "DAMAGE_SHIELD") {
        "SPELL_DAMAGE"
    } else if str_eq(name, "DAMAGE_SHIELD_MISSED") {
        "SPELL_MISSED"
    } else {
        "SPELL_DAMAGE_SUPPORT"
    }
}

fn is_renamed(name: &str) -> (r: bool)
    ensures
        r == (dispatch_name_of(name@) != name@),
{
    proof {
        reveal_strlit("DAMAGE_SPLIT");
        reveal_strlit("DAMAGE_SHIELD");
        reveal_strlit("DAMAGE_SHIELD_MISSED");
        reveal_strlit("SWING_DAMAGE_LANDED_SUPPORT");
        reveal_strlit("SPELL_DAMAGE");
        reveal_strlit("SPELL_MISSED");
        reveal_strlit("SPELL_DAMAGE_SUPPORT");
    }
    let r = str_eq(name, "DAMAGE_SPLIT") || str_eq(name, "DAMAGE_SHIELD") || str_eq(
        name,
        "DAMAGE_SHIELD_MISSED",
    ) || str_eq(name, "SWING_DAMAGE_LANDED_SUPPORT");
    if !r {
        assert(dispatch_name_of(name@) == name@);
    } else {
        assert(name@ =~= "DAMAGE_SPLIT"@ || name@ =~= "DAMAGE_SHIELD"@ || name@
            =~= "DAMAGE_SHIELD_MISSED"@ || name@ =~= "SWING_DAMAGE_LANDED_SUPPORT"@);
        assert(dispatch_name_of(name@) != name@) by {
            if name@ =~= "DAMAGE_SPLIT"@ || name@ =~= "DAMAGE_SHIELD"@ {
                assert(name@.len() != "SPELL_DAMAGE"@.len() || name@[0] != "SPELL_DAMAGE"@[0]);
            } else if name@ =~= "DAMAGE_SHIELD_MISSED"@ {
                assert(name@[0] != "SPELL_MISSED"@[0]);
            } else {
                assert(name@[1] != "SPELL_DAMAGE_SUPPORT"@[1]);
            }
        }
    }
    r
}

fn field_count(l: &[&str], wanted: usize) -> (r: Result<(), ParseError>)
    ensures
        r is Ok <==> l@.len() >= wanted,
{
    if l.len() < wanted {
        Err(ParseError::FieldCount { wanted, found: l.len() })
    } else {
        Ok(())
    }
}

fn standard_event(name: &str, d: &str, line: &[&str]) -> (r: Result<EventType, ParseError>)
    requires
        d@ == dispatch_name_of(name@),
    ensures
        r is Ok <==> standard_ok(name@, line@),
        r matches Ok(v) ==> standard_is(name@, line@, v),
{
    field_count(line, 8)?;
    let source = Actor::parse(&line[0..4])?;
    let target = Actor::parse(&line[4..8])?;
    let (prefix, advanced_params, offset) = if str_eq(name, "ENVIRONMENTAL_DAMAGE") {
        field_count(line, 26)?;
        let prefix = Prefix::parse(d, &line[25..26])?;
        let advanced = AdvancedParams::parse(&line[8..25])?;
        (prefix, Some(advanced), 26usize)
    } else {
        let absorb = str_eq(d, "SPELL_ABSORBED") || str_eq(d, "SPELL_ABSORBED_SUPPORT");
        let no_spell = absorb && (line.len() <= 8 || parse_unsigned(line[8], 10, u64::MAX).is_none());
        let width = if no_spell {
            0
        } else {
            Prefix::entries_to_consume(d)?
        };
        assert(width == prefix_fields(d@, line@));
        field_count(line, 8 + width)?;
        let prefix = Prefix::parse(d, &line[8..8 + width])?;
        let mut offset = 8 + width;
        let advanced = if Suffix::has_advanced_params(d)? {
            if line.len() < offset + ADVANCED_FIELDS {
                return Err(
                    ParseError::FieldCount { wanted: offset + ADVANCED_FIELDS, found: line.len() },
                );
            }
            let a = AdvancedParams::parse(&line[offset..offset + ADVANCED_FIELDS])?;
            offset = offset + ADVANCED_FIELDS;
            Some(a)
        } else {
            None
        };
        (prefix, advanced, offset)
    };
    assert(offset == suffix_start(name@, line@));
    let suffix = Suffix::parse(d, &line[offset..line.len()])?;
    Ok(
        EventType::Standard {
            name: name.to_owned(),
            source,
            target,
            prefix,
            advanced_params,
            suffix,
        },
    )
}

impl EventType {
    /// Decodes the fields after the event name: as a special record where
    /// the name has one, else as a standard event.
    pub fn parse(event_type: &str, line: &[&str]) -> (r: Result<EventType, ParseError>)
        ensures
            r is Ok <==> event_type_ok(event_type@, line@),
            r matches Ok(v) ==> event_type_is(event_type@, line@, v),
    {
        let special = Special::parse(event_type, line)?;
        match special {
            Special::NoneSentinel => {},
            details => {
                return Ok(EventType::Special { name: event_type.to_owned(), details });
            },
        }
        if is_renamed(event_type) {
            standard_event(event_type, dispatch_name(event_type), line)
        } else {
            standard_event(event_type, event_type, line)
        }
    }
}

/// Two spaces stand at `i` in `s`.
pub open spec fn double_space_at(s: Seq<char>, i: int) -> bool {
    0 <= i && i + 1 < s.len() && s[i] == ' ' && s[i + 1] == ' '
}

/// `i` is where the first two spaces of `s` stand.
pub open spec fn is_first_double_space(s: Seq<char>, i: int) -> bool {
    double_space_at(s, i) && forall|j: int| 0 <= j < i ==> !#[trigger] double_space_at(s, j)
}

/// Where the timestamp of a first field ends and the event name begins.
pub open spec fn split_point(s: Seq<char>) -> Option<int> {
    if exists|i: int| is_first_double_space(s, i) {
        Some(choose|i: int| is_first_double_space(s, i))
    } else {
        None
    }
}

proof fn lemma_first_double_space_unique(s: Seq<char>, i: int, j: int)
    requires
        is_first_double_space(s, i),
        is_first_double_space(s, j),
    ensures
        i == j,
{
    if i < j {
        assert(!double_space_at(s, i));
    } else if j < i {
        assert(!double_space_at(s, j));
    }
}

/// The text of the version line that carries no timestamp.
pub open spec fn version_sentinel() -> Seq<char> {
    "COMBAT_LOG_VERSION"@
}

/// The timestamp text and the event name of a first field.
pub open spec fn head_parts(s: Seq<char>) -> Option<(Seq<char>, Seq<char>)> {
    match split_point(s) {
        Some(p) => Some((s.subrange(0, p), s.subrange(p + 2, s.len() as int))),
        None => None,
    }
}

/// The line decodes, with timestamps read in year `y`.
pub open spec fn event_ok(l: Seq<&str>, y: i32) -> bool {
    l.len() >= 1 && (if l[0]@ == version_sentinel() {
        event_type_ok(l[0]@, l.drop_first())
    } else {
        head_parts(l[0]@) matches Some(h) && timestamp_of(h.0, y) is Some && event_type_ok(
            h.1,
            l.drop_first(),
        )
    })
}

/// `e` is what the line `l` decodes to, with timestamps read in year `y`.
pub open spec fn event_is(l: Seq<&str>, y: i32, e: Event) -> bool {
    if l[0]@ == version_sentinel() {
        e.timestamp == (Timestamp {
            year: DEFAULT_YEAR,
            month: 1,
            day: 1,
            hour: 0,
            minute: 0,
            second: 0,
            millisecond: 0,
        }) && event_type_is(l[0]@, l.drop_first(), e.event_type)
    } else {
        let h = head_parts(l[0]@).unwrap();
        timestamp_of(h.0, y) == Some(e.timestamp) && event_type_is(
            h.1,
            l.drop_first(),
            e.event_type,
        )
    }
}

/// The error carries the fields of the line it is about.
pub open spec fn error_names_line(e: LineError, l: Seq<&str>) -> bool {
    e.fields@.len() == l.len() && forall|i: int|
        0 <= i < l.len() ==> (#[trigger] e.fields@[i])@ == l[i]@
}

fn find_double_space(s: &str) -> (r: Option<usize>)
    ensures
        r matches Some(i) ==> is_first_double_space(s@, i as int),
        r is None ==> forall|j: int| !#[trigger] double_space_at(s@, j),
{
    let n = s.unicode_len();
    if n < 2 {
        return None;
    }
    let mut i: usize = 0;
    while i < n - 1
        invariant
            n == s@.len(),
            n >= 2,
            0 <= i <= n - 1,
            forall|j: int| 0 <= j < i ==> !#[trigger] double_space_at(s@, j),
        decreases n - i,
    {
        if s.get_char(i) == ' ' && s.get_char(i + 1) == ' ' {
            return Some(i);
        }
        i = i + 1;
    }
    None
}

fn line_fields(line: &[&str]) -> (r: Vec<String>)
    ensures
        r@.len() == line@.len(),
        forall|i: int| 0 <= i < line@.len() ==> (#[trigger] r@[i])@ == line@[i]@,
{
    let mut out: Vec<String> = Vec::new();
    let mut i: usize = 0;
    while i < line.len()
        invariant
            0 <= i <= line@.len(),
            out@.len() == i,
            forall|k: int| 0 <= k < i ==> (#[trigger] out@[k])@ == line@[k]@,
        decreases line@.len() - i,
    {
        out.push(line[i].to_owned());
        i = i + 1;
    }
    out
}

fn line_error(line: &[&str], cause: ParseError) -> (r: LineError)
    ensures
        error_names_line(r, line@),
        r.cause == cause,
{
    LineError { fields: line_fields(line), cause }
}

impl Event {
    /// Decodes one line whose first field holds the timestamp and the event
    /// name, two spaces apart; the timestamp is read in year `year`.
    pub fn parse_in_year(line: &[&str], year: i32) -> (r: Result<Event, LineError>)
        ensures
            r is Ok <==> event_ok(line@, year),
            r matches Ok(e) ==> event_is(line@, year, e),
            r matches Err(e) ==> error_names_line(e, line@),
            line@.len() >= 1 && line@[0]@ != version_sentinel() && split_point(line@[0]@) is None
                ==> (r matches Err(e) && e.cause is FieldSplitFailure),
            line@.len() >= 1 && line@[0]@ != version_sentinel() && head_parts(line@[0]@) is Some
                && timestamp_of(head_parts(line@[0]@).unwrap().0, year) is None ==> (r matches Err(e)
                && e.cause is DateParseFailure),
    {
        if line.len() == 0 {
            return Err(line_error(line, ParseError::FieldCount { wanted: 1, found: 0 }));
        }
        let head = line[0];
        let rest = &line[1..line.len()];
        assert(rest@ =~= line@.drop_first());
        let (timestamp, name) = if str_eq(head, "COMBAT_LOG_VERSION") {
            (Timestamp::placeholder(), head)
        } else {
            let p = match find_double_space(head) {
                Some(p) => p,
                None => {
                    assert(split_point(head@) is None);
                    return Err(line_error(line, ParseError::FieldSplitFailure { text: head.to_owned() }));
                },
            };
            proof {
                let q = choose|i: int| is_first_double_space(head@, i);
                lemma_first_double_space_unique(head@, p as int, q);
            }
            let n = head.unicode_len();
            let date = head.substring_char(0, p);
            let name = head.substring_char(p + 2, n);
            match Timestamp::parse(date, year) {
                Some(t) => (t, name),
                None => {
                    return Err(line_error(line, ParseError::DateParseFailure { text: date.to_owned() }));
                },
            }
        };
        match EventType::parse(name, rest) {
            Ok(event_type) => Ok(Event { timestamp, event_type }),
            Err(cause) => Err(line_error(line, cause)),
        }
    }

    /// Decodes one line, reading its timestamp in the default year.
    pub fn parse(line: &[&str]) -> (r: Result<Event, LineError>)
        ensures
            r is Ok <==> event_ok(line@, DEFAULT_YEAR),
            r matches Ok(e) ==> event_is(line@, DEFAULT_YEAR, e),
            r matches Err(e) ==> error_names_line(e, line@),
    {
        Event::parse_in_year(line, DEFAULT_YEAR)
    }
}

} // verus!
