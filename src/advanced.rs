use vstd::prelude::*;

use crate::decimal::{decimal_of, Decimal};
use crate::enums::{power_field_ok, power_field_value, PowerType};
use crate::error::ParseError;
use crate::guid::{guid_is, guid_ok, GUID};
use crate::primitives::{parse_i64, parse_num};
use crate::text::{i64_of, split_char, split_on, u64_of};

verus! {

/// One power pool of an actor.
#[derive(Debug, Clone, Copy, PartialEq, Eq, Structural)]
pub struct PowerInfo {
    pub power_type: Option<PowerType>,
    pub current_power: u64,
    pub max_power: u64,
    pub power_cost: u64,
}

/// Where an actor stands and which way it faces.
#[derive(Debug, Clone, Copy, PartialEq, Eq, Structural)]
pub struct Position {
    pub x: Decimal,
    pub y: Decimal,
    pub facing: Decimal,
}

/// The live state of an actor that some events carry: seventeen fields.
#[derive(Debug, Clone)]
pub struct AdvancedParams {
    pub info_guid: Option<GUID>,
    pub owner_guid: Option<GUID>,
    pub current_hp: i64,
    pub max_hp: i64,
    pub attack_power: i64,
    pub spell_power: i64,
    pub armor: i64,
    pub absorb: i64,
    pub power_info: Vec<PowerInfo>,
    pub position: Position,
    pub ui_map_id: u64,
    pub level_or_ilvl: u64,
}

/// The number of fields of an advanced-parameters block.
pub const ADVANCED_FIELDS: usize = 17;

/// The pipe-separated pieces of each of the four power cells.
pub open spec fn power_cells(l: Seq<&str>) -> Seq<Seq<Seq<char>>> {
    seq![
        split_on(l[0]@, '|'),
        split_on(l[1]@, '|'),
        split_on(l[2]@, '|'),
        split_on(l[3]@, '|'),
    ]
}

/// The four cells split into pieces of one count.
pub open spec fn power_cells_aligned(l: Seq<&str>) -> bool {
    let c = power_cells(l);
    c[1].len() == c[0].len() && c[2].len() == c[0].len() && c[3].len() == c[0].len()
}

/// The `i`-th pieces of the four cells decode as one power pool.
pub open spec fn power_entry_ok(l: Seq<&str>, i: int) -> bool {
    let c = power_cells(l);
    power_field_ok(c[0][i]) && u64_of(c[1][i]) is Some && u64_of(c[2][i]) is Some && u64_of(
        c[3][i],
    ) is Some
}

/// The power pool of the `i`-th pieces.
pub open spec fn power_entry(l: Seq<&str>, i: int) -> PowerInfo {
    let c = power_cells(l);
    PowerInfo {
        power_type: power_field_value(c[0][i]),
        current_power: u64_of(c[1][i]).unwrap(),
        max_power: u64_of(c[2][i]).unwrap(),
        power_cost: u64_of(c[3][i]).unwrap(),
    }
}

pub open spec fn power_info_ok(l: Seq<&str>) -> bool {
    l.len() == 4 && power_cells_aligned(l) && forall|i: int|
        0 <= i < power_cells(l)[0].len() ==> #[trigger] power_entry_ok(l, i)
}

pub open spec fn power_info_is(l: Seq<&str>, v: Seq<PowerInfo>) -> bool {
    v.len() == power_cells(l)[0].len() && forall|i: int|
        0 <= i < v.len() ==> #[trigger] v[i] == power_entry(l, i)
}

pub open spec fn position_ok(xy: Seq<&str>, facing: Seq<char>) -> bool {
    xy.len() == 2 && decimal_of(xy[0]@) is Some && decimal_of(xy[1]@) is Some && decimal_of(
        facing,
    ) is Some
}

pub open spec fn position_of(xy: Seq<&str>, facing: Seq<char>) -> Position {
    Position {
        x: decimal_of(xy[0]@).unwrap(),
        y: decimal_of(xy[1]@).unwrap(),
        facing: decimal_of(facing).unwrap(),
    }
}

/// The seventeen fields decode as an advanced-parameters block. Fields 8 to
/// 11 are the power cells; x and y are fields 12 and 13, the map id 14, the
/// facing 15 and the level 16.
pub open spec fn advanced_ok(l: Seq<&str>) -> bool {
    &&& l.len() == 17
    &&& guid_ok(l[0]@)
    &&& guid_ok(l[1]@)
    &&& forall|i: int| 2 <= i < 8 ==> #[trigger] i64_of(l[i]@) is Some
    &&& power_info_ok(l.subrange(8, 12))
    &&& position_ok(l.subrange(12, 14), l[15]@)
    &&& u64_of(l[14]@) is Some
    &&& u64_of(l[16]@) is Some
}

pub open spec fn advanced_is(l: Seq<&str>, v: AdvancedParams) -> bool {
    &&& guid_is(l[0]@, v.info_guid)
    &&& guid_is(l[1]@, v.owner_guid)
    &&& i64_of(l[2]@) == Some(v.current_hp)
    &&& i64_of(l[3]@) == Some(v.max_hp)
    &&& i64_of(l[4]@) == Some(v.attack_power)
    &&& i64_of(l[5]@) == Some(v.spell_power)
    &&& i64_of(l[6]@) == Some(v.armor)
    &&& i64_of(l[7]@) == Some(v.absorb)
    &&& power_info_is(l.subrange(8, 12), v.power_info@)
    &&& v.position == position_of(l.subrange(12, 14), l[15]@)
    &&& u64_of(l[14]@) == Some(v.ui_map_id)
    &&& u64_of(l[16]@) == Some(v.level_or_ilvl)
}

impl PowerInfo {
    /// Decodes the four pipe-joined power cells (type, current, maximum,
    /// cost) into one power pool per pipe-separated piece.
    pub fn parse(line: &[&str]) -> (r: Result<Vec<PowerInfo>, ParseError>)
        ensures
            r is Ok <==> power_info_ok(line@),
            r matches Ok(v) ==> power_info_is(line@, v@),
            line@.len() == 4 && !power_cells_aligned(line@) ==> r matches Err(
                ParseError::MalformedPowerInfo,
            ),
    {
        if line.len() != 4 {
            return Err(ParseError::FieldCount { wanted: 4, found: line.len() });
        }
        let types = split_char(line[0], '|');
        let current = split_char(line[1], '|');
        let maximum = split_char(line[2], '|');
        let cost = split_char(line[3], '|');
        let n = types.len();
        if current.len() != n || maximum.len() != n || cost.len() != n {
            return Err(ParseError::MalformedPowerInfo);
        }
        let ghost c = power_cells(line@);
        let mut out: Vec<PowerInfo> = Vec::new();
        let mut i: usize = 0;
        while i < n
            invariant
                line@.len() == 4,
                c == power_cells(line@),
                n == types@.len(),
                n == current@.len(),
                n == maximum@.len(),
                n == cost@.len(),
                n == c[0].len(),
                power_cells_aligned(line@),
                forall|k: int| 0 <= k < n ==> #[trigger] types@[k]@ == c[0][k],
                forall|k: int| 0 <= k < n ==> #[trigger] current@[k]@ == c[1][k],
                forall|k: int| 0 <= k < n ==> #[trigger] maximum@[k]@ == c[2][k],
                forall|k: int| 0 <= k < n ==> #[trigger] cost@[k]@ == c[3][k],
                0 <= i <= n,
                out@.len() == i,
                forall|k: int| 0 <= k < i ==> #[trigger] power_entry_ok(line@, k),
                forall|k: int| 0 <= k < i ==> #[trigger] out@[k] == power_entry(line@, k),
            decreases n - i,
        {
            assert(types@[i as int]@ == c[0][i as int]);
            assert(current@[i as int]@ == c[1][i as int]);
            assert(maximum@[i as int]@ == c[2][i as int]);
            assert(cost@[i as int]@ == c[3][i as int]);
            let power_type = match PowerType::parse(types[i]) {
                Ok(p) => p,
                Err(e) => {
                    assert(!power_entry_ok(line@, i as int));
                    return Err(e);
                },
            };
            let current_power = match parse_num(current[i]) {
                Ok(v) => v,
                Err(e) => {
                    assert(!power_entry_ok(line@, i as int));
                    return Err(e);
                },
            };
            let max_power = match parse_num(maximum[i]) {
                Ok(v) => v,
                Err(e) => {
                    assert(!power_entry_ok(line@, i as int));
                    return Err(e);
                },
            };
            let power_cost = match parse_num(cost[i]) {
                Ok(v) => v,
                Err(e) => {
                    assert(!power_entry_ok(line@, i as int));
                    return Err(e);
                },
            };
            out.push(PowerInfo { power_type, current_power, max_power, power_cost });
            assert(power_entry_ok(line@, i as int));
            i = i + 1;
        }
        Ok(out)
    }
}

impl Position {
    /// Decodes a position from its x and y fields and its facing field.
    pub fn parse(line_xy: &[&str], line_facing: &str) -> (r: Result<Position, ParseError>)
        ensures
            r is Ok <==> position_ok(line_xy@, line_facing@),
            r matches Ok(p) ==> p == position_of(line_xy@, line_facing@),
    {
        if line_xy.len() != 2 {
            return Err(ParseError::FieldCount { wanted: 2, found: line_xy.len() });
        }
        let x = match Decimal::parse(line_xy[0]) {
            Ok(v) => v,
            Err(e) => {
                return Err(e);
            },
        };
        let y = match Decimal::parse(line_xy[1]) {
            Ok(v) => v,
            Err(e) => {
                return Err(e);
            },
        };
        let facing = match Decimal::parse(line_facing) {
            Ok(v) => v,
            Err(e) => {
                return Err(e);
            },
        };
        Ok(Position { x, y, facing })
    }
}

impl AdvancedParams {
    /// Decodes the seventeen-field block of an actor's live state.
    pub fn parse(line: &[&str]) -> (r: Result<AdvancedParams, ParseError>)
        ensures
            r is Ok <==> advanced_ok(line@),
            r matches Ok(v) ==> advanced_is(line@, v),
    {
        if line.len() != ADVANCED_FIELDS {
            return Err(ParseError::FieldCount { wanted: ADVANCED_FIELDS, found: line.len() });
        }
        let info_guid = match GUID::parse(line[0]) {
            Ok(g) => g,
            Err(e) => {
                return Err(e);
            },
        };
        let owner_guid = match GUID::parse(line[1]) {
            Ok(g) => g,
            Err(e) => {
                return Err(e);
            },
        };
        let mut stats: [i64; 6] = [0; 6];
        let mut k: usize = 0;
        while k < 6
            invariant
                line@.len() == 17,
                0 <= k <= 6,
                forall|j: int| 0 <= j < k ==> i64_of(line@[j + 2]@) == Some(#[trigger] stats@[j]),
            decreases 6 - k,
        {
            match parse_i64(line[k + 2]) {
                Ok(v) => {
                    stats.set(k, v);
                },
                Err(e) => {
                    assert(i64_of(line@[k + 2]@) is None);
                    return Err(e);
                },
            }
            k = k + 1;
        }
        assert forall|i: int| 2 <= i < 8 implies #[trigger] i64_of(line@[i]@) is Some by {
            assert(i64_of(line@[(i - 2) + 2]@) == Some(stats@[i - 2]));
        }
        let power_info = match PowerInfo::parse(&line[8..12]) {
            Ok(v) => v,
            Err(e) => {
                return Err(e);
            },
        };
        let position = match Position::parse(&line[12..14], line[15]) {
            Ok(p) => p,
            Err(e) => {
                return Err(e);
            },
        };
        let ui_map_id = match parse_num(line[14]) {
            Ok(v) => v,
            Err(e) => {
                return Err(e);
            },
        };
        let level_or_ilvl = match parse_num(line[16]) {
            Ok(v) => v,
            Err(e) => {
                return Err(e);
            },
        };
        assert(i64_of(line@[0int + 2]@) == Some(stats@[0int]));
        assert(i64_of(line@[1int + 2]@) == Some(stats@[1int]));
        assert(i64_of(line@[2int + 2]@) == Some(stats@[2int]));
        assert(i64_of(line@[3int + 2]@) == Some(stats@[3int]));
        assert(i64_of(line@[4int + 2]@) == Some(stats@[4int]));
        assert(i64_of(line@[5int + 2]@) == Some(stats@[5int]));
        Ok(
            AdvancedParams {
                info_guid,
                owner_guid,
                current_hp: stats[0],
                max_hp: stats[1],
                attack_power: stats[2],
                spell_power: stats[3],
                armor: stats[4],
                absorb: stats[5],
                power_info,
                position,
                ui_map_id,
                level_or_ilvl,
            },
        )
    }
}

} // verus!
