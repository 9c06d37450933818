use vstd::prelude::*;

use crate::error::{EnumKind, ParseError};
use crate::guid::{guid_is, guid_ok, GUID};
use crate::primitives::parse_num;
use crate::text::{str_eq, u64_of, views};

verus! {

/// The twenty-one character statistics of a combatant.
#[derive(Debug, Clone, Copy, PartialEq, Eq, Structural)]
pub struct CharacterStats {
    pub strength: u64,
    pub agility: u64,
    pub stamina: u64,
    pub intelligence: u64,
    pub dodge: u64,
    pub parry: u64,
    pub block: u64,
    pub crit_melee: u64,
    pub crit_ranged: u64,
    pub crit_spell: u64,
    pub speed: u64,
    pub leech: u64,
    pub haste_melee: u64,
    pub haste_range: u64,
    pub haste_spell: u64,
    pub avoidance: u64,
    pub mastery: u64,
    pub versatility_damage_done: u64,
    pub versatility_healing_done: u64,
    pub versatility_damage_taken: u64,
    pub armor: u64,
}

/// The player-versus-player standing of a combatant.
#[derive(Debug, Clone, Copy, PartialEq, Eq, Structural)]
pub struct PVPStats {
    pub honor_level: u64,
    pub season: u64,
    pub rating: u64,
    pub tier: u64,
}

#[derive(Debug, Clone, Copy, PartialEq, Eq, Structural)]
pub enum Faction {
    Horde,
    Alliance,
}

/// A chosen talent: its node, entry and rank.
#[derive(Debug, Clone, Copy, PartialEq, Eq, Structural)]
pub struct ClassTalent {
    pub node_id: u64,
    pub entry_id: u64,
    pub rank: u64,
}

/// The enchantments of an item.
#[derive(Debug, Clone, Copy, PartialEq, Eq, Structural)]
pub struct Enchant {
    pub permanent_id: u64,
    pub temp_id: u64,
    pub on_use_id: u64,
}

/// An item that a combatant wears.
#[derive(Debug, Clone)]
pub struct EquippedItem {
    pub item_id: u64,
    pub ilvl: u64,
    pub enchant: Option<Enchant>,
    pub bonus_ids: Vec<u64>,
    pub gem_ids: Vec<u64>,
}

/// An aura worth noting on a combatant, and who cast it.
#[derive(Debug, Clone)]
pub struct InterestingAura {
    pub caster: Option<GUID>,
    pub aura_id: u64,
}

/// The state of a combatant at the start of an encounter.
#[derive(Debug, Clone)]
pub struct CombatantInfo {
    pub guid: GUID,
    pub faction: Faction,
    pub stats: CharacterStats,
    pub spec_id: u64,
    pub class_talents: Vec<ClassTalent>,
    pub pvp_talents: [u64; 4],
    pub equipped_items: Vec<EquippedItem>,
    pub interesting_auras: Vec<InterestingAura>,
    pub pvp_stats: PVPStats,
}

// ---------------------------------------------------------------------
// Pieces
// ---------------------------------------------------------------------

/// `s` without its first character where that is `c`.
pub open spec fn drop_lead(s: Seq<char>, c: char) -> Seq<char> {
    if s.len() > 0 && s[0] == c {
        s.drop_first()
    } else {
        s
    }
}

/// `s` without its last character where that is `c`.
pub open spec fn drop_trail(s: Seq<char>, c: char) -> Seq<char> {
    if s.len() > 0 && s.last() == c {
        s.drop_last()
    } else {
        s
    }
}

/// The pieces of a list written over the fields `f`: the first without its
/// opening `open` and the last without its closing `close`.
pub open spec fn list_pieces(f: Seq<Seq<char>>, open: char, close: char) -> Seq<Seq<char>> {
    Seq::new(
        f.len(),
        |j: int|
            {
                let a = if j == 0 {
                    drop_lead(f[j], open)
                } else {
                    f[j]
                };
                if j == f.len() - 1 {
                    drop_trail(a, close)
                } else {
                    a
                }
            },
    )
}

/// A list written as `[]`: one piece, empty.
pub open spec fn is_empty_list(p: Seq<Seq<char>>) -> bool {
    p.len() == 1 && p[0].len() == 0
}

/// The numbers of `u64` pieces.
pub open spec fn numbers_ok(p: Seq<Seq<char>>) -> bool {
    forall|j: int| 0 <= j < p.len() ==> #[trigger] u64_of(p[j]) is Some
}

pub open spec fn numbers_are(p: Seq<Seq<char>>, v: Seq<u64>) -> bool {
    v.len() == p.len() && forall|j: int| 0 <= j < p.len() ==> u64_of(p[j]) == Some(#[trigger] v[j])
}

// ---------------------------------------------------------------------
// Sections of the record
// ---------------------------------------------------------------------

/// The first field from `j` on that ends with `]`.
pub open spec fn closing_bracket(l: Seq<Seq<char>>, j: int) -> Option<int>
    decreases l.len() - j,
{
    if j < 0 || j >= l.len() {
        None
    } else if l[j].len() > 0 && l[j].last() == ']' {
        Some(j)
    } else {
        closing_bracket(l, j + 1)
    }
}

/// The fields of a bracketed list that begins at field `s`, and the index
/// after it.
pub open spec fn bracket_section(l: Seq<Seq<char>>, s: int) -> Option<(Seq<Seq<char>>, int)> {
    if 0 <= s < l.len() && l[s].len() > 0 && l[s][0] == '[' {
        match closing_bracket(l, s) {
            Some(e) => Some((l.subrange(s, e + 1), e + 1)),
            None => None,
        }
    } else {
        None
    }
}

/// Where the lists of a combatant record end: the talents from field 24,
/// the four pvp-talent fields after them, then the items, then the auras,
/// and after those exactly four pvp statistics.
pub open spec fn combatant_layout(l: Seq<Seq<char>>) -> Option<(int, int, int)> {
    match bracket_section(l, 24) {
        Some(t) => {
            let pvp = t.1;
            match bracket_section(l, pvp + 4) {
                Some(i) => match bracket_section(l, i.1) {
                    Some(a) => if l.len() == a.1 + 4 && l[pvp].len() > 0 && l[pvp][0] == '('
                        && l[pvp + 3].len() > 0 && l[pvp + 3].last() == ')' {
                        Some((pvp, i.1, a.1))
                    } else {
                        None
                    },
                    None => None,
                },
                None => None,
            }
        },
        None => None,
    }
}

/// The talent list: triples `(node`, `entry`, `rank)`.
pub open spec fn talent_texts(p: Seq<Seq<char>>) -> Seq<Seq<char>> {
    Seq::new(
        p.len(),
        |j: int|
            if j % 3 == 0 {
                drop_lead(p[j], '(')
            } else if j % 3 == 2 {
                drop_trail(p[j], ')')
            } else {
                p[j]
            },
    )
}

pub open spec fn talents_ok(p: Seq<Seq<char>>) -> bool {
    is_empty_list(p) || (p.len() % 3 == 0 && numbers_ok(talent_texts(p)) && forall|t: int|
        0 <= t < p.len() / 3 ==> (#[trigger] p[3 * t]).len() > 0 && p[3 * t][0] == '(' && p[3 * t
            + 2].len() > 0 && p[3 * t + 2].last() == ')')
}

pub open spec fn talents_are(p: Seq<Seq<char>>, v: Seq<ClassTalent>) -> bool {
    if is_empty_list(p) {
        v.len() == 0
    } else {
        v.len() == p.len() / 3 && forall|t: int|
            0 <= t < v.len() ==> u64_of(talent_texts(p)[3 * t]) == Some((#[trigger] v[t]).node_id)
                && u64_of(talent_texts(p)[3 * t + 1]) == Some(v[t].entry_id) && u64_of(
                talent_texts(p)[3 * t + 2],
            ) == Some(v[t].rank)
    }
}

/// The aura list: pairs of caster GUID and aura id.
pub open spec fn auras_ok(p: Seq<Seq<char>>) -> bool {
    is_empty_list(p) || (p.len() % 2 == 0 && forall|t: int|
        0 <= t < p.len() / 2 ==> guid_ok(#[trigger] p[2 * t]) && u64_of(p[2 * t + 1]) is Some)
}

pub open spec fn auras_are(p: Seq<Seq<char>>, v: Seq<InterestingAura>) -> bool {
    if is_empty_list(p) {
        v.len() == 0
    } else {
        v.len() == p.len() / 2 && forall|t: int|
            0 <= t < v.len() ==> guid_is(p[2 * t], (#[trigger] v[t]).caster) && u64_of(p[2 * t + 1])
                == Some(v[t].aura_id)
    }
}

/// The first piece from `j` on that ends with `)`.
pub open spec fn closing_paren(p: Seq<Seq<char>>, j: int) -> Option<int>
    decreases p.len() - j,
{
    if j < 0 || j >= p.len() {
        None
    } else if p[j].len() > 0 && p[j].last() == ')' {
        Some(j)
    } else {
        closing_paren(p, j + 1)
    }
}

/// The text of piece `t` of a group over pieces `k` to `e`, whose last piece
/// closes `c` parentheses.
pub open spec fn group_text(p: Seq<Seq<char>>, k: int, e: int, c: int, t: int) -> Seq<char> {
    let a = if t == k {
        p[t].drop_first()
    } else {
        p[t]
    };
    if t == e {
        a.subrange(0, a.len() - c)
    } else {
        a
    }
}

/// The group of numbers that begins at piece `k` and closes `c` parentheses:
/// `()` or `(n1`, ..., `nm)`. Gives the numbers and the piece after it.
pub open spec fn group_at(p: Seq<Seq<char>>, k: int, c: int) -> Option<(Seq<u64>, int)> {
    match closing_paren(p, k) {
        Some(e) => {
            let texts = Seq::new((e - k + 1) as nat, |t: int| group_text(p, k, e, c, k + t));
            if p[k].len() > 0 && p[k][0] == '(' && (p[k].len() >= c + 1 || k < e) && p[e].len()
                >= c && p[e].subrange(p[e].len() - c, p[e].len() as int) == Seq::new(
                c as nat,
                |i: int| ')',
            ) {
                if k == e && texts[0].len() == 0 {
                    Some((Seq::<u64>::empty(), e + 1))
                } else if numbers_ok(texts) {
                    Some((texts.map_values(|x: Seq<char>| u64_of(x).unwrap()), e + 1))
                } else {
                    None
                }
            } else {
                None
            }
        },
        None => None,
    }
}

/// An item as values: id text, id, item level, enchantments, bonus ids and
/// gem ids.
pub type ItemModel = (Seq<char>, u64, u64, Option<Enchant>, Seq<u64>, Seq<u64>);

pub open spec fn enchant_of(g: Seq<u64>) -> Option<Option<Enchant>> {
    if g.len() == 0 {
        Some(None)
    } else if g.len() >= 3 {
        Some(Some(Enchant { permanent_id: g[0], temp_id: g[1], on_use_id: g[2] }))
    } else {
        None
    }
}

/// The item that begins at piece `i`: `(id`, item level, then the groups of
/// enchantments, bonus ids and gem ids, the last closing the item too.
pub open spec fn item_at(p: Seq<Seq<char>>, i: int) -> Option<(ItemModel, int)> {
    if 0 <= i && i + 1 < p.len() && p[i].len() > 0 && p[i][0] == '(' && u64_of(p[i].drop_first())
        is Some && u64_of(p[i + 1]) is Some {
        match group_at(p, i + 2, 1) {
            Some(g1) => match group_at(p, g1.1, 1) {
                Some(g2) => match group_at(p, g2.1, 2) {
                    Some(g3) => match enchant_of(g1.0) {
                        Some(en) => Some(
                            (
                                (
                                    p[i].drop_first(),
                                    u64_of(p[i].drop_first()).unwrap(),
                                    u64_of(p[i + 1]).unwrap(),
                                    en,
                                    g2.0,
                                    g3.0,
                                ),
                                g3.1,
                            ),
                        ),
                        None => None,
                    },
                    None => None,
                },
                None => None,
            },
            None => None,
        }
    } else {
        None
    }
}

/// The items from piece `i` on; an item whose id is written `0` is an
/// empty slot and is left out.
pub open spec fn items_from(p: Seq<Seq<char>>, i: int) -> Option<Seq<ItemModel>>
    decreases p.len() - i,
{
    if i < 0 || i > p.len() {
        None
    } else if i == p.len() {
        Some(Seq::empty())
    } else {
        match item_at(p, i) {
            Some(it) => if i < it.1 <= p.len() {
                match items_from(p, it.1) {
                    Some(rest) => if it.0.0 == "0"@ {
                        Some(rest)
                    } else {
                        Some(seq![it.0] + rest)
                    },
                    None => None,
                }
            } else {
                None
            },
            None => None,
        }
    }
}

/// The item list.
pub open spec fn items_of(p: Seq<Seq<char>>) -> Option<Seq<ItemModel>> {
    if is_empty_list(p) {
        Some(Seq::empty())
    } else {
        items_from(p, 0)
    }
}

pub open spec fn item_model(e: EquippedItem) -> (u64, u64, Option<Enchant>, Seq<u64>, Seq<u64>) {
    (e.item_id, e.ilvl, e.enchant, e.bonus_ids@, e.gem_ids@)
}

pub open spec fn items_are(m: Seq<ItemModel>, v: Seq<EquippedItem>) -> bool {
    v.len() == m.len() && forall|j: int|
        0 <= j < v.len() ==> item_model(#[trigger] v[j]) == (m[j].1, m[j].2, m[j].3, m[j].4, m[j].5)
}

pub open spec fn faction_of(s: Seq<char>) -> Option<Faction> {
    if s == "0"@ {
        Some(Faction::Horde)
    } else if s == "1"@ {
        Some(Faction::Alliance)
    } else {
        None
    }
}

pub open spec fn stats_ok(l: Seq<Seq<char>>) -> bool {
    l.len() >= 21 && forall|j: int| 0 <= j < 21 ==> #[trigger] u64_of(l[j]) is Some
}

pub open spec fn stats_of(l: Seq<Seq<char>>) -> CharacterStats {
    CharacterStats {
        strength: u64_of(l[0]).unwrap(),
        agility: u64_of(l[1]).unwrap(),
        stamina: u64_of(l[2]).unwrap(),
        intelligence: u64_of(l[3]).unwrap(),
        dodge: u64_of(l[4]).unwrap(),
        parry: u64_of(l[5]).unwrap(),
        block: u64_of(l[6]).unwrap(),
        crit_melee: u64_of(l[7]).unwrap(),
        crit_ranged: u64_of(l[8]).unwrap(),
        crit_spell: u64_of(l[9]).unwrap(),
        speed: u64_of(l[10]).unwrap(),
        leech: u64_of(l[11]).unwrap(),
        haste_melee: u64_of(l[12]).unwrap(),
        haste_range: u64_of(l[13]).unwrap(),
        haste_spell: u64_of(l[14]).unwrap(),
        avoidance: u64_of(l[15]).unwrap(),
        mastery: u64_of(l[16]).unwrap(),
        versatility_damage_done: u64_of(l[17]).unwrap(),
        versatility_healing_done: u64_of(l[18]).unwrap(),
        versatility_damage_taken: u64_of(l[19]).unwrap(),
        armor: u64_of(l[20]).unwrap(),
    }
}

pub open spec fn pvp_stats_ok(l: Seq<Seq<char>>) -> bool {
    l.len() >= 4 && u64_of(l[0]) is Some && u64_of(l[1]) is Some && u64_of(l[2]) is Some && u64_of(
        l[3],
    ) is Some
}

pub open spec fn pvp_stats_of(l: Seq<Seq<char>>) -> PVPStats {
    PVPStats {
        honor_level: u64_of(l[0]).unwrap(),
        season: u64_of(l[1]).unwrap(),
        rating: u64_of(l[2]).unwrap(),
        tier: u64_of(l[3]).unwrap(),
    }
}

/// The four pvp-talent pieces, without their parentheses.
pub open spec fn pvp_talent_texts(l: Seq<Seq<char>>, pvp: int) -> Seq<Seq<char>> {
    list_pieces(l.subrange(pvp, pvp + 4), '(', ')')
}

/// The record decodes as a combatant.
pub open spec fn combatant_ok(l: Seq<Seq<char>>) -> bool {
    match combatant_layout(l) {
        Some(lay) => {
            &&& guid_ok(l[0])
            &&& !guid_is(l[0], None)
            &&& faction_of(l[1]) is Some
            &&& stats_ok(l.subrange(2, 23))
            &&& u64_of(l[23]) is Some
            &&& talents_ok(list_pieces(l.subrange(24, lay.0), '[', ']'))
            &&& numbers_ok(pvp_talent_texts(l, lay.0))
            &&& items_of(list_pieces(l.subrange(lay.0 + 4, lay.1), '[', ']')) is Some
            &&& auras_ok(list_pieces(l.subrange(lay.1, lay.2), '[', ']'))
            &&& pvp_stats_ok(l.subrange(lay.2, lay.2 + 4))
        },
        None => false,
    }
}

/// `c` is the combatant that the record `l` describes.
pub open spec fn combatant_is(l: Seq<Seq<char>>, c: CombatantInfo) -> bool {
    let lay = combatant_layout(l).unwrap();
    &&& guid_is(l[0], Some(c.guid))
    &&& faction_of(l[1]) == Some(c.faction)
    &&& c.stats == stats_of(l.subrange(2, 23))
    &&& u64_of(l[23]) == Some(c.spec_id)
    &&& talents_are(list_pieces(l.subrange(24, lay.0), '[', ']'), c.class_talents@)
    &&& numbers_are(pvp_talent_texts(l, lay.0), c.pvp_talents@)
    &&& items_are(items_of(list_pieces(l.subrange(lay.0 + 4, lay.1), '[', ']')).unwrap(), c.equipped_items@)
    &&& auras_are(list_pieces(l.subrange(lay.1, lay.2), '[', ']'), c.interesting_auras@)
    &&& c.pvp_stats == pvp_stats_of(l.subrange(lay.2, lay.2 + 4))
}

// ---------------------------------------------------------------------
// Decoding
// ---------------------------------------------------------------------

fn malformed<T>() -> (r: Result<T, ParseError>)
    ensures
        r matches Err(ParseError::MalformedCombatantInfo),
{
    Err(ParseError::MalformedCombatantInfo)
}

proof fn lemma_closing_paren(v: Seq<Seq<char>>, j: int)
    ensures
        closing_paren(v, j) matches Some(e) ==> j <= e < v.len() && v[e].len() > 0 && v[e].last()
            == ')',
    decreases v.len() - j,
{
    if 0 <= j < v.len() && !(v[j].len() > 0 && v[j].last() == ')') {
        lemma_closing_paren(v, j + 1);
    }
}

proof fn lemma_closing_bracket(v: Seq<Seq<char>>, j: int)
    ensures
        closing_bracket(v, j) matches Some(e) ==> j <= e < v.len(),
    decreases v.len() - j,
{
    if 0 <= j < v.len() && !(v[j].len() > 0 && v[j].last() == ']') {
        lemma_closing_bracket(v, j + 1);
    }
}

fn first_closing(l: &[&str], j: usize, close: char) -> (r: Option<usize>)
    ensures
        close == ']' && r is Some ==> closing_bracket(views(l@), j as int) == Some(
            r.unwrap() as int,
        ),
        close == ']' && r is None ==> closing_bracket(views(l@), j as int) is None,
        close == ')' && r is Some ==> closing_paren(views(l@), j as int) == Some(
            r.unwrap() as int,
        ),
        close == ')' && r is None ==> closing_paren(views(l@), j as int) is None,
        r matches Some(e) ==> j <= e < l@.len(),
{
    let ghost v = views(l@);
    let mut k = j;
    while k < l.len()
        invariant
            v == views(l@),
            j <= k,
            close == ']' ==> closing_bracket(v, j as int) == closing_bracket(v, k as int),
            close == ')' ==> closing_paren(v, j as int) == closing_paren(v, k as int),
        decreases l@.len() - k,
    {
        let f = l[k];
        let n = f.unicode_len();
        assert(v[k as int] == f@);
        if n > 0 && f.get_char(n - 1) == close {
            return Some(k);
        }
        k = k + 1;
    }
    None
}

fn without_lead<'a>(s: &'a str, c: char) -> (r: &'a str)
    ensures
        r@ == drop_lead(s@, c),
{
    let n = s.unicode_len();
    if n > 0 && s.get_char(0) == c {
        s.substring_char(1, n)
    } else {
        s
    }
}

fn without_trail<'a>(s: &'a str, c: char) -> (r: &'a str)
    ensures
        r@ == drop_trail(s@, c),
{
    let n = s.unicode_len();
    if n > 0 && s.get_char(n - 1) == c {
        s.substring_char(0, n - 1)
    } else {
        s
    }
}

/// The pieces of a list written over the fields `f`.
fn pieces<'a>(f: &[&'a str], open: char, close: char) -> (r: Vec<&'a str>)
    ensures
        views(r@) == list_pieces(views(f@), open, close),
{
    let n = f.len();
    let mut out: Vec<&'a str> = Vec::new();
    let mut j: usize = 0;
    while j < n
        invariant
            n == f@.len(),
            0 <= j <= n,
            out@.len() == j,
            forall|i: int| 0 <= i < j ==> (#[trigger] out@[i])@ == list_pieces(views(f@), open, close)[i],
        decreases n - j,
    {
        let a = if j == 0 {
            without_lead(f[j], open)
        } else {
            f[j]
        };
        let b = if j == n - 1 {
            without_trail(a, close)
        } else {
            a
        };
        out.push(b);
        j = j + 1;
    }
    assert(views(out@) =~= list_pieces(views(f@), open, close));
    out
}

fn is_empty_pieces(p: &[&str]) -> (r: bool)
    ensures
        r == is_empty_list(views(p@)),
{
    p.len() == 1 && p[0].unicode_len() == 0
}

impl ClassTalent {
    /// Decodes the talent list from the pieces of its fields: triples
    /// `(node`, `entry`, `rank)`.
    pub fn parse_vec(p: &[&str]) -> (r: Result<Vec<ClassTalent>, ParseError>)
        ensures
            r is Ok <==> talents_ok(views(p@)),
            r matches Ok(v) ==> talents_are(views(p@), v@),
    {
        let ghost v = views(p@);
        if is_empty_pieces(p) {
            return Ok(Vec::new());
        }
        let n = p.len();
        if n % 3 != 0 {
            return malformed();
        }
        let ghost texts = talent_texts(v);
        let mut out: Vec<ClassTalent> = Vec::new();
        let mut t: usize = 0;
        while t < n / 3
            invariant
                v == views(p@),
                texts == talent_texts(v),
                n == p@.len(),
                n % 3 == 0,
                !is_empty_list(v),
                0 <= t <= n / 3,
                out@.len() == t,
                forall|i: int| 0 <= i < 3 * t ==> #[trigger] u64_of(texts[i]) is Some,
                forall|u: int|
                    0 <= u < t ==> (#[trigger] v[3 * u]).len() > 0 && v[3 * u][0] == '(' && v[3 * u
                        + 2].len() > 0 && v[3 * u + 2].last() == ')',
                forall|u: int|
                    0 <= u < t ==> u64_of(texts[3 * u]) == Some((#[trigger] out@[u]).node_id)
                        && u64_of(texts[3 * u + 1]) == Some(out@[u].entry_id) && u64_of(
                        texts[3 * u + 2],
                    ) == Some(out@[u].rank),
            decreases n / 3 - t,
        {
            let a = p[3 * t];
            let b = p[3 * t + 1];
            let c = p[3 * t + 2];
            assert(v[3 * t as int] == a@ && v[3 * t + 1] == b@ && v[3 * t + 2] == c@);
            let an = a.unicode_len();
            let cn = c.unicode_len();
            if !(an > 0 && a.get_char(0) == '(' && cn > 0 && c.get_char(cn - 1) == ')') {
                return malformed();
            }
            assert(texts[3 * t as int] == drop_lead(a@, '('));
            assert(texts[3 * t + 1] == b@);
            assert(texts[3 * t + 2] == drop_trail(c@, ')'));
            let node_id = match parse_num(without_lead(a, '(')) {
                Ok(x) => x,
                Err(e) => {
                    return Err(e);
                },
            };
            let entry_id = match parse_num(b) {
                Ok(x) => x,
                Err(e) => {
                    return Err(e);
                },
            };
            let rank = match parse_num(without_trail(c, ')')) {
                Ok(x) => x,
                Err(e) => {
                    return Err(e);
                },
            };
            out.push(ClassTalent { node_id, entry_id, rank });
            proof {
                assert forall|i: int| 0 <= i < 3 * (t + 1) implies #[trigger] u64_of(texts[i])
                    is Some by {
                    if i >= 3 * t {
                        assert(i == 3 * t || i == 3 * t + 1 || i == 3 * t + 2);
                    }
                }
            }
            t = t + 1;
        }
        Ok(out)
    }
}

impl InterestingAura {
    /// Decodes the aura list from the pieces of its fields: pairs of caster
    /// GUID and aura id.
    pub fn parse_vec(p: &[&str]) -> (r: Result<Vec<InterestingAura>, ParseError>)
        ensures
            r is Ok <==> auras_ok(views(p@)),
            r matches Ok(v) ==> auras_are(views(p@), v@),
    {
        let ghost v = views(p@);
        if is_empty_pieces(p) {
            return Ok(Vec::new());
        }
        let n = p.len();
        if n % 2 != 0 {
            return malformed();
        }
        let mut out: Vec<InterestingAura> = Vec::new();
        let mut t: usize = 0;
        while t < n / 2
            invariant
                v == views(p@),
                n == p@.len(),
                n % 2 == 0,
                0 <= t <= n / 2,
                out@.len() == t,
                forall|u: int|
                    0 <= u < t ==> guid_ok(#[trigger] v[2 * u]) && u64_of(v[2 * u + 1]) is Some,
                forall|u: int|
                    0 <= u < t ==> guid_is(v[2 * u], (#[trigger] out@[u]).caster) && u64_of(
                        v[2 * u + 1],
                    ) == Some(out@[u].aura_id),
            decreases n / 2 - t,
        {
            assert(v[2 * t as int] == p@[2 * t as int]@ && v[2 * t + 1] == p@[2 * t + 1]@);
            let caster = match GUID::parse(p[2 * t]) {
                Ok(g) => g,
                Err(e) => {
                    return Err(e);
                },
            };
            let aura_id = match parse_num(p[2 * t + 1]) {
                Ok(x) => x,
                Err(e) => {
                    return Err(e);
                },
            };
            out.push(InterestingAura { caster, aura_id });
            t = t + 1;
        }
        Ok(out)
    }
}

impl Enchant {
    /// The enchantments of an item from the numbers of its group: none where
    /// the group is empty, else the first three.
    pub fn parse(group: &[u64]) -> (r: Result<Option<Enchant>, ParseError>)
        ensures
            r is Ok <==> enchant_of(group@) is Some,
            r matches Ok(e) ==> enchant_of(group@) == Some(e),
    {
        if group.len() == 0 {
            Ok(None)
        } else if group.len() >= 3 {
            Ok(Some(Enchant { permanent_id: group[0], temp_id: group[1], on_use_id: group[2] }))
        } else {
            malformed()
        }
    }
}

/// The text of piece `t` of the group over pieces `k` to `e`.
fn group_piece<'a>(p: &[&'a str], k: usize, e: usize, c: usize, t: usize) -> (r: &'a str)
    requires
        k <= t <= e < p@.len(),
        c <= 2,
        t == e ==> p@[t as int]@.len() >= c + (if t == k { 1int } else { 0 }),
        t == k ==> p@[t as int]@.len() >= 1,
    ensures
        r@ == group_text(views(p@), k as int, e as int, c as int, t as int),
{
    let f = p[t];
    let n = f.unicode_len();
    let a = if t == k {
        f.substring_char(1, n)
    } else {
        f
    };
    assert(views(p@)[t as int] == f@);
    if t == e {
        let m = a.unicode_len();
        a.substring_char(0, m - c)
    } else {
        a
    }
}

/// Reads the group of numbers at piece `k` that closes `c` parentheses.
fn group(p: &[&str], k: usize, c: usize) -> (r: Result<(Vec<u64>, usize), ParseError>)
    requires
        c == 1 || c == 2,
    ensures
        r is Ok <==> group_at(views(p@), k as int, c as int) is Some,
        r matches Ok(g) ==> group_at(views(p@), k as int, c as int) == Some((g.0@, g.1 as int)),
{
    let ghost v = views(p@);
    let n = p.len();
    let e = match first_closing(p, k, ')') {
        Some(e) => e,
        None => {
            return malformed();
        },
    };
    proof {
        lemma_closing_paren(v, k as int);
    }
    let first = p[k];
    let last = p[e];
    assert(v[k as int] == first@ && v[e as int] == last@);
    let fl = first.unicode_len();
    let ll = last.unicode_len();
    let ghost ends = Seq::new(c as nat, |i: int| ')');
    if !(fl > 0 && first.get_char(0) == '(' && (fl >= c + 1 || k < e) && ll >= c) {
        return malformed();
    }
    if c == 2 && last.get_char(ll - 2) != ')' {
        assert(v[e as int].subrange(v[e as int].len() - c, v[e as int].len() as int)[0] != ends[0]);
        return malformed();
    }
    assert(v[e as int].subrange(v[e as int].len() - c, v[e as int].len() as int) =~= ends) by {
        assert(last@.last() == ')');
        assert(last@[ll - 1] == ')');
    }
    let ghost texts = Seq::new((e - k + 1) as nat, |t: int| group_text(v, k as int, e as int, c as int, k + t));
    if k == e {
        let only = group_piece(p, k, e, c, k);
        assert(texts[0] == only@);
        if only.unicode_len() == 0 {
            return Ok((Vec::new(), e + 1));
        }
    }
    assert(group_at(v, k as int, c as int) is Some <==> numbers_ok(texts));
    assert(numbers_ok(texts) ==> group_at(v, k as int, c as int) == Some(
        (texts.map_values(|x: Seq<char>| u64_of(x).unwrap()), e + 1),
    ));
    let mut out: Vec<u64> = Vec::new();
    let mut t = k;
    while t <= e
        invariant
            group_at(v, k as int, c as int) is Some <==> numbers_ok(texts),
            numbers_ok(texts) ==> group_at(v, k as int, c as int) == Some(
                (texts.map_values(|x: Seq<char>| u64_of(x).unwrap()), e + 1),
            ),
            v == views(p@),
            k <= t <= e + 1,
            e < p@.len(),
            n == p@.len(),
            c == 1 || c == 2,
            v[k as int].len() >= 1,
            v[e as int].len() >= c + (if e == k { 1int } else { 0 }),
            texts == Seq::new((e - k + 1) as nat, |t: int| group_text(v, k as int, e as int, c as int, k + t)),
            out@.len() == t - k,
            forall|i: int| 0 <= i < t - k ==> #[trigger] u64_of(texts[i]) is Some,
            forall|i: int| 0 <= i < t - k ==> u64_of(texts[i]) == Some(#[trigger] out@[i]),
        decreases e + 1 - t,
    {
        let piece = group_piece(p, k, e, c, t);
        assert(texts[t - k] == piece@);
        match parse_num(piece) {
            Ok(x) => {
                out.push(x);
            },
            Err(_) => {
                assert(!numbers_ok(texts));
                return malformed();
            },
        }
        t = t + 1;
    }
    assert(out@ =~= texts.map_values(|x: Seq<char>| u64_of(x).unwrap()));
    Ok((out, e + 1))
}

/// Reads the item at piece `i`; gives it, its id text, and the piece after it.
fn item(p: &[&str], i: usize) -> (r: Result<(EquippedItem, bool, usize), ParseError>)
    ensures
        r is Ok <==> item_at(views(p@), i as int) is Some,
        r matches Ok(x) ==> item_at(views(p@), i as int) matches Some(m) && item_model(x.0) == (
            m.0.1,
            m.0.2,
            m.0.3,
            m.0.4,
            m.0.5,
        ) && x.1 == (m.0.0 == "0"@) && x.2 == m.1,
{
    let ghost v = views(p@);
    if !(i < p.len() && i + 1 < p.len()) {
        return malformed();
    }
    let head = p[i];
    assert(v[i as int] == head@ && v[i + 1] == p@[i + 1]@);
    let hn = head.unicode_len();
    if !(hn > 0 && head.get_char(0) == '(') {
        return malformed();
    }
    let id_text = head.substring_char(1, hn);
    assert(id_text@ =~= head@.drop_first());
    let item_id = match parse_num(id_text) {
        Ok(x) => x,
        Err(_) => {
            return malformed();
        },
    };
    let ilvl = match parse_num(p[i + 1]) {
        Ok(x) => x,
        Err(_) => {
            return malformed();
        },
    };
    let (g1, n1) = group(p, i + 2, 1)?;
    let (g2, n2) = group(p, n1, 1)?;
    let (g3, n3) = group(p, n2, 2)?;
    let enchant = Enchant::parse(g1.as_slice())?;
    let empty_slot = str_eq(id_text, "0");
    Ok((EquippedItem { item_id, ilvl, enchant, bonus_ids: g2, gem_ids: g3 }, empty_slot, n3))
}

impl EquippedItem {
    /// Decodes the item list from the pieces of its fields. Items whose id
    /// is written `0` are empty slots and are left out.
    pub fn parse_vec(p: &[&str]) -> (r: Result<Vec<EquippedItem>, ParseError>)
        ensures
            r is Ok <==> items_of(views(p@)) is Some,
            r matches Ok(v) ==> items_are(items_of(views(p@)).unwrap(), v@),
    {
        let ghost v = views(p@);
        if is_empty_pieces(p) {
            return Ok(Vec::new());
        }
        let n = p.len();
        let mut out: Vec<EquippedItem> = Vec::new();
        let mut i: usize = 0;
        let ghost mut done: Seq<ItemModel> = Seq::empty();
        while i < n
            invariant
                v == views(p@),
                n == p@.len(),
                !is_empty_list(v),
                0 <= i <= n,
                items_from(v, 0) == (match items_from(v, i as int) {
                    Some(rest) => Some(done + rest),
                    None => None::<Seq<ItemModel>>,
                }),
                items_are(done, out@),
            decreases n - i,
        {
            let (it, empty_slot, next) = match item(p, i) {
                Ok(x) => x,
                Err(e) => {
                    return Err(e);
                },
            };
            let ghost m = item_at(v, i as int).unwrap();
            if next <= i || next > n {
                return malformed();
            }
            proof {
                if empty_slot {
                    assert(items_from(v, i as int) == items_from(v, next as int));
                } else {
                    assert(items_from(v, i as int) == (match items_from(v, next as int) {
                        Some(rest) => Some(seq![m.0] + rest),
                        None => None::<Seq<ItemModel>>,
                    }));
                    match items_from(v, next as int) {
                        Some(rest) => {
                            assert(done + (seq![m.0] + rest) =~= (done + seq![m.0]) + rest);
                        },
                        None => {},
                    }
                }
            }
            if !empty_slot {
                let ghost before = out@;
                let ghost done_before = done;
                out.push(it);
                proof {
                    done = done + seq![m.0];
                    assert forall|j: int| 0 <= j < out@.len() implies item_model(
                        #[trigger] out@[j],
                    ) == (done[j].1, done[j].2, done[j].3, done[j].4, done[j].5) by {
                        if j < out@.len() - 1 {
                            assert(out@[j] == before[j]);
                            assert(done[j] == done_before[j]);
                        }
                    }
                }
            }
            i = next;
        }
        assert(items_from(v, n as int) == Some(Seq::<ItemModel>::empty()));
        assert(done + Seq::<ItemModel>::empty() =~= done);
        Ok(out)
    }
}

/// Reads `k` numbers from the first `k` fields into an array.
fn numbers<const K: usize>(l: &[&str]) -> (r: Result<[u64; K], ParseError>)
    ensures
        r is Ok <==> (views(l@).len() >= K && forall|j: int|
            0 <= j < K ==> #[trigger] u64_of(views(l@)[j]) is Some),
        r matches Ok(a) ==> forall|j: int|
            0 <= j < K ==> u64_of(views(l@)[j]) == Some(#[trigger] a@[j]),
{
    if l.len() < K {
        return Err(ParseError::FieldCount { wanted: K, found: l.len() });
    }
    let mut a: [u64; K] = [0; K];
    let mut j: usize = 0;
    while j < K
        invariant
            l@.len() >= K,
            0 <= j <= K,
            forall|i: int| 0 <= i < j ==> u64_of(views(l@)[i]) == Some(#[trigger] a@[i]),
        decreases K - j,
    {
        assert(views(l@)[j as int] == l@[j as int]@);
        match parse_num(l[j]) {
            Ok(x) => {
                a.set(j, x);
            },
            Err(e) => {
                return Err(e);
            },
        }
        j = j + 1;
    }
    assert forall|i: int| 0 <= i < K implies #[trigger] u64_of(views(l@)[i]) is Some by {
        assert(u64_of(views(l@)[i]) == Some(a@[i]));
    }
    Ok(a)
}

impl CharacterStats {
    /// Decodes the twenty-one statistics from the first twenty-one fields.
    pub fn parse(line: &[&str]) -> (r: Result<CharacterStats, ParseError>)
        ensures
            r is Ok <==> stats_ok(views(line@)),
            r matches Ok(s) ==> s == stats_of(views(line@)),
    {
        let ghost v = views(line@);
        let a: [u64; 21] = numbers(line)?;
        assert(forall|j: int| 0 <= j < 21 ==> #[trigger] u64_of(v[j]) is Some);
        Ok(
            CharacterStats {
                strength: a[0],
                agility: a[1],
                stamina: a[2],
                intelligence: a[3],
                dodge: a[4],
                parry: a[5],
                block: a[6],
                crit_melee: a[7],
                crit_ranged: a[8],
                crit_spell: a[9],
                speed: a[10],
                leech: a[11],
                haste_melee: a[12],
                haste_range: a[13],
                haste_spell: a[14],
                avoidance: a[15],
                mastery: a[16],
                versatility_damage_done: a[17],
                versatility_healing_done: a[18],
                versatility_damage_taken: a[19],
                armor: a[20],
            },
        )
    }
}

impl PVPStats {
    /// Decodes honor level, season, rating and tier from the first four fields.
    pub fn parse(line: &[&str]) -> (r: Result<PVPStats, ParseError>)
        ensures
            r is Ok <==> pvp_stats_ok(views(line@)),
            r matches Ok(s) ==> s == pvp_stats_of(views(line@)),
    {
        let ghost v = views(line@);
        let a: [u64; 4] = numbers(line)?;
        assert(u64_of(v[0]) == Some(a@[0]) && u64_of(v[1]) == Some(a@[1]) && u64_of(v[2]) == Some(
            a@[2],
        ) && u64_of(v[3]) == Some(a@[3]));
        Ok(PVPStats { honor_level: a[0], season: a[1], rating: a[2], tier: a[3] })
    }
}

impl Faction {
    /// Decodes a faction: `0` is the Horde, `1` the Alliance.
    pub fn parse(s: &str) -> (r: Result<Faction, ParseError>)
        ensures
            faction_of(s@) matches Some(f) ==> r == Ok::<Faction, ParseError>(f),
            faction_of(s@) is None ==> (r matches Err(ParseError::UnknownEnumValue { kind, raw })
                && kind == EnumKind::Faction && raw@ == s@),
    {
        if str_eq(s, "0") {
            Ok(Faction::Horde)
        } else if str_eq(s, "1") {
            Ok(Faction::Alliance)
        } else {
            Err(ParseError::UnknownEnumValue { kind: EnumKind::Faction, raw: s.to_owned() })
        }
    }
}

fn starts_with_char(s: &str, c: char) -> (r: bool)
    ensures
        r == (s@.len() > 0 && s@[0] == c),
{
    s.unicode_len() > 0 && s.get_char(0) == c
}

fn ends_with_char(s: &str, c: char) -> (r: bool)
    ensures
        r == (s@.len() > 0 && s@.last() == c),
{
    let n = s.unicode_len();
    n > 0 && s.get_char(n - 1) == c
}

/// The index after the bracketed list that begins at field `s`.
fn section_end(l: &[&str], s: usize) -> (r: Option<usize>)
    ensures
        r is Some <==> bracket_section(views(l@), s as int) is Some,
        r is Some ==> bracket_section(views(l@), s as int).unwrap().1 == r.unwrap() as int,
        r is Some ==> s < r.unwrap() <= l@.len(),
{
    let ghost v = views(l@);
    if s >= l.len() {
        return None;
    }
    assert(v[s as int] == l@[s as int]@);
    if !starts_with_char(l[s], '[') {
        return None;
    }
    match first_closing(l, s, ']') {
        Some(e) => Some(e + 1),
        None => None,
    }
}

proof fn lemma_views_subrange(l: Seq<&str>, a: int, b: int)
    requires
        0 <= a <= b <= l.len(),
    ensures
        views(l.subrange(a, b)) == views(l).subrange(a, b),
{
    assert(views(l.subrange(a, b)) =~= views(l).subrange(a, b));
}

impl CombatantInfo {
    /// Decodes a combatant record: GUID, faction, twenty-one statistics, the
    /// specialization id, the talent list, the four pvp talents, the item list, the aura list and
    /// four pvp statistics. Where one of the lists is not where the record
    /// puts it, the record is malformed.
    pub fn parse(line: &[&str]) -> (r: Result<CombatantInfo, ParseError>)
        ensures
            r is Ok <==> combatant_ok(views(line@)),
            r matches Ok(c) ==> combatant_is(views(line@), c),
            combatant_layout(views(line@)) is None ==> r matches Err(
                ParseError::MalformedCombatantInfo,
            ),
    {
        let ghost v = views(line@);
        let n = line.len();
        let pvp = match section_end(line, 24) {
            Some(x) => x,
            None => {
                return malformed();
            },
        };
        if n < 4 || pvp > n - 4 {
            return malformed();
        }
        let items_end = match section_end(line, pvp + 4) {
            Some(x) => x,
            None => {
                return malformed();
            },
        };
        let auras_end = match section_end(line, items_end) {
            Some(x) => x,
            None => {
                return malformed();
            },
        };
        assert(v[pvp as int] == line@[pvp as int]@ && v[pvp + 3] == line@[pvp + 3]@);
        if !(n - auras_end == 4 && starts_with_char(line[pvp], '(') && ends_with_char(
            line[pvp + 3],
            ')',
        )) {
            return malformed();
        }
        assert(combatant_layout(v) == Some((pvp as int, items_end as int, auras_end as int)));
        assert(v[0] == line@[0]@ && v[1] == line@[1]@);
        let guid = match GUID::parse(line[0])? {
            Some(g) => g,
            None => {
                return Err(ParseError::MissingActor);
            },
        };
        let faction = Faction::parse(line[1])?;
        proof {
            lemma_views_subrange(line@, 2, 23);
            lemma_views_subrange(line@, 24, pvp as int);
            lemma_views_subrange(line@, pvp as int, pvp + 4);
            lemma_views_subrange(line@, pvp + 4, items_end as int);
            lemma_views_subrange(line@, items_end as int, auras_end as int);
            lemma_views_subrange(line@, auras_end as int, auras_end + 4);
        }
        let stats = CharacterStats::parse(&line[2..23])?;
        assert(v[23] == line@[23]@);
        let spec_id = parse_num(line[23])?;
        let talent_pieces = pieces(&line[24..pvp], '[', ']');
        let class_talents = ClassTalent::parse_vec(talent_pieces.as_slice())?;
        let pvp_pieces = pieces(&line[pvp..pvp + 4], '(', ')');
        let pvp_talents: [u64; 4] = match numbers(pvp_pieces.as_slice()) {
            Ok(a) => a,
            Err(e) => {
                assert(views(pvp_pieces@) == pvp_talent_texts(v, pvp as int));
                return Err(e);
            },
        };
        assert(views(pvp_pieces@) == pvp_talent_texts(v, pvp as int));
        let item_pieces = pieces(&line[pvp + 4..items_end], '[', ']');
        let equipped_items = EquippedItem::parse_vec(item_pieces.as_slice())?;
        let aura_pieces = pieces(&line[items_end..auras_end], '[', ']');
        let interesting_auras = InterestingAura::parse_vec(aura_pieces.as_slice())?;
        let pvp_stats = PVPStats::parse(&line[auras_end..n])?;
        Ok(
            CombatantInfo {
                guid,
                faction,
                stats,
                spec_id,
                class_talents,
                pvp_talents,
                equipped_items,
                interesting_auras,
                pvp_stats,
            },
        )
    }
}

} // verus!
