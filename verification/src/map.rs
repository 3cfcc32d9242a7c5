//! Tile-rule map generation: rule sets parsed from line-oriented rule files
//! are matched against a numeric tile grid, eight neighbors at a time, to
//! pick the drawable tile for each grid cell.

use vstd::prelude::*;
use std::collections::HashMap;

verus! {

broadcast use vstd::std_specs::hash::group_hash_axioms;

/// The wildcard pattern cell: it matches any neighbor.
pub const WILDCARD: u32 = 9;

/// The numeric value of a decimal digit character, if it is one.
pub open spec fn spec_digit(c: char) -> Option<u32> {
    if '0' <= c && c <= '9' {
        Some((c as u32 - '0' as u32) as u32)
    } else {
        None
    }
}

/// The numeric value of a decimal digit character, if it is one.
pub fn digit_of(c: char) -> (r: Option<u32>)
    ensures
        r == spec_digit(c),
{
    if c >= '0' && c <= '9' {
        Some(c as u32 - '0' as u32)
    } else {
        None
    }
}

/// One adjacency rule: the pattern the eight neighbors of a cell must show,
/// read row by row, the cell itself excluded. `0` demands an empty
/// neighbor, the wildcard accepts anything, and any other value demands a
/// non-empty neighbor whose tile kind the rule set accepts.
#[derive(PartialEq, Eq, Hash, PartialOrd, Ord, Debug)]
pub struct Rule {
    pub surround: [u32; 8],
}

/// Whether one pattern cell accepts one neighbor value, given the tile
/// kinds the rule set accepts.
pub open spec fn spec_cell_ok(pat: u32, other: u32, types: Seq<u32>) -> bool {
    ||| pat == WILDCARD
    ||| {
        &&& !(pat == 0 && other != 0)
        &&& !(pat == 1 && other == 0)
        &&& (other == 0 || types.contains(other))
    }
}

impl Rule {
    pub fn new(surround: [u32; 8]) -> (r: Rule)
        ensures
            r.surround == surround,
    {
        Rule { surround }
    }

    /// Whether this rule accepts the given eight neighbors.
    pub open spec fn spec_matches(&self, other_surround: Seq<u32>, types: Seq<u32>) -> bool {
        forall|i: int| 0 <= i < 8 ==> spec_cell_ok(self.surround@[i], #[trigger] other_surround[i], types)
    }

    pub fn check_rule(&self, other_surround: [u32; 8], types: &Vec<u32>) -> (r: bool)
        ensures
            r == self.spec_matches(other_surround@, types@),
    {
        let mut index: usize = 0;
        while index < 8
            invariant
                index <= 8,
                forall|i: int|
                    0 <= i < index ==> spec_cell_ok(
                        self.surround@[i],
                        #[trigger] other_surround@[i],
                        types@,
                    ),
            decreases 8 - index,
        {
            let pat = self.surround[index];
            let other = other_surround[index];
            if pat == WILDCARD {
            } else if (pat == 0 && other != 0) || (pat == 1 && other == 0) {
                return false;
            } else if other != 0 && !types_contain(types, other) {
                return false;
            }
            index = index + 1;
        }
        true
    }
}

/// Whether the accepted tile kinds include this value.
fn types_contain(types: &Vec<u32>, x: u32) -> (r: bool)
    ensures
        r == types@.contains(x),
{
    let n = types.len();
    let mut i: usize = 0;
    while i < n
        invariant
            i <= n,
            n == types@.len(),
            forall|k: int| 0 <= k < i ==> types@[k] != x,
        decreases n - i,
    {
        if types[i] == x {
            proof {
                assert(types@[i as int] == x);
            }
            return true;
        }
        i = i + 1;
    }
    false
}

/// The adjacency rules of one tile kind, in file order, with the tile kinds
/// the patterns accept as non-empty neighbors.
#[derive(PartialEq, Eq, Hash, PartialOrd, Ord, Debug)]
pub struct RuleSet {
    pub rules: Vec<Rule>,
    pub types: Vec<u32>,
}

impl RuleSet {
    pub fn new(types: Vec<u32>, tile_map: u32) -> (r: RuleSet)
        ensures
            r.rules@ == Seq::<Rule>::empty(),
            r.types == types,
    {
        let _ = tile_map;
        RuleSet { rules: Vec::new(), types }
    }

    pub fn default() -> (r: RuleSet)
        ensures
            r.rules@ == Seq::<Rule>::empty(),
            r.types@ == Seq::<u32>::empty(),
    {
        RuleSet { rules: Vec::new(), types: Vec::new() }
    }

    pub fn set_types(&mut self, types: Vec<u32>)
        ensures
            final(self).types == types,
            final(self).rules == old(self).rules,
    {
        self.types = types;
    }

    pub fn add_type(&mut self, num: u32)
        ensures
            final(self).types@ == old(self).types@.push(num),
            final(self).rules == old(self).rules,
    {
        self.types.push(num);
    }

    pub fn insert(&mut self, rule: Rule, tile: u32)
        ensures
            final(self).rules@ == old(self).rules@.push(rule),
            final(self).types == old(self).types,
    {
        let _ = tile;
        self.rules.push(rule);
    }
}

/// The accepted tile kinds a rule file's second line declares: the values
/// of its digit characters, in order, other characters skipped.
pub open spec fn spec_types_of(line: Seq<char>) -> Seq<u32>
    decreases line.len(),
{
    if line.len() == 0 {
        Seq::empty()
    } else {
        let front = spec_types_of(line.drop_last());
        match spec_digit(line.last()) {
            Some(v) => front.push(v),
            None => front,
        }
    }
}

/// The neighbor pattern one rule line declares: the digit at each of the
/// first eight positions, a missing or non-digit position standing for `0`.
pub open spec fn spec_surround_of(line: Seq<char>) -> Seq<u32> {
    Seq::new(
        8,
        |i: int|
            if i < line.len() {
                match spec_digit(line[i]) {
                    Some(v) => v,
                    None => 0u32,
                }
            } else {
                0u32
            },
    )
}

/// Whether a rule file is well formed enough to parse: its first line
/// starts with the digit naming the tile kind it rules.
pub open spec fn spec_file_accepted(lines: Seq<String>) -> bool {
    lines.len() > 0 && lines[0]@.len() > 0 && spec_digit(lines[0]@[0]) is Some
}

/// The tile kind a rule file names.
pub open spec fn spec_file_number(lines: Seq<String>) -> u32 {
    spec_digit(lines[0]@[0]).unwrap()
}

/// Whether a rule set holds exactly what a rule file declares: the accepted
/// kinds from the second line, one rule per later line.
pub open spec fn spec_rule_set_parses(lines: Seq<String>, rs: RuleSet) -> bool {
    &&& rs.types@ == if lines.len() >= 2 {
        spec_types_of(lines[1]@)
    } else {
        Seq::<u32>::empty()
    }
    &&& rs.rules@.len() == if lines.len() >= 2 {
        lines.len() - 2
    } else {
        0
    }
    &&& forall|k: int|
        0 <= k < rs.rules@.len() ==> (#[trigger] rs.rules@[k]).surround@ == spec_surround_of(
            lines[k + 2]@,
        )
}

/// The map: every tile kind's rule set, and the numeric tile grid with its
/// width and height.
#[derive(Debug)]
pub struct TileMap {
    pub rules: HashMap<u32, RuleSet>,
    pub tiles: (Vec<u32>, (u32, u32)),
}

/// A drawable tile chosen for one grid cell: the cell's grid coordinates
/// and the index of the first rule of its kind's rule set that matched.
#[derive(Clone, Copy, PartialEq, Eq, Structural, Debug)]
pub struct TilePlacement {
    pub x: u32,
    pub y: u32,
    pub rule_index: usize,
}

/// The tile values of the first `k` lines, concatenated in reading order.
pub open spec fn spec_tiles_of(lines: Seq<String>, k: int) -> Seq<u32>
    decreases k,
{
    if k <= 0 {
        Seq::empty()
    } else {
        spec_tiles_of(lines, k - 1) + lines[k - 1]@.map_values(
            |c: char|
                match spec_digit(c) {
                    Some(v) => v,
                    None => 0u32,
                },
        )
    }
}

/// Whether every character of every line is a decimal digit.
pub open spec fn spec_all_digits(lines: Seq<String>) -> bool {
    forall|i: int, j: int|
        0 <= i < lines.len() && 0 <= j < lines[i]@.len() ==> spec_digit(
            #[trigger] lines[i]@[j],
        ) is Some
}

/// The neighbor value at a flat grid offset: cells outside the grid read as
/// empty.
pub open spec fn spec_neighbor(tiles: Seq<u32>, idx: int) -> u32 {
    if 0 <= idx < tiles.len() {
        tiles[idx]
    } else {
        0u32
    }
}

/// The eight neighbors of the cell at flat position `pi` in a grid of the
/// given width, read row by row, the cell itself excluded.
pub open spec fn spec_surround_at(tiles: Seq<u32>, width: int, pi: int) -> Seq<u32> {
    seq![
        spec_neighbor(tiles, pi - width - 1),
        spec_neighbor(tiles, pi - width),
        spec_neighbor(tiles, pi - width + 1),
        spec_neighbor(tiles, pi - 1),
        spec_neighbor(tiles, pi + 1),
        spec_neighbor(tiles, pi + width - 1),
        spec_neighbor(tiles, pi + width),
        spec_neighbor(tiles, pi + width + 1),
    ]
}

impl TileMap {
    /// Assemble a map from rule-file contents and the tile-grid lines, all
    /// already read by the host. The grid must be non-empty and all digits;
    /// each rule file must open with the tile kind it rules.
    pub fn new(rule_contents: Vec<Vec<String>>, tile_map_lines: Vec<String>) -> (r: Option<TileMap>)
        requires
            tile_map_lines@.len() <= u32::MAX,
            forall|i: int|
                0 <= i < tile_map_lines@.len() ==> (#[trigger] tile_map_lines@[i])@.len()
                    <= u32::MAX,
        ensures
            match r {
                Some(m) => {
                    &&& tile_map_lines@.len() > 0
                    &&& spec_all_digits(tile_map_lines@)
                    &&& m.tiles.0@ == spec_tiles_of(tile_map_lines@, tile_map_lines@.len() as int)
                    &&& m.tiles.1.0 == tile_map_lines@[0]@.len()
                    &&& m.tiles.1.1 == tile_map_lines@.len()
                },
                None => !(tile_map_lines@.len() > 0 && spec_all_digits(tile_map_lines@))
                    || exists|i: int|
                    0 <= i < rule_contents@.len() && !spec_file_accepted(
                        #[trigger] rule_contents@[i]@,
                    ),
            },
    {
        let rules = match TileMap::generate_rules(rule_contents) {
            Some(rules) => rules,
            None => { return None; },
        };
        let tiles = match TileMap::generate_tiles(&tile_map_lines) {
            Some(tiles) => tiles,
            None => { return None; },
        };
        Some(TileMap { rules, tiles })
    }

    /// Parse the tile grid: one row per line, one digit per cell. The width
    /// is the first row's; a non-digit anywhere, or an empty grid, is
    /// rejected.
    pub fn generate_tiles(tile_map_lines: &Vec<String>) -> (r: Option<(Vec<u32>, (u32, u32))>)
        requires
            tile_map_lines@.len() <= u32::MAX,
            forall|i: int|
                0 <= i < tile_map_lines@.len() ==> (#[trigger] tile_map_lines@[i])@.len()
                    <= u32::MAX,
        ensures
            match r {
                Some(parsed) => {
                    &&& tile_map_lines@.len() > 0
                    &&& spec_all_digits(tile_map_lines@)
                    &&& parsed.0@ == spec_tiles_of(tile_map_lines@, tile_map_lines@.len() as int)
                    &&& parsed.1.0 == tile_map_lines@[0]@.len()
                    &&& parsed.1.1 == tile_map_lines@.len()
                },
                None => !(tile_map_lines@.len() > 0 && spec_all_digits(tile_map_lines@)),
            },
    {
        if tile_map_lines.len() == 0 {
            return None;
        }
        let x = tile_map_lines[0].as_str().unicode_len() as u32;
        let y = tile_map_lines.len() as u32;
        let mut vec: Vec<u32> = Vec::new();
        let n = tile_map_lines.len();
        let mut i: usize = 0;
        while i < n
            invariant
                i <= n,
                n == tile_map_lines@.len(),
                vec@ == spec_tiles_of(tile_map_lines@, i as int),
                forall|a: int, j: int|
                    0 <= a < i && 0 <= j < tile_map_lines@[a]@.len() ==> spec_digit(
                        #[trigger] tile_map_lines@[a]@[j],
                    ) is Some,
            decreases n - i,
        {
            let line: &str = tile_map_lines[i].as_str();
            let m = line.unicode_len();
            let mut j: usize = 0;
            while j < m
                invariant
                    j <= m,
                    m == line@.len(),
                    line@ == tile_map_lines@[i as int]@,
                    0 <= i < tile_map_lines@.len(),
                    vec@ == spec_tiles_of(tile_map_lines@, i as int) + line@.subrange(
                        0,
                        j as int,
                    ).map_values(
                        |c: char|
                            match spec_digit(c) {
                                Some(v) => v,
                                None => 0u32,
                            },
                    ),
                    forall|k: int| 0 <= k < j ==> spec_digit(#[trigger] line@[k]) is Some,
                decreases m - j,
            {
                let c = line.get_char(j);
                match digit_of(c) {
                    Some(v) => {
                        vec.push(v);
                        proof {
                            let f = |c: char|
                                match spec_digit(c) {
                                    Some(v) => v,
                                    None => 0u32,
                                };
                            assert(line@.subrange(0, j + 1).map_values(f) =~= line@.subrange(
                                0,
                                j as int,
                            ).map_values(f).push(v));
                        }
                    },
                    None => { return None; },
                }
                j = j + 1;
            }
            proof {
                assert(line@.subrange(0, m as int) =~= line@);
            }
            i = i + 1;
        }
        Some((vec, (x, y)))
    }

    /// Parse each rule file and collect the rule sets by the tile kind each
    /// file names; a later file ruling the same kind replaces the earlier
    /// one. A malformed file rejects the whole batch.
    pub fn generate_rules(rule_contents: Vec<Vec<String>>) -> (r: Option<HashMap<u32, RuleSet>>)
        ensures
            match r {
                Some(rules) => {
                    &&& forall|i: int|
                        0 <= i < rule_contents@.len() ==> spec_file_accepted(
                            #[trigger] rule_contents@[i]@,
                        )
                    &&& forall|i: int|
                        0 <= i < rule_contents@.len() && (forall|j: int|
                            i < j < rule_contents@.len() ==> spec_file_number(
                                #[trigger] rule_contents@[j]@,
                            ) != spec_file_number(rule_contents@[i]@))
                            ==> rules@.contains_key(spec_file_number(#[trigger] rule_contents@[i]@))
                            && spec_rule_set_parses(
                            rule_contents@[i]@,
                            rules@[spec_file_number(rule_contents@[i]@)],
                        )
                    &&& forall|k: u32|
                        rules@.contains_key(k) ==> exists|i: int|
                            0 <= i < rule_contents@.len() && spec_file_number(
                                #[trigger] rule_contents@[i]@,
                            ) == k
                },
                None => exists|i: int|
                    0 <= i < rule_contents@.len() && !spec_file_accepted(
                        #[trigger] rule_contents@[i]@,
                    ),
            },
    {
        let ghost contents0 = rule_contents@;
        let mut rules: HashMap<u32, RuleSet> = HashMap::new();
        let n = rule_contents.len();
        let mut i: usize = 0;
        while i < n
            invariant
                i <= n,
                n == rule_contents@.len(),
                rule_contents@ == contents0,
                forall|a: int|
                    0 <= a < i ==> spec_file_accepted(#[trigger] contents0[a]@),
                forall|a: int|
                    0 <= a < i && (forall|j: int|
                        a < j < i ==> spec_file_number(#[trigger] contents0[j]@)
                            != spec_file_number(contents0[a]@)) ==> rules@.contains_key(
                        spec_file_number(#[trigger] contents0[a]@),
                    ) && spec_rule_set_parses(
                        contents0[a]@,
                        rules@[spec_file_number(contents0[a]@)],
                    ),
                forall|k: u32|
                    rules@.contains_key(k) ==> exists|a: int|
                        0 <= a < i && spec_file_number(#[trigger] contents0[a]@) == k,
            decreases n - i,
        {
            let ok = TileMap::generate_rule_set(&rule_contents[i], &mut rules);
            if !ok {
                return None;
            }
            i = i + 1;
        }
        Some(rules)
    }

    /// Parse one rule file into the collection: its first line names the
    /// tile kind, its second the accepted neighbor kinds, and every further
    /// line one eight-cell neighbor pattern. A file whose first line does
    /// not open with a digit is rejected and the collection unchanged.
    pub fn generate_rule_set(rule_lines: &Vec<String>, rules: &mut HashMap<u32, RuleSet>) -> (ok:
        bool)
        ensures
            ok == spec_file_accepted(rule_lines@),
            ok ==> final(rules)@ == old(rules)@.insert(
                spec_file_number(rule_lines@),
                final(rules)@[spec_file_number(rule_lines@)],
            ) && spec_rule_set_parses(
                rule_lines@,
                final(rules)@[spec_file_number(rule_lines@)],
            ),
            !ok ==> final(rules)@ == old(rules)@,
    {
        if rule_lines.len() == 0 {
            return false;
        }
        let first: &str = rule_lines[0].as_str();
        if first.unicode_len() == 0 {
            return false;
        }
        let number = match digit_of(first.get_char(0)) {
            Some(v) => v,
            None => { return false; },
        };
        let mut rule_set = RuleSet::default();
        let n = rule_lines.len();
        // the accepted neighbor kinds, from the second line
        if n >= 2 {
            let line: &str = rule_lines[1].as_str();
            let m = line.unicode_len();
            let mut j: usize = 0;
            while j < m
                invariant
                    j <= m,
                    m == line@.len(),
                    line@ == rule_lines@[1]@,
                    rule_lines@.len() >= 2,
                    rule_set.rules@.len() == 0,
                    rule_set.types@ == spec_types_of(line@.subrange(0, j as int)),
                decreases m - j,
            {
                let ghost pre = rule_set.types@;
                let c = line.get_char(j);
                if let Some(num) = digit_of(c) {
                    rule_set.add_type(num);
                }
                proof {
                    assert(line@.subrange(0, j + 1).drop_last() =~= line@.subrange(0, j as int));
                    assert(line@.subrange(0, j + 1).last() == line@[j as int]);
                }
                j = j + 1;
            }
            proof {
                assert(line@.subrange(0, m as int) =~= line@);
            }
        }
        // one neighbor pattern per further line
        let mut count: usize = 2;
        while count < n
            invariant
                2 <= count <= n || (n < 2 && count == 2),
                n == rule_lines@.len(),
                rule_set.types@ == if rule_lines@.len() >= 2 {
                    spec_types_of(rule_lines@[1]@)
                } else {
                    Seq::<u32>::empty()
                },
                rule_set.rules@.len() == count - 2,
                forall|k: int|
                    0 <= k < rule_set.rules@.len()
                        ==> (#[trigger] rule_set.rules@[k]).surround@ == spec_surround_of(
                        rule_lines@[k + 2]@,
                    ),
            decreases n - count,
        {
            let line: &str = rule_lines[count].as_str();
            let m = line.unicode_len();
            let mut surround: [u32; 8] = [0, 0, 0, 0, 0, 0, 0, 0];
            let limit: usize = if m < 8 {
                m
            } else {
                8
            };
            let mut j: usize = 0;
            while j < limit
                invariant
                    j <= limit,
                    limit <= 8,
                    limit == if m < 8 {
                        m as int
                    } else {
                        8int
                    },
                    m == line@.len(),
                    line@ == rule_lines@[count as int]@,
                    0 <= count < rule_lines@.len(),
                    forall|k: int|
                        0 <= k < j ==> surround@[k] == spec_surround_of(line@)[k],
                    forall|k: int| j <= k < 8 ==> surround@[k] == 0,
                decreases limit - j,
            {
                let c = line.get_char(j);
                if let Some(num) = digit_of(c) {
                    surround[j] = num;
                }
                j = j + 1;
            }
            proof {
                assert(surround@ =~= spec_surround_of(line@));
            }
            rule_set.insert(Rule::new(surround), (count - 2) as u32);
            count = count + 1;
        }
        rules.insert(number, rule_set);
        true
    }
}


/// The first rule of the set that accepts the given neighbors, if any.
fn first_matching_rule(rule_set: &RuleSet, other_surround: [u32; 8]) -> (r: Option<usize>)
    ensures
        match r {
            Some(k) => k < rule_set.rules@.len() && rule_set.rules@[k as int].spec_matches(
                other_surround@,
                rule_set.types@,
            ) && forall|a: int|
                0 <= a < k ==> !(#[trigger] rule_set.rules@[a]).spec_matches(
                    other_surround@,
                    rule_set.types@,
                ),
            None => forall|a: int|
                0 <= a < rule_set.rules@.len() ==> !(#[trigger] rule_set.rules@[a]).spec_matches(
                    other_surround@,
                    rule_set.types@,
                ),
        },
{
    let n = rule_set.rules.len();
    let mut k: usize = 0;
    while k < n
        invariant
            k <= n,
            n == rule_set.rules@.len(),
            forall|a: int|
                0 <= a < k ==> !(#[trigger] rule_set.rules@[a]).spec_matches(
                    other_surround@,
                    rule_set.types@,
                ),
        decreases n - k,
    {
        if rule_set.rules[k].check_rule(other_surround, &rule_set.types) {
            return Some(k);
        }
        k = k + 1;
    }
    None
}

impl TileMap {
    /// The neighbor value at one flat offset of this map's grid, as
    /// `spec_neighbor` reads it.
    fn neighbor_at(tiles: &Vec<u32>, pi: usize, off_back: usize, off_fwd: usize) -> (r: u32)
        requires
            pi + off_fwd <= usize::MAX,
        ensures
            r == spec_neighbor(tiles@, pi - off_back + off_fwd),
    {
        if pi + off_fwd >= off_back {
            let j = pi + off_fwd - off_back;
            if j < tiles.len() {
                return tiles[j];
            }
        }
        0
    }

    /// Choose a drawable tile for every non-empty grid cell: the cell's
    /// eight neighbors are matched against its kind's rules, and the first
    /// rule that accepts them names the tile drawn there. A cell whose kind
    /// no rule accepts gets nothing.
    pub fn make_tile_objects(&self) -> (r: Vec<TilePlacement>)
        requires
            ({
                let (tiles, (width, _height)) = self.tiles;
                &&& width > 0
                &&& tiles@.len() <= u32::MAX
                &&& tiles@.len() + 2 * width + 2 <= usize::MAX
                &&& forall|pi: int|
                    0 <= pi < tiles@.len() && #[trigger] tiles@[pi] != 0
                        ==> self.rules@.contains_key(tiles@[pi])
            }),
        ensures
            ({
                let (tiles, (width, _height)) = self.tiles;
                // soundness: every placement is a non-empty cell whose first
                // matching rule is the one named
                &&& forall|j: int|
                    0 <= j < r@.len() ==> {
                        let p = #[trigger] r@[j];
                        let pi = p.y * width + p.x;
                        &&& p.x < width
                        &&& pi < tiles@.len()
                        &&& tiles@[pi as int] != 0
                        &&& self.rules@.contains_key(tiles@[pi as int])
                        &&& p.rule_index < self.rules@[tiles@[pi as int]].rules@.len()
                        &&& self.rules@[tiles@[pi as int]].rules@[
                            p.rule_index as int
                        ].spec_matches(
                            spec_surround_at(tiles@, width as int, pi as int),
                            self.rules@[tiles@[pi as int]].types@,
                        )
                        // first match wins: no earlier rule accepted the cell
                        &&& forall|a: int|
                            0 <= a < p.rule_index
                                ==> !(#[trigger] self.rules@[tiles@[pi as int]].rules@[
                                a
                            ]).spec_matches(
                                spec_surround_at(tiles@, width as int, pi as int),
                                self.rules@[tiles@[pi as int]].types@,
                            )
                    }
                // the placements come in ascending cell order: one per cell
                &&& forall|a: int, b: int|
                    0 <= a < b < r@.len() ==> (#[trigger] r@[a]).y * width + r@[a].x
                        < (#[trigger] r@[b]).y * width + r@[b].x
                // completeness: every non-empty cell with a matching rule
                // got a placement
                &&& forall|pi: int|
                    0 <= pi < tiles@.len() && #[trigger] tiles@[pi] != 0 && (exists|a: int|
                        0 <= a < self.rules@[tiles@[pi]].rules@.len()
                            && (#[trigger] self.rules@[tiles@[pi]].rules@[a]).spec_matches(
                            spec_surround_at(tiles@, width as int, pi),
                            self.rules@[tiles@[pi]].types@,
                        )) ==> exists|j: int|
                        0 <= j < r@.len() && (#[trigger] r@[j]).y * width + r@[j].x == pi
            }),
    {
        let width = self.tiles.1.0;
        let tiles = &self.tiles.0;
        let n = tiles.len();
        let w = width as usize;
        let mut r: Vec<TilePlacement> = Vec::new();
        let mut pi: usize = 0;
        while pi < n
            invariant
                pi <= n,
                w == self.tiles.1.0,
                w > 0,
                tiles == &self.tiles.0,
                n == tiles@.len(),
                n <= u32::MAX,
                n + 2 * w + 2 <= usize::MAX,
                forall|q: int|
                    0 <= q < tiles@.len() && #[trigger] tiles@[q] != 0
                        ==> self.rules@.contains_key(tiles@[q]),
                forall|j: int|
                    0 <= j < r@.len() ==> {
                        let p = #[trigger] r@[j];
                        let q = p.y * self.tiles.1.0 + p.x;
                        &&& p.x < self.tiles.1.0
                        &&& q < pi
                        &&& tiles@[q as int] != 0
                        &&& self.rules@.contains_key(tiles@[q as int])
                        &&& p.rule_index < self.rules@[tiles@[q as int]].rules@.len()
                        &&& self.rules@[tiles@[q as int]].rules@[
                            p.rule_index as int
                        ].spec_matches(
                            spec_surround_at(tiles@, self.tiles.1.0 as int, q as int),
                            self.rules@[tiles@[q as int]].types@,
                        )
                        &&& forall|a: int|
                            0 <= a < p.rule_index
                                ==> !(#[trigger] self.rules@[tiles@[q as int]].rules@[
                                a
                            ]).spec_matches(
                                spec_surround_at(tiles@, self.tiles.1.0 as int, q as int),
                                self.rules@[tiles@[q as int]].types@,
                            )
                    },
                forall|a: int, b: int|
                    0 <= a < b < r@.len() ==> (#[trigger] r@[a]).y * self.tiles.1.0 + r@[a].x
                        < (#[trigger] r@[b]).y * self.tiles.1.0 + r@[b].x,
                forall|q: int|
                    0 <= q < pi && #[trigger] tiles@[q] != 0 && (exists|a: int|
                        0 <= a < self.rules@[tiles@[q]].rules@.len()
                            && (#[trigger] self.rules@[tiles@[q]].rules@[a]).spec_matches(
                            spec_surround_at(tiles@, self.tiles.1.0 as int, q),
                            self.rules@[tiles@[q]].types@,
                        )) ==> exists|j: int|
                        0 <= j < r@.len() && (#[trigger] r@[j]).y * self.tiles.1.0 + r@[j].x == q,
            decreases n - pi,
        {
            let tile = tiles[pi];
            if tile != 0 {
                let rule_set = match self.rules.get(&tile) {
                    Some(rs) => rs,
                    None => {
                        proof {
                            assert(self.rules@.contains_key(tiles@[pi as int]));
                        }
                        unreached()
                    },
                };
                let surround: [u32; 8] = [
                    TileMap::neighbor_at(tiles, pi, w + 1, 0),
                    TileMap::neighbor_at(tiles, pi, w, 0),
                    TileMap::neighbor_at(tiles, pi, w, 1),
                    TileMap::neighbor_at(tiles, pi, 1, 0),
                    TileMap::neighbor_at(tiles, pi, 0, 1),
                    TileMap::neighbor_at(tiles, pi, 1, w),
                    TileMap::neighbor_at(tiles, pi, 0, w),
                    TileMap::neighbor_at(tiles, pi, 0, w + 1),
                ];
                proof {
                    assert(surround@ =~= spec_surround_at(tiles@, w as int, pi as int));
                }
                let found = first_matching_rule(rule_set, surround);
                let ghost prev = r@;
                if let Some(rule_index) = found {
                    let x = (pi % w) as u32;
                    let y = (pi / w) as u32;
                    proof {
                        assert(pi == (pi / w) * w + pi % w) by (nonlinear_arith)
                            requires w > 0;
                        assert(pi % w < w) by (nonlinear_arith)
                            requires w > 0;
                        assert(pi / w <= pi) by (nonlinear_arith)
                            requires w > 0;
                        assert(y == pi / w && x == pi % w);
                        assert(y * self.tiles.1.0 + x == pi);
                        assert(self.rules@[tiles@[pi as int]] == *rule_set);
                    }
                    r.push(TilePlacement { x, y, rule_index });
                    proof {
                        assert(r@[r@.len() - 1] == (TilePlacement { x, y, rule_index }));
                        assert forall|q: int|
                            0 <= q < pi + 1 && #[trigger] tiles@[q] != 0 && (exists|a: int|
                                0 <= a < self.rules@[tiles@[q]].rules@.len()
                                    && (#[trigger] self.rules@[tiles@[q]].rules@[
                                    a
                                ]).spec_matches(
                                    spec_surround_at(tiles@, self.tiles.1.0 as int, q),
                                    self.rules@[tiles@[q]].types@,
                                )) implies exists|j: int|
                            0 <= j < r@.len() && (#[trigger] r@[j]).y * self.tiles.1.0
                                + r@[j].x == q by {
                            if q < pi {
                                let j0 = choose|j: int|
                                    0 <= j < prev.len() && (#[trigger] prev[j]).y
                                        * self.tiles.1.0 + prev[j].x == q;
                                assert(r@[j0].y * self.tiles.1.0 + r@[j0].x == q);
                            } else {
                                assert(r@[r@.len() - 1].y * self.tiles.1.0 + r@[
                                    r@.len() - 1
                                ].x == q);
                            }
                        }
                    }
                }
            }
            pi = pi + 1;
        }
        r
    }
}

} // verus!
