//! Content pipelines: tile-rule parsing, rule matching, and asset-name
//! handling.

use bud_brawl::assets::{check_extension, split_file_name};
use bud_brawl::map::{digit_of, Rule, RuleSet, TileMap, TilePlacement};

fn lines(raw: &[&str]) -> Vec<String> {
    raw.iter().map(|s| String::from(*s)).collect()
}

#[test]
fn digits_parse() {
    assert_eq!(digit_of('0'), Some(0));
    assert_eq!(digit_of('7'), Some(7));
    assert_eq!(digit_of('9'), Some(9));
    assert_eq!(digit_of('a'), None);
    assert_eq!(digit_of(' '), None);
}

#[test]
fn tiles_parse_row_by_row() {
    let parsed = TileMap::generate_tiles(&lines(&["123", "406"]));
    let (tiles, (width, height)) = parsed.expect("a digit grid parses");
    assert_eq!(tiles, vec![1, 2, 3, 4, 0, 6]);
    assert_eq!((width, height), (3, 2));
    assert!(TileMap::generate_tiles(&lines(&["12x"])).is_none());
    assert!(TileMap::generate_tiles(&Vec::new()).is_none());
}

#[test]
fn rule_matching_honors_wildcards_and_types() {
    // pattern: wildcard everywhere except a demanded-empty top-left and a
    // demanded-occupied left
    let rule = Rule::new([0, 9, 9, 1, 9, 9, 9, 9]);
    let types = vec![1, 2];
    assert!(rule.check_rule([0, 5, 0, 1, 0, 0, 0, 0], &types));
    // the demanded-empty cell is occupied
    assert!(!rule.check_rule([1, 0, 0, 1, 0, 0, 0, 0], &types));
    // the demanded-occupied cell is empty
    assert!(!rule.check_rule([0, 0, 0, 0, 0, 0, 0, 0], &types));
    // a demanded-occupied neighbor of an unaccepted kind fails the rule
    assert!(!rule.check_rule([0, 0, 0, 3, 0, 0, 0, 0], &types));
    // a wildcard cell accepts even an unaccepted kind
    assert!(rule.check_rule([0, 3, 0, 1, 0, 0, 0, 0], &types));
}

#[test]
fn rule_set_accumulates() {
    let mut rule_set = RuleSet::default();
    rule_set.add_type(1);
    rule_set.add_type(2);
    rule_set.insert(Rule::new([9; 8]), 0);
    assert_eq!(rule_set.types, vec![1, 2]);
    assert_eq!(rule_set.rules.len(), 1);
    let other = RuleSet::new(vec![3], 7);
    assert_eq!(other.types, vec![3]);
    assert!(other.rules.is_empty());
    let mut replaced = RuleSet::default();
    replaced.set_types(vec![4, 5]);
    assert_eq!(replaced.types, vec![4, 5]);
}

#[test]
fn rule_files_parse_into_rule_sets() {
    let file = vec![lines(&["1", "12", "99990999", "00011999"])];
    let rules = TileMap::generate_rules(file).expect("a well-formed rule file parses");
    let rule_set = rules.get(&1).expect("the file rules tile kind 1");
    assert_eq!(rule_set.types, vec![1, 2]);
    assert_eq!(rule_set.rules.len(), 2);
    assert_eq!(rule_set.rules[0].surround, [9, 9, 9, 9, 0, 9, 9, 9]);
    assert_eq!(rule_set.rules[1].surround, [0, 0, 0, 1, 1, 9, 9, 9]);
    // a file that does not open with a digit rejects the batch
    assert!(TileMap::generate_rules(vec![lines(&["x", "12"])]).is_none());
}

#[test]
fn short_rule_lines_pad_with_zeroes() {
    let file = vec![lines(&["2", "2", "91"])];
    let rules = TileMap::generate_rules(file).unwrap();
    let rule_set = rules.get(&2).unwrap();
    assert_eq!(rule_set.rules[0].surround, [9, 1, 0, 0, 0, 0, 0, 0]);
}

#[test]
fn map_places_tiles_by_first_matching_rule() {
    // one tile kind whose only rule demands an occupied right neighbor
    let rule_files = vec![lines(&["1", "1", "99991999"])];
    let tile_lines = lines(&["110", "000"]);
    let map = TileMap::new(rule_files, tile_lines).expect("map assembles");
    let placements: Vec<TilePlacement> = map.make_tile_objects();
    // only the cell at (0, 0) has an occupied right neighbor
    assert_eq!(placements.len(), 1);
    assert_eq!((placements[0].x, placements[0].y), (0, 0));
    assert_eq!(placements[0].rule_index, 0);
}

#[test]
fn extensions_match_by_content() {
    assert!(check_extension("png", &["png", "jpg", "jpeg"]));
    assert!(check_extension("jpeg", &["png", "jpg", "jpeg"]));
    assert!(!check_extension("wav", &["png", "jpg", "jpeg"]));
    assert!(!check_extension("png", &[]));
}

#[test]
fn file_names_split_at_first_dot() {
    let (stem, ext) = split_file_name("bud_2.png").expect("a dotted name splits");
    assert_eq!(stem, "bud_2");
    assert_eq!(ext, "png");
    let (stem2, ext2) = split_file_name("archive.tar.gz").expect("first dot wins");
    assert_eq!(stem2, "archive");
    assert_eq!(ext2, "tar.gz");
    assert!(split_file_name("README").is_none());
}
