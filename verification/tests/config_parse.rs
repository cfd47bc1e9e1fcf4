use rosarium::config_parse::{
    expand_group_definition, get_properties, parse_usize, pick_and_apply_properties, str_eq, CountSpec,
    Properties,
};
use rosarium::prayer::_Prayer;

fn names(prayers: &[_Prayer]) -> Vec<String> {
    prayers.iter().map(|p| p.get_file()).collect()
}

#[test]
fn parse_usize_digits() {
    assert_eq!(parse_usize("0"), Some(0));
    assert_eq!(parse_usize("7"), Some(7));
    assert_eq!(parse_usize("123"), Some(123));
    assert_eq!(parse_usize(""), None);
    assert_eq!(parse_usize("1a"), None);
    assert_eq!(parse_usize("-1"), None);
    assert_eq!(parse_usize("99999999999999999999999999"), None);
}

#[test]
fn string_comparison() {
    assert!(str_eq("ave_maria", "ave_maria"));
    assert!(!str_eq("ave_maria", "ave"));
    assert!(!str_eq("ave", "eva"));
    assert!(str_eq("", ""));
}

#[test]
fn properties_from_explicit_count() {
    let p = get_properties(9, &CountSpec::Number(3), true, 50).unwrap();
    assert_eq!(p.count_min, 3);
    assert_eq!(p.count_max, 3);
    assert!(p.random);
    assert_eq!(p.chance, 50);
    let err = get_properties(9, &CountSpec::Number(-2), false, 100);
    assert!(err.is_err());
    assert_eq!(err.unwrap_err().message(), "Malformed YAML");
}

#[test]
fn properties_from_range_count() {
    let p = get_properties(9, &CountSpec::Range(String::from("2-5")), false, 100).unwrap();
    assert_eq!(p.count_min, 2);
    assert_eq!(p.count_max, 5);
    assert!(get_properties(9, &CountSpec::Range(String::from("25")), false, 100).is_err());
    assert!(get_properties(9, &CountSpec::Range(String::from("a-b")), false, 100).is_err());
    assert!(get_properties(9, &CountSpec::Range(String::from("2-")), false, 100).is_err());
}

#[test]
fn properties_default_to_whole_group() {
    let p = get_properties(4, &CountSpec::Absent, false, 100).unwrap();
    assert_eq!(p.count_min, 4);
    assert_eq!(p.count_max, 4);
}

#[test]
fn group_expansion() {
    let defs = vec![
        (
            String::from("psalmi"),
            vec![String::from("psalmus_I"), String::from("psalmus_II")],
        ),
        (String::from("hymni"), vec![String::from("te_deum")]),
    ];
    assert_eq!(
        names(&expand_group_definition(&defs, "psalmi")),
        vec!["psalmus_I", "psalmus_II"]
    );
    assert_eq!(names(&expand_group_definition(&defs, "hymni")), vec!["te_deum"]);
    // An unknown name stands for itself.
    assert_eq!(
        names(&expand_group_definition(&defs, "pater_noster")),
        vec!["pater_noster"]
    );
}

#[test]
fn picking_in_order_cycles_through_the_group() {
    let group = vec![
        _Prayer::new(String::from("a")),
        _Prayer::new(String::from("b")),
    ];
    let p = Properties { count_min: 1, count_max: 5, random: false, chance: 100 };
    let picked = pick_and_apply_properties(&group, &p, true, 5, &vec![]).unwrap();
    assert_eq!(names(&picked), vec!["a", "b", "a", "b", "a"]);
}

#[test]
fn picking_at_random_follows_the_draws() {
    let group = vec![
        _Prayer::new(String::from("a")),
        _Prayer::new(String::from("b")),
        _Prayer::new(String::from("c")),
    ];
    let p = Properties { count_min: 2, count_max: 2, random: true, chance: 100 };
    let picked = pick_and_apply_properties(&group, &p, true, 2, &vec![2, 0]).unwrap();
    assert_eq!(names(&picked), vec!["c", "a"]);
    // A draw outside the group is refused.
    assert!(pick_and_apply_properties(&group, &p, true, 2, &vec![3, 0]).is_err());
    // Too few draws are refused too.
    assert!(pick_and_apply_properties(&group, &p, true, 2, &vec![1]).is_err());
}

#[test]
fn missed_chance_picks_nothing() {
    let group = vec![_Prayer::new(String::from("a"))];
    let p = Properties { count_min: 1, count_max: 1, random: false, chance: 10 };
    let picked = pick_and_apply_properties(&group, &p, false, 1, &vec![]).unwrap();
    assert!(picked.is_empty());
}

#[test]
fn picking_from_an_empty_group_fails() {
    let group: Vec<_Prayer> = vec![];
    let p = Properties { count_min: 1, count_max: 1, random: false, chance: 100 };
    assert!(pick_and_apply_properties(&group, &p, true, 1, &vec![]).is_err());
    let pr = Properties { count_min: 1, count_max: 1, random: true, chance: 100 };
    assert!(pick_and_apply_properties(&group, &pr, true, 1, &vec![0]).is_err());
    // Zero prayers from an empty group is fine.
    assert!(pick_and_apply_properties(&group, &p, true, 0, &vec![]).unwrap().is_empty());
}
