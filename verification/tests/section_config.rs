use pdm_auth::section_config::SectionConfigData;
use pdm_auth::section_map::SectionMap;

fn sample() -> SectionConfigData<u32> {
    SectionConfigData::from_entries(vec![
        ("zeta".to_string(), 1),
        ("alpha".to_string(), 2),
        ("mid".to_string(), 3),
    ])
}

fn walk(data: &SectionConfigData<u32>) -> Vec<(String, u32)> {
    let mut out = Vec::new();
    let mut it = data.iter();
    while let Some((id, value)) = it.next() {
        out.push((id.to_string(), *value));
    }
    out
}

#[test]
fn a_map_sets_gets_and_removes() {
    let mut m: SectionMap<u32> = SectionMap::new();
    assert_eq!(m.len(), 0);
    assert_eq!(m.insert("a".to_string(), 1), None);
    assert_eq!(m.insert("b".to_string(), 2), None);
    assert_eq!(m.insert("a".to_string(), 3), Some(1));
    assert_eq!(m.len(), 2);
    assert!(m.contains_key("a"));
    assert!(!m.contains_key("c"));
    assert_eq!(m.get("a"), Some(&3));
    assert_eq!(m.get("b"), Some(&2));
    assert_eq!(m.get("c"), None);
    assert_eq!(m.remove("c"), None);
    assert_eq!(m.remove("a"), Some(3));
    assert_eq!(m.remove("a"), None);
    assert_eq!(m.len(), 1);
    assert_eq!(m.keys(), vec!["b"]);
    assert_eq!(m.into_entries(), vec![("b".to_string(), 2)]);
}

#[test]
fn the_keys_of_a_map_are_its_ids() {
    let mut m: SectionMap<u32> = SectionMap::new();
    for (i, id) in ["x", "y", "z", "y", "x"].iter().enumerate() {
        m.insert(id.to_string(), i as u32);
    }
    let mut keys = m.keys();
    keys.sort();
    assert_eq!(keys, vec!["x", "y", "z"]);
}

#[test]
fn new_data_is_empty() {
    let data: SectionConfigData<u32> = SectionConfigData::new();
    assert_eq!(data.len(), 0);
    assert!(data.order.is_empty());
    assert!(walk(&data).is_empty());
}

#[test]
fn iteration_follows_the_order_not_the_ids() {
    assert_eq!(
        walk(&sample()),
        vec![("zeta".to_string(), 1), ("alpha".to_string(), 2), ("mid".to_string(), 3)]
    );
}

#[test]
fn iteration_by_value_follows_the_order_too() {
    let mut it = sample().into_iter();
    assert_eq!(it.next(), Some(("zeta".to_string(), 1)));
    assert_eq!(it.next(), Some(("alpha".to_string(), 2)));
    assert_eq!(it.next(), Some(("mid".to_string(), 3)));
    assert_eq!(it.next(), None);
    assert_eq!(it.next(), None);
}

#[test]
fn a_new_id_goes_to_the_end_and_a_known_id_stays() {
    let mut data = sample();
    assert_eq!(data.insert("beta".to_string(), 4), None);
    assert_eq!(data.insert("alpha".to_string(), 5), Some(2));
    assert_eq!(data.order, vec!["zeta", "alpha", "mid", "beta"]);
    assert_eq!(
        walk(&data),
        vec![
            ("zeta".to_string(), 1),
            ("alpha".to_string(), 5),
            ("mid".to_string(), 3),
            ("beta".to_string(), 4)
        ]
    );
    assert_eq!(data.len(), 4);
}

#[test]
fn remove_takes_the_id_out_of_the_order() {
    let mut data = sample();
    assert_eq!(data.remove("alpha"), Some(2));
    assert_eq!(data.remove("alpha"), None);
    assert_eq!(data.remove("nope"), None);
    assert_eq!(data.order, vec!["zeta", "mid"]);
    assert!(!data.contains_key("alpha"));
    assert!(data.contains_key("mid"));
    assert_eq!(data.get("zeta"), Some(&1));
    assert_eq!(walk(&data), vec![("zeta".to_string(), 1), ("mid".to_string(), 3)]);
}

#[test]
fn ids_without_a_record_are_passed_over() {
    let mut data = sample();
    data.sections.remove("alpha");
    data.order.push("ghost".to_string());
    assert_eq!(walk(&data), vec![("zeta".to_string(), 1), ("mid".to_string(), 3)]);
    let mut it = data.into_iter();
    assert_eq!(it.next(), Some(("zeta".to_string(), 1)));
    assert_eq!(it.next(), Some(("mid".to_string(), 3)));
    assert_eq!(it.next(), None);
}

#[test]
fn records_from_a_map_are_all_walked() {
    let mut m: SectionMap<u32> = SectionMap::new();
    m.insert("a".to_string(), 1);
    m.insert("c".to_string(), 3);
    m.insert("b".to_string(), 2);
    m.insert("a".to_string(), 4);
    let data = SectionConfigData::from_sections(m);
    assert_eq!(data.len(), 3);
    assert_eq!(data.get("a"), Some(&4));
    let mut order = data.order.clone();
    order.sort();
    assert_eq!(order, vec!["a", "b", "c"]);
    let mut walked = walk(&data);
    walked.sort();
    assert_eq!(
        walked,
        vec![("a".to_string(), 4), ("b".to_string(), 2), ("c".to_string(), 3)]
    );
    let empty: SectionConfigData<u32> = SectionConfigData::from_sections(SectionMap::new());
    assert!(empty.order.is_empty());
}

#[test]
fn an_id_given_twice_keeps_its_first_place_and_its_later_record() {
    let data = SectionConfigData::from_entries(vec![
        ("a".to_string(), 1),
        ("b".to_string(), 2),
        ("a".to_string(), 3),
        ("c".to_string(), 4),
        ("b".to_string(), 5),
    ]);
    assert_eq!(data.order, vec!["a", "b", "c"]);
    assert_eq!(data.len(), 3);
    assert_eq!(data.get("a"), Some(&3));
    assert_eq!(
        walk(&data),
        vec![("a".to_string(), 3), ("b".to_string(), 5), ("c".to_string(), 4)]
    );
    let mut it = data.into_iter();
    assert_eq!(it.next(), Some(("a".to_string(), 3)));
    assert_eq!(it.next(), Some(("b".to_string(), 5)));
    assert_eq!(it.next(), Some(("c".to_string(), 4)));
    assert_eq!(it.next(), None);
}

#[test]
fn an_order_list_that_names_an_id_twice_hands_it_out_twice_by_reference() {
    let mut data = sample();
    data.order.push("zeta".to_string());
    assert_eq!(
        walk(&data),
        vec![
            ("zeta".to_string(), 1),
            ("alpha".to_string(), 2),
            ("mid".to_string(), 3),
            ("zeta".to_string(), 1)
        ]
    );
}

#[test]
fn a_copy_has_the_same_records_in_the_same_order() {
    let data = sample();
    let mut copy = data.clone();
    assert_eq!(copy.order, data.order);
    assert_eq!(walk(&copy), walk(&data));
    copy.insert("new".to_string(), 9);
    assert_eq!(data.len(), 3);
    assert_eq!(copy.len(), 4);
    let mut m: SectionMap<u32> = SectionMap::new();
    m.insert("k".to_string(), 7);
    let n = m.clone();
    m.remove("k");
    assert_eq!(n.get("k"), Some(&7));
    assert_eq!(n.len(), 1);
}

#[test]
fn the_default_is_empty_data() {
    let data: SectionConfigData<u32> = SectionConfigData::default();
    assert_eq!(data.len(), 0);
    assert!(data.order.is_empty());
    assert!(!data.contains_key("a"));
}
