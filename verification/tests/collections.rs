use clobster::collections::TextMap;

fn letters(map: &TextMap<u32>) -> Vec<(String, u32)> {
    (0..map.len()).map(|i| (map.key_at(i).clone(), *map.value_at(i))).collect()
}

fn pair(k: &str, v: u32) -> (String, u32) {
    (k.to_string(), v)
}

#[test]
fn a_map_keeps_the_order_of_first_insertion() {
    let mut m: TextMap<u32> = TextMap::new();
    assert!(m.is_empty());
    m.insert("b".to_string(), 1);
    m.insert("a".to_string(), 2);
    m.insert("c".to_string(), 3);
    m.insert("a".to_string(), 4);
    assert_eq!(letters(&m), vec![pair("b", 1), pair("a", 4), pair("c", 3)]);
    assert_eq!(m.len(), 3);
    assert_eq!(m.get("a"), Some(&4));
    assert_eq!(m.get("z"), None);
    assert!(m.contains_key("c") && !m.contains_key(""));
    assert_eq!(m.position("c"), Some(2));
    assert_eq!(m.position("d"), None);
}

#[test]
fn entries_leave_and_values_change_in_place() {
    let mut m: TextMap<u32> = TextMap::new();
    for (i, k) in ["a", "b", "c", "d"].iter().enumerate() {
        m.insert(k.to_string(), i as u32);
    }
    assert_eq!(m.remove("b"), Some(1));
    assert_eq!(m.remove("b"), None);
    assert_eq!(letters(&m), vec![pair("a", 0), pair("c", 2), pair("d", 3)]);
    *m.get_mut("c").unwrap() += 10;
    *m.value_at_mut(0) = 7;
    assert!(m.get_mut("b").is_none());
    assert_eq!(letters(&m), vec![pair("a", 7), pair("c", 12), pair("d", 3)]);
    assert_eq!(m.remove_at(1), pair("c", 12));
    m.insert_at(0, "z".to_string(), 9);
    m.push_new("y".to_string(), 8);
    assert_eq!(letters(&m), vec![pair("z", 9), pair("a", 7), pair("d", 3), pair("y", 8)]);
    let copy = m.clone();
    m.clear();
    assert!(m.is_empty());
    assert_eq!(letters(&copy).len(), 4);
}

#[test]
fn entries_are_kept_by_a_list_of_keys() {
    let filled = || {
        let mut m: TextMap<u32> = TextMap::new();
        for (i, k) in ["a", "b", "c", "d"].iter().enumerate() {
            m.insert(k.to_string(), i as u32);
        }
        m
    };
    let list = vec!["d".to_string(), "b".to_string(), "x".to_string()];
    let mut kept = filled();
    kept.retain_listed(&list, true);
    assert_eq!(letters(&kept), vec![pair("b", 1), pair("d", 3)]);
    let mut dropped = filled();
    dropped.retain_listed(&list, false);
    assert_eq!(letters(&dropped), vec![pair("a", 0), pair("c", 2)]);
    let mut none = filled();
    none.retain_listed(&vec![], true);
    assert!(none.is_empty());
    let mut all = filled();
    all.retain_listed(&vec![], false);
    assert_eq!(all.len(), 4);
}
