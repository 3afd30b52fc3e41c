use voicegate::icon::{get, init, lookup, IconEntry};

#[test]
fn lookup_finds_recorded_icon() {
    let set = init(vec![
        IconEntry { name: "a".to_string(), data: vec![1, 2] },
        IconEntry { name: "b".to_string(), data: vec![3] },
    ]);
    assert_eq!(lookup(&set, &"a".to_string()), Some(&vec![1, 2]));
    assert_eq!(lookup(&set, &"b".to_string()), Some(&vec![3]));
    assert_eq!(lookup(&set, &"c".to_string()), None);
}

#[test]
fn lookup_last_entry_wins() {
    let set = init(vec![
        IconEntry { name: "a".to_string(), data: vec![1] },
        IconEntry { name: "a".to_string(), data: vec![2] },
    ]);
    assert_eq!(lookup(&set, &"a".to_string()), Some(&vec![2]));
}

#[test]
fn get_returns_all_entries() {
    let set = init(vec![
        IconEntry { name: "x".to_string(), data: vec![9] },
    ]);
    let entries = get(&set);
    assert_eq!(entries.len(), 1);
    assert_eq!(entries[0].name, "x");
    assert_eq!(entries[0].data, vec![9]);
}
