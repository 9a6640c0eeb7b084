use fleet_check::discover::{has_json_name, Discovery, Entry, EntryKind};

fn entry(name: &str, path: &str, kind: EntryKind) -> Entry {
    Entry { name: String::from(name), path: String::from(path), kind }
}

#[test]
fn json_names_need_a_stem_and_the_exact_lowercase_marker() {
    assert!(has_json_name("a.json"));
    assert!(has_json_name("fleet.data.json"));
    assert!(!has_json_name(".json"));
    assert!(!has_json_name("json"));
    assert!(!has_json_name("a.JSON"));
    assert!(!has_json_name("a.jsonx"));
    assert!(!has_json_name("a.txt"));
    assert!(has_json_name("..json"));
}

#[test]
fn walk_collects_each_candidate_once_across_depths() {
    let mut walk = Discovery::new(String::from("root"));

    let dir = walk.next_dir().expect("the root is pending");
    assert_eq!(dir, "root");
    walk.record_entries(vec![
        entry("a.json", "root/a.json", EntryKind::File),
        entry("sub", "root/sub", EntryKind::Directory),
        entry("notes.txt", "root/notes.txt", EntryKind::File),
    ]);

    let dir = walk.next_dir().expect("the subdirectory is pending");
    assert_eq!(dir, "root/sub");
    walk.record_entries(vec![
        entry("deep", "root/sub/deep", EntryKind::Directory),
        entry("b.json", "root/sub/b.json", EntryKind::File),
    ]);

    let dir = walk.next_dir().expect("the deep directory is pending");
    assert_eq!(dir, "root/sub/deep");
    walk.record_entries(vec![entry("c.json", "root/sub/deep/c.json", EntryKind::File)]);

    assert_eq!(walk.next_dir(), None);
    let found = walk.into_found();
    assert_eq!(found, vec![
        String::from("root/a.json"),
        String::from("root/sub/b.json"),
        String::from("root/sub/deep/c.json"),
    ]);
}

#[test]
fn walk_of_an_empty_directory_finds_nothing() {
    let mut walk = Discovery::new(String::from("root"));
    let dir = walk.next_dir().expect("the root is pending");
    walk.record_entries(vec![]);
    assert_eq!(dir, "root");
    assert_eq!(walk.next_dir(), None);
    assert_eq!(walk.into_found(), Vec::<String>::new());
}

#[test]
fn directories_and_other_entries_are_not_candidates() {
    let mut walk = Discovery::new(String::from("root"));
    walk.next_dir().expect("the root is pending");
    walk.record_entries(vec![
        entry("dir.json", "root/dir.json", EntryKind::Directory),
        entry("link.json", "root/link.json", EntryKind::Other),
    ]);
    // the directory named like a candidate is still descended into
    assert_eq!(walk.next_dir(), Some(String::from("root/dir.json")));
    walk.record_entries(vec![]);
    assert_eq!(walk.next_dir(), None);
    assert_eq!(walk.into_found(), Vec::<String>::new());
}
