use editor_extensions::prune::stale_entries;

fn names(list: &[&str]) -> Vec<Option<String>> {
    list.iter().map(|n| Some(n.to_string())).collect()
}

#[test]
fn older_version_goes_and_current_stays() {
    let entries = names(&["tool-0.9.0", "tool-1.0.0"]);
    assert_eq!(stale_entries(&entries, &"tool-1.0.0".to_string()), vec![0]);
}

#[test]
fn everything_but_the_current_directory_goes() {
    let entries = names(&["tool-1.0.0", "notes.txt", "tool-0.1.0", "tool-1.0.0-rc1"]);
    assert_eq!(stale_entries(&entries, &"tool-1.0.0".to_string()), vec![1, 2, 3]);
}

#[test]
fn entry_without_a_textual_name_goes() {
    let entries = vec![None, Some("tool-1.0.0".to_string()), None];
    assert_eq!(stale_entries(&entries, &"tool-1.0.0".to_string()), vec![0, 2]);
}

#[test]
fn nothing_to_prune_in_an_empty_directory() {
    let entries: Vec<Option<String>> = Vec::new();
    assert_eq!(stale_entries(&entries, &"tool-1.0.0".to_string()), Vec::<usize>::new());
}

#[test]
fn nothing_to_prune_when_only_the_current_directory_exists() {
    let entries = names(&["tool-1.0.0"]);
    assert_eq!(stale_entries(&entries, &"tool-1.0.0".to_string()), Vec::<usize>::new());
}

#[test]
fn everything_goes_when_the_current_directory_is_absent() {
    let entries = names(&["a", "b"]);
    assert_eq!(stale_entries(&entries, &"tool-1.0.0".to_string()), vec![0, 1]);
}
