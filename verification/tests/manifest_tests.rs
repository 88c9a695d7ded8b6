use launcher_core::manifest::{diff_missing, object_path};

#[test]
fn diff_reports_all_when_directory_empty() {
    let paths = vec!["a/b.jar".to_string(), "c.json".to_string()];
    let present = vec![false, false];
    let missing = diff_missing(&paths, &present);
    assert_eq!(missing, vec!["a/b.jar".to_string(), "c.json".to_string()]);
}

#[test]
fn diff_reports_none_when_all_present() {
    let paths = vec!["a/b.jar".to_string(), "c.json".to_string()];
    let present = vec![true, true];
    let missing = diff_missing(&paths, &present);
    assert_eq!(missing.len(), 0);
}

#[test]
fn diff_preserves_input_order() {
    let paths = vec!["a".to_string(), "b".to_string(), "c".to_string(), "d".to_string()];
    let present = vec![true, false, true, false];
    let missing = diff_missing(&paths, &present);
    assert_eq!(missing, vec!["b".to_string(), "d".to_string()]);
}

#[test]
fn diff_of_empty_list_is_empty() {
    let paths: Vec<String> = vec![];
    let present: Vec<bool> = vec![];
    let missing = diff_missing(&paths, &present);
    assert_eq!(missing.len(), 0);
}

#[test]
fn object_path_concatenates_root_and_relative() {
    let p = object_path("/srv/objects/", "ab/cd.jar");
    assert_eq!(p, "/srv/objects/ab/cd.jar".to_string());
}

#[test]
fn object_path_inserts_missing_separator() {
    let p = object_path("/srv/objects", "ab/cd.jar");
    assert_eq!(p, "/srv/objects/ab/cd.jar".to_string());
}
