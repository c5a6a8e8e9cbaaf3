use win_context_menu::shell::{same_components, ParentTracker, PidlSizer};
use win_context_menu::Error;

fn parts(p: &[&str]) -> Vec<String> {
    p.iter().map(|s| s.to_string()).collect()
}

#[test]
fn empty_selection_has_no_common_parent() {
    assert_eq!(ParentTracker::start(0).err(), Some(Error::NoCommonParent));
    assert!(ParentTracker::start(2).is_ok());
}

#[test]
fn same_folder_is_accepted() {
    let mut t = ParentTracker::start(2).unwrap();
    assert!(t.observe(Some(parts(&["C:\\", "Windows"]))).is_ok());
    assert!(t.observe(Some(parts(&["C:\\", "Windows"]))).is_ok());
}

#[test]
fn different_folders_are_refused() {
    let mut t = ParentTracker::start(2).unwrap();
    assert!(t.observe(Some(parts(&["C:\\", "Windows"]))).is_ok());
    assert_eq!(t.observe(Some(parts(&["C:\\"]))), Err(Error::NoCommonParent));
}

#[test]
fn root_then_folder_is_refused() {
    let mut t = ParentTracker::start(2).unwrap();
    assert!(t.observe(None).is_ok());
    assert_eq!(t.observe(Some(parts(&["C:\\"]))), Err(Error::NoCommonParent));
}

#[test]
fn folder_then_root_is_refused() {
    let mut t = ParentTracker::start(2).unwrap();
    assert!(t.observe(Some(parts(&["C:\\", "Windows"]))).is_ok());
    assert_eq!(t.observe(None), Err(Error::NoCommonParent));
}

#[test]
fn roots_alone_are_accepted() {
    let mut t = ParentTracker::start(1).unwrap();
    assert!(t.observe(None).is_ok());
    let mut t = ParentTracker::start(2).unwrap();
    assert!(t.observe(None).is_ok());
    assert!(t.observe(None).is_ok());
}

#[test]
fn third_path_in_other_folder_is_refused() {
    let mut t = ParentTracker::start(3).unwrap();
    assert!(t.observe(Some(parts(&["C:\\", "Users"]))).is_ok());
    assert!(t.observe(Some(parts(&["C:\\", "Users"]))).is_ok());
    assert_eq!(t.observe(Some(parts(&["D:\\"]))), Err(Error::NoCommonParent));
}

#[test]
fn components_compare_exactly() {
    assert!(same_components(&parts(&["a", "b"]), &parts(&["a", "b"])));
    assert!(!same_components(&parts(&["a", "b"]), &parts(&["a", "B"])));
    assert!(!same_components(&parts(&["a"]), &parts(&["a", "b"])));
    assert!(same_components(&parts(&[]), &parts(&[])));
}

#[test]
fn pidl_size_sums_records() {
    let mut s = PidlSizer::new();
    assert!(!s.feed(20));
    assert!(!s.feed(14));
    assert!(s.feed(0));
    assert!(s.is_finished());
    assert_eq!(s.size(), 34);
}

#[test]
fn empty_pidl_has_size_zero() {
    let mut s = PidlSizer::new();
    assert!(s.feed(0));
    assert_eq!(s.size(), 0);
}
