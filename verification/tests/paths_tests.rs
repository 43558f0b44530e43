use runtime_measurer::paths::{bytes_eq, bytes_lt, plan_paths};

#[test]
fn bytes_lt_is_lexicographic() {
    assert!(bytes_lt(&b"a".to_vec(), &b"b".to_vec()));
    assert!(bytes_lt(&b"a".to_vec(), &b"ab".to_vec()));
    assert!(!bytes_lt(&b"ab".to_vec(), &b"a".to_vec()));
    assert!(!bytes_lt(&b"a".to_vec(), &b"a".to_vec()));
    assert!(bytes_lt(&Vec::new(), &b"a".to_vec()));
    assert!(!bytes_lt(&Vec::new(), &Vec::new()));
}

#[test]
fn bytes_eq_compares_content() {
    assert!(bytes_eq(&b"abc".to_vec(), &b"abc".to_vec()));
    assert!(!bytes_eq(&b"abc".to_vec(), &b"abd".to_vec()));
    assert!(!bytes_eq(&b"abc".to_vec(), &b"ab".to_vec()));
    assert!(bytes_eq(&Vec::new(), &Vec::new()));
}

#[test]
fn plan_sorts_lexicographically() {
    let found = vec![b"/c".to_vec(), b"/a".to_vec(), b"/b".to_vec()];
    let plan = plan_paths(&found);
    assert_eq!(plan, vec![b"/a".to_vec(), b"/b".to_vec(), b"/c".to_vec()]);
}

#[test]
fn overlapping_patterns_yield_one_entry_per_file() {
    let found = vec![
        b"/etc/x.conf".to_vec(),
        b"/etc/y.conf".to_vec(),
        b"/etc/x.conf".to_vec(),
        b"/etc/x.conf".to_vec(),
    ];
    let plan = plan_paths(&found);
    assert_eq!(plan, vec![b"/etc/x.conf".to_vec(), b"/etc/y.conf".to_vec()]);
}

#[test]
fn plan_is_deterministic_in_the_path_set() {
    let one = plan_paths(&vec![b"/b".to_vec(), b"/a".to_vec(), b"/c".to_vec()]);
    let two = plan_paths(&vec![b"/c".to_vec(), b"/c".to_vec(), b"/a".to_vec(), b"/b".to_vec()]);
    assert_eq!(one, two);
}

#[test]
fn plan_of_nothing_is_empty() {
    let plan = plan_paths(&Vec::new());
    assert!(plan.is_empty());
}
