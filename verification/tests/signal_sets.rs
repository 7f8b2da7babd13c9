use ctrlc::SignalSet;

#[test]
fn rejects_an_empty_request() {
    assert!(SignalSet::new(Vec::new()).is_none());
}

#[test]
fn collapses_duplicates() {
    let set = SignalSet::new(vec![2, 15, 2]).unwrap();
    assert_eq!(set.len(), 2);
    assert!(set.contains(2));
    assert!(set.contains(15));
    assert!(!set.contains(9));
}

#[test]
fn keeps_every_requested_identifier() {
    let set = SignalSet::new(vec![1, 2, 15]).unwrap();
    assert_eq!(set.len(), 3);
    for id in [1, 2, 15] {
        assert!(set.contains(id));
    }
    let ids = set.ids();
    assert_eq!(ids.len(), 3);
    for id in ids {
        assert!([1, 2, 15].contains(id));
    }
}

#[test]
fn a_single_identifier_suffices() {
    let set = SignalSet::new(vec![2]).unwrap();
    assert_eq!(set.len(), 1);
    assert!(set.contains(2));
}
