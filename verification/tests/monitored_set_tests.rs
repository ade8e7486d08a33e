use ddns_monitor::monitored_set::MonitoredSet;

fn pairs(entries: &[(&str, &str)]) -> Vec<(String, String)> {
    entries
        .iter()
        .map(|(name, address)| (name.to_string(), address.to_string()))
        .collect()
}

#[test]
fn a_new_set_is_empty() {
    let set = MonitoredSet::new();
    assert!(set.is_empty());
    assert_eq!(set.len(), 0);
    assert_eq!(set.entries(), vec![]);
    assert_eq!(set.get("a"), None);
    assert_eq!(set.find("a"), None);
}

#[test]
fn entries_come_back_in_order() {
    let entries = pairs(&[("b", "2.2.2.2"), ("a", "1.1.1.1"), ("c", "3.3.3.3")]);
    let set = MonitoredSet::from_entries(entries.clone()).expect("well formed");
    assert!(!set.is_empty());
    assert_eq!(set.len(), 3);
    assert_eq!(set.entries(), entries);
    assert_eq!(set.name_at(0), "b");
    assert_eq!(set.address_at(0), "2.2.2.2");
    assert_eq!(set.name_at(2), "c");
    assert_eq!(set.address_at(2), "3.3.3.3");
}

#[test]
fn get_finds_the_address_of_a_host() {
    let set = MonitoredSet::from_entries(pairs(&[("a", "1.1.1.1"), ("b", "2.2.2.2")]))
        .expect("well formed");
    assert_eq!(set.get("a"), Some(&"1.1.1.1".to_string()));
    assert_eq!(set.get("b"), Some(&"2.2.2.2".to_string()));
    assert_eq!(set.get("c"), None);
    assert_eq!(set.get(""), None);
    assert_eq!(set.get("A"), None);
    assert_eq!(set.find("b"), Some(1));
    assert_eq!(set.find("c"), None);
}

#[test]
fn a_name_that_occurs_twice_keeps_its_place_and_the_last_address() {
    let set = MonitoredSet::from_entries(pairs(&[
        ("a", "1.1.1.1"),
        ("b", "2.2.2.2"),
        ("a", "3.3.3.3"),
    ]))
    .expect("well formed");
    assert_eq!(set.entries(), pairs(&[("a", "3.3.3.3"), ("b", "2.2.2.2")]));
}

#[test]
fn empty_names_and_addresses_are_refused() {
    assert_eq!(MonitoredSet::from_entries(pairs(&[("", "1.1.1.1")])), None);
    assert_eq!(MonitoredSet::from_entries(pairs(&[("a", "")])), None);
    assert_eq!(MonitoredSet::from_entries(pairs(&[("a", "1.1.1.1"), ("b", "")])), None);
    assert_eq!(MonitoredSet::from_entries(vec![]), Some(MonitoredSet::new()));
}

#[test]
fn a_copy_equals_the_set() {
    let set = MonitoredSet::from_entries(pairs(&[("a", "1.1.1.1"), ("b", "2.2.2.2")]))
        .expect("well formed");
    let copy = set.clone();
    assert_eq!(copy, set);
    assert_eq!(copy.entries(), set.entries());
}
