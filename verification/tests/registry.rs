use service_registry::capability::Capability;
use service_registry::registry::Registry;

fn record(name: &str, description: &str, url: &str) -> Capability {
    Capability {
        name: name.to_string(),
        description: description.to_string(),
        url: url.to_string(),
    }
}

#[test]
fn new_registry_is_empty() {
    let registry = Registry::new();
    assert_eq!(registry.list(), Vec::<Capability>::new());
    assert_eq!(registry.get("anything".to_string()), None);
}

#[test]
fn list_returns_every_registration_in_order() {
    let mut registry = Registry::new();
    let submitted = vec![
        record("weather", "forecasts", "http://x/weather"),
        record("maps", "tiles", "http://x/maps"),
        record("weather", "radar", "http://y/weather"),
        record("", "", ""),
        record("maps", "tiles", "http://x/maps"),
    ];
    for capability in &submitted {
        registry.register(capability.clone());
    }
    let listed = registry.list();
    assert_eq!(listed.len(), 5);
    assert_eq!(listed, submitted);
}

#[test]
fn register_grows_the_sequence_by_exactly_one() {
    let mut registry = Registry::new();
    for n in 0..10usize {
        assert_eq!(registry.list().len(), n);
        registry.register(record("same", "again", "http://x"));
    }
    assert_eq!(registry.list().len(), 10);
}

#[test]
fn get_returns_the_first_of_two_records_with_one_name() {
    let mut registry = Registry::new();
    registry.register(record("a", "first a", "http://x/1"));
    registry.register(record("b", "only b", "http://x/2"));
    registry.register(record("a", "second a", "http://x/3"));
    assert_eq!(
        registry.get("a".to_string()),
        Some(record("a", "first a", "http://x/1"))
    );
    assert_ne!(
        registry.get("a".to_string()),
        Some(record("a", "second a", "http://x/3"))
    );
    assert_eq!(
        registry.get("b".to_string()),
        Some(record("b", "only b", "http://x/2"))
    );
    assert_eq!(registry.list().len(), 3);
    assert_eq!(registry.list()[2], record("a", "second a", "http://x/3"));
}

#[test]
fn get_of_a_name_never_registered_finds_nothing() {
    let mut registry = Registry::new();
    registry.register(record("a", "first a", "http://x/1"));
    registry.register(record("b", "only b", "http://x/2"));
    assert_eq!(registry.get("c".to_string()), None);
    assert_eq!(registry.get("A".to_string()), None);
    assert_eq!(registry.get("".to_string()), None);
    assert_eq!(registry.get("ab".to_string()), None);
}

#[test]
fn get_matches_the_whole_name_only() {
    let mut registry = Registry::new();
    registry.register(record("weather-eu", "europe", "http://x/eu"));
    registry.register(record("weather", "world", "http://x/world"));
    assert_eq!(
        registry.get("weather".to_string()),
        Some(record("weather", "world", "http://x/world"))
    );
}

#[test]
fn empty_strings_are_legal_fields_and_names() {
    let mut registry = Registry::new();
    registry.register(record("", "", ""));
    assert_eq!(registry.get("".to_string()), Some(record("", "", "")));
    assert_eq!(registry.list(), vec![record("", "", "")]);
}

#[test]
fn list_twice_gives_identical_results() {
    let mut registry = Registry::new();
    registry.register(record("a", "first a", "http://x/1"));
    registry.register(record("b", "only b", "http://x/2"));
    let first = registry.list();
    let found = registry.get("a".to_string());
    let second = registry.list();
    assert_eq!(first, second);
    assert_eq!(found, Some(record("a", "first a", "http://x/1")));
}

#[test]
fn list_hands_out_an_independent_copy() {
    let mut registry = Registry::new();
    registry.register(record("a", "first a", "http://x/1"));
    let mut listed = registry.list();
    listed[0].name.push_str("-changed");
    listed.push(record("b", "made up", "http://x/2"));
    listed.remove(0);
    assert_eq!(registry.list(), vec![record("a", "first a", "http://x/1")]);
    assert_eq!(registry.get("b".to_string()), None);
}

#[test]
fn get_hands_out_an_independent_copy() {
    let mut registry = Registry::new();
    registry.register(record("a", "first a", "http://x/1"));
    let mut found = registry.get("a".to_string()).unwrap();
    found.url.clear();
    assert_eq!(
        registry.get("a".to_string()),
        Some(record("a", "first a", "http://x/1"))
    );
}

#[test]
fn capability_clone_keeps_all_three_fields() {
    let first = record("weather", "forecasts", "http://x/weather");
    let copy = first.clone();
    assert_eq!(copy.name, "weather");
    assert_eq!(copy.description, "forecasts");
    assert_eq!(copy.url, "http://x/weather");
    assert_eq!(copy, first);
}

#[test]
fn registry_clone_is_equal_and_independent() {
    let mut registry = Registry::new();
    registry.register(record("a", "first a", "http://x/1"));
    let mut copy = registry.clone();
    assert_eq!(copy.list(), registry.list());
    copy.register(record("b", "only b", "http://x/2"));
    assert_eq!(copy.list().len(), 2);
    assert_eq!(registry.list().len(), 1);
}

#[test]
fn registrations_in_any_order_keep_every_record() {
    let submitted: Vec<Capability> = (0..16)
        .map(|n| record(&format!("service-{n}"), "worker", &format!("http://x/{n}")))
        .collect();
    // Odd positions first, then even ones from the back: one of the orders in
    // which sixteen callers could have been served.
    let mut order: Vec<usize> = (0..16).filter(|n| n % 2 == 1).collect();
    order.extend((0..16).rev().filter(|n| n % 2 == 0));
    let mut registry = Registry::new();
    for &position in &order {
        registry.register(submitted[position].clone());
    }
    let listed = registry.list();
    assert_eq!(listed.len(), 16);
    for capability in &submitted {
        assert_eq!(listed.iter().filter(|held| *held == capability).count(), 1);
    }
    for (place, &position) in order.iter().enumerate() {
        assert_eq!(listed[place], submitted[position]);
    }
}
