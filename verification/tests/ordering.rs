//! The two sorting accessors of `OrderEnum`, on concrete values.
use fomod::{OrderEnum, Plugin};

fn plugin(name: &str) -> Plugin {
    Plugin {
        name: name.to_string(),
        description: String::new(),
        image: None,
        files: Vec::new(),
        condition_flags: Vec::new(),
        type_descriptor: None,
    }
}

fn names(plugins: &[Plugin]) -> Vec<String> {
    plugins.iter().map(|p| p.name.clone()).collect()
}

#[test]
fn ascending_sorts_by_name() {
    let oe = OrderEnum::Ascending(vec![plugin("beta"), plugin("alpha"), plugin("gamma")]);
    let sorted = oe.vec_sorted();
    assert_eq!(names(&sorted), vec!["alpha", "beta", "gamma"]);
}

#[test]
fn explicit_keeps_stored_order() {
    let oe = OrderEnum::Explicit(vec![plugin("beta"), plugin("alpha"), plugin("gamma")]);
    let sorted = oe.vec_sorted();
    assert_eq!(names(&sorted), vec!["beta", "alpha", "gamma"]);
}

#[test]
fn descending_currently_sorts_ascending() {
    let oe = OrderEnum::Descending(vec![plugin("beta"), plugin("alpha")]);
    let sorted = oe.vec_sorted();
    assert_eq!(names(&sorted), vec!["alpha", "beta"]);
}

#[test]
fn ascending_sort_is_idempotent() {
    let oe = OrderEnum::Ascending(vec![plugin("b"), plugin("c"), plugin("a")]);
    let once = oe.vec_sorted();
    let copies: Vec<Plugin> = once.iter().map(|p| p.duplicate()).collect();
    let again = OrderEnum::Ascending(copies).vec_sorted();
    assert_eq!(names(&once), names(&again));
}

#[test]
fn sort_is_stable_for_equal_keys() {
    let mut first = plugin("same");
    first.description = "first".to_string();
    let mut second = plugin("same");
    second.description = "second".to_string();
    let oe = OrderEnum::Ascending(vec![first, second]);
    let sorted = oe.vec_sorted();
    assert_eq!(sorted[0].description, "first");
    assert_eq!(sorted[1].description, "second");
}

#[test]
fn vec_sorted_mut_sorts_in_place_and_keeps_tag() {
    let mut oe = OrderEnum::Ascending(vec![plugin("z"), plugin("a")]);
    oe.vec_sorted_mut();
    match &oe {
        OrderEnum::Ascending(v) => assert_eq!(names(v), vec!["a", "z"]),
        other => panic!("expected the Ascending tag to be kept, got {:?}", other),
    }

    let mut ex = OrderEnum::Explicit(vec![plugin("z"), plugin("a")]);
    ex.vec_sorted_mut();
    match &ex {
        OrderEnum::Explicit(v) => assert_eq!(names(v), vec!["z", "a"]),
        other => panic!("expected the Explicit tag to be kept, got {:?}", other),
    }
}

#[test]
fn default_order_is_empty_ascending() {
    let oe: OrderEnum<Plugin> = Default::default();
    assert!(matches!(oe, OrderEnum::Ascending(v) if v.is_empty()));
}
