use graph_punk::resource::Resource;

struct TestResource(i32);
struct QueryResource();

#[derive(Debug)]
struct HealthResource(i32);
struct EmptyResource();

#[derive(Debug, PartialEq)]
struct Name(&'static str);

#[test]
fn test_add_resource() {
    let mut resource = Resource::new();

    resource.add("test", TestResource(22));

    if let Some(value) = resource.get_ref::<TestResource>("test") {
        assert_eq!(value.0, 22);
    } else {
        assert!(false);
    };
}

#[test]
fn test_query_resources() {
    let mut resource = Resource::new();

    resource.add("test_01", TestResource(11));
    resource.add("test_02", TestResource(22));

    resource.add("query_01", QueryResource());
    resource.add("query_02", QueryResource());
    resource.add("query_03", QueryResource());

    if let Some(query) = resource.query::<QueryResource>() {
        assert_eq!(query.len(), 3);
    } else {
        assert!(false);
    };
}

#[test]
fn test_graph_punk_add_resource() {
    let mut resource = Resource::new();

    resource.add("health", HealthResource(42));

    if let Some(value) = resource.get_ref::<HealthResource>("health") {
        assert_eq!(value.0, 42);
    } else {
        assert!(false);
    };
}

#[test]
fn test_graph_punk_query_resource() {
    let mut resource = Resource::new();

    resource.add("health_01", HealthResource(71));
    resource.add("health_02", HealthResource(22));
    resource.add("health_03", HealthResource(99));

    resource.add("empty_01", EmptyResource());
    resource.add("empty_02", EmptyResource());
    resource.add("empty_03", EmptyResource());
    resource.add("empty_04", EmptyResource());
    resource.add("empty_05", EmptyResource());

    if let Some(query) = resource.query::<EmptyResource>() {
        assert_eq!(query.len(), 5);
    } else {
        assert!(false);
    };
}

#[test]
fn health_then_mana_come_out_in_that_order() {
    let mut resource = Resource::new();

    resource.add("health", 42_i32);
    assert_eq!(resource.get_ref::<i32>("health"), Some(&42));

    resource.add("mana", 7_i32);
    assert_eq!(resource.query::<i32>(), Some(vec![&42, &7]));
}

#[test]
fn an_empty_store_has_nothing() {
    let resource = Resource::new();

    assert_eq!(resource.get_ref::<i32>("health"), None);
    assert!(resource.query::<i32>().is_none());
}

#[test]
fn query_mut_on_an_empty_store_gives_none() {
    let mut resource = Resource::new();

    assert!(resource.query_mut::<i32>().is_none());
}

#[test]
fn a_key_is_looked_up_under_its_type_only() {
    let mut resource = Resource::new();

    resource.add("health", 42_i32);

    assert_eq!(resource.get_ref::<i64>("health"), None);
    assert_eq!(resource.get_ref::<i32>("mana"), None);
    assert!(resource.query::<i64>().is_none());
}

#[test]
fn the_same_key_can_serve_two_types() {
    let mut resource = Resource::new();

    resource.add("value", 42_i32);
    resource.add("value", Name("forty-two"));

    assert_eq!(resource.get_ref::<i32>("value"), Some(&42));
    assert_eq!(resource.get_ref::<Name>("value"), Some(&Name("forty-two")));
    assert_eq!(resource.query::<i32>(), Some(vec![&42]));
}

#[test]
fn entries_come_out_in_the_order_they_were_added() {
    let mut resource = Resource::new();

    resource.add("c", Name("first"));
    resource.add("a", Name("second"));
    resource.add("unrelated", 1_u8);
    resource.add("b", Name("third"));

    assert_eq!(
        resource.query::<Name>(),
        Some(vec![&Name("first"), &Name("second"), &Name("third")])
    );
}

#[test]
fn adding_again_replaces_and_moves_to_the_end() {
    let mut resource = Resource::new();

    resource.add("a", 1_i32);
    resource.add("b", 2_i32);
    resource.add("c", 3_i32);
    resource.add("a", 10_i32);

    assert_eq!(resource.get_ref::<i32>("a"), Some(&10));
    assert_eq!(resource.query::<i32>(), Some(vec![&2, &3, &10]));
}

#[test]
fn query_mut_hands_out_the_values_in_order() {
    let mut resource = Resource::new();

    resource.add("a", 1_i32);
    resource.add("other", 3_u8);
    resource.add("b", 2_i32);

    let borrows = resource.query_mut::<i32>().unwrap();

    assert_eq!(borrows.len(), 2);
    assert_eq!(*borrows[0], 1);
    assert_eq!(*borrows[1], 2);
}

#[test]
fn query_mut_without_an_entry_of_the_type_gives_none() {
    let mut resource = Resource::new();

    resource.add("a", 1_i32);

    assert!(resource.query_mut::<i64>().is_none());
    assert_eq!(resource.get_ref::<i32>("a"), Some(&1));
}

#[test]
fn a_borrow_that_is_dropped_leaves_the_store_as_it_was() {
    let mut resource = Resource::new();

    resource.add("k", 1_i32);
    {
        let borrows = resource.query_mut::<i32>().unwrap();
        drop(borrows);
    }

    assert_eq!(resource.get_ref::<i32>("k"), Some(&1));
    assert_eq!(resource.query::<i32>(), Some(vec![&1]));
}

#[test]
fn what_is_written_through_a_borrow_is_read_afterwards() {
    let mut resource = Resource::new();

    resource.add("a", 1_i32);
    resource.add("b", 2_i32);

    let mut borrows = resource.query_mut::<i32>().unwrap();
    assert_eq!(borrows.len(), 2);
    assert_eq!(*borrows[0], 1);
    assert_eq!(*borrows[1], 2);
    *borrows[0] = 10;
    drop(borrows);

    assert_eq!(resource.get_ref::<i32>("a"), Some(&10));
    assert_eq!(resource.get_ref::<i32>("b"), Some(&2));
    assert_eq!(resource.query::<i32>(), Some(vec![&10, &2]));
}

#[test]
fn an_exclusive_borrow_leaves_other_types_and_the_order_alone() {
    let mut resource = Resource::new();

    resource.add("c", Name("first"));
    resource.add("n", 1_i32);
    resource.add("a", Name("second"));

    for name in resource.query_mut::<Name>().unwrap() {
        name.0 = "changed";
    }

    assert_eq!(resource.get_ref::<i32>("n"), Some(&1));
    assert_eq!(resource.get_ref::<Name>("c"), Some(&Name("changed")));
    assert_eq!(
        resource.query::<Name>(),
        Some(vec![&Name("changed"), &Name("changed")])
    );

    resource.add("c", Name("again"));
    assert_eq!(
        resource.query::<Name>(),
        Some(vec![&Name("changed"), &Name("again")])
    );
}

#[test]
fn the_store_can_be_borrowed_again_when_a_borrow_has_ended() {
    let mut resource = Resource::new();

    resource.add("a", 1_i32);

    for value in resource.query_mut::<i32>().unwrap() {
        *value += 1;
    }
    for value in resource.query_mut::<i32>().unwrap() {
        *value *= 10;
    }

    assert_eq!(resource.get_ref::<i32>("a"), Some(&20));
}
