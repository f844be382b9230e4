use kentik_api::change::{upsert, port_text, Rule::{IP, Port}, Rules, Upsert};
use kentik_api::tag;

#[test]
fn upsert_basic() {
    let mut change = upsert("c_foo");
    change.value("bar").when(Port(22));

    assert_eq!(change, Upsert::of_rules("c_foo", "bar", Rules::One(Port(22))));
}

#[test]
fn upsert_multiple_values() {
    let mut change = upsert("c_foo");
    change.value("bar").when(Port(22));
    change.value("baz").when(Port(23));

    assert_eq!(
        change,
        Upsert::of_rule_list("c_foo", &[("bar", Port(22)), ("baz", Port(23))])
    );
}

#[test]
fn upsert_and_values() {
    let ip = "10.0.0.1".to_string();

    let mut change = upsert("c_foo");
    change.value("bar").when(IP(ip.clone())).and(Port(22));

    assert_eq!(
        change,
        Upsert::of_rules("c_foo", "bar", Rules::All(vec![IP(ip), Port(22)]))
    );
}

#[test]
fn upsert_same_value_twice_extends_rules() {
    let mut change = upsert("c_foo");
    change.value("bar").when(Port(1));
    change.value("bar").and(Port(2));

    assert_eq!(
        change,
        Upsert::of_rules("c_foo", "bar", Rules::All(vec![Port(1), Port(2)]))
    );
}

#[test]
fn rules_empty_until_set() {
    let mut change = upsert("c_foo");
    assert!(change.value("bar").is_empty());
    assert!(!change.value("bar").when(Port(80)).is_empty());
}

#[test]
fn port_text_renders_decimal() {
    assert_eq!("0", port_text(0));
    assert_eq!("7", port_text(7));
    assert_eq!("22", port_text(22));
    assert_eq!("100", port_text(100));
    assert_eq!("8080", port_text(8080));
    assert_eq!("65535", port_text(65535));
}

#[test]
fn into_parts_single_rule() {
    let change = Upsert::of_rules("c_dim", "web", Rules::One(Port(22)));
    let (column, upserts) = change.into_parts();

    assert_eq!("c_dim", column);
    let mut rule = tag::Rule::default();
    rule.port = Some(("22".to_string(),));
    let expected = tag::Upsert::Small(tag::Small {
        value: "web".to_string(),
        criteria: (rule,),
    });
    assert_eq!(vec![expected], upserts);
}

#[test]
fn into_parts_rule_conjunction() {
    let change = Upsert::of_rules(
        "c_dim",
        "db",
        Rules::All(vec![IP("10.0.0.1".to_string()), Port(5432)]),
    );
    let (column, upserts) = change.into_parts();

    assert_eq!("c_dim", column);
    let mut rules = tag::Rules::default();
    rules.addr.push("10.0.0.1".to_string());
    rules.port.push("5432".to_string());
    let expected = tag::Upsert::Large(tag::Large {
        value: "db".to_string(),
        criteria: vec![rules],
    });
    assert_eq!(vec![expected], upserts);
}

#[test]
fn into_parts_empty_rules_render_nothing() {
    let change = Upsert::of_rules("c_dim", "silent", Rules::Empty);
    let (column, upserts) = change.into_parts();

    assert_eq!("c_dim", column);
    assert_eq!(Vec::<tag::Upsert>::new(), upserts);
}

#[test]
fn into_parts_keeps_insertion_order() {
    let change = Upsert::of_rule_list("c_dim", &[("a", Port(1)), ("b", Port(2))]);
    let (_, upserts) = change.into_parts();

    let values: Vec<String> = upserts
        .iter()
        .map(|u| match u {
            tag::Upsert::Small(s) => s.value.clone(),
            tag::Upsert::Large(l) => l.value.clone(),
        })
        .collect();
    assert_eq!(vec!["a".to_string(), "b".to_string()], values);
}
