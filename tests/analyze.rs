use otc::analyze::{inject_set_from_object_lit, prop_set_from_object_lit};
use otc::ast::{Expr, Prop, PropName};

fn kv(key: PropName, value: Expr) -> Prop {
    Prop::KeyValue { key, value }
}

#[test]
fn props_from_array_of_strings() {
    let e = Expr::Array(vec![Expr::Str("a".to_string()), Expr::Null, Expr::Str("b".to_string())]);
    assert_eq!(prop_set_from_object_lit(&e), Some(vec!["a".to_string(), "b".to_string()]));
}

#[test]
fn props_from_object_keys() {
    let e = Expr::Object(vec![
        kv(PropName::Ident("a".to_string()), Expr::Null),
        kv(PropName::Str("b".to_string()), Expr::Null),
        kv(PropName::Other(1), Expr::Null),
        Prop::Shorthand("c".to_string()),
    ]);
    assert_eq!(prop_set_from_object_lit(&e), Some(vec!["a".to_string(), "b".to_string()]));
}

#[test]
fn props_of_other_shape_are_absent() {
    assert_eq!(prop_set_from_object_lit(&Expr::Ident("p".to_string())), None);
}

#[test]
fn inject_entry_without_from_or_default_is_dropped() {
    let e = Expr::Object(vec![
        kv(PropName::Ident("a".to_string()), Expr::Object(vec![kv(PropName::Ident("x".to_string()), Expr::Null)])),
        kv(PropName::Ident("b".to_string()), Expr::Object(vec![Prop::Shorthand("default".to_string())])),
    ]);
    let injects = inject_set_from_object_lit(&e);
    assert_eq!(injects.len(), 1);
    assert_eq!(injects[0].name, "b");
    assert_eq!(injects[0].from, Expr::Str("b".to_string()));
    assert_eq!(injects[0].default, Some(Expr::Ident("default".to_string())));
}

#[test]
fn inject_of_other_shape_is_empty() {
    assert!(inject_set_from_object_lit(&Expr::Null).is_empty());
}

#[test]
fn inject_name_declared_twice_keeps_its_last_declaration() {
    let e = Expr::Array(vec![
        Expr::Str("a".to_string()),
        Expr::Str("b".to_string()),
        Expr::Str("a".to_string()),
    ]);
    let names: Vec<String> = inject_set_from_object_lit(&e).into_iter().map(|i| i.name).collect();
    assert_eq!(names, vec!["b".to_string(), "a".to_string()]);
}
