use charms_prover_client::{render, Bindings, CharmsService};

#[test]
fn test_build_spell() {
    let service = CharmsService::new("https://v8.charms.dev/spells/prove".to_string(), true);

    let template = "version: 8\naddress: ${addr}";
    let mut vars = Bindings::new();
    vars.insert("addr".to_string(), "tb1q...".to_string());

    let result = service.build_spell(template, &vars);
    assert!(result.contains("tb1q..."));
}

#[test]
fn substitutes_every_bound_placeholder() {
    let mut vars = Bindings::new();
    vars.insert("a".to_string(), "x1".to_string());
    vars.insert("b".to_string(), "y2".to_string());
    let out = render("version: 8\nfirst: ${a}\nsecond: ${b}\nagain: ${a}", &vars);
    assert_eq!(out, "version: 8\nfirst: x1\nsecond: y2\nagain: x1");
    assert!(!out.contains("${"));
}

#[test]
fn unbound_placeholder_passes_through() {
    let vars = Bindings::new();
    let out = render("value: ${missing}", &vars);
    assert_eq!(out, "value: ${missing}");
}

#[test]
fn unclosed_placeholder_passes_through() {
    let mut vars = Bindings::new();
    vars.insert("x".to_string(), "1".to_string());
    let out = render("broken: ${x", &vars);
    assert_eq!(out, "broken: ${x");
}

#[test]
fn empty_template_renders_empty() {
    let mut vars = Bindings::new();
    vars.insert("a".to_string(), "v".to_string());
    assert_eq!(render("", &vars), "");
}

#[test]
fn substituted_values_are_not_rescanned() {
    let mut vars = Bindings::new();
    vars.insert("a".to_string(), "${b}".to_string());
    vars.insert("b".to_string(), "x".to_string());
    // The value bound to `a` contains a placeholder-shaped string; a single
    // pass emits it verbatim instead of substituting `b` into it.
    let out = render("${a}", &vars);
    assert_eq!(out, "${b}");
}

#[test]
fn render_is_order_independent() {
    let template = "v: ${a} ${b} ${c}";

    let mut one = Bindings::new();
    one.insert("a".to_string(), "1".to_string());
    one.insert("b".to_string(), "2".to_string());
    one.insert("c".to_string(), "3".to_string());

    let mut other = Bindings::new();
    other.insert("c".to_string(), "3".to_string());
    other.insert("a".to_string(), "1".to_string());
    other.insert("b".to_string(), "2".to_string());

    assert_eq!(render(template, &one), render(template, &other));
    assert_eq!(render(template, &one), "v: 1 2 3");
}

#[test]
fn insert_replaces_an_earlier_value() {
    let mut vars = Bindings::new();
    vars.insert("a".to_string(), "old".to_string());
    vars.insert("a".to_string(), "new".to_string());
    assert_eq!(render("${a}", &vars), "new");
}
