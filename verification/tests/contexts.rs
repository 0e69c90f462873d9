use lexical_bool::{
    initialize_false_values, initialize_true_values, BoolContext, Error, LexicalBool,
};

fn strings(values: &[&str]) -> Vec<String> {
    values.iter().map(|s| s.to_string()).collect()
}

#[test]
fn parse_custom_true() {
    let mut ctx = BoolContext::new();
    assert!(initialize_true_values(
        &mut ctx,
        strings(&["this is true", "yep", "YEP"])
    ));
    let inputs = &[
        ("this is true", true),
        ("yep", true),
        ("YEP", true),
        // keep the default false
        ("false", false),
        ("f", false),
        ("0", false),
        ("no", false),
    ];
    for &(input, ok) in inputs {
        assert_eq!(LexicalBool::from_str(&mut ctx, input).unwrap(), ok);
    }
}

#[test]
fn parse_custom_false() {
    let mut ctx = BoolContext::new();
    assert!(initialize_false_values(
        &mut ctx,
        strings(&["this is false", "nope", "NOPE"])
    ));
    let inputs = &[
        ("this is false", false),
        ("nope", false),
        ("NOPE", false),
        // keep the default true
        ("true", true),
        ("t", true),
        ("1", true),
        ("yes", true),
    ];
    for &(input, ok) in inputs {
        assert_eq!(LexicalBool::from_str(&mut ctx, input).unwrap(), ok);
    }
}

#[test]
fn second_initialization_loses() {
    let mut ctx = BoolContext::new();
    assert!(initialize_true_values(&mut ctx, strings(&["foo", "bar"])));
    assert!(!initialize_true_values(&mut ctx, strings(&["true", "1"])));
    // the first writer's values stay in force
    assert_eq!(LexicalBool::from_str(&mut ctx, "foo").unwrap(), true);
    assert_eq!(LexicalBool::from_str(&mut ctx, "bar").unwrap(), true);
    assert_eq!(
        LexicalBool::from_str(&mut ctx, "true"),
        Err(Error::InvalidInput("true".to_string()))
    );
}

#[test]
fn lazy_default_counts_as_set() {
    let mut ctx = BoolContext::new();
    // a falsey match walks through both slots and fixes each to its built-in list
    assert_eq!(LexicalBool::from_str(&mut ctx, "no").unwrap(), false);
    assert!(!initialize_true_values(&mut ctx, strings(&["foo"])));
    assert!(!initialize_false_values(&mut ctx, strings(&["baz"])));
    assert_eq!(LexicalBool::from_str(&mut ctx, "true").unwrap(), true);
    assert!(LexicalBool::from_str(&mut ctx, "foo").is_err());
    assert!(LexicalBool::from_str(&mut ctx, "baz").is_err());
}

#[test]
fn truthy_match_leaves_falsey_slot_unset() {
    let mut ctx = BoolContext::new();
    // a truthy match settles only the truthy slot ...
    assert_eq!(LexicalBool::from_str(&mut ctx, "yes").unwrap(), true);
    // ... so the falsey slot can still be customized
    assert!(initialize_false_values(&mut ctx, strings(&["nah"])));
    assert_eq!(LexicalBool::from_str(&mut ctx, "nah").unwrap(), false);
    assert!(LexicalBool::from_str(&mut ctx, "no").is_err());
}

#[test]
fn custom_truthy_keeps_default_falsey() {
    let mut ctx = BoolContext::new();
    assert!(initialize_true_values(&mut ctx, strings(&["foo", "bar"])));
    for input in ["foo", "FOO", "bar", "BaR"] {
        assert_eq!(LexicalBool::from_str(&mut ctx, input).unwrap(), true);
    }
    for input in ["false", "FALSE", "f", "0", "no", "No"] {
        assert_eq!(LexicalBool::from_str(&mut ctx, input).unwrap(), false);
    }
    // default truthy tokens were replaced
    assert!(LexicalBool::from_str(&mut ctx, "true").is_err());
}

#[test]
fn upper_case_custom_token_never_matches() {
    let mut ctx = BoolContext::new();
    // the input is lower-cased before the comparison, stored tokens are not
    assert!(initialize_true_values(&mut ctx, strings(&["FOO"])));
    assert!(LexicalBool::from_str(&mut ctx, "FOO").is_err());
    assert!(LexicalBool::from_str(&mut ctx, "foo").is_err());
}

#[test]
fn contexts_are_independent() {
    let mut a = BoolContext::new();
    let mut b = BoolContext::new();
    assert!(initialize_true_values(&mut a, strings(&["foo"])));
    assert!(initialize_true_values(&mut b, strings(&["baz"])));
    assert_eq!(LexicalBool::from_str(&mut a, "foo").unwrap(), true);
    assert!(LexicalBool::from_str(&mut b, "foo").is_err());
    assert_eq!(LexicalBool::from_str(&mut b, "baz").unwrap(), true);
    assert!(LexicalBool::from_str(&mut a, "baz").is_err());
}

#[test]
fn fresh_context_unaffected_by_others() {
    let mut a = BoolContext::new();
    assert!(initialize_true_values(&mut a, strings(&["foo"])));
    assert!(initialize_false_values(&mut a, strings(&["baz"])));
    let mut b = BoolContext::new();
    assert!(LexicalBool::from_str(&mut b, "foo").is_err());
    assert!(LexicalBool::from_str(&mut b, "baz").is_err());
    assert_eq!(LexicalBool::from_str(&mut b, "true").unwrap(), true);
    assert_eq!(LexicalBool::from_str(&mut b, "no").unwrap(), false);
}
