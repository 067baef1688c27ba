use testdata_gen::capability::{
    capability_trait_decl, method_name_for, trait_name_for, CapabilityRequirements,
};
use testdata_gen::classify::{classify, inner_type_text, DeclaredType};
use testdata_gen::directive::{fixed_value, has_directive, Directive, DirectiveKind};
use testdata_gen::error::GenError;
use testdata_gen::text::{ascii_lower, normalize_type_text};

fn s(x: &str) -> String {
    x.to_string()
}

#[test]
fn trait_name_joins_provider_head_and_owner() {
    assert_eq!(trait_name_for(&s("OwningType")), s("TestDataProviderForOwningType"));
}

#[test]
fn method_name_for_named_field_uses_field_name() {
    assert_eq!(method_name_for(&Some(s("score")), &s("Score")), s("generate_score"));
}

#[test]
fn method_name_for_positional_field_lowercases_type_head() {
    assert_eq!(method_name_for(&None, &s("MyType")), s("generate_random_mytype"));
}

#[test]
fn ascii_lower_folds_only_ascii_uppercase() {
    assert_eq!(ascii_lower("CountDown3_X"), s("countdown3_x"));
    assert_eq!(ascii_lower(""), s(""));
}

#[test]
fn normalize_strips_every_whitespace() {
    assert_eq!(normalize_type_text("Vec < String >"), s("Vec<String>"));
    assert_eq!(normalize_type_text("u8"), s("u8"));
}

#[test]
fn registration_is_idempotent_across_repeats() {
    let mut reqs = CapabilityRequirements::new();
    reqs.register(s("generate_random_count"), s("Count"));
    reqs.register(s("generate_random_count"), s("Count"));
    assert_eq!(reqs.len(), 1);
    assert_eq!(reqs.entries[0].name, s("generate_random_count"));
    assert_eq!(reqs.entries[0].return_type, s("Count"));
}

#[test]
fn repeated_registration_keeps_order_and_takes_new_return_type() {
    let mut reqs = CapabilityRequirements::new();
    reqs.register(s("generate_a"), s("A"));
    reqs.register(s("generate_b"), s("B"));
    reqs.register(s("generate_a"), s("A2"));
    assert_eq!(reqs.len(), 2);
    assert_eq!(reqs.entries[0].name, s("generate_a"));
    assert_eq!(reqs.entries[0].return_type, s("A2"));
    assert_eq!(reqs.entries[1].name, s("generate_b"));
}

#[test]
fn empty_requirements_emit_no_interface() {
    let reqs = CapabilityRequirements::new();
    assert_eq!(capability_trait_decl(&s("Entity"), &reqs), None);
}

#[test]
fn interface_declares_one_method_per_requirement_in_order() {
    let mut reqs = CapabilityRequirements::new();
    reqs.register(s("generate_random_count"), s("Count"));
    reqs.register(s("generate_score"), s("Score"));
    let decl = capability_trait_decl(&s("OwningType"), &reqs).unwrap();
    assert_eq!(
        decl,
        s("pub trait TestDataProviderForOwningType { \
           fn generate_random_count<R: rand::Rng + ?Sized>(rng: &mut R) -> Count; \
           fn generate_score<R: rand::Rng + ?Sized>(rng: &mut R) -> Score; }")
    );
}

#[test]
fn classify_path_type_normalizes_and_names_head() {
    let t = DeclaredType::Path {
        rendered: s("Option < String >"),
        segments: vec![s("Option")],
    };
    let c = classify(&t).unwrap();
    assert_eq!(c.full, s("Option<String>"));
    assert_eq!(c.head, s("Option"));
}

#[test]
fn classify_unwraps_nested_references() {
    let t = DeclaredType::Reference(Box::new(DeclaredType::Reference(Box::new(
        DeclaredType::Path { rendered: s("str"), segments: vec![s("str")] },
    ))));
    let c = classify(&t).unwrap();
    assert_eq!(c.head, s("str"));
}

#[test]
fn classify_rejects_other_type_forms() {
    assert_eq!(classify(&DeclaredType::Other).unwrap_err(), GenError::UnsupportedType);
}

#[test]
fn classify_rejects_path_without_segments() {
    let t = DeclaredType::Path { rendered: s("()"), segments: vec![] };
    assert_eq!(classify(&t).unwrap_err(), GenError::UnsupportedType);
}

#[test]
fn inner_text_takes_first_open_and_last_close() {
    assert_eq!(inner_type_text("Option<Vec<u8>>").unwrap(), s("Vec<u8>"));
    assert_eq!(inner_type_text("Vec<String>").unwrap(), s("String"));
}

#[test]
fn inner_text_rejects_missing_or_misordered_brackets() {
    assert_eq!(inner_type_text("Option").unwrap_err(), GenError::UnsupportedShape);
    assert_eq!(inner_type_text("Option<").unwrap_err(), GenError::UnsupportedShape);
    assert_eq!(inner_type_text(">Option<").unwrap_err(), GenError::UnsupportedShape);
}

#[test]
fn directive_queries_see_kind_and_first_fixed_value() {
    let ds = vec![
        Directive::AlwaysSome,
        Directive::FixedValue(s("first")),
        Directive::FixedValue(s("second")),
    ];
    assert!(has_directive(&ds, DirectiveKind::AlwaysSome));
    assert!(has_directive(&ds, DirectiveKind::FixedValue));
    assert!(!has_directive(&ds, DirectiveKind::Panic));
    assert_eq!(fixed_value(&ds), Some(s("first")));
    assert_eq!(fixed_value(&vec![Directive::Empty]), None);
}
