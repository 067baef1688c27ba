use testdata_gen::capability::CapabilityRequirements;
use testdata_gen::classify::DeclaredType;
use testdata_gen::directive::Directive;
use testdata_gen::error::GenError;
use testdata_gen::resolve::{
    field_fragment, generated_values_for_named_fields, generated_values_for_unnamed_fields,
    FieldDef,
};

fn s(x: &str) -> String {
    x.to_string()
}

fn path(rendered: &str, segments: &[&str]) -> DeclaredType {
    DeclaredType::Path {
        rendered: s(rendered),
        segments: segments.iter().map(|x| s(x)).collect(),
    }
}

fn one_named_field(
    owner: &str,
    name: &str,
    ty: DeclaredType,
    directives: Vec<Directive>,
) -> (Result<Vec<String>, GenError>, CapabilityRequirements) {
    let mut reqs = CapabilityRequirements::new();
    let fields = vec![FieldDef { name: Some(s(name)), ty, directives }];
    let r = generated_values_for_named_fields(&s(owner), &fields, &mut reqs);
    (r, reqs)
}

const RANDOM_TEXT: &str =
    "rng.sample_iter(&rand::distributions::Alphanumeric).take(10).map(char::from).collect()";

#[test]
fn optional_string_no_directives_is_random_choice() {
    let (r, reqs) = one_named_field("Entity", "name", path("Option < String >", &["Option"]), vec![]);
    let expected = format!("name: if rng.gen() {{ Some({}) }} else {{ None }}", RANDOM_TEXT);
    assert_eq!(r.unwrap(), vec![expected]);
    assert_eq!(reqs.len(), 0);
}

#[test]
fn uuid_field_is_fresh_identifier() {
    let (r, _) = one_named_field("Entity", "id", path("Uuid", &["Uuid"]), vec![]);
    assert_eq!(r.unwrap(), vec![s("id: uuid::Uuid::new_v4()")]);
}

#[test]
fn plain_string_field_is_random_text() {
    let (r, _) = one_named_field("Entity", "label", path("String", &["String"]), vec![]);
    assert_eq!(r.unwrap(), vec![format!("label: {}", RANDOM_TEXT)]);
}

#[test]
fn opaque_scalar_falls_back_to_generic_randomization() {
    let (r, _) = one_named_field("Entity", "count", path("u32", &["u32"]), vec![]);
    assert_eq!(r.unwrap(), vec![s("count: rng.gen()")]);
}

#[test]
fn panic_directive_overrides_every_other_directive() {
    let (r, reqs) = one_named_field(
        "Entity",
        "broken",
        path("Option < String >", &["Option"]),
        vec![
            Directive::AlwaysSome,
            Directive::Panic,
            Directive::FixedValue(s("x")),
            Directive::Custom,
        ],
    );
    assert_eq!(
        r.unwrap(),
        vec![s("broken: panic!(\"This property can not be generated\")")]
    );
    assert_eq!(reqs.len(), 0);
}

#[test]
fn panic_directive_ignores_type_shape() {
    let (r, _) = one_named_field("Entity", "broken", path("u64", &["u64"]), vec![Directive::Panic]);
    assert_eq!(
        r.unwrap(),
        vec![s("broken: panic!(\"This property can not be generated\")")]
    );
}

#[test]
fn optional_always_none_yields_empty_arm() {
    let (r, _) = one_named_field(
        "Entity",
        "name",
        path("Option < String >", &["Option"]),
        vec![Directive::AlwaysNone],
    );
    assert_eq!(r.unwrap(), vec![s("name: None")]);
}

#[test]
fn optional_always_some_wraps_inner_value() {
    let (r, _) = one_named_field(
        "Entity",
        "name",
        path("Option < String >", &["Option"]),
        vec![Directive::AlwaysSome],
    );
    assert_eq!(r.unwrap(), vec![format!("name: Some({})", RANDOM_TEXT)]);
}

#[test]
fn optional_always_none_wins_over_always_some() {
    let (r, _) = one_named_field(
        "Entity",
        "name",
        path("Option < String >", &["Option"]),
        vec![Directive::AlwaysSome, Directive::AlwaysNone],
    );
    assert_eq!(r.unwrap(), vec![s("name: None")]);
}

#[test]
fn empty_sequence_of_strings_is_zero_length() {
    let (r, _) = one_named_field(
        "Entity",
        "tags",
        path("Vec < String >", &["Vec"]),
        vec![Directive::Empty],
    );
    assert_eq!(r.unwrap(), vec![s("tags: vec![]")]);
}

#[test]
fn sequence_without_empty_holds_one_inner_element() {
    let (r, _) = one_named_field("Entity", "tags", path("Vec < String >", &["Vec"]), vec![]);
    assert_eq!(r.unwrap(), vec![format!("tags: vec![{}]", RANDOM_TEXT)]);
}

#[test]
fn fixed_value_on_string_renders_owned_text() {
    let (r, _) = one_named_field(
        "Entity",
        "label",
        path("String", &["String"]),
        vec![Directive::FixedValue(s("hello"))],
    );
    assert_eq!(r.unwrap(), vec![s("label: stringify!(hello).to_string()")]);
}

#[test]
fn fixed_value_on_str_renders_borrowed_text() {
    let (r, _) = one_named_field(
        "Entity",
        "label",
        path("& str", &["str"]),
        vec![Directive::FixedValue(s("hello"))],
    );
    assert_eq!(r.unwrap(), vec![s("label: stringify!(hello)")]);
}

#[test]
fn fixed_value_on_other_scalar_renders_literal() {
    let (r, _) = one_named_field(
        "Entity",
        "count",
        path("u32", &["u32"]),
        vec![Directive::FixedValue(s("42"))],
    );
    assert_eq!(r.unwrap(), vec![s("count: 42")]);
}

#[test]
fn fixed_value_wins_over_default() {
    let (r, _) = one_named_field(
        "Entity",
        "count",
        path("u32", &["u32"]),
        vec![Directive::DefaultValue, Directive::FixedValue(s("7"))],
    );
    assert_eq!(r.unwrap(), vec![s("count: 7")]);
}

#[test]
fn default_directive_yields_default_value() {
    let (r, _) = one_named_field(
        "Entity",
        "count",
        path("u32", &["u32"]),
        vec![Directive::DefaultValue],
    );
    assert_eq!(r.unwrap(), vec![s("count: Default::default()")]);
}

#[test]
fn custom_positional_field_emits_qualified_capability_call() {
    let mut reqs = CapabilityRequirements::new();
    let fields = vec![FieldDef {
        name: None,
        ty: path("Count", &["Count"]),
        directives: vec![Directive::Custom],
    }];
    let r = generated_values_for_unnamed_fields(&s("OwningType"), &fields, &mut reqs);
    assert_eq!(
        r.unwrap(),
        vec![s("<OwningType as TestDataProviderForOwningType>::generate_random_count(rng)")]
    );
    assert_eq!(reqs.len(), 1);
    assert_eq!(reqs.entries[0].name, s("generate_random_count"));
    assert_eq!(reqs.entries[0].return_type, s("Count"));
}

#[test]
fn custom_named_field_keys_by_field_name() {
    let (r, reqs) = one_named_field(
        "Entity",
        "score",
        path("Score", &["Score"]),
        vec![Directive::Custom],
    );
    assert_eq!(
        r.unwrap(),
        vec![s("score: <Entity as TestDataProviderForEntity>::generate_score(rng)")]
    );
    assert_eq!(reqs.len(), 1);
    assert_eq!(reqs.entries[0].name, s("generate_score"));
}

#[test]
fn two_fields_with_one_derived_name_register_one_method() {
    let mut reqs = CapabilityRequirements::new();
    let fields = vec![
        FieldDef {
            name: None,
            ty: path("Count", &["Count"]),
            directives: vec![Directive::Custom],
        },
        FieldDef {
            name: None,
            ty: path("Count", &["Count"]),
            directives: vec![Directive::Custom],
        },
    ];
    let r = generated_values_for_unnamed_fields(&s("OwningType"), &fields, &mut reqs);
    assert_eq!(r.unwrap().len(), 2);
    assert_eq!(reqs.len(), 1);
    assert_eq!(reqs.entries[0].name, s("generate_random_count"));
}

#[test]
fn unsupported_type_aborts_the_whole_run() {
    let mut reqs = CapabilityRequirements::new();
    let fields = vec![
        FieldDef { name: Some(s("ok")), ty: path("u8", &["u8"]), directives: vec![] },
        FieldDef { name: Some(s("bad")), ty: DeclaredType::Other, directives: vec![] },
    ];
    let r = generated_values_for_named_fields(&s("Entity"), &fields, &mut reqs);
    assert_eq!(r, Err(GenError::UnsupportedType));
}

#[test]
fn optional_without_type_argument_is_unsupported_shape() {
    let (r, _) = one_named_field("Entity", "name", path("Option", &["Option"]), vec![]);
    assert_eq!(r, Err(GenError::UnsupportedShape));
}

#[test]
fn sequence_without_type_argument_but_empty_is_still_empty() {
    let (r, _) = one_named_field(
        "Entity",
        "tags",
        path("Vec", &["Vec"]),
        vec![Directive::Empty],
    );
    assert_eq!(r.unwrap(), vec![s("tags: vec![]")]);
}

#[test]
fn panic_wins_even_on_a_malformed_optional() {
    let (r, _) = one_named_field(
        "Entity",
        "broken",
        path("Option", &["Option"]),
        vec![Directive::Panic],
    );
    assert_eq!(
        r.unwrap(),
        vec![s("broken: panic!(\"This property can not be generated\")")]
    );
}

#[test]
fn malformed_optional_fails_even_with_always_none() {
    let (r, _) = one_named_field(
        "Entity",
        "name",
        path("Option", &["Option"]),
        vec![Directive::AlwaysNone],
    );
    assert_eq!(r, Err(GenError::UnsupportedShape));
}

#[test]
fn reference_type_is_dereferenced_transparently() {
    let mut reqs = CapabilityRequirements::new();
    let inner = path("String", &["String"]);
    let r = field_fragment(
        &s("Entity"),
        &Some(s("label")),
        &DeclaredType::Reference(Box::new(inner)),
        &vec![],
        &mut reqs,
    );
    assert_eq!(r.unwrap(), format!("label: {}", RANDOM_TEXT));
}

#[test]
fn positional_field_has_no_name_prefix() {
    let mut reqs = CapabilityRequirements::new();
    let fields = vec![FieldDef { name: None, ty: path("u8", &["u8"]), directives: vec![] }];
    let r = generated_values_for_unnamed_fields(&s("Entity"), &fields, &mut reqs);
    assert_eq!(r.unwrap(), vec![s("rng.gen()")]);
}

#[test]
fn qualified_path_classifies_by_last_segment() {
    let (r, _) = one_named_field(
        "Entity",
        "name",
        path("std :: option :: Option < String >", &["std", "option", "Option"]),
        vec![Directive::AlwaysNone],
    );
    assert_eq!(r.unwrap(), vec![s("name: None")]);
}

#[test]
fn nested_sequence_stops_at_one_level() {
    let (r, _) = one_named_field(
        "Entity",
        "grid",
        path("Vec < Vec < u8 > >", &["Vec"]),
        vec![],
    );
    assert_eq!(r.unwrap(), vec![s("grid: vec![rng.gen()]")]);
}
