use vstd::prelude::*;

use crate::capability::{
    method_name_for, opt_name_view, spec_method_name, spec_names_after, CapabilityRequirements,
};
use crate::classify::{
    classify, inner_type_text, spec_classify, spec_has_inner, spec_inner_text, ClassifiedType,
    DeclaredType,
};
use crate::directive::{
    fixed_value, has_directive, spec_fixed_value, spec_has, Directive, DirectiveKind,
};
use crate::error::GenError;
use crate::fragment::{render_fragment, spec_render, spec_uses_randomness, Fragment, FragmentV};

verus! {

/// Equality of a text value with a fixed text.
fn str_eq(a: &String, b: &str) -> (r: bool)
    ensures
        r == (a@ == b@),
{
    let bo: String = b.to_owned();
    *a == bo
}

/// The Scalar Strategy: the production fragment for a type-head name under
/// a directive list, for types that are not optional or sequence wrappers.
/// A fixed literal wins over everything, rendered as the requested textual
/// subtype for the textual type heads; then the default-value directive;
/// then the built-in strategies for the textual and identifier type heads;
/// anything else falls back to the generic randomization capability.
pub open spec fn spec_scalar(head: Seq<char>, ds: Seq<Directive>) -> FragmentV {
    match spec_fixed_value(ds) {
        Some(lit) => {
            if head == "String"@ {
                FragmentV::OwnedFixedText(lit)
            } else if head == "str"@ {
                FragmentV::BorrowedFixedText(lit)
            } else {
                FragmentV::FixedLiteral(lit)
            }
        },
        None => {
            if spec_has(ds, DirectiveKind::DefaultValue) {
                FragmentV::DefaultValue
            } else if head == "String"@ {
                FragmentV::RandomText
            } else if head == "Uuid"@ {
                FragmentV::FreshIdentifier
            } else {
                FragmentV::RandomOpaque
            }
        },
    }
}

/// The Scalar Strategy over a type-head name and the field's directives.
pub fn scalar_value(head: &String, ds: &Vec<Directive>) -> (r: Fragment)
    ensures
        r@ == spec_scalar(head@, ds@),
{
    match fixed_value(ds) {
        Some(lit) => {
            if str_eq(head, "String") {
                Fragment::OwnedFixedText(lit)
            } else if str_eq(head, "str") {
                Fragment::BorrowedFixedText(lit)
            } else {
                Fragment::FixedLiteral(lit)
            }
        },
        None => {
            if has_directive(ds, DirectiveKind::DefaultValue) {
                Fragment::DefaultValue
            } else if str_eq(head, "String") {
                Fragment::RandomText
            } else if str_eq(head, "Uuid") {
                Fragment::FreshIdentifier
            } else {
                Fragment::RandomOpaque
            }
        },
    }
}

/// The Strategy Resolver: which fragment a field's value takes, given the
/// owning type's name, the field's name (if any), the classified type and
/// the field's directives.  Resolution order, first match wins: Panic,
/// Custom, optional wrapper, sequence wrapper, Scalar Strategy.  Optional
/// and sequence wrappers resolve their inner type one level deep through
/// the Scalar Strategy: the engine's documented one-level nesting boundary.
pub open spec fn spec_resolve_value(
    owner: Seq<char>,
    field_name: Option<Seq<char>>,
    full: Seq<char>,
    head: Seq<char>,
    ds: Seq<Directive>,
) -> Result<FragmentV, GenError> {
    if spec_has(ds, DirectiveKind::Panic) {
        Ok(FragmentV::PanicValue)
    } else if spec_has(ds, DirectiveKind::Custom) {
        Ok(FragmentV::CapabilityCall { owner, method: spec_method_name(field_name, head) })
    } else if head == "Option"@ {
        if !spec_has_inner(full) {
            Err(GenError::UnsupportedShape)
        } else if spec_has(ds, DirectiveKind::AlwaysNone) {
            Ok(FragmentV::NoneValue)
        } else if spec_has(ds, DirectiveKind::AlwaysSome) {
            Ok(FragmentV::SomeValue(Box::new(spec_scalar(spec_inner_text(full), ds))))
        } else {
            Ok(FragmentV::RandomOption(Box::new(spec_scalar(spec_inner_text(full), ds))))
        }
    } else if head == "Vec"@ {
        if spec_has(ds, DirectiveKind::Empty) {
            Ok(FragmentV::EmptySequence)
        } else if !spec_has_inner(full) {
            Err(GenError::UnsupportedShape)
        } else {
            Ok(FragmentV::SingletonSequence(Box::new(spec_scalar(spec_inner_text(full), ds))))
        }
    } else {
        Ok(spec_scalar(head, ds))
    }
}

/// The capability registration a resolution performs: the derived method
/// name and the required return type, for a field that delegates
/// generation; nothing otherwise.
pub open spec fn spec_registration(
    field_name: Option<Seq<char>>,
    full: Seq<char>,
    head: Seq<char>,
    ds: Seq<Directive>,
) -> Option<(Seq<char>, Seq<char>)> {
    if !spec_has(ds, DirectiveKind::Panic) && spec_has(ds, DirectiveKind::Custom) {
        Some((spec_method_name(field_name, head), full))
    } else {
        None
    }
}

/// The Strategy Resolver over one classified field.  A field that delegates
/// generation registers its capability method with the owning type's
/// requirements; every other field leaves them untouched.
pub fn resolve_value(
    owner: &String,
    field_name: &Option<String>,
    classified: &ClassifiedType,
    ds: &Vec<Directive>,
    reqs: &mut CapabilityRequirements,
) -> (r: Result<Fragment, GenError>)
    requires
        old(reqs).wf(),
    ensures
        final(reqs).wf(),
        (match r {
            Ok(f) => spec_resolve_value(
                owner@,
                opt_name_view(*field_name),
                classified.full@,
                classified.head@,
                ds@,
            ) == Ok::<FragmentV, GenError>(f@),
            Err(e) => spec_resolve_value(
                owner@,
                opt_name_view(*field_name),
                classified.full@,
                classified.head@,
                ds@,
            ) == Err::<FragmentV, GenError>(e),
        }),
        (match spec_registration(
            opt_name_view(*field_name),
            classified.full@,
            classified.head@,
            ds@,
        ) {
            Some(reg) => {
                &&& final(reqs).names() == spec_names_after(old(reqs).names(), reg.0)
                &&& final(reqs).contains_name(reg.0)
                &&& final(reqs).return_type_of(reg.0) == reg.1
                &&& forall|n: Seq<char>|
                    n != reg.0 ==> (final(reqs).contains_name(n) <==> old(reqs).contains_name(n))
                &&& forall|n: Seq<char>|
                    n != reg.0 && old(reqs).contains_name(n) ==> final(reqs).return_type_of(n)
                        == old(reqs).return_type_of(n)
            },
            None => *final(reqs) == *old(reqs),
        }),
{
    if has_directive(ds, DirectiveKind::Panic) {
        Ok(Fragment::PanicValue)
    } else if has_directive(ds, DirectiveKind::Custom) {
        let method = method_name_for(field_name, &classified.head);
        let frag = Fragment::CapabilityCall { owner: owner.clone(), method: method.clone() };
        reqs.register(method, classified.full.clone());
        Ok(frag)
    } else if str_eq(&classified.head, "Option") {
        match inner_type_text(classified.full.as_str()) {
            Err(e) => Err(e),
            Ok(inner) => {
                if has_directive(ds, DirectiveKind::AlwaysNone) {
                    Ok(Fragment::NoneValue)
                } else if has_directive(ds, DirectiveKind::AlwaysSome) {
                    Ok(Fragment::SomeValue(Box::new(scalar_value(&inner, ds))))
                } else {
                    Ok(Fragment::RandomOption(Box::new(scalar_value(&inner, ds))))
                }
            },
        }
    } else if str_eq(&classified.head, "Vec") {
        if has_directive(ds, DirectiveKind::Empty) {
            Ok(Fragment::EmptySequence)
        } else {
            match inner_type_text(classified.full.as_str()) {
                Err(e) => Err(e),
                Ok(inner) => Ok(Fragment::SingletonSequence(Box::new(scalar_value(&inner, ds)))),
            }
        }
    } else {
        Ok(scalar_value(&classified.head, ds))
    }
}

/// One field of a record or of a union variant, as handed to the engine:
/// its name (absent for positional fields), its declared type, and its
/// attached customization directives.
#[derive(Debug)]
pub struct FieldDef {
    pub name: Option<String>,
    pub ty: DeclaredType,
    pub directives: Vec<Directive>,
}

/// The name prefix the Field Emitter puts before a named field's value
/// fragment; positional fields get none.
pub open spec fn spec_prefix(field_name: Option<Seq<char>>) -> Seq<char> {
    match field_name {
        Some(f) => f + ": "@,
        None => Seq::empty(),
    }
}

/// The whole processing of one field: classification, strategy resolution,
/// rendering, and the Field Emitter's name prefix.
pub open spec fn spec_field_fragment(
    owner: Seq<char>,
    field_name: Option<Seq<char>>,
    t: DeclaredType,
    ds: Seq<Directive>,
) -> Result<Seq<char>, GenError> {
    match spec_classify(t) {
        None => Err(GenError::UnsupportedType),
        Some(classified) => match spec_resolve_value(
            owner,
            field_name,
            classified.0,
            classified.1,
            ds,
        ) {
            Err(e) => Err(e),
            Ok(fv) => Ok(spec_prefix(field_name) + spec_render(fv)),
        },
    }
}

/// The capability registration one field performs.
pub open spec fn spec_field_registration(
    field_name: Option<Seq<char>>,
    t: DeclaredType,
    ds: Seq<Directive>,
) -> Option<(Seq<char>, Seq<char>)> {
    match spec_classify(t) {
        None => None,
        Some(classified) => spec_registration(field_name, classified.0, classified.1, ds),
    }
}

/// The Field Emitter: classify one field, resolve its value fragment, and
/// wrap the rendered fragment with the field's name prefix (for named
/// fields) or without one (for positional fields).
pub fn field_fragment(
    owner: &String,
    field_name: &Option<String>,
    ty: &DeclaredType,
    ds: &Vec<Directive>,
    reqs: &mut CapabilityRequirements,
) -> (r: Result<String, GenError>)
    requires
        old(reqs).wf(),
    ensures
        final(reqs).wf(),
        (match r {
            Ok(s) => spec_field_fragment(owner@, opt_name_view(*field_name), *ty, ds@)
                == Ok::<Seq<char>, GenError>(s@),
            Err(e) => spec_field_fragment(owner@, opt_name_view(*field_name), *ty, ds@)
                == Err::<Seq<char>, GenError>(e),
        }),
        (match spec_field_registration(opt_name_view(*field_name), *ty, ds@) {
            Some(reg) => {
                &&& final(reqs).names() == spec_names_after(old(reqs).names(), reg.0)
                &&& final(reqs).contains_name(reg.0)
                &&& final(reqs).return_type_of(reg.0) == reg.1
                &&& forall|n: Seq<char>|
                    n != reg.0 ==> (final(reqs).contains_name(n) <==> old(reqs).contains_name(n))
                &&& forall|n: Seq<char>|
                    n != reg.0 && old(reqs).contains_name(n) ==> final(reqs).return_type_of(n)
                        == old(reqs).return_type_of(n)
            },
            None => *final(reqs) == *old(reqs),
        }),
{
    let classified = match classify(ty) {
        Err(e) => {
            return Err(e);
        },
        Ok(c) => c,
    };
    let frag = match resolve_value(owner, field_name, &classified, ds, reqs) {
        Err(e) => {
            return Err(e);
        },
        Ok(f) => f,
    };
    let rendered = render_fragment(&frag);
    match field_name {
        Some(fname) => {
            let mut out = fname.clone();
            out.append(": ");
            out.append(rendered.as_str());
            proof {
                assert(out@ =~= spec_prefix(opt_name_view(*field_name)) + rendered@);
            }
            Ok(out)
        },
        None => {
            proof {
                assert(rendered@ =~= spec_prefix(opt_name_view(*field_name)) + rendered@);
            }
            Ok(rendered)
        },
    }
}

/// The field name a run of fields hands to the engine for its field at a
/// position: named runs use the field's own name, positional runs none.
pub open spec fn spec_field_name(f: FieldDef, named: bool) -> Option<Seq<char>> {
    if named {
        opt_name_view(f.name)
    } else {
        None
    }
}

/// The per-field fragments of a run of fields from position `i` on; the
/// first failing field aborts the whole run.
pub open spec fn spec_fields_fragments(
    owner: Seq<char>,
    fields: Seq<FieldDef>,
    named: bool,
    i: int,
) -> Result<Seq<Seq<char>>, GenError>
    decreases fields.len() - i,
{
    if i < 0 || i >= fields.len() {
        Ok(Seq::empty())
    } else {
        match spec_field_fragment(
            owner,
            spec_field_name(fields[i], named),
            fields[i].ty,
            fields[i].directives@,
        ) {
            Err(e) => Err(e),
            Ok(text) => match spec_fields_fragments(owner, fields, named, i + 1) {
                Err(e) => Err(e),
                Ok(rest) => Ok(seq![text] + rest),
            },
        }
    }
}

/// The capability method names after a run of fields from position `i` on
/// has registered its delegated fields, left to right, starting from
/// `names`.
pub open spec fn spec_fields_names(
    fields: Seq<FieldDef>,
    named: bool,
    i: int,
    names: Seq<Seq<char>>,
) -> Seq<Seq<char>>
    decreases fields.len() - i,
{
    if i < 0 || i >= fields.len() {
        names
    } else {
        let after = match spec_field_registration(
            spec_field_name(fields[i], named),
            fields[i].ty,
            fields[i].directives@,
        ) {
            Some(reg) => spec_names_after(names, reg.0),
            None => names,
        };
        spec_fields_names(fields, named, i + 1, after)
    }
}

fn fields_fragments_from(
    owner: &String,
    fields: &Vec<FieldDef>,
    named: bool,
    i: usize,
    reqs: &mut CapabilityRequirements,
) -> (r: Result<Vec<String>, GenError>)
    requires
        old(reqs).wf(),
        i <= fields@.len(),
    ensures
        final(reqs).wf(),
        (match r {
            Ok(texts) => {
                &&& spec_fields_fragments(owner@, fields@, named, i as int) == Ok::<
                    Seq<Seq<char>>,
                    GenError,
                >(texts@.map_values(|s: String| s@))
                &&& final(reqs).names() == spec_fields_names(
                    fields@,
                    named,
                    i as int,
                    old(reqs).names(),
                )
            },
            Err(e) => spec_fields_fragments(owner@, fields@, named, i as int) == Err::<
                Seq<Seq<char>>,
                GenError,
            >(e),
        }),
    decreases fields@.len() - i,
{
    if i == fields.len() {
        let out: Vec<String> = Vec::new();
        proof {
            assert(out@.map_values(|s: String| s@) =~= Seq::<Seq<char>>::empty());
        }
        Ok(out)
    } else {
        let field = &fields[i];
        let fname: Option<String> = if named {
            match &field.name {
                Some(n) => Some(n.clone()),
                None => None,
            }
        } else {
            None
        };
        proof {
            assert(opt_name_view(fname) == spec_field_name(fields@[i as int], named));
        }
        match field_fragment(owner, &fname, &field.ty, &field.directives, reqs) {
            Err(e) => Err(e),
            Ok(text) => {
                let ghost text_view = text@;
                match fields_fragments_from(owner, fields, named, i + 1, reqs) {
                    Err(e) => Err(e),
                    Ok(mut rest) => {
                        let ghost rest_views = rest@.map_values(|s: String| s@);
                        rest.insert(0, text);
                        proof {
                            assert(rest@.map_values(|s: String| s@) =~= seq![text_view]
                                + rest_views);
                        }
                        Ok(rest)
                    },
                }
            },
        }
    }
}

/// One emitted value fragment per named field of a record or of a union
/// variant, each prefixed with its field name; every field that delegates
/// generation extends the owning type's capability requirements.  The first
/// unsupported field aborts the whole run; the requirements accumulated up
/// to that point stay well-formed but belong to the aborted type and are
/// meant to be discarded with it.
pub fn generated_values_for_named_fields(
    owner: &String,
    fields: &Vec<FieldDef>,
    reqs: &mut CapabilityRequirements,
) -> (r: Result<Vec<String>, GenError>)
    requires
        old(reqs).wf(),
    ensures
        final(reqs).wf(),
        (match r {
            Ok(texts) => {
                &&& spec_fields_fragments(owner@, fields@, true, 0) == Ok::<
                    Seq<Seq<char>>,
                    GenError,
                >(texts@.map_values(|s: String| s@))
                &&& final(reqs).names() == spec_fields_names(fields@, true, 0, old(reqs).names())
            },
            Err(e) => spec_fields_fragments(owner@, fields@, true, 0) == Err::<
                Seq<Seq<char>>,
                GenError,
            >(e),
        }),
{
    fields_fragments_from(owner, fields, true, 0, reqs)
}

/// One emitted value fragment per positional field, bare of any name
/// prefix; every field that delegates generation extends the owning type's
/// capability requirements.  The first unsupported field aborts the whole
/// run, as for named fields.
pub fn generated_values_for_unnamed_fields(
    owner: &String,
    fields: &Vec<FieldDef>,
    reqs: &mut CapabilityRequirements,
) -> (r: Result<Vec<String>, GenError>)
    requires
        old(reqs).wf(),
    ensures
        final(reqs).wf(),
        (match r {
            Ok(texts) => {
                &&& spec_fields_fragments(owner@, fields@, false, 0) == Ok::<
                    Seq<Seq<char>>,
                    GenError,
                >(texts@.map_values(|s: String| s@))
                &&& final(reqs).names() == spec_fields_names(fields@, false, 0, old(reqs).names())
            },
            Err(e) => spec_fields_fragments(owner@, fields@, false, 0) == Err::<
                Seq<Seq<char>>,
                GenError,
            >(e),
        }),
{
    fields_fragments_from(owner, fields, false, 0, reqs)
}

/// Law: for any scalar type-head name with no directives, the Scalar
/// Strategy is pinned by the head name alone — the random-text fragment for
/// the textual type, a fresh identifier for the identifier type, and the
/// generic randomization capability for every other scalar — and the chosen
/// fragment draws a new value on each execution.
pub proof fn lemma_scalar_no_directives(head: Seq<char>)
    ensures
        head == "String"@ ==> spec_scalar(head, Seq::empty()) == FragmentV::RandomText,
        head != "String"@ && head == "Uuid"@ ==> spec_scalar(head, Seq::empty())
            == FragmentV::FreshIdentifier,
        head != "String"@ && head != "Uuid"@ ==> spec_scalar(head, Seq::empty())
            == FragmentV::RandomOpaque,
        spec_uses_randomness(spec_scalar(head, Seq::empty())),
{
    assert(spec_fixed_value(Seq::empty()) is None);
    assert(!spec_has(Seq::empty(), DirectiveKind::DefaultValue));
}

/// Law: with the Panic directive present, resolution ignores every other
/// directive and the type: the fragment is the unconditional failure, and
/// no capability is required.
pub proof fn lemma_panic_overrides_all(
    owner: Seq<char>,
    field_name: Option<Seq<char>>,
    full: Seq<char>,
    head: Seq<char>,
    ds: Seq<Directive>,
)
    requires
        spec_has(ds, DirectiveKind::Panic),
    ensures
        spec_resolve_value(owner, field_name, full, head, ds) == Ok::<FragmentV, GenError>(
            FragmentV::PanicValue,
        ),
        spec_registration(field_name, full, head, ds) is None,
{
}

/// Law: for an optional field with a well-formed inner type and neither
/// Panic nor Custom, AlwaysNone forces the empty arm; AlwaysSome without
/// AlwaysNone forces the present arm wrapping the inner value; and with
/// neither directive the fragment is the binary random choice between
/// exactly those two arms — never anything else.
pub proof fn lemma_optional_arms(
    owner: Seq<char>,
    field_name: Option<Seq<char>>,
    full: Seq<char>,
    ds: Seq<Directive>,
)
    requires
        spec_has_inner(full),
        !spec_has(ds, DirectiveKind::Panic),
        !spec_has(ds, DirectiveKind::Custom),
    ensures
        spec_has(ds, DirectiveKind::AlwaysNone) ==> spec_resolve_value(
            owner,
            field_name,
            full,
            "Option"@,
            ds,
        ) == Ok::<FragmentV, GenError>(FragmentV::NoneValue),
        !spec_has(ds, DirectiveKind::AlwaysNone) && spec_has(ds, DirectiveKind::AlwaysSome)
            ==> spec_resolve_value(owner, field_name, full, "Option"@, ds) == Ok::<
            FragmentV,
            GenError,
        >(FragmentV::SomeValue(Box::new(spec_scalar(spec_inner_text(full), ds)))),
        !spec_has(ds, DirectiveKind::AlwaysNone) && !spec_has(ds, DirectiveKind::AlwaysSome)
            ==> spec_resolve_value(owner, field_name, full, "Option"@, ds) == Ok::<
            FragmentV,
            GenError,
        >(FragmentV::RandomOption(Box::new(spec_scalar(spec_inner_text(full), ds)))),
{
}

/// Law: for a sequence field with neither Panic nor Custom, the Empty
/// directive forces the zero-length sequence, whatever the inner type; and
/// without Empty the fragment is a one-element sequence of the inner value.
pub proof fn lemma_sequence_arms(
    owner: Seq<char>,
    field_name: Option<Seq<char>>,
    full: Seq<char>,
    ds: Seq<Directive>,
)
    requires
        !spec_has(ds, DirectiveKind::Panic),
        !spec_has(ds, DirectiveKind::Custom),
    ensures
        spec_has(ds, DirectiveKind::Empty) ==> spec_resolve_value(
            owner,
            field_name,
            full,
            "Vec"@,
            ds,
        ) == Ok::<FragmentV, GenError>(FragmentV::EmptySequence),
        !spec_has(ds, DirectiveKind::Empty) && spec_has_inner(full) ==> spec_resolve_value(
            owner,
            field_name,
            full,
            "Vec"@,
            ds,
        ) == Ok::<FragmentV, GenError>(
            FragmentV::SingletonSequence(Box::new(spec_scalar(spec_inner_text(full), ds))),
        ),
{
    reveal_strlit("Vec");
    reveal_strlit("Option");
    assert("Vec"@.len() == 3);
    assert("Option"@.len() == 6);
}

/// Law: a fixed literal on a textual field yields exactly that literal,
/// rendered as the requested textual subtype, and the fragment draws no
/// randomness: its value is the same on every execution.
pub proof fn lemma_fixed_textual_deterministic(head: Seq<char>, ds: Seq<Directive>, lit: Seq<char>)
    requires
        spec_fixed_value(ds) == Some(lit),
        head == "String"@ || head == "str"@,
    ensures
        head == "String"@ ==> spec_scalar(head, ds) == FragmentV::OwnedFixedText(lit),
        head == "str"@ ==> spec_scalar(head, ds) == FragmentV::BorrowedFixedText(lit),
        !spec_uses_randomness(spec_scalar(head, ds)),
{
    reveal_strlit("String");
    reveal_strlit("str");
    assert("String"@.len() == 6);
    assert("str"@.len() == 3);
}

} // verus!
