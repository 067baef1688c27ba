use vstd::prelude::*;

use crate::capability::{spec_trait_name, trait_name_for};

verus! {

/// The mathematical form of a code fragment: what the emitted code is, with
/// every identifier and literal as a character sequence.
pub enum FragmentV {
    /// An unconditional failure, for fields the author declares ungenerable.
    PanicValue,
    /// A call of the required capability method through the owning type's
    /// capability interface, qualified so it resolves unambiguously.
    CapabilityCall { owner: Seq<char>, method: Seq<char> },
    /// The empty arm of an optional value.
    NoneValue,
    /// The present arm of an optional value, wrapping an inner value.
    SomeValue(Box<FragmentV>),
    /// A binary random choice between the empty arm and the present arm.
    RandomOption(Box<FragmentV>),
    /// A zero-length sequence value.
    EmptySequence,
    /// A one-element sequence value.
    SingletonSequence(Box<FragmentV>),
    /// A fixed literal rendered as an owned textual value.
    OwnedFixedText(Seq<char>),
    /// A fixed literal rendered as a borrowed textual value.
    BorrowedFixedText(Seq<char>),
    /// A fixed literal rendered directly.
    FixedLiteral(Seq<char>),
    /// The type's zero/default value.
    DefaultValue,
    /// A fixed-length random alphanumeric textual value.
    RandomText,
    /// A freshly generated unique identifier.
    FreshIdentifier,
    /// A random value drawn through the generic randomization capability.
    RandomOpaque,
}

/// A self-contained unit of synthesized code producing one value, suitable
/// for splicing into a larger generation routine.
#[derive(Debug)]
pub enum Fragment {
    PanicValue,
    CapabilityCall { owner: String, method: String },
    NoneValue,
    SomeValue(Box<Fragment>),
    RandomOption(Box<Fragment>),
    EmptySequence,
    SingletonSequence(Box<Fragment>),
    OwnedFixedText(String),
    BorrowedFixedText(String),
    FixedLiteral(String),
    DefaultValue,
    RandomText,
    FreshIdentifier,
    RandomOpaque,
}

pub open spec fn fragment_view(f: Fragment) -> FragmentV
    decreases f,
{
    match f {
        Fragment::PanicValue => FragmentV::PanicValue,
        Fragment::CapabilityCall { owner, method } => FragmentV::CapabilityCall {
            owner: owner@,
            method: method@,
        },
        Fragment::NoneValue => FragmentV::NoneValue,
        Fragment::SomeValue(inner) => FragmentV::SomeValue(Box::new(fragment_view(*inner))),
        Fragment::RandomOption(inner) => FragmentV::RandomOption(Box::new(fragment_view(*inner))),
        Fragment::EmptySequence => FragmentV::EmptySequence,
        Fragment::SingletonSequence(inner) => FragmentV::SingletonSequence(
            Box::new(fragment_view(*inner)),
        ),
        Fragment::OwnedFixedText(lit) => FragmentV::OwnedFixedText(lit@),
        Fragment::BorrowedFixedText(lit) => FragmentV::BorrowedFixedText(lit@),
        Fragment::FixedLiteral(lit) => FragmentV::FixedLiteral(lit@),
        Fragment::DefaultValue => FragmentV::DefaultValue,
        Fragment::RandomText => FragmentV::RandomText,
        Fragment::FreshIdentifier => FragmentV::FreshIdentifier,
        Fragment::RandomOpaque => FragmentV::RandomOpaque,
    }
}

impl View for Fragment {
    type V = FragmentV;

    open spec fn view(&self) -> FragmentV {
        fragment_view(*self)
    }
}

/// Whether the fragment's execution consults the source of randomness or
/// other per-execution state, so that its value may differ between
/// executions.  A capability call receives the randomness source and a
/// fresh identifier is drawn anew on every execution, so both count.
pub open spec fn spec_uses_randomness(f: FragmentV) -> bool
    decreases f,
{
    match f {
        FragmentV::PanicValue => false,
        FragmentV::CapabilityCall { .. } => true,
        FragmentV::NoneValue => false,
        FragmentV::SomeValue(inner) => spec_uses_randomness(*inner),
        FragmentV::RandomOption(_) => true,
        FragmentV::EmptySequence => false,
        FragmentV::SingletonSequence(inner) => spec_uses_randomness(*inner),
        FragmentV::OwnedFixedText(_) => false,
        FragmentV::BorrowedFixedText(_) => false,
        FragmentV::FixedLiteral(_) => false,
        FragmentV::DefaultValue => false,
        FragmentV::RandomText => true,
        FragmentV::FreshIdentifier => true,
        FragmentV::RandomOpaque => true,
    }
}

/// The rendered code text of a fragment, in whitespace-normalized canonical
/// form, as one expression of the target language.
pub open spec fn spec_render(f: FragmentV) -> Seq<char>
    decreases f,
{
    match f {
        FragmentV::PanicValue => "panic!(\"This property can not be generated\")"@,
        FragmentV::CapabilityCall { owner, method } => "<"@ + owner + " as "@ + spec_trait_name(
            owner,
        ) + ">::"@ + method + "(rng)"@,
        FragmentV::NoneValue => "None"@,
        FragmentV::SomeValue(inner) => "Some("@ + spec_render(*inner) + ")"@,
        FragmentV::RandomOption(inner) => "if rng.gen() { Some("@ + spec_render(*inner)
            + ") } else { None }"@,
        FragmentV::EmptySequence => "vec![]"@,
        FragmentV::SingletonSequence(inner) => "vec!["@ + spec_render(*inner) + "]"@,
        FragmentV::OwnedFixedText(lit) => "stringify!("@ + lit + ").to_string()"@,
        FragmentV::BorrowedFixedText(lit) => "stringify!("@ + lit + ")"@,
        FragmentV::FixedLiteral(lit) => lit,
        FragmentV::DefaultValue => "Default::default()"@,
        FragmentV::RandomText => "rng.sample_iter(&rand::distributions::Alphanumeric).take(10).map(char::from).collect()"@,
        FragmentV::FreshIdentifier => "uuid::Uuid::new_v4()"@,
        FragmentV::RandomOpaque => "rng.gen()"@,
    }
}

/// Render a fragment as code text.
pub fn render_fragment(f: &Fragment) -> (r: String)
    ensures
        r@ == spec_render(f@),
    decreases *f,
{
    match f {
        Fragment::PanicValue => "panic!(\"This property can not be generated\")".to_owned(),
        Fragment::CapabilityCall { owner, method } => {
            let mut out = "<".to_owned();
            out.append(owner.as_str());
            out.append(" as ");
            let tn = trait_name_for(owner);
            out.append(tn.as_str());
            out.append(">::");
            out.append(method.as_str());
            out.append("(rng)");
            out
        },
        Fragment::NoneValue => "None".to_owned(),
        Fragment::SomeValue(inner) => {
            let mut out = "Some(".to_owned();
            let iv = render_fragment(&**inner);
            out.append(iv.as_str());
            out.append(")");
            out
        },
        Fragment::RandomOption(inner) => {
            let mut out = "if rng.gen() { Some(".to_owned();
            let iv = render_fragment(&**inner);
            out.append(iv.as_str());
            out.append(") } else { None }");
            out
        },
        Fragment::EmptySequence => "vec![]".to_owned(),
        Fragment::SingletonSequence(inner) => {
            let mut out = "vec![".to_owned();
            let iv = render_fragment(&**inner);
            out.append(iv.as_str());
            out.append("]");
            out
        },
        Fragment::OwnedFixedText(lit) => {
            let mut out = "stringify!(".to_owned();
            out.append(lit.as_str());
            out.append(").to_string()");
            out
        },
        Fragment::BorrowedFixedText(lit) => {
            let mut out = "stringify!(".to_owned();
            out.append(lit.as_str());
            out.append(")");
            out
        },
        Fragment::FixedLiteral(lit) => lit.clone(),
        Fragment::DefaultValue => "Default::default()".to_owned(),
        Fragment::RandomText => "rng.sample_iter(&rand::distributions::Alphanumeric).take(10).map(char::from).collect()".to_owned(),
        Fragment::FreshIdentifier => "uuid::Uuid::new_v4()".to_owned(),
        Fragment::RandomOpaque => "rng.gen()".to_owned(),
    }
}

} // verus!
