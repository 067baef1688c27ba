use vstd::prelude::*;

verus! {

/// The kinds of the closed set of per-field customization directives.
#[derive(Clone, Copy, Debug, PartialEq, Eq, Structural)]
pub enum DirectiveKind {
    Panic,
    Custom,
    AlwaysNone,
    AlwaysSome,
    Empty,
    DefaultValue,
    FixedValue,
}

/// One customization directive attached to a field.  `Panic` and `Custom`
/// are each exclusive highest-priority overrides; `FixedValue` overrides
/// randomization but not `Panic`/`Custom`.
#[derive(Debug)]
pub enum Directive {
    /// The field cannot be generated: emit an unconditional failure.
    Panic,
    /// Delegate generation to a caller-supplied capability method.
    Custom,
    /// Force the empty arm of an optional value.
    AlwaysNone,
    /// Force the present arm of an optional value.
    AlwaysSome,
    /// Force a zero-length sequence.
    Empty,
    /// Use the type's zero/default value.
    DefaultValue,
    /// Use the given literal text instead of randomization.
    FixedValue(String),
}

impl Directive {
    /// The kind of this directive, without its payload.
    pub open spec fn spec_kind(self) -> DirectiveKind {
        match self {
            Directive::Panic => DirectiveKind::Panic,
            Directive::Custom => DirectiveKind::Custom,
            Directive::AlwaysNone => DirectiveKind::AlwaysNone,
            Directive::AlwaysSome => DirectiveKind::AlwaysSome,
            Directive::Empty => DirectiveKind::Empty,
            Directive::DefaultValue => DirectiveKind::DefaultValue,
            Directive::FixedValue(_) => DirectiveKind::FixedValue,
        }
    }

    pub fn kind(&self) -> (k: DirectiveKind)
        ensures
            k == self.spec_kind(),
    {
        match self {
            Directive::Panic => DirectiveKind::Panic,
            Directive::Custom => DirectiveKind::Custom,
            Directive::AlwaysNone => DirectiveKind::AlwaysNone,
            Directive::AlwaysSome => DirectiveKind::AlwaysSome,
            Directive::Empty => DirectiveKind::Empty,
            Directive::DefaultValue => DirectiveKind::DefaultValue,
            Directive::FixedValue(_) => DirectiveKind::FixedValue,
        }
    }
}

/// Whether a directive of the given kind is attached to the field.
pub open spec fn spec_has(ds: Seq<Directive>, k: DirectiveKind) -> bool {
    exists|i: int| 0 <= i < ds.len() && ds[i].spec_kind() == k
}

/// Query of the directive list: does a directive of kind `k` occur in it?
pub fn has_directive(ds: &Vec<Directive>, k: DirectiveKind) -> (r: bool)
    ensures
        r == spec_has(ds@, k),
{
    let mut i: usize = 0;
    while i < ds.len()
        invariant
            i <= ds@.len(),
            forall|j: int| 0 <= j < i ==> ds@[j].spec_kind() != k,
        decreases ds@.len() - i,
    {
        if ds[i].kind() == k {
            proof {
                assert(ds@[i as int].spec_kind() == k);
            }
            return true;
        }
        i = i + 1;
    }
    false
}

/// The literal of the first `FixedValue` directive at position `i` or
/// later, if any.
pub open spec fn spec_fixed_value_from(ds: Seq<Directive>, i: int) -> Option<Seq<char>>
    decreases ds.len() - i,
{
    if i < 0 || i >= ds.len() {
        None
    } else {
        match ds[i] {
            Directive::FixedValue(lit) => Some(lit@),
            _ => spec_fixed_value_from(ds, i + 1),
        }
    }
}

/// The literal of the first `FixedValue` directive in the list, if any.
pub open spec fn spec_fixed_value(ds: Seq<Directive>) -> Option<Seq<char>> {
    spec_fixed_value_from(ds, 0)
}

fn fixed_value_from(ds: &Vec<Directive>, i: usize) -> (r: Option<String>)
    requires
        i <= ds@.len(),
    ensures
        match r {
            Some(s) => spec_fixed_value_from(ds@, i as int) == Some(s@),
            None => spec_fixed_value_from(ds@, i as int) is None,
        },
    decreases ds@.len() - i,
{
    if i == ds.len() {
        None
    } else {
        match &ds[i] {
            Directive::FixedValue(lit) => Some(lit.clone()),
            _ => fixed_value_from(ds, i + 1),
        }
    }
}

/// Query of the directive list: the literal of its first `FixedValue`
/// directive, if any.
pub fn fixed_value(ds: &Vec<Directive>) -> (r: Option<String>)
    ensures
        match r {
            Some(s) => spec_fixed_value(ds@) == Some(s@),
            None => spec_fixed_value(ds@) is None,
        },
{
    fixed_value_from(ds, 0)
}

} // verus!
