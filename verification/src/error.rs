use vstd::prelude::*;

verus! {

/// The two fatal, non-recoverable failure kinds of the engine, surfaced to
/// the caller as structured errors at generation time (never at the runtime
/// of the emitted code).
#[derive(Clone, Copy, Debug, PartialEq, Eq, Structural)]
pub enum GenError {
    /// The field's declared type is neither a named-path type nor a
    /// (possibly nested) reference to one.
    UnsupportedType,
    /// The field's type has a shape the engine cannot classify, such as an
    /// optional or sequence head without a well-formed `<` ... `>` type
    /// argument in its rendered form.
    UnsupportedShape,
}

} // verus!
