use vstd::prelude::*;

use crate::error::GenError;
use crate::text::{find_first_char, find_last_char, normalize_type_text, strip_spaces};

verus! {

/// A field's declared type as handed to the engine: a named-path type with
/// its rendered text and its segment names, a reference to a type, or any
/// other form, which the engine has no strategy for.
#[derive(Debug)]
pub enum DeclaredType {
    /// A named-path type: its rendered token text (possibly with the
    /// whitespace that rendering inserts) and the identifiers of its path
    /// segments, outermost constructor last.
    Path { rendered: String, segments: Vec<String> },
    /// A reference to a type; references are dereferenced transparently
    /// before classification.
    Reference(Box<DeclaredType>),
    /// Any other type form.
    Other,
}

/// The (full-type-text, head-type-name) pair of a declared type: its
/// whitespace-normalized rendered text and the identifier naming its
/// outermost type constructor, when the type is a named-path type behind
/// any number of references; nothing otherwise.
pub open spec fn spec_classify(t: DeclaredType) -> Option<(Seq<char>, Seq<char>)>
    decreases t,
{
    match t {
        DeclaredType::Path { rendered, segments } => {
            if segments@.len() == 0 {
                None
            } else {
                Some((strip_spaces(rendered@), segments@.last()@))
            }
        },
        DeclaredType::Reference(inner) => spec_classify(*inner),
        DeclaredType::Other => None,
    }
}

/// The Type Classifier's output for one field.
#[derive(Debug)]
pub struct ClassifiedType {
    /// The fully rendered, whitespace-normalized textual form of the type.
    pub full: String,
    /// The identifier naming the outermost type constructor.
    pub head: String,
}

/// The Type Classifier: normalize a declared type's rendered text and name
/// its outermost type constructor, dereferencing references transparently.
/// A type that is not a named-path type behind references is unsupported
/// and aborts generation for the owning type.
pub fn classify(t: &DeclaredType) -> (r: Result<ClassifiedType, GenError>)
    ensures
        match r {
            Ok(c) => spec_classify(*t) == Some((c.full@, c.head@)),
            Err(e) => spec_classify(*t) is None && e == GenError::UnsupportedType,
        },
    decreases *t,
{
    match t {
        DeclaredType::Path { rendered, segments } => {
            if segments.len() == 0 {
                Err(GenError::UnsupportedType)
            } else {
                let full = normalize_type_text(rendered.as_str());
                let head = segments[segments.len() - 1].clone();
                Ok(ClassifiedType { full, head })
            }
        },
        DeclaredType::Reference(inner) => classify(&**inner),
        DeclaredType::Other => Err(GenError::UnsupportedType),
    }
}

/// Whether a normalized type text has a well-formed type-argument part: a
/// first `<` with a `>` somewhere after it.
pub open spec fn spec_has_inner(full: Seq<char>) -> bool {
    match (full.index_of_first('<'), full.index_of_last('>')) {
        (Some(i), Some(j)) => i < j,
        _ => false,
    }
}

/// The inner type text of a normalized optional or sequence type text:
/// what stands strictly between the first `<` and the trailing `>`.
pub open spec fn spec_inner_text(full: Seq<char>) -> Seq<char>
    recommends
        spec_has_inner(full),
{
    full.subrange(
        full.index_of_first('<').unwrap() + 1,
        full.index_of_last('>').unwrap(),
    )
}

/// Extract the inner type text between the outermost angle brackets of a
/// normalized type text; a text without a well-formed `<` ... `>` pair is a
/// shape the engine cannot classify.
pub fn inner_type_text(full: &str) -> (r: Result<String, GenError>)
    ensures
        match r {
            Ok(inner) => spec_has_inner(full@) && inner@ == spec_inner_text(full@),
            Err(e) => !spec_has_inner(full@) && e == GenError::UnsupportedShape,
        },
{
    let lt = find_first_char(full, '<');
    let gt = find_last_char(full, '>');
    match (lt, gt) {
        (Some(i), Some(j)) => {
            if i < j {
                proof {
                    full@.index_of_first_ensures('<');
                    full@.index_of_last_ensures('>');
                }
                let inner = full.substring_char(i + 1, j);
                Ok(inner.to_owned())
            } else {
                Err(GenError::UnsupportedShape)
            }
        },
        _ => Err(GenError::UnsupportedShape),
    }
}

} // verus!
