//! The data the generator works on: a parsed type declaration, reduced to
//! plain values, and the fragment it produces.

use vstd::prelude::*;

verus! {

/// What sort of type a declaration introduces.
#[derive(Clone, Copy, Debug, PartialEq, Eq, Structural)]
pub enum DeclKind {
    /// A tagged union: named variants, each optionally carrying fields.
    TaggedUnion,
    /// A plain record: one fixed set of fields, no variants.
    PlainRecord,
    /// Anything else the parser can hand over.
    Other,
}

/// One generic parameter of the subject type.
///
/// Bound, type and default text is carried verbatim, exactly as the
/// declaration wrote it; an empty string stands for "absent". The generator
/// reproduces names and bounds unchanged and drops defaults, which may not
/// appear on an implementation's own generic scope.
#[derive(Debug)]
pub enum GenericParam {
    /// A lifetime parameter: its name (with its leading tick) and its bounds.
    Lifetime { name: String, bounds: String },
    /// A type parameter: its name, its bounds, and its default type.
    Type { name: String, bounds: String, default_ty: String },
    /// A const parameter: its name, its type, and its default value.
    Const { name: String, ty: String, default_val: String },
}

/// The arity of one variant: no fields, a row of unnamed fields, or a set of
/// named fields. Field types are deliberately absent: the generator must not
/// read them, and the fragment it emits never touches them.
#[derive(Debug)]
pub enum FieldShape {
    /// No fields at all.
    Unit,
    /// Unnamed fields, known only by how many there are.
    Unnamed { count: usize },
    /// Named fields, known only by their names.
    Named { names: Vec<String> },
}

/// One named alternative of a tagged union.
#[derive(Debug)]
pub struct Variant {
    /// The variant's name.
    pub name: String,
    /// The variant's field arity.
    pub shape: FieldShape,
}

/// A parsed type declaration, reduced to what the generator reads: the
/// type's name, what kind of type it is, its generic parameters in order,
/// its trailing constraint clause, and its variants.
pub struct TypeDeclaration {
    /// The declared type's name.
    pub name: String,
    /// Whether the declaration is a tagged union, a plain record, or other.
    pub kind: DeclKind,
    /// The generic parameters, in declaration order.
    pub params: Vec<GenericParam>,
    /// The trailing constraint clause, verbatim with its leading keyword;
    /// empty when the declaration has none.
    pub where_clause: String,
    /// The variants; meaningful only for a tagged union, and never inspected
    /// by the generator beyond being carried along.
    pub variants: Vec<Variant>,
}

/// The one way generation can fail.
#[derive(Clone, Copy, Debug, PartialEq, Eq, Structural)]
pub enum GenerationError {
    /// The capability was requested for a declaration that is not a tagged
    /// union.
    UnsupportedKind,
}

impl GenerationError {
    /// The user-facing diagnostic for this error.
    pub fn message(&self) -> (r: String)
        ensures
            r@ == "#[derive(VariantEq)] is only defined for enums"@,
    {
        String::from_str("#[derive(VariantEq)] is only defined for enums")
    }
}

/// The generated code fragment: the full token row of the two capability
/// implementations, together with the three views of the subject type's
/// generics that the fragment was assembled from.
pub struct GeneratedFragment {
    /// The parameter-list form that opens each implementation's own generic
    /// scope: every parameter with its bounds verbatim, defaults dropped.
    pub impl_generics: Vec<String>,
    /// The argument-list form that applies the subject type: every
    /// parameter's bare name, in declaration order.
    pub ty_generics: Vec<String>,
    /// The trailing constraint clause, verbatim.
    pub where_clause: String,
    /// The fragment itself, as a row of code tokens.
    pub tokens: Vec<String>,
}

} // verus!
