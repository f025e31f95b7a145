//! The parts of a type declaration that the expansion reads, held as plain
//! values: identifiers and types as their source text, and the structure of
//! fields, generic arguments and attributes as enums.
use vstd::prelude::*;

verus! {

/// One generic argument inside the angle brackets of a path segment.
#[derive(Clone, Debug, PartialEq, Eq)]
pub enum GenericArgSyntax {
    /// A type argument, held as its source text.
    Type(String),
    Lifetime,
    Const,
    Binding,
    Constraint,
}

/// What follows the identifier of a path segment.
#[derive(Clone, Debug, PartialEq, Eq)]
pub enum PathArgumentsSyntax {
    /// No arguments at all.
    Bare,
    /// `<A, B, ...>`
    AngleBracketed(Vec<GenericArgSyntax>),
    /// `(A, B) -> C`
    Parenthesized,
}

/// One segment of a path, such as `ComPtr<IUnknown>` in `wio::com::ComPtr<IUnknown>`.
#[derive(Clone, Debug, PartialEq, Eq)]
pub struct PathSegmentSyntax {
    pub ident: String,
    pub arguments: PathArgumentsSyntax,
}

/// A type as written in a field: its source text and, where the type is a
/// path, the segments of that path.
#[derive(Clone, Debug, PartialEq, Eq)]
pub struct TypeSyntax {
    pub text: String,
    pub path: Option<Vec<PathSegmentSyntax>>,
}

/// A field of a struct with named fields.
#[derive(Clone, Debug, PartialEq, Eq)]
pub struct NamedFieldSyntax {
    pub ident: String,
    pub ty: TypeSyntax,
}

/// The fields of a struct.
#[derive(Clone, Debug, PartialEq, Eq)]
pub enum FieldsSyntax {
    /// `struct S { a: A, b: B }`
    Named(Vec<NamedFieldSyntax>),
    /// `struct S(A, B);`
    Unnamed(Vec<TypeSyntax>),
    /// `struct S;`
    Unit,
}

/// The kind of a declaration, with the fields where it is a struct.
#[derive(Clone, Debug, PartialEq, Eq)]
pub enum DataSyntax {
    Struct(FieldsSyntax),
    Enum,
    Union,
}

/// One item inside the parentheses of a list attribute.
#[derive(Clone, Debug, PartialEq, Eq)]
pub enum NestedMetaSyntax {
    /// A bare identifier.
    Word(String),
    /// Anything else: a literal, a `key = value` pair or a nested list.
    Other,
}

/// The payload of an attribute.
#[derive(Clone, Debug, PartialEq, Eq)]
pub enum MetaSyntax {
    /// `#[name]`
    Word,
    /// `#[name(a, b, ...)]`
    List(Vec<NestedMetaSyntax>),
    /// `#[name = value]`
    NameValue,
    /// A payload that does not read as any of the above.
    Malformed,
}

/// An attribute: the identifiers of its path and its payload.
#[derive(Clone, Debug, PartialEq, Eq)]
pub struct AttributeSyntax {
    pub path: Vec<String>,
    pub meta: MetaSyntax,
}

/// A type declaration that asks for the wrapper implementation.
#[derive(Clone, Debug, PartialEq, Eq)]
pub struct DeclarationSyntax {
    pub ident: String,
    pub attrs: Vec<AttributeSyntax>,
    pub data: DataSyntax,
}

/// Why a declaration cannot be expanded.
#[derive(Clone, Debug, PartialEq, Eq)]
pub enum ExpandError {
    /// The declaration is an enum or a union.
    NotStruct,
    /// The struct has zero or several fields.
    MemberCount,
    /// The struct has no fields, or its field is not a `ComPtr`.
    NoHandle,
    /// The `ComPtr` does not carry exactly one type argument.
    GenericArgs,
    /// The `com` attribute is not a list of known words, or cannot be read at all.
    InvalidParams,
    /// The `com` attribute names one word twice.
    DuplicateParams,
}

/// The diagnostic for each error.
pub open spec fn error_message(e: ExpandError) -> Seq<char> {
    match e {
        ExpandError::NotStruct => "ComWrapper can only wrap a `struct`"@,
        ExpandError::MemberCount => "A ComWrapper struct must have exactly 1 member, a ComPtr."@,
        ExpandError::NoHandle => "A ComWrapper struct must have a ComPtr member."@,
        ExpandError::GenericArgs => "Invalid generic arguments to ComPtr."@,
        ExpandError::InvalidParams => "Invalid parameters to the `com` attribute"@,
        ExpandError::DuplicateParams => "Duplicate parameters to the `com` attribute"@,
    }
}

impl ExpandError {
    /// The diagnostic that stands in place of the generated code.
    pub fn message(&self) -> (r: String)
        ensures
            r@ == error_message(*self),
    {
        match self {
            ExpandError::NotStruct => String::from_str("ComWrapper can only wrap a `struct`"),
            ExpandError::MemberCount => String::from_str(
                "A ComWrapper struct must have exactly 1 member, a ComPtr.",
            ),
            ExpandError::NoHandle => String::from_str(
                "A ComWrapper struct must have a ComPtr member.",
            ),
            ExpandError::GenericArgs => String::from_str("Invalid generic arguments to ComPtr."),
            ExpandError::InvalidParams => String::from_str(
                "Invalid parameters to the `com` attribute",
            ),
            ExpandError::DuplicateParams => String::from_str(
                "Duplicate parameters to the `com` attribute",
            ),
        }
    }
}

/// Whether `s` holds exactly the characters of `w`.
pub fn is_word(s: &String, w: &str) -> (r: bool)
    ensures
        r == (s@ == w@),
{
    let t = String::from_str(w);
    *s == t
}

} // verus!
