//! Expansion of the `ComWrapper` derive: checks that a struct wraps a single
//! `ComPtr<I>`, reads its `#[com(...)]` capabilities, and writes the source
//! text of the implementations.
pub mod capability;
pub mod emit;
pub mod expand;
pub mod shape;
pub mod syntax;

pub use capability::{is_com_attr, parse_attr, Capabilities};
pub use emit::{create_wrapping, dbg_impl, meta_impl, wrapper_impl};
pub use expand::expand_com_wrapper;
pub use shape::{extract_comptr_ty, get_comptr_member, Member, Shape};

pub use syntax::{
    AttributeSyntax, DataSyntax, DeclarationSyntax, ExpandError, FieldsSyntax, GenericArgSyntax,
    MetaSyntax, NamedFieldSyntax, NestedMetaSyntax, PathArgumentsSyntax, PathSegmentSyntax,
    TypeSyntax,
};
