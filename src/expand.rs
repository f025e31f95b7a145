//! The whole expansion: shape, then capabilities, then the generated text;
//! the first error ends it.
use vstd::prelude::*;
use crate::capability::{
    capabilities_of, is_com, lemma_no_com_attribute, no_capabilities, parse_attr, Capabilities,
};
use crate::emit::{
    artifact_text, capabilities_text, debug_text, marker_text, meta_impl, optional_text,
    wrapper_impl, wrapper_text,
};
use crate::shape::{get_comptr_member, shape_of, Shape};
use crate::syntax::{DataSyntax, DeclarationSyntax, ExpandError, FieldsSyntax, TypeSyntax};

verus! {

/// The checked shape and capabilities of a declaration, or the first error.
pub open spec fn checked(input: DeclarationSyntax) -> Result<(Shape, Capabilities), ExpandError> {
    match input.data {
        DataSyntax::Struct(fields) => match shape_of(fields) {
            Ok(shape) => match capabilities_of(input.attrs@) {
                Ok(caps) => Ok((shape, caps)),
                Err(e) => Err(e),
            },
            Err(e) => Err(e),
        },
        _ => Err(ExpandError::NotStruct),
    }
}

/// The text generated for a declaration, or the error that stands in its place.
pub open spec fn expansion(input: DeclarationSyntax) -> Result<Seq<char>, ExpandError> {
    match checked(input) {
        Ok((shape, caps)) => Ok(artifact_text(input.ident@, shape, caps)),
        Err(e) => Err(e),
    }
}

/// Generates the implementations for `input`, or says why it cannot be wrapped.
pub fn expand_com_wrapper(input: &DeclarationSyntax) -> (r: Result<String, ExpandError>)
    ensures
        match r {
            Ok(text) => expansion(*input) == Ok::<Seq<char>, ExpandError>(text@),
            Err(e) => expansion(*input) == Err::<Seq<char>, ExpandError>(e),
        },
{
    let fields = match &input.data {
        DataSyntax::Struct(fields) => fields,
        _ => return Err(ExpandError::NotStruct),
    };
    let shape = get_comptr_member(fields)?;
    let attrinfo = parse_attr(&input.attrs)?;
    let mut out = wrapper_impl(&input.ident, &shape);
    let meta = meta_impl(&input.ident, &attrinfo);
    out.append(meta.as_str());
    Ok(out)
}

/// The number of fields of a struct.
pub open spec fn field_count(fields: FieldsSyntax) -> int {
    match fields {
        FieldsSyntax::Named(fs) => fs@.len() as int,
        FieldsSyntax::Unnamed(ts) => ts@.len() as int,
        FieldsSyntax::Unit => 0,
    }
}

/// The type of the first field of a struct, where it has one.
pub open spec fn first_field_type(fields: FieldsSyntax) -> TypeSyntax
    recommends
        field_count(fields) > 0,
{
    match fields {
        FieldsSyntax::Named(fs) => fs@[0].ty,
        FieldsSyntax::Unnamed(ts) => ts@[0],
        FieldsSyntax::Unit => arbitrary(),
    }
}

/// Whether a type is a path whose last segment is named `ComPtr`.
pub open spec fn names_comptr(ty: TypeSyntax) -> bool {
    match ty.path {
        Some(segs) => segs@.len() > 0 && segs@.last().ident@ == "ComPtr"@,
        None => false,
    }
}

/// A struct with braces or parentheses and other than one field generates
/// nothing: it is refused for its number of members.
pub proof fn lemma_member_count_rejected(input: DeclarationSyntax)
    requires
        input.data matches DataSyntax::Struct(fields) && !(fields is Unit) && field_count(fields)
            != 1,
    ensures
        expansion(input) == Err::<Seq<char>, ExpandError>(ExpandError::MemberCount),
{
}

/// A struct whose one field is of a type other than `..::ComPtr<..>`, such as
/// a plain integer, generates nothing: it is refused for want of a handle.
pub proof fn lemma_non_handle_rejected(input: DeclarationSyntax)
    requires
        input.data matches DataSyntax::Struct(fields) && field_count(fields) == 1
            && !names_comptr(first_field_type(fields)),
    ensures
        expansion(input) == Err::<Seq<char>, ExpandError>(ExpandError::NoHandle),
{
}

/// A struct that has the right shape and no `com` attribute generates the
/// wrapper implementation and nothing else.
pub proof fn lemma_default_capabilities(input: DeclarationSyntax)
    requires
        input.data matches DataSyntax::Struct(fields) && shape_of(fields) is Ok,
        forall|k: int| 0 <= k < input.attrs@.len() ==> !is_com(#[trigger] input.attrs@[k]),
    ensures
        match input.data {
            DataSyntax::Struct(fields) => expansion(input) == Ok::<Seq<char>, ExpandError>(
                wrapper_text(input.ident@, shape_of(fields)->Ok_0),
            ),
            _ => false,
        },
{
    lemma_no_com_attribute(input.attrs@);
    let wrap = input.ident@;
    let caps = no_capabilities();
    assert(capabilities_text(wrap, caps) =~= Seq::<char>::empty());
    if let DataSyntax::Struct(fields) = input.data {
        let shape = shape_of(fields)->Ok_0;
        assert(artifact_text(wrap, shape, caps) =~= wrapper_text(wrap, shape));
    }
}

/// Where the debug capability is asked for, the generated text ends with the
/// `Debug` implementation, which prints the type's name and then the pointer
/// that the borrowing accessor returns.
pub proof fn lemma_debug_requested(input: DeclarationSyntax)
    requires
        checked(input) matches Ok((shape, caps)) && caps.debug,
    ensures
        expansion(input) matches Ok(text) && text.len() >= debug_text(input.ident@).len()
            && text.subrange(text.len() - debug_text(input.ident@).len(), text.len() as int)
            == debug_text(input.ident@),
{
    let wrap = input.ident@;
    let (shape, caps) = checked(input)->Ok_0;
    let d = debug_text(wrap);
    let head = wrapper_text(wrap, shape) + optional_text(caps.send, marker_text("Send"@, wrap))
        + optional_text(caps.sync, marker_text("Sync"@, wrap));
    let text = artifact_text(wrap, shape, caps);
    assert(text =~= head + d);
    assert(text.subrange(text.len() - d.len(), text.len() as int) =~= d);
}

} // verus!
