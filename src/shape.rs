//! Checks that a struct has the one field a wrapper needs, a `ComPtr<I>`,
//! and finds the interface type `I`.
use vstd::prelude::*;
use crate::syntax::{
    is_word, ExpandError, FieldsSyntax, GenericArgSyntax, PathArgumentsSyntax, TypeSyntax,
};

verus! {

/// How the wrapper's one field is reached: by its name, or as `.0`.
#[derive(Clone, Debug, PartialEq, Eq)]
pub enum Member {
    Named(String),
    Unnamed,
}

/// What the expansion needs to know of the wrapped field.
#[derive(Clone, Debug, PartialEq, Eq)]
pub struct Shape {
    pub member: Member,
    /// The interface type `I` of the field's `ComPtr<I>`.
    pub itype: String,
    /// The field's whole type, `ComPtr<I>` as written.
    pub ctype: String,
}

/// The interface type of a field type `..::ComPtr<I>`, or why the type is not one.
pub open spec fn comptr_arg(ty: TypeSyntax) -> Result<String, ExpandError> {
    match ty.path {
        None => Err(ExpandError::NoHandle),
        Some(segs) => if segs@.len() == 0 || segs@.last().ident@ != "ComPtr"@ {
            Err(ExpandError::NoHandle)
        } else {
            match segs@.last().arguments {
                PathArgumentsSyntax::AngleBracketed(args) => if args@.len() != 1 {
                    Err(ExpandError::GenericArgs)
                } else {
                    match args@[0] {
                        GenericArgSyntax::Type(t) => Ok(t),
                        _ => Err(ExpandError::GenericArgs),
                    }
                },
                _ => Err(ExpandError::GenericArgs),
            }
        },
    }
}

/// The shape of a struct whose fields are `fields`, or why it has none.
pub open spec fn shape_of(fields: FieldsSyntax) -> Result<Shape, ExpandError> {
    match fields {
        FieldsSyntax::Named(fs) => if fs@.len() != 1 {
            Err(ExpandError::MemberCount)
        } else {
            match comptr_arg(fs@[0].ty) {
                Ok(it) => Ok(Shape { member: Member::Named(fs@[0].ident), itype: it, ctype: fs@[0].ty.text }),
                Err(e) => Err(e),
            }
        },
        FieldsSyntax::Unnamed(ts) => if ts@.len() != 1 {
            Err(ExpandError::MemberCount)
        } else {
            match comptr_arg(ts@[0]) {
                Ok(it) => Ok(Shape { member: Member::Unnamed, itype: it, ctype: ts@[0].text }),
                Err(e) => Err(e),
            }
        },
        FieldsSyntax::Unit => Err(ExpandError::NoHandle),
    }
}

/// The interface type `I` of a field type that ends in `ComPtr<I>`.
pub fn extract_comptr_ty(ty: &TypeSyntax) -> (r: Result<String, ExpandError>)
    ensures
        r == comptr_arg(*ty),
{
    let segs = match &ty.path {
        Some(segs) => segs,
        None => return Err(ExpandError::NoHandle),
    };
    if segs.len() == 0 {
        return Err(ExpandError::NoHandle);
    }
    let final_seg = &segs[segs.len() - 1];
    if !is_word(&final_seg.ident, "ComPtr") {
        return Err(ExpandError::NoHandle);
    }
    let args = match &final_seg.arguments {
        PathArgumentsSyntax::AngleBracketed(args) => args,
        _ => return Err(ExpandError::GenericArgs),
    };
    if args.len() != 1 {
        return Err(ExpandError::GenericArgs);
    }
    match &args[0] {
        GenericArgSyntax::Type(t) => Ok(t.clone()),
        _ => Err(ExpandError::GenericArgs),
    }
}

/// The one field of a struct, with the interface type of its `ComPtr`.
pub fn get_comptr_member(fields: &FieldsSyntax) -> (r: Result<Shape, ExpandError>)
    ensures
        r == shape_of(*fields),
{
    match fields {
        FieldsSyntax::Named(fs) => {
            if fs.len() != 1 {
                return Err(ExpandError::MemberCount);
            }
            let field = &fs[0];
            let itype = extract_comptr_ty(&field.ty)?;
            Ok(Shape { member: Member::Named(field.ident.clone()), itype, ctype: field.ty.text.clone() })
        },
        FieldsSyntax::Unnamed(ts) => {
            if ts.len() != 1 {
                return Err(ExpandError::MemberCount);
            }
            let ty = &ts[0];
            let itype = extract_comptr_ty(ty)?;
            Ok(Shape { member: Member::Unnamed, itype, ctype: ty.text.clone() })
        },
        FieldsSyntax::Unit => Err(ExpandError::NoHandle),
    }
}

} // verus!
