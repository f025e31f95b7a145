use derive_com_wrapper::{
    dbg_impl, expand_com_wrapper, extract_comptr_ty, get_comptr_member, parse_attr,
    AttributeSyntax, Capabilities, DataSyntax, DeclarationSyntax, ExpandError, FieldsSyntax,
    GenericArgSyntax, Member, MetaSyntax, NamedFieldSyntax, NestedMetaSyntax,
    PathArgumentsSyntax, PathSegmentSyntax, Shape, TypeSyntax,
};

fn segment(ident: &str, arguments: PathArgumentsSyntax) -> PathSegmentSyntax {
    PathSegmentSyntax { ident: ident.to_string(), arguments }
}

fn comptr_of(itype: &str) -> TypeSyntax {
    TypeSyntax {
        text: format!("ComPtr < {} >", itype),
        path: Some(vec![segment(
            "ComPtr",
            PathArgumentsSyntax::AngleBracketed(vec![GenericArgSyntax::Type(itype.to_string())]),
        )]),
    }
}

fn plain(ident: &str) -> TypeSyntax {
    TypeSyntax {
        text: ident.to_string(),
        path: Some(vec![segment(ident, PathArgumentsSyntax::Bare)]),
    }
}

fn named(fields: Vec<(&str, TypeSyntax)>) -> DataSyntax {
    DataSyntax::Struct(FieldsSyntax::Named(
        fields
            .into_iter()
            .map(|(n, ty)| NamedFieldSyntax { ident: n.to_string(), ty })
            .collect(),
    ))
}

fn words(ws: &[&str]) -> Vec<NestedMetaSyntax> {
    ws.iter().map(|w| NestedMetaSyntax::Word(w.to_string())).collect()
}

fn com(items: Vec<NestedMetaSyntax>) -> AttributeSyntax {
    AttributeSyntax { path: vec!["com".to_string()], meta: MetaSyntax::List(items) }
}

fn decl(attrs: Vec<AttributeSyntax>, data: DataSyntax) -> DeclarationSyntax {
    DeclarationSyntax { ident: "UnknownThing".to_string(), attrs, data }
}

fn handle_struct(attrs: Vec<AttributeSyntax>) -> DeclarationSyntax {
    decl(attrs, named(vec![("ptr", comptr_of("IUnknown"))]))
}

const WRAPPER_NAMED: &str = "impl ::com_wrapper::ComWrapper for UnknownThing {
    type Interface = IUnknown;
    #[inline]
    unsafe fn get_raw(&self) -> *mut IUnknown {
        ComPtr::as_raw(&self.ptr)
    }
    #[inline]
    unsafe fn from_raw(ptr: *mut IUnknown) -> Self {
        <Self as ::com_wrapper::ComWrapper>::from_ptr(ComPtr::from_raw(ptr))
    }
    #[inline]
    unsafe fn into_raw(self) -> *mut IUnknown {
        ComPtr::into_raw(Self::into_ptr(self))
    }
    #[inline]
    unsafe fn from_ptr(ptr: ComPtr < IUnknown >) -> Self {
        UnknownThing { ptr: ptr }
    }
    #[inline]
    unsafe fn into_ptr(self) -> ComPtr < IUnknown > {
        self.ptr
    }
}
";

const DEBUG_IMPL: &str = "impl ::std::fmt::Debug for UnknownThing {
    fn fmt(&self, fmt: &mut ::std::fmt::Formatter) -> ::std::fmt::Result {
        fmt.debug_tuple(\"UnknownThing\")
            .field(&unsafe { Self::get_raw(self) })
            .finish()
    }
}
";

#[test]
fn named_field_wrapper_text() {
    let out = expand_com_wrapper(&handle_struct(vec![])).unwrap();
    assert_eq!(out, WRAPPER_NAMED);
}

#[test]
fn send_sync_add_marker_impls() {
    let out = expand_com_wrapper(&handle_struct(vec![com(words(&["send", "sync"]))])).unwrap();
    let expected = format!(
        "{}unsafe impl Send for UnknownThing {{}}\nunsafe impl Sync for UnknownThing {{}}\n",
        WRAPPER_NAMED
    );
    assert_eq!(out, expected);
}

#[test]
fn tuple_struct_uses_positional_member() {
    let input = decl(
        vec![],
        DataSyntax::Struct(FieldsSyntax::Unnamed(vec![comptr_of("IDXGIFactory")])),
    );
    let out = expand_com_wrapper(&input).unwrap();
    assert!(out.contains("ComPtr::as_raw(&self.0)"));
    assert!(out.contains("        UnknownThing(ptr)\n"));
    assert!(out.contains("        self.0\n"));
    assert!(out.contains("type Interface = IDXGIFactory;"));
}

#[test]
fn shape_keeps_member_and_types() {
    let fields = FieldsSyntax::Named(vec![NamedFieldSyntax {
        ident: "inner".to_string(),
        ty: comptr_of("IUnknown"),
    }]);
    assert_eq!(
        get_comptr_member(&fields),
        Ok(Shape {
            member: Member::Named("inner".to_string()),
            itype: "IUnknown".to_string(),
            ctype: "ComPtr < IUnknown >".to_string(),
        })
    );
}

#[test]
fn qualified_comptr_path_is_accepted() {
    let ty = TypeSyntax {
        text: "wio :: com :: ComPtr < IUnknown >".to_string(),
        path: Some(vec![
            segment("wio", PathArgumentsSyntax::Bare),
            segment("com", PathArgumentsSyntax::Bare),
            segment(
                "ComPtr",
                PathArgumentsSyntax::AngleBracketed(vec![GenericArgSyntax::Type(
                    "IUnknown".to_string(),
                )]),
            ),
        ]),
    };
    assert_eq!(extract_comptr_ty(&ty), Ok("IUnknown".to_string()));
}

#[test]
fn two_handle_fields_are_rejected() {
    let input = decl(
        vec![],
        named(vec![("a", comptr_of("IUnknown")), ("b", comptr_of("IUnknown"))]),
    );
    assert_eq!(expand_com_wrapper(&input), Err(ExpandError::MemberCount));
    let tuple = decl(
        vec![],
        DataSyntax::Struct(FieldsSyntax::Unnamed(vec![comptr_of("IUnknown"), comptr_of("IUnknown")])),
    );
    assert_eq!(expand_com_wrapper(&tuple), Err(ExpandError::MemberCount));
}

#[test]
fn empty_braces_are_rejected_for_member_count() {
    let input = decl(vec![], named(vec![]));
    assert_eq!(expand_com_wrapper(&input), Err(ExpandError::MemberCount));
}

#[test]
fn integer_field_is_rejected() {
    let input = decl(vec![], named(vec![("ptr", plain("u32"))]));
    let err = expand_com_wrapper(&input).unwrap_err();
    assert_eq!(err, ExpandError::NoHandle);
    assert_eq!(err.message(), "A ComWrapper struct must have a ComPtr member.");
}

#[test]
fn non_path_field_is_rejected() {
    let ty = TypeSyntax { text: "& u32".to_string(), path: None };
    assert_eq!(extract_comptr_ty(&ty), Err(ExpandError::NoHandle));
}

#[test]
fn unit_struct_is_rejected() {
    let input = decl(vec![], DataSyntax::Struct(FieldsSyntax::Unit));
    assert_eq!(expand_com_wrapper(&input), Err(ExpandError::NoHandle));
}

#[test]
fn enum_and_union_are_rejected() {
    assert_eq!(expand_com_wrapper(&decl(vec![], DataSyntax::Enum)), Err(ExpandError::NotStruct));
    assert_eq!(expand_com_wrapper(&decl(vec![], DataSyntax::Union)), Err(ExpandError::NotStruct));
}

#[test]
fn bad_generic_arguments_are_rejected() {
    let bare = TypeSyntax {
        text: "ComPtr".to_string(),
        path: Some(vec![segment("ComPtr", PathArgumentsSyntax::Bare)]),
    };
    assert_eq!(extract_comptr_ty(&bare), Err(ExpandError::GenericArgs));
    let two = TypeSyntax {
        text: "ComPtr < A , B >".to_string(),
        path: Some(vec![segment(
            "ComPtr",
            PathArgumentsSyntax::AngleBracketed(vec![
                GenericArgSyntax::Type("A".to_string()),
                GenericArgSyntax::Type("B".to_string()),
            ]),
        )]),
    };
    assert_eq!(extract_comptr_ty(&two), Err(ExpandError::GenericArgs));
    let lifetime = TypeSyntax {
        text: "ComPtr < 'a >".to_string(),
        path: Some(vec![segment(
            "ComPtr",
            PathArgumentsSyntax::AngleBracketed(vec![GenericArgSyntax::Lifetime]),
        )]),
    };
    assert_eq!(extract_comptr_ty(&lifetime), Err(ExpandError::GenericArgs));
    let paren = TypeSyntax {
        text: "ComPtr (A)".to_string(),
        path: Some(vec![segment("ComPtr", PathArgumentsSyntax::Parenthesized)]),
    };
    assert_eq!(extract_comptr_ty(&paren), Err(ExpandError::GenericArgs));
    let input = decl(vec![], named(vec![("ptr", two)]));
    let err = expand_com_wrapper(&input).unwrap_err();
    assert_eq!(err.message(), "Invalid generic arguments to ComPtr.");
}

#[test]
fn duplicate_capability_is_rejected() {
    let input = handle_struct(vec![com(words(&["send", "sync", "send"]))]);
    let err = expand_com_wrapper(&input).unwrap_err();
    assert_eq!(err, ExpandError::DuplicateParams);
    assert_eq!(err.message(), "Duplicate parameters to the `com` attribute");
}

#[test]
fn unknown_capability_is_rejected() {
    let input = handle_struct(vec![com(words(&["send", "clone"]))]);
    let err = expand_com_wrapper(&input).unwrap_err();
    assert_eq!(err, ExpandError::InvalidParams);
    assert_eq!(err.message(), "Invalid parameters to the `com` attribute");
}

#[test]
fn keywords_are_case_sensitive() {
    assert_eq!(parse_attr(&vec![com(words(&["Send"]))]), Err(ExpandError::InvalidParams));
}

#[test]
fn first_offending_item_decides_the_error() {
    assert_eq!(
        parse_attr(&vec![com(words(&["send", "send", "bogus"]))]),
        Err(ExpandError::DuplicateParams)
    );
    assert_eq!(
        parse_attr(&vec![com(words(&["bogus", "send", "send"]))]),
        Err(ExpandError::InvalidParams)
    );
}

#[test]
fn non_word_items_and_payloads_are_rejected() {
    let mut items = words(&["send"]);
    items.push(NestedMetaSyntax::Other);
    assert_eq!(parse_attr(&vec![com(items)]), Err(ExpandError::InvalidParams));
    let word = AttributeSyntax { path: vec!["com".to_string()], meta: MetaSyntax::Word };
    assert_eq!(parse_attr(&vec![word]), Err(ExpandError::InvalidParams));
    let pair = AttributeSyntax { path: vec!["com".to_string()], meta: MetaSyntax::NameValue };
    assert_eq!(parse_attr(&vec![pair]), Err(ExpandError::InvalidParams));
}

#[test]
fn unreadable_payload_is_rejected_as_invalid() {
    let bad = AttributeSyntax { path: vec!["com".to_string()], meta: MetaSyntax::Malformed };
    let err = parse_attr(&vec![bad]).unwrap_err();
    assert_eq!(err, ExpandError::InvalidParams);
    assert_eq!(err.message(), "Invalid parameters to the `com` attribute");
}

#[test]
fn no_annotation_gives_wrapper_only() {
    let repr = AttributeSyntax {
        path: vec!["repr".to_string()],
        meta: MetaSyntax::List(words(&["transparent"])),
    };
    assert_eq!(
        parse_attr(&vec![repr.clone()]),
        Ok(Capabilities { send: false, sync: false, debug: false })
    );
    let out = expand_com_wrapper(&handle_struct(vec![repr])).unwrap();
    assert_eq!(out, WRAPPER_NAMED);
    assert!(!out.contains("unsafe impl Send"));
    assert!(!out.contains("Debug"));
}

#[test]
fn capability_order_does_not_matter() {
    let a = parse_attr(&vec![com(words(&["debug", "sync", "send"]))]);
    let b = parse_attr(&vec![com(words(&["send", "sync", "debug"]))]);
    assert_eq!(a, Ok(Capabilities { send: true, sync: true, debug: true }));
    assert_eq!(a, b);
    let empty = parse_attr(&vec![com(vec![])]);
    assert_eq!(empty, Ok(Capabilities { send: false, sync: false, debug: false }));
}

#[test]
fn only_first_com_attribute_is_read() {
    let attrs = vec![com(words(&["sync"])), com(words(&["bogus"]))];
    assert_eq!(parse_attr(&attrs), Ok(Capabilities { send: false, sync: true, debug: false }));
    let qualified = AttributeSyntax {
        path: vec!["x".to_string(), "com".to_string()],
        meta: MetaSyntax::List(words(&["bogus"])),
    };
    assert_eq!(
        parse_attr(&vec![qualified, com(words(&["send"]))]),
        Ok(Capabilities { send: true, sync: false, debug: false })
    );
}

#[test]
fn debug_capability_prints_name_then_pointer() {
    assert_eq!(dbg_impl(&"UnknownThing".to_string()), DEBUG_IMPL);
    let out = expand_com_wrapper(&handle_struct(vec![com(words(&["debug"]))])).unwrap();
    assert_eq!(out, format!("{}{}", WRAPPER_NAMED, DEBUG_IMPL));
    assert!(out.contains("fmt.debug_tuple(\"UnknownThing\")"));
    assert!(out.contains("Self::get_raw(self)"));
}
