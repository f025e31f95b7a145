//! Writes the source text of the implementations for a checked declaration.
use vstd::prelude::*;
use crate::capability::Capabilities;
use crate::shape::{Member, Shape};

verus! {

/// How the generated code reaches the wrapper's field: `self.<this>`.
pub open spec fn member_text(member: Member) -> Seq<char> {
    match member {
        Member::Named(n) => n@,
        Member::Unnamed => "0"@,
    }
}

/// The expression that builds a `wrap` from a `ComPtr` named `ptr`.
pub open spec fn wrapping_text(wrap: Seq<char>, member: Member) -> Seq<char> {
    match member {
        Member::Named(n) => wrap + " { "@ + n@ + ": ptr }"@,
        Member::Unnamed => wrap + "(ptr)"@,
    }
}

/// The `ComWrapper` implementation for `wrap`: its five conversions all go
/// through the one field, and none of them touches the reference count.
pub open spec fn wrapper_text(wrap: Seq<char>, shape: Shape) -> Seq<char> {
    let m = member_text(shape.member);
    let i = shape.itype@;
    let c = shape.ctype@;
    "impl ::com_wrapper::ComWrapper for "@ + wrap + " {\n"@
        + "    type Interface = "@ + i + ";\n"@
        + "    #[inline]\n    unsafe fn get_raw(&self) -> *mut "@ + i + " {\n"@
        + "        ComPtr::as_raw(&self."@ + m + ")\n    }\n"@
        + "    #[inline]\n    unsafe fn from_raw(ptr: *mut "@ + i + ") -> Self {\n"@
        + "        <Self as ::com_wrapper::ComWrapper>::from_ptr(ComPtr::from_raw(ptr))\n    }\n"@
        + "    #[inline]\n    unsafe fn into_raw(self) -> *mut "@ + i + " {\n"@
        + "        ComPtr::into_raw(Self::into_ptr(self))\n    }\n"@
        + "    #[inline]\n    unsafe fn from_ptr(ptr: "@ + c + ") -> Self {\n"@
        + "        "@ + wrapping_text(wrap, shape.member) + "\n    }\n"@
        + "    #[inline]\n    unsafe fn into_ptr(self) -> "@ + c + " {\n"@
        + "        self."@ + m + "\n    }\n}\n"@
}

/// The `Debug` implementation for `wrap`: the type's name, then the raw
/// pointer as the borrowing accessor gives it.
pub open spec fn debug_text(wrap: Seq<char>) -> Seq<char> {
    "impl ::std::fmt::Debug for "@ + wrap + " {\n"@
        + "    fn fmt(&self, fmt: &mut ::std::fmt::Formatter) -> ::std::fmt::Result {\n"@
        + "        fmt.debug_tuple(\""@ + wrap + "\")\n"@
        + "            .field(&unsafe { Self::get_raw(self) })\n"@
        + "            .finish()\n    }\n}\n"@
}

/// The text of one optional implementation: `text` where it is asked for, else nothing.
pub open spec fn optional_text(asked: bool, text: Seq<char>) -> Seq<char> {
    if asked {
        text
    } else {
        Seq::empty()
    }
}

/// The unchecked promise that `wrap` has the marker trait `marker`.
pub open spec fn marker_text(marker: Seq<char>, wrap: Seq<char>) -> Seq<char> {
    "unsafe impl "@ + marker + " for "@ + wrap + " {}\n"@
}

/// The implementations that the capabilities ask for, in the order send, sync, debug.
pub open spec fn capabilities_text(wrap: Seq<char>, caps: Capabilities) -> Seq<char> {
    optional_text(caps.send, marker_text("Send"@, wrap))
        + optional_text(caps.sync, marker_text("Sync"@, wrap))
        + optional_text(caps.debug, debug_text(wrap))
}

/// Everything generated for `wrap`: the wrapper implementation, then the optional ones.
pub open spec fn artifact_text(wrap: Seq<char>, shape: Shape, caps: Capabilities) -> Seq<char> {
    wrapper_text(wrap, shape) + capabilities_text(wrap, caps)
}

/// The expression that builds a `wrap` from a `ComPtr` named `ptr`.
pub fn create_wrapping(wrap: &String, member: &Member) -> (r: String)
    ensures
        r@ == wrapping_text(wrap@, *member),
{
    let mut out = wrap.clone();
    match member {
        Member::Named(n) => {
            out.append(" { ");
            out.append(n.as_str());
            out.append(": ptr }");
        },
        Member::Unnamed => {
            out.append("(ptr)");
        },
    }
    out
}

/// The text by which the generated code names the field after `self.`.
fn member_access(member: &Member) -> (r: String)
    ensures
        r@ == member_text(*member),
{
    match member {
        Member::Named(n) => n.clone(),
        Member::Unnamed => String::from_str("0"),
    }
}

/// The `ComWrapper` implementation for `wrap`.
pub fn wrapper_impl(wrap: &String, shape: &Shape) -> (r: String)
    ensures
        r@ == wrapper_text(wrap@, *shape),
{
    let ptr_wrap = create_wrapping(wrap, &shape.member);
    let m = member_access(&shape.member);
    let i = shape.itype.as_str();
    let c = shape.ctype.as_str();
    let mut out = String::from_str("impl ::com_wrapper::ComWrapper for ");
    out.append(wrap.as_str());
    out.append(" {\n");
    out.append("    type Interface = ");
    out.append(i);
    out.append(";\n");
    out.append("    #[inline]\n    unsafe fn get_raw(&self) -> *mut ");
    out.append(i);
    out.append(" {\n");
    out.append("        ComPtr::as_raw(&self.");
    out.append(m.as_str());
    out.append(")\n    }\n");
    out.append("    #[inline]\n    unsafe fn from_raw(ptr: *mut ");
    out.append(i);
    out.append(") -> Self {\n");
    out.append("        <Self as ::com_wrapper::ComWrapper>::from_ptr(ComPtr::from_raw(ptr))\n    }\n");
    out.append("    #[inline]\n    unsafe fn into_raw(self) -> *mut ");
    out.append(i);
    out.append(" {\n");
    out.append("        ComPtr::into_raw(Self::into_ptr(self))\n    }\n");
    out.append("    #[inline]\n    unsafe fn from_ptr(ptr: ");
    out.append(c);
    out.append(") -> Self {\n");
    out.append("        ");
    out.append(ptr_wrap.as_str());
    out.append("\n    }\n");
    out.append("    #[inline]\n    unsafe fn into_ptr(self) -> ");
    out.append(c);
    out.append(" {\n");
    out.append("        self.");
    out.append(m.as_str());
    out.append("\n    }\n}\n");
    out
}

/// The `Debug` implementation for `wrap`.
pub fn dbg_impl(wrap: &String) -> (r: String)
    ensures
        r@ == debug_text(wrap@),
{
    let mut out = String::from_str("impl ::std::fmt::Debug for ");
    out.append(wrap.as_str());
    out.append(" {\n");
    out.append("    fn fmt(&self, fmt: &mut ::std::fmt::Formatter) -> ::std::fmt::Result {\n");
    out.append("        fmt.debug_tuple(\"");
    out.append(wrap.as_str());
    out.append("\")\n");
    out.append("            .field(&unsafe { Self::get_raw(self) })\n");
    out.append("            .finish()\n    }\n}\n");
    out
}

/// Appends the promise that `wrap` has the marker trait `marker`.
fn push_marker(out: &mut String, marker: &str, wrap: &String)
    ensures
        final(out)@ == old(out)@ + marker_text(marker@, wrap@),
{
    out.append("unsafe impl ");
    out.append(marker);
    out.append(" for ");
    out.append(wrap.as_str());
    out.append(" {}\n");
    assert(final(out)@ =~= old(out)@ + marker_text(marker@, wrap@));
}

/// The implementations that `meta` asks for besides the wrapper.
pub fn meta_impl(wrap: &String, meta: &Capabilities) -> (r: String)
    ensures
        r@ == capabilities_text(wrap@, *meta),
{
    let mut out = String::new();
    if meta.send {
        push_marker(&mut out, "Send", wrap);
    }
    assert(out@ =~= optional_text(meta.send, marker_text("Send"@, wrap@)));
    if meta.sync {
        push_marker(&mut out, "Sync", wrap);
    }
    assert(out@ =~= optional_text(meta.send, marker_text("Send"@, wrap@))
        + optional_text(meta.sync, marker_text("Sync"@, wrap@)));
    if meta.debug {
        let d = dbg_impl(wrap);
        out.append(d.as_str());
    }
    assert(out@ =~= capabilities_text(wrap@, *meta));
    out
}

} // verus!
