//! The text synthesizer: builds the pointer-holder type, the replacement
//! body and the full replacement declaration, as source text, from a
//! function signature descriptor and a resolver expression.
//!
//! The replacement body declares one process-wide cell that merges the
//! pointer holder slot with its one-time-initialization guard, runs the
//! resolver through the guard on first call, and dispatches every call
//! through the cached pointer, forwarding the parameters in declaration
//! order.

use vstd::prelude::*;
use crate::model::{FnInfo, Param};

verus! {

/// The items joined with `", "` between each two: empty for no items.
pub open spec fn comma_join(items: Seq<Seq<char>>) -> Seq<char>
    decreases items.len(),
{
    if items.len() == 0 {
        Seq::empty()
    } else if items.len() == 1 {
        items.last()
    } else {
        comma_join(items.drop_last()) + ", "@ + items.last()
    }
}

/// Joining one more item appends it after a `", "` separator.
pub proof fn lemma_comma_join_push(items: Seq<Seq<char>>, x: Seq<char>)
    ensures
        comma_join(items.push(x)) == if items.len() == 0 {
            x
        } else {
            (comma_join(items) + ", "@ + x)
        },
{
    assert(items.push(x).drop_last() =~= items);
    assert(items.push(x).last() == x);
}

/// The parameter types of the descriptor, as text.
pub open spec fn ty_views(args: Seq<Param>) -> Seq<Seq<char>> {
    args.map_values(|p: Param| p.ty@)
}

/// The parameter names of the descriptor, as text.
pub open spec fn name_views(args: Seq<Param>) -> Seq<Seq<char>> {
    args.map_values(|p: Param| p.name@)
}

/// The parameter bindings `name: ty` of the descriptor, as text.
pub open spec fn binding_views(args: Seq<Param>) -> Seq<Seq<char>> {
    args.map_values(|p: Param| p.name@ + ": "@ + p.ty@)
}

/// The return type as text: the declared one, or the unit type. This is the
/// form the pointer holder type writes out.
pub open spec fn ret_view(ret: Option<String>) -> Seq<char> {
    match ret {
        Option::Some(t) => t@,
        Option::None => "()"@,
    }
}

/// The return-type suffix of the emitted header: the declared arrow and
/// type, or nothing at all when the declaration has no arrow — the header is
/// kept exactly as declared.
pub open spec fn ret_suffix(ret: Option<String>) -> Seq<char> {
    match ret {
        Option::Some(t) => " -> "@ + t@,
        Option::None => Seq::empty(),
    }
}

/// The type of the pointer holder slot for parameter types `tys` and return
/// type `ret`: a process-wide reference to a function pointer with exactly
/// those parameter types and that return type.
pub open spec fn ptr_type_text(tys: Seq<Seq<char>>, ret: Seq<char>) -> Seq<char> {
    "&'static fn("@ + comma_join(tys) + ") -> "@ + ret
}

/// The header of the emitted declaration: the declaration's own prefix
/// (attributes, visibility, qualifiers), name, generics, parameter bindings,
/// return type (no arrow when none was declared) and where clause — all kept
/// exactly as declared; only the body is replaced.
pub open spec fn header_text(prefix: Seq<char>, name: Seq<char>, generics: Seq<char>, bindings: Seq<Seq<char>>, ret: Option<String>, where_c: Seq<char>) -> Seq<char> {
    prefix + "fn "@ + name + generics + "("@ + comma_join(bindings) + ")"@ + ret_suffix(ret)
        + where_c
}

/// The replacement body: a once-initialized process-wide cell holding the
/// resolved pointer, populated by calling the resolver with no arguments,
/// then a dispatch through the cached pointer with the parameter names
/// forwarded in declaration order.
pub open spec fn indirect_body_text(tys: Seq<Seq<char>>, ret: Seq<char>, resolver: Seq<char>, names: Seq<Seq<char>>) -> Seq<char> {
    "{ static IMPL: std::sync::OnceLock<"@ + ptr_type_text(tys, ret)
        + "> = std::sync::OnceLock::new(); (IMPL.get_or_init(|| "@ + resolver
        + "()))("@ + comma_join(names) + ") }"@
}

/// The full replacement declaration.
pub open spec fn transformed_fn_text(prefix: Seq<char>, name: Seq<char>, generics: Seq<char>, bindings: Seq<Seq<char>>, names: Seq<Seq<char>>, tys: Seq<Seq<char>>, ret: Option<String>, where_c: Seq<char>, resolver: Seq<char>) -> Seq<char> {
    header_text(prefix, name, generics, bindings, ret, where_c) + " "@
        + indirect_body_text(tys, ret_view(ret), resolver, names)
}

/// A declaration rendered unchanged: its header and its original body.
pub open spec fn rendered_decl_text(prefix: Seq<char>, name: Seq<char>, generics: Seq<char>, bindings: Seq<Seq<char>>, ret: Option<String>, where_c: Seq<char>, body: Seq<char>) -> Seq<char> {
    header_text(prefix, name, generics, bindings, ret, where_c) + " "@ + body
}

/// Joins the items with `", "` between each two.
fn join_comma(items: &Vec<String>) -> (r: String)
    ensures
        r@ == comma_join(items@.map_values(|s: String| s@)),
{
    let ghost views = items@.map_values(|s: String| s@);
    let mut out = String::new();
    let mut i: usize = 0;
    while i < items.len()
        invariant
            i <= items@.len(),
            views == items@.map_values(|s: String| s@),
            views.len() == items@.len(),
            out@ == comma_join(views.take(i as int)),
        decreases items@.len() - i,
    {
        if i > 0 {
            out.append(", ");
        }
        out.append(items[i].as_str());
        proof {
            lemma_comma_join_push(views.take(i as int), views[i as int]);
            assert(views.take(i as int).push(views[i as int]) =~= views.take(i + 1));
            if i == 0 {
                assert(out@ =~= comma_join(views.take(i + 1)));
            }
        }
        i = i + 1;
    }
    proof {
        assert(views.take(items@.len() as int) =~= views);
    }
    out
}

/// The parameter types of `args`, one string per parameter.
fn ty_strings(args: &Vec<Param>) -> (r: Vec<String>)
    ensures
        r@.map_values(|s: String| s@) == ty_views(args@),
{
    let mut out: Vec<String> = Vec::new();
    let mut i: usize = 0;
    while i < args.len()
        invariant
            i <= args@.len(),
            out@.len() == i,
            forall|j: int| 0 <= j < i ==> (#[trigger] out@[j])@ == args@[j].ty@,
        decreases args@.len() - i,
    {
        out.push(args[i].ty.clone());
        i = i + 1;
    }
    proof {
        assert(out@.map_values(|s: String| s@) =~= ty_views(args@));
    }
    out
}

/// The parameter names of `args`, one string per parameter.
fn name_strings(args: &Vec<Param>) -> (r: Vec<String>)
    ensures
        r@.map_values(|s: String| s@) == name_views(args@),
{
    let mut out: Vec<String> = Vec::new();
    let mut i: usize = 0;
    while i < args.len()
        invariant
            i <= args@.len(),
            out@.len() == i,
            forall|j: int| 0 <= j < i ==> (#[trigger] out@[j])@ == args@[j].name@,
        decreases args@.len() - i,
    {
        out.push(args[i].name.clone());
        i = i + 1;
    }
    proof {
        assert(out@.map_values(|s: String| s@) =~= name_views(args@));
    }
    out
}

/// The parameter bindings of `args`, one `name: ty` string per parameter.
fn binding_strings(args: &Vec<Param>) -> (r: Vec<String>)
    ensures
        r@.map_values(|s: String| s@) == binding_views(args@),
{
    let mut out: Vec<String> = Vec::new();
    let mut i: usize = 0;
    while i < args.len()
        invariant
            i <= args@.len(),
            out@.len() == i,
            forall|j: int| 0 <= j < i ==> (#[trigger] out@[j])@ == args@[j].name@ + ": "@ + args@[j].ty@,
        decreases args@.len() - i,
    {
        let mut b = args[i].name.clone();
        b.append(": ");
        b.append(args[i].ty.as_str());
        out.push(b);
        i = i + 1;
    }
    proof {
        assert(out@.map_values(|s: String| s@) =~= binding_views(args@));
    }
    out
}

/// Appends the return type: the declared one, or the unit type.
fn push_ret(out: &mut String, ret: &Option<String>)
    ensures
        final(out)@ == old(out)@ + ret_view(*ret),
{
    match ret {
        Option::Some(t) => out.append(t.as_str()),
        Option::None => out.append("()"),
    }
}

/// Builds the type of the pointer holder slot for the descriptor `info`:
/// a process-wide reference to a function pointer with exactly the
/// descriptor's parameter types and return type. This is the type the
/// resolver's result is stored at without conversion; a resolver of another
/// type is rejected by the host compiler after emission.
pub fn build_fn_sig(info: &FnInfo) -> (r: String)
    ensures
        r@ == ptr_type_text(ty_views(info.args@), ret_view(info.ret)),
{
    let tys = ty_strings(&info.args);
    let joined = join_comma(&tys);
    let mut out = String::from_str("&'static fn(");
    out.append(joined.as_str());
    out.append(") -> ");
    push_ret(&mut out, &info.ret);
    out
}

/// Renders the header of the emitted declaration.
fn render_header(prefix: &String, name: &String, generics: &String, info: &FnInfo, where_clause: &String) -> (r: String)
    ensures
        r@ == header_text(prefix@, name@, generics@, binding_views(info.args@), info.ret, where_clause@),
{
    let bindings = binding_strings(&info.args);
    let joined = join_comma(&bindings);
    let mut out = prefix.clone();
    out.append("fn ");
    out.append(name.as_str());
    out.append(generics.as_str());
    out.append("(");
    out.append(joined.as_str());
    out.append(")");
    let ghost base = out@;
    match &info.ret {
        Option::Some(t) => {
            out.append(" -> ");
            out.append(t.as_str());
            proof {
                assert(out@ =~= base + ret_suffix(info.ret));
            }
        },
        Option::None => {
            proof {
                assert(out@ =~= base + ret_suffix(info.ret));
            }
        },
    }
    out.append(where_clause.as_str());
    out
}

/// Builds the replacement body for the descriptor `info` and the resolver
/// expression `resolver`.
fn build_indirect_body(info: &FnInfo, resolver: &String) -> (r: String)
    ensures
        r@ == indirect_body_text(ty_views(info.args@), ret_view(info.ret), resolver@, name_views(info.args@)),
{
    let ptr_ty = build_fn_sig(info);
    let names = name_strings(&info.args);
    let joined = join_comma(&names);
    let mut out = String::from_str("{ static IMPL: std::sync::OnceLock<");
    out.append(ptr_ty.as_str());
    out.append("> = std::sync::OnceLock::new(); (IMPL.get_or_init(|| ");
    out.append(resolver.as_str());
    out.append("()))(");
    out.append(joined.as_str());
    out.append(") }");
    out
}

/// Renders the full replacement declaration: the original header, carried
/// through verbatim, with the body replaced by the once-resolved dispatch
/// block.
pub fn render_transformed(prefix: &String, name: &String, generics: &String, info: &FnInfo, where_clause: &String, resolver: &String) -> (r: String)
    ensures
        r@ == transformed_fn_text(prefix@, name@, generics@, binding_views(info.args@), name_views(info.args@), ty_views(info.args@), info.ret, where_clause@, resolver@),
{
    let mut out = render_header(prefix, name, generics, info, where_clause);
    out.append(" ");
    let body = build_indirect_body(info, resolver);
    out.append(body.as_str());
    out
}

/// Renders a declaration unchanged: its header and its original body.
pub fn render_unchanged(prefix: &String, name: &String, generics: &String, info: &FnInfo, where_clause: &String, body: &String) -> (r: String)
    ensures
        r@ == rendered_decl_text(prefix@, name@, generics@, binding_views(info.args@), info.ret, where_clause@, body@),
{
    let mut out = render_header(prefix, name, generics, info, where_clause);
    out.append(" ");
    out.append(body.as_str());
    out
}

} // verus!
