//! The transformation engine: validates the configuration attribute and the
//! declaration's shape, then either emits the replacement declaration
//! implementing lazy once-only resolution, leaves the declaration unchanged
//! when no `resolver` option is present, or aborts with a diagnostic.

use vstd::prelude::*;
use crate::model::{AttrArg, FnDecl, FnInfo, Param, ParamKind, TransformError};
use crate::config::{config_result, expr_parses, find_resolver};
use crate::sig::{all_named, collect_fn_info, is_descriptor_of};
use crate::synth::{
    binding_views, name_views, render_transformed, render_unchanged, ret_suffix, ret_view,
    rendered_decl_text, transformed_fn_text, ty_views,
};

verus! {

/// The parameter types of an all-named declaration, as text.
pub open spec fn decl_ty_views(params: Seq<ParamKind>) -> Seq<Seq<char>> {
    params.map_values(|p: ParamKind| p->ty@)
}

/// The parameter names of an all-named declaration, as text.
pub open spec fn decl_name_views(params: Seq<ParamKind>) -> Seq<Seq<char>> {
    params.map_values(|p: ParamKind| p->name@)
}

/// The parameter bindings `name: ty` of an all-named declaration, as text.
pub open spec fn decl_binding_views(params: Seq<ParamKind>) -> Seq<Seq<char>> {
    params.map_values(|p: ParamKind| p->name@ + ": "@ + p->ty@)
}

/// The replacement declaration the engine emits for `func` under the
/// resolver expression `resolver`: only the body is replaced; the prefix
/// (attributes, visibility, qualifiers), name, generics, parameter list,
/// return type and where clause are carried through verbatim.
pub open spec fn decl_transformed_text(func: FnDecl, resolver: Seq<char>) -> Seq<char> {
    transformed_fn_text(
        func.prefix@,
        func.name@,
        func.generics@,
        decl_binding_views(func.params@),
        decl_name_views(func.params@),
        decl_ty_views(func.params@),
        func.ret,
        func.where_clause@,
        resolver,
    )
}

/// The declaration rendered unchanged, as the engine emits it when no
/// `resolver` option is present.
pub open spec fn decl_unchanged_text(func: FnDecl) -> Seq<char> {
    rendered_decl_text(
        func.prefix@,
        func.name@,
        func.generics@,
        decl_binding_views(func.params@),
        func.ret,
        func.where_clause@,
        func.body@,
    )
}

/// A descriptor of an all-named parameter list renders to the same texts as
/// the parameter list itself.
proof fn lemma_descriptor_views(params: Seq<ParamKind>, ret: Option<String>, info: FnInfo)
    requires
        all_named(params),
        is_descriptor_of(params, ret, info),
    ensures
        ty_views(info.args@) == decl_ty_views(params),
        name_views(info.args@) == decl_name_views(params),
        binding_views(info.args@) == decl_binding_views(params),
        ret_view(info.ret) == ret_view(ret),
        ret_suffix(info.ret) == ret_suffix(ret),
{
    assert(ty_views(info.args@) =~= decl_ty_views(params));
    assert(name_views(info.args@) =~= decl_name_views(params));
    assert(binding_views(info.args@) =~= decl_binding_views(params));
}

/// Transforms the declaration `func` under the attribute arguments `args`.
///
/// The arguments are scanned first: the first faulty one aborts with its
/// fault (`UnknownOption`, `ResolverNotString` or `BadExpression`, as
/// `config_result` states). Then the parameter list is validated: the first
/// parameter that is not a simple named binding aborts with `PatternParam`
/// or `ReceiverParam` at its index. On a valid input the engine emits the
/// replacement declaration for the last `resolver` option's expression, or
/// the declaration unchanged when no `resolver` option is present — that
/// option is the sole trigger for transformation. No text is emitted on any
/// error.
pub fn indirect(args: &Vec<AttrArg>, func: &FnDecl) -> (r: Result<String, TransformError>)
    ensures
        match r {
            Result::Ok(out) => {
                &&& all_named(func.params@)
                &&& config_result(args@) !is Err
                &&& (config_result(args@) matches Result::Ok(Option::Some(k))
                    ==> args@[k] matches AttrArg::StrOpt { value, .. }
                        && out@ == decl_transformed_text(*func, value@))
                &&& (config_result(args@) matches Result::Ok(Option::None)
                    ==> out@ == decl_unchanged_text(*func))
            },
            Result::Err(e) => match e {
                TransformError::UnknownOption { .. } => config_result(args@) == Result::<Option<int>, TransformError>::Err(e),
                TransformError::ResolverNotString { .. } => config_result(args@) == Result::<Option<int>, TransformError>::Err(e),
                TransformError::BadExpression { .. } => config_result(args@) == Result::<Option<int>, TransformError>::Err(e),
                TransformError::PatternParam { param } => {
                    &&& config_result(args@) !is Err
                    &&& param < func.params@.len()
                    &&& func.params@[param as int] is Pattern
                    &&& forall|j: int| 0 <= j < param ==> func.params@[j] is Named
                },
                TransformError::ReceiverParam { param } => {
                    &&& config_result(args@) !is Err
                    &&& param < func.params@.len()
                    &&& func.params@[param as int] is Receiver
                    &&& forall|j: int| 0 <= j < param ==> func.params@[j] is Named
                },
            },
        },
{
    let resolver = match find_resolver(args) {
        Result::Ok(resolver) => resolver,
        Result::Err(e) => {
            return Result::Err(e);
        },
    };
    let info = match collect_fn_info(func) {
        Result::Ok(info) => info,
        Result::Err(e) => {
            return Result::Err(e);
        },
    };
    proof {
        lemma_descriptor_views(func.params@, func.ret, info);
    }
    match resolver {
        Option::Some(expr) => Result::Ok(
            render_transformed(&func.prefix, &func.name, &func.generics, &info, &func.where_clause, &expr),
        ),
        Option::None => Result::Ok(
            render_unchanged(&func.prefix, &func.name, &func.generics, &info, &func.where_clause, &func.body),
        ),
    }
}

/// The alternate, text-substitution path: the caller supplies the function
/// name, the named parameter list, the optional return type and the resolver
/// expression as literal input — a bare free function, with no attributes,
/// generics or where clause — and gets the replacement declaration without
/// any attribute parsing. Its output is exactly the text the attribute path
/// emits for the same declaration and resolver (`lemma_paths_agree`).
pub fn indirect_fn(name: &String, params: &Vec<Param>, ret: &Option<String>, resolver: &String) -> (r: String)
    ensures
        r@ == transformed_fn_text(
            Seq::<char>::empty(),
            name@,
            Seq::<char>::empty(),
            binding_views(params@),
            name_views(params@),
            ty_views(params@),
            *ret,
            Seq::<char>::empty(),
            resolver@,
        ),
{
    let mut args: Vec<Param> = Vec::new();
    let mut i: usize = 0;
    while i < params.len()
        invariant
            i <= params@.len(),
            args@.len() == i,
            forall|j: int| 0 <= j < i ==> {
                &&& (#[trigger] args@[j]).name@ == params@[j].name@
                &&& args@[j].ty@ == params@[j].ty@
            },
        decreases params@.len() - i,
    {
        args.push(Param { name: params[i].name.clone(), ty: params[i].ty.clone() });
        i = i + 1;
    }
    let ret_c = match ret {
        Option::Some(t) => Option::Some(t.clone()),
        Option::None => Option::None,
    };
    let info = FnInfo { args, ret: ret_c };
    proof {
        assert(ty_views(info.args@) =~= ty_views(params@));
        assert(name_views(info.args@) =~= name_views(params@));
        assert(binding_views(info.args@) =~= binding_views(params@));
    }
    let bare = String::new();
    render_transformed(&bare, name, &bare, &info, &bare, resolver)
}

/// The two paths agree: for a bare declaration — all parameters named
/// bindings, no prefix, no generics, no where clause, which is all the
/// text-substitution grammar admits — the text-substitution path given the
/// same name, parameters, return type and resolver expression emits exactly
/// the text the attribute path emits. `info` is the declaration's signature
/// descriptor, which the text-substitution caller writes out literally.
pub proof fn lemma_paths_agree(func: FnDecl, info: FnInfo, resolver: Seq<char>)
    requires
        all_named(func.params@),
        is_descriptor_of(func.params@, func.ret, info),
        func.prefix@ == Seq::<char>::empty(),
        func.generics@ == Seq::<char>::empty(),
        func.where_clause@ == Seq::<char>::empty(),
    ensures
        transformed_fn_text(
            Seq::<char>::empty(),
            func.name@,
            Seq::<char>::empty(),
            binding_views(info.args@),
            name_views(info.args@),
            ty_views(info.args@),
            info.ret,
            Seq::<char>::empty(),
            resolver,
        ) == decl_transformed_text(func, resolver),
{
    lemma_descriptor_views(func.params@, func.ret, info);
}

/// Holds when an attribute argument is faulty: an option other than
/// `resolver`, a `resolver` option without a quoted string value, or a
/// resolver string that does not parse as an expression.
pub open spec fn arg_faulty(a: AttrArg) -> bool {
    match a {
        AttrArg::LitArg => false,
        AttrArg::Opt { .. } => true,
        AttrArg::StrOpt { key, value } => key@ != "resolver"@ || !expr_parses(value@),
    }
}

/// A malformed configuration never yields emitted text: a faulty argument
/// anywhere among the attribute arguments makes the configuration scan fail,
/// so the engine aborts with a diagnostic. (A pattern or receiver parameter
/// aborts the engine likewise, by the engine's own contract: emitted text
/// implies every parameter is a named binding.)
pub proof fn lemma_malformed_config_rejected(args: Seq<AttrArg>)
    requires
        exists|i: int| 0 <= i < args.len() && arg_faulty(#[trigger] args[i]),
    ensures
        config_result(args) is Err,
    decreases args.len(),
{
    let i = choose|i: int| 0 <= i < args.len() && arg_faulty(#[trigger] args[i]);
    if i < args.len() - 1 {
        assert(args.drop_last()[i] == args[i]);
        lemma_malformed_config_rejected(args.drop_last());
    }
}

/// The converse: a configuration with no faulty argument is never rejected —
/// the scan succeeds, and the engine emits text whenever the parameter list
/// is also well formed.
pub proof fn lemma_wellformed_config_accepted(args: Seq<AttrArg>)
    requires
        forall|i: int| 0 <= i < args.len() ==> !arg_faulty(#[trigger] args[i]),
    ensures
        config_result(args) !is Err,
    decreases args.len(),
{
    if args.len() > 0 {
        assert(forall|i: int| 0 <= i < args.drop_last().len()
            ==> args.drop_last()[i] == #[trigger] args[i]);
        lemma_wellformed_config_accepted(args.drop_last());
        assert(!arg_faulty(args[args.len() - 1]));
    }
}

} // verus!
