//! Behaviour of the transformation engine: emitted text for valid
//! declarations, the header carried through verbatim, pass-through without a
//! `resolver` option, and a diagnostic for every malformed configuration or
//! parameter list.

use indirect_once::engine::{indirect, indirect_fn};
use indirect_once::model::{AttrArg, FnDecl, FnInfo, Param, ParamKind, TransformError};
use indirect_once::synth::build_fn_sig;

fn s(x: &str) -> String {
    String::from(x)
}

/// A bare free-function declaration: no attributes, visibility, generics or
/// where clause.
fn bare_decl(name: &str, params: Vec<ParamKind>, ret: Option<String>, body: &str) -> FnDecl {
    FnDecl {
        prefix: s(""),
        name: s(name),
        generics: s(""),
        params,
        ret,
        where_clause: s(""),
        body: s(body),
    }
}

fn named(name: &str, ty: &str) -> ParamKind {
    ParamKind::Named { name: s(name), ty: s(ty) }
}

fn hello_decl() -> FnDecl {
    bare_decl("hello_world", vec![named("arg", "i32")], Some(s("i32")), "{}")
}

fn resolver_opt(expr: &str) -> AttrArg {
    AttrArg::StrOpt { key: s("resolver"), value: s(expr) }
}

#[test]
fn transforms_simple_declaration() {
    let args = vec![resolver_opt("foo")];
    let out = indirect(&args, &hello_decl()).unwrap();
    assert_eq!(
        out,
        "fn hello_world(arg: i32) -> i32 { static IMPL: std::sync::OnceLock<&'static fn(i32) -> i32> = \
         std::sync::OnceLock::new(); (IMPL.get_or_init(|| foo()))(arg) }"
    );
}

#[test]
fn transforms_multi_argument_declaration() {
    let args = vec![resolver_opt("pick")];
    let decl = bare_decl(
        "do_it",
        vec![named("one", "i32"), named("two", "i32"), named("really", "bool")],
        Some(s("(bool, i32)")),
        "{}",
    );
    let out = indirect(&args, &decl).unwrap();
    assert_eq!(
        out,
        "fn do_it(one: i32, two: i32, really: bool) -> (bool, i32) { static IMPL: \
         std::sync::OnceLock<&'static fn(i32, i32, bool) -> (bool, i32)> = \
         std::sync::OnceLock::new(); (IMPL.get_or_init(|| pick()))(one, two, really) }"
    );
}

#[test]
fn missing_return_type_becomes_unit_pointer_type() {
    let args = vec![resolver_opt("nop")];
    let decl = bare_decl("ping", vec![], None, "{}");
    let out = indirect(&args, &decl).unwrap();
    // The header keeps the declared shape (no arrow); the pointer holder
    // type writes the unit type out.
    assert_eq!(
        out,
        "fn ping() { static IMPL: std::sync::OnceLock<&'static fn() -> ()> = \
         std::sync::OnceLock::new(); (IMPL.get_or_init(|| nop()))() }"
    );
}

#[test]
fn visibility_and_attributes_are_carried_through() {
    let args = vec![resolver_opt("choose")];
    let decl = FnDecl {
        prefix: s("#[inline] pub "),
        name: s("fast_path"),
        generics: s(""),
        params: vec![named("x", "i32")],
        ret: Some(s("i32")),
        where_clause: s(""),
        body: s("{}"),
    };
    let out = indirect(&args, &decl).unwrap();
    assert_eq!(
        out,
        "#[inline] pub fn fast_path(x: i32) -> i32 { static IMPL: \
         std::sync::OnceLock<&'static fn(i32) -> i32> = \
         std::sync::OnceLock::new(); (IMPL.get_or_init(|| choose()))(x) }"
    );
}

#[test]
fn generics_and_where_clause_are_carried_through() {
    let args = vec![resolver_opt("choose")];
    let decl = FnDecl {
        prefix: s(""),
        name: s("relay"),
        generics: s("<T: Copy>"),
        params: vec![named("x", "T")],
        ret: Some(s("T")),
        where_clause: s(" where T: Default"),
        body: s("{}"),
    };
    let out = indirect(&args, &decl).unwrap();
    assert_eq!(
        out,
        "fn relay<T: Copy>(x: T) -> T where T: Default { static IMPL: \
         std::sync::OnceLock<&'static fn(T) -> T> = \
         std::sync::OnceLock::new(); (IMPL.get_or_init(|| choose()))(x) }"
    );
}

#[test]
fn no_resolver_option_passes_through() {
    let decl = bare_decl("hello_world", vec![named("arg", "i32")], Some(s("i32")), "{ arg + 1 }");
    let out = indirect(&vec![], &decl).unwrap();
    assert_eq!(out, "fn hello_world(arg: i32) -> i32 { arg + 1 }");
}

#[test]
fn pass_through_keeps_whole_declaration() {
    let decl = FnDecl {
        prefix: s("#[cold] pub(crate) "),
        name: s("slow_path"),
        generics: s("<T>"),
        params: vec![named("x", "T")],
        ret: Some(s("T")),
        where_clause: s(" where T: Clone"),
        body: s("{ x }"),
    };
    let out = indirect(&vec![], &decl).unwrap();
    assert_eq!(out, "#[cold] pub(crate) fn slow_path<T>(x: T) -> T where T: Clone { x }");
}

#[test]
fn pass_through_keeps_missing_return_type() {
    let decl = bare_decl("ping", vec![], None, "{ () }");
    let out = indirect(&vec![], &decl).unwrap();
    assert_eq!(out, "fn ping() { () }");
}

#[test]
fn bare_literal_arguments_are_skipped() {
    let args = vec![AttrArg::LitArg, resolver_opt("foo")];
    let out = indirect(&args, &hello_decl()).unwrap();
    assert!(out.contains("foo()"));
}

#[test]
fn last_resolver_option_wins() {
    let args = vec![resolver_opt("foo"), resolver_opt("bar")];
    let out = indirect(&args, &hello_decl()).unwrap();
    assert_eq!(
        out,
        "fn hello_world(arg: i32) -> i32 { static IMPL: std::sync::OnceLock<&'static fn(i32) -> i32> = \
         std::sync::OnceLock::new(); (IMPL.get_or_init(|| bar()))(arg) }"
    );
}

#[test]
fn complex_resolver_expression_is_accepted() {
    let args = vec![resolver_opt("registry::current().chooser")];
    let out = indirect(&args, &hello_decl()).unwrap();
    assert!(out.contains("(IMPL.get_or_init(|| registry::current().chooser()))"));
}

#[test]
fn unknown_option_is_rejected() {
    let args = vec![AttrArg::StrOpt { key: s("resolve"), value: s("foo") }];
    let err = indirect(&args, &hello_decl()).unwrap_err();
    assert_eq!(err, TransformError::UnknownOption { arg: 0 });
    assert_eq!(err.message(), "Unknown argument, expected 'resolver'");
}

#[test]
fn unknown_bare_option_is_rejected() {
    let args = vec![AttrArg::Opt { key: s("eager") }];
    let err = indirect(&args, &hello_decl()).unwrap_err();
    assert_eq!(err, TransformError::UnknownOption { arg: 0 });
}

#[test]
fn non_string_resolver_value_is_rejected() {
    let args = vec![AttrArg::Opt { key: s("resolver") }];
    let err = indirect(&args, &hello_decl()).unwrap_err();
    assert_eq!(err, TransformError::ResolverNotString { arg: 0 });
    assert_eq!(err.message(), "Resolver must be a string containing an expression");
}

#[test]
fn unparseable_resolver_expression_is_rejected() {
    let args = vec![resolver_opt("1 +")];
    let err = indirect(&args, &hello_decl()).unwrap_err();
    assert_eq!(err, TransformError::BadExpression { arg: 0 });
    assert_eq!(err.message(), "Bad expression");
}

#[test]
fn first_faulty_argument_decides() {
    let args = vec![AttrArg::Opt { key: s("resolver") }, resolver_opt("foo")];
    let err = indirect(&args, &hello_decl()).unwrap_err();
    assert_eq!(err, TransformError::ResolverNotString { arg: 0 });

    let args = vec![resolver_opt("foo"), AttrArg::Opt { key: s("eager") }];
    let err = indirect(&args, &hello_decl()).unwrap_err();
    assert_eq!(err, TransformError::UnknownOption { arg: 1 });
}

#[test]
fn pattern_parameter_is_rejected() {
    let args = vec![resolver_opt("foo")];
    let decl = bare_decl(
        "take_pair",
        vec![named("ok", "bool"), ParamKind::Pattern],
        None,
        "{}",
    );
    let err = indirect(&args, &decl).unwrap_err();
    assert_eq!(err, TransformError::PatternParam { param: 1 });
    assert_eq!(err.message(), "Only named arguments are supported.");
}

#[test]
fn receiver_parameter_is_rejected() {
    let args = vec![resolver_opt("foo")];
    let decl = bare_decl("method", vec![ParamKind::Receiver], Some(s("i32")), "{}");
    let err = indirect(&args, &decl).unwrap_err();
    assert_eq!(err, TransformError::ReceiverParam { param: 0 });
    assert_eq!(err.message(), "Functions with receivers are not supported.");
}

#[test]
fn pattern_parameter_is_rejected_even_without_resolver() {
    let decl = bare_decl("take_pair", vec![ParamKind::Pattern], None, "{}");
    let err = indirect(&vec![], &decl).unwrap_err();
    assert_eq!(err, TransformError::PatternParam { param: 0 });
}

#[test]
fn text_substitution_path_matches_attribute_path() {
    let by_macro = indirect_fn(
        &s("dog"),
        &vec![Param { name: s("param"), ty: s("i32") }],
        &Some(s("i32")),
        &s("foo"),
    );
    let decl = bare_decl("dog", vec![named("param", "i32")], Some(s("i32")), "{}");
    let by_attribute = indirect(&vec![resolver_opt("foo")], &decl).unwrap();
    assert_eq!(by_macro, by_attribute);
    assert_eq!(
        by_macro,
        "fn dog(param: i32) -> i32 { static IMPL: std::sync::OnceLock<&'static fn(i32) -> i32> = \
         std::sync::OnceLock::new(); (IMPL.get_or_init(|| foo()))(param) }"
    );
}

#[test]
fn pointer_holder_type_matches_descriptor() {
    let info = FnInfo {
        args: vec![
            Param { name: s("one"), ty: s("i32") },
            Param { name: s("really"), ty: s("bool") },
        ],
        ret: None,
    };
    assert_eq!(build_fn_sig(&info), "&'static fn(i32, bool) -> ()");
}
