//! The attribute-argument parser: scans the configuration attribute for the
//! `resolver` option and extracts the resolver expression, rejecting unknown
//! options, non-string values and strings that do not parse as expressions.

use vstd::prelude::*;
use crate::model::{AttrArg, TransformError};

verus! {

/// Whether a string parses as an expression of the host grammar.
pub uninterp spec fn expr_parses(s: Seq<char>) -> bool;

/// Relies on `syn::parse_str::<syn::Expr>`: whether a string parses as a
/// Rust expression depends on the string alone.
#[verifier::external_body]
fn parse_expr_ok(s: &str) -> (r: bool)
    ensures
        r == expr_parses(s@),
{
    syn::parse_str::<syn::Expr>(s).is_ok()
}

/// What the configuration scan decides on the first `n` arguments, in order:
/// `Err(e)` when some argument is faulty and `e` is the fault of the first
/// faulty one; otherwise `Ok(Some(k))` where `k` is the index of the last
/// `resolver` option (whose string value is the resolver expression); or
/// `Ok(None)` when no `resolver` option is present, which leaves the
/// declaration unchanged. Bare literals among the arguments are skipped.
pub open spec fn config_result(args: Seq<AttrArg>) -> Result<Option<int>, TransformError>
    decreases args.len(),
{
    if args.len() == 0 {
        Result::Ok(Option::None)
    } else {
        let prev = config_result(args.drop_last());
        if prev is Err {
            prev
        } else {
            let k = args.len() - 1;
            match args.last() {
                AttrArg::LitArg => prev,
                AttrArg::Opt { key } => if key@ == "resolver"@ {
                    Result::Err(TransformError::ResolverNotString { arg: k as usize })
                } else {
                    Result::Err(TransformError::UnknownOption { arg: k as usize })
                },
                AttrArg::StrOpt { key, value } => if key@ != "resolver"@ {
                    Result::Err(TransformError::UnknownOption { arg: k as usize })
                } else if expr_parses(value@) {
                    Result::Ok(Option::Some(k))
                } else {
                    Result::Err(TransformError::BadExpression { arg: k as usize })
                },
            }
        }
    }
}

/// A faulty configuration stops the scan: every extension of a faulty prefix
/// keeps the prefix's fault.
proof fn lemma_fault_persists(args: Seq<AttrArg>, i: int)
    requires
        0 <= i <= args.len(),
        config_result(args.take(i)) is Err,
    ensures
        config_result(args) == config_result(args.take(i)),
    decreases args.len() - i,
{
    if i < args.len() {
        assert(args.take(i + 1).drop_last() =~= args.take(i));
        assert(config_result(args.take(i + 1)) == config_result(args.take(i)));
        lemma_fault_persists(args, i + 1);
    } else {
        assert(args.take(i) =~= args);
    }
}

/// Scans the attribute arguments and returns the resolver expression, if the
/// `resolver` option is present: the value of the last such option, checked
/// to parse as an expression. Fails on the first faulty argument, with
/// `UnknownOption` on any option other than `resolver`, `ResolverNotString`
/// on a `resolver` option without a quoted string value, and `BadExpression`
/// on a value that does not parse as an expression.
pub fn find_resolver(args: &Vec<AttrArg>) -> (r: Result<Option<String>, TransformError>)
    ensures
        match (r, config_result(args@)) {
            (Result::Ok(Option::Some(s)), Result::Ok(Option::Some(k))) => {
                &&& 0 <= k < args@.len()
                &&& args@[k] matches AttrArg::StrOpt { value, .. } && s@ == value@
            },
            (Result::Ok(Option::None), Result::Ok(Option::None)) => true,
            (Result::Err(e1), Result::Err(e2)) => {
                &&& e1 == e2
                &&& (e1 is UnknownOption || e1 is ResolverNotString || e1 is BadExpression)
            },
            _ => false,
        },
{
    let resolver_key = String::from_str("resolver");
    let mut res: Option<String> = Option::None;
    let n = args.len();
    let mut i: usize = 0;
    while i < n
        invariant
            n == args@.len(),
            i <= n,
            resolver_key@ == "resolver"@,
            match config_result(args@.take(i as int)) {
                Result::Ok(Option::Some(k)) => {
                    &&& res matches Option::Some(s)
                    &&& 0 <= k < i
                    &&& args@[k] matches AttrArg::StrOpt { value, .. } && s@ == value@
                },
                Result::Ok(Option::None) => res is None,
                Result::Err(_) => false,
            },
        decreases n - i,
    {
        proof {
            assert(args@.take(i + 1).drop_last() =~= args@.take(i as int));
        }
        match &args[i] {
            AttrArg::LitArg => {},
            AttrArg::Opt { key } => {
                let e = if *key == resolver_key {
                    TransformError::ResolverNotString { arg: i }
                } else {
                    TransformError::UnknownOption { arg: i }
                };
                proof {
                    lemma_fault_persists(args@, i + 1);
                }
                return Result::Err(e);
            },
            AttrArg::StrOpt { key, value } => {
                if *key == resolver_key {
                    if parse_expr_ok(value.as_str()) {
                        res = Option::Some(value.clone());
                    } else {
                        proof {
                            lemma_fault_persists(args@, i + 1);
                        }
                        return Result::Err(TransformError::BadExpression { arg: i });
                    }
                } else {
                    proof {
                        lemma_fault_persists(args@, i + 1);
                    }
                    return Result::Err(TransformError::UnknownOption { arg: i });
                }
            },
        }
        i = i + 1;
    }
    proof {
        assert(args@.take(n as int) =~= args@);
    }
    Result::Ok(res)
}

} // verus!
