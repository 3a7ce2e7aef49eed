//! The signature extractor: walks the parameter list and return type of a
//! declaration and builds the function signature descriptor, rejecting
//! pattern parameters and receivers.

use vstd::prelude::*;
use crate::model::{FnDecl, FnInfo, Param, ParamKind, TransformError};

verus! {

/// Holds when every parameter is a simple named binding.
pub open spec fn all_named(params: Seq<ParamKind>) -> bool {
    forall|j: int| 0 <= j < params.len() ==> params[j] is Named
}

/// Holds when `info` is the signature descriptor of a declaration with
/// parameter list `params` (all named) and declared return type `ret`.
pub open spec fn is_descriptor_of(params: Seq<ParamKind>, ret: Option<String>, info: FnInfo) -> bool {
    &&& info.args@.len() == params.len()
    &&& forall|j: int| 0 <= j < params.len() ==> {
        &&& (#[trigger] info.args@[j]).name@ == params[j]->name@
        &&& info.args@[j].ty@ == params[j]->ty@
    }
    &&& match (info.ret, ret) {
        (Option::Some(t), Option::Some(u)) => t@ == u@,
        (Option::None, Option::None) => true,
        _ => false,
    }
}

/// Builds the signature descriptor of `func`: one `(name, type)` pair per
/// parameter, in declaration order, plus the declared return type. Fails on
/// the first parameter that is not a simple named binding: with
/// `PatternParam` on a destructuring pattern, with `ReceiverParam` on a
/// receiver, each carrying the index of the offending parameter.
pub fn collect_fn_info(func: &FnDecl) -> (r: Result<FnInfo, TransformError>)
    ensures
        match r {
            Result::Ok(info) => {
                &&& all_named(func.params@)
                &&& is_descriptor_of(func.params@, func.ret, info)
            },
            Result::Err(e) => match e {
                TransformError::PatternParam { param } => {
                    &&& param < func.params@.len()
                    &&& func.params@[param as int] is Pattern
                    &&& forall|j: int| 0 <= j < param ==> func.params@[j] is Named
                },
                TransformError::ReceiverParam { param } => {
                    &&& param < func.params@.len()
                    &&& func.params@[param as int] is Receiver
                    &&& forall|j: int| 0 <= j < param ==> func.params@[j] is Named
                },
                _ => false,
            },
        },
{
    let mut named_args: Vec<Param> = Vec::new();
    let n = func.params.len();
    let mut i: usize = 0;
    while i < n
        invariant
            n == func.params@.len(),
            i <= n,
            named_args@.len() == i,
            forall|j: int| 0 <= j < i ==> func.params@[j] is Named,
            forall|j: int| 0 <= j < i ==> {
                &&& (#[trigger] named_args@[j]).name@ == func.params@[j]->name@
                &&& named_args@[j].ty@ == func.params@[j]->ty@
            },
        decreases n - i,
    {
        match &func.params[i] {
            ParamKind::Named { name, ty } => {
                named_args.push(Param { name: name.clone(), ty: ty.clone() });
            },
            ParamKind::Pattern => {
                return Result::Err(TransformError::PatternParam { param: i });
            },
            ParamKind::Receiver => {
                return Result::Err(TransformError::ReceiverParam { param: i });
            },
        }
        i = i + 1;
    }
    let ret = match &func.ret {
        Option::Some(t) => Option::Some(t.clone()),
        Option::None => Option::None,
    };
    Result::Ok(FnInfo { args: named_args, ret })
}

} // verus!
