//! The data model of the transformation engine: attribute arguments, the
//! shape of a function declaration, the signature descriptor built from it,
//! and the errors that abort a transformation.

use vstd::prelude::*;

verus! {

/// One argument of the configuration attribute, as the engine sees it.
pub enum AttrArg {
    /// An option with a quoted string value: `key = "value"`.
    StrOpt { key: String, value: String },
    /// An option with no quoted string value: a bare `key`, a `key(...)`
    /// list, or `key = <non-string literal>`.
    Opt { key: String },
    /// A bare literal among the arguments; the engine skips it.
    LitArg,
}

/// One parameter of the annotated declaration, as the engine sees it.
pub enum ParamKind {
    /// A simple named binding `name: ty`.
    Named { name: String, ty: String },
    /// Any other pattern (destructuring, wildcard, ...).
    Pattern,
    /// A receiver (`self` in any form): the declaration is a method.
    Receiver,
}

/// A free-function declaration: what the engine reads — the parameters in
/// order and the declared return type (`None` when the declaration has no
/// arrow) — plus the segments it carries through verbatim, since the
/// transformation replaces only the body. `prefix` is everything before the
/// `fn` keyword (attributes, visibility, qualifiers), spacing included;
/// `generics` is the generic parameter list right after the name;
/// `where_clause` is the text between the return type and the body, leading
/// space included; each is empty when absent. `body` is the original body,
/// braces included.
pub struct FnDecl {
    pub prefix: String,
    pub name: String,
    pub generics: String,
    pub params: Vec<ParamKind>,
    pub ret: Option<String>,
    pub where_clause: String,
    pub body: String,
}

/// A named parameter of the signature descriptor.
pub struct Param {
    pub name: String,
    pub ty: String,
}

/// The function signature descriptor: every parameter a named binding, plus
/// the declared return type (`None` meaning the unit type).
pub struct FnInfo {
    pub args: Vec<Param>,
    pub ret: Option<String>,
}

/// Why a transformation was aborted. Each variant carries the index of the
/// offending attribute argument or parameter, so a caller can point its
/// diagnostic at the offending token.
#[derive(Clone, Copy, Debug, PartialEq, Eq, Structural)]
pub enum TransformError {
    /// An attribute option other than `resolver`.
    UnknownOption { arg: usize },
    /// The `resolver` option is present but its value is not a quoted string.
    ResolverNotString { arg: usize },
    /// The `resolver` string does not parse as an expression.
    BadExpression { arg: usize },
    /// A parameter is a pattern, not a simple named binding.
    PatternParam { param: usize },
    /// A parameter is a receiver.
    ReceiverParam { param: usize },
}

impl TransformError {
    /// The diagnostic text reported for this error.
    pub open spec fn spec_message(self) -> Seq<char> {
        match self {
            TransformError::UnknownOption { .. } => "Unknown argument, expected 'resolver'"@,
            TransformError::ResolverNotString { .. } => "Resolver must be a string containing an expression"@,
            TransformError::BadExpression { .. } => "Bad expression"@,
            TransformError::PatternParam { .. } => "Only named arguments are supported."@,
            TransformError::ReceiverParam { .. } => "Functions with receivers are not supported."@,
        }
    }

    /// The human-readable diagnostic for this error.
    pub fn message(&self) -> (r: &'static str)
        ensures
            r@ == self.spec_message(),
    {
        match self {
            TransformError::UnknownOption { .. } => "Unknown argument, expected 'resolver'",
            TransformError::ResolverNotString { .. } => "Resolver must be a string containing an expression",
            TransformError::BadExpression { .. } => "Bad expression",
            TransformError::PatternParam { .. } => "Only named arguments are supported.",
            TransformError::ReceiverParam { .. } => "Functions with receivers are not supported.",
        }
    }
}

} // verus!
