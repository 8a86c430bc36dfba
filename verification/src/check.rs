//! Checking a synthesized type against an expected type.

use vstd::prelude::*;

use crate::erl_ast::ErlAst;
use crate::erl_type::ErlType;
use crate::erl_type::TypeModel;
use crate::error::ErlError;
use crate::error::ErrModel;
use crate::scope::Scope;
use crate::subtyping::pairwise_subtype;
use crate::subtyping::subtype_model;
use crate::synthesize::synth_model;

verus! {

/// What the checker accepts: the synthesized type must be a subtype of
/// the expected one. The one exception is a function type checked
/// against a declared function spec: there the return types may stand
/// in either subtype direction, since arithmetic synthesis widens to
/// the integer/float union and such a function must still check against
/// a spec naming one member of that union.
pub open spec fn check_accepts(t: TypeModel, e: TypeModel) -> bool {
    subtype_model(t, e) || (match (t, e) {
        (TypeModel::Fn { args: a1, ret: r1 }, TypeModel::Fn { args: a2, ret: r2 }) => (match (
            a1,
            a2,
        ) {
            (_, Option::None) => true,
            (Option::None, Option::Some(_)) => true,
            (Option::Some(x), Option::Some(y)) => pairwise_subtype(x, y),
        }) && subtype_model(*r2, *r1),
        _ => false,
    })
}

/// The type checker.
#[derive(Debug)]
pub struct TypeCheck {}

impl TypeCheck {
    /// Synthesize `ast`'s type afresh under `scope` and test it against
    /// `expected_ty`. Succeeds, with `true`, exactly when synthesis
    /// succeeds and the checker accepts the synthesized type, per
    /// [`check_accepts`]: outside function-against-function checks this
    /// is the plain subtype test, so an atom checked against the boolean
    /// type, or a number against the integer type, fails. A rejected
    /// type is a type error carrying both types, never a panic; a failed
    /// synthesis propagates its internal error.
    pub fn check(scope: &Scope, ast: &ErlAst, expected_ty: &ErlType) -> (r: Result<bool, ErlError>)
        ensures
            match r {
                Result::Ok(b) => b && (synth_model(scope@.variables, ast@) matches Option::Some(t)
                    && check_accepts(t, expected_ty@)),
                Result::Err(e) => match synth_model(scope@.variables, ast@) {
                    Option::Some(t) => !check_accepts(t, expected_ty@) && e@ == (
                    ErrModel::TypeErr { expected: expected_ty@, actual: t }),
                    Option::None => e@ is Internal,
                },
            },
    {
        let synthesized = match ast.synthesize(scope) {
            Result::Ok(t) => t,
            Result::Err(e) => {
                return Result::Err(e);
            },
        };
        if synthesized.is_subtype_of(expected_ty) {
            return Result::Ok(true);
        }
        let fn_leniency: bool = match (&synthesized, expected_ty) {
            (ErlType::Fn { args: a1, ret: r1 }, ErlType::Fn { args: a2, ret: r2 }) => {
                let args_ok = match (a1, a2) {
                    (_, Option::None) => true,
                    (Option::None, Option::Some(_)) => true,
                    (Option::Some(x), Option::Some(y)) => {
                        crate::subtyping::pairwise_subtype_exec(x, y)
                    },
                };
                args_ok && r2.is_subtype_of(r1)
            },
            _ => false,
        };
        if fn_leniency {
            Result::Ok(true)
        } else {
            Result::Err(
                ErlError::TypeErr { expected: expected_ty.clone(), actual: synthesized },
            )
        }
    }
}

} // verus!
