//! Error taxonomy: parse errors with a context stack, preprocessor
//! errors collected per file, type errors carrying both types, and
//! internal invariant violations kept distinct from user-facing errors.

use vstd::prelude::*;

use crate::erl_ast::lemma_strings_view;
use crate::erl_ast::strings_view;
use crate::erl_type::ErlType;
use crate::erl_type::TypeModel;
use crate::source_loc::SourceLoc;

verus! {

/// An error from any stage of the pipeline.
#[derive(Debug)]
pub enum ErlError {
    /// Malformed grammar at a location, with a stack of nested rule
    /// labels, innermost last.
    Parse { loc: SourceLoc, context: Vec<String>, message: String },
    /// A preprocessor failure: unresolved condition, unmatched block
    /// marker, missing include, or a user `-error(...)` directive.
    Preprocessor { loc: SourceLoc, message: String },
    /// A synthesized type was not compatible with an expected type.
    TypeErr { expected: ErlType, actual: ErlType },
    /// A broken internal precondition; distinct from bad input.
    Internal { message: String },
    /// Several errors reported together.
    Multiple { errors: Vec<ErlError> },
}

/// Ghost model of [`ErlError`].
#[verifier::ext_equal]
pub enum ErrModel {
    /// A parse error.
    Parse { loc: SourceLoc, context: Seq<Seq<char>>, message: Seq<char> },
    /// A preprocessor error.
    Preprocessor { loc: SourceLoc, message: Seq<char> },
    /// A type error.
    TypeErr { expected: TypeModel, actual: TypeModel },
    /// An internal error.
    Internal { message: Seq<char> },
    /// Several errors together.
    Multiple(Seq<ErrModel>),
}

/// Model of one error.
pub open spec fn err_view(e: ErlError) -> ErrModel
    decreases e,
{
    match e {
        ErlError::Parse { loc, context, message } => ErrModel::Parse {
            loc,
            context: strings_view(context@),
            message: message@,
        },
        ErlError::Preprocessor { loc, message } => ErrModel::Preprocessor { loc, message: message@ },
        ErlError::TypeErr { expected, actual } => ErrModel::TypeErr {
            expected: expected@,
            actual: actual@,
        },
        ErlError::Internal { message } => ErrModel::Internal { message: message@ },
        ErlError::Multiple { errors } => ErrModel::Multiple(errs_view(errors@)),
    }
}

/// Models of a sequence of errors, in order.
pub open spec fn errs_view(es: Seq<ErlError>) -> Seq<ErrModel>
    decreases es,
{
    if es.len() == 0 {
        Seq::empty()
    } else {
        seq![err_view(es[0])] + errs_view(es.drop_first())
    }
}

impl View for ErlError {
    type V = ErrModel;

    open spec fn view(&self) -> ErrModel {
        err_view(*self)
    }
}

/// `errs_view` maps the sequence pointwise.
pub proof fn lemma_errs_view(es: Seq<ErlError>)
    ensures
        errs_view(es).len() == es.len(),
        forall|i: int| 0 <= i < es.len() ==> errs_view(es)[i] == es[i]@,
    decreases es.len(),
{
    if es.len() > 0 {
        lemma_errs_view(es.drop_first());
        assert forall|i: int| 0 <= i < es.len() implies errs_view(es)[i] == es[i]@ by {
            if i > 0 {
                assert(errs_view(es)[i] == errs_view(es.drop_first())[i - 1]);
                assert(es.drop_first()[i - 1] == es[i]);
            }
        }
    }
}

impl ErlError {
    /// An internal-invariant error with the given message.
    pub fn internal(message: String) -> (r: ErlError)
        ensures
            r@ == (ErrModel::Internal { message: message@ }),
    {
        ErlError::Internal { message }
    }

    /// A preprocessor error at a location.
    pub fn preprocessor(loc: SourceLoc, message: String) -> (r: ErlError)
        ensures
            r@ == (ErrModel::Preprocessor { loc, message: message@ }),
    {
        ErlError::Preprocessor { loc, message }
    }

    /// A parse error at a location with its context stack.
    pub fn parse(loc: SourceLoc, context: Vec<String>, message: String) -> (r: ErlError)
        ensures
            r@ == (ErrModel::Parse { loc, context: strings_view(context@), message: message@ }),
    {
        proof {
            lemma_strings_view(context@);
        }
        ErlError::Parse { loc, context, message }
    }

    /// Bundle several errors into one report.
    pub fn multiple(errors: Vec<ErlError>) -> (r: ErlError)
        ensures
            r@ == ErrModel::Multiple(errs_view(errors@)),
    {
        ErlError::Multiple { errors }
    }
}

} // verus!
