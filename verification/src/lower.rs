use vstd::prelude::*;
use crate::hir::Visibility;
use crate::span::{FileSpan, Span, Spanned};
use crate::ty::TypeId;
use crate::unify::{TChecker, TypeError, unify_model};

verus! {

/// Where the parameter list of a function is written, from what was found
/// of it: the parentheses, the parameters, and the whole declaration.
///
/// With both parentheses it reaches from the one to the other. With the
/// opening one alone it ends with the last parameter, or with the
/// parenthesis where there is no parameter. With the closing one alone it
/// begins where the first parameter ends, or with the parenthesis. Without
/// parentheses it is the whole declaration.
pub open spec fn params_span(
    lparen: Option<Span>,
    rparen: Option<Span>,
    params: Seq<Span>,
    whole: Span,
) -> Span {
    match (lparen, rparen) {
        (Some(open), Some(close)) => Span { start: open.start, end: close.end },
        (Some(open), None) => if params.len() > 0 {
            Span { start: open.start, end: params.last().end }
        } else {
            open
        },
        (None, Some(close)) => if params.len() > 0 {
            Span { start: params[0].end, end: close.end }
        } else {
            close
        },
        (None, None) => whole,
    }
}

/// Where the parameter list of a function is written: see `params_span`.
pub fn params_range(lparen: Option<Span>, rparen: Option<Span>, params: &Vec<Span>, whole: Span) -> (range:
    Span)
    ensures
        range == params_span(lparen, rparen, params@, whole),
{
    match (lparen, rparen) {
        (Some(open), Some(close)) => Span { start: open.start, end: close.end },
        (Some(open), None) => {
            if params.len() > 0 {
                Span { start: open.start, end: params[params.len() - 1].end }
            } else {
                Span { start: open.start, end: open.end }
            }
        },
        (None, Some(close)) => {
            if params.len() > 0 {
                Span { start: params[0].end, end: close.end }
            } else {
                Span { start: close.start, end: close.end }
            }
        },
        (None, None) => whole,
    }
}

/// The visibility of a declaration: public where the keyword for it is
/// written, at `public`, and private otherwise, in which case the span is
/// that of the declaration's first token.
pub fn lower_visibility(public: Option<Span>, first_token: Span) -> (visibility: Spanned<Visibility>)
    ensures
        visibility == (match public {
            Some(span) => Spanned { inner: Visibility::Public, span },
            None => Spanned { inner: Visibility::Private, span: first_token },
        }),
{
    match public {
        Some(span) => Spanned { inner: Visibility::Public, span },
        None => Spanned { inner: Visibility::Private, span: first_token },
    }
}

/// The place that the check of a function's body against its return type is
/// reported at: the last statement of the body where the body is a block
/// with statements, `statements` being their spans, and the body otherwise.
pub fn return_unification_span(statements: Option<&Vec<Span>>, body: Span) -> (span: Span)
    ensures
        span == (match statements {
            Some(spans) => if spans@.len() > 0 {
                spans@.last()
            } else {
                body
            },
            None => body,
        }),
{
    match statements {
        Some(spans) => {
            if spans.len() > 0 {
                spans[spans.len() - 1]
            } else {
                body
            }
        },
        None => body,
    }
}

impl TChecker {
    /// Checks the type of a function's body against the declared return
    /// type: the two are unified, the body's type first, so that a body
    /// whose type is not known yet takes the declared type.
    pub fn check_return(&mut self, body_ty: TypeId, return_ty: TypeId, span: FileSpan) -> (result:
        Result<(), TypeError>)
        requires
            old(self).tenv@.has(body_ty),
            old(self).tenv@.has(return_ty),
        ensures
            final(self).tenv@ == unify_model(old(self).tenv@, body_ty, return_ty, span).env,
            final(self).tenv@.wf(),
            match result {
                Ok(_) => unify_model(old(self).tenv@, body_ty, return_ty, span).error is None,
                Err(error) => unify_model(old(self).tenv@, body_ty, return_ty, span).error == Some(
                    error@,
                ),
            },
    {
        self.unify(body_ty, return_ty, span)
    }
}

} // verus!
