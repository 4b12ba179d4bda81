use vstd::prelude::*;
use crate::span::FileSpan;
use crate::tenv::{TEnv, TEnvView, forward, lemma_rank, lemma_root, link_ok, may_follow, ranked, some_rank};
use crate::ty::{ConcreteKind, ConcreteView, KindView, RestrictionView, TraitRestriction, TypeId, TypeKind, restriction_views};

verus! {

/// Why two types could not be made to agree.
#[derive(Clone, Debug, PartialEq, Eq)]
pub enum TypeError {
    /// The two types disagree. Each side comes with its handle, what the
    /// handle resolved to when the types were compared, and its place in the
    /// source; `span_file_span` is the place that asked for the unification.
    TypeMismatch {
        a: TypeId,
        a_kind: TypeKind,
        a_file_span: FileSpan,
        b: TypeId,
        b_kind: TypeKind,
        b_file_span: FileSpan,
        span_file_span: FileSpan,
    },
    /// The type `ty` does not implement the traits `unmet`, which a type
    /// parameter asks of it.
    TraitRestrictionsNotMet {
        ty: TypeId,
        ty_kind: TypeKind,
        ty_file_span: FileSpan,
        unmet: Vec<TraitRestriction>,
        span_file_span: FileSpan,
    },
}

pub enum TypeErrorView {
    TypeMismatch {
        a: TypeId,
        a_kind: KindView,
        a_file_span: FileSpan,
        b: TypeId,
        b_kind: KindView,
        b_file_span: FileSpan,
        span_file_span: FileSpan,
    },
    TraitRestrictionsNotMet {
        ty: TypeId,
        ty_kind: KindView,
        ty_file_span: FileSpan,
        unmet: Seq<RestrictionView>,
        span_file_span: FileSpan,
    },
}

impl View for TypeError {
    type V = TypeErrorView;

    open spec fn view(&self) -> TypeErrorView {
        match self {
            TypeError::TypeMismatch {
                a,
                a_kind,
                a_file_span,
                b,
                b_kind,
                b_file_span,
                span_file_span,
            } => TypeErrorView::TypeMismatch {
                a: *a,
                a_kind: a_kind@,
                a_file_span: *a_file_span,
                b: *b,
                b_kind: b_kind@,
                b_file_span: *b_file_span,
                span_file_span: *span_file_span,
            },
            TypeError::TraitRestrictionsNotMet {
                ty,
                ty_kind,
                ty_file_span,
                unmet,
                span_file_span,
            } => TypeErrorView::TraitRestrictionsNotMet {
                ty: *ty,
                ty_kind: ty_kind@,
                ty_file_span: *ty_file_span,
                unmet: restriction_views(unmet@),
                span_file_span: *span_file_span,
            },
        }
    }
}

/// What a unification leaves behind: the arena, and the error if it failed.
pub struct Unified {
    pub env: TEnvView,
    pub error: Option<TypeErrorView>,
}

/// The mismatch between the entries `a` and `b`, as they stand in `env`.
pub open spec fn mismatch(env: TEnvView, a: TypeId, b: TypeId, span: FileSpan) -> TypeErrorView {
    TypeErrorView::TypeMismatch {
        a,
        a_kind: env.kind(a),
        a_file_span: env.span(a),
        b,
        b_kind: env.kind(b),
        b_file_span: env.span(b),
        span_file_span: span,
    }
}

/// Those of `restrictions`, in order, for which no implementation is
/// registered for the type `kind`.
pub open spec fn unmet(env: TEnvView, restrictions: Seq<RestrictionView>, kind: KindView) -> Seq<
    RestrictionView,
>
    decreases restrictions.len(),
{
    if restrictions.len() == 0 {
        Seq::empty()
    } else {
        let before = unmet(env, restrictions.drop_last(), kind);
        if env.implements(kind, restrictions.last()) {
            before
        } else {
            before.push(restrictions.last())
        }
    }
}

/// The error, if any, of asking the entry `ty` to implement `restrictions`.
pub open spec fn restriction_error(
    env: TEnvView,
    ty: TypeId,
    restrictions: Seq<RestrictionView>,
    span: FileSpan,
) -> Option<TypeErrorView> {
    let missing = unmet(env, restrictions, env.kind(ty));
    if missing.len() == 0 {
        None
    } else {
        Some(
            TypeErrorView::TraitRestrictionsNotMet {
                ty,
                ty_kind: env.kind(ty),
                ty_file_span: env.span(ty),
                unmet: missing,
                span_file_span: span,
            },
        )
    }
}

/// The arena after the variable `from`, which defers to nothing, is made to
/// defer to `to` by holding `kind`. Where the chain of `to` already ends at
/// `from` the two agree already, and the arena stays as it is.
pub open spec fn link(env: TEnvView, from: TypeId, to: TypeId, kind: KindView) -> TEnvView {
    if env.root(to) == from {
        env
    } else {
        env.set(from, kind)
    }
}

/// What unifying the entries `a` and `b` does to the arena `env`.
///
/// The pair of kinds decides:
/// - `a` unknown: `a` takes over the entry of `b`;
/// - `a` a type parameter: `b` must implement every restriction of `a`;
/// - `a` the bottom type: nothing to do;
/// - a literal's variable against a named type: a variable that defers
///   passes the question on to the entry it defers to; one that does not is
///   made to defer to the named type if that is registered as a numeric type
///   of its family, and is a mismatch otherwise;
/// - two variables of one family: if both defer, their targets are unified;
///   otherwise one that does not defer is made to defer to the other
///   (the second to the first where neither defers);
/// - two concrete types: they must be structurally equal, with nested
///   handles compared as handles;
/// - anything else, an unknown `b` under a known `a` included, is a mismatch.
pub open spec fn unify_model(env: TEnvView, a: TypeId, b: TypeId, span: FileSpan) -> Unified
    decreases some_rank(env.kinds)[a.0 as int] + some_rank(env.kinds)[b.0 as int],
    when env.wf() && env.has(a) && env.has(b)
{
    let failed = Unified { env, error: Some(mismatch(env, a, b, span)) };
    let done = Unified { env, error: None };
    match env.kind(a) {
        KindView::Unknown => Unified { env: env.set(a, env.kind(b)), error: None },
        KindView::Generic(generic) => Unified {
            env,
            error: restriction_error(env, b, generic.restrictions, span),
        },
        KindView::Never => done,
        KindView::Int(a_to) => match env.kind(b) {
            KindView::Concrete(ConcreteView::Path(path, _)) => match a_to {
                Some(to) => {
                    proof {
                        assert(ranked(env.kinds, some_rank(env.kinds)));
                        assert(link_ok(env.kinds, some_rank(env.kinds), a.0 as int));
                    }
                    unify_model(env, to, b, span)
                },
                None => if env.is_int_path(path) {
                    Unified { env: env.set(a, KindView::Int(Some(b))), error: None }
                } else {
                    failed
                },
            },
            KindView::Int(b_to) => match (a_to, b_to) {
                (Some(x), Some(y)) => {
                    proof {
                        assert(ranked(env.kinds, some_rank(env.kinds)));
                        assert(link_ok(env.kinds, some_rank(env.kinds), a.0 as int));
                        assert(link_ok(env.kinds, some_rank(env.kinds), b.0 as int));
                    }
                    unify_model(env, x, y, span)
                },
                (Some(_), None) => Unified {
                    env: link(env, b, a, KindView::Int(Some(a))),
                    error: None,
                },
                (None, Some(_)) => Unified {
                    env: link(env, a, b, KindView::Int(Some(b))),
                    error: None,
                },
                (None, None) => Unified {
                    env: link(env, b, a, KindView::Int(Some(a))),
                    error: None,
                },
            },
            _ => failed,
        },
        KindView::Float(a_to) => match env.kind(b) {
            KindView::Concrete(ConcreteView::Path(path, _)) => match a_to {
                Some(to) => {
                    proof {
                        assert(ranked(env.kinds, some_rank(env.kinds)));
                        assert(link_ok(env.kinds, some_rank(env.kinds), a.0 as int));
                    }
                    unify_model(env, to, b, span)
                },
                None => if env.is_float_path(path) {
                    Unified { env: env.set(a, KindView::Float(Some(b))), error: None }
                } else {
                    failed
                },
            },
            KindView::Float(b_to) => match (a_to, b_to) {
                (Some(x), Some(y)) => {
                    proof {
                        assert(ranked(env.kinds, some_rank(env.kinds)));
                        assert(link_ok(env.kinds, some_rank(env.kinds), a.0 as int));
                        assert(link_ok(env.kinds, some_rank(env.kinds), b.0 as int));
                    }
                    unify_model(env, x, y, span)
                },
                (Some(_), None) => Unified {
                    env: link(env, b, a, KindView::Float(Some(a))),
                    error: None,
                },
                (None, Some(_)) => Unified {
                    env: link(env, a, b, KindView::Float(Some(b))),
                    error: None,
                },
                (None, None) => Unified {
                    env: link(env, b, a, KindView::Float(Some(a))),
                    error: None,
                },
            },
            _ => failed,
        },
        KindView::Concrete(concrete_a) => match env.kind(b) {
            KindView::Int(b_to) => match concrete_a {
                ConcreteView::Path(path, _) => match b_to {
                    Some(to) => {
                        proof {
                            assert(ranked(env.kinds, some_rank(env.kinds)));
                            assert(link_ok(env.kinds, some_rank(env.kinds), b.0 as int));
                        }
                        unify_model(env, a, to, span)
                    },
                    None => if env.is_int_path(path) {
                        Unified { env: env.set(b, KindView::Int(Some(a))), error: None }
                    } else {
                        failed
                    },
                },
                _ => failed,
            },
            KindView::Float(b_to) => match concrete_a {
                ConcreteView::Path(path, _) => match b_to {
                    Some(to) => {
                        proof {
                            assert(ranked(env.kinds, some_rank(env.kinds)));
                            assert(link_ok(env.kinds, some_rank(env.kinds), b.0 as int));
                        }
                        unify_model(env, a, to, span)
                    },
                    None => if env.is_float_path(path) {
                        Unified { env: env.set(b, KindView::Float(Some(a))), error: None }
                    } else {
                        failed
                    },
                },
                _ => failed,
            },
            KindView::Concrete(concrete_b) => if concrete_a == concrete_b {
                done
            } else {
                failed
            },
            _ => failed,
        },
    }
}

/// The entry at which a chain of deferrals ends is a variable that defers to
/// nothing or a concrete type, never an unknown, the bottom type or a type
/// parameter.
pub proof fn lemma_root_kind(env: TEnvView, from: KindView, id: TypeId)
    requires
        env.wf(),
        env.has(id),
        may_follow(from, env.kind(id)),
    ensures
        env.kind(env.root(id)) is Int || env.kind(env.root(id)) is Float || env.kind(
            env.root(id),
        ) is Concrete,
    decreases some_rank(env.kinds)[id.0 as int],
{
    lemma_rank(env);
    assert(link_ok(env.kinds, some_rank(env.kinds), id.0 as int));
    lemma_root(env, id);
    match forward(env.kind(id)) {
        Some(to) => {
            lemma_root_kind(env, env.kind(id), to);
        },
        None => {},
    }
}

/// The type checker of one session: it owns the session's type arena.
pub struct TChecker {
    pub tenv: TEnv,
}

impl TChecker {
    pub fn new(tenv: TEnv) -> (checker: TChecker)
        ensures
            checker.tenv == tenv,
    {
        TChecker { tenv }
    }

    /// The mismatch between the entries `a` and `b`: both handles, what they
    /// resolve to, where they come from, and the place that asked.
    pub fn type_mismatch(&self, a: TypeId, b: TypeId, unification_span: FileSpan) -> (error:
        TypeError)
        requires
            self.tenv@.has(a),
            self.tenv@.has(b),
        ensures
            error@ == mismatch(self.tenv@, a, b, unification_span),
    {
        TypeError::TypeMismatch {
            a,
            a_kind: self.tenv.get(a).clone(),
            a_file_span: self.tenv.get_span(a),
            b,
            b_kind: self.tenv.get(b).clone(),
            b_file_span: self.tenv.get_span(b),
            span_file_span: unification_span,
        }
    }

    /// Checks that the entry `ty` implements every one of `restrictions`.
    /// The arena is only read. On failure the error lists, in order, the
    /// restrictions for which no implementation is registered.
    pub fn does_type_implement_restrictions(
        &self,
        ty: TypeId,
        restrictions: &Vec<TraitRestriction>,
        unification_span: FileSpan,
    ) -> (result: Result<(), TypeError>)
        requires
            self.tenv@.has(ty),
        ensures
            match result {
                Ok(_) => restriction_error(
                    self.tenv@,
                    ty,
                    restriction_views(restrictions@),
                    unification_span,
                ) is None,
                Err(error) => restriction_error(
                    self.tenv@,
                    ty,
                    restriction_views(restrictions@),
                    unification_span,
                ) == Some(error@),
            },
    {
        let kind = self.tenv.get(ty);
        let ghost all = restriction_views(restrictions@);
        let mut missing: Vec<TraitRestriction> = Vec::new();
        let mut i: usize = 0;
        while i < restrictions.len()
            invariant
                i <= restrictions.len(),
                all == restriction_views(restrictions@),
                kind@ == self.tenv@.kind(ty),
                restriction_views(missing@) == unmet(self.tenv@, all.take(i as int), kind@),
            decreases restrictions.len() - i,
        {
            let ghost before = restriction_views(missing@);
            assert(all.take(i + 1).drop_last() =~= all.take(i as int));
            assert(all.take(i + 1).last() == restrictions@[i as int]@);
            if !self.tenv.implements(kind, &restrictions[i]) {
                missing.push(restrictions[i].clone());
                assert(restriction_views(missing@) =~= before.push(restrictions@[i as int]@));
            }
            i += 1;
        }
        assert(all.take(restrictions.len() as int) =~= all);
        if missing.len() == 0 {
            Ok(())
        } else {
            Err(
                TypeError::TraitRestrictionsNotMet {
                    ty,
                    ty_kind: kind.clone(),
                    ty_file_span: self.tenv.get_span(ty),
                    unmet: missing,
                    span_file_span: unification_span,
                },
            )
        }
    }

    /// Makes the variable `from`, which defers to nothing, defer to `to` by
    /// holding `kind`, unless the chain of `to` ends at `from` already.
    fn link(&mut self, from: TypeId, to: TypeId, kind: TypeKind)
        requires
            old(self).tenv@.has(from),
            old(self).tenv@.has(to),
            forward(old(self).tenv@.kind(from)) is None,
            forward(kind@) == Some(to),
            may_follow(kind@, old(self).tenv@.kind(to)),
            crate::tenv::keeps_family(old(self).tenv@.kind(from), kind@),
        ensures
            final(self).tenv@ == link(old(self).tenv@, from, to, kind@),
            final(self).tenv@.wf(),
    {
        self.tenv.well_formed();
        let root = self.tenv.resolve(to);
        if root != from {
            self.tenv.set(from, kind);
        }
    }

    /// Makes the entries `a` and `b` agree, or says why they cannot.
    ///
    /// The arena changes as `unify_model` says and in no other way; the result
    /// is the error that `unify_model` gives, or `Ok` where it gives none.
    /// The order of the operands matters: only an unknown `a` is resolved.
    pub fn unify(&mut self, a: TypeId, b: TypeId, unification_span: FileSpan) -> (result: Result<
        (),
        TypeError,
    >)
        requires
            old(self).tenv@.has(a),
            old(self).tenv@.has(b),
        ensures
            final(self).tenv@ == unify_model(old(self).tenv@, a, b, unification_span).env,
            final(self).tenv@.wf(),
            match result {
                Ok(_) => unify_model(old(self).tenv@, a, b, unification_span).error is None,
                Err(error) => unify_model(old(self).tenv@, a, b, unification_span).error == Some(
                    error@,
                ),
            },
        decreases
            some_rank(old(self).tenv@.kinds)[a.0 as int] + some_rank(old(self).tenv@.kinds)[b.0 as int],
    {
        self.tenv.well_formed();
        proof {
            lemma_rank(self.tenv@);
            assert(link_ok(self.tenv@.kinds, some_rank(self.tenv@.kinds), a.0 as int));
            assert(link_ok(self.tenv@.kinds, some_rank(self.tenv@.kinds), b.0 as int));
            lemma_root(self.tenv@, a);
            lemma_root(self.tenv@, b);
        }
        let a_kind = self.tenv.get(a).clone();
        let b_kind = self.tenv.get(b).clone();
        match a_kind {
            TypeKind::Unknown => {
                proof {
                    match forward(b_kind@) {
                        Some(to) => {
                            lemma_root_kind(self.tenv@, b_kind@, to);
                        },
                        None => {},
                    }
                }
                self.tenv.set(a, b_kind);
                Ok(())
            },
            TypeKind::Generic(generic) => self.does_type_implement_restrictions(
                b,
                &generic.restrictions,
                unification_span,
            ),
            TypeKind::Never => Ok(()),
            TypeKind::Int(a_to) => match b_kind {
                TypeKind::Concrete(ConcreteKind::Path(path, _)) => match a_to {
                    Some(to) => self.unify(to, b, unification_span),
                    None => {
                        if self.tenv.is_int_path(&path) {
                            self.tenv.set(a, TypeKind::Int(Some(b)));
                            Ok(())
                        } else {
                            Err(self.type_mismatch(a, b, unification_span))
                        }
                    },
                },
                TypeKind::Int(b_to) => match (a_to, b_to) {
                    (Some(x), Some(y)) => self.unify(x, y, unification_span),
                    (Some(_), None) => {
                        self.link(b, a, TypeKind::Int(Some(a)));
                        Ok(())
                    },
                    (None, Some(_)) => {
                        self.link(a, b, TypeKind::Int(Some(b)));
                        Ok(())
                    },
                    (None, None) => {
                        self.link(b, a, TypeKind::Int(Some(a)));
                        Ok(())
                    },
                },
                _ => Err(self.type_mismatch(a, b, unification_span)),
            },
            TypeKind::Float(a_to) => match b_kind {
                TypeKind::Concrete(ConcreteKind::Path(path, _)) => match a_to {
                    Some(to) => self.unify(to, b, unification_span),
                    None => {
                        if self.tenv.is_float_path(&path) {
                            self.tenv.set(a, TypeKind::Float(Some(b)));
                            Ok(())
                        } else {
                            Err(self.type_mismatch(a, b, unification_span))
                        }
                    },
                },
                TypeKind::Float(b_to) => match (a_to, b_to) {
                    (Some(x), Some(y)) => self.unify(x, y, unification_span),
                    (Some(_), None) => {
                        self.link(b, a, TypeKind::Float(Some(a)));
                        Ok(())
                    },
                    (None, Some(_)) => {
                        self.link(a, b, TypeKind::Float(Some(b)));
                        Ok(())
                    },
                    (None, None) => {
                        self.link(b, a, TypeKind::Float(Some(a)));
                        Ok(())
                    },
                },
                _ => Err(self.type_mismatch(a, b, unification_span)),
            },
            TypeKind::Concrete(concrete_a) => match b_kind {
                TypeKind::Int(b_to) => match concrete_a {
                    ConcreteKind::Path(path, _) => match b_to {
                        Some(to) => self.unify(a, to, unification_span),
                        None => {
                            if self.tenv.is_int_path(&path) {
                                self.tenv.set(b, TypeKind::Int(Some(a)));
                                Ok(())
                            } else {
                                Err(self.type_mismatch(a, b, unification_span))
                            }
                        },
                    },
                    _ => Err(self.type_mismatch(a, b, unification_span)),
                },
                TypeKind::Float(b_to) => match concrete_a {
                    ConcreteKind::Path(path, _) => match b_to {
                        Some(to) => self.unify(a, to, unification_span),
                        None => {
                            if self.tenv.is_float_path(&path) {
                                self.tenv.set(b, TypeKind::Float(Some(a)));
                                Ok(())
                            } else {
                                Err(self.type_mismatch(a, b, unification_span))
                            }
                        },
                    },
                    _ => Err(self.type_mismatch(a, b, unification_span)),
                },
                TypeKind::Concrete(concrete_b) => {
                    if concrete_a.same(&concrete_b) {
                        Ok(())
                    } else {
                        Err(self.type_mismatch(a, b, unification_span))
                    }
                },
                _ => Err(self.type_mismatch(a, b, unification_span)),
            },
        }
    }
}

} // verus!
