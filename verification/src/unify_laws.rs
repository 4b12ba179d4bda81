use vstd::prelude::*;
use crate::intern::Word;
use crate::span::FileSpan;
use crate::tenv::{TEnvView, forward, lemma_insert_wf, lemma_rank, lemma_root, lemma_set_wf, link_ok, some_rank};
use crate::ty::{ConcreteView, KindView, TypeId};
use crate::unify::{Unified, lemma_root_kind, link, mismatch, unify_model};

verus! {

/// An unknown entry unified with any entry takes over what that entry holds:
/// the unification succeeds, and afterwards the first handle resolves to what
/// the second resolves to. Here both entries are freshly added to an arena.
pub proof fn law_unknown_first_is_resolved(
    env: TEnvView,
    kind: KindView,
    first_span: FileSpan,
    second_span: FileSpan,
    span: FileSpan,
)
    requires
        env.wf(),
        env.accepts(kind),
        env.kinds.len() + 2 <= usize::MAX,
    ensures
        ({
            let a = TypeId(env.kinds.len() as usize);
            let b = TypeId((env.kinds.len() + 1) as usize);
            let filled = env.insert(KindView::Unknown, first_span).insert(kind, second_span);
            let after = unify_model(filled, a, b, span);
            &&& after.error is None
            &&& after.env.kind(a) == kind
            &&& after.env.kind(b) == kind
            &&& after.env == filled.set(a, kind)
        }),
{
    let one = env.insert(KindView::Unknown, first_span);
    lemma_insert_wf(env, KindView::Unknown, first_span);
    lemma_insert_wf(one, kind, second_span);
}

/// An unknown entry on the right is not resolved. With what `kind` holds on
/// the left, the unification succeeds only where `kind` is itself unknown or
/// the bottom type, and is a mismatch for every other `kind` that is no type
/// parameter; the arena's entries stay as they were in every case.
pub proof fn law_unknown_second_is_not_resolved(
    env: TEnvView,
    kind: KindView,
    first_span: FileSpan,
    second_span: FileSpan,
    span: FileSpan,
)
    requires
        env.wf(),
        env.accepts(kind),
        env.kinds.len() + 2 <= usize::MAX,
        !(kind is Generic),
    ensures
        ({
            let a = TypeId(env.kinds.len() as usize);
            let b = TypeId((env.kinds.len() + 1) as usize);
            let filled = env.insert(kind, first_span).insert(KindView::Unknown, second_span);
            let after = unify_model(filled, a, b, span);
            &&& after.env.kinds == filled.kinds
            &&& after.env.kind(b) == KindView::Unknown
            &&& (kind is Unknown || kind is Never) ==> after.error is None
            &&& !(kind is Unknown || kind is Never) ==> after.error == Some(
                mismatch(filled, a, b, span),
            )
        }),
{
    let one = env.insert(kind, first_span);
    let filled = one.insert(KindView::Unknown, second_span);
    lemma_insert_wf(env, kind, first_span);
    lemma_insert_wf(one, KindView::Unknown, second_span);
    let a = TypeId(env.kinds.len() as usize);
    if kind is Unknown {
        assert(filled.set(a, KindView::Unknown).kinds =~= filled.kinds);
    }
}

/// The bottom type unifies with everything, and nothing changes.
pub proof fn law_never_first_unifies(env: TEnvView, a: TypeId, b: TypeId, span: FileSpan)
    requires
        env.wf(),
        env.has(a),
        env.has(b),
        env.kind(a) is Never,
    ensures
        unify_model(env, a, b, span) == (Unified { env, error: None }),
{
}

/// The same for two freshly added entries, whatever the second holds.
pub proof fn law_never_first_unifies_fresh(
    env: TEnvView,
    kind: KindView,
    first_span: FileSpan,
    second_span: FileSpan,
    span: FileSpan,
)
    requires
        env.wf(),
        env.accepts(kind),
        env.kinds.len() + 2 <= usize::MAX,
    ensures
        ({
            let a = TypeId(env.kinds.len() as usize);
            let b = TypeId((env.kinds.len() + 1) as usize);
            let filled = env.insert(KindView::Never, first_span).insert(kind, second_span);
            unify_model(filled, a, b, span) == (Unified { env: filled, error: None })
        }),
{
    let one = env.insert(KindView::Never, first_span);
    lemma_insert_wf(env, KindView::Never, first_span);
    lemma_insert_wf(one, kind, second_span);
}

/// Whether a unification succeeded and left the chains of `a` and of `b`
/// ending at `c`.
pub open spec fn both_end_at(after: Unified, a: TypeId, b: TypeId, c: TypeId) -> bool {
    &&& after.error is None
    &&& after.env.wf()
    &&& after.env.root(a) == c
    &&& after.env.root(b) == c
}

/// Two integer variables that defer to nothing unify, and when either is then
/// unified with a registered integer type, on either side, the chains of both
/// end at that type.
pub proof fn law_int_variables_share_their_type(
    env: TEnvView,
    a: TypeId,
    b: TypeId,
    c: TypeId,
    path: Seq<Word>,
    args: Seq<TypeId>,
    span: FileSpan,
)
    requires
        env.wf(),
        env.has(a),
        env.has(b),
        env.has(c),
        env.kind(a) == KindView::Int(None),
        env.kind(b) == KindView::Int(None),
        env.kind(c) == KindView::Concrete(ConcreteView::Path(path, args)),
        env.is_int_path(path),
    ensures
        unify_model(env, a, b, span).error is None,
        ({
            let joined = unify_model(env, a, b, span).env;
            &&& joined.wf()
            &&& both_end_at(unify_model(joined, a, c, span), a, b, c)
            &&& both_end_at(unify_model(joined, b, c, span), a, b, c)
            &&& both_end_at(unify_model(joined, c, a, span), a, b, c)
            &&& both_end_at(unify_model(joined, c, b, span), a, b, c)
        }),
{
    lemma_root(env, a);
    lemma_root(env, b);
    lemma_root(env, c);
    let joined = unify_model(env, a, b, span).env;
    assert(joined == link(env, b, a, KindView::Int(Some(a))));
    if a != b {
        lemma_set_wf(env, b, KindView::Int(Some(a)));
    }
    assert(joined.wf());
    lemma_root(joined, c);
    let resolved = joined.set(a, KindView::Int(Some(c)));
    lemma_set_wf(joined, a, KindView::Int(Some(c)));
    lemma_root(resolved, c);
    lemma_root(resolved, a);
    lemma_root(resolved, b);
    lemma_rank(joined);
    assert(link_ok(joined.kinds, some_rank(joined.kinds), b.0 as int));
    assert(unify_model(joined, a, c, span) == (Unified { env: resolved, error: None }));
    assert(unify_model(joined, c, a, span) == (Unified { env: resolved, error: None }));
    assert(unify_model(joined, b, c, span) == (Unified { env: resolved, error: None }));
    assert(unify_model(joined, c, b, span) == (Unified { env: resolved, error: None }));
}

/// An integer variable that defers to nothing does not unify with a named
/// type that is not registered as an integer type, on either side: the
/// result is the mismatch of the two, and the arena stays as it is.
pub proof fn law_int_variable_rejects_other_paths(
    env: TEnvView,
    variable: TypeId,
    named: TypeId,
    path: Seq<Word>,
    args: Seq<TypeId>,
    span: FileSpan,
)
    requires
        env.wf(),
        env.has(variable),
        env.has(named),
        env.kind(variable) == KindView::Int(None),
        env.kind(named) == KindView::Concrete(ConcreteView::Path(path, args)),
        !env.is_int_path(path),
    ensures
        unify_model(env, variable, named, span) == (Unified {
            env,
            error: Some(mismatch(env, variable, named, span)),
        }),
        unify_model(env, named, variable, span) == (Unified {
            env,
            error: Some(mismatch(env, named, variable, span)),
        }),
{
}

/// The same for a float variable and the float types.
pub proof fn law_float_variable_rejects_other_paths(
    env: TEnvView,
    variable: TypeId,
    named: TypeId,
    path: Seq<Word>,
    args: Seq<TypeId>,
    span: FileSpan,
)
    requires
        env.wf(),
        env.has(variable),
        env.has(named),
        env.kind(variable) == KindView::Float(None),
        env.kind(named) == KindView::Concrete(ConcreteView::Path(path, args)),
        !env.is_float_path(path),
    ensures
        unify_model(env, variable, named, span) == (Unified {
            env,
            error: Some(mismatch(env, variable, named, span)),
        }),
        unify_model(env, named, variable, span) == (Unified {
            env,
            error: Some(mismatch(env, named, variable, span)),
        }),
{
}

/// Two concrete types unify exactly when they are structurally equal, and
/// the arena stays as it is either way.
pub proof fn law_concrete_types_unify_when_equal(
    env: TEnvView,
    a: TypeId,
    b: TypeId,
    span: FileSpan,
)
    requires
        env.wf(),
        env.has(a),
        env.has(b),
        env.kind(a) is Concrete,
        env.kind(b) is Concrete,
    ensures
        unify_model(env, a, b, span).env == env,
        unify_model(env, a, b, span).error is None <==> env.kind(a) == env.kind(b),
        env.kind(a) != env.kind(b) ==> unify_model(env, a, b, span).error == Some(
            mismatch(env, a, b, span),
        ),
{
}

/// Handles nested in a concrete type are compared as handles: two tuples
/// that differ in one element's handle do not unify, even where the two
/// handles resolve to the same kind.
pub proof fn law_tuples_compare_handles(
    env: TEnvView,
    a: TypeId,
    b: TypeId,
    a_types: Seq<TypeId>,
    b_types: Seq<TypeId>,
    at: int,
    span: FileSpan,
)
    requires
        env.wf(),
        env.has(a),
        env.has(b),
        env.kind(a) == KindView::Concrete(ConcreteView::Tuple(a_types)),
        env.kind(b) == KindView::Concrete(ConcreteView::Tuple(b_types)),
        0 <= at < a_types.len(),
        at < b_types.len(),
        a_types[at] != b_types[at],
        env.has(a_types[at]) && env.has(b_types[at]) && env.kind(a_types[at]) == env.kind(
            b_types[at],
        ),
    ensures
        unify_model(env, a, b, span) == (Unified {
            env,
            error: Some(mismatch(env, a, b, span)),
        }),
{
}

/// Whether unification may overwrite an entry of this kind: an unknown, or a
/// literal's variable that defers to nothing.
pub open spec fn unresolved(kind: KindView) -> bool {
    kind is Unknown || kind == KindView::Int(None) || kind == KindView::Float(None)
}

/// What unification leaves alone. The arena stays well-formed and keeps its
/// size, its spans and what is registered in it. Only entries that were
/// unknown, or variables that deferred to nothing, can change; so type
/// parameters keep their restrictions and concrete types stay as they are.
pub proof fn law_unify_frame(env: TEnvView, a: TypeId, b: TypeId, span: FileSpan)
    requires
        env.wf(),
        env.has(a),
        env.has(b),
    ensures
        ({
            let after = unify_model(env, a, b, span).env;
            &&& after.wf()
            &&& after.kinds.len() == env.kinds.len()
            &&& after.spans == env.spans
            &&& after.int_paths == env.int_paths
            &&& after.float_paths == env.float_paths
            &&& after.impls == env.impls
            &&& forall|id: TypeId|
                env.has(id) && !unresolved(env.kind(id)) ==> #[trigger] after.kind(id) == env.kind(
                    id,
                )
        }),
    decreases some_rank(env.kinds)[a.0 as int] + some_rank(env.kinds)[b.0 as int],
{
    lemma_rank(env);
    assert(link_ok(env.kinds, some_rank(env.kinds), a.0 as int));
    assert(link_ok(env.kinds, some_rank(env.kinds), b.0 as int));
    lemma_root(env, a);
    lemma_root(env, b);
    let after = unify_model(env, a, b, span).env;
    match env.kind(a) {
        KindView::Unknown => {
            match forward(env.kind(b)) {
                Some(to) => {
                    lemma_root_kind(env, env.kind(b), to);
                },
                None => {},
            }
            lemma_set_wf(env, a, env.kind(b));
        },
        KindView::Generic(_) => {},
        KindView::Never => {},
        KindView::Int(a_to) => match env.kind(b) {
            KindView::Concrete(ConcreteView::Path(path, _)) => match a_to {
                Some(to) => {
                    law_unify_frame(env, to, b, span);
                },
                None => {
                    if env.is_int_path(path) {
                        lemma_set_wf(env, a, KindView::Int(Some(b)));
                    }
                },
            },
            KindView::Int(b_to) => match (a_to, b_to) {
                (Some(x), Some(y)) => {
                    law_unify_frame(env, x, y, span);
                },
                (Some(_), None) => {
                    if env.root(a) != b {
                        lemma_set_wf(env, b, KindView::Int(Some(a)));
                    }
                },
                (None, Some(_)) => {
                    if env.root(b) != a {
                        lemma_set_wf(env, a, KindView::Int(Some(b)));
                    }
                },
                (None, None) => {
                    if env.root(a) != b {
                        lemma_set_wf(env, b, KindView::Int(Some(a)));
                    }
                },
            },
            _ => {},
        },
        KindView::Float(a_to) => match env.kind(b) {
            KindView::Concrete(ConcreteView::Path(path, _)) => match a_to {
                Some(to) => {
                    law_unify_frame(env, to, b, span);
                },
                None => {
                    if env.is_float_path(path) {
                        lemma_set_wf(env, a, KindView::Float(Some(b)));
                    }
                },
            },
            KindView::Float(b_to) => match (a_to, b_to) {
                (Some(x), Some(y)) => {
                    law_unify_frame(env, x, y, span);
                },
                (Some(_), None) => {
                    if env.root(a) != b {
                        lemma_set_wf(env, b, KindView::Float(Some(a)));
                    }
                },
                (None, Some(_)) => {
                    if env.root(b) != a {
                        lemma_set_wf(env, a, KindView::Float(Some(b)));
                    }
                },
                (None, None) => {
                    if env.root(a) != b {
                        lemma_set_wf(env, b, KindView::Float(Some(a)));
                    }
                },
            },
            _ => {},
        },
        KindView::Concrete(concrete_a) => match env.kind(b) {
            KindView::Int(b_to) => match concrete_a {
                ConcreteView::Path(path, _) => match b_to {
                    Some(to) => {
                        law_unify_frame(env, a, to, span);
                    },
                    None => {
                        if env.is_int_path(path) {
                            lemma_set_wf(env, b, KindView::Int(Some(a)));
                        }
                    },
                },
                _ => {},
            },
            KindView::Float(b_to) => match concrete_a {
                ConcreteView::Path(path, _) => match b_to {
                    Some(to) => {
                        law_unify_frame(env, a, to, span);
                    },
                    None => {
                        if env.is_float_path(path) {
                            lemma_set_wf(env, b, KindView::Float(Some(a)));
                        }
                    },
                },
                _ => {},
            },
            _ => {},
        },
    }
}

} // verus!
