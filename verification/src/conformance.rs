use vstd::prelude::*;
use crate::hir::{ApplyDecl, FnDecl, FnDeclIdx, Param, Path, PathView, TraitDecl};
use crate::intern::Word;
use crate::span::{FileId, FileSpan, InFile, Span, Spanned};
use crate::tenv::{TEnvView, lemma_insert_wf, lemma_rank, link_ok, some_rank};
use crate::ty::TypeId;
use crate::unify::{TChecker, TypeError, TypeErrorView, Unified, unify_model};
use crate::unify_laws::law_unify_frame;

verus! {

/// Why an apply block does not implement the trait it names.
#[derive(Clone, Debug, PartialEq, Eq)]
pub enum ConformanceError {
    /// The block names a trait that is not known.
    AppliedUnknownTrait { trt: Spanned<Path>, target: Span },
    /// The block has a method that the trait does not declare. `trt_methods`
    /// are the names of the methods that the trait does declare.
    AppliedUnknownMethodToTrait { trt: Spanned<Word>, method: Spanned<Word>, trt_methods: Vec<Word> },
    /// The block leaves out the methods `unimplemented_methods` of the trait.
    UnimplementedTraitMethods { trt: Spanned<Word>, target: Span, unimplemented_methods: Vec<Word> },
    /// The method is declared with `expected` parameters and implemented
    /// with `found`.
    IncorrectNumberParamsInMethodImpl {
        method: Spanned<Word>,
        expected: usize,
        found: usize,
        decl_params_span: Span,
        impl_params_span: Span,
    },
    /// A type of the implementation does not unify with the declared one.
    TypeError(TypeError),
}

pub enum ConformanceErrorView {
    AppliedUnknownTrait { trt: PathView, trt_span: Span, target: Span },
    AppliedUnknownMethodToTrait { trt: Spanned<Word>, method: Spanned<Word>, trt_methods: Seq<Word> },
    UnimplementedTraitMethods { trt: Spanned<Word>, target: Span, unimplemented_methods: Seq<Word> },
    IncorrectNumberParamsInMethodImpl {
        method: Spanned<Word>,
        expected: int,
        found: int,
        decl_params_span: Span,
        impl_params_span: Span,
    },
    TypeError(TypeErrorView),
}

impl View for ConformanceError {
    type V = ConformanceErrorView;

    open spec fn view(&self) -> ConformanceErrorView {
        match self {
            ConformanceError::AppliedUnknownTrait {
                trt,
                target,
            } => ConformanceErrorView::AppliedUnknownTrait {
                trt: trt.inner@,
                trt_span: trt.span,
                target: *target,
            },
            ConformanceError::AppliedUnknownMethodToTrait { trt, method, trt_methods } => {
                ConformanceErrorView::AppliedUnknownMethodToTrait {
                    trt: *trt,
                    method: *method,
                    trt_methods: trt_methods@,
                }
            },
            ConformanceError::UnimplementedTraitMethods { trt, target, unimplemented_methods } => {
                ConformanceErrorView::UnimplementedTraitMethods {
                    trt: *trt,
                    target: *target,
                    unimplemented_methods: unimplemented_methods@,
                }
            },
            ConformanceError::IncorrectNumberParamsInMethodImpl {
                method,
                expected,
                found,
                decl_params_span,
                impl_params_span,
            } => ConformanceErrorView::IncorrectNumberParamsInMethodImpl {
                method: *method,
                expected: *expected as int,
                found: *found as int,
                decl_params_span: *decl_params_span,
                impl_params_span: *impl_params_span,
            },
            ConformanceError::TypeError(error) => ConformanceErrorView::TypeError(error@),
        }
    }
}

/// What the check reads of a function: its name, its parameters and where
/// they are written, and its return type.
pub struct FnSig {
    pub name: Spanned<Word>,
    pub params: Seq<Param>,
    pub params_span: Span,
    pub return_ty: Spanned<TypeId>,
}

/// The signature of a function declaration.
pub open spec fn sig_of(decl: FnDecl) -> FnSig {
    FnSig {
        name: decl.name,
        params: decl.params.inner.0@,
        params_span: decl.params.span,
        return_ty: decl.return_ty,
    }
}

/// The signatures of the functions of a table, in order.
pub open spec fn sigs(functions: Seq<FnDecl>) -> Seq<FnSig> {
    Seq::new(functions.len(), |i: int| sig_of(functions[i]))
}

/// Whether every one of `methods` is a function of the table.
pub open spec fn methods_in(table: Seq<FnSig>, methods: Seq<FnDeclIdx>) -> bool {
    forall|i: int| 0 <= i < methods.len() ==> ((#[trigger] methods[i]).0 as int) < table.len()
}

/// Whether the types of a signature are entries of the arena.
pub open spec fn sig_in(env: TEnvView, sig: FnSig) -> bool {
    &&& env.has(sig.return_ty.inner)
    &&& forall|k: int| 0 <= k < sig.params.len() ==> env.has((#[trigger] sig.params[k]).ty.inner)
}

/// Whether the types of the signatures of `methods` are entries of the arena.
pub open spec fn sigs_in(env: TEnvView, table: Seq<FnSig>, methods: Seq<FnDeclIdx>) -> bool {
    forall|i: int|
        0 <= i < methods.len() ==> sig_in(env, table[(#[trigger] methods[i]).0 as int])
}

/// The names of `methods`, in order.
pub open spec fn method_names(table: Seq<FnSig>, methods: Seq<FnDeclIdx>) -> Seq<Word> {
    Seq::new(methods.len(), |i: int| table[methods[i].0 as int].name.inner)
}

/// The first of `methods` that bears the name `name`.
pub open spec fn find_method(table: Seq<FnSig>, methods: Seq<FnDeclIdx>, name: Word) -> Option<
    FnDeclIdx,
>
    decreases methods.len(),
{
    if methods.len() == 0 {
        None
    } else if table[methods[0].0 as int].name.inner == name {
        Some(methods[0])
    } else {
        find_method(table, methods.drop_first(), name)
    }
}

/// The names of those of `trait_methods`, in order, that none of
/// `apply_methods` implements.
pub open spec fn unimplemented(
    table: Seq<FnSig>,
    trait_methods: Seq<FnDeclIdx>,
    apply_methods: Seq<FnDeclIdx>,
) -> Seq<Word>
    decreases trait_methods.len(),
{
    if trait_methods.len() == 0 {
        Seq::empty()
    } else {
        let before = unimplemented(table, trait_methods.drop_last(), apply_methods);
        let name = table[trait_methods.last().0 as int].name.inner;
        if method_names(table, apply_methods).contains(name) {
            before
        } else {
            before.push(name)
        }
    }
}

/// How many entries the check of the methods from `at` on may add to the
/// arena: two for every return type and two for every parameter.
pub open spec fn space_needed(table: Seq<FnSig>, apply_methods: Seq<FnDeclIdx>, at: int) -> nat
    decreases apply_methods.len() - at,
{
    if at >= apply_methods.len() || at < 0 {
        0
    } else {
        2 * (1 + table[apply_methods[at].0 as int].params.len()) + space_needed(
            table,
            apply_methods,
            at + 1,
        )
    }
}

/// What a check leaves behind: the arena, and the error if it failed.
pub struct Checked {
    pub env: TEnvView,
    pub error: Option<ConformanceErrorView>,
}

/// Unifies a copy of the declared type with a copy of the implemented one.
/// Both copies are added to the arena first, the declared one before the
/// other, and it is the copies that are unified.
pub open spec fn unify_copies(
    env: TEnvView,
    declared: TypeId,
    implemented: TypeId,
    span: FileSpan,
) -> Unified {
    let with_declared = env.insert(env.kind(declared), env.span(declared));
    let with_both = with_declared.insert(env.kind(implemented), env.span(implemented));
    unify_model(
        with_both,
        TypeId(env.kinds.len() as usize),
        TypeId((env.kinds.len() + 1) as usize),
        span,
    )
}

/// Checks the parameters from `at` on, pairwise by position.
pub open spec fn check_params(
    env: TEnvView,
    declared: Seq<Param>,
    implemented: Seq<Param>,
    file_id: FileId,
    at: int,
) -> Checked
    decreases implemented.len() - at,
{
    if at >= implemented.len() || at >= declared.len() || at < 0 {
        Checked { env, error: None }
    } else {
        let unified = unify_copies(
            env,
            declared[at].ty.inner,
            implemented[at].ty.inner,
            InFile { file_id, inner: implemented[at].ty.span },
        );
        match unified.error {
            Some(error) => Checked {
                env: unified.env,
                error: Some(ConformanceErrorView::TypeError(error)),
            },
            None => check_params(unified.env, declared, implemented, file_id, at + 1),
        }
    }
}

/// Checks one implemented method against its declaration: the return types
/// must unify, then the numbers of parameters must agree, then the
/// parameters must unify pairwise by position. Their names are not compared.
pub open spec fn check_method(
    env: TEnvView,
    declared: FnSig,
    implemented: FnSig,
    file_id: FileId,
) -> Checked {
    let unified = unify_copies(
        env,
        declared.return_ty.inner,
        implemented.return_ty.inner,
        InFile { file_id, inner: implemented.return_ty.span },
    );
    match unified.error {
        Some(error) => Checked {
            env: unified.env,
            error: Some(ConformanceErrorView::TypeError(error)),
        },
        None => if declared.params.len() != implemented.params.len() {
            Checked {
                env: unified.env,
                error: Some(
                    ConformanceErrorView::IncorrectNumberParamsInMethodImpl {
                        method: implemented.name,
                        expected: declared.params.len() as int,
                        found: implemented.params.len() as int,
                        decl_params_span: declared.params_span,
                        impl_params_span: implemented.params_span,
                    },
                ),
            }
        } else {
            check_params(unified.env, declared.params, implemented.params, file_id, 0)
        },
    }
}

/// Checks the implemented methods from `at` on, in order, and stops at the
/// first error: a method that the trait does not declare, or one that does
/// not fit its declaration.
pub open spec fn check_methods(
    env: TEnvView,
    table: Seq<FnSig>,
    trait_name: Spanned<Word>,
    trait_methods: Seq<FnDeclIdx>,
    apply_methods: Seq<FnDeclIdx>,
    file_id: FileId,
    at: int,
) -> Checked
    decreases apply_methods.len() - at,
{
    if at >= apply_methods.len() || at < 0 {
        Checked { env, error: None }
    } else {
        let implemented = table[apply_methods[at].0 as int];
        match find_method(table, trait_methods, implemented.name.inner) {
            None => Checked {
                env,
                error: Some(
                    ConformanceErrorView::AppliedUnknownMethodToTrait {
                        trt: trait_name,
                        method: implemented.name,
                        trt_methods: method_names(table, trait_methods),
                    },
                ),
            },
            Some(declared) => {
                let checked = check_method(env, table[declared.0 as int], implemented, file_id);
                match checked.error {
                    Some(_) => checked,
                    None => check_methods(
                        checked.env,
                        table,
                        trait_name,
                        trait_methods,
                        apply_methods,
                        file_id,
                        at + 1,
                    ),
                }
            },
        }
    }
}

/// What checking an apply block against a trait comes to: the first error
/// among its methods, or else, where methods of the trait are left out, one
/// error that lists them all.
pub open spec fn check_model(
    env: TEnvView,
    table: Seq<FnSig>,
    trait_name: Spanned<Word>,
    trait_methods: Seq<FnDeclIdx>,
    apply_methods: Seq<FnDeclIdx>,
    target: Span,
    file_id: FileId,
) -> Checked {
    let checked = check_methods(env, table, trait_name, trait_methods, apply_methods, file_id, 0);
    match checked.error {
        Some(_) => checked,
        None => {
            let missing = unimplemented(table, trait_methods, apply_methods);
            if missing.len() == 0 {
                checked
            } else {
                Checked {
                    env: checked.env,
                    error: Some(
                        ConformanceErrorView::UnimplementedTraitMethods {
                            trt: trait_name,
                            target,
                            unimplemented_methods: missing,
                        },
                    ),
                }
            }
        },
    }
}

/// What checking an apply block comes to, given the declaration that the
/// trait it names resolved to, if it names one and that resolved.
///
/// A block that names no trait has nothing to conform to. One that names an
/// unknown trait is an error. Otherwise the block is checked against the
/// trait's declaration, with the block's target type as the target.
pub open spec fn check_apply_decl_model(
    env: TEnvView,
    table: Seq<FnSig>,
    apply_decl: &ApplyDecl,
    trait_decl: Option<&TraitDecl>,
    file_id: FileId,
) -> Checked {
    match apply_decl.trt {
        None => Checked { env, error: None },
        Some(path) => match trait_decl {
            None => Checked {
                env,
                error: Some(
                    ConformanceErrorView::AppliedUnknownTrait {
                        trt: path.inner@,
                        trt_span: path.span,
                        target: apply_decl.to_ty.span,
                    },
                ),
            },
            Some(decl) => check_model(
                env,
                table,
                decl.name,
                decl.methods@,
                apply_decl.methods@,
                apply_decl.to_ty.span,
                file_id,
            ),
        },
    }
}

/// Whether `result` is the outcome `checked`.
pub open spec fn outcome_is(result: Result<(), ConformanceError>, checked: Checked) -> bool {
    match result {
        Ok(_) => checked.error is None,
        Err(error) => checked.error == Some(error@),
    }
}

/// Unifying two copies adds two entries, keeps every handle a handle, and
/// leaves the arena well-formed.
pub proof fn lemma_unify_copies(env: TEnvView, declared: TypeId, implemented: TypeId, span: FileSpan)
    requires
        env.wf(),
        env.has(declared),
        env.has(implemented),
        env.kinds.len() + 2 <= usize::MAX,
    ensures
        ({
            let after = unify_copies(env, declared, implemented, span).env;
            &&& after.wf()
            &&& after.kinds.len() == env.kinds.len() + 2
            &&& forall|id: TypeId| env.has(id) ==> #[trigger] after.has(id)
        }),
{
    lemma_rank(env);
    assert(link_ok(env.kinds, some_rank(env.kinds), declared.0 as int));
    assert(link_ok(env.kinds, some_rank(env.kinds), implemented.0 as int));
    let with_declared = env.insert(env.kind(declared), env.span(declared));
    lemma_insert_wf(env, env.kind(declared), env.span(declared));
    let with_both = with_declared.insert(env.kind(implemented), env.span(implemented));
    lemma_insert_wf(with_declared, env.kind(implemented), env.span(implemented));
    let a = TypeId(env.kinds.len() as usize);
    let b = TypeId((env.kinds.len() + 1) as usize);
    let after = unify_copies(env, declared, implemented, span).env;
    law_unify_frame(with_both, a, b, span);
}

/// The first of `methods` that bears the name `name`.
pub fn find_trait_method(functions: &Vec<FnDecl>, methods: &Vec<FnDeclIdx>, name: Word) -> (found:
    Option<FnDeclIdx>)
    requires
        methods_in(sigs(functions@), methods@),
    ensures
        found == find_method(sigs(functions@), methods@, name),
        found matches Some(idx) ==> methods@.contains(idx),
{
    let ghost table = sigs(functions@);
    let mut i: usize = 0;
    assert(methods@.skip(0) =~= methods@);
    while i < methods.len()
        invariant
            i <= methods.len(),
            table == sigs(functions@),
            methods_in(table, methods@),
            find_method(table, methods@, name) == find_method(table, methods@.skip(i as int), name),
        decreases methods.len() - i,
    {
        let idx = methods[i];
        assert(methods@.skip(i as int).drop_first() =~= methods@.skip(i + 1));
        assert(methods@.skip(i as int)[0] == methods@[i as int]);
        if functions[idx.0 as usize].name.inner == name {
            return Some(idx);
        }
        i += 1;
    }
    None
}

/// The names of `methods`, in order.
pub fn names_of(functions: &Vec<FnDecl>, methods: &Vec<FnDeclIdx>) -> (names: Vec<Word>)
    requires
        methods_in(sigs(functions@), methods@),
    ensures
        names@ == method_names(sigs(functions@), methods@),
{
    let mut names: Vec<Word> = Vec::new();
    let mut i: usize = 0;
    while i < methods.len()
        invariant
            i <= methods.len(),
            methods_in(sigs(functions@), methods@),
            names@ == method_names(sigs(functions@), methods@).take(i as int),
        decreases methods.len() - i,
    {
        let ghost before = names@;
        names.push(functions[methods[i].0 as usize].name.inner);
        assert(names@ =~= method_names(sigs(functions@), methods@).take(i + 1));
        i += 1;
    }
    assert(method_names(sigs(functions@), methods@).take(methods.len() as int)
        =~= method_names(sigs(functions@), methods@));
    names
}

/// Whether `names` holds `name`.
pub fn names_contain(names: &Vec<Word>, name: Word) -> (found: bool)
    ensures
        found == names@.contains(name),
{
    let mut i: usize = 0;
    while i < names.len()
        invariant
            i <= names.len(),
            forall|j: int| 0 <= j < i ==> names@[j] != name,
        decreases names.len() - i,
    {
        if names[i] == name {
            return true;
        }
        i += 1;
    }
    false
}

/// The names of those of `trait_methods`, in order, that none of
/// `apply_methods` implements.
pub fn unimplemented_methods(
    functions: &Vec<FnDecl>,
    trait_methods: &Vec<FnDeclIdx>,
    apply_methods: &Vec<FnDeclIdx>,
) -> (missing: Vec<Word>)
    requires
        methods_in(sigs(functions@), trait_methods@),
        methods_in(sigs(functions@), apply_methods@),
    ensures
        missing@ == unimplemented(sigs(functions@), trait_methods@, apply_methods@),
{
    let ghost table = sigs(functions@);
    let implemented = names_of(functions, apply_methods);
    let mut missing: Vec<Word> = Vec::new();
    let mut i: usize = 0;
    while i < trait_methods.len()
        invariant
            i <= trait_methods.len(),
            table == sigs(functions@),
            methods_in(table, trait_methods@),
            implemented@ == method_names(table, apply_methods@),
            missing@ == unimplemented(table, trait_methods@.take(i as int), apply_methods@),
        decreases trait_methods.len() - i,
    {
        assert(trait_methods@.take(i + 1).drop_last() =~= trait_methods@.take(i as int));
        let name = functions[trait_methods[i].0 as usize].name.inner;
        if !names_contain(&implemented, name) {
            missing.push(name);
        }
        i += 1;
    }
    assert(trait_methods@.take(trait_methods.len() as int) =~= trait_methods@);
    missing
}

impl TChecker {
    /// Adds a copy of the entry `declared` and a copy of the entry
    /// `implemented` to the arena and unifies the two copies.
    pub fn unify_copies(&mut self, declared: TypeId, implemented: TypeId, span: FileSpan) -> (result:
        Result<(), TypeError>)
        requires
            old(self).tenv@.has(declared),
            old(self).tenv@.has(implemented),
            old(self).tenv@.kinds.len() + 2 <= usize::MAX,
        ensures
            final(self).tenv@ == unify_copies(old(self).tenv@, declared, implemented, span).env,
            final(self).tenv@.wf(),
            final(self).tenv@.kinds.len() == old(self).tenv@.kinds.len() + 2,
            match result {
                Ok(_) => unify_copies(old(self).tenv@, declared, implemented, span).error is None,
                Err(error) => unify_copies(old(self).tenv@, declared, implemented, span).error
                    == Some(error@),
            },
    {
        self.tenv.well_formed();
        proof {
            let env = self.tenv@;
            lemma_unify_copies(env, declared, implemented, span);
            lemma_rank(env);
            assert(link_ok(env.kinds, some_rank(env.kinds), declared.0 as int));
            assert(link_ok(env.kinds, some_rank(env.kinds), implemented.0 as int));
        }
        let declared_kind = self.tenv.get(declared).clone();
        let declared_span = self.tenv.get_span(declared);
        let implemented_kind = self.tenv.get(implemented).clone();
        let implemented_span = self.tenv.get_span(implemented);
        let a = self.tenv.insert(declared_kind, declared_span);
        let b = self.tenv.insert(implemented_kind, implemented_span);
        self.unify(a, b, span)
    }

    /// Checks one implemented method against its declaration: see `check_method`.
    pub fn validate_trait_method_implementation(
        &mut self,
        method_decl: &FnDecl,
        method_impl: &FnDecl,
        file_id: FileId,
    ) -> (result: Result<(), ConformanceError>)
        requires
            sig_in(old(self).tenv@, sig_of(*method_decl)),
            sig_in(old(self).tenv@, sig_of(*method_impl)),
            old(self).tenv@.kinds.len() + 2 * (1 + method_impl.params.inner.0@.len())
                <= usize::MAX,
        ensures
            final(self).tenv@ == check_method(
                old(self).tenv@,
                sig_of(*method_decl),
                sig_of(*method_impl),
                file_id,
            ).env,
            outcome_is(
                result,
                check_method(old(self).tenv@, sig_of(*method_decl), sig_of(*method_impl), file_id),
            ),
            final(self).tenv@.wf(),
            old(self).tenv@.kinds.len() <= final(self).tenv@.kinds.len() <= old(
                self,
            ).tenv@.kinds.len() + 2 * (1 + method_impl.params.inner.0@.len()),
    {
        self.tenv.well_formed();
        let ghost declared = sig_of(*method_decl);
        let ghost implemented = sig_of(*method_impl);
        let ghost start = self.tenv@;
        match self.unify_copies(
            method_decl.return_ty.inner,
            method_impl.return_ty.inner,
            method_impl.return_ty.span.in_file(file_id),
        ) {
            Ok(_) => {},
            Err(error) => {
                return Err(ConformanceError::TypeError(error));
            },
        }
        let method_decl_params = method_decl.params.inner.0.len();
        let method_impl_params = method_impl.params.inner.0.len();
        if method_decl_params != method_impl_params {
            return Err(
                ConformanceError::IncorrectNumberParamsInMethodImpl {
                    method: method_impl.name,
                    expected: method_decl_params,
                    found: method_impl_params,
                    decl_params_span: method_decl.params.span,
                    impl_params_span: method_impl.params.span,
                },
            );
        }
        let ghost after_return = self.tenv@;
        let mut i: usize = 0;
        while i < method_impl_params
            invariant
                i <= method_impl_params,
                method_impl_params == implemented.params.len(),
                method_decl_params == method_impl_params,
                declared == sig_of(*method_decl),
                implemented == sig_of(*method_impl),
                declared.params.len() == method_decl_params,
                self.tenv@.wf(),
                sig_in(self.tenv@, declared),
                sig_in(self.tenv@, implemented),
                self.tenv@.kinds.len() == start.kinds.len() + 2 + 2 * i,
                start.kinds.len() + 2 * (1 + method_impl_params) <= usize::MAX,
                start == old(self).tenv@,
                check_method(start, declared, implemented, file_id) == check_params(
                    after_return,
                    declared.params,
                    implemented.params,
                    file_id,
                    0,
                ),
                check_params(after_return, declared.params, implemented.params, file_id, 0)
                    == check_params(
                    self.tenv@,
                    declared.params,
                    implemented.params,
                    file_id,
                    i as int,
                ),
            decreases method_impl_params - i,
        {
            let decl_param = method_decl.params.inner.0[i];
            let impl_param = method_impl.params.inner.0[i];
            let ghost before = self.tenv@;
            proof {
                assert(decl_param == declared.params[i as int]);
                assert(impl_param == implemented.params[i as int]);
                lemma_unify_copies(
                    before,
                    decl_param.ty.inner,
                    impl_param.ty.inner,
                    InFile { file_id, inner: impl_param.ty.span },
                );
            }
            match self.unify_copies(
                decl_param.ty.inner,
                impl_param.ty.inner,
                impl_param.ty.span.in_file(file_id),
            ) {
                Ok(_) => {},
                Err(error) => {
                    return Err(ConformanceError::TypeError(error));
                },
            }
            i += 1;
        }
        Ok(())
    }

    /// Checks that the apply block `apply_decl` implements the trait
    /// `trait_decl`; the methods of both are functions of `functions`, and
    /// `target` is where the block's target type is written.
    ///
    /// The outcome and the arena afterwards are as `check_model` says: every
    /// method of the block must be declared by the trait and fit its
    /// declaration, and every method of the trait must be implemented.
    pub fn check_apply_block(
        &mut self,
        apply_decl: &ApplyDecl,
        trait_decl: &TraitDecl,
        functions: &Vec<FnDecl>,
        target: Span,
        file_id: FileId,
    ) -> (result: Result<(), ConformanceError>)
        requires
            methods_in(sigs(functions@), trait_decl.methods@),
            methods_in(sigs(functions@), apply_decl.methods@),
            sigs_in(old(self).tenv@, sigs(functions@), trait_decl.methods@),
            sigs_in(old(self).tenv@, sigs(functions@), apply_decl.methods@),
            old(self).tenv@.kinds.len() + space_needed(sigs(functions@), apply_decl.methods@, 0)
                <= usize::MAX,
        ensures
            final(self).tenv@ == check_model(
                old(self).tenv@,
                sigs(functions@),
                trait_decl.name,
                trait_decl.methods@,
                apply_decl.methods@,
                target,
                file_id,
            ).env,
            outcome_is(
                result,
                check_model(
                    old(self).tenv@,
                    sigs(functions@),
                    trait_decl.name,
                    trait_decl.methods@,
                    apply_decl.methods@,
                    target,
                    file_id,
                ),
            ),
            final(self).tenv@.wf(),
    {
        self.tenv.well_formed();
        let ghost table = sigs(functions@);
        let ghost start = self.tenv@;
        let ghost trait_methods = trait_decl.methods@;
        let ghost apply_methods = apply_decl.methods@;
        let mut i: usize = 0;
        while i < apply_decl.methods.len()
            invariant
                i <= apply_decl.methods.len(),
                table == sigs(functions@),
                trait_methods == trait_decl.methods@,
                apply_methods == apply_decl.methods@,
                methods_in(table, trait_methods),
                methods_in(table, apply_methods),
                start == old(self).tenv@,
                self.tenv@.wf(),
                sigs_in(self.tenv@, table, trait_methods),
                sigs_in(self.tenv@, table, apply_methods),
                self.tenv@.kinds.len() + space_needed(table, apply_methods, i as int)
                    <= usize::MAX,
                check_methods(
                    start,
                    table,
                    trait_decl.name,
                    trait_methods,
                    apply_methods,
                    file_id,
                    0,
                ) == check_methods(
                    self.tenv@,
                    table,
                    trait_decl.name,
                    trait_methods,
                    apply_methods,
                    file_id,
                    i as int,
                ),
            decreases apply_decl.methods.len() - i,
        {
            let method = &functions[apply_decl.methods[i].0 as usize];
            assert(sig_of(*method) == table[apply_methods[i as int].0 as int]);
            let ghost before = self.tenv@;
            match find_trait_method(functions, &trait_decl.methods, method.name.inner) {
                Some(idx) => {
                    let method_decl = &functions[idx.0 as usize];
                    assert(sig_of(*method_decl) == table[idx.0 as int]);
                    match self.validate_trait_method_implementation(method_decl, method, file_id) {
                        Ok(_) => {},
                        Err(error) => {
                            return Err(error);
                        },
                    }
                    proof {
                        lemma_sigs_stay_in(before, self.tenv@, table, trait_methods);
                        lemma_sigs_stay_in(before, self.tenv@, table, apply_methods);
                    }
                },
                None => {
                    return Err(
                        ConformanceError::AppliedUnknownMethodToTrait {
                            trt: trait_decl.name,
                            method: method.name,
                            trt_methods: names_of(functions, &trait_decl.methods),
                        },
                    );
                },
            }
            i += 1;
        }
        let missing = unimplemented_methods(functions, &trait_decl.methods, &apply_decl.methods);
        if missing.len() > 0 {
            return Err(
                ConformanceError::UnimplementedTraitMethods {
                    trt: trait_decl.name,
                    target,
                    unimplemented_methods: missing,
                },
            );
        }
        Ok(())
    }

    /// Checks an apply block where it names a trait: `trait_decl` is the
    /// declaration that the named trait resolved to, if it resolved.
    ///
    /// A block that names no trait has nothing to conform to. One that names
    /// an unknown trait is an error. Otherwise see `check_apply_block`.
    pub fn check_apply_decl(
        &mut self,
        apply_decl: &ApplyDecl,
        trait_decl: Option<&TraitDecl>,
        functions: &Vec<FnDecl>,
        file_id: FileId,
    ) -> (result: Result<(), ConformanceError>)
        requires
            apply_decl.trt is Some && trait_decl is Some ==> {
                &&& methods_in(sigs(functions@), trait_decl->0.methods@)
                &&& methods_in(sigs(functions@), apply_decl.methods@)
                &&& sigs_in(old(self).tenv@, sigs(functions@), trait_decl->0.methods@)
                &&& sigs_in(old(self).tenv@, sigs(functions@), apply_decl.methods@)
                &&& old(self).tenv@.kinds.len() + space_needed(
                    sigs(functions@),
                    apply_decl.methods@,
                    0,
                ) <= usize::MAX
            },
        ensures
            final(self).tenv@ == check_apply_decl_model(
                old(self).tenv@,
                sigs(functions@),
                apply_decl,
                trait_decl,
                file_id,
            ).env,
            outcome_is(
                result,
                check_apply_decl_model(
                    old(self).tenv@,
                    sigs(functions@),
                    apply_decl,
                    trait_decl,
                    file_id,
                ),
            ),
    {
        match &apply_decl.trt {
            None => Ok(()),
            Some(path) => match trait_decl {
                None => Err(
                    ConformanceError::AppliedUnknownTrait {
                        trt: crate::path_res::copy_path(path),
                        target: apply_decl.to_ty.span,
                    },
                ),
                Some(decl) => self.check_apply_block(
                    apply_decl,
                    decl,
                    functions,
                    apply_decl.to_ty.span,
                    file_id,
                ),
            },
        }
    }
}

/// Handles stay handles as an arena grows, so signatures stay within it.
pub proof fn lemma_sigs_stay_in(
    before: TEnvView,
    after: TEnvView,
    table: Seq<FnSig>,
    methods: Seq<FnDeclIdx>,
)
    requires
        sigs_in(before, table, methods),
        before.kinds.len() <= after.kinds.len(),
    ensures
        sigs_in(after, table, methods),
{
    assert forall|i: int| 0 <= i < methods.len() implies sig_in(
        after,
        table[(#[trigger] methods[i]).0 as int],
    ) by {
        assert(sig_in(before, table[methods[i].0 as int]));
    }
}

/// Whether no two of `methods` bear the same name.
pub open spec fn unique_names(table: Seq<FnSig>, methods: Seq<FnDeclIdx>) -> bool {
    forall|i: int, j: int|
        0 <= i < j < methods.len() ==> table[(#[trigger] methods[i]).0 as int].name.inner
            != table[(#[trigger] methods[j]).0 as int].name.inner
}

/// The position of the first of `methods` that bears the name `name`, or the
/// number of methods where none does.
pub open spec fn name_position(table: Seq<FnSig>, methods: Seq<FnDeclIdx>, name: Word) -> int
    decreases methods.len(),
{
    if methods.len() == 0 {
        0
    } else if table[methods[0].0 as int].name.inner == name {
        0
    } else {
        1 + name_position(table, methods.drop_first(), name)
    }
}

/// The position of a name is one of the list or its length, it is the
/// position of a method of that name, and no method before it bears the name.
pub proof fn lemma_name_position(table: Seq<FnSig>, methods: Seq<FnDeclIdx>, name: Word)
    ensures
        0 <= name_position(table, methods, name) <= methods.len(),
        name_position(table, methods, name) < methods.len() ==> table[methods[name_position(
            table,
            methods,
            name,
        )].0 as int].name.inner == name,
        forall|k: int|
            0 <= k < name_position(table, methods, name) ==> table[(#[trigger] methods[k]).0 as int].name.inner
                != name,
    decreases methods.len(),
{
    if methods.len() > 0 && table[methods[0].0 as int].name.inner != name {
        let rest = methods.drop_first();
        lemma_name_position(table, rest, name);
        assert forall|k: int| 0 <= k < name_position(table, methods, name) implies table[(
        #[trigger] methods[k]).0 as int].name.inner != name by {
            if k > 0 {
                assert(rest[k - 1] == methods[k]);
            }
        }
    }
}

/// Puts `method`, a function of `functions`, among `methods`: in the place of
/// the first method of the same name where there is one, and after the
/// others where there is none. Names that were unique stay unique.
pub fn replace_or_add(methods: &mut Vec<FnDeclIdx>, functions: &Vec<FnDecl>, method: FnDeclIdx)
    requires
        methods_in(sigs(functions@), old(methods)@),
        (method.0 as int) < functions@.len(),
    ensures
        ({
            let table = sigs(functions@);
            let name = table[method.0 as int].name.inner;
            let position = name_position(table, old(methods)@, name);
            &&& final(methods)@ == (if position < old(methods)@.len() {
                old(methods)@.update(position, method)
            } else {
                old(methods)@.push(method)
            })
            &&& methods_in(table, final(methods)@)
            &&& unique_names(table, old(methods)@) ==> unique_names(table, final(methods)@)
        }),
{
    let ghost table = sigs(functions@);
    let ghost before = methods@;
    let name = functions[method.0 as usize].name.inner;
    proof {
        lemma_name_position(table, before, name);
    }
    let mut i: usize = 0;
    assert(before.skip(0) =~= before);
    while i < methods.len()
        invariant
            i <= methods.len(),
            table == sigs(functions@),
            methods@ == before,
            before == old(methods)@,
            methods_in(table, before),
            (method.0 as int) < functions@.len(),
            name == table[method.0 as int].name.inner,
            name_position(table, before, name) == i + name_position(
                table,
                before.skip(i as int),
                name,
            ),
        decreases methods.len() - i,
    {
        assert(before.skip(i as int).drop_first() =~= before.skip(i + 1));
        assert(before.skip(i as int)[0] == before[i as int]);
        if functions[methods[i].0 as usize].name.inner == name {
            methods.set(i, method);
            proof {
                let after = methods@;
                assert forall|a: int, b: int|
                    unique_names(table, before) && 0 <= a < b < after.len() implies table[(
                #[trigger] after[a]).0 as int].name.inner != table[(
                #[trigger] after[b]).0 as int].name.inner by {
                    assert(table[before[a].0 as int].name.inner
                        != table[before[b].0 as int].name.inner);
                }
            }
            return ;
        }
        i += 1;
    }
    methods.push(method);
    proof {
        let after = methods@;
        assert forall|a: int, b: int|
            unique_names(table, before) && 0 <= a < b < after.len() implies table[(
        #[trigger] after[a]).0 as int].name.inner != table[(
        #[trigger] after[b]).0 as int].name.inner by {
            if b < before.len() {
                assert(table[before[a].0 as int].name.inner
                    != table[before[b].0 as int].name.inner);
            } else {
                assert(after[a] == before[a]);
            }
        }
    }
}

impl TraitDecl {
    /// Declares the method `method`, a function of `functions`. A method of
    /// the same name that the trait declares already is replaced, so that
    /// the names of a trait's methods stay unique; otherwise the method is
    /// added after the others.
    pub fn declare_method(&mut self, functions: &Vec<FnDecl>, method: FnDeclIdx)
        requires
            methods_in(sigs(functions@), old(self).methods@),
            (method.0 as int) < functions@.len(),
        ensures
            ({
                let table = sigs(functions@);
                let name = table[method.0 as int].name.inner;
                let position = name_position(table, old(self).methods@, name);
                &&& final(self).methods@ == (if position < old(self).methods@.len() {
                    old(self).methods@.update(position, method)
                } else {
                    old(self).methods@.push(method)
                })
                &&& methods_in(table, final(self).methods@)
                &&& unique_names(table, old(self).methods@) ==> unique_names(
                    table,
                    final(self).methods@,
                )
            }),
            final(self).name == old(self).name,
            final(self).visibility == old(self).visibility,
            final(self).generic_params == old(self).generic_params,
            final(self).assoc_type_decls == old(self).assoc_type_decls,
    {
        replace_or_add(&mut self.methods, functions, method);
    }
}

} // verus!
