use vstd::prelude::*;
use crate::conformance::{Checked, ConformanceErrorView, FnSig, check_method, check_methods, check_model, find_method, method_names, unify_copies, unimplemented};
use crate::hir::FnDeclIdx;
use crate::intern::Word;
use crate::span::{FileId, InFile, Span, Spanned};
use crate::tenv::TEnvView;

verus! {

/// A method is found among a trait's methods exactly when one of them bears
/// its name, and what is found bears the name.
pub proof fn law_find_method(table: Seq<FnSig>, methods: Seq<FnDeclIdx>, name: Word)
    ensures
        find_method(table, methods, name) is Some <==> method_names(table, methods).contains(name),
        find_method(table, methods, name) matches Some(idx) ==> table[idx.0 as int].name.inner
            == name && methods.contains(idx),
    decreases methods.len(),
{
    let names = method_names(table, methods);
    if methods.len() > 0 {
        if table[methods[0].0 as int].name.inner == name {
            assert(names[0] == name);
            assert(methods[0] == methods[0]);
        } else {
            let rest = methods.drop_first();
            law_find_method(table, rest, name);
            let rest_names = method_names(table, rest);
            if rest_names.contains(name) {
                let k = choose|k: int| 0 <= k < rest_names.len() && rest_names[k] == name;
                assert(names[k + 1] == name);
            }
            if names.contains(name) {
                let k = choose|k: int| 0 <= k < names.len() && names[k] == name;
                assert(rest_names[k - 1] == name);
            }
            match find_method(table, rest, name) {
                Some(idx) => {
                    let k = choose|k: int| 0 <= k < rest.len() && rest[k] == idx;
                    assert(methods[k + 1] == idx);
                },
                None => {},
            }
        }
    }
}

/// The methods reported as unimplemented are exactly the methods of the
/// trait that no method of the apply block bears the name of.
pub proof fn law_unimplemented_are_the_missing(
    table: Seq<FnSig>,
    trait_methods: Seq<FnDeclIdx>,
    apply_methods: Seq<FnDeclIdx>,
    name: Word,
)
    ensures
        unimplemented(table, trait_methods, apply_methods).contains(name) <==> (method_names(
            table,
            trait_methods,
        ).contains(name) && !method_names(table, apply_methods).contains(name)),
    decreases trait_methods.len(),
{
    let names = method_names(table, trait_methods);
    if trait_methods.len() > 0 {
        let front = trait_methods.drop_last();
        let front_names = method_names(table, front);
        let last = table[trait_methods.last().0 as int].name.inner;
        law_unimplemented_are_the_missing(table, front, apply_methods, name);
        let before = unimplemented(table, front, apply_methods);
        let all = unimplemented(table, trait_methods, apply_methods);
        assert(names.last() == last);
        if front_names.contains(name) {
            let k = choose|k: int| 0 <= k < front_names.len() && front_names[k] == name;
            assert(names[k] == name);
        }
        if names.contains(name) && name != last {
            let k = choose|k: int| 0 <= k < names.len() && names[k] == name;
            assert(front_names[k] == name);
        }
        if method_names(table, apply_methods).contains(last) {
            assert(all == before);
        } else {
            assert(all == before.push(last));
            assert(all.last() == last);
            if before.contains(name) {
                let k = choose|k: int| 0 <= k < before.len() && before[k] == name;
                assert(all[k] == name);
            }
            if all.contains(name) && name != last {
                let k = choose|k: int| 0 <= k < all.len() && all[k] == name;
                assert(before[k] == name);
            }
        }
    }
}

/// Where every method of the block fits the trait, the block conforms
/// exactly when no method of the trait is left out; otherwise the one error
/// lists all the methods left out.
pub proof fn law_missing_methods_are_reported_together(
    env: TEnvView,
    table: Seq<FnSig>,
    trait_name: Spanned<Word>,
    trait_methods: Seq<FnDeclIdx>,
    apply_methods: Seq<FnDeclIdx>,
    target: Span,
    file_id: FileId,
)
    requires
        check_methods(env, table, trait_name, trait_methods, apply_methods, file_id, 0).error
            is None,
    ensures
        ({
            let checked = check_model(
                env,
                table,
                trait_name,
                trait_methods,
                apply_methods,
                target,
                file_id,
            );
            let missing = unimplemented(table, trait_methods, apply_methods);
            &&& missing.len() == 0 ==> checked.error is None
            &&& missing.len() > 0 ==> checked.error == Some(
                ConformanceErrorView::UnimplementedTraitMethods {
                    trt: trait_name,
                    target,
                    unimplemented_methods: missing,
                },
            )
        }),
{
}

/// A method of the block that the trait does not declare is an error that
/// names the method and lists the methods that the trait does declare, and
/// the arena stays as it is.
pub proof fn law_unknown_method_is_reported(
    env: TEnvView,
    table: Seq<FnSig>,
    trait_name: Spanned<Word>,
    trait_methods: Seq<FnDeclIdx>,
    apply_methods: Seq<FnDeclIdx>,
    file_id: FileId,
    at: int,
)
    requires
        0 <= at < apply_methods.len(),
        !method_names(table, trait_methods).contains(
            table[apply_methods[at].0 as int].name.inner,
        ),
    ensures
        check_methods(env, table, trait_name, trait_methods, apply_methods, file_id, at) == (Checked {
            env,
            error: Some(
                ConformanceErrorView::AppliedUnknownMethodToTrait {
                    trt: trait_name,
                    method: table[apply_methods[at].0 as int].name,
                    trt_methods: method_names(table, trait_methods),
                },
            ),
        }),
{
    law_find_method(table, trait_methods, table[apply_methods[at].0 as int].name.inner);
}

/// A method implemented with another number of parameters than it is
/// declared with never passes: where the return types unify, the error is
/// the one that gives both numbers.
pub proof fn law_param_count_mismatch_is_reported(
    env: TEnvView,
    declared: FnSig,
    implemented: FnSig,
    file_id: FileId,
)
    requires
        declared.params.len() != implemented.params.len(),
    ensures
        check_method(env, declared, implemented, file_id).error is Some,
        unify_copies(
            env,
            declared.return_ty.inner,
            implemented.return_ty.inner,
            InFile { file_id, inner: implemented.return_ty.span },
        ).error is None ==> check_method(env, declared, implemented, file_id).error == Some(
            ConformanceErrorView::IncorrectNumberParamsInMethodImpl {
                method: implemented.name,
                expected: declared.params.len() as int,
                found: implemented.params.len() as int,
                decl_params_span: declared.params_span,
                impl_params_span: implemented.params_span,
            },
        ),
{
}

} // verus!
