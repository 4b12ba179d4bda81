use flux_core::span::{FileId, FileSpan, Span};
use flux_core::tenv::TEnv;
use flux_core::ty::{ConcreteKind, Generic, TraitRestriction, TypeId, TypeKind};
use flux_core::unify::{TChecker, TypeError};
use lasso::{Key, ThreadedRodeo};

fn at(start: u32, end: u32) -> FileSpan {
    Span::new(start, end).in_file(FileId(0))
}

fn word(interner: &ThreadedRodeo, text: &str) -> u32 {
    interner.get_or_intern(text).into_usize() as u32
}

fn named(interner: &ThreadedRodeo, text: &str) -> TypeKind {
    TypeKind::Concrete(ConcreteKind::Path(vec![word(interner, text)], vec![]))
}

fn checker_with_numbers(interner: &ThreadedRodeo) -> TChecker {
    let mut env = TEnv::new();
    for name in ["i8", "i16", "i32", "i64", "u8", "u16", "u32", "u64"] {
        env.register_int_path(vec![word(interner, name)]);
    }
    for name in ["f32", "f64"] {
        env.register_float_path(vec![word(interner, name)]);
    }
    TChecker::new(env)
}

#[test]
fn arena_hands_out_handles_in_order() {
    let interner = ThreadedRodeo::new();
    let mut env = TEnv::new();
    assert_eq!(env.len(), 0);
    let a = env.insert(TypeKind::Unknown, at(0, 1));
    let b = env.insert(TypeKind::Never, at(1, 2));
    let c = env.insert(named(&interner, "i32"), at(2, 5));
    assert_eq!((a, b, c), (TypeId(0), TypeId(1), TypeId(2)));
    assert_eq!(env.len(), 3);
    assert!(env.contains(c));
    assert!(!env.contains(TypeId(3)));
    assert_eq!(env.get(a), &TypeKind::Unknown);
    assert_eq!(env.get(b), &TypeKind::Never);
    assert_eq!(env.get(c), &named(&interner, "i32"));
    assert_eq!(env.get_span(c), at(2, 5));
}

#[test]
fn arena_set_overwrites_in_place() {
    let interner = ThreadedRodeo::new();
    let mut env = TEnv::new();
    let a = env.insert(TypeKind::Unknown, at(0, 1));
    let b = env.insert(TypeKind::Unknown, at(1, 2));
    env.set(a, named(&interner, "bool"));
    assert_eq!(env.get(a), &named(&interner, "bool"));
    assert_eq!(env.get(b), &TypeKind::Unknown);
    assert_eq!(env.get_span(a), at(0, 1));
    assert_eq!(env.len(), 2);
}

#[test]
fn arena_resolve_follows_deferrals() {
    let interner = ThreadedRodeo::new();
    let mut env = TEnv::new();
    let concrete = env.insert(named(&interner, "i32"), at(0, 1));
    let first = env.insert(TypeKind::Int(Some(concrete)), at(1, 2));
    let second = env.insert(TypeKind::Int(Some(first)), at(2, 3));
    let alone = env.insert(TypeKind::Int(None), at(3, 4));
    assert_eq!(env.resolve(second), concrete);
    assert_eq!(env.resolve(first), concrete);
    assert_eq!(env.resolve(concrete), concrete);
    assert_eq!(env.resolve(alone), alone);
}

#[test]
fn registries_know_what_was_registered() {
    let interner = ThreadedRodeo::new();
    let checker = checker_with_numbers(&interner);
    assert!(checker.tenv.is_int_path(&vec![word(&interner, "i32")]));
    assert!(!checker.tenv.is_int_path(&vec![word(&interner, "f32")]));
    assert!(checker.tenv.is_float_path(&vec![word(&interner, "f32")]));
    assert!(!checker.tenv.is_float_path(&vec![word(&interner, "bool")]));
    assert!(!checker.tenv.is_int_path(&vec![word(&interner, "std"), word(&interner, "i32")]));
}

#[test]
fn unknown_on_the_left_takes_over_the_right() {
    let interner = ThreadedRodeo::new();
    let kinds = vec![
        named(&interner, "i32"),
        TypeKind::Concrete(ConcreteKind::Tuple(vec![])),
        TypeKind::Concrete(ConcreteKind::Ptr(TypeId(0))),
        TypeKind::Concrete(ConcreteKind::Path(vec![word(&interner, "Vec")], vec![TypeId(0)])),
        TypeKind::Never,
        TypeKind::Unknown,
        TypeKind::Int(None),
        TypeKind::Float(None),
        TypeKind::Int(Some(TypeId(0))),
        TypeKind::Generic(Generic::new(word(&interner, "T"), vec![])),
    ];
    for kind in kinds {
        let mut checker = checker_with_numbers(&interner);
        checker.tenv.insert(named(&interner, "i32"), at(0, 1));
        let a = checker.tenv.insert(TypeKind::Unknown, at(1, 2));
        let b = checker.tenv.insert(kind.clone(), at(2, 3));
        assert_eq!(checker.unify(a, b, at(9, 9)), Ok(()));
        assert_eq!(checker.tenv.get(a), &kind);
        assert_eq!(checker.tenv.get(b), &kind);
    }
}

#[test]
fn unknown_on_the_right_is_not_resolved() {
    let interner = ThreadedRodeo::new();
    let kinds = vec![
        named(&interner, "i32"),
        TypeKind::Concrete(ConcreteKind::Tuple(vec![])),
        TypeKind::Int(None),
        TypeKind::Float(None),
    ];
    for kind in kinds {
        let mut checker = checker_with_numbers(&interner);
        let a = checker.tenv.insert(kind.clone(), at(1, 2));
        let b = checker.tenv.insert(TypeKind::Unknown, at(2, 3));
        let result = checker.unify(a, b, at(7, 8));
        assert_eq!(
            result,
            Err(TypeError::TypeMismatch {
                a,
                a_kind: kind.clone(),
                a_file_span: at(1, 2),
                b,
                b_kind: TypeKind::Unknown,
                b_file_span: at(2, 3),
                span_file_span: at(7, 8),
            })
        );
        assert_eq!(checker.tenv.get(a), &kind);
        assert_eq!(checker.tenv.get(b), &TypeKind::Unknown);
    }
}

#[test]
fn unknown_on_the_right_under_unknown_or_never_succeeds() {
    for kind in [TypeKind::Unknown, TypeKind::Never] {
        let mut checker = TChecker::new(TEnv::new());
        let a = checker.tenv.insert(kind.clone(), at(1, 2));
        let b = checker.tenv.insert(TypeKind::Unknown, at(2, 3));
        assert_eq!(checker.unify(a, b, at(7, 8)), Ok(()));
        assert_eq!(checker.tenv.get(a), &kind);
        assert_eq!(checker.tenv.get(b), &TypeKind::Unknown);
    }
}

#[test]
fn unknown_on_the_right_under_an_unrestricted_parameter_succeeds() {
    let interner = ThreadedRodeo::new();
    let mut checker = TChecker::new(TEnv::new());
    let parameter = TypeKind::Generic(Generic::new(word(&interner, "T"), vec![]));
    let a = checker.tenv.insert(parameter.clone(), at(1, 2));
    let b = checker.tenv.insert(TypeKind::Unknown, at(2, 3));
    assert_eq!(checker.unify(a, b, at(7, 8)), Ok(()));
    assert_eq!(checker.tenv.get(a), &parameter);
    assert_eq!(checker.tenv.get(b), &TypeKind::Unknown);
}

#[test]
fn never_on_the_left_unifies_with_everything() {
    let interner = ThreadedRodeo::new();
    let kinds = vec![
        named(&interner, "i32"),
        TypeKind::Unknown,
        TypeKind::Never,
        TypeKind::Int(None),
        TypeKind::Float(None),
        TypeKind::Concrete(ConcreteKind::Tuple(vec![TypeId(0)])),
        TypeKind::Generic(Generic::new(word(&interner, "T"), vec![])),
    ];
    for kind in kinds {
        let mut checker = checker_with_numbers(&interner);
        let a = checker.tenv.insert(TypeKind::Never, at(1, 2));
        let b = checker.tenv.insert(kind.clone(), at(2, 3));
        assert_eq!(checker.unify(a, b, at(0, 0)), Ok(()));
        assert_eq!(checker.tenv.get(a), &TypeKind::Never);
        assert_eq!(checker.tenv.get(b), &kind);
        assert_eq!(checker.tenv.len(), 2);
    }
}

#[test]
fn two_int_variables_are_linked_second_to_first() {
    let mut checker = TChecker::new(TEnv::new());
    let a = checker.tenv.insert(TypeKind::Int(None), at(1, 2));
    let b = checker.tenv.insert(TypeKind::Int(None), at(2, 3));
    assert_eq!(checker.unify(a, b, at(0, 0)), Ok(()));
    assert_eq!(checker.tenv.get(a), &TypeKind::Int(None));
    assert_eq!(checker.tenv.get(b), &TypeKind::Int(Some(a)));
}

#[test]
fn linked_int_variables_resolve_together() {
    let interner = ThreadedRodeo::new();
    for (variable_first, pick_b) in [(true, false), (true, true), (false, false), (false, true)] {
        let mut checker = checker_with_numbers(&interner);
        let a = checker.tenv.insert(TypeKind::Int(None), at(1, 2));
        let b = checker.tenv.insert(TypeKind::Int(None), at(2, 3));
        let c = checker.tenv.insert(named(&interner, "i32"), at(3, 6));
        assert_eq!(checker.unify(a, b, at(0, 0)), Ok(()));
        let variable = if pick_b { b } else { a };
        let result = if variable_first {
            checker.unify(variable, c, at(0, 0))
        } else {
            checker.unify(c, variable, at(0, 0))
        };
        assert_eq!(result, Ok(()));
        assert_eq!(checker.tenv.resolve(a), c);
        assert_eq!(checker.tenv.resolve(b), c);
        assert_eq!(checker.tenv.get(a), &TypeKind::Int(Some(c)));
        assert_eq!(checker.tenv.get(b), &TypeKind::Int(Some(a)));
        assert_eq!(checker.tenv.get(c), &named(&interner, "i32"));
    }
}

#[test]
fn int_variable_rejects_a_path_that_is_no_integer_type() {
    let interner = ThreadedRodeo::new();
    let mut checker = checker_with_numbers(&interner);
    let variable = checker.tenv.insert(TypeKind::Int(None), at(1, 2));
    let boolean = checker.tenv.insert(named(&interner, "bool"), at(2, 6));
    let result = checker.unify(variable, boolean, at(9, 10));
    assert_eq!(
        result,
        Err(TypeError::TypeMismatch {
            a: variable,
            a_kind: TypeKind::Int(None),
            a_file_span: at(1, 2),
            b: boolean,
            b_kind: named(&interner, "bool"),
            b_file_span: at(2, 6),
            span_file_span: at(9, 10),
        })
    );
    assert!(matches!(
        checker.unify(boolean, variable, at(9, 10)),
        Err(TypeError::TypeMismatch { a, b, .. }) if a == boolean && b == variable
    ));
    assert_eq!(checker.tenv.get(variable), &TypeKind::Int(None));
}

#[test]
fn int_variable_rejects_a_float_type_and_float_variable_an_integer_type() {
    let interner = ThreadedRodeo::new();
    let mut checker = checker_with_numbers(&interner);
    let int_variable = checker.tenv.insert(TypeKind::Int(None), at(1, 2));
    let float_variable = checker.tenv.insert(TypeKind::Float(None), at(1, 2));
    let f32_type = checker.tenv.insert(named(&interner, "f32"), at(2, 6));
    let i32_type = checker.tenv.insert(named(&interner, "i32"), at(2, 6));
    assert!(checker.unify(int_variable, f32_type, at(0, 0)).is_err());
    assert!(checker.unify(float_variable, i32_type, at(0, 0)).is_err());
    assert!(checker.unify(int_variable, float_variable, at(0, 0)).is_err());
    assert_eq!(checker.unify(float_variable, f32_type, at(0, 0)), Ok(()));
    assert_eq!(checker.tenv.get(float_variable), &TypeKind::Float(Some(f32_type)));
    assert_eq!(checker.unify(i32_type, int_variable, at(0, 0)), Ok(()));
    assert_eq!(checker.tenv.get(int_variable), &TypeKind::Int(Some(i32_type)));
}

#[test]
fn resolved_int_variable_passes_the_question_on() {
    let interner = ThreadedRodeo::new();
    let mut checker = checker_with_numbers(&interner);
    let i32_type = checker.tenv.insert(named(&interner, "i32"), at(0, 3));
    let other_i32 = checker.tenv.insert(named(&interner, "i32"), at(4, 7));
    let i64_type = checker.tenv.insert(named(&interner, "i64"), at(8, 11));
    let variable = checker.tenv.insert(TypeKind::Int(Some(i32_type)), at(12, 13));
    assert_eq!(checker.unify(variable, other_i32, at(0, 0)), Ok(()));
    assert_eq!(checker.unify(other_i32, variable, at(0, 0)), Ok(()));
    let result = checker.unify(variable, i64_type, at(0, 0));
    assert!(matches!(
        result,
        Err(TypeError::TypeMismatch { a, b, .. }) if a == i32_type && b == i64_type
    ));
    let result = checker.unify(i64_type, variable, at(0, 0));
    assert!(matches!(
        result,
        Err(TypeError::TypeMismatch { a, b, .. }) if a == i64_type && b == i32_type
    ));
}

#[test]
fn one_resolved_int_variable_takes_the_other_along() {
    let interner = ThreadedRodeo::new();
    let mut checker = checker_with_numbers(&interner);
    let i32_type = checker.tenv.insert(named(&interner, "i32"), at(0, 3));
    let resolved = checker.tenv.insert(TypeKind::Int(Some(i32_type)), at(4, 5));
    let open = checker.tenv.insert(TypeKind::Int(None), at(6, 7));
    assert_eq!(checker.unify(resolved, open, at(0, 0)), Ok(()));
    assert_eq!(checker.tenv.get(open), &TypeKind::Int(Some(resolved)));
    assert_eq!(checker.tenv.resolve(open), i32_type);

    let mut checker = checker_with_numbers(&interner);
    let i32_type = checker.tenv.insert(named(&interner, "i32"), at(0, 3));
    let resolved = checker.tenv.insert(TypeKind::Int(Some(i32_type)), at(4, 5));
    let open = checker.tenv.insert(TypeKind::Int(None), at(6, 7));
    assert_eq!(checker.unify(open, resolved, at(0, 0)), Ok(()));
    assert_eq!(checker.tenv.get(open), &TypeKind::Int(Some(resolved)));
    assert_eq!(checker.tenv.get(resolved), &TypeKind::Int(Some(i32_type)));
}

#[test]
fn unifying_linked_variables_again_makes_no_cycle() {
    let mut checker = TChecker::new(TEnv::new());
    let a = checker.tenv.insert(TypeKind::Int(None), at(1, 2));
    let b = checker.tenv.insert(TypeKind::Int(None), at(2, 3));
    assert_eq!(checker.unify(a, b, at(0, 0)), Ok(()));
    assert_eq!(checker.unify(b, a, at(0, 0)), Ok(()));
    assert_eq!(checker.unify(a, b, at(0, 0)), Ok(()));
    assert_eq!(checker.unify(a, a, at(0, 0)), Ok(()));
    assert_eq!(checker.tenv.get(a), &TypeKind::Int(None));
    assert_eq!(checker.tenv.get(b), &TypeKind::Int(Some(a)));
    assert_eq!(checker.tenv.resolve(a), a);
    assert_eq!(checker.tenv.resolve(b), a);
}

#[test]
fn float_variables_are_linked_like_int_variables() {
    let interner = ThreadedRodeo::new();
    let mut checker = checker_with_numbers(&interner);
    let a = checker.tenv.insert(TypeKind::Float(None), at(1, 2));
    let b = checker.tenv.insert(TypeKind::Float(None), at(2, 3));
    let f64_type = checker.tenv.insert(named(&interner, "f64"), at(3, 6));
    assert_eq!(checker.unify(a, b, at(0, 0)), Ok(()));
    assert_eq!(checker.tenv.get(b), &TypeKind::Float(Some(a)));
    assert_eq!(checker.unify(b, f64_type, at(0, 0)), Ok(()));
    assert_eq!(checker.tenv.resolve(a), f64_type);
    assert_eq!(checker.tenv.resolve(b), f64_type);
}

#[test]
fn concrete_types_unify_when_structurally_equal() {
    let interner = ThreadedRodeo::new();
    let mut checker = checker_with_numbers(&interner);
    let element = checker.tenv.insert(named(&interner, "i32"), at(0, 3));
    let a = checker.tenv.insert(
        TypeKind::Concrete(ConcreteKind::Path(vec![word(&interner, "Vec")], vec![element])),
        at(4, 5),
    );
    let b = checker.tenv.insert(
        TypeKind::Concrete(ConcreteKind::Path(vec![word(&interner, "Vec")], vec![element])),
        at(6, 7),
    );
    let pointer = checker.tenv.insert(TypeKind::Concrete(ConcreteKind::Ptr(element)), at(8, 9));
    let same_pointer =
        checker.tenv.insert(TypeKind::Concrete(ConcreteKind::Ptr(element)), at(8, 9));
    let unit = checker.tenv.insert(TypeKind::unit(), at(10, 12));
    let other_unit = checker.tenv.insert(TypeKind::unit(), at(10, 12));
    assert_eq!(checker.unify(a, b, at(0, 0)), Ok(()));
    assert_eq!(checker.unify(pointer, same_pointer, at(0, 0)), Ok(()));
    assert_eq!(checker.unify(unit, other_unit, at(0, 0)), Ok(()));
    assert!(checker.unify(a, pointer, at(0, 0)).is_err());
    assert!(checker.unify(unit, pointer, at(0, 0)).is_err());
    assert!(checker.unify(element, a, at(0, 0)).is_err());
}

#[test]
fn tuples_of_equal_types_in_distinct_slots_do_not_unify() {
    let interner = ThreadedRodeo::new();
    let mut checker = checker_with_numbers(&interner);
    let first = checker.tenv.insert(named(&interner, "i32"), at(0, 3));
    let second = checker.tenv.insert(named(&interner, "i32"), at(4, 7));
    let a = checker.tenv.insert(TypeKind::Concrete(ConcreteKind::Tuple(vec![first])), at(8, 9));
    let b = checker.tenv.insert(TypeKind::Concrete(ConcreteKind::Tuple(vec![second])), at(10, 11));
    assert_eq!(checker.tenv.get(first), checker.tenv.get(second));
    let result = checker.unify(a, b, at(20, 21));
    assert_eq!(
        result,
        Err(TypeError::TypeMismatch {
            a,
            a_kind: TypeKind::Concrete(ConcreteKind::Tuple(vec![first])),
            a_file_span: at(8, 9),
            b,
            b_kind: TypeKind::Concrete(ConcreteKind::Tuple(vec![second])),
            b_file_span: at(10, 11),
            span_file_span: at(20, 21),
        })
    );
}

#[test]
fn type_parameter_asks_for_its_restrictions() {
    let interner = ThreadedRodeo::new();
    let mut checker = checker_with_numbers(&interner);
    let show = TraitRestriction::new(vec![word(&interner, "Show")], vec![]);
    let hash = TraitRestriction::new(vec![word(&interner, "Hash")], vec![]);
    let order = TraitRestriction::new(vec![word(&interner, "Order")], vec![]);
    checker.tenv.register_impl(show.clone(), named(&interner, "i32"));
    checker.tenv.register_impl(hash.clone(), named(&interner, "bool"));
    let parameter = TypeKind::Generic(Generic::new(
        word(&interner, "T"),
        vec![hash.clone(), show.clone(), order.clone()],
    ));
    let shown = TypeKind::Generic(Generic::new(word(&interner, "U"), vec![show.clone()]));
    let t = checker.tenv.insert(parameter.clone(), at(0, 1));
    let u = checker.tenv.insert(shown.clone(), at(2, 3));
    let number = checker.tenv.insert(named(&interner, "i32"), at(4, 7));
    assert_eq!(checker.unify(u, number, at(0, 0)), Ok(()));
    assert_eq!(checker.tenv.get(u), &shown);
    assert_eq!(checker.tenv.get(number), &named(&interner, "i32"));
    let result = checker.unify(t, number, at(30, 31));
    assert_eq!(
        result,
        Err(TypeError::TraitRestrictionsNotMet {
            ty: number,
            ty_kind: named(&interner, "i32"),
            ty_file_span: at(4, 7),
            unmet: vec![hash.clone(), order.clone()],
            span_file_span: at(30, 31),
        })
    );
    assert_eq!(checker.tenv.get(t), &parameter);
}

#[test]
fn restrictions_are_looked_up_with_their_arguments() {
    let interner = ThreadedRodeo::new();
    let mut checker = checker_with_numbers(&interner);
    let argument = checker.tenv.insert(named(&interner, "i32"), at(0, 3));
    let other_argument = checker.tenv.insert(named(&interner, "i32"), at(0, 3));
    let into = TraitRestriction::new(vec![word(&interner, "Into")], vec![argument]);
    let into_other = TraitRestriction::new(vec![word(&interner, "Into")], vec![other_argument]);
    checker.tenv.register_impl(into.clone(), named(&interner, "bool"));
    assert!(checker.tenv.implements(&named(&interner, "bool"), &into));
    assert!(!checker.tenv.implements(&named(&interner, "bool"), &into_other));
    assert!(!checker.tenv.implements(&named(&interner, "i32"), &into));
    let boolean = checker.tenv.insert(named(&interner, "bool"), at(4, 8));
    assert_eq!(
        checker.does_type_implement_restrictions(boolean, &vec![into], at(0, 0)),
        Ok(())
    );
    assert!(checker
        .does_type_implement_restrictions(boolean, &vec![into_other], at(0, 0))
        .is_err());
}

#[test]
fn type_mismatch_describes_both_sides() {
    let interner = ThreadedRodeo::new();
    let mut checker = checker_with_numbers(&interner);
    let a = checker.tenv.insert(named(&interner, "i32"), at(0, 3));
    let b = checker.tenv.insert(TypeKind::Never, at(5, 6));
    assert_eq!(
        checker.type_mismatch(a, b, at(1, 9)),
        TypeError::TypeMismatch {
            a,
            a_kind: named(&interner, "i32"),
            a_file_span: at(0, 3),
            b,
            b_kind: TypeKind::Never,
            b_file_span: at(5, 6),
            span_file_span: at(1, 9),
        }
    );
}

#[test]
fn structural_equality_compares_handles_as_handles() {
    let a = ConcreteKind::Tuple(vec![TypeId(1), TypeId(2)]);
    let b = ConcreteKind::Tuple(vec![TypeId(1), TypeId(2)]);
    let c = ConcreteKind::Tuple(vec![TypeId(2), TypeId(1)]);
    let d = ConcreteKind::Tuple(vec![TypeId(1)]);
    assert!(a.same(&b));
    assert!(!a.same(&c));
    assert!(!a.same(&d));
    assert!(!a.same(&ConcreteKind::Ptr(TypeId(1))));
    assert!(ConcreteKind::Path(vec![7, 8], vec![TypeId(1)])
        .same(&ConcreteKind::Path(vec![7, 8], vec![TypeId(1)])));
    assert!(!ConcreteKind::Path(vec![7, 8], vec![TypeId(1)])
        .same(&ConcreteKind::Path(vec![7, 9], vec![TypeId(1)])));
    assert!(TypeKind::Int(None).same(&TypeKind::Int(None)));
    assert!(!TypeKind::Int(None).same(&TypeKind::Float(None)));
    assert!(!TypeKind::Int(None).same(&TypeKind::Int(Some(TypeId(0)))));
    assert_eq!(TypeKind::Concrete(a.clone()), TypeKind::Concrete(b));
    assert_eq!(TypeId::new(4).raw(), 4);
}

#[test]
fn arena_says_what_it_accepts() {
    let interner = ThreadedRodeo::new();
    let mut env = TEnv::new();
    let unknown = env.insert(TypeKind::Unknown, at(0, 1));
    let number = env.insert(named(&interner, "i32"), at(1, 2));
    let int_variable = env.insert(TypeKind::Int(None), at(2, 3));
    let float_variable = env.insert(TypeKind::Float(None), at(3, 4));
    let linked = env.insert(TypeKind::Int(Some(int_variable)), at(4, 5));
    assert!(env.accepts(&TypeKind::Never));
    assert!(env.accepts(&TypeKind::Int(Some(number))));
    assert!(env.accepts(&TypeKind::Int(Some(int_variable))));
    assert!(env.accepts(&TypeKind::Float(Some(float_variable))));
    assert!(!env.accepts(&TypeKind::Int(Some(float_variable))));
    assert!(!env.accepts(&TypeKind::Float(Some(int_variable))));
    assert!(!env.accepts(&TypeKind::Int(Some(unknown))));
    assert!(!env.accepts(&TypeKind::Int(Some(TypeId(5)))));
    assert!(env.can_set(unknown, &TypeKind::Never));
    assert!(env.can_set(unknown, &TypeKind::Int(Some(linked))));
    assert!(env.can_set(int_variable, &TypeKind::Int(Some(number))));
    // The variable that `linked` defers to cannot defer to `linked`.
    assert!(!env.can_set(int_variable, &TypeKind::Int(Some(linked))));
    assert!(!env.can_set(int_variable, &TypeKind::Int(Some(int_variable))));
    // Something defers to the variable as an integer variable.
    assert!(!env.can_set(int_variable, &TypeKind::Float(None)));
    assert!(env.can_set(int_variable, &named(&interner, "i64")));
    assert!(!env.can_set(number, &TypeKind::Unknown));
    // An entry that defers already is not made to defer elsewhere.
    assert!(!env.can_set(linked, &TypeKind::Int(Some(number))));
    assert!(env.can_set(linked, &TypeKind::Int(None)));
    assert!(!env.can_set(TypeId(9), &TypeKind::Never));
}
