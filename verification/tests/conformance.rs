use flux_core::conformance::{
    find_trait_method, names_of, unimplemented_methods, ConformanceError,
};
use flux_core::generics::GenericParams;
use flux_core::hir::{
    ApplyDecl, FnDecl, FnDeclIdx, Param, ParamList, Path, TraitDecl, Visibility,
};
use flux_core::span::{FileId, FileSpan, Span, Spanned};
use flux_core::tenv::TEnv;
use flux_core::ty::{ConcreteKind, TypeId, TypeKind};
use flux_core::unify::{TChecker, TypeError};
use lasso::{Key, ThreadedRodeo};

const FILE: FileId = FileId(2);

fn at(start: u32, end: u32) -> FileSpan {
    Span::new(start, end).in_file(FILE)
}

fn word(interner: &ThreadedRodeo, text: &str) -> u32 {
    interner.get_or_intern(text).into_usize() as u32
}

struct World {
    interner: ThreadedRodeo,
    checker: TChecker,
    functions: Vec<FnDecl>,
    i32_type: TypeId,
    bool_type: TypeId,
    unit_type: TypeId,
}

impl World {
    fn new() -> World {
        let interner = ThreadedRodeo::new();
        let mut env = TEnv::new();
        env.register_int_path(vec![word(&interner, "i32")]);
        let i32_type = env.insert(
            TypeKind::Concrete(ConcreteKind::Path(vec![word(&interner, "i32")], vec![])),
            at(0, 3),
        );
        let bool_type = env.insert(
            TypeKind::Concrete(ConcreteKind::Path(vec![word(&interner, "bool")], vec![])),
            at(4, 8),
        );
        let unit_type = env.insert(TypeKind::unit(), at(9, 11));
        World {
            interner,
            checker: TChecker::new(env),
            functions: vec![],
            i32_type,
            bool_type,
            unit_type,
        }
    }

    /// Adds a function whose name is written at `start`.
    fn function(&mut self, name: &str, start: u32, params: &[TypeId], ret: TypeId) -> FnDeclIdx {
        let params: Vec<Param> = params
            .iter()
            .enumerate()
            .map(|(i, ty)| Param {
                name: Spanned::new(word(&self.interner, "p"), Span::new(start + 10 + i as u32, start + 11 + i as u32)),
                ty: Spanned::new(*ty, Span::new(start + 20 + i as u32, start + 21 + i as u32)),
            })
            .collect();
        self.functions.push(FnDecl::new(
            Spanned::new(word(&self.interner, name), Span::new(start, start + name.len() as u32)),
            Spanned::new(Visibility::Public, Span::new(start, start)),
            Spanned::new(GenericParams::new(), Span::new(start, start)),
            Spanned::new(ParamList::new(params), Span::new(start + 10, start + 19)),
            Spanned::new(ret, Span::new(start + 30, start + 33)),
        ));
        FnDeclIdx(self.functions.len() as u32 - 1)
    }

    fn trait_decl(&self, name: &str, methods: Vec<FnDeclIdx>) -> TraitDecl {
        TraitDecl::new(
            Spanned::new(Visibility::Public, Span::new(0, 0)),
            Spanned::new(word(&self.interner, name), Span::new(500, 500 + name.len() as u32)),
            Spanned::new(GenericParams::new(), Span::new(0, 0)),
            vec![],
            methods,
        )
    }

    fn apply_decl(&self, trt: Option<&str>, methods: Vec<FnDeclIdx>) -> ApplyDecl {
        ApplyDecl::new(
            Spanned::new(Visibility::Private, Span::new(0, 0)),
            Spanned::new(GenericParams::new(), Span::new(0, 0)),
            trt.map(|name| {
                Spanned::new(Path::new(vec![word(&self.interner, name)], vec![]), Span::new(600, 604))
            }),
            Spanned::new(self.bool_type, Span::new(700, 704)),
            vec![],
            methods,
        )
    }

    fn name(&self, text: &str, start: u32) -> Spanned<u32> {
        Spanned::new(word(&self.interner, text), Span::new(start, start + text.len() as u32))
    }
}

#[test]
fn block_that_implements_every_method_conforms() {
    let mut world = World::new();
    let (i32_type, bool_type, unit_type) = (world.i32_type, world.bool_type, world.unit_type);
    let foo = world.function("foo", 1000, &[i32_type, bool_type], unit_type);
    let bar = world.function("bar", 1100, &[], i32_type);
    let foo_impl = world.function("foo", 2000, &[i32_type, bool_type], unit_type);
    let bar_impl = world.function("bar", 2100, &[], i32_type);
    let trait_decl = world.trait_decl("Shape", vec![foo, bar]);
    let apply = world.apply_decl(Some("Shape"), vec![bar_impl, foo_impl]);
    let before = world.checker.tenv.len();
    let result = world.checker.check_apply_block(
        &apply,
        &trait_decl,
        &world.functions,
        Span::new(700, 704),
        FILE,
    );
    assert_eq!(result, Ok(()));
    // Two copies for every return type and every parameter.
    assert_eq!(world.checker.tenv.len(), before + 2 * (1 + 0) + 2 * (1 + 2));
}

#[test]
fn missing_method_is_reported_as_unimplemented() {
    let mut world = World::new();
    let (i32_type, unit_type) = (world.i32_type, world.unit_type);
    let foo = world.function("foo", 1000, &[i32_type], unit_type);
    let bar = world.function("bar", 1100, &[], i32_type);
    let foo_impl = world.function("foo", 2000, &[i32_type], unit_type);
    let trait_decl = world.trait_decl("Shape", vec![foo, bar]);
    let apply = world.apply_decl(Some("Shape"), vec![foo_impl]);
    let result = world.checker.check_apply_block(
        &apply,
        &trait_decl,
        &world.functions,
        Span::new(700, 704),
        FILE,
    );
    assert_eq!(
        result,
        Err(ConformanceError::UnimplementedTraitMethods {
            trt: world.name("Shape", 500),
            target: Span::new(700, 704),
            unimplemented_methods: vec![word(&world.interner, "bar")],
        })
    );
}

#[test]
fn all_missing_methods_are_reported_in_one_error() {
    let mut world = World::new();
    let (i32_type, unit_type) = (world.i32_type, world.unit_type);
    let foo = world.function("foo", 1000, &[], unit_type);
    let bar = world.function("bar", 1100, &[], i32_type);
    let baz = world.function("baz", 1200, &[], i32_type);
    let qux = world.function("qux", 1300, &[], i32_type);
    let bar_impl = world.function("bar", 2000, &[], i32_type);
    let trait_decl = world.trait_decl("Shape", vec![foo, bar, baz, qux]);
    let apply = world.apply_decl(Some("Shape"), vec![bar_impl]);
    let result = world.checker.check_apply_block(
        &apply,
        &trait_decl,
        &world.functions,
        Span::new(1, 2),
        FILE,
    );
    assert_eq!(
        result,
        Err(ConformanceError::UnimplementedTraitMethods {
            trt: world.name("Shape", 500),
            target: Span::new(1, 2),
            unimplemented_methods: vec![
                word(&world.interner, "foo"),
                word(&world.interner, "baz"),
                word(&world.interner, "qux")
            ],
        })
    );
    assert_eq!(
        unimplemented_methods(&world.functions, &trait_decl.methods, &apply.methods),
        vec![word(&world.interner, "foo"), word(&world.interner, "baz"), word(&world.interner, "qux")]
    );
    assert_eq!(
        unimplemented_methods(&world.functions, &trait_decl.methods, &trait_decl.methods),
        Vec::<u32>::new()
    );
}

#[test]
fn method_that_the_trait_does_not_declare_is_reported() {
    let mut world = World::new();
    let (i32_type, unit_type) = (world.i32_type, world.unit_type);
    let foo = world.function("foo", 1000, &[], unit_type);
    let bar = world.function("bar", 1100, &[], i32_type);
    let foo_impl = world.function("foo", 2000, &[], unit_type);
    let bar_impl = world.function("bar", 2100, &[], i32_type);
    let baz_impl = world.function("baz", 2200, &[], i32_type);
    let trait_decl = world.trait_decl("Shape", vec![foo, bar]);
    let apply = world.apply_decl(Some("Shape"), vec![foo_impl, bar_impl, baz_impl]);
    let result = world.checker.check_apply_block(
        &apply,
        &trait_decl,
        &world.functions,
        Span::new(700, 704),
        FILE,
    );
    assert_eq!(
        result,
        Err(ConformanceError::AppliedUnknownMethodToTrait {
            trt: world.name("Shape", 500),
            method: world.name("baz", 2200),
            trt_methods: vec![word(&world.interner, "foo"), word(&world.interner, "bar")],
        })
    );
}

#[test]
fn unknown_method_is_reported_before_missing_ones() {
    let mut world = World::new();
    let unit_type = world.unit_type;
    let foo = world.function("foo", 1000, &[], unit_type);
    let baz_impl = world.function("baz", 2200, &[], unit_type);
    let trait_decl = world.trait_decl("Shape", vec![foo]);
    let apply = world.apply_decl(Some("Shape"), vec![baz_impl]);
    let before = world.checker.tenv.len();
    let result = world.checker.check_apply_block(
        &apply,
        &trait_decl,
        &world.functions,
        Span::new(700, 704),
        FILE,
    );
    assert!(matches!(result, Err(ConformanceError::AppliedUnknownMethodToTrait { .. })));
    assert_eq!(world.checker.tenv.len(), before);
}

#[test]
fn parameter_count_mismatch_is_its_own_error() {
    let mut world = World::new();
    let (i32_type, bool_type, unit_type) = (world.i32_type, world.bool_type, world.unit_type);
    let foo = world.function("foo", 1000, &[i32_type, bool_type], unit_type);
    let foo_impl = world.function("foo", 2000, &[i32_type], unit_type);
    let trait_decl = world.trait_decl("Shape", vec![foo]);
    let apply = world.apply_decl(Some("Shape"), vec![foo_impl]);
    let result = world.checker.check_apply_block(
        &apply,
        &trait_decl,
        &world.functions,
        Span::new(700, 704),
        FILE,
    );
    assert_eq!(
        result,
        Err(ConformanceError::IncorrectNumberParamsInMethodImpl {
            method: world.name("foo", 2000),
            expected: 2,
            found: 1,
            decl_params_span: Span::new(1010, 1019),
            impl_params_span: Span::new(2010, 2019),
        })
    );
    // With more parameters than declared the error is the same kind.
    let mut world = World::new();
    let (i32_type, unit_type) = (world.i32_type, world.unit_type);
    let foo = world.function("foo", 1000, &[], unit_type);
    let foo_impl = world.function("foo", 2000, &[i32_type], unit_type);
    let result = world.checker.validate_trait_method_implementation(
        &world.functions[foo.0 as usize],
        &world.functions[foo_impl.0 as usize],
        FILE,
    );
    assert!(matches!(
        result,
        Err(ConformanceError::IncorrectNumberParamsInMethodImpl { expected: 0, found: 1, .. })
    ));
}

#[test]
fn return_type_that_differs_is_a_type_error() {
    let mut world = World::new();
    let (i32_type, bool_type) = (world.i32_type, world.bool_type);
    let foo = world.function("foo", 1000, &[], i32_type);
    let foo_impl = world.function("foo", 2000, &[], bool_type);
    let before = world.checker.tenv.len();
    let result = world.checker.validate_trait_method_implementation(
        &world.functions[foo.0 as usize],
        &world.functions[foo_impl.0 as usize],
        FILE,
    );
    let i32_kind = world.checker.tenv.get(i32_type).clone();
    let bool_kind = world.checker.tenv.get(bool_type).clone();
    assert_eq!(
        result,
        Err(ConformanceError::TypeError(TypeError::TypeMismatch {
            a: TypeId(before),
            a_kind: i32_kind,
            a_file_span: at(0, 3),
            b: TypeId(before + 1),
            b_kind: bool_kind,
            b_file_span: at(4, 8),
            span_file_span: at(2030, 2033),
        }))
    );
}

#[test]
fn parameters_are_compared_by_position() {
    let mut world = World::new();
    let (i32_type, bool_type, unit_type) = (world.i32_type, world.bool_type, world.unit_type);
    let foo = world.function("foo", 1000, &[i32_type, bool_type], unit_type);
    let swapped = world.function("foo", 2000, &[bool_type, i32_type], unit_type);
    let second_differs = world.function("foo", 3000, &[i32_type, i32_type], unit_type);
    let result = world.checker.validate_trait_method_implementation(
        &world.functions[foo.0 as usize],
        &world.functions[swapped.0 as usize],
        FILE,
    );
    assert!(matches!(
        result,
        Err(ConformanceError::TypeError(TypeError::TypeMismatch { span_file_span, .. }))
            if span_file_span == at(2020, 2021)
    ));
    let result = world.checker.validate_trait_method_implementation(
        &world.functions[foo.0 as usize],
        &world.functions[second_differs.0 as usize],
        FILE,
    );
    assert!(matches!(
        result,
        Err(ConformanceError::TypeError(TypeError::TypeMismatch { span_file_span, .. }))
            if span_file_span == at(3021, 3022)
    ));
}

#[test]
fn check_unifies_copies_and_leaves_the_declared_types_alone() {
    let mut world = World::new();
    let i32_type = world.i32_type;
    let open = world.checker.tenv.insert(TypeKind::Unknown, at(50, 51));
    let literal = world.checker.tenv.insert(TypeKind::Int(None), at(60, 61));
    let foo = world.function("foo", 1000, &[open], i32_type);
    let foo_impl = world.function("foo", 2000, &[i32_type], literal);
    let before = world.checker.tenv.len();
    let result = world.checker.validate_trait_method_implementation(
        &world.functions[foo.0 as usize],
        &world.functions[foo_impl.0 as usize],
        FILE,
    );
    assert_eq!(result, Ok(()));
    assert_eq!(world.checker.tenv.get(open), &TypeKind::Unknown);
    assert_eq!(world.checker.tenv.get(literal), &TypeKind::Int(None));
    assert_eq!(world.checker.tenv.len(), before + 4);
    // The copy of the literal's variable was resolved to the copy of `i32`.
    assert_eq!(world.checker.tenv.get(TypeId(before + 1)), &TypeKind::Int(Some(TypeId(before))));
    // The copy of the unknown parameter took over the copy of `i32`.
    assert_eq!(world.checker.tenv.get(TypeId(before + 2)), world.checker.tenv.get(i32_type));
}

#[test]
fn unify_copies_adds_two_entries() {
    let mut world = World::new();
    let (i32_type, bool_type) = (world.i32_type, world.bool_type);
    let before = world.checker.tenv.len();
    assert_eq!(world.checker.unify_copies(i32_type, i32_type, at(0, 0)), Ok(()));
    assert_eq!(world.checker.tenv.len(), before + 2);
    assert!(world.checker.unify_copies(i32_type, bool_type, at(0, 0)).is_err());
    assert_eq!(world.checker.tenv.len(), before + 4);
    assert_eq!(world.checker.tenv.get_span(TypeId(before + 3)), at(4, 8));
}

#[test]
fn block_without_a_trait_has_nothing_to_conform_to() {
    let mut world = World::new();
    let unit_type = world.unit_type;
    let anything = world.function("anything", 2000, &[], unit_type);
    let apply = world.apply_decl(None, vec![anything]);
    let before = world.checker.tenv.len();
    assert_eq!(world.checker.check_apply_decl(&apply, None, &world.functions, FILE), Ok(()));
    assert_eq!(world.checker.tenv.len(), before);
}

#[test]
fn block_that_names_an_unknown_trait_is_an_error() {
    let mut world = World::new();
    let apply = world.apply_decl(Some("Lost"), vec![]);
    assert_eq!(
        world.checker.check_apply_decl(&apply, None, &world.functions, FILE),
        Err(ConformanceError::AppliedUnknownTrait {
            trt: Spanned::new(
                Path::new(vec![word(&world.interner, "Lost")], vec![]),
                Span::new(600, 604)
            ),
            target: Span::new(700, 704),
        })
    );
}

#[test]
fn block_that_names_a_known_trait_is_checked_against_it() {
    let mut world = World::new();
    let unit_type = world.unit_type;
    let foo = world.function("foo", 1000, &[], unit_type);
    let foo_impl = world.function("foo", 2000, &[], unit_type);
    let trait_decl = world.trait_decl("Shape", vec![foo]);
    let conforming = world.apply_decl(Some("Shape"), vec![foo_impl]);
    let lacking = world.apply_decl(Some("Shape"), vec![]);
    assert_eq!(
        world.checker.check_apply_decl(&conforming, Some(&trait_decl), &world.functions, FILE),
        Ok(())
    );
    assert_eq!(
        world.checker.check_apply_decl(&lacking, Some(&trait_decl), &world.functions, FILE),
        Err(ConformanceError::UnimplementedTraitMethods {
            trt: world.name("Shape", 500),
            target: Span::new(700, 704),
            unimplemented_methods: vec![word(&world.interner, "foo")],
        })
    );
}

#[test]
fn trait_methods_are_found_by_name() {
    let mut world = World::new();
    let unit_type = world.unit_type;
    let foo = world.function("foo", 1000, &[], unit_type);
    let bar = world.function("bar", 1100, &[], unit_type);
    let methods = vec![foo, bar];
    assert_eq!(find_trait_method(&world.functions, &methods, word(&world.interner, "bar")), Some(bar));
    assert_eq!(find_trait_method(&world.functions, &methods, word(&world.interner, "foo")), Some(foo));
    assert_eq!(find_trait_method(&world.functions, &methods, word(&world.interner, "baz")), None);
    assert_eq!(
        names_of(&world.functions, &methods),
        vec![word(&world.interner, "foo"), word(&world.interner, "bar")]
    );
}

#[test]
fn declaring_a_method_again_replaces_it() {
    let mut world = World::new();
    let unit_type = world.unit_type;
    let foo = world.function("foo", 1000, &[], unit_type);
    let bar = world.function("bar", 1100, &[], unit_type);
    let other_foo = world.function("foo", 1200, &[unit_type], unit_type);
    let mut trait_decl = world.trait_decl("Shape", vec![]);
    trait_decl.declare_method(&world.functions, foo);
    trait_decl.declare_method(&world.functions, bar);
    assert_eq!(trait_decl.methods, vec![foo, bar]);
    trait_decl.declare_method(&world.functions, other_foo);
    assert_eq!(trait_decl.methods, vec![other_foo, bar]);
    trait_decl.declare_method(&world.functions, bar);
    assert_eq!(trait_decl.methods, vec![other_foo, bar]);
    assert_eq!(trait_decl.name, world.name("Shape", 500));
}
