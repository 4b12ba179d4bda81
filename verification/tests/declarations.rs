use flux_core::generics::{GenericIdx, GenericParams, WherePredicate};
use flux_core::hir::{
    this_path_to_tkind, ArrayType, AssociatedTypeDecl, AssociatedTypeDefinition, Expr, ExprIdx,
    Generic, ModDecl, ParamList, Path, ThisPath, Type, TypeBound, TypeBoundList, Typed,
    Visibility,
};
use flux_core::lower::{lower_visibility, params_range, return_unification_span};
use flux_core::span::{FileId, InFile, Span, Spanned};
use flux_core::syntax_kind::{SyntaxKind, TokenKind, SYNTAX_KIND_COUNT};
use flux_core::tenv::TEnv;
use flux_core::ty::{ConcreteKind, TraitRestriction, TypeId, TypeKind};
use flux_core::unify::TChecker;

fn span(start: u32, end: u32) -> Span {
    Span::new(start, end)
}

#[test]
fn spans_are_built_and_combined() {
    assert_eq!(span(3, 8), Span { start: 3, end: 8 });
    assert_eq!(span(3, 8).in_file(FileId(2)), InFile { file_id: FileId(2), inner: span(3, 8) });
    assert_eq!(Span::combine(span(3, 8), span(5, 12)), span(3, 12));
    assert_eq!(Span::combine(span(5, 12), span(3, 8)), span(3, 12));
    assert_eq!(Span::combine(span(1, 20), span(3, 8)), span(1, 20));
    assert_eq!(Spanned::new(7, span(1, 2)), Spanned { inner: 7, span: span(1, 2) });
    assert_eq!(InFile::new(7, FileId(1)), InFile { inner: 7, file_id: FileId(1) });
}

#[test]
fn path_gives_its_segments() {
    let path = Path::new(vec![4, 5, 6], vec![TypeId(1)]);
    assert_eq!(path.len(), 3);
    assert_eq!(path.get(0), &4);
    assert_eq!(path.get(2), &6);
    assert_eq!(path.try_get(1), Some(&5));
    assert_eq!(path.try_get(3), None);
    assert_eq!(Path::poisoned(), Path::new(vec![], vec![]));
    assert_eq!(Path::poisoned().try_get(0), None);
    assert!(path.same(&path.clone()));
    assert!(!path.same(&Path::new(vec![4, 5, 6], vec![])));
    assert!(!path.same(&Path::new(vec![4, 5], vec![TypeId(1)])));
    assert_eq!(
        path.to_trait_restriction(),
        TraitRestriction::new(vec![4, 5, 6], vec![TypeId(1)])
    );
}

#[test]
fn generic_params_number_their_parameters() {
    let mut params = GenericParams::new();
    assert_eq!(params.len(), 0);
    assert!(!params.declares(7));
    assert_eq!(params.declare(Spanned::new(7, span(0, 1))), Some(GenericIdx(0)));
    assert_eq!(params.declare(Spanned::new(9, span(3, 4))), Some(GenericIdx(1)));
    assert_eq!(params.len(), 2);
    assert_eq!(params.get(GenericIdx(0)), Some(Spanned::new(7, span(0, 1))));
    assert_eq!(params.get(GenericIdx(1)), Some(Spanned::new(9, span(3, 4))));
    assert_eq!(params.get(GenericIdx(2)), None);
    assert!(params.declares(7));
    assert!(params.declares(9));
    assert!(!params.declares(8));
    assert_eq!(params.invalid_idx(), GenericIdx(u32::MAX));
    assert_eq!(params.get(params.invalid_idx()), None);
    let bound = Spanned::new(Path::new(vec![20], vec![]), span(5, 6));
    params.add_where_predicate(WherePredicate { ty: GenericIdx(1), name: 9, bound: bound.clone() });
    assert_eq!(params.where_predicates(), &vec![WherePredicate { ty: GenericIdx(1), name: 9, bound }]);
}

#[test]
fn path_is_generic_when_it_names_a_parameter() {
    let mut params = GenericParams::new();
    params.declare(Spanned::new(7, span(0, 1)));
    assert!(Path::new(vec![7], vec![]).is_generic(&params));
    assert!(!Path::new(vec![8], vec![]).is_generic(&params));
    assert!(!Path::new(vec![7, 7], vec![]).is_generic(&params));
    assert!(!Path::new(vec![], vec![]).is_generic(&params));
    assert!(!Path::new(vec![7], vec![]).is_generic(&GenericParams::new()));
}

#[test]
fn written_types_become_arena_entries() {
    let file_span = span(0, 1).in_file(FileId(0));
    let mut env = TEnv::new();
    let path = env.insert_type(Type::Path(Path::new(vec![3], vec![TypeId(0)])), file_span);
    let pointer = env.insert_type(Type::Ptr(path), file_span);
    let tuple = env.insert_type(Type::Tuple(vec![path, pointer]), file_span);
    let never = env.insert_type(Type::Never, file_span);
    let unknown = env.insert_type(Type::Unknown, file_span);
    let unit = env.insert_type(Type::unit(), file_span);
    let this = env.insert_type(
        Type::ThisPath(ThisPath::new(Path::new(vec![5, 6], vec![]), Path::new(vec![9], vec![]))),
        file_span,
    );
    let bounds = TypeBoundList::new(vec![
        Spanned::new(TypeBound::new(Path::new(vec![11], vec![])), span(1, 2)),
        Spanned::new(TypeBound::new(Path::new(vec![12, 13], vec![path])), span(3, 4)),
    ]);
    let generic = env.insert_type(Type::Generic(Generic::new(Spanned::new(8, span(0, 1)), bounds)), file_span);
    assert_eq!(env.get(path), &TypeKind::Concrete(ConcreteKind::Path(vec![3], vec![TypeId(0)])));
    assert_eq!(env.get(pointer), &TypeKind::Concrete(ConcreteKind::Ptr(path)));
    assert_eq!(env.get(tuple), &TypeKind::Concrete(ConcreteKind::Tuple(vec![path, pointer])));
    assert_eq!(env.get(never), &TypeKind::Never);
    assert_eq!(env.get(unknown), &TypeKind::Unknown);
    assert_eq!(env.get(unit), &TypeKind::unit());
    assert_eq!(env.get(this), &TypeKind::Concrete(ConcreteKind::Path(vec![5, 6], vec![])));
    assert_eq!(
        env.get(generic),
        &TypeKind::Generic(flux_core::ty::Generic::new(
            8,
            vec![
                TraitRestriction::new(vec![11], vec![]),
                TraitRestriction::new(vec![12, 13], vec![path])
            ]
        ))
    );
    assert_eq!(
        this_path_to_tkind(ThisPath::new(Path::new(vec![1], vec![TypeId(4)]), Path::new(vec![], vec![]))),
        TypeKind::Concrete(ConcreteKind::Path(vec![1], vec![TypeId(4)]))
    );
}

#[test]
fn declarations_hold_what_they_are_given() {
    let name = Spanned::new(4, span(0, 1));
    let visibility = Spanned::new(Visibility::Public, span(2, 3));
    let module = ModDecl::new(visibility, name);
    assert_eq!(module.name, name);
    assert_eq!(module.visibility.inner, Visibility::Public);
    let definition = AssociatedTypeDefinition::new(name, Spanned::new(TypeId(3), span(4, 5)));
    assert_eq!(definition.ty.inner, TypeId(3));
    let declared = AssociatedTypeDecl::new(name, TypeBoundList::new(vec![]));
    assert_eq!(declared.type_bound_list.iter().len(), 0);
    let bound = TypeBound::new(Path::new(vec![1], vec![]));
    assert_eq!(bound.path(), &Path::new(vec![1], vec![]));
    let list = ParamList::poisoned();
    assert!(list.is_empty());
    assert_eq!(list.len(), 0);
    assert_eq!(ParamList::new(vec![]).iter().len(), 0);
    let array = ArrayType { ty: TypeId(1), num: 16 };
    assert_eq!(array.num, 16);
    let typed = Typed { tid: TypeId(2), inner: Expr::Poisoned };
    assert_eq!(typed.clone(), typed);
    assert_eq!(ExprIdx(3), ExprIdx(3));
}

#[test]
fn syntax_kinds_are_numbered_in_order() {
    assert_eq!(SYNTAX_KIND_COUNT, 80);
    assert_eq!(SyntaxKind::Root.to_u16(), 0);
    assert_eq!(SyntaxKind::BinExpr.to_u16(), 1);
    assert_eq!(SyntaxKind::ApplyBlock.to_u16(), 34);
    assert_eq!(SyntaxKind::Whitespace.to_u16(), 35);
    assert_eq!(SyntaxKind::Ident.to_u16(), 57);
    assert_eq!(SyntaxKind::Comma.to_u16(), 58);
    assert_eq!(SyntaxKind::Error.to_u16(), 79);
    assert_eq!(SyntaxKind::from_u16(0), Some(SyntaxKind::Root));
    assert_eq!(SyntaxKind::from_u16(79), Some(SyntaxKind::Error));
    assert_eq!(SyntaxKind::from_u16(80), None);
    assert_eq!(SyntaxKind::from_u16(u16::MAX), None);
    for raw in 0..SYNTAX_KIND_COUNT {
        let kind = SyntaxKind::from_u16(raw).unwrap();
        assert_eq!(kind.to_u16(), raw);
        assert_eq!(SyntaxKind::kind_from_raw(raw), kind);
        assert_eq!(SyntaxKind::kind_to_raw(kind), raw);
    }
    assert!(SyntaxKind::Root < SyntaxKind::Error);
}

#[test]
fn tokens_become_syntax_kinds() {
    assert_eq!(SyntaxKind::from(TokenKind::Root), SyntaxKind::Root);
    assert_eq!(SyntaxKind::from(TokenKind::Ident), SyntaxKind::Ident);
    assert_eq!(SyntaxKind::from(TokenKind::IntLit), SyntaxKind::IntExpr);
    assert_eq!(SyntaxKind::from(TokenKind::FloatLit), SyntaxKind::FloatExpr);
    assert_eq!(SyntaxKind::from(TokenKind::ApplyKw), SyntaxKind::ApplyDecl);
    assert_eq!(SyntaxKind::from(TokenKind::LBrace), SyntaxKind::RBrace);
    assert_eq!(SyntaxKind::from(TokenKind::RBrace), SyntaxKind::RBrace);
    assert_eq!(SyntaxKind::from(TokenKind::LParen), SyntaxKind::LParen);
    assert_eq!(SyntaxKind::from(TokenKind::DoubleColon), SyntaxKind::DoubleColon);
    assert_eq!(SyntaxKind::from(TokenKind::SemiColon), SyntaxKind::SemiColon);
    assert_eq!(SyntaxKind::from(TokenKind::Error), SyntaxKind::Error);
    let kind: SyntaxKind = TokenKind::FnKw.into();
    assert_eq!(kind, SyntaxKind::FnKw);
}

fn params(names: &[(u32, u32)], predicates: &[(u32, u32, u32)]) -> GenericParams {
    let mut params = GenericParams::new();
    for (name, start) in names {
        params.declare(Spanned::new(*name, span(*start, *start + 1)));
    }
    for (idx, name, bound) in predicates {
        params.add_where_predicate(WherePredicate {
            ty: GenericIdx(*idx),
            name: *name,
            bound: Spanned::new(Path::new(vec![*bound], vec![]), span(90, 91)),
        });
    }
    params
}

#[test]
fn union_appends_the_new_parameters_with_their_bounds() {
    let ours = params(&[(1, 0), (2, 5)], &[(1, 2, 50)]);
    let theirs = params(&[(3, 10), (4, 15), (3, 20)], &[(1, 4, 60), (0, 3, 61), (1, 4, 62), (5, 9, 63)]);
    let combined = ours.union(&Spanned::new(theirs, span(0, 30)), span(0, 40)).unwrap();
    assert_eq!(combined.len(), 4);
    assert_eq!(combined.get(GenericIdx(0)), Some(Spanned::new(1, span(0, 1))));
    assert_eq!(combined.get(GenericIdx(1)), Some(Spanned::new(2, span(5, 6))));
    assert_eq!(combined.get(GenericIdx(2)), Some(Spanned::new(3, span(10, 11))));
    assert_eq!(combined.get(GenericIdx(3)), Some(Spanned::new(4, span(15, 16))));
    let bound = |word: u32| Spanned::new(Path::new(vec![word], vec![]), span(90, 91));
    assert_eq!(
        combined.where_predicates(),
        &vec![
            WherePredicate { ty: GenericIdx(1), name: 2, bound: bound(50) },
            WherePredicate { ty: GenericIdx(2), name: 3, bound: bound(61) },
            WherePredicate { ty: GenericIdx(3), name: 4, bound: bound(60) },
            WherePredicate { ty: GenericIdx(3), name: 4, bound: bound(62) },
        ]
    );
}

#[test]
fn union_with_shared_names_hands_back_the_first_set() {
    let ours = params(&[(1, 0), (2, 5), (3, 7)], &[(1, 2, 50)]);
    let theirs = params(&[(3, 10), (4, 15), (1, 20), (3, 25)], &[(1, 4, 60)]);
    let (fallback, duplicates) =
        ours.union(&Spanned::new(theirs, span(0, 30)), span(0, 40)).unwrap_err();
    assert_eq!(duplicates, vec![3, 1]);
    assert_eq!(fallback, params(&[(1, 0), (2, 5), (3, 7)], &[(1, 2, 50)]));
}

#[test]
fn union_with_an_empty_set_changes_nothing() {
    let ours = params(&[(1, 0)], &[(0, 1, 50)]);
    let combined = ours.union(&Spanned::new(GenericParams::new(), span(0, 0)), span(0, 0)).unwrap();
    assert_eq!(combined, params(&[(1, 0)], &[(0, 1, 50)]));
    let combined = GenericParams::new()
        .union(&Spanned::new(params(&[(1, 0)], &[(0, 1, 50)]), span(0, 0)), span(0, 0))
        .unwrap();
    assert_eq!(combined, params(&[(1, 0)], &[(0, 1, 50)]));
    assert_eq!(params(&[(1, 0), (2, 1)], &[]).duplicates(&params(&[(2, 0), (2, 4), (5, 5)], &[])), vec![2]);
}

#[test]
fn parameter_list_is_placed_by_what_was_found() {
    let whole = span(0, 100);
    let open = span(10, 11);
    let close = span(30, 31);
    let params = vec![span(12, 15), span(17, 25)];
    assert_eq!(params_range(Some(open), Some(close), &params, whole), span(10, 31));
    assert_eq!(params_range(Some(open), Some(close), &vec![], whole), span(10, 31));
    assert_eq!(params_range(Some(open), None, &params, whole), span(10, 25));
    assert_eq!(params_range(Some(open), None, &vec![], whole), span(10, 11));
    assert_eq!(params_range(None, Some(close), &params, whole), span(15, 31));
    assert_eq!(params_range(None, Some(close), &vec![], whole), span(30, 31));
    assert_eq!(params_range(None, None, &params, whole), whole);
}

#[test]
fn visibility_follows_the_keyword() {
    assert_eq!(
        lower_visibility(Some(span(3, 6)), span(7, 9)),
        Spanned::new(Visibility::Public, span(3, 6))
    );
    assert_eq!(lower_visibility(None, span(7, 9)), Spanned::new(Visibility::Private, span(7, 9)));
    let statements = vec![span(1, 2), span(3, 4)];
    assert_eq!(return_unification_span(Some(&statements), span(0, 9)), span(3, 4));
    assert_eq!(return_unification_span(Some(&vec![]), span(0, 9)), span(0, 9));
    assert_eq!(return_unification_span(None, span(0, 9)), span(0, 9));
}

#[test]
fn body_type_is_checked_against_the_return_type() {
    let file_span = span(0, 1).in_file(FileId(0));
    let mut checker = TChecker::new(TEnv::new());
    let body = checker.tenv.insert(TypeKind::Unknown, file_span);
    let declared = checker.tenv.insert(TypeKind::unit(), file_span);
    assert_eq!(checker.check_return(body, declared, file_span), Ok(()));
    assert_eq!(checker.tenv.get(body), &TypeKind::unit());
    let other = checker.tenv.insert(TypeKind::Concrete(ConcreteKind::Ptr(body)), file_span);
    assert!(checker.check_return(other, declared, file_span).is_err());
}
