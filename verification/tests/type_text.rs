use flux_core::span::{FileId, Span};
use flux_core::tenv::TEnv;
use flux_core::ty::{ConcreteKind, Generic, TypeId, TypeKind};
use flux_core::type_text::{append_decimal, append_handle, append_handles, describe_kind};
use lasso::{Key, ThreadedRodeo};

fn word(interner: &ThreadedRodeo, text: &str) -> u32 {
    interner.get_or_intern(text).into_usize() as u32
}

fn decimal(n: usize) -> String {
    let mut text = String::new();
    append_decimal(&mut text, n);
    text
}

#[test]
fn numbers_are_written_in_decimal() {
    assert_eq!(decimal(0), "0");
    assert_eq!(decimal(7), "7");
    assert_eq!(decimal(10), "10");
    assert_eq!(decimal(1234567890), "1234567890");
    assert_eq!(decimal(usize::MAX), usize::MAX.to_string());
    let mut text = "n = ".to_string();
    append_decimal(&mut text, 405);
    assert_eq!(text, "n = 405");
}

#[test]
fn handles_are_written_with_an_apostrophe() {
    let mut text = String::new();
    append_handle(&mut text, TypeId(42));
    assert_eq!(text, "'42");
    let mut text = "[".to_string();
    append_handles(&mut text, &vec![TypeId(1), TypeId(20), TypeId(3)], "; ");
    assert_eq!(text, "['1; '20; '3");
    let mut text = "x".to_string();
    append_handles(&mut text, &vec![], ", ");
    assert_eq!(text, "x");
    append_handles(&mut text, &vec![TypeId(0)], ", ");
    assert_eq!(text, "x'0");
}

#[test]
fn types_are_described() {
    let interner = ThreadedRodeo::new();
    let describe = |kind: TypeKind| describe_kind(&kind, &interner);
    assert_eq!(describe(TypeKind::Unknown), Some("<unknown type>".to_string()));
    assert_eq!(describe(TypeKind::Never), Some("!".to_string()));
    assert_eq!(describe(TypeKind::Int(None)), Some("int".to_string()));
    assert_eq!(describe(TypeKind::Int(Some(TypeId(3)))), Some("int".to_string()));
    assert_eq!(describe(TypeKind::Float(None)), Some("float".to_string()));
    assert_eq!(
        describe(TypeKind::Generic(Generic::new(word(&interner, "T"), vec![]))),
        Some("T".to_string())
    );
    assert_eq!(
        describe(TypeKind::Concrete(ConcreteKind::Path(vec![word(&interner, "i32")], vec![]))),
        Some("i32".to_string())
    );
    assert_eq!(
        describe(TypeKind::Concrete(ConcreteKind::Path(
            vec![word(&interner, "std"), word(&interner, "Map")],
            vec![TypeId(4), TypeId(17)]
        ))),
        Some("std::Map<'4,'17>".to_string())
    );
    assert_eq!(
        describe(TypeKind::Concrete(ConcreteKind::Ptr(TypeId(9)))),
        Some("*'9".to_string())
    );
    assert_eq!(describe(TypeKind::unit()), Some("()".to_string()));
    assert_eq!(
        describe(TypeKind::Concrete(ConcreteKind::Tuple(vec![TypeId(1), TypeId(2)]))),
        Some("('1, '2)".to_string())
    );
}

#[test]
fn type_with_an_unknown_name_is_not_described() {
    let interner = ThreadedRodeo::new();
    assert_eq!(
        describe_kind(&TypeKind::Concrete(ConcreteKind::Path(vec![9_000_000], vec![])), &interner),
        None
    );
    assert_eq!(describe_kind(&TypeKind::Generic(Generic::new(9_000_000, vec![])), &interner), None);
}

#[test]
fn arena_describes_the_type_behind_a_handle() {
    let interner = ThreadedRodeo::new();
    let place = Span::new(0, 1).in_file(FileId(0));
    let mut env = TEnv::new();
    let named = env.insert(
        TypeKind::Concrete(ConcreteKind::Path(vec![word(&interner, "bool")], vec![])),
        place,
    );
    let pointer = env.insert(TypeKind::Concrete(ConcreteKind::Ptr(named)), place);
    assert_eq!(env.fmt_ty_id(named, &interner), Some("bool".to_string()));
    assert_eq!(env.fmt_ty_id(pointer, &interner), Some("*'0".to_string()));
}
