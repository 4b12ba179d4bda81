use vstd::prelude::*;
use crate::generics::GenericParams;
use crate::intern::Word;
use crate::span::{FileSpan, Spanned};
use crate::tenv::{TEnv, forward};
use crate::ty::{ConcreteKind, ConcreteView, GenericView, KindView, RestrictionView, TraitRestriction, TypeId, TypeKind, copy_ids, copy_words, ids_equal, restriction_views, words_equal};

verus! {

/// Whether an item can be reached from outside the module that declares it.
#[derive(Debug, Clone, Copy, PartialEq, Eq, Structural)]
pub enum Visibility {
    Private,
    Public,
}

/// A scoped name: its segments, and the generic arguments given to it.
#[derive(Debug, PartialEq, Eq, Hash)]
pub struct Path {
    pub segments: Vec<Word>,
    pub generic_args: Vec<TypeId>,
}

pub struct PathView {
    pub segments: Seq<Word>,
    pub generic_args: Seq<TypeId>,
}

impl View for Path {
    type V = PathView;

    open spec fn view(&self) -> PathView {
        PathView { segments: self.segments@, generic_args: self.generic_args@ }
    }
}

impl Clone for Path {
    fn clone(&self) -> (copy: Path)
        ensures
            copy@ == self@,
    {
        Path { segments: copy_words(&self.segments), generic_args: copy_ids(&self.generic_args) }
    }
}

impl Path {
    pub fn new(segments: Vec<Word>, generic_args: Vec<TypeId>) -> (path: Path)
        ensures
            path.segments == segments,
            path.generic_args == generic_args,
    {
        Path { segments, generic_args }
    }

    /// The path that stands for one that could not be read: no segment, no argument.
    pub fn poisoned() -> (path: Path)
        ensures
            path@ == (PathView { segments: Seq::empty(), generic_args: Seq::empty() }),
    {
        Path { segments: Vec::new(), generic_args: Vec::new() }
    }

    /// The segment at `idx`, if the path is that long.
    pub fn try_get(&self, idx: usize) -> (segment: Option<&Word>)
        ensures
            segment == (if idx < self.segments@.len() {
                Some(&self.segments@[idx as int])
            } else {
                None
            }),
    {
        if idx < self.segments.len() {
            Some(&self.segments[idx])
        } else {
            None
        }
    }

    /// The segment at `idx`.
    pub fn get(&self, idx: usize) -> (segment: &Word)
        requires
            idx < self.segments@.len(),
        ensures
            *segment == self.segments@[idx as int],
    {
        &self.segments[idx]
    }

    /// The number of segments.
    pub fn len(&self) -> (n: usize)
        ensures
            n == self.segments@.len(),
    {
        self.segments.len()
    }

    /// Whether the path names one of the generic parameters `generic_params`:
    /// it has a single segment, and a parameter bears that name.
    pub fn is_generic(&self, generic_params: &GenericParams) -> (generic: bool)
        ensures
            generic == (self@.segments.len() == 1 && generic_params@.declares(self@.segments[0])),
    {
        if self.segments.len() != 1 {
            return false;
        }
        generic_params.declares(self.segments[0])
    }

    /// The path as a restriction on a type: the trait it names and its arguments.
    pub fn to_trait_restriction(self) -> (restriction: TraitRestriction)
        ensures
            restriction@ == (RestrictionView {
                path: self@.segments,
                args: self@.generic_args,
            }),
    {
        TraitRestriction::new(self.segments, self.generic_args)
    }

    /// Whether both paths have the same segments and the same arguments.
    pub fn same(&self, other: &Path) -> (same: bool)
        ensures
            same == (self@ == other@),
    {
        words_equal(&self.segments, &other.segments) && ids_equal(
            &self.generic_args,
            &other.generic_args,
        )
    }
}

/// A function of a function table, by its position in the table.
#[derive(Debug, Clone, Copy, PartialEq, Eq, Hash, Structural)]
pub struct FnDeclIdx(pub u32);

/// The signature of a function.
#[derive(Debug, PartialEq, Eq)]
pub struct FnDecl {
    pub name: Spanned<Word>,
    pub visibility: Spanned<Visibility>,
    pub generic_params: Spanned<GenericParams>,
    pub params: Spanned<ParamList>,
    pub return_ty: Spanned<TypeId>,
}

impl FnDecl {
    pub fn new(
        name: Spanned<Word>,
        visibility: Spanned<Visibility>,
        generic_params: Spanned<GenericParams>,
        params: Spanned<ParamList>,
        return_ty: Spanned<TypeId>,
    ) -> (decl: FnDecl)
        ensures
            decl.name == name,
            decl.visibility == visibility,
            decl.generic_params == generic_params,
            decl.params == params,
            decl.return_ty == return_ty,
    {
        FnDecl { name, visibility, generic_params, params, return_ty }
    }
}

/// The declaration of a module.
#[derive(Debug, PartialEq, Eq)]
pub struct ModDecl {
    pub visibility: Spanned<Visibility>,
    pub name: Spanned<Word>,
}

impl ModDecl {
    pub fn new(visibility: Spanned<Visibility>, name: Spanned<Word>) -> (decl: ModDecl)
        ensures
            decl.visibility == visibility,
            decl.name == name,
    {
        ModDecl { visibility, name }
    }
}

/// The declaration of a trait. Its methods are functions of a function
/// table; no two of them bear the same name.
#[derive(Debug, PartialEq, Eq)]
pub struct TraitDecl {
    pub visibility: Spanned<Visibility>,
    pub name: Spanned<Word>,
    pub generic_params: Spanned<GenericParams>,
    pub assoc_type_decls: Vec<AssociatedTypeDecl>,
    pub methods: Vec<FnDeclIdx>,
}

impl TraitDecl {
    pub fn new(
        visibility: Spanned<Visibility>,
        name: Spanned<Word>,
        generic_params: Spanned<GenericParams>,
        assoc_type_decls: Vec<AssociatedTypeDecl>,
        methods: Vec<FnDeclIdx>,
    ) -> (decl: TraitDecl)
        ensures
            decl.visibility == visibility,
            decl.name == name,
            decl.generic_params == generic_params,
            decl.assoc_type_decls == assoc_type_decls,
            decl.methods == methods,
    {
        TraitDecl { visibility, name, generic_params, assoc_type_decls, methods }
    }
}

/// An apply block: the methods given to the type `to_ty`, as an
/// implementation of the trait `trt` where one is named.
#[derive(Debug, PartialEq, Eq)]
pub struct ApplyDecl {
    pub visibility: Spanned<Visibility>,
    pub generic_params: Spanned<GenericParams>,
    pub trt: Option<Spanned<Path>>,
    pub to_ty: Spanned<TypeId>,
    pub assoc_types: Vec<AssociatedTypeDefinition>,
    pub methods: Vec<FnDeclIdx>,
}

impl ApplyDecl {
    pub fn new(
        visibility: Spanned<Visibility>,
        generic_params: Spanned<GenericParams>,
        trt: Option<Spanned<Path>>,
        to_ty: Spanned<TypeId>,
        assoc_types: Vec<AssociatedTypeDefinition>,
        methods: Vec<FnDeclIdx>,
    ) -> (decl: ApplyDecl)
        ensures
            decl.visibility == visibility,
            decl.generic_params == generic_params,
            decl.trt == trt,
            decl.to_ty == to_ty,
            decl.assoc_types == assoc_types,
            decl.methods == methods,
    {
        ApplyDecl { visibility, generic_params, trt, to_ty, assoc_types, methods }
    }
}

/// An associated type, as an apply block defines it.
#[derive(Clone, Copy, PartialEq, Eq, Debug)]
pub struct AssociatedTypeDefinition {
    pub name: Spanned<Word>,
    pub ty: Spanned<TypeId>,
}

impl AssociatedTypeDefinition {
    pub fn new(name: Spanned<Word>, ty: Spanned<TypeId>) -> (definition: AssociatedTypeDefinition)
        ensures
            definition.name == name,
            definition.ty == ty,
    {
        AssociatedTypeDefinition { name, ty }
    }
}

/// A type as it is written in a declaration.
#[derive(PartialEq, Eq, Debug)]
pub enum Type {
    Array(ArrayType),
    Generic(Generic),
    Path(Path),
    ThisPath(ThisPath),
    Ptr(TypeId),
    Tuple(Vec<TypeId>),
    Never,
    Unknown,
}

/// The path of a type inside the trait it is declared by.
#[derive(PartialEq, Eq, Debug)]
pub struct ThisPath {
    pub path: Path,
    pub path_to_trait: Path,
}

impl ThisPath {
    pub fn new(path: Path, path_to_trait: Path) -> (this_path: ThisPath)
        ensures
            this_path.path == path,
            this_path.path_to_trait == path_to_trait,
    {
        ThisPath { path, path_to_trait }
    }
}

/// An array of `num` elements of the type `ty`.
#[derive(Clone, Copy, PartialEq, Eq, Debug)]
pub struct ArrayType {
    pub ty: TypeId,
    pub num: u32,
}

/// A generic parameter used as a type, and the bounds on it.
#[derive(PartialEq, Eq, Debug)]
pub struct Generic {
    pub name: Spanned<Word>,
    pub restrictions: TypeBoundList,
}

impl Generic {
    pub fn new(name: Spanned<Word>, restrictions: TypeBoundList) -> (generic: Generic)
        ensures
            generic.name == name,
            generic.restrictions == restrictions,
    {
        Generic { name, restrictions }
    }
}

/// The parameters of a function, in order.
#[derive(PartialEq, Eq, Debug)]
pub struct ParamList(pub Vec<Param>);

impl ParamList {
    /// The list that stands for one that could not be read: it is empty.
    pub fn poisoned() -> (list: ParamList)
        ensures
            list.0@ == Seq::<Param>::empty(),
    {
        ParamList(Vec::with_capacity(0))
    }

    pub fn new(params: Vec<Param>) -> (list: ParamList)
        ensures
            list.0 == params,
    {
        ParamList(params)
    }

    /// The parameters, in order.
    pub fn iter(&self) -> (params: &Vec<Param>)
        ensures
            params == self.0,
    {
        &self.0
    }

    pub fn is_empty(&self) -> (empty: bool)
        ensures
            empty == (self.0@.len() == 0),
    {
        self.0.len() == 0
    }

    /// The number of parameters.
    pub fn len(&self) -> (count: usize)
        ensures
            count == self.0@.len(),
    {
        self.0.len()
    }
}

/// One parameter of a function.
#[derive(Clone, Copy, PartialEq, Eq, Debug)]
pub struct Param {
    pub name: Spanned<Word>,
    pub ty: Spanned<TypeId>,
}

/// The bounds on one type, in order.
#[derive(PartialEq, Eq, Debug)]
pub struct TypeBoundList(pub Vec<Spanned<TypeBound>>);

impl TypeBoundList {
    pub fn new(type_bound_list: Vec<Spanned<TypeBound>>) -> (list: TypeBoundList)
        ensures
            list.0 == type_bound_list,
    {
        TypeBoundList(type_bound_list)
    }

    /// The bounds, in order.
    pub fn iter(&self) -> (bounds: &Vec<Spanned<TypeBound>>)
        ensures
            bounds == self.0,
    {
        &self.0
    }
}

/// A bound on a type: the trait it has to implement.
#[derive(PartialEq, Eq, Debug, Hash)]
pub struct TypeBound(pub Path);

impl TypeBound {
    pub fn new(path: Path) -> (bound: TypeBound)
        ensures
            bound.0 == path,
    {
        TypeBound(path)
    }

    pub fn path(&self) -> (path: &Path)
        ensures
            *path == self.0,
    {
        &self.0
    }
}

/// An associated type, as a trait declares it.
#[derive(PartialEq, Eq, Debug)]
pub struct AssociatedTypeDecl {
    pub name: Spanned<Word>,
    pub type_bound_list: TypeBoundList,
}

impl AssociatedTypeDecl {
    pub fn new(name: Spanned<Word>, type_bound_list: TypeBoundList) -> (decl: AssociatedTypeDecl)
        ensures
            decl.name == name,
            decl.type_bound_list == type_bound_list,
    {
        AssociatedTypeDecl { name, type_bound_list }
    }
}

/// A value together with its type.
#[derive(Clone, PartialEq, Eq, Debug, Hash)]
pub struct Typed<T> {
    pub tid: TypeId,
    pub inner: T,
}

/// An expression. The only form so far is the one that stands for an
/// expression that could not be read.
#[derive(Clone, Copy, PartialEq, Eq, Debug, Hash)]
pub enum Expr {
    Poisoned,
}

/// An expression of an expression table, by its position in the table.
#[derive(Clone, Copy, PartialEq, Eq, Debug, Hash)]
pub struct ExprIdx(pub u32);

/// The restrictions that a list of bounds stands for, in order.
pub open spec fn bound_restrictions(bounds: Seq<Spanned<TypeBound>>) -> Seq<RestrictionView> {
    Seq::new(
        bounds.len(),
        |i: int|
            RestrictionView {
                path: bounds[i].inner.0@.segments,
                args: bounds[i].inner.0@.generic_args,
            },
    )
}

/// What a written type is in a type arena.
///
/// A path, also one inside a trait, is the named type with its arguments; a
/// pointer and a tuple are themselves; a generic parameter is the type
/// parameter with its bounds as restrictions. An array has no counterpart.
pub open spec fn kind_of(ty: Type) -> KindView {
    match ty {
        Type::Array(_) => arbitrary(),
        Type::Generic(generic) => KindView::Generic(
            GenericView {
                name: generic.name.inner,
                restrictions: bound_restrictions(generic.restrictions.0@),
            },
        ),
        Type::Path(path) => KindView::Concrete(
            ConcreteView::Path(path@.segments, path@.generic_args),
        ),
        Type::ThisPath(this_path) => KindView::Concrete(
            ConcreteView::Path(this_path.path@.segments, this_path.path@.generic_args),
        ),
        Type::Ptr(to) => KindView::Concrete(ConcreteView::Ptr(to)),
        Type::Tuple(types) => KindView::Concrete(ConcreteView::Tuple(types@)),
        Type::Never => KindView::Never,
        Type::Unknown => KindView::Unknown,
    }
}

/// The named type that a path inside a trait stands for.
pub fn this_path_to_tkind(this_path: ThisPath) -> (kind: TypeKind)
    ensures
        kind@ == KindView::Concrete(
            ConcreteView::Path(this_path.path@.segments, this_path.path@.generic_args),
        ),
{
    TypeKind::Concrete(ConcreteKind::Path(this_path.path.segments, this_path.path.generic_args))
}

impl Type {
    /// The unit type: the empty tuple.
    pub fn unit() -> (ty: Type)
        ensures
            ty matches Type::Tuple(types) && types@.len() == 0,
    {
        Type::Tuple(Vec::new())
    }

    /// What this type is in a type arena: see `kind_of`.
    pub fn to_type_kind(self) -> (kind: TypeKind)
        requires
            !(self is Array),
        ensures
            kind@ == kind_of(self),
            forward(kind@) is None,
    {
        match self {
            Type::Array(_) => TypeKind::Unknown,
            Type::Generic(generic) => {
                let bounds = generic.restrictions.0;
                let mut restrictions: Vec<TraitRestriction> = Vec::new();
                let mut i: usize = 0;
                while i < bounds.len()
                    invariant
                        i <= bounds.len(),
                        restriction_views(restrictions@) == bound_restrictions(bounds@).take(
                            i as int,
                        ),
                    decreases bounds.len() - i,
                {
                    let ghost before = restriction_views(restrictions@);
                    restrictions.push(bounds[i].inner.0.clone().to_trait_restriction());
                    assert(restriction_views(restrictions@) =~= before.push(
                        bound_restrictions(bounds@)[i as int],
                    ));
                    assert(bound_restrictions(bounds@).take(i + 1) =~= bound_restrictions(
                        bounds@,
                    ).take(i as int).push(bound_restrictions(bounds@)[i as int]));
                    i += 1;
                }
                assert(bound_restrictions(bounds@).take(bounds.len() as int) =~= bound_restrictions(
                    bounds@,
                ));
                TypeKind::Generic(crate::ty::Generic::new(generic.name.inner, restrictions))
            },
            Type::Path(path) => TypeKind::Concrete(
                ConcreteKind::Path(path.segments, path.generic_args),
            ),
            Type::ThisPath(this_path) => this_path_to_tkind(this_path),
            Type::Ptr(to) => TypeKind::Concrete(ConcreteKind::Ptr(to)),
            Type::Tuple(types) => TypeKind::Concrete(ConcreteKind::Tuple(types)),
            Type::Never => TypeKind::Never,
            Type::Unknown => TypeKind::Unknown,
        }
    }
}

impl TEnv {
    /// Appends the entry that the written type `ty` stands for, and returns
    /// its handle.
    pub fn insert_type(&mut self, ty: Type, span: FileSpan) -> (id: TypeId)
        requires
            !(ty is Array),
            old(self)@.kinds.len() < usize::MAX,
        ensures
            id.0 == old(self)@.kinds.len(),
            final(self)@ == old(self)@.insert(kind_of(ty), span),
            final(self)@.wf(),
    {
        self.insert(ty.to_type_kind(), span)
    }
}

} // verus!
