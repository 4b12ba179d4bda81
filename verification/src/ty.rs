use vstd::prelude::*;
use crate::intern::Word;

verus! {

/// A handle on one entry of a type arena.
///
/// A handle only has a meaning in the arena that produced it.
#[derive(Clone, Copy, Debug, PartialEq, Eq, Hash, Structural)]
pub struct TypeId(pub usize);

impl TypeId {
    pub fn new(raw: usize) -> (id: TypeId)
        ensures
            id == TypeId(raw),
    {
        TypeId(raw)
    }

    /// The position of the entry in its arena.
    pub fn raw(self) -> (raw: usize)
        ensures
            raw == self.0,
    {
        self.0
    }
}

/// A trait that a type has to implement: the trait's path and its generic arguments.
#[derive(Debug, PartialEq, Eq)]
pub struct TraitRestriction {
    pub path: Vec<Word>,
    pub args: Vec<TypeId>,
}

/// A type parameter and the traits it must implement.
#[derive(Debug, PartialEq, Eq)]
pub struct Generic {
    pub name: Word,
    pub restrictions: Vec<TraitRestriction>,
}

/// A fully named type.
#[derive(Debug, PartialEq, Eq)]
pub enum ConcreteKind {
    /// A named type and its generic arguments.
    Path(Vec<Word>, Vec<TypeId>),
    /// A pointer to the type behind the handle.
    Ptr(TypeId),
    /// A product of types; the empty tuple is the unit type.
    Tuple(Vec<TypeId>),
}

/// What a type arena holds under one handle.
#[derive(Debug, PartialEq, Eq)]
pub enum TypeKind {
    /// Not constrained yet.
    Unknown,
    /// The bottom type.
    Never,
    /// A type parameter.
    Generic(Generic),
    /// The type of an integer literal; `Some(id)` defers to the entry `id`.
    Int(Option<TypeId>),
    /// The type of a float literal; `Some(id)` defers to the entry `id`.
    Float(Option<TypeId>),
    Concrete(ConcreteKind),
}

pub struct RestrictionView {
    pub path: Seq<Word>,
    pub args: Seq<TypeId>,
}

pub struct GenericView {
    pub name: Word,
    pub restrictions: Seq<RestrictionView>,
}

pub enum ConcreteView {
    Path(Seq<Word>, Seq<TypeId>),
    Ptr(TypeId),
    Tuple(Seq<TypeId>),
}

pub enum KindView {
    Unknown,
    Never,
    Generic(GenericView),
    Int(Option<TypeId>),
    Float(Option<TypeId>),
    Concrete(ConcreteView),
}

impl View for TraitRestriction {
    type V = RestrictionView;

    open spec fn view(&self) -> RestrictionView {
        RestrictionView { path: self.path@, args: self.args@ }
    }
}

/// The views of a list of restrictions, in order.
pub open spec fn restriction_views(restrictions: Seq<TraitRestriction>) -> Seq<RestrictionView> {
    Seq::new(restrictions.len(), |i: int| restrictions[i]@)
}

impl View for Generic {
    type V = GenericView;

    open spec fn view(&self) -> GenericView {
        GenericView { name: self.name, restrictions: restriction_views(self.restrictions@) }
    }
}

impl View for ConcreteKind {
    type V = ConcreteView;

    open spec fn view(&self) -> ConcreteView {
        match self {
            ConcreteKind::Path(segments, args) => ConcreteView::Path(segments@, args@),
            ConcreteKind::Ptr(to) => ConcreteView::Ptr(*to),
            ConcreteKind::Tuple(types) => ConcreteView::Tuple(types@),
        }
    }
}

impl View for TypeKind {
    type V = KindView;

    open spec fn view(&self) -> KindView {
        match self {
            TypeKind::Unknown => KindView::Unknown,
            TypeKind::Never => KindView::Never,
            TypeKind::Generic(generic) => KindView::Generic(generic@),
            TypeKind::Int(to) => KindView::Int(*to),
            TypeKind::Float(to) => KindView::Float(*to),
            TypeKind::Concrete(concrete) => KindView::Concrete(concrete@),
        }
    }
}

/// Whether two lists of names hold the same names in the same order.
pub fn words_equal(a: &Vec<Word>, b: &Vec<Word>) -> (same: bool)
    ensures
        same == (a@ == b@),
{
    if a.len() != b.len() {
        return false;
    }
    let mut i: usize = 0;
    while i < a.len()
        invariant
            i <= a.len(),
            a.len() == b.len(),
            forall|j: int| 0 <= j < i ==> a@[j] == b@[j],
        decreases a.len() - i,
    {
        if a[i] != b[i] {
            return false;
        }
        i += 1;
    }
    assert(a@ =~= b@);
    true
}

/// Whether two lists of handles hold the same handles in the same order.
/// Handles are compared as handles: the entries behind them are not looked at.
pub fn ids_equal(a: &Vec<TypeId>, b: &Vec<TypeId>) -> (same: bool)
    ensures
        same == (a@ == b@),
{
    if a.len() != b.len() {
        return false;
    }
    let mut i: usize = 0;
    while i < a.len()
        invariant
            i <= a.len(),
            a.len() == b.len(),
            forall|j: int| 0 <= j < i ==> a@[j] == b@[j],
        decreases a.len() - i,
    {
        if a[i] != b[i] {
            return false;
        }
        i += 1;
    }
    assert(a@ =~= b@);
    true
}

/// A copy of a list of names.
pub fn copy_words(words: &Vec<Word>) -> (copy: Vec<Word>)
    ensures
        copy@ == words@,
{
    let mut copy: Vec<Word> = Vec::new();
    let mut i: usize = 0;
    while i < words.len()
        invariant
            i <= words.len(),
            copy@ == words@.take(i as int),
        decreases words.len() - i,
    {
        copy.push(words[i]);
        assert(words@.take(i + 1) =~= words@.take(i as int).push(words@[i as int]));
        i += 1;
    }
    assert(words@.take(words@.len() as int) =~= words@);
    copy
}

/// A copy of a list of handles.
pub fn copy_ids(ids: &Vec<TypeId>) -> (copy: Vec<TypeId>)
    ensures
        copy@ == ids@,
{
    let mut copy: Vec<TypeId> = Vec::new();
    let mut i: usize = 0;
    while i < ids.len()
        invariant
            i <= ids.len(),
            copy@ == ids@.take(i as int),
        decreases ids.len() - i,
    {
        copy.push(ids[i]);
        assert(ids@.take(i + 1) =~= ids@.take(i as int).push(ids@[i as int]));
        i += 1;
    }
    assert(ids@.take(ids@.len() as int) =~= ids@);
    copy
}

impl TraitRestriction {
    pub fn new(path: Vec<Word>, args: Vec<TypeId>) -> (restriction: TraitRestriction)
        ensures
            restriction@ == (RestrictionView { path: path@, args: args@ }),
    {
        TraitRestriction { path, args }
    }

    /// Whether both name the same trait with the same generic arguments.
    pub fn same(&self, other: &TraitRestriction) -> (same: bool)
        ensures
            same == (self@ == other@),
    {
        words_equal(&self.path, &other.path) && ids_equal(&self.args, &other.args)
    }
}

impl Clone for TraitRestriction {
    fn clone(&self) -> (copy: TraitRestriction)
        ensures
            copy@ == self@,
    {
        TraitRestriction { path: copy_words(&self.path), args: copy_ids(&self.args) }
    }
}

/// Whether two lists of restrictions hold the same restrictions in the same order.
pub fn restrictions_equal(a: &Vec<TraitRestriction>, b: &Vec<TraitRestriction>) -> (same: bool)
    ensures
        same == (restriction_views(a@) == restriction_views(b@)),
{
    if a.len() != b.len() {
        assert(restriction_views(a@).len() != restriction_views(b@).len());
        return false;
    }
    let mut i: usize = 0;
    while i < a.len()
        invariant
            i <= a.len(),
            a.len() == b.len(),
            forall|j: int| 0 <= j < i ==> a@[j]@ == b@[j]@,
        decreases a.len() - i,
    {
        if !a[i].same(&b[i]) {
            assert(restriction_views(a@)[i as int] != restriction_views(b@)[i as int]);
            return false;
        }
        i += 1;
    }
    assert(restriction_views(a@) =~= restriction_views(b@));
    true
}

/// A copy of a list of restrictions.
pub fn copy_restrictions(restrictions: &Vec<TraitRestriction>) -> (copy: Vec<TraitRestriction>)
    ensures
        restriction_views(copy@) == restriction_views(restrictions@),
{
    let mut copy: Vec<TraitRestriction> = Vec::new();
    let mut i: usize = 0;
    while i < restrictions.len()
        invariant
            i <= restrictions.len(),
            copy.len() == i,
            forall|j: int| 0 <= j < i ==> copy@[j]@ == restrictions@[j]@,
        decreases restrictions.len() - i,
    {
        copy.push(restrictions[i].clone());
        i += 1;
    }
    assert(restriction_views(copy@) =~= restriction_views(restrictions@));
    copy
}

impl Generic {
    pub fn new(name: Word, restrictions: Vec<TraitRestriction>) -> (generic: Generic)
        ensures
            generic@ == (GenericView { name, restrictions: restriction_views(restrictions@) }),
    {
        Generic { name, restrictions }
    }

    /// Whether both are the same parameter with the same restrictions.
    pub fn same(&self, other: &Generic) -> (same: bool)
        ensures
            same == (self@ == other@),
    {
        self.name == other.name && restrictions_equal(&self.restrictions, &other.restrictions)
    }
}

impl Clone for Generic {
    fn clone(&self) -> (copy: Generic)
        ensures
            copy@ == self@,
    {
        Generic { name: self.name, restrictions: copy_restrictions(&self.restrictions) }
    }
}

impl ConcreteKind {
    /// Structural equality. Handles inside the two types are compared as
    /// handles, so two types whose arguments sit in different entries differ,
    /// whatever those entries hold.
    pub fn same(&self, other: &ConcreteKind) -> (same: bool)
        ensures
            same == (self@ == other@),
    {
        match self {
            ConcreteKind::Path(segments, args) => match other {
                ConcreteKind::Path(other_segments, other_args) => words_equal(
                    segments,
                    other_segments,
                ) && ids_equal(args, other_args),
                _ => false,
            },
            ConcreteKind::Ptr(to) => match other {
                ConcreteKind::Ptr(other_to) => *to == *other_to,
                _ => false,
            },
            ConcreteKind::Tuple(types) => match other {
                ConcreteKind::Tuple(other_types) => ids_equal(types, other_types),
                _ => false,
            },
        }
    }
}

impl Clone for ConcreteKind {
    fn clone(&self) -> (copy: ConcreteKind)
        ensures
            copy@ == self@,
    {
        match self {
            ConcreteKind::Path(segments, args) => ConcreteKind::Path(
                copy_words(segments),
                copy_ids(args),
            ),
            ConcreteKind::Ptr(to) => ConcreteKind::Ptr(*to),
            ConcreteKind::Tuple(types) => ConcreteKind::Tuple(copy_ids(types)),
        }
    }
}

impl TypeKind {
    /// The unit type: the empty tuple.
    pub fn unit() -> (kind: TypeKind)
        ensures
            kind@ == KindView::Concrete(ConcreteView::Tuple(Seq::empty())),
    {
        TypeKind::Concrete(ConcreteKind::Tuple(Vec::new()))
    }

    /// Structural equality, with handles compared as handles.
    pub fn same(&self, other: &TypeKind) -> (same: bool)
        ensures
            same == (self@ == other@),
    {
        match self {
            TypeKind::Unknown => match other {
                TypeKind::Unknown => true,
                _ => false,
            },
            TypeKind::Never => match other {
                TypeKind::Never => true,
                _ => false,
            },
            TypeKind::Generic(generic) => match other {
                TypeKind::Generic(other_generic) => generic.same(other_generic),
                _ => false,
            },
            TypeKind::Int(to) => match other {
                TypeKind::Int(other_to) => match (to, other_to) {
                    (Some(x), Some(y)) => *x == *y,
                    (None, None) => true,
                    _ => false,
                },
                _ => false,
            },
            TypeKind::Float(to) => match other {
                TypeKind::Float(other_to) => match (to, other_to) {
                    (Some(x), Some(y)) => *x == *y,
                    (None, None) => true,
                    _ => false,
                },
                _ => false,
            },
            TypeKind::Concrete(concrete) => match other {
                TypeKind::Concrete(other_concrete) => concrete.same(other_concrete),
                _ => false,
            },
        }
    }
}

impl Clone for TypeKind {
    fn clone(&self) -> (copy: TypeKind)
        ensures
            copy@ == self@,
    {
        match self {
            TypeKind::Unknown => TypeKind::Unknown,
            TypeKind::Never => TypeKind::Never,
            TypeKind::Generic(generic) => TypeKind::Generic(generic.clone()),
            TypeKind::Int(to) => TypeKind::Int(*to),
            TypeKind::Float(to) => TypeKind::Float(*to),
            TypeKind::Concrete(concrete) => TypeKind::Concrete(concrete.clone()),
        }
    }
}

} // verus!
