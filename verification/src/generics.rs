use vstd::prelude::*;
use crate::hir::Path;
use crate::intern::Word;
use crate::span::{Span, Spanned};

verus! {

/// A generic parameter of one declaration, by its position among the
/// declaration's parameters.
#[derive(Debug, Clone, Copy, PartialEq, Eq, Hash, Structural)]
pub struct GenericIdx(pub u32);

/// A bound on a generic parameter: the parameter `name`, which stands at
/// `ty`, has to implement the trait `bound`.
#[derive(Debug, PartialEq, Eq)]
pub struct WherePredicate {
    pub ty: GenericIdx,
    pub name: Word,
    pub bound: Spanned<Path>,
}

/// The generic parameters of a declaration and the bounds on them.
///
/// The parameters live in an arena that numbers them in 32 bits, so there
/// are never more than `u32::MAX` of them.
#[derive(Debug, PartialEq, Eq)]
pub struct GenericParams {
    types: la_arena::Arena<Spanned<Word>>,
    where_predicates: Vec<WherePredicate>,
}

/// The names that an arena of generic parameters holds, with their spans,
/// in the order of their allocation.
pub uninterp spec fn generic_seq(types: la_arena::Arena<Spanned<Word>>) -> Seq<Spanned<Word>>;

/// `la_arena::Arena::new`: an arena that holds nothing.
#[verifier::external_body]
pub(crate) fn generic_arena() -> (types: la_arena::Arena<Spanned<Word>>)
    ensures
        generic_seq(types) == Seq::<Spanned<Word>>::empty(),
{
    la_arena::Arena::new()
}

/// `la_arena::Arena::len`: the number of parameters held.
#[verifier::external_body]
pub(crate) fn generic_count(types: &la_arena::Arena<Spanned<Word>>) -> (count: usize)
    ensures
        count == generic_seq(*types).len(),
{
    types.len()
}

/// Indexing of `la_arena::Arena` by the index whose raw value is `idx.0`: the
/// parameter allocated at that position, which has to be one of the arena.
#[verifier::external_body]
pub(crate) fn generic_at(types: &la_arena::Arena<Spanned<Word>>, idx: GenericIdx) -> (name: Spanned<
    Word,
>)
    requires
        (idx.0 as int) < generic_seq(*types).len(),
    ensures
        name == generic_seq(*types)[idx.0 as int],
{
    types[la_arena::Idx::from_raw(la_arena::RawIdx::from_u32(idx.0))]
}

/// `la_arena::Arena::alloc`: appends `name` and returns the raw value of its
/// index, which is the number of parameters held before. The arena numbers
/// its values in 32 bits, so it has to hold fewer than `u32::MAX` of them.
#[verifier::external_body]
pub(crate) fn generic_alloc(types: &mut la_arena::Arena<Spanned<Word>>, name: Spanned<Word>) -> (idx:
    GenericIdx)
    requires
        generic_seq(*old(types)).len() < u32::MAX,
    ensures
        generic_seq(*final(types)) == generic_seq(*old(types)).push(name),
        idx.0 == generic_seq(*old(types)).len(),
{
    GenericIdx(types.alloc(name).into_raw().into_u32())
}

pub struct WherePredicateView {
    pub ty: GenericIdx,
    pub name: Word,
    pub bound: crate::hir::PathView,
    pub bound_span: crate::span::Span,
}

impl View for WherePredicate {
    type V = WherePredicateView;

    open spec fn view(&self) -> WherePredicateView {
        WherePredicateView {
            ty: self.ty,
            name: self.name,
            bound: self.bound.inner@,
            bound_span: self.bound.span,
        }
    }
}

/// The mathematical content of a set of generic parameters.
pub struct GenericParamsView {
    pub types: Seq<Spanned<Word>>,
    pub where_predicates: Seq<WherePredicateView>,
}

pub open spec fn predicate_views(predicates: Seq<WherePredicate>) -> Seq<WherePredicateView> {
    Seq::new(predicates.len(), |i: int| predicates[i]@)
}

impl View for GenericParams {
    type V = GenericParamsView;

    closed spec fn view(&self) -> GenericParamsView {
        GenericParamsView {
            types: generic_seq(self.types),
            where_predicates: predicate_views(self.where_predicates@),
        }
    }
}

impl GenericParamsView {
    /// Whether a parameter of the name `name` is among these.
    pub open spec fn declares(self, name: Word) -> bool {
        exists|i: int| 0 <= i < self.types.len() && (#[trigger] self.types[i]).inner == name
    }
}

impl GenericParams {
    #[verifier::type_invariant]
    closed spec fn inv(&self) -> bool {
        generic_seq(self.types).len() <= u32::MAX
    }

    /// No parameter and no bound.
    pub fn new() -> (params: GenericParams)
        ensures
            params@ == (GenericParamsView {
                types: Seq::empty(),
                where_predicates: Seq::empty(),
            }),
    {
        let types = generic_arena();
        let where_predicates: Vec<WherePredicate> = Vec::new();
        assert(predicate_views(where_predicates@) =~= Seq::empty());
        GenericParams { types, where_predicates }
    }

    /// The index that stands for no parameter.
    pub fn invalid_idx(&self) -> (idx: GenericIdx)
        ensures
            idx == GenericIdx(u32::MAX),
            !((idx.0 as int) < self@.types.len()),
    {
        proof {
            use_type_invariant(self);
        }
        GenericIdx(u32::MAX)
    }

    /// The number of parameters.
    pub fn len(&self) -> (count: usize)
        ensures
            count == self@.types.len(),
            count <= u32::MAX,
    {
        proof {
            use_type_invariant(self);
        }
        generic_count(&self.types)
    }

    /// The parameter at `idx`, if there is one.
    pub fn get(&self, idx: GenericIdx) -> (name: Option<Spanned<Word>>)
        ensures
            name == (if (idx.0 as int) < self@.types.len() {
                Some(self@.types[idx.0 as int])
            } else {
                None
            }),
    {
        if (idx.0 as usize) < generic_count(&self.types) {
            Some(generic_at(&self.types, idx))
        } else {
            None
        }
    }

    /// The bounds, in the order in which they were added.
    pub fn where_predicates(&self) -> (predicates: &Vec<WherePredicate>)
        ensures
            predicate_views(predicates@) == self@.where_predicates,
    {
        &self.where_predicates
    }

    /// Adds a parameter and returns its index, or `None` where no index is left.
    pub fn declare(&mut self, name: Spanned<Word>) -> (idx: Option<GenericIdx>)
        ensures
            match idx {
                Some(idx) => {
                    &&& idx.0 == old(self)@.types.len()
                    &&& final(self)@ == (GenericParamsView {
                        types: old(self)@.types.push(name),
                        ..old(self)@
                    })
                },
                None => old(self)@.types.len() >= u32::MAX && final(self)@ == old(self)@,
            },
    {
        proof {
            use_type_invariant(&*self);
        }
        if generic_count(&self.types) >= u32::MAX as usize {
            return None;
        }
        Some(self.append(name))
    }

    /// Adds a parameter where an index is left for it, and returns the index.
    fn append(&mut self, name: Spanned<Word>) -> (idx: GenericIdx)
        requires
            old(self)@.types.len() < u32::MAX,
        ensures
            idx.0 == old(self)@.types.len(),
            final(self)@ == (GenericParamsView {
                types: old(self)@.types.push(name),
                ..old(self)@
            }),
    {
        let mut types = generic_arena();
        // The field is swapped out while it changes, so that the whole is
        // well-formed at every step.
        std::mem::swap(&mut self.types, &mut types);
        let idx = generic_alloc(&mut types, name);
        std::mem::swap(&mut self.types, &mut types);
        idx
    }

    /// The parameter at the position `at`.
    fn nth(&self, at: usize) -> (name: Spanned<Word>)
        requires
            at < self@.types.len(),
        ensures
            name == self@.types[at as int],
    {
        proof {
            use_type_invariant(self);
        }
        generic_at(&self.types, GenericIdx(at as u32))
    }

    /// Adds a bound.
    pub fn add_where_predicate(&mut self, predicate: WherePredicate)
        ensures
            final(self)@ == (GenericParamsView {
                where_predicates: old(self)@.where_predicates.push(predicate@),
                ..old(self)@
            }),
    {
        proof {
            use_type_invariant(&*self);
        }
        let ghost before = self@;
        let mut predicates: Vec<WherePredicate> = Vec::new();
        // The field is swapped out while it changes, so that the whole is
        // well-formed at every step.
        std::mem::swap(&mut self.where_predicates, &mut predicates);
        predicates.push(predicate);
        proof {
            assert(predicate_views(predicates@) =~= before.where_predicates.push(predicate@));
        }
        std::mem::swap(&mut self.where_predicates, &mut predicates);
    }

    /// Whether a parameter of the name `name` is among these.
    pub fn declares(&self, name: Word) -> (found: bool)
        ensures
            found == self@.declares(name),
    {
        proof {
            use_type_invariant(self);
        }
        let count = generic_count(&self.types);
        let mut i: usize = 0;
        while i < count
            invariant
                i <= count,
                count == generic_seq(self.types).len(),
                count <= u32::MAX,
                forall|j: int| 0 <= j < i ==> (#[trigger] generic_seq(self.types)[j]).inner != name,
            decreases count - i,
        {
            if generic_at(&self.types, GenericIdx(i as u32)).inner == name {
                assert(self@.types[i as int].inner == name);
                return true;
            }
            i += 1;
        }
        false
    }
}

/// Whether the name of the parameter `at` is also the name of a parameter
/// before it.
pub open spec fn occurs_before(types: Seq<Spanned<Word>>, at: int) -> bool {
    exists|k: int| 0 <= k < at && (#[trigger] types[k]).inner == types[at].inner
}

/// The names that both sets declare: those of the first `upto` parameters of
/// `theirs` that `ours` declares too, each once, in the order of `theirs`.
pub open spec fn shared_names(ours: GenericParamsView, theirs: Seq<Spanned<Word>>, upto: int) -> Seq<
    Word,
>
    decreases upto,
{
    if upto <= 0 {
        Seq::empty()
    } else {
        let before = shared_names(ours, theirs, upto - 1);
        let name = theirs[upto - 1].inner;
        if !occurs_before(theirs, upto - 1) && ours.declares(name) {
            before.push(name)
        } else {
            before
        }
    }
}

/// The bounds among `predicates` on the parameter `name`, in order, as
/// bounds on the parameter at `idx`.
pub open spec fn moved_predicates(
    predicates: Seq<WherePredicateView>,
    name: Word,
    idx: GenericIdx,
) -> Seq<WherePredicateView>
    decreases predicates.len(),
{
    if predicates.len() == 0 {
        Seq::empty()
    } else {
        let before = moved_predicates(predicates.drop_last(), name, idx);
        if predicates.last().name == name {
            before.push(WherePredicateView { ty: idx, ..predicates.last() })
        } else {
            before
        }
    }
}

/// `ours` with the first `upto` parameters of `theirs` merged in.
///
/// Every parameter of `theirs` whose name neither `ours` nor an earlier
/// parameter of `theirs` bears is appended, in the order of `theirs`, and
/// the bounds of `theirs` on that name follow it as bounds on the appended
/// parameter. What `ours` held stays in front, unchanged.
pub open spec fn merged(ours: GenericParamsView, theirs: GenericParamsView, upto: int) -> GenericParamsView
    decreases upto,
{
    if upto <= 0 {
        ours
    } else {
        let before = merged(ours, theirs, upto - 1);
        let added = theirs.types[upto - 1];
        if occurs_before(theirs.types, upto - 1) || ours.declares(added.inner) {
            before
        } else {
            GenericParamsView {
                types: before.types.push(added),
                where_predicates: before.where_predicates + moved_predicates(
                    theirs.where_predicates,
                    added.inner,
                    GenericIdx(before.types.len() as u32),
                ),
            }
        }
    }
}

/// Where no name is shared, every parameter of `theirs` is new to `ours` or
/// repeats an earlier parameter of `theirs`.
pub proof fn lemma_nothing_shared(ours: GenericParamsView, theirs: Seq<Spanned<Word>>, upto: int)
    requires
        shared_names(ours, theirs, upto).len() == 0,
    ensures
        forall|j: int|
            0 <= j < upto ==> occurs_before(theirs, j) || !ours.declares(
                (#[trigger] theirs[j]).inner,
            ),
    decreases upto,
{
    if upto > 0 {
        let before = shared_names(ours, theirs, upto - 1);
        let name = theirs[upto - 1].inner;
        if !occurs_before(theirs, upto - 1) && ours.declares(name) {
            assert(before.push(name).len() > 0);
        } else {
            lemma_nothing_shared(ours, theirs, upto - 1);
        }
    }
}

/// The shared names are exactly the names that both sets declare.
pub proof fn law_shared_names_are_declared_by_both(
    ours: GenericParamsView,
    theirs: Seq<Spanned<Word>>,
    upto: int,
    name: Word,
)
    requires
        0 <= upto <= theirs.len(),
    ensures
        shared_names(ours, theirs, upto).contains(name) <==> (ours.declares(name) && exists|j: int|
            0 <= j < upto && (#[trigger] theirs[j]).inner == name),
    decreases upto,
{
    if upto > 0 {
        let before = shared_names(ours, theirs, upto - 1);
        let all = shared_names(ours, theirs, upto);
        let last = theirs[upto - 1].inner;
        law_shared_names_are_declared_by_both(ours, theirs, upto - 1, name);
        if before.contains(name) {
            let k = choose|k: int| 0 <= k < before.len() && before[k] == name;
            if all != before {
                assert(all[k] == name);
            }
        }
        if !occurs_before(theirs, upto - 1) && ours.declares(last) {
            assert(all == before.push(last));
            assert(all[all.len() - 1] == last);
            if all.contains(name) && name != last {
                let k = choose|k: int| 0 <= k < all.len() && all[k] == name;
                assert(before[k] == name);
            }
        }
        if ours.declares(name) && last == name && occurs_before(theirs, upto - 1) {
            let k = choose|k: int| 0 <= k < upto - 1 && (#[trigger] theirs[k]).inner == last;
            assert(theirs[k].inner == name);
        }
        if ours.declares(name) && last == name {
            assert(theirs[upto - 1].inner == name);
        }
    }
}

/// Merging only appends: the result has at most as many more parameters as
/// were merged in.
pub proof fn lemma_merged_len(ours: GenericParamsView, theirs: GenericParamsView, upto: int)
    requires
        0 <= upto,
    ensures
        ours.types.len() <= merged(ours, theirs, upto).types.len() <= ours.types.len() + upto,
    decreases upto,
{
    if upto > 0 {
        lemma_merged_len(ours, theirs, upto - 1);
    }
}

impl GenericParams {
    /// Whether the name of the parameter at `at` is also the name of a
    /// parameter before it.
    fn repeats(&self, at: usize) -> (repeated: bool)
        requires
            at < self@.types.len(),
        ensures
            repeated == occurs_before(self@.types, at as int),
    {
        proof {
            use_type_invariant(self);
        }
        let name = self.nth(at).inner;
        let mut k: usize = 0;
        while k < at
            invariant
                k <= at < generic_seq(self.types).len(),
                generic_seq(self.types).len() <= u32::MAX,
                name == generic_seq(self.types)[at as int].inner,
                forall|j: int| 0 <= j < k ==> (#[trigger] generic_seq(self.types)[j]).inner != name,
            decreases at - k,
        {
            if generic_at(&self.types, GenericIdx(k as u32)).inner == name {
                assert(self@.types[k as int].inner == self@.types[at as int].inner);
                return true;
            }
            k += 1;
        }
        false
    }

    /// The names that `self` and `other` both declare: see `shared_names`.
    pub fn duplicates(&self, other: &GenericParams) -> (shared: Vec<Word>)
        ensures
            shared@ == shared_names(self@, other@.types, other@.types.len() as int),
    {
        let count = other.len();
        let mut shared: Vec<Word> = Vec::new();
        let mut j: usize = 0;
        while j < count
            invariant
                j <= count,
                count == other@.types.len(),
                count <= u32::MAX,
                shared@ == shared_names(self@, other@.types, j as int),
            decreases count - j,
        {
            let name = other.nth(j).inner;
            if !other.repeats(j) && self.declares(name) {
                shared.push(name);
            }
            j += 1;
        }
        shared
    }

    /// Appends the bounds of `other` on the parameter `name` as bounds on
    /// the parameter at `idx`.
    fn move_predicates(&mut self, other: &GenericParams, name: Word, idx: GenericIdx)
        ensures
            final(self)@ == (GenericParamsView {
                where_predicates: old(self)@.where_predicates + moved_predicates(
                    other@.where_predicates,
                    name,
                    idx,
                ),
                ..old(self)@
            }),
    {
        let predicates = other.where_predicates();
        let ghost views = other@.where_predicates;
        let ghost start = self@;
        let mut i: usize = 0;
        assert(start.where_predicates + Seq::<WherePredicateView>::empty()
            =~= start.where_predicates);
        while i < predicates.len()
            invariant
                i <= predicates.len(),
                views == predicate_views(predicates@),
                self@ == (GenericParamsView {
                    where_predicates: start.where_predicates + moved_predicates(
                        views.take(i as int),
                        name,
                        idx,
                    ),
                    ..start
                }),
            decreases predicates.len() - i,
        {
            assert(views.take(i + 1).drop_last() =~= views.take(i as int));
            assert(views.take(i + 1).last() == predicates@[i as int]@);
            let ghost moved = moved_predicates(views.take(i as int), name, idx);
            if predicates[i].name == name {
                let predicate = WherePredicate {
                    ty: idx,
                    name,
                    bound: Spanned {
                        inner: predicates[i].bound.inner.clone(),
                        span: predicates[i].bound.span,
                    },
                };
                assert(predicate@ == (WherePredicateView { ty: idx, ..predicates@[i as int]@ }));
                self.add_where_predicate(predicate);
                assert((start.where_predicates + moved).push(predicate@)
                    =~= start.where_predicates + moved.push(predicate@));
            }
            i += 1;
        }
        assert(views.take(predicates.len() as int) =~= views);
    }

    /// Combines two sets of generic parameters.
    ///
    /// Where a name is declared by both, the result is an error that holds
    /// `self` as it was, to go on with, and the shared names. Otherwise it is
    /// `self` with the parameters of `other` and their bounds merged in: see
    /// `merged`. The span is where the combined set is written.
    pub fn union(self, other: &Spanned<GenericParams>, span: Span) -> (result: Result<
        GenericParams,
        (GenericParams, Vec<Word>),
    >)
        requires
            self@.types.len() + other.inner@.types.len() <= u32::MAX,
        ensures
            match result {
                Ok(combined) => {
                    &&& shared_names(
                        self@,
                        other.inner@.types,
                        other.inner@.types.len() as int,
                    ).len() == 0
                    &&& combined@ == merged(self@, other.inner@, other.inner@.types.len() as int)
                },
                Err((fallback, duplicates)) => {
                    &&& duplicates@.len() > 0
                    &&& duplicates@ == shared_names(
                        self@,
                        other.inner@.types,
                        other.inner@.types.len() as int,
                    )
                    &&& fallback@ == self@
                },
            },
    {
        let duplicates = self.duplicates(&other.inner);
        if duplicates.len() > 0 {
            return Err((self, duplicates));
        }
        let ghost ours = self@;
        let ghost theirs = other.inner@;
        proof {
            lemma_nothing_shared(ours, theirs.types, theirs.types.len() as int);
        }
        let count = other.inner.len();
        let mut combined = self;
        let mut j: usize = 0;
        while j < count
            invariant
                j <= count,
                count == theirs.types.len(),
                theirs == other.inner@,
                ours.types.len() + theirs.types.len() <= u32::MAX,
                combined@ == merged(ours, theirs, j as int),
                forall|k: int|
                    0 <= k < count ==> occurs_before(theirs.types, k) || !ours.declares(
                        (#[trigger] theirs.types[k]).inner,
                    ),
            decreases count - j,
        {
            proof {
                lemma_merged_len(ours, theirs, j as int);
            }
            if !other.inner.repeats(j) {
                let added = other.inner.nth(j);
                assert(!ours.declares(theirs.types[j as int].inner));
                let idx = combined.append(added);
                combined.move_predicates(&other.inner, added.inner, idx);
            }
            j += 1;
        }
        Ok(combined)
    }
}

} // verus!
