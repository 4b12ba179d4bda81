use vstd::prelude::*;
use crate::intern::Word;
use crate::span::{FileSpan};
use crate::ty::{ConcreteView, KindView, RestrictionView, TraitRestriction, TypeId, TypeKind, words_equal};

verus! {

/// One registered implementation: `implementor` implements the trait that
/// `restriction` names.
#[derive(Debug, PartialEq, Eq)]
pub struct TraitImpl {
    pub restriction: TraitRestriction,
    pub implementor: TypeKind,
}

pub struct TraitImplView {
    pub restriction: RestrictionView,
    pub implementor: KindView,
}

impl View for TraitImpl {
    type V = TraitImplView;

    open spec fn view(&self) -> TraitImplView {
        TraitImplView { restriction: self.restriction@, implementor: self.implementor@ }
    }
}

/// One entry of a type arena: a type and the place in the source it comes from.
#[derive(Debug, PartialEq, Eq)]
pub struct TEntry {
    pub kind: TypeKind,
    pub span: FileSpan,
}

/// The entry that a literal's type variable defers to, if it defers to one.
pub open spec fn forward(kind: KindView) -> Option<TypeId> {
    match kind {
        KindView::Int(Some(to)) => Some(to),
        KindView::Float(Some(to)) => Some(to),
        _ => None,
    }
}

/// Whether an entry `from` that defers to another entry may defer to one that
/// holds `to`: an integer variable defers to integer variables and concrete
/// types, a float variable to float variables and concrete types.
pub open spec fn may_follow(from: KindView, to: KindView) -> bool {
    match from {
        KindView::Int(_) => to is Int || to is Concrete,
        KindView::Float(_) => to is Float || to is Concrete,
        _ => false,
    }
}

/// Whether every entry that may defer to an entry holding `before` may also
/// defer to one holding `after`.
pub open spec fn keeps_family(before: KindView, after: KindView) -> bool {
    match before {
        KindView::Int(_) => after is Int || after is Concrete,
        KindView::Float(_) => after is Float || after is Concrete,
        KindView::Concrete(_) => after is Concrete,
        _ => true,
    }
}

/// Whether the entry `i` is in order under `rank`: it defers to nothing, or to
/// an entry of the arena that has a smaller rank and a kind it may defer to.
pub open spec fn link_ok(kinds: Seq<KindView>, rank: Seq<nat>, i: int) -> bool {
    match forward(kinds[i]) {
        Some(to) => (to.0 as int) < kinds.len() && rank[to.0 as int] < rank[i] && may_follow(
            kinds[i],
            kinds[to.0 as int],
        ),
        None => true,
    }
}

/// Whether `rank` gives every entry a number that falls along every deferral.
pub open spec fn ranked(kinds: Seq<KindView>, rank: Seq<nat>) -> bool {
    &&& rank.len() == kinds.len()
    &&& forall|i: int| 0 <= i < kinds.len() ==> #[trigger] link_ok(kinds, rank, i)
}

/// Whether the deferrals between the entries form no cycle: every chain of
/// deferrals ends, at a variable that defers to nothing or at a concrete type.
pub open spec fn acyclic(kinds: Seq<KindView>) -> bool {
    exists|rank: Seq<nat>| ranked(kinds, rank)
}

/// Some ranking of the entries, where there is one.
pub open spec fn some_rank(kinds: Seq<KindView>) -> Seq<nat> {
    choose|rank: Seq<nat>| ranked(kinds, rank)
}

/// The mathematical content of a type arena.
pub struct TEnvView {
    /// What each handle resolves to.
    pub kinds: Seq<KindView>,
    /// Where each entry comes from.
    pub spans: Seq<FileSpan>,
    /// The paths recognised as integer types.
    pub int_paths: Seq<Seq<Word>>,
    /// The paths recognised as float types.
    pub float_paths: Seq<Seq<Word>>,
    /// The registered trait implementations.
    pub impls: Seq<TraitImplView>,
}

impl TEnvView {
    pub open spec fn empty() -> TEnvView {
        TEnvView {
            kinds: Seq::empty(),
            spans: Seq::empty(),
            int_paths: Seq::empty(),
            float_paths: Seq::empty(),
            impls: Seq::empty(),
        }
    }

    /// Whether `id` is a handle of this arena.
    pub open spec fn has(self, id: TypeId) -> bool {
        (id.0 as int) < self.kinds.len()
    }

    /// What `id` resolves to.
    pub open spec fn kind(self, id: TypeId) -> KindView {
        self.kinds[id.0 as int]
    }

    /// Where the entry `id` comes from.
    pub open spec fn span(self, id: TypeId) -> FileSpan {
        self.spans[id.0 as int]
    }

    /// The arena's invariant: one span per entry, no more entries than a
    /// handle can number, and no cycle of deferrals.
    pub open spec fn wf(self) -> bool {
        &&& self.spans.len() == self.kinds.len()
        &&& self.kinds.len() <= usize::MAX
        &&& acyclic(self.kinds)
    }

    /// Whether an entry holding `kind` can be added: a deferral in it goes to
    /// an entry of the arena of a kind it may defer to.
    pub open spec fn accepts(self, kind: KindView) -> bool {
        match forward(kind) {
            Some(to) => self.has(to) && may_follow(kind, self.kind(to)),
            None => true,
        }
    }

    /// The arena with one more entry at its end.
    pub open spec fn insert(self, kind: KindView, span: FileSpan) -> TEnvView {
        TEnvView { kinds: self.kinds.push(kind), spans: self.spans.push(span), ..self }
    }

    /// The arena with the entry `id` overwritten.
    pub open spec fn set(self, id: TypeId, kind: KindView) -> TEnvView {
        TEnvView { kinds: self.kinds.update(id.0 as int, kind), ..self }
    }

    /// The entry at which the chain of deferrals that starts at `id` ends.
    pub open spec fn root(self, id: TypeId) -> TypeId
        decreases some_rank(self.kinds)[id.0 as int],
        when self.wf() && self.has(id)
    {
        match forward(self.kind(id)) {
            Some(to) => {
                proof {
                    assert(ranked(self.kinds, some_rank(self.kinds)));
                    assert(link_ok(self.kinds, some_rank(self.kinds), id.0 as int));
                }
                self.root(to)
            },
            None => id,
        }
    }

    /// Whether the entry `id` may be overwritten with `kind`: every deferral to
    /// `id` stays in order, and `kind` defers to nothing, or `id` defers to
    /// nothing yet and `kind` defers to an entry whose chain does not end at `id`.
    pub open spec fn can_set(self, id: TypeId, kind: KindView) -> bool {
        &&& self.has(id)
        &&& keeps_family(self.kind(id), kind)
        &&& match forward(kind) {
            Some(to) => {
                &&& forward(self.kind(id)) is None
                &&& self.has(to)
                &&& may_follow(kind, self.kind(to))
                &&& self.root(to) != id
            },
            None => true,
        }
    }

    pub open spec fn is_int_path(self, path: Seq<Word>) -> bool {
        self.int_paths.contains(path)
    }

    pub open spec fn is_float_path(self, path: Seq<Word>) -> bool {
        self.float_paths.contains(path)
    }

    /// Whether an implementation of `restriction` is registered for the type `kind`.
    pub open spec fn implements(self, kind: KindView, restriction: RestrictionView) -> bool {
        self.impls.contains(TraitImplView { restriction, implementor: kind })
    }
}

/// A well-formed arena has a ranking, and every entry is in order under it.
pub proof fn lemma_rank(env: TEnvView)
    requires
        env.wf(),
    ensures
        ranked(env.kinds, some_rank(env.kinds)),
{
}

/// The root of a handle is a handle of the arena that defers to nothing, and
/// the root of an entry that defers to nothing is the entry itself.
pub proof fn lemma_root(env: TEnvView, id: TypeId)
    requires
        env.wf(),
        env.has(id),
    ensures
        env.has(env.root(id)),
        forward(env.kind(env.root(id))) is None,
        forward(env.kind(id)) is None ==> env.root(id) == id,
        forward(env.kind(id)) matches Some(to) ==> env.has(to) && env.root(id) == env.root(to)
            && may_follow(env.kind(id), env.kind(to)),
    decreases some_rank(env.kinds)[id.0 as int],
{
    lemma_rank(env);
    assert(link_ok(env.kinds, some_rank(env.kinds), id.0 as int));
    match forward(env.kind(id)) {
        Some(to) => {
            lemma_root(env, to);
        },
        None => {},
    }
}

/// Adding an acceptable entry keeps the arena well-formed.
pub proof fn lemma_insert_wf(env: TEnvView, kind: KindView, span: FileSpan)
    requires
        env.wf(),
        env.accepts(kind),
        env.kinds.len() < usize::MAX,
    ensures
        env.insert(kind, span).wf(),
{
    lemma_rank(env);
    let rank = some_rank(env.kinds);
    let top: nat = match forward(kind) {
        Some(to) => rank[to.0 as int] + 1,
        None => 0,
    };
    let kinds2 = env.kinds.push(kind);
    let rank2 = rank.push(top);
    assert forall|i: int| 0 <= i < kinds2.len() implies #[trigger] link_ok(kinds2, rank2, i) by {
        if i < env.kinds.len() {
            assert(link_ok(env.kinds, rank, i));
        }
    }
    assert(ranked(kinds2, rank2));
}

/// Overwriting an entry as `can_set` allows keeps the arena well-formed.
pub proof fn lemma_set_wf(env: TEnvView, id: TypeId, kind: KindView)
    requires
        env.wf(),
        env.can_set(id, kind),
    ensures
        env.set(id, kind).wf(),
{
    lemma_rank(env);
    let rank = some_rank(env.kinds);
    let kinds2 = env.kinds.update(id.0 as int, kind);
    match forward(kind) {
        Some(to) => {
            let lift: nat = rank[to.0 as int] + 1;
            let rank2 = Seq::new(
                rank.len(),
                |z: int|
                    if env.root(TypeId(z as usize)) == id {
                        rank[z] + lift
                    } else {
                        rank[z]
                    },
            );
            lemma_root(env, id);
            assert forall|i: int| 0 <= i < kinds2.len() implies #[trigger] link_ok(
                kinds2,
                rank2,
                i,
            ) by {
                assert(link_ok(env.kinds, rank, i));
                let here = TypeId(i as usize);
                assert(here.0 as int == i);
                lemma_root(env, here);
                if i == id.0 as int {
                    assert(here == id);
                } else {
                    match forward(env.kinds[i]) {
                        Some(next) => {
                            assert(TypeId(next.0 as int as usize) == next);
                            lemma_root(env, next);
                        },
                        None => {},
                    }
                }
            }
            assert(ranked(kinds2, rank2));
        },
        None => {
            assert forall|i: int| 0 <= i < kinds2.len() implies #[trigger] link_ok(
                kinds2,
                rank,
                i,
            ) by {
                assert(link_ok(env.kinds, rank, i));
            }
            assert(ranked(kinds2, rank));
        },
    }
}

/// What each of `entries` resolves to, in order.
pub open spec fn entry_kinds(entries: Seq<TEntry>) -> Seq<KindView> {
    Seq::new(entries.len(), |i: int| entries[i].kind@)
}

/// Where each of `entries` comes from, in order.
pub open spec fn entry_spans(entries: Seq<TEntry>) -> Seq<FileSpan> {
    Seq::new(entries.len(), |i: int| entries[i].span)
}

pub open spec fn path_views(paths: Seq<Vec<Word>>) -> Seq<Seq<Word>> {
    Seq::new(paths.len(), |i: int| paths[i]@)
}

pub open spec fn impl_views(impls: Seq<TraitImpl>) -> Seq<TraitImplView> {
    Seq::new(impls.len(), |i: int| impls[i]@)
}

/// The type arena of one checking session.
///
/// It owns every type entry, hands out a handle for each, and never removes
/// or renumbers one. Beside the entries it holds what unification looks up:
/// the paths that count as integer and float types, and the registered trait
/// implementations.
pub struct TEnv {
    entries: Vec<TEntry>,
    int_paths: Vec<Vec<Word>>,
    float_paths: Vec<Vec<Word>>,
    impls: Vec<TraitImpl>,
}

impl View for TEnv {
    type V = TEnvView;

    closed spec fn view(&self) -> TEnvView {
        TEnvView {
            kinds: entry_kinds(self.entries@),
            spans: entry_spans(self.entries@),
            int_paths: path_views(self.int_paths@),
            float_paths: path_views(self.float_paths@),
            impls: impl_views(self.impls@),
        }
    }
}

impl TEnv {
    #[verifier::type_invariant]
    closed spec fn inv(&self) -> bool {
        self@.wf()
    }

    /// An arena with no entry and nothing registered.
    pub fn new() -> (env: TEnv)
        ensures
            env@ == TEnvView::empty(),
            env@.wf(),
    {
        let entries: Vec<TEntry> = Vec::new();
        let int_paths: Vec<Vec<Word>> = Vec::new();
        let float_paths: Vec<Vec<Word>> = Vec::new();
        let impls: Vec<TraitImpl> = Vec::new();
        proof {
            assert(entry_kinds(entries@) =~= Seq::empty());
            assert(entry_spans(entries@) =~= Seq::empty());
            assert(path_views(int_paths@) =~= Seq::empty());
            assert(path_views(float_paths@) =~= Seq::empty());
            assert(impl_views(impls@) =~= Seq::empty());
            assert(ranked(entry_kinds(entries@), Seq::<nat>::empty()));
        }
        TEnv { entries, int_paths, float_paths, impls }
    }

    /// States the arena's invariant, which holds of every arena.
    pub fn well_formed(&self)
        ensures
            self@.wf(),
    {
        proof {
            use_type_invariant(self);
        }
    }

    /// The number of entries.
    pub fn len(&self) -> (n: usize)
        ensures
            n == self@.kinds.len(),
    {
        self.entries.len()
    }

    /// Whether `id` is a handle of this arena.
    pub fn contains(&self, id: TypeId) -> (found: bool)
        ensures
            found == self@.has(id),
    {
        id.0 < self.entries.len()
    }

    /// Whether an entry holding `kind` can be added: see `TEnvView::accepts`.
    pub fn accepts(&self, kind: &TypeKind) -> (ok: bool)
        ensures
            ok == self@.accepts(kind@),
    {
        match follows(kind) {
            Some(to) => to.0 < self.entries.len() && fits_after(kind, &self.entries[to.0].kind),
            None => true,
        }
    }

    /// Whether the entry `id` may be overwritten with `kind`: see
    /// `TEnvView::can_set`.
    pub fn can_set(&self, id: TypeId, kind: &TypeKind) -> (ok: bool)
        ensures
            ok == self@.can_set(id, kind@),
    {
        if id.0 >= self.entries.len() {
            return false;
        }
        if !stays_in_family(&self.entries[id.0].kind, kind) {
            return false;
        }
        match follows(kind) {
            Some(to) => {
                follows(&self.entries[id.0].kind).is_none() && to.0 < self.entries.len()
                    && fits_after(kind, &self.entries[to.0].kind) && self.resolve(to) != id
            },
            None => true,
        }
    }

    /// Appends an entry and returns its handle, which is the number of entries
    /// that were there before. No other entry changes.
    pub fn insert(&mut self, kind: TypeKind, span: FileSpan) -> (id: TypeId)
        requires
            old(self)@.accepts(kind@),
            old(self)@.kinds.len() < usize::MAX,
        ensures
            id.0 == old(self)@.kinds.len(),
            final(self)@ == old(self)@.insert(kind@, span),
            final(self)@.wf(),
    {
        proof {
            use_type_invariant(&*self);
            lemma_insert_wf(self@, kind@, span);
        }
        let id = TypeId(self.entries.len());
        let ghost before = self@;
        let mut entries: Vec<TEntry> = Vec::new();
        proof {
            assert(entry_kinds(entries@) =~= Seq::empty());
            assert(entry_spans(entries@) =~= Seq::empty());
            assert(ranked(entry_kinds(entries@), Seq::<nat>::empty()));
        }
        // The field is swapped out while it changes, so that the whole is
        // well-formed at every step.
        std::mem::swap(&mut self.entries, &mut entries);
        entries.push(TEntry { kind, span });
        proof {
            assert(entry_kinds(entries@) =~= before.kinds.push(kind@));
            assert(entry_spans(entries@) =~= before.spans.push(span));
        }
        std::mem::swap(&mut self.entries, &mut entries);
        id
    }

    /// What `id` resolves to.
    pub fn get(&self, id: TypeId) -> (kind: &TypeKind)
        requires
            self@.has(id),
        ensures
            kind@ == self@.kind(id),
    {
        &self.entries[id.0].kind
    }

    /// Where the entry `id` comes from.
    pub fn get_span(&self, id: TypeId) -> (span: FileSpan)
        requires
            self@.has(id),
        ensures
            span == self@.span(id),
    {
        self.entries[id.0].span
    }

    /// Overwrites the entry `id` in place. Every holder of `id` sees the new
    /// entry afterwards; no other entry changes.
    pub fn set(&mut self, id: TypeId, kind: TypeKind)
        requires
            old(self)@.can_set(id, kind@),
        ensures
            final(self)@ == old(self)@.set(id, kind@),
            final(self)@.wf(),
    {
        proof {
            use_type_invariant(&*self);
            lemma_set_wf(self@, id, kind@);
        }
        let span = self.entries[id.0].span;
        let ghost before = self@;
        let mut entries: Vec<TEntry> = Vec::new();
        proof {
            assert(entry_kinds(entries@) =~= Seq::empty());
            assert(entry_spans(entries@) =~= Seq::empty());
            assert(ranked(entry_kinds(entries@), Seq::<nat>::empty()));
        }
        // The field is swapped out while it changes, so that the whole is
        // well-formed at every step.
        std::mem::swap(&mut self.entries, &mut entries);
        entries.set(id.0, TEntry { kind, span });
        proof {
            assert(entry_kinds(entries@) =~= before.kinds.update(id.0 as int, kind@));
            assert(entry_spans(entries@) =~= before.spans);
        }
        std::mem::swap(&mut self.entries, &mut entries);
    }

    /// Follows the deferrals from `id` to the entry at which they end.
    pub fn resolve(&self, id: TypeId) -> (root: TypeId)
        requires
            self@.has(id),
        ensures
            root == self@.root(id),
    {
        proof {
            use_type_invariant(self);
            lemma_rank(self@);
        }
        let mut current = id;
        loop
            invariant
                self@.wf(),
                self@.has(current),
                self@.root(current) == self@.root(id),
                ranked(self@.kinds, some_rank(self@.kinds)),
            decreases some_rank(self@.kinds)[current.0 as int],
        {
            proof {
                lemma_root(self@, current);
                assert(link_ok(self@.kinds, some_rank(self@.kinds), current.0 as int));
            }
            match follows(&self.entries[current.0].kind) {
                Some(to) => {
                    current = to;
                },
                None => {
                    return current;
                },
            }
        }
    }

    /// Makes `path` count as an integer type.
    pub fn register_int_path(&mut self, path: Vec<Word>)
        ensures
            final(self)@ == (TEnvView {
                int_paths: old(self)@.int_paths.push(path@),
                ..old(self)@
            }),
            final(self)@.wf(),
    {
        proof {
            use_type_invariant(&*self);
        }
        let ghost before = self@;
        let mut paths: Vec<Vec<Word>> = Vec::new();
        proof {
            assert(path_views(paths@) =~= Seq::empty());
        }
        // The field is swapped out while it changes, so that the whole is
        // well-formed at every step.
        std::mem::swap(&mut self.int_paths, &mut paths);
        paths.push(path);
        proof {
            assert(path_views(paths@) =~= before.int_paths.push(path@));
        }
        std::mem::swap(&mut self.int_paths, &mut paths);
    }

    /// Makes `path` count as a float type.
    pub fn register_float_path(&mut self, path: Vec<Word>)
        ensures
            final(self)@ == (TEnvView {
                float_paths: old(self)@.float_paths.push(path@),
                ..old(self)@
            }),
            final(self)@.wf(),
    {
        proof {
            use_type_invariant(&*self);
        }
        let ghost before = self@;
        let mut paths: Vec<Vec<Word>> = Vec::new();
        proof {
            assert(path_views(paths@) =~= Seq::empty());
        }
        // The field is swapped out while it changes, so that the whole is
        // well-formed at every step.
        std::mem::swap(&mut self.float_paths, &mut paths);
        paths.push(path);
        proof {
            assert(path_views(paths@) =~= before.float_paths.push(path@));
        }
        std::mem::swap(&mut self.float_paths, &mut paths);
    }

    /// Records that the type `implementor` implements the trait that
    /// `restriction` names.
    pub fn register_impl(&mut self, restriction: TraitRestriction, implementor: TypeKind)
        ensures
            final(self)@ == (TEnvView {
                impls: old(self)@.impls.push(
                    TraitImplView { restriction: restriction@, implementor: implementor@ },
                ),
                ..old(self)@
            }),
            final(self)@.wf(),
    {
        proof {
            use_type_invariant(&*self);
        }
        let ghost before = self@;
        let ghost added = TraitImplView { restriction: restriction@, implementor: implementor@ };
        let mut impls: Vec<TraitImpl> = Vec::new();
        // The field is swapped out while it changes, so that the whole is
        // well-formed at every step.
        std::mem::swap(&mut self.impls, &mut impls);
        impls.push(TraitImpl { restriction, implementor });
        proof {
            assert(impl_views(impls@) =~= before.impls.push(added));
        }
        std::mem::swap(&mut self.impls, &mut impls);
    }

    /// Whether `path` counts as an integer type.
    pub fn is_int_path(&self, path: &Vec<Word>) -> (found: bool)
        ensures
            found == self@.is_int_path(path@),
    {
        let found = contains_path(&self.int_paths, path);
        found
    }

    /// Whether `path` counts as a float type.
    pub fn is_float_path(&self, path: &Vec<Word>) -> (found: bool)
        ensures
            found == self@.is_float_path(path@),
    {
        let found = contains_path(&self.float_paths, path);
        found
    }

    /// Whether an implementation of `restriction` is registered for `kind`.
    pub fn implements(&self, kind: &TypeKind, restriction: &TraitRestriction) -> (found: bool)
        ensures
            found == self@.implements(kind@, restriction@),
    {
        let ghost wanted = TraitImplView { restriction: restriction@, implementor: kind@ };
        let mut i: usize = 0;
        while i < self.impls.len()
            invariant
                i <= self.impls.len(),
                wanted == (TraitImplView { restriction: restriction@, implementor: kind@ }),
                forall|j: int| 0 <= j < i ==> impl_views(self.impls@)[j] != wanted,
            decreases self.impls.len() - i,
        {
            if self.impls[i].restriction.same(restriction) && self.impls[i].implementor.same(kind) {
                assert(impl_views(self.impls@)[i as int] == wanted);
                return true;
            }
            i += 1;
        }
        false
    }
}

/// The entry that `kind` defers to, if it defers to one.
pub fn follows(kind: &TypeKind) -> (to: Option<TypeId>)
    ensures
        to == forward(kind@),
{
    match kind {
        TypeKind::Int(Some(to)) => Some(*to),
        TypeKind::Float(Some(to)) => Some(*to),
        _ => None,
    }
}

/// Whether an entry holding `from` may defer to one holding `to`.
pub fn fits_after(from: &TypeKind, to: &TypeKind) -> (ok: bool)
    ensures
        ok == may_follow(from@, to@),
{
    match from {
        TypeKind::Int(_) => match to {
            TypeKind::Int(_) => true,
            TypeKind::Concrete(_) => true,
            _ => false,
        },
        TypeKind::Float(_) => match to {
            TypeKind::Float(_) => true,
            TypeKind::Concrete(_) => true,
            _ => false,
        },
        _ => false,
    }
}

/// Whether what may defer to an entry holding `before` may also defer to one
/// holding `after`.
pub fn stays_in_family(before: &TypeKind, after: &TypeKind) -> (ok: bool)
    ensures
        ok == keeps_family(before@, after@),
{
    match before {
        TypeKind::Int(_) => match after {
            TypeKind::Int(_) => true,
            TypeKind::Concrete(_) => true,
            _ => false,
        },
        TypeKind::Float(_) => match after {
            TypeKind::Float(_) => true,
            TypeKind::Concrete(_) => true,
            _ => false,
        },
        TypeKind::Concrete(_) => match after {
            TypeKind::Concrete(_) => true,
            _ => false,
        },
        _ => true,
    }
}

/// Whether `paths` holds `path`.
pub fn contains_path(paths: &Vec<Vec<Word>>, path: &Vec<Word>) -> (found: bool)
    ensures
        found == path_views(paths@).contains(path@),
{
    let mut i: usize = 0;
    while i < paths.len()
        invariant
            i <= paths.len(),
            forall|j: int| 0 <= j < i ==> path_views(paths@)[j] != path@,
        decreases paths.len() - i,
    {
        if words_equal(&paths[i], path) {
            assert(path_views(paths@)[i as int] == path@);
            return true;
        }
        i += 1;
    }
    false
}

} // verus!
