use vstd::prelude::*;
use crate::def_map::{DefMap, DefMapView};
use crate::hir::{Path, Visibility};
use crate::intern::Word;
use crate::item_scope::{ModuleDefId, ModuleId, ModuleItemWithVis};
use crate::packages::{PackageData, PackageDependency, PackageId, PackageView, package, package_at, package_count, package_seq, package_views};
use crate::span::{Span, Spanned};

verus! {

/// Why a path did not resolve.
#[derive(Clone, Debug, PartialEq, Eq)]
pub enum ResolvePathError {
    /// The path has no segment left to resolve.
    EmptyPath { path_span: Span },
    /// Nothing is declared under the segment at `segment`.
    UnresolvedPath { path: Spanned<Path>, segment: usize },
    /// The segment at `segment` names something private.
    PrivateModule { path: Spanned<Path>, segment: usize },
}

/// What went wrong, without the path it went wrong on.
pub enum PathFailure {
    EmptyPath,
    UnresolvedPath { segment: int },
    PrivateModule { segment: int },
}

impl ResolvePathError {
    /// What went wrong.
    pub open spec fn failure(&self) -> PathFailure {
        match self {
            ResolvePathError::EmptyPath { .. } => PathFailure::EmptyPath,
            ResolvePathError::UnresolvedPath { segment, .. } => PathFailure::UnresolvedPath {
                segment: *segment as int,
            },
            ResolvePathError::PrivateModule { segment, .. } => PathFailure::PrivateModule {
                segment: *segment as int,
            },
        }
    }

    /// Whether the error speaks of the path `path`: it carries the path's
    /// span, and the path itself where it names a segment.
    pub open spec fn about(&self, path: &Spanned<Path>) -> bool {
        match self {
            ResolvePathError::EmptyPath { path_span } => *path_span == path.span,
            ResolvePathError::UnresolvedPath { path: held, .. } => held.inner@ == path.inner@
                && held.span == path.span,
            ResolvePathError::PrivateModule { path: held, .. } => held.inner@ == path.inner@
                && held.span == path.span,
        }
    }
}

/// A resolved item and the package it was found in; `None` stands for the
/// package in which the resolution started.
pub type Resolved = (Option<PackageId>, ModuleItemWithVis);

/// The index of the first segment that has to be resolved: a path may begin
/// with the name of the package it is used in, which is then skipped.
pub open spec fn first_segment(package_name: Word, segments: Seq<Word>) -> int {
    if segments.len() > 0 && segments[0] == package_name {
        1
    } else {
        0
    }
}

/// The first of `dependencies` that is a package of the table and bears the
/// name `name`.
pub open spec fn matching_dependency(
    packages: Seq<PackageView>,
    dependencies: Seq<PackageDependency>,
    name: Word,
) -> Option<PackageId>
    decreases dependencies.len(),
{
    if dependencies.len() == 0 {
        None
    } else {
        let id = dependencies[0].package_id;
        if (id.0 as int) < packages.len() && packages[id.0 as int].name == name {
            Some(id)
        } else {
            matching_dependency(packages, dependencies.drop_first(), name)
        }
    }
}

/// Whether every package of the table can be named by a `PackageId`, and none
/// depends on a package of its own name. Resolution follows dependencies by
/// name, so the latter is what makes it end.
pub open spec fn packages_wf(packages: Seq<PackageView>) -> bool {
    &&& packages.len() <= u32::MAX + 1
    &&& forall|p: int|
        0 <= p < packages.len() ==> (#[trigger] matching_dependency(
            packages,
            packages[p].dependencies,
            packages[p].name,
        )) is None
}

/// Resolves the segments from `at` on, one inside the other, starting from
/// `current`, which the segment before `at` resolved to.
///
/// A module is entered and the next segment looked up in it: nothing there is
/// an unresolved segment, something private a private one. Anything that is
/// no module ends the walk and is the result, whatever segments are left.
pub open spec fn walk(
    def_map: DefMapView,
    segments: Seq<Word>,
    current: ModuleItemWithVis,
    at: int,
) -> Result<ModuleItemWithVis, PathFailure>
    decreases segments.len() - at,
{
    if at >= segments.len() {
        Ok(current)
    } else {
        match current.0 {
            ModuleDefId::ModuleId(module) => match def_map.resolve_name(module, segments[at]) {
                None => Err(PathFailure::UnresolvedPath { segment: at }),
                Some(next) => if next.2 == Visibility::Private {
                    Err(PathFailure::PrivateModule { segment: at })
                } else {
                    walk(def_map, segments, next, at + 1)
                },
            },
            _ => Ok(current),
        }
    }
}

/// The rest of a resolution inside one package, once the segment at `first`
/// has resolved to `found`: a private `found` cannot be passed through, so it
/// is an error unless it is the path's last segment.
pub open spec fn resolve_rest(
    def_map: DefMapView,
    segments: Seq<Word>,
    first: int,
    found: ModuleItemWithVis,
) -> Result<ModuleItemWithVis, PathFailure> {
    if first + 1 < segments.len() && found.2 == Visibility::Private {
        Err(PathFailure::PrivateModule { segment: first })
    } else {
        walk(def_map, segments, found, first + 1)
    }
}

/// The result of a dependency, seen from the package that asked: an item
/// that the dependency found in itself is an item of that dependency.
pub open spec fn found_in(id: PackageId, result: Result<Resolved, PathFailure>) -> Result<
    Resolved,
    PathFailure,
> {
    match result {
        Ok((None, item)) => Ok((Some(id), item)),
        other => other,
    }
}

/// How many packages a resolution may still pass on to: one where a
/// dependency bears the name of the path's first segment, none otherwise.
pub open spec fn hops(
    packages: Seq<PackageView>,
    dependencies: Seq<PackageDependency>,
    segments: Seq<Word>,
) -> nat {
    if segments.len() > 0 && matching_dependency(packages, dependencies, segments[0]) is Some {
        1
    } else {
        0
    }
}

/// Whether `result` is what the resolution `model` of the path `path` comes
/// to: the same item on success, and on failure an error of the same kind
/// and segment that speaks of `path`.
pub open spec fn resolution_is(
    result: Result<Resolved, ResolvePathError>,
    path: &Spanned<Path>,
    model: Result<Resolved, PathFailure>,
) -> bool {
    match result {
        Ok(found) => model matches Ok(expected) && expected == found,
        Err(error) => model matches Err(failure) && failure == error.failure() && error.about(
            path,
        ),
    }
}

/// What a path resolves to.
///
/// - A path without segments, or with nothing but the package's own name, is empty.
/// - The first segment after the package's own name is looked up in the
///   module `module`, then among the builtins, then in the prelude.
/// - Where it is found, the rest resolves inside this package (`resolve_rest`).
/// - Where it is not, the first dependency that bears the name of the path's
///   first segment resolves the whole path in its own modules; without such a
///   dependency the segment is unresolved.
pub open spec fn resolve_model(
    packages: Seq<PackageView>,
    def_map: DefMapView,
    package_name: Word,
    dependencies: Seq<PackageDependency>,
    segments: Seq<Word>,
    module: ModuleId,
) -> Result<Resolved, PathFailure>
    decreases hops(packages, dependencies, segments),
    when packages_wf(packages)
{
    let first = first_segment(package_name, segments);
    if first >= segments.len() {
        Err(PathFailure::EmptyPath)
    } else {
        match def_map.resolve_name(module, segments[first]) {
            Some(found) => match resolve_rest(def_map, segments, first, found) {
                Ok(item) => Ok((None, item)),
                Err(failure) => Err(failure),
            },
            None => match matching_dependency(packages, dependencies, segments[0]) {
                Some(id) => {
                    proof {
                        lemma_matching_dependency(packages, dependencies, segments[0]);
                    }
                    found_in(
                        id,
                        resolve_model(
                            packages,
                            packages[id.0 as int].def_map,
                            packages[id.0 as int].name,
                            packages[id.0 as int].dependencies,
                            segments,
                            module,
                        ),
                    )
                },
                None => Err(PathFailure::UnresolvedPath { segment: first }),
            },
        }
    }
}

/// A matching dependency is a package of the table, bears the name asked
/// for, and is one of the dependencies.
pub proof fn lemma_matching_dependency(
    packages: Seq<PackageView>,
    dependencies: Seq<PackageDependency>,
    name: Word,
)
    ensures
        matching_dependency(packages, dependencies, name) matches Some(id) ==> {
            &&& (id.0 as int) < packages.len()
            &&& packages[id.0 as int].name == name
            &&& exists|k: int| 0 <= k < dependencies.len() && dependencies[k].package_id == id
        },
    decreases dependencies.len(),
{
    if dependencies.len() > 0 {
        let id = dependencies[0].package_id;
        if (id.0 as int) < packages.len() && packages[id.0 as int].name == name {
            assert(dependencies[0].package_id == id);
        } else {
            lemma_matching_dependency(packages, dependencies.drop_first(), name);
            match matching_dependency(packages, dependencies.drop_first(), name) {
                Some(found) => {
                    let k = choose|k: int|
                        0 <= k < dependencies.drop_first().len() && dependencies.drop_first()[k].package_id
                            == found;
                    assert(dependencies[k + 1].package_id == found);
                },
                None => {},
            }
        }
    }
}

/// Whether the table is one that paths can be resolved against: see `packages_wf`.
pub fn packages_well_formed(packages: &la_arena::Arena<PackageData>) -> (ok: bool)
    ensures
        ok == packages_wf(package_views(*packages)),
{
    let count = package_count(packages);
    if count > 0 && count - 1 > u32::MAX as usize {
        return false;
    }
    let mut p: usize = 0;
    while p < count
        invariant
            p <= count,
            count == package_seq(*packages).len(),
            count <= u32::MAX + 1,
            forall|q: int|
                0 <= q < p ==> (#[trigger] matching_dependency(
                    package_views(*packages),
                    package_views(*packages)[q].dependencies,
                    package_views(*packages)[q].name,
                )) is None,
        decreases count - p,
    {
        let this = package_at(packages, PackageId(p as u32));
        assert(package_views(*packages)[p as int] == this@);
        if find_dependency(packages, &this.dependencies, this.name).is_some() {
            assert(matching_dependency(
                package_views(*packages),
                package_views(*packages)[p as int].dependencies,
                package_views(*packages)[p as int].name,
            ) is Some);
            return false;
        }
        p += 1;
    }
    true
}

/// The first of `dependencies` that is a package of the table and bears the
/// name `name`.
pub fn find_dependency(
    packages: &la_arena::Arena<PackageData>,
    dependencies: &Vec<PackageDependency>,
    name: Word,
) -> (found: Option<PackageId>)
    ensures
        found == matching_dependency(package_views(*packages), dependencies@, name),
{
    let mut i: usize = 0;
    assert(dependencies@.skip(0) =~= dependencies@);
    while i < dependencies.len()
        invariant
            i <= dependencies.len(),
            matching_dependency(package_views(*packages), dependencies@, name)
                == matching_dependency(package_views(*packages), dependencies@.skip(i as int), name),
        decreases dependencies.len() - i,
    {
        let id = dependencies[i].package_id;
        assert(dependencies@.skip(i as int).drop_first() =~= dependencies@.skip(i + 1));
        assert(dependencies@.skip(i as int)[0] == dependencies@[i as int]);
        match package(packages, id) {
            Some(candidate) => {
                if candidate.name == name {
                    return Some(id);
                }
            },
            None => {},
        }
        i += 1;
    }
    None
}

/// A copy of a path with its span.
pub fn copy_path(path: &Spanned<Path>) -> (copy: Spanned<Path>)
    ensures
        copy.inner@ == path.inner@,
        copy.span == path.span,
{
    Spanned { inner: path.inner.clone(), span: path.span }
}

impl PackageData {
    /// Resolves `path`, used in the module `original_module_id`, against this
    /// package and, through its dependencies, against the table `packages`.
    pub fn resolve_path(
        &self,
        path: &Spanned<Path>,
        original_module_id: ModuleId,
        packages: &la_arena::Arena<PackageData>,
    ) -> (result: Result<Resolved, ResolvePathError>)
        requires
            packages_wf(package_views(*packages)),
        ensures
            resolution_is(
                result,
                path,
                resolve_model(
                    package_views(*packages),
                    self.def_map@,
                    self.name,
                    self.dependencies@,
                    path.inner@.segments,
                    original_module_id,
                ),
            ),
        decreases hops(package_views(*packages), self.dependencies@, path.inner@.segments), 3nat,
    {
        self.def_map.resolve_path(
            self.name,
            path,
            original_module_id,
            &self.dependencies,
            packages,
        )
    }
}

impl DefMap {
    /// Resolves `path`, used in the module `original_module_id` of the package
    /// `package_name` whose modules these are.
    ///
    /// The result is what `resolve_model` says: the item that the path ends
    /// at, with the dependency it was found in where it was not found in this
    /// package; or the error, with the index of the segment at fault.
    /// Nothing is changed.
    pub fn resolve_path(
        &self,
        package_name: Word,
        path: &Spanned<Path>,
        original_module_id: ModuleId,
        dependencies: &Vec<PackageDependency>,
        packages: &la_arena::Arena<PackageData>,
    ) -> (result: Result<Resolved, ResolvePathError>)
        requires
            packages_wf(package_views(*packages)),
        ensures
            resolution_is(
                result,
                path,
                resolve_model(
                    package_views(*packages),
                    self@,
                    package_name,
                    dependencies@,
                    path.inner@.segments,
                    original_module_id,
                ),
            ),
        decreases hops(package_views(*packages), dependencies@, path.inner@.segments), 2nat,
    {
        proof {
            lemma_matching_dependency(
                package_views(*packages),
                dependencies@,
                path.inner@.segments[0],
            );
        }
        let count = path.inner.segments.len();
        if count == 0 {
            return Err(ResolvePathError::EmptyPath { path_span: path.span });
        }
        // A path may begin with the package's own name: skip it.
        let first: usize = if path.inner.segments[0] == package_name {
            1
        } else {
            0
        };
        if first >= count {
            return Err(ResolvePathError::EmptyPath { path_span: path.span });
        }
        let found = match self.resolve_name_in_module(
            original_module_id,
            path.inner.segments[first],
        ) {
            Some(found) => found,
            None => {
                return self.try_resolve_in_dependency(
                    path,
                    original_module_id,
                    dependencies,
                    packages,
                    first,
                );
            },
        };
        if first + 1 < count && found.2 == Visibility::Private {
            return Err(ResolvePathError::PrivateModule { path: copy_path(path), segment: first });
        }
        let ghost segments = path.inner@.segments;
        let ghost model = resolve_model(
            package_views(*packages),
            self@,
            package_name,
            dependencies@,
            segments,
            original_module_id,
        );
        let mut current = found;
        let mut at: usize = first + 1;
        while at < count
            invariant
                first < at <= count,
                count == segments.len(),
                segments == path.inner@.segments,
                model == resolve_model(
                    package_views(*packages),
                    self@,
                    package_name,
                    dependencies@,
                    segments,
                    original_module_id,
                ),
                model == match walk(self@, segments, current, at as int) {
                    Ok(item) => Ok::<Resolved, PathFailure>((None, item)),
                    Err(failure) => Err(failure),
                },
            decreases count - at,
        {
            match current.0 {
                ModuleDefId::ModuleId(module) => {
                    match self.resolve_name_in_module(module, path.inner.segments[at]) {
                        Some(next) => {
                            if next.2 == Visibility::Private {
                                return Err(
                                    ResolvePathError::PrivateModule {
                                        path: copy_path(path),
                                        segment: at,
                                    },
                                );
                            }
                            current = next;
                        },
                        None => {
                            return Err(
                                ResolvePathError::UnresolvedPath {
                                    path: copy_path(path),
                                    segment: at,
                                },
                            );
                        },
                    }
                },
                _ => {
                    return Ok((None, current));
                },
            }
            at += 1;
        }
        Ok((None, current))
    }

    /// Hands the path to the first dependency that bears the name of the
    /// path's first segment. Where no dependency does, the segment at
    /// `segment`, which did not resolve in this package, is unresolved.
    pub fn try_resolve_in_dependency(
        &self,
        path: &Spanned<Path>,
        original_module_id: ModuleId,
        dependencies: &Vec<PackageDependency>,
        packages: &la_arena::Arena<PackageData>,
        segment: usize,
    ) -> (result: Result<Resolved, ResolvePathError>)
        requires
            packages_wf(package_views(*packages)),
            path.inner@.segments.len() > 0,
        ensures
            resolution_is(
                result,
                path,
                match matching_dependency(
                    package_views(*packages),
                    dependencies@,
                    path.inner@.segments[0],
                ) {
                    Some(id) => found_in(
                        id,
                        resolve_model(
                            package_views(*packages),
                            package_views(*packages)[id.0 as int].def_map,
                            package_views(*packages)[id.0 as int].name,
                            package_views(*packages)[id.0 as int].dependencies,
                            path.inner@.segments,
                            original_module_id,
                        ),
                    ),
                    None => Err(PathFailure::UnresolvedPath { segment: segment as int }),
                },
            ),
        decreases hops(package_views(*packages), dependencies@, path.inner@.segments), 1nat,
    {
        match find_dependency(packages, dependencies, path.inner.segments[0]) {
            Some(id) => {
                proof {
                    lemma_matching_dependency(
                        package_views(*packages),
                        dependencies@,
                        path.inner@.segments[0],
                    );
                    assert(matching_dependency(
                        package_views(*packages),
                        package_views(*packages)[id.0 as int].dependencies,
                        package_views(*packages)[id.0 as int].name,
                    ) is None);
                }
                let dependency = package_at(packages, id);
                assert(package_views(*packages)[id.0 as int] == dependency@);
                match dependency.resolve_path(path, original_module_id, packages) {
                    Ok((None, item)) => Ok((Some(id), item)),
                    Ok((Some(inner), item)) => Ok((Some(inner), item)),
                    Err(error) => Err(error),
                }
            },
            None => Err(ResolvePathError::UnresolvedPath { path: copy_path(path), segment }),
        }
    }
}

} // verus!
