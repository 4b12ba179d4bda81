use vstd::prelude::*;
use crate::def_map::DefMapView;
use crate::hir::Visibility;
use crate::intern::Word;
use crate::item_scope::{ModuleDefId, ModuleId, ModuleItemWithVis};
use crate::packages::{PackageDependency, PackageId, PackageView};
use crate::path_res::{PathFailure, Resolved, first_segment, found_in, lemma_matching_dependency, matching_dependency, packages_wf, resolve_model, resolve_rest, walk};

verus! {

/// A path without segments is empty, wherever it is used.
pub proof fn law_empty_path_fails(
    packages: Seq<PackageView>,
    def_map: DefMapView,
    package_name: Word,
    dependencies: Seq<PackageDependency>,
    module: ModuleId,
)
    requires
        packages_wf(packages),
    ensures
        resolve_model(packages, def_map, package_name, dependencies, Seq::empty(), module) == Err::<
            Resolved,
            PathFailure,
        >(PathFailure::EmptyPath),
{
}

/// A walk only passes through what is public. Its result is the item it
/// started from or a public item, and an error names a segment of the walk.
pub proof fn law_walk_stays_public(
    def_map: DefMapView,
    segments: Seq<Word>,
    current: ModuleItemWithVis,
    at: int,
)
    requires
        0 <= at,
    ensures
        match walk(def_map, segments, current, at) {
            Ok(item) => item == current || item.2 == Visibility::Public,
            Err(PathFailure::UnresolvedPath { segment }) => at <= segment < segments.len(),
            Err(PathFailure::PrivateModule { segment }) => at <= segment < segments.len(),
            Err(PathFailure::EmptyPath) => false,
        },
    decreases segments.len() - at,
{
    if at < segments.len() {
        match current.0 {
            ModuleDefId::ModuleId(module) => match def_map.resolve_name(module, segments[at]) {
                Some(next) => {
                    if next.2 != Visibility::Private {
                        law_walk_stays_public(def_map, segments, next, at + 1);
                    }
                },
                None => {},
            },
            _ => {},
        }
    }
}

/// A resolution inside one package never passes through a private item: what
/// it ends at is public unless it is what the first segment resolved to and
/// that segment is the path's last.
pub proof fn law_rest_stays_public(
    def_map: DefMapView,
    segments: Seq<Word>,
    first: int,
    found: ModuleItemWithVis,
)
    requires
        0 <= first < segments.len(),
    ensures
        match resolve_rest(def_map, segments, first, found) {
            Ok(item) => item.2 == Visibility::Public || (item == found && first + 1
                == segments.len()),
            Err(PathFailure::UnresolvedPath { segment }) => first < segment < segments.len(),
            Err(PathFailure::PrivateModule { segment }) => first <= segment < segments.len(),
            Err(PathFailure::EmptyPath) => false,
        },
{
    law_walk_stays_public(def_map, segments, found, first + 1);
}

/// Where the first segment is found neither in the module, nor among the
/// builtins, nor in the prelude, but a dependency bears its name, the result
/// is that dependency's own resolution of the path; what the dependency
/// finds in itself is reported as found in the dependency.
pub proof fn law_dependency_resolves(
    packages: Seq<PackageView>,
    def_map: DefMapView,
    package_name: Word,
    dependencies: Seq<PackageDependency>,
    segments: Seq<Word>,
    module: ModuleId,
    id: PackageId,
)
    requires
        packages_wf(packages),
        segments.len() > 0,
        segments[0] != package_name,
        def_map.resolve_name(module, segments[0]) is None,
        matching_dependency(packages, dependencies, segments[0]) == Some(id),
    ensures
        (id.0 as int) < packages.len(),
        packages[id.0 as int].name == segments[0],
        resolve_model(packages, def_map, package_name, dependencies, segments, module) == found_in(
            id,
            resolve_model(
                packages,
                packages[id.0 as int].def_map,
                packages[id.0 as int].name,
                packages[id.0 as int].dependencies,
                segments,
                module,
            ),
        ),
{
    lemma_matching_dependency(packages, dependencies, segments[0]);
}

/// The path `dependency::name`, used in a package that does not know
/// `dependency` as a name of its own, resolves to what the dependency of that
/// name declares under `name`, and is reported as found in that dependency.
pub proof fn law_dependency_item_resolves(
    packages: Seq<PackageView>,
    def_map: DefMapView,
    package_name: Word,
    dependencies: Seq<PackageDependency>,
    dependency: Word,
    name: Word,
    module: ModuleId,
    id: PackageId,
    item: ModuleItemWithVis,
)
    requires
        packages_wf(packages),
        dependency != package_name,
        def_map.resolve_name(module, dependency) is None,
        matching_dependency(packages, dependencies, dependency) == Some(id),
        (id.0 as int) < packages.len() ==> packages[id.0 as int].def_map.resolve_name(module, name)
            == Some(item),
    ensures
        resolve_model(
            packages,
            def_map,
            package_name,
            dependencies,
            seq![dependency, name],
            module,
        ) == Ok::<Resolved, PathFailure>((Some(id), item)),
{
    let segments = seq![dependency, name];
    lemma_matching_dependency(packages, dependencies, dependency);
    let package = packages[id.0 as int];
    assert(matching_dependency(packages, package.dependencies, package.name) is None);
    assert(first_segment(package.name, segments) == 1);
    assert(walk(package.def_map, segments, item, 2) == Ok::<ModuleItemWithVis, PathFailure>(item));
    assert(resolve_model(
        packages,
        package.def_map,
        package.name,
        package.dependencies,
        segments,
        module,
    ) == Ok::<Resolved, PathFailure>((None, item)));
}

/// The path `package::module::item`, used outside `package`, resolves only
/// where the module and the item are both public; otherwise the error is a
/// private segment, and it names the first one that is private.
pub proof fn law_foreign_path_needs_public_segments(
    packages: Seq<PackageView>,
    def_map: DefMapView,
    package_name: Word,
    dependencies: Seq<PackageDependency>,
    segments: Seq<Word>,
    module: ModuleId,
    id: PackageId,
    inner: ModuleId,
    inner_owner: ModuleId,
    inner_visibility: Visibility,
    item: ModuleItemWithVis,
)
    requires
        packages_wf(packages),
        segments.len() == 3,
        segments[0] != package_name,
        def_map.resolve_name(module, segments[0]) is None,
        matching_dependency(packages, dependencies, segments[0]) == Some(id),
        (id.0 as int) < packages.len() ==> {
            &&& packages[id.0 as int].def_map.resolve_name(module, segments[1]) == Some(
                (ModuleDefId::ModuleId(inner), inner_owner, inner_visibility),
            )
            &&& packages[id.0 as int].def_map.resolve_name(inner, segments[2]) == Some(item)
        },
    ensures
        resolve_model(packages, def_map, package_name, dependencies, segments, module) == (
        if inner_visibility == Visibility::Private {
            Err::<Resolved, PathFailure>(PathFailure::PrivateModule { segment: 1 })
        } else if item.2 == Visibility::Private {
            Err(PathFailure::PrivateModule { segment: 2 })
        } else {
            Ok((Some(id), item))
        }),
{
    lemma_matching_dependency(packages, dependencies, segments[0]);
    let package = packages[id.0 as int];
    let found = (ModuleDefId::ModuleId(inner), inner_owner, inner_visibility);
    assert(matching_dependency(packages, package.dependencies, package.name) is None);
    assert(first_segment(package.name, segments) == 1);
    assert(walk(package.def_map, segments, item, 3) == Ok::<ModuleItemWithVis, PathFailure>(item));
    assert(walk(package.def_map, segments, found, 2) == if item.2 == Visibility::Private {
        Err::<ModuleItemWithVis, PathFailure>(PathFailure::PrivateModule { segment: 2 })
    } else {
        Ok(item)
    });
    let inside = resolve_model(
        packages,
        package.def_map,
        package.name,
        package.dependencies,
        segments,
        module,
    );
    assert(inside == match resolve_rest(package.def_map, segments, 1, found) {
        Ok(item) => Ok::<Resolved, PathFailure>((None, item)),
        Err(failure) => Err(failure),
    });
}

} // verus!
