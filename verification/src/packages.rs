use vstd::prelude::*;
use crate::def_map::{DefMap, DefMapView};
use crate::intern::Word;

verus! {

/// A package, by its position in the table of packages.
#[derive(Debug, Clone, Copy, PartialEq, Eq, Hash, Structural)]
pub struct PackageId(pub u32);

/// One declared dependency of a package.
#[derive(Debug, Clone, Copy, PartialEq, Eq, Hash, Structural)]
pub struct PackageDependency {
    pub package_id: PackageId,
}

/// One package: its name, its modules, and the packages it depends on.
#[derive(Debug)]
pub struct PackageData {
    pub name: Word,
    pub def_map: DefMap,
    pub dependencies: Vec<PackageDependency>,
}

/// The mathematical content of a package.
pub struct PackageView {
    pub name: Word,
    pub def_map: DefMapView,
    pub dependencies: Seq<PackageDependency>,
}

impl View for PackageData {
    type V = PackageView;

    open spec fn view(&self) -> PackageView {
        PackageView {
            name: self.name,
            def_map: self.def_map@,
            dependencies: self.dependencies@,
        }
    }
}

impl PackageData {
    pub fn new(name: Word, def_map: DefMap, dependencies: Vec<PackageDependency>) -> (package:
        PackageData)
        ensures
            package.name == name,
            package.def_map == def_map,
            package.dependencies == dependencies,
    {
        PackageData { name, def_map, dependencies }
    }
}

#[verifier::external_type_specification]
#[verifier::external_body]
#[verifier::reject_recursive_types(T)]
pub struct ExArena<T>(la_arena::Arena<T>);

/// The packages that a table holds, in the order of their allocation.
pub uninterp spec fn package_seq(packages: la_arena::Arena<PackageData>) -> Seq<PackageData>;

/// The contents of the packages of a table, in the order of their allocation.
pub open spec fn package_views(packages: la_arena::Arena<PackageData>) -> Seq<PackageView> {
    Seq::new(package_seq(packages).len(), |i: int| package_seq(packages)[i]@)
}

/// `la_arena::Arena::len`: the number of packages that the table holds.
#[verifier::external_body]
pub(crate) fn package_count(packages: &la_arena::Arena<PackageData>) -> (count: usize)
    ensures
        count == package_seq(*packages).len(),
{
    packages.len()
}

/// Indexing of `la_arena::Arena` by the index whose raw value is `id.0`: the
/// package allocated at that position. The position has to be one of the table.
#[verifier::external_body]
pub(crate) fn package_at(packages: &la_arena::Arena<PackageData>, id: PackageId) -> (package:
    &PackageData)
    requires
        (id.0 as int) < package_seq(*packages).len(),
    ensures
        *package == package_seq(*packages)[id.0 as int],
{
    &packages[la_arena::Idx::from_raw(la_arena::RawIdx::from_u32(id.0))]
}

/// The package at `id`, if the table has one there.
pub fn package(packages: &la_arena::Arena<PackageData>, id: PackageId) -> (found: Option<
    &PackageData,
>)
    ensures
        found == (if (id.0 as int) < package_seq(*packages).len() {
            Some(&package_seq(*packages)[id.0 as int])
        } else {
            None
        }),
{
    if (id.0 as usize) < package_count(packages) {
        Some(package_at(packages, id))
    } else {
        None
    }
}

} // verus!
