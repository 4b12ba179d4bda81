use std::collections::HashMap;
use vstd::prelude::*;
use vstd::std_specs::hash::*;
use crate::hir::Visibility;
use crate::intern::Word;

verus! {

broadcast use vstd::std_specs::hash::group_hash_axioms;

/// A module of one package, by its position in the package's module table.
#[derive(Debug, Clone, Copy, PartialEq, Eq, Hash, Structural)]
pub struct ModuleId(pub u32);

/// A tagged reference to something a name can stand for.
#[derive(Debug, Clone, Copy, PartialEq, Eq, Hash, Structural)]
pub enum ModuleDefId {
    ApplyId(u32),
    EnumId(u32),
    FunctionId(u32),
    ModuleId(ModuleId),
    StructId(u32),
    TraitId(u32),
    UseId(u32),
}

/// An item and the module that declares it.
#[derive(Debug, Clone, Copy, PartialEq, Eq, Hash, Structural)]
pub struct ItemId {
    pub module_id: ModuleId,
    pub def: ModuleDefId,
}

/// What a name resolves to: the item, the module that declares it, and the
/// visibility it was declared with.
pub type ModuleItemWithVis = (ModuleDefId, ModuleId, Visibility);

/// The names declared in one module. A name is declared at most once: a
/// later declaration of the same name replaces the earlier one.
#[derive(Debug)]
pub struct ItemScope {
    pub items: HashMap<Word, (Visibility, ItemId)>,
}

impl View for ItemScope {
    type V = Map<Word, ModuleItemWithVis>;

    open spec fn view(&self) -> Map<Word, ModuleItemWithVis> {
        Map::new(
            |name: Word| self.items@.contains_key(name),
            |name: Word| (self.items@[name].1.def, self.items@[name].1.module_id, self.items@[name].0),
        )
    }
}

/// What `scope` holds under `name`, if anything.
pub open spec fn scope_get(scope: Map<Word, ModuleItemWithVis>, name: Word) -> Option<
    ModuleItemWithVis,
> {
    if scope.contains_key(name) {
        Some(scope[name])
    } else {
        None
    }
}

impl ItemScope {
    /// A scope that declares nothing.
    pub fn new() -> (scope: ItemScope)
        ensures
            scope@ == Map::<Word, ModuleItemWithVis>::empty(),
    {
        let scope = ItemScope { items: HashMap::new() };
        assert(scope@ =~= Map::<Word, ModuleItemWithVis>::empty());
        scope
    }

    /// Declares `name` as `item_id` with the given visibility. Every other
    /// name keeps what it stood for.
    pub fn declare(&mut self, name: Word, visibility: Visibility, item_id: ItemId)
        ensures
            final(self)@ == old(self)@.insert(name, (item_id.def, item_id.module_id, visibility)),
    {
        self.items.insert(name, (visibility, item_id));
        assert(self@ =~= old(self)@.insert(name, (item_id.def, item_id.module_id, visibility)));
    }

    /// What `name` stands for in this scope, if it is declared here.
    pub fn get(&self, name: Word) -> (found: Option<ModuleItemWithVis>)
        ensures
            found == scope_get(self@, name),
    {
        match self.items.get(&name) {
            Some(entry) => Some((entry.1.def, entry.1.module_id, entry.0)),
            None => None,
        }
    }
}

} // verus!
