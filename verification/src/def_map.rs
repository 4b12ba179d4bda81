use vstd::prelude::*;
use crate::hir::Visibility;
use crate::intern::Word;
use crate::item_scope::{ItemId, ItemScope, ModuleId, ModuleItemWithVis, scope_get};

verus! {

/// One module of a package: its parent, if it has one, and the names it declares.
#[derive(Debug)]
pub struct ModuleData {
    pub parent: Option<ModuleId>,
    pub scope: ItemScope,
}

/// The modules of one package and the scopes shared by all of them.
///
/// A name is looked up in a module's own scope first, then in the builtin
/// scope, then in the scope of the prelude module.
#[derive(Debug)]
pub struct DefMap {
    pub modules: Vec<ModuleData>,
    pub builtin_scope: ItemScope,
    pub prelude: ModuleId,
    pub root: ModuleId,
}

/// The mathematical content of a `DefMap`.
pub struct DefMapView {
    /// The scope of each module, by the module's position.
    pub modules: Seq<Map<Word, ModuleItemWithVis>>,
    pub builtin: Map<Word, ModuleItemWithVis>,
    pub prelude: ModuleId,
    pub root: ModuleId,
}

/// The scopes of `modules`, in order.
pub open spec fn module_scopes(modules: Seq<ModuleData>) -> Seq<Map<Word, ModuleItemWithVis>> {
    Seq::new(modules.len(), |i: int| modules[i].scope@)
}

impl View for DefMap {
    type V = DefMapView;

    open spec fn view(&self) -> DefMapView {
        DefMapView {
            modules: module_scopes(self.modules@),
            builtin: self.builtin_scope@,
            prelude: self.prelude,
            root: self.root,
        }
    }
}

impl DefMapView {
    /// What the module `module` itself declares under `name`. A module that
    /// the package does not have declares nothing.
    pub open spec fn in_module(self, module: ModuleId, name: Word) -> Option<ModuleItemWithVis> {
        if (module.0 as int) < self.modules.len() {
            scope_get(self.modules[module.0 as int], name)
        } else {
            None
        }
    }

    /// What the prelude module declares under `name`.
    pub open spec fn in_prelude(self, name: Word) -> Option<ModuleItemWithVis> {
        self.in_module(self.prelude, name)
    }

    /// What `name` stands for when it is used in the module `module`: the
    /// first hit among the module's own scope, the builtin scope and the
    /// prelude, in this order.
    pub open spec fn resolve_name(self, module: ModuleId, name: Word) -> Option<ModuleItemWithVis> {
        match self.in_module(module, name) {
            Some(found) => Some(found),
            None => match scope_get(self.builtin, name) {
                Some(found) => Some(found),
                None => self.in_prelude(name),
            },
        }
    }
}

impl DefMap {
    /// A package with one module, its root, which is also its prelude, and
    /// with nothing declared.
    pub fn new() -> (def_map: DefMap)
        ensures
            def_map@ == (DefMapView {
                modules: seq![Map::<Word, ModuleItemWithVis>::empty()],
                builtin: Map::<Word, ModuleItemWithVis>::empty(),
                prelude: ModuleId(0),
                root: ModuleId(0),
            }),
    {
        let mut modules: Vec<ModuleData> = Vec::new();
        modules.push(ModuleData { parent: None, scope: ItemScope::new() });
        let def_map = DefMap {
            modules,
            builtin_scope: ItemScope::new(),
            prelude: ModuleId(0),
            root: ModuleId(0),
        };
        assert(def_map@.modules =~= seq![Map::<Word, ModuleItemWithVis>::empty()]);
        def_map
    }

    /// Adds a module that declares nothing yet and returns its id, or `None`
    /// where the module table is full.
    pub fn add_module(&mut self, parent: Option<ModuleId>) -> (id: Option<ModuleId>)
        ensures
            match id {
                Some(id) => {
                    &&& id.0 == old(self)@.modules.len()
                    &&& final(self)@ == (DefMapView {
                        modules: old(self)@.modules.push(Map::empty()),
                        ..old(self)@
                    })
                },
                None => old(self)@.modules.len() >= u32::MAX && *final(self) == *old(self),
            },
    {
        if self.modules.len() >= u32::MAX as usize {
            return None;
        }
        let id = ModuleId(self.modules.len() as u32);
        self.modules.push(ModuleData { parent, scope: ItemScope::new() });
        assert(self@.modules =~= old(self)@.modules.push(Map::empty()));
        Some(id)
    }

    /// Declares `name` in the module `module`. Returns whether the package
    /// has that module; where it has not, nothing changes.
    pub fn declare(
        &mut self,
        module: ModuleId,
        name: Word,
        visibility: Visibility,
        item_id: ItemId,
    ) -> (declared: bool)
        ensures
            declared == ((module.0 as int) < old(self)@.modules.len()),
            declared ==> final(self)@ == (DefMapView {
                modules: old(self)@.modules.update(
                    module.0 as int,
                    old(self)@.modules[module.0 as int].insert(
                        name,
                        (item_id.def, item_id.module_id, visibility),
                    ),
                ),
                ..old(self)@
            }),
            !declared ==> *final(self) == *old(self),
    {
        if (module.0 as usize) < self.modules.len() {
            self.modules[module.0 as usize].scope.declare(name, visibility, item_id);
            assert(self@.modules =~= old(self)@.modules.update(
                module.0 as int,
                old(self)@.modules[module.0 as int].insert(
                    name,
                    (item_id.def, item_id.module_id, visibility),
                ),
            ));
            true
        } else {
            false
        }
    }

    /// Declares `name` in the builtin scope, which every module sees.
    pub fn declare_builtin(&mut self, name: Word, visibility: Visibility, item_id: ItemId)
        ensures
            final(self)@ == (DefMapView {
                builtin: old(self)@.builtin.insert(
                    name,
                    (item_id.def, item_id.module_id, visibility),
                ),
                ..old(self)@
            }),
    {
        self.builtin_scope.declare(name, visibility, item_id);
    }

    /// What `name` stands for when it is used in the module `module`.
    pub fn resolve_name_in_module(&self, module: ModuleId, name: Word) -> (found: Option<
        ModuleItemWithVis,
    >)
        ensures
            found == self@.resolve_name(module, name),
    {
        let from_scope = if (module.0 as usize) < self.modules.len() {
            self.modules[module.0 as usize].scope.get(name)
        } else {
            None
        };
        match from_scope {
            Some(found) => Some(found),
            None => match self.builtin_scope.get(name) {
                Some(found) => Some(found),
                None => self.resolve_in_prelude(name),
            },
        }
    }

    /// What the prelude module declares under `name`.
    pub fn resolve_in_prelude(&self, name: Word) -> (found: Option<ModuleItemWithVis>)
        ensures
            found == self@.in_prelude(name),
    {
        if (self.prelude.0 as usize) < self.modules.len() {
            self.modules[self.prelude.0 as usize].scope.get(name)
        } else {
            None
        }
    }
}

} // verus!
