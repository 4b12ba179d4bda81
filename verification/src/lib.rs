pub mod conformance;
pub mod conformance_laws;
pub mod def_map;
pub mod generics;
pub mod hir;
pub mod intern;
pub mod item_scope;
pub mod lower;
pub mod lower_error;
pub mod packages;
pub mod path_laws;
pub mod path_res;
pub mod span;
pub mod syntax_kind;
pub mod tenv;
pub mod ty;
pub mod type_text;
pub mod unify;
pub mod unify_laws;
