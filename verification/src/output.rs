//! The model of the emitted declarations: the handle type with its two
//! accessors, the actor namespace with the actor declaration, the mirrored
//! implementation-block pair, and the rewritten interface implementation.

use crate::model::{Field, ImplItem, TypePath, Vis};
use vstd::prelude::*;

verus! {

/// A reference to the mailbox-address type, parameterized by the actor type
/// inside its generated namespace.
#[derive(Clone, Debug, PartialEq, Eq)]
pub struct AddressType {
    pub actor_mod: String,
    pub actor_name: String,
    pub generics: Vec<String>,
}

/// One accessor method emitted on the handle: either the owning extraction
/// of the mailbox address (`consumes` set) or the borrowing reference to it.
#[derive(Clone, Debug, PartialEq, Eq)]
pub struct Accessor {
    pub vis: Vis,
    pub name: String,
    pub consumes: bool,
    pub addr: AddressType,
}

/// The emitted handle declaration: same name, scope and generics as the
/// input data type, a single private field holding the mailbox address, and
/// shallow-copy duplication (`duplicable` set) so that many independent
/// handles can reference one running actor.
#[derive(Clone, Debug, PartialEq, Eq)]
pub struct HandleStruct {
    pub vis: Vis,
    pub name: String,
    pub generics: Vec<String>,
    pub duplicable: bool,
    pub addr_field: AddressType,
}

/// The emitted actor declaration inside the generated namespace: the
/// original name, generics, attributes and ordered fields, with normalized
/// field scopes.
#[derive(Clone, Debug, PartialEq, Eq)]
pub struct ActorStruct {
    pub attrs: Vec<String>,
    pub name: String,
    pub generics: Vec<String>,
    pub fields: Vec<Field>,
}

/// Everything the data-type splitter emits for one input data type.
#[derive(Clone, Debug, PartialEq, Eq)]
pub struct StructOutput {
    pub handle: HandleStruct,
    pub into_accessor: Accessor,
    pub borrow_accessor: Accessor,
    pub actor_mod: String,
    pub actor_mod_vis: Vis,
    pub actor: ActorStruct,
}

/// One emitted implementation block.
#[derive(Clone, Debug, PartialEq, Eq)]
pub struct ImplDecl {
    pub generics: Vec<String>,
    pub self_ty: TypePath,
    pub items: Vec<ImplItem>,
}

/// The method transformer's output: a freshly numbered namespace holding the
/// actor-side implementation (the real logic) and the handle-side
/// implementation (every method forwarding through the mailbox), plus the
/// import of the actor type that lets both compile.
#[derive(Clone, Debug, PartialEq, Eq)]
pub struct HandlerOutput {
    pub mod_name: String,
    pub use_path: TypePath,
    pub actor_impl: ImplDecl,
    pub handle_impl: ImplDecl,
}

/// The interface-implementation rewriter's output: the same block with only
/// the self-type path rewritten into the actor namespace.
#[derive(Clone, Debug, PartialEq, Eq)]
pub struct InterfaceOutput {
    pub generics: Vec<String>,
    pub trait_path: TypePath,
    pub self_ty: TypePath,
    pub items: Vec<ImplItem>,
}

/// The emitted construct set for one transformation invocation.
#[derive(Clone, Debug, PartialEq, Eq)]
pub enum Emitted {
    Split(StructOutput),
    Handlers(HandlerOutput),
    Interface(InterfaceOutput),
}

} // verus!
