//! The interface-implementation rewriter: only the self-type path is
//! rewritten to point into the generated actor namespace; no item inside the
//! block is inspected or transformed, and no handle-side mirror is produced.

use crate::model::{
    interface_block_wf, InterfaceImplBlock, TargetType, TargetTypeV, TransformError,
    TransformErrorV,
};
use crate::output::InterfaceOutput;
use crate::paths::{get_name_from_path, insert_actor_seg, transform_actor_path};
use vstd::prelude::*;

verus! {

/// What the rewriter guarantees of its output: generics, interface path and
/// every item are carried over unchanged; the self-type path alone gains the
/// actor-namespace segment immediately before its final segment.
pub open spec fn interface_output_ok(block: InterfaceImplBlock, o: InterfaceOutput) -> bool {
    &&& o.generics.deep_view() == block.generics.deep_view()
    &&& o.trait_path@ == block.trait_path@
    &&& o.items.deep_view() == block.items.deep_view()
    &&& o.self_ty@ == insert_actor_seg(block.self_ty@->Path_0)
}

/// Rewrites the self type of an interface implementation block into the
/// actor namespace; the target must be a plain type path.
pub fn entangle_trait_impl(block: InterfaceImplBlock) -> (r: Result<
    InterfaceOutput,
    TransformError,
>)
    requires
        interface_block_wf(block),
    ensures
        r is Ok <==> block.self_ty@ is Path,
        r matches Ok(o) ==> interface_output_ok(block, o),
        r matches Err(e) ==> e@ matches TransformErrorV::BadImplTarget(t) && block.self_ty@
            == TargetTypeV::Other(t),
{
    let InterfaceImplBlock { generics, trait_path, self_ty, items } = block;
    match self_ty {
        TargetType::Other(t) => Err(TransformError::BadImplTarget(t)),
        TargetType::Path(mut path) => {
            let name = get_name_from_path(&path);
            transform_actor_path(name.as_str(), &mut path);
            Ok(InterfaceOutput { generics, trait_path, self_ty: path, items })
        },
    }
}

} // verus!
