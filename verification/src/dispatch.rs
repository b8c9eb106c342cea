//! The dispatcher: classifies one parsed construct, routes it to the
//! matching transformer, and hands back the emitted construct set together
//! with the collected diagnostics.

use crate::interface::{entangle_trait_impl, interface_output_ok};
use crate::methods::{
    entangle_handlers_impl, handlers_output_ok, item_diags, items_transformable,
};
use crate::model::{
    construct_wf, Diagnostic, ImplItemV, SourceConstruct, TargetTypeV, TransformError,
    TransformErrorV,
};
use crate::naming::ImplBlockCounter;
use crate::output::Emitted;
use crate::split::{entangle_struct, field_diags, splits_data_type};
use vstd::prelude::*;

verus! {

/// Transforms one source construct. A data type always splits; an
/// implementation block requires a plain type-path target, and a handler
/// block additionally requires every item to have an accepted shape. On an
/// error the construct is aborted: nothing is emitted and no diagnostics are
/// reported for it. Only a successful handler transformation advances the
/// namespace counter.
pub fn entangle(construct: SourceConstruct, counter: &mut ImplBlockCounter) -> (r: (
    Result<Emitted, TransformError>,
    Vec<Diagnostic>,
))
    requires
        construct_wf(construct),
        old(counter).next < u64::MAX,
    ensures
        match construct {
            SourceConstruct::Data(d) => {
                &&& r.0 matches Ok(em) && em matches Emitted::Split(o) && splits_data_type(d, o)
                &&& r.1.deep_view() == field_diags(d.fields.deep_view())
                &&& final(counter).next == old(counter).next
            },
            SourceConstruct::Handlers(b) => {
                &&& (r.0 is Ok <==> (b.self_ty@ is Path && items_transformable(
                    b.items.deep_view(),
                )))
                &&& r.0 matches Ok(em) ==> {
                    &&& em matches Emitted::Handlers(o) && handlers_output_ok(
                        b,
                        old(counter).next as nat,
                        o,
                    )
                    &&& r.1.deep_view() == item_diags(b.items.deep_view())
                    &&& final(counter).next == old(counter).next + 1
                }
                &&& r.0 matches Err(e) ==> {
                    &&& final(counter).next == old(counter).next
                    &&& r.1@.len() == 0
                    &&& match e@ {
                        TransformErrorV::BadImplTarget(t) => b.self_ty@ == TargetTypeV::Other(t),
                        TransformErrorV::UnknownImplItem(t) => b.self_ty@ is Path && exists|
                            i: int,
                        |
                            0 <= i < b.items.deep_view().len() && b.items.deep_view()[i]
                                == ImplItemV::Unknown(t),
                        TransformErrorV::BadReturnType(_) => false,
                    }
                }
            },
            SourceConstruct::Interface(b) => {
                &&& (r.0 is Ok <==> b.self_ty@ is Path)
                &&& r.0 matches Ok(em) ==> em matches Emitted::Interface(o) && interface_output_ok(
                    b,
                    o,
                )
                &&& r.0 matches Err(e) ==> e@ matches TransformErrorV::BadImplTarget(t)
                    && b.self_ty@ == TargetTypeV::Other(t)
                &&& final(counter).next == old(counter).next
                &&& r.1@.len() == 0
            },
        },
{
    match construct {
        SourceConstruct::Data(d) => {
            let (out, diags) = entangle_struct(d);
            (Ok(Emitted::Split(out)), diags)
        },
        SourceConstruct::Handlers(b) => {
            match entangle_handlers_impl(b, counter) {
                Ok((out, diags)) => (Ok(Emitted::Handlers(out)), diags),
                Err(e) => (Err(e), Vec::new()),
            }
        },
        SourceConstruct::Interface(b) => {
            match entangle_trait_impl(b) {
                Ok(out) => (Ok(Emitted::Interface(out)), Vec::new()),
                Err(e) => (Err(e), Vec::new()),
            }
        },
    }
}

} // verus!
