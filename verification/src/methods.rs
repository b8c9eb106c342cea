//! The method transformer: one handler implementation block becomes a
//! freshly numbered namespace holding the actor-side implementation (the
//! real logic, scopes normalized) and the handle-side implementation (every
//! method rewritten to forward its call as a message through the mailbox).

use crate::cloning::{
    clone_impl_item, clone_method_body, clone_opt_string, clone_params, clone_path, clone_seg,
    clone_strings, clone_vis,
};
use crate::model::{
    handler_block_wf, item_vis, item_wf, Diagnostic, DiagnosticV, HandlerImplBlock,
    ImplItem, ImplItemV, MethodBody, MethodBodyV, MethodItem, MethodItemV, ParamV, PathSeg, PathSegV,
    TargetType, TargetTypeV, TransformError, TransformErrorV, TypePath, VisV,
};
use crate::naming::{impl_mod_chars, ImplBlockCounter};
use crate::output::{HandlerOutput, ImplDecl};
use crate::paths::{get_name_from_path, insert_actor_seg, transform_actor_path};
use crate::visibility::{normalize_vis, restricted_path, set_visibility_min_pub_super, vis_warns};
use vstd::prelude::*;

verus! {

/// The names of a parameter list, in order.
pub open spec fn param_names(ps: Seq<ParamV>) -> Seq<Seq<char>> {
    ps.map_values(|p: ParamV| p.name)
}

/// The handle-side mirror of a method: the signature (scope, name, receiver,
/// parameters, return type) is preserved exactly; the body becomes the
/// forwarding operation that packages the arguments into a message tagged
/// with the method's identity and dispatches it through the mailbox.
pub open spec fn forwarded_method(m: MethodItemV) -> MethodItemV {
    MethodItemV {
        body: MethodBodyV::Forward { message: m.name, args: param_names(m.params) },
        ..m
    }
}

/// The handle-side mirror of one item: methods forward; constants,
/// associated types, macro and verbatim items pass through unchanged.
pub open spec fn transformed_item(it: ImplItemV) -> ImplItemV {
    match it {
        ImplItemV::Method(m) => ImplItemV::Method(forwarded_method(m)),
        _ => it,
    }
}

/// True when every item of a block has a shape the transformer was designed
/// to accept.
pub open spec fn items_transformable(s: Seq<ImplItemV>) -> bool {
    forall|i: int| 0 <= i < s.len() ==> !(#[trigger] s[i] is Unknown)
}

/// The actor-side mirror of one item: declared scopes of constants,
/// associated types and methods are normalized; everything else, bodies
/// included, is unchanged.
pub open spec fn normalized_item(it: ImplItemV) -> ImplItemV {
    match it {
        ImplItemV::ConstItem { vis, name, text } => ImplItemV::ConstItem {
            vis: normalize_vis(vis),
            name,
            text,
        },
        ImplItemV::TypeAlias { vis, name, text } => ImplItemV::TypeAlias {
            vis: normalize_vis(vis),
            name,
            text,
        },
        ImplItemV::Method(m) => ImplItemV::Method(MethodItemV { vis: normalize_vis(m.vis), ..m }),
        _ => it,
    }
}

/// The declared scope of an item; a private scope where it declares none
/// (such an item never warns).
pub open spec fn item_scope(it: ImplItemV) -> VisV {
    match item_vis(it) {
        Some(v) => v,
        None => VisV::Inherited,
    }
}

/// The diagnostics that normalizing the actor-side items emits, in item
/// order: one widening warning per declared scope that cannot be mapped
/// precisely.
pub open spec fn item_diags(s: Seq<ImplItemV>) -> Seq<DiagnosticV>
    decreases s.len(),
{
    if s.len() == 0 {
        Seq::empty()
    } else {
        item_diags(s.drop_last()) + (if vis_warns(item_scope(s.last())) {
            seq![DiagnosticV::UnsupportedVisibility(restricted_path(item_scope(s.last())))]
        } else {
            Seq::empty()
        })
    }
}

/// The handle-side mirror of a method keeps the signature — declared scope,
/// name, receiver kind, parameters and return type — exactly; only the body
/// differs, becoming the forwarding operation tagged with the method's
/// identity over the method's own parameter names.
pub proof fn lemma_forwarded_method_signature(m: MethodItemV)
    ensures
        forwarded_method(m).vis == m.vis,
        forwarded_method(m).name == m.name,
        forwarded_method(m).receiver == m.receiver,
        forwarded_method(m).params == m.params,
        forwarded_method(m).ret == m.ret,
        forwarded_method(m).body == (MethodBodyV::Forward {
            message: m.name,
            args: param_names(m.params),
        }),
{
}

/// Both mirrors of an item list contain exactly as many items as the input,
/// in the input's order; the handle-side mirror rewrites the bodies of
/// exactly the methods and carries every non-method item over unchanged,
/// while the actor-side mirror keeps every body and changes nothing but
/// declared scopes.
pub proof fn lemma_mirror_items(s: Seq<ImplItemV>)
    ensures
        s.map_values(|it: ImplItemV| transformed_item(it)).len() == s.len(),
        s.map_values(|it: ImplItemV| normalized_item(it)).len() == s.len(),
        forall|i: int| 0 <= i < s.len() && !((#[trigger] s[i]) is Method)
            ==> s.map_values(|it: ImplItemV| transformed_item(it))[i] == s[i],
        forall|i: int| 0 <= i < s.len() ==> ((#[trigger] s[i]) matches ImplItemV::Method(m)
            ==> s.map_values(|it: ImplItemV| transformed_item(it))[i] == ImplItemV::Method(
            forwarded_method(m),
        )),
        forall|i: int| 0 <= i < s.len() ==> ((#[trigger] s[i]) matches ImplItemV::Method(m)
            ==> s.map_values(|it: ImplItemV| normalized_item(it))[i] == ImplItemV::Method(
            (MethodItemV { vis: normalize_vis(m.vis), ..m }),
        )),
{
}

/// Rewrites one method into its handle-side forwarding mirror.
pub fn transform_method(m: &MethodItem) -> (r: MethodItem)
    ensures
        r@ == forwarded_method(m@),
{
    let mut args: Vec<String> = Vec::new();
    let mut i: usize = 0;
    while i < m.params.len()
        invariant
            i <= m.params.len(),
            args@.len() == i,
            forall|j: int| 0 <= j < i ==> args@[j]@ == #[trigger] m.params@[j]@.name,
        decreases m.params.len() - i,
    {
        args.push(m.params[i].name.clone());
        i += 1;
    }
    let r = MethodItem {
        vis: clone_vis(&m.vis),
        name: m.name.clone(),
        receiver: m.receiver,
        params: clone_params(&m.params),
        ret: clone_opt_string(&m.ret),
        body: MethodBody::Forward { message: m.name.clone(), args },
    };
    proof {
        assert(r@.body->Forward_args =~= param_names(m@.params));
        assert(r@ =~~= forwarded_method(m@));
    }
    r
}

/// Builds the handle-side item list: every method is rewritten to forward,
/// every other item is carried over unchanged. An item shape outside the
/// designed grammar subset is an internal, unrecoverable error.
pub fn transform_items(items: &Vec<ImplItem>) -> (r: Result<Vec<ImplItem>, TransformError>)
    ensures
        r is Ok <==> items_transformable(items.deep_view()),
        r matches Ok(out) ==> out.deep_view() == items.deep_view().map_values(
            |it: ImplItemV| transformed_item(it),
        ),
        r matches Err(e) ==> e@ matches TransformErrorV::UnknownImplItem(t) && exists|i: int|
            0 <= i < items.deep_view().len() && items.deep_view()[i] == ImplItemV::Unknown(t),
{
    let mut out: Vec<ImplItem> = Vec::new();
    let mut i: usize = 0;
    while i < items.len()
        invariant
            i <= items.len(),
            out@.len() == i,
            forall|j: int| 0 <= j < i ==> out@[j]@ == transformed_item(#[trigger] items@[j]@),
            forall|j: int| 0 <= j < i ==> !(#[trigger] items@[j]@ is Unknown),
        decreases items.len() - i,
    {
        match &items[i] {
            ImplItem::Method(m) => {
                out.push(ImplItem::Method(transform_method(m)));
            },
            ImplItem::Unknown(t) => {
                proof {
                    assert(items.deep_view()[i as int] == ImplItemV::Unknown(t@));
                }
                return Err(TransformError::UnknownImplItem(t.clone()));
            },
            _ => {
                out.push(clone_impl_item(&items[i]));
            },
        }
        i += 1;
    }
    proof {
        assert(out.deep_view() =~~= items.deep_view().map_values(
            |it: ImplItemV| transformed_item(it),
        ));
    }
    Ok(out)
}

/// Builds the actor-side item list: a copy of the input items with every
/// declared scope normalized, plus the widening diagnostics in item order.
pub fn normalize_items(items: &Vec<ImplItem>) -> (r: (Vec<ImplItem>, Vec<Diagnostic>))
    requires
        forall|i: int| 0 <= i < items@.len() ==> item_wf(#[trigger] items@[i]@),
    ensures
        r.0.deep_view() == items.deep_view().map_values(|it: ImplItemV| normalized_item(it)),
        r.1.deep_view() == item_diags(items.deep_view()),
{
    let mut out: Vec<ImplItem> = Vec::new();
    let mut diags: Vec<Diagnostic> = Vec::new();
    let mut i: usize = 0;
    while i < items.len()
        invariant
            i <= items.len(),
            forall|j: int| 0 <= j < items@.len() ==> item_wf(#[trigger] items@[j]@),
            out@.len() == i,
            forall|j: int| 0 <= j < i ==> out@[j]@ == normalized_item(#[trigger] items@[j]@),
            diags.deep_view() == item_diags(items.deep_view().take(i as int)),
        decreases items.len() - i,
    {
        proof {
            assert(item_wf(items@[i as int]@));
        }
        let d: Option<Diagnostic>;
        match &items[i] {
            ImplItem::ConstItem { vis, name, text } => {
                let mut v = clone_vis(vis);
                d = set_visibility_min_pub_super(&mut v);
                out.push(ImplItem::ConstItem { vis: v, name: name.clone(), text: text.clone() });
            },
            ImplItem::TypeAlias { vis, name, text } => {
                let mut v = clone_vis(vis);
                d = set_visibility_min_pub_super(&mut v);
                out.push(ImplItem::TypeAlias { vis: v, name: name.clone(), text: text.clone() });
            },
            ImplItem::Method(m) => {
                let mut v = clone_vis(&m.vis);
                d = set_visibility_min_pub_super(&mut v);
                out.push(ImplItem::Method(MethodItem {
                    vis: v,
                    name: m.name.clone(),
                    receiver: m.receiver,
                    params: clone_params(&m.params),
                    ret: clone_opt_string(&m.ret),
                    body: clone_method_body(&m.body),
                }));
            },
            _ => {
                out.push(clone_impl_item(&items[i]));
                d = None;
            },
        }
        match d {
            Some(diag) => diags.push(diag),
            None => {},
        }
        proof {
            let s = items.deep_view();
            assert(s.take(i + 1).drop_last() =~= s.take(i as int));
            assert(s.take(i + 1).last() == s[i as int]);
            assert(out@[i as int]@ =~~= normalized_item(items@[i as int]@));
            assert(diags.deep_view() =~~= item_diags(s.take(i + 1)));
        }
        i += 1;
    }
    proof {
        assert(items.deep_view().take(items@.len() as int) =~= items.deep_view());
        assert(out.deep_view() =~~= items.deep_view().map_values(
            |it: ImplItemV| normalized_item(it),
        ));
    }
    (out, diags)
}

/// The leading `super` segment through which the handle-side implementation
/// names the public type from inside the generated namespace.
pub open spec fn super_seg() -> PathSegV {
    PathSegV { ident: "super"@, args: Seq::empty() }
}

/// A path with the generic arguments of its final segment removed, as used
/// in the namespace's import of the actor type.
pub open spec fn strip_last_args(p: Seq<PathSegV>) -> Seq<PathSegV>
    recommends
        p.len() > 0,
{
    p.update(p.len() - 1, PathSegV { ident: p.last().ident, args: Seq::empty() })
}

/// What the method transformer guarantees of its output for a given handler
/// block whose target is the path `p`, transformed while the namespace
/// counter stood at `n0`.
pub open spec fn handlers_output_ok(block: HandlerImplBlock, n0: nat, o: HandlerOutput) -> bool {
    let p = block.self_ty@->Path_0;
    &&& o.mod_name@ == impl_mod_chars(n0)
    &&& o.use_path@ == strip_last_args(insert_actor_seg(p))
    &&& o.actor_impl.generics.deep_view() == block.generics.deep_view()
    &&& o.actor_impl.self_ty@ == insert_actor_seg(p)
    &&& o.actor_impl.items.deep_view() == block.items.deep_view().map_values(
        |it: ImplItemV| normalized_item(it),
    )
    &&& o.handle_impl.generics.deep_view() == block.generics.deep_view()
    &&& o.handle_impl.self_ty@ == seq![super_seg()] + p
    &&& o.handle_impl.items.deep_view() == block.items.deep_view().map_values(
        |it: ImplItemV| transformed_item(it),
    )
}

/// Transforms one handler implementation block into the mirrored pair of
/// implementations inside a freshly numbered namespace. The target must be
/// a plain type path and every item a shape the transformer accepts; the
/// namespace counter advances exactly on success.
pub fn entangle_handlers_impl(block: HandlerImplBlock, counter: &mut ImplBlockCounter) -> (r:
    Result<(HandlerOutput, Vec<Diagnostic>), TransformError>)
    requires
        handler_block_wf(block),
        old(counter).next < u64::MAX,
    ensures
        r is Ok <==> (block.self_ty@ is Path && items_transformable(block.items.deep_view())),
        r matches Ok(p) ==> {
            &&& handlers_output_ok(block, old(counter).next as nat, p.0)
            &&& p.1.deep_view() == item_diags(block.items.deep_view())
            &&& final(counter).next == old(counter).next + 1
        },
        r matches Err(e) ==> {
            &&& final(counter).next == old(counter).next
            &&& match e@ {
                TransformErrorV::BadImplTarget(t) => block.self_ty@ == TargetTypeV::Other(t),
                TransformErrorV::UnknownImplItem(t) => block.self_ty@ is Path && exists|i: int|
                    0 <= i < block.items.deep_view().len() && block.items.deep_view()[i]
                        == ImplItemV::Unknown(t),
                TransformErrorV::BadReturnType(_) => false,
            }
        },
{
    let HandlerImplBlock { generics, self_ty, items } = block;
    match self_ty {
        TargetType::Other(t) => Err(TransformError::BadImplTarget(t)),
        TargetType::Path(path) => {
            let name = get_name_from_path(&path);
            let transformed = match transform_items(&items) {
                Ok(v) => v,
                Err(e) => {
                    return Err(e);
                },
            };
            let (actor_items, diags) = normalize_items(&items);
            let mod_name = counter.fresh_impl_mod_name();

            let mut wrapper_segs: Vec<PathSeg> = Vec::new();
            wrapper_segs.push(PathSeg { ident: "super".to_owned(), args: Vec::new() });
            let mut i: usize = 0;
            while i < path.segs.len()
                invariant
                    i <= path.segs.len(),
                    wrapper_segs@.len() == i + 1,
                    wrapper_segs@[0]@ == super_seg(),
                    forall|j: int| 0 <= j < i ==> wrapper_segs@[j + 1]@ == #[trigger] path.segs@[j]@,
                decreases path.segs.len() - i,
            {
                wrapper_segs.push(clone_seg(&path.segs[i]));
                i += 1;
            }
            let wrapper = TypePath { segs: wrapper_segs };
            proof {
                assert(wrapper@ =~~= seq![super_seg()] + path@);
            }

            let mut actor_path = clone_path(&path);
            transform_actor_path(name.as_str(), &mut actor_path);
            proof {
                assert(actor_path@ == insert_actor_seg(path@));
            }

            let mut use_path = clone_path(&actor_path);
            let last = use_path.segs.pop().unwrap();
            use_path.segs.push(PathSeg { ident: last.ident, args: Vec::new() });
            proof {
                assert(use_path@ =~~= strip_last_args(actor_path@));
            }

            let out = HandlerOutput {
                mod_name,
                use_path,
                actor_impl: ImplDecl {
                    generics: clone_strings(&generics),
                    self_ty: actor_path,
                    items: actor_items,
                },
                handle_impl: ImplDecl { generics, self_ty: wrapper, items: transformed },
            };
            Ok((out, diags))
        },
    }
}

} // verus!
